//! The exciter: how much of the effect is mixed in, from which frequency
//! upwards it works, and whether it is switched on.

use crate::audio::messages::{DeviceMessageType, Message};
use crate::manager::DeviceType;
use crate::types::{
    bool_bytes, bool_of_bytes, in_range, le_bytes, lemma_ranged_of_bytes, lemma_ranged_round_trip,
    ranged_of_bytes, read_bool, read_value, within, write_bool, write_value, BeacnValue,
    DecodeError, Percent, Ranged, NEGATIVE_ZERO,
};
use vstd::pervasive::unreached;
use vstd::prelude::*;

verus! {

/// A frequency between 0 and 5000 Hz.
#[derive(Copy, Clone, Debug, PartialEq, Eq, Structural)]
pub struct ExciterFreq {
    bits: u32,
}

/// The bit pattern of 5000.
pub const EXCITER_FREQ_MAX: u32 = 0x459C_4000;

impl ExciterFreq {
    #[verifier::type_invariant]
    spec fn holds_bound(self) -> bool {
        within(self.bits, EXCITER_FREQ_MAX)
    }
}

impl Ranged for ExciterFreq {
    open spec fn max_bits() -> u32 {
        EXCITER_FREQ_MAX
    }

    closed spec fn bits(&self) -> u32 {
        self.bits
    }

    closed spec fn with_bits(bits: u32) -> Self {
        ExciterFreq { bits }
    }

    proof fn lemma_bits(bits: u32, other: Self) {
    }

    proof fn lemma_max_is_finite() {
    }

    fn new(bits: u32) -> (made: Option<Self>) {
        if bits <= EXCITER_FREQ_MAX || bits == NEGATIVE_ZERO {
            Some(ExciterFreq { bits })
        } else {
            None
        }
    }

    fn to_bits(&self) -> (bits: u32) {
        proof {
            use_type_invariant(self);
        }
        self.bits
    }
}

/// The fields of the exciter, in the order of their field codes.
#[derive(Copy, Clone, Hash, Debug, Eq, PartialEq, Structural)]
pub enum ExciterKeys {
    /// The amount, a share between 0 and 100.
    Amount,
    /// The frequency, between 0 and 5000.
    Frequency,
    /// Whether the exciter is switched on.
    Enabled,
}

impl ExciterKeys {
    /// The field code, which is the first byte of the field's key.
    pub open spec fn code_of(self) -> u8 {
        match self {
            ExciterKeys::Amount => 0x01,
            ExciterKeys::Frequency => 0x02,
            ExciterKeys::Enabled => 0x03,
        }
    }

    /// The field with the given code, if there is one.
    pub open spec fn of_code(code: u8) -> Option<ExciterKeys> {
        if code == 0x01 {
            Some(ExciterKeys::Amount)
        } else if code == 0x02 {
            Some(ExciterKeys::Frequency)
        } else if code == 0x03 {
            Some(ExciterKeys::Enabled)
        } else {
            None
        }
    }

    /// A field is found again by its code, and a code names at most one field.
    pub proof fn lemma_codes(field: ExciterKeys, code: u8)
        ensures
            Self::of_code(field.code_of()) == Some(field),
            Self::of_code(code) == Some(field) ==> field.code_of() == code,
    {
    }

    /// Every field, by rising field code.
    pub open spec fn fields() -> Seq<ExciterKeys> {
        seq![ExciterKeys::Amount, ExciterKeys::Frequency, ExciterKeys::Enabled]
    }

    /// The field code.
    pub fn code(&self) -> (code: u8)
        ensures
            code == self.code_of(),
    {
        match self {
            ExciterKeys::Amount => 0x01,
            ExciterKeys::Frequency => 0x02,
            ExciterKeys::Enabled => 0x03,
        }
    }

    /// The field with the given code, if there is one.
    pub fn from_code(code: u8) -> (field: Option<ExciterKeys>)
        ensures
            field == Self::of_code(code),
    {
        match code {
            0x01 => Some(ExciterKeys::Amount),
            0x02 => Some(ExciterKeys::Frequency),
            0x03 => Some(ExciterKeys::Enabled),
            _ => None,
        }
    }

    /// Every field, by rising field code.
    pub fn all() -> (fields: [ExciterKeys; 3])
        ensures
            fields@ == Self::fields(),
    {
        let fields = [ExciterKeys::Amount, ExciterKeys::Frequency, ExciterKeys::Enabled];
        assert(fields@ =~= Self::fields());
        fields
    }
}

/// The messages of the exciter: for each field a request for its value, which
/// carries nothing, and the value itself, sent to change it or received in reply.
#[derive(Copy, Clone, Debug, PartialEq, Eq, Structural)]
pub enum Exciter {
    GetAmount,
    Amount(Percent),
    GetFrequency,
    Frequency(ExciterFreq),
    GetEnabled,
    Enabled(bool),
}

impl Exciter {
    /// On which devices the exciter exists: on all of them.
    pub open spec fn kind(self) -> DeviceMessageType {
        DeviceMessageType::Common
    }

    /// The field that the message is about.
    pub open spec fn field(self) -> ExciterKeys {
        match self {
            Exciter::GetAmount | Exciter::Amount(_) => ExciterKeys::Amount,
            Exciter::GetFrequency | Exciter::Frequency(_) => ExciterKeys::Frequency,
            Exciter::GetEnabled | Exciter::Enabled(_) => ExciterKeys::Enabled,
        }
    }

    /// Whether the message carries a value.
    pub open spec fn is_set(self) -> bool {
        self is Amount || self is Frequency || self is Enabled
    }

    /// Whether the value that the message carries, if any, respects its bound.
    pub open spec fn wf(self) -> bool {
        match self {
            Exciter::Amount(v) => in_range(v),
            Exciter::Frequency(v) => in_range(v),
            _ => true,
        }
    }

    /// The request for the value of a field.
    pub open spec fn getter_of(field: ExciterKeys) -> Exciter {
        match field {
            ExciterKeys::Amount => Exciter::GetAmount,
            ExciterKeys::Frequency => Exciter::GetFrequency,
            ExciterKeys::Enabled => Exciter::GetEnabled,
        }
    }

    /// The two key bytes of the message: the field code, padded with a zero.
    /// A request and a value of the same field have the same key.
    pub open spec fn key_bytes(self) -> Seq<u8> {
        seq![self.field().code_of(), 0u8]
    }

    /// The four value bytes of a message that carries a value.
    pub open spec fn value_bytes(self) -> Seq<u8>
        recommends
            self.is_set(),
    {
        match self {
            Exciter::Amount(v) => le_bytes(v.bits()),
            Exciter::Frequency(v) => le_bytes(v.bits()),
            Exciter::Enabled(v) => bool_bytes(v),
            _ => Seq::empty(),
        }
    }

    /// The message that a field key and a value received from a device stand
    /// for. The first key byte is the field code; the second is padding and
    /// plays no part.
    pub open spec fn from_wire(key: Seq<u8>, value: Seq<u8>) -> Result<Exciter, DecodeError>
        recommends
            key.len() == 2,
            value.len() == 4,
    {
        match ExciterKeys::of_code(key[0]) {
            Some(ExciterKeys::Amount) => match ranged_of_bytes::<Percent>(value) {
                Ok(v) => Ok(Exciter::Amount(v)),
                Err(e) => Err(e),
            },
            Some(ExciterKeys::Frequency) => match ranged_of_bytes::<ExciterFreq>(value) {
                Ok(v) => Ok(Exciter::Frequency(v)),
                Err(e) => Err(e),
            },
            Some(ExciterKeys::Enabled) => match bool_of_bytes(value) {
                Ok(v) => Ok(Exciter::Enabled(v)),
                Err(e) => Err(e),
            },
            None => Err(DecodeError::UnknownField),
        }
    }

    /// The requests that read the whole exciter: one per field, by rising field code.
    pub open spec fn fetch_list() -> Seq<Message> {
        ExciterKeys::fields().map_values(|field: ExciterKeys| Message::Exciter(Self::getter_of(field)))
    }

    /// A value that is encoded and sent under the key of its field decodes,
    /// under the key of the request for that field, to the same value.
    pub proof fn lemma_round_trip(message: Exciter)
        requires
            message.is_set(),
            message.wf(),
        ensures
            Self::getter_of(message.field()).key_bytes() == message.key_bytes(),
            message.value_bytes().len() == 4,
            Self::from_wire(message.key_bytes(), message.value_bytes()) == Ok::<
                Exciter,
                DecodeError,
            >(message),
    {
        match message {
            Exciter::Amount(v) => lemma_ranged_round_trip(v),
            Exciter::Frequency(v) => lemma_ranged_round_trip(v),
            _ => {},
        }
    }

    /// What decodes is a value of the field that the code names, within its
    /// bound. A code that names no field never decodes.
    pub proof fn lemma_from_wire(key: Seq<u8>, value: Seq<u8>)
        requires
            key.len() == 2,
            value.len() == 4,
        ensures
            Self::from_wire(key, value) matches Ok(m) ==> m.is_set() && m.wf()
                && ExciterKeys::of_code(key[0]) == Some(m.field()) && m.key_bytes()[0] == key[0],
            ExciterKeys::of_code(key[0]) is None <==> Self::from_wire(key, value) == Err::<
                Exciter,
                DecodeError,
            >(DecodeError::UnknownField),
    {
        lemma_ranged_of_bytes::<Percent>(value);
        lemma_ranged_of_bytes::<ExciterFreq>(value);
    }

    /// The list of requests holds one request per field, and the field codes rise.
    pub proof fn lemma_fetch_list()
        ensures
            Self::fetch_list().len() == ExciterKeys::fields().len(),
            forall|i: int|
                0 <= i < Self::fetch_list().len() ==> #[trigger] Self::fetch_list()[i]
                    == Message::Exciter(Self::getter_of(ExciterKeys::fields()[i]))
                    && !Self::fetch_list()[i].is_set(),
            forall|i: int, j: int|
                0 <= i < j < ExciterKeys::fields().len() ==> (#[trigger] ExciterKeys::fields()[i]).code_of()
                    < (#[trigger] ExciterKeys::fields()[j]).code_of(),
            forall|field: ExciterKeys| #[trigger]
                ExciterKeys::fields().contains(field),
    {
        assert forall|field: ExciterKeys| #[trigger] ExciterKeys::fields().contains(field) by {
            match field {
                ExciterKeys::Amount => assert(ExciterKeys::fields()[0] == field),
                ExciterKeys::Frequency => assert(ExciterKeys::fields()[1] == field),
                ExciterKeys::Enabled => assert(ExciterKeys::fields()[2] == field),
            }
        }
    }

    /// On which devices the exciter exists.
    pub fn get_device_message_type(&self) -> (kind: DeviceMessageType)
        ensures
            kind == self.kind(),
    {
        DeviceMessageType::Common
    }

    /// Whether the message carries a value.
    pub fn is_device_message_set(&self) -> (set: bool)
        ensures
            set == self.is_set(),
    {
        match self {
            Exciter::Amount(_) | Exciter::Frequency(_) | Exciter::Enabled(_) => true,
            _ => false,
        }
    }

    /// The field that the message is about.
    pub fn key(&self) -> (field: ExciterKeys)
        ensures
            field == self.field(),
    {
        match self {
            Exciter::Amount(_) | Exciter::GetAmount => ExciterKeys::Amount,
            Exciter::Frequency(_) | Exciter::GetFrequency => ExciterKeys::Frequency,
            Exciter::Enabled(_) | Exciter::GetEnabled => ExciterKeys::Enabled,
        }
    }

    /// The request for the value of a field.
    pub fn getter(field: ExciterKeys) -> (request: Exciter)
        ensures
            request == Self::getter_of(field),
    {
        match field {
            ExciterKeys::Amount => Exciter::GetAmount,
            ExciterKeys::Frequency => Exciter::GetFrequency,
            ExciterKeys::Enabled => Exciter::GetEnabled,
        }
    }

    /// The two key bytes of the message.
    pub fn to_beacn_key(&self) -> (key: [u8; 2])
        ensures
            key@ == self.key_bytes(),
    {
        let key: [u8; 2] = [self.key().code(), 0x00];
        assert(key@ =~= self.key_bytes());
        key
    }

    /// The four value bytes of a message that carries a value. A request
    /// carries none and has no wire value.
    pub fn to_beacn_value(&self) -> (value: BeacnValue)
        requires
            self.is_set(),
        ensures
            value@ == self.value_bytes(),
    {
        match self {
            Exciter::Amount(v) => write_value(v),
            Exciter::Frequency(v) => write_value(v),
            Exciter::Enabled(v) => write_bool(*v),
            _ => unreached(),
        }
    }

    /// Decodes a field key and a value, or says why they stand for no message:
    /// the field code is unknown, or the value is none of the field's type.
    pub fn try_from_beacn(key: [u8; 2], value: BeacnValue, _device_type: DeviceType) -> (decoded:
        Result<Exciter, DecodeError>)
        ensures
            decoded == Self::from_wire(key@, value@),
    {
        match ExciterKeys::from_code(key[0]) {
            Some(ExciterKeys::Amount) => match read_value::<Percent>(&value) {
                Ok(v) => Ok(Exciter::Amount(v)),
                Err(e) => Err(e),
            },
            Some(ExciterKeys::Frequency) => match read_value::<ExciterFreq>(&value) {
                Ok(v) => Ok(Exciter::Frequency(v)),
                Err(e) => Err(e),
            },
            Some(ExciterKeys::Enabled) => match read_bool(&value) {
                Ok(v) => Ok(Exciter::Enabled(v)),
                Err(e) => Err(e),
            },
            None => Err(DecodeError::UnknownField),
        }
    }

    /// Decodes a field key and a value that are known to stand for a message.
    /// An unknown field code or a malformed value is outside the protocol and
    /// is not accepted here.
    pub fn from_beacn(key: [u8; 2], value: BeacnValue, device_type: DeviceType) -> (message: Exciter)
        requires
            Self::from_wire(key@, value@) is Ok,
        ensures
            Self::from_wire(key@, value@) == Ok::<Exciter, DecodeError>(message),
    {
        match Self::try_from_beacn(key, value, device_type) {
            Ok(message) => message,
            Err(_) => unreached(),
        }
    }

    /// The requests that read the whole exciter: one per field, by rising field code.
    pub fn generate_fetch_message(_device_type: DeviceType) -> (requests: Vec<Message>)
        ensures
            requests@ == Self::fetch_list(),
    {
        let fields = ExciterKeys::all();
        let mut requests: Vec<Message> = Vec::new();
        let mut i: usize = 0;
        while i < 3
            invariant
                i <= 3,
                fields@ == ExciterKeys::fields(),
                requests@ == Self::fetch_list().take(i as int),
            decreases 3 - i,
        {
            requests.push(Message::Exciter(Self::getter(fields[i])));
            assert(requests@ =~= Self::fetch_list().take(i + 1));
            i = i + 1;
        }
        assert(requests@ =~= Self::fetch_list());
        requests
    }
}

} // verus!
