//! The messages that read and change device parameters, one family per
//! subsystem, and their wire form: a three-byte key and a four-byte value.

use crate::audio::messages::exciter::Exciter;
use crate::manager::DeviceType;
use crate::types::{BeacnValue, DecodeError};
use vstd::pervasive::unreached;
use vstd::prelude::*;

pub mod exciter;

verus! {

/// The first key byte of every message of the exciter family.
pub const EXCITER_FAMILY: u8 = 0x0b;

/// On which devices the messages of a family are understood.
#[derive(Copy, Clone, Debug, PartialEq, Eq, Structural)]
pub enum DeviceMessageType {
    /// On every device.
    Common,
    /// On the Beacn Mic only.
    BeacnMic,
    /// On the Beacn Studio only.
    BeacnStudio,
}

/// A request to read or to change one parameter, or the value that a device
/// reported for one.
#[derive(Copy, Clone, Debug, PartialEq, Eq, Structural)]
pub enum Message {
    Exciter(Exciter),
}

impl Message {
    /// On which devices the message is understood.
    pub open spec fn kind(self) -> DeviceMessageType {
        match self {
            Message::Exciter(m) => m.kind(),
        }
    }

    /// Whether the message carries a value.
    pub open spec fn is_set(self) -> bool {
        match self {
            Message::Exciter(m) => m.is_set(),
        }
    }

    /// Whether the value that the message carries, if any, respects its bound.
    pub open spec fn wf(self) -> bool {
        match self {
            Message::Exciter(m) => m.wf(),
        }
    }

    /// The three key bytes: the family, then the two bytes of the field.
    pub open spec fn key_bytes(self) -> Seq<u8> {
        match self {
            Message::Exciter(m) => seq![EXCITER_FAMILY] + m.key_bytes(),
        }
    }

    /// The four value bytes of a message that carries a value.
    pub open spec fn value_bytes(self) -> Seq<u8>
        recommends
            self.is_set(),
    {
        match self {
            Message::Exciter(m) => m.value_bytes(),
        }
    }

    /// The message that the eight bytes of a reply stand for: the first byte
    /// names the family, the next two the field, the last four are the value.
    /// The fourth byte belongs to the framing and plays no part.
    pub open spec fn of_reply(reply: Seq<u8>) -> Result<Message, DecodeError>
        recommends
            reply.len() == 8,
    {
        if reply[0] == EXCITER_FAMILY {
            match Exciter::from_wire(reply.subrange(1, 3), reply.subrange(4, 8)) {
                Ok(m) => Ok(Message::Exciter(m)),
                Err(e) => Err(e),
            }
        } else {
            Err(DecodeError::UnknownField)
        }
    }

    /// A value that is encoded and sent comes back unchanged from a reply
    /// that repeats its key and its value bytes, whatever the reply holds in
    /// its third and fourth byte.
    pub proof fn lemma_round_trip(message: Message, pad: u8, opcode: u8)
        requires
            message.is_set(),
            message.wf(),
        ensures
            message.key_bytes().len() == 3,
            message.value_bytes().len() == 4,
            Self::of_reply(
                seq![message.key_bytes()[0], message.key_bytes()[1], pad, opcode]
                    + message.value_bytes(),
            ) == Ok::<Message, DecodeError>(message),
    {
        let Message::Exciter(inner) = message;
        let reply = seq![message.key_bytes()[0], message.key_bytes()[1], pad, opcode]
            + message.value_bytes();
        Exciter::lemma_round_trip(inner);
        assert(reply.subrange(4, 8) =~= inner.value_bytes());
        assert(reply.subrange(1, 3)[0] == inner.key_bytes()[0]);
    }

    /// What a reply stands for is a value within its bound, and its key
    /// begins with the first two bytes of the reply.
    pub proof fn lemma_of_reply(reply: Seq<u8>)
        requires
            reply.len() == 8,
        ensures
            Self::of_reply(reply) matches Ok(m) ==> m.is_set() && m.wf() && m.key_bytes()[0]
                == reply[0] && m.key_bytes()[1] == reply[1],
    {
        Exciter::lemma_from_wire(reply.subrange(1, 3), reply.subrange(4, 8));
    }

    /// On which devices the message is understood.
    pub fn get_device_message_type(&self) -> (kind: DeviceMessageType)
        ensures
            kind == self.kind(),
    {
        match self {
            Message::Exciter(m) => m.get_device_message_type(),
        }
    }

    /// Whether the message carries a value.
    pub fn is_device_message_set(&self) -> (set: bool)
        ensures
            set == self.is_set(),
    {
        match self {
            Message::Exciter(m) => m.is_device_message_set(),
        }
    }

    /// The protocol key of the message.
    pub fn to_beacn_key(&self) -> (key: [u8; 3])
        ensures
            key@ == self.key_bytes(),
    {
        match self {
            Message::Exciter(m) => {
                let field = m.to_beacn_key();
                let key: [u8; 3] = [EXCITER_FAMILY, field[0], field[1]];
                assert(key@ =~= self.key_bytes());
                key
            },
        }
    }

    /// The protocol value of a message that carries one.
    pub fn to_beacn_value(&self) -> (value: BeacnValue)
        requires
            self.is_set(),
        ensures
            value@ == self.value_bytes(),
    {
        match self {
            Message::Exciter(m) => m.to_beacn_value(),
        }
    }

    /// Decodes the eight bytes of a reply, or says why they stand for no message.
    pub fn try_from_beacn_message(reply: [u8; 8], device_type: DeviceType) -> (decoded: Result<
        Message,
        DecodeError,
    >)
        ensures
            decoded == Self::of_reply(reply@),
    {
        if reply[0] == EXCITER_FAMILY {
            let key: [u8; 2] = [reply[1], reply[2]];
            let value: BeacnValue = [reply[4], reply[5], reply[6], reply[7]];
            assert(key@ =~= reply@.subrange(1, 3));
            assert(value@ =~= reply@.subrange(4, 8));
            match Exciter::try_from_beacn(key, value, device_type) {
                Ok(m) => Ok(Message::Exciter(m)),
                Err(e) => Err(e),
            }
        } else {
            Err(DecodeError::UnknownField)
        }
    }

    /// Decodes the eight bytes of a reply that is known to stand for a message.
    pub fn from_beacn_message(reply: [u8; 8], device_type: DeviceType) -> (message: Message)
        requires
            Self::of_reply(reply@) is Ok,
        ensures
            Self::of_reply(reply@) == Ok::<Message, DecodeError>(message),
    {
        match Self::try_from_beacn_message(reply, device_type) {
            Ok(message) => message,
            Err(_) => unreached(),
        }
    }
}

} // verus!
