//! A session with one device: finding it, the handshake that reads its
//! firmware version and serial number, and the exchanges that read and change
//! its parameters.
//!
//! The session does not touch the USB bus. It says which transport action comes
//! next and is told how that action ended; the caller performs the action.

use crate::audio::messages::{DeviceMessageType, Message};
use crate::device::exchange::{reply_error, Exchange};
use crate::device::session::Session;
use crate::device::transport::{Action, OPCODE_VALUE, REPLY_LEN};
use crate::manager::{DeviceInfo, DeviceLocation, DeviceType, VENDOR_BEACN};
use crate::types::{BeacnValue, DecodeError};
use crate::version::VersionNumber;
use vstd::prelude::*;

pub mod exchange;
pub mod identity;
pub mod session;
pub mod transport;

verus! {

/// Why opening a session or an exchange with the device failed.
#[derive(Copy, Clone, Debug, PartialEq, Eq, Structural)]
pub enum DeviceError {
    /// No device of the vendor sits at the given location.
    NotFound,
    /// The device there is neither a Mic nor a Studio.
    UnsupportedDevice,
    /// The transport failed or, outside the handshake, timed out.
    TransportError,
    /// The handshake timed out, or the reply to the identify request is too
    /// short to hold a version.
    HandshakeError,
    /// The message is not understood by this kind of device.
    IncompatibleDevice,
    /// The reply does not answer the request: it is not eight bytes long, does
    /// not echo the first two key bytes, or does not report a value.
    ProtocolError,
    /// The device does not hold the value that was written to it.
    VerificationFailed,
    /// The reply names no known field or holds a malformed value. The device
    /// and this library then disagree about the protocol; no retry mends that.
    DecodeError(DecodeError),
}

/// Whether a kind of device understands the messages of a family.
pub open spec fn accepts(device_type: DeviceType, kind: DeviceMessageType) -> bool {
    match kind {
        DeviceMessageType::Common => true,
        DeviceMessageType::BeacnMic => device_type == DeviceType::BeacnMic,
        DeviceMessageType::BeacnStudio => device_type == DeviceType::BeacnStudio,
    }
}

/// Whether a kind of device understands the messages of a family.
pub fn device_accepts(device_type: DeviceType, kind: DeviceMessageType) -> (accepted: bool)
    ensures
        accepted == accepts(device_type, kind),
{
    match kind {
        DeviceMessageType::Common => true,
        DeviceMessageType::BeacnMic => device_type == DeviceType::BeacnMic,
        DeviceMessageType::BeacnStudio => device_type == DeviceType::BeacnStudio,
    }
}

/// The position of the first device of the vendor that sits at `location`, at
/// or after `start`, or the length of `devices` where there is none.
pub open spec fn device_from(devices: Seq<DeviceInfo>, location: DeviceLocation, start: int) -> int
    decreases devices.len() - start,
{
    if start >= devices.len() {
        devices.len() as int
    } else if devices[start].is_at(location) {
        start
    } else {
        device_from(devices, location, start + 1)
    }
}

/// What `device_from` finds: no device between `start` and the position is of
/// the vendor and at `location`, and the position is the end of `devices` or
/// holds such a device.
pub proof fn lemma_device_from(devices: Seq<DeviceInfo>, location: DeviceLocation, start: int)
    requires
        0 <= start <= devices.len(),
    ensures
        start <= device_from(devices, location, start) <= devices.len(),
        forall|i: int|
            start <= i < device_from(devices, location, start) ==> !(#[trigger] devices[i]).is_at(
                location,
            ),
        device_from(devices, location, start) < devices.len() ==> devices[device_from(
            devices,
            location,
            start,
        )].is_at(location),
    decreases devices.len() - start,
{
    if start < devices.len() && !devices[start].is_at(location) {
        lemma_device_from(devices, location, start + 1);
    }
}

/// Appends a character to a string, as `String::push` does.
pub assume_specification[ String::push ](text: &mut String, ch: char)
    ensures
        final(text)@ == old(text)@.push(ch),
;

/// The character of a decimal digit.
pub open spec fn digit_of(value: nat) -> char
    recommends
        value < 10,
{
    if value == 0 {
        '0'
    } else if value == 1 {
        '1'
    } else if value == 2 {
        '2'
    } else if value == 3 {
        '3'
    } else if value == 4 {
        '4'
    } else if value == 5 {
        '5'
    } else if value == 6 {
        '6'
    } else if value == 7 {
        '7'
    } else if value == 8 {
        '8'
    } else {
        '9'
    }
}

/// A number written in decimal, without leading zeros.
pub open spec fn decimal(n: nat) -> Seq<char>
    decreases n,
{
    if n < 10 {
        seq![digit_of(n)]
    } else {
        decimal(n / 10).push(digit_of(n % 10))
    }
}

/// A location as text: bus number, a dot, address.
pub open spec fn location_text(location: DeviceLocation) -> Seq<char> {
    decimal(location.bus_number as nat) + seq!['.'] + decimal(location.address as nat)
}

/// The character of a decimal digit.
fn digit(value: u8) -> (ch: char)
    requires
        value < 10,
    ensures
        ch == digit_of(value as nat),
{
    match value {
        0 => '0',
        1 => '1',
        2 => '2',
        3 => '3',
        4 => '4',
        5 => '5',
        6 => '6',
        7 => '7',
        8 => '8',
        _ => '9',
    }
}

/// Appends a number in decimal to a text.
fn push_decimal(text: &mut String, n: u8)
    ensures
        final(text)@ == old(text)@ + decimal(n as nat),
{
    reveal_with_fuel(decimal, 3);
    if n >= 100 {
        text.push(digit(n / 100));
    }
    if n >= 10 {
        text.push(digit((n / 10) % 10));
    }
    text.push(digit(n % 10));
    assert(text@ =~= old(text)@ + decimal(n as nat));
}

/// An open session: what is known of the device once the handshake is done.
#[derive(Debug, PartialEq, Eq)]
pub struct BeacnMic {
    device_type: DeviceType,
    location: DeviceLocation,
    serial: String,
    firmware_version: VersionNumber,
}

impl BeacnMic {
    #[verifier::type_invariant]
    spec fn holds_valid_version(self) -> bool {
        self.firmware_version.is_valid()
    }

    /// The kind of the device.
    pub closed spec fn device_type(self) -> DeviceType {
        self.device_type
    }

    /// Where the device sits.
    pub closed spec fn location(self) -> DeviceLocation {
        self.location
    }

    /// The serial number of the device.
    pub closed spec fn serial(self) -> Seq<char> {
        self.serial@
    }

    /// The firmware version of the device.
    pub closed spec fn version(self) -> VersionNumber {
        self.firmware_version
    }

    /// The serial number of the device.
    pub fn get_serial(&self) -> (serial: String)
        ensures
            serial@ == self.serial(),
    {
        self.serial.clone()
    }

    /// The firmware version of the device.
    pub fn get_version(&self) -> (version: VersionNumber)
        ensures
            version == self.version(),
            version.is_valid(),
    {
        proof {
            use_type_invariant(self);
        }
        self.firmware_version
    }

    /// Where the device sits, as text: bus number, a dot, address.
    pub fn get_location(&self) -> (text: String)
        ensures
            text@ == location_text(self.location()),
    {
        let mut text = String::new();
        push_decimal(&mut text, self.location.bus_number);
        text.push('.');
        push_decimal(&mut text, self.location.address);
        assert(text@ =~= location_text(self.location()));
        text
    }

    /// Whether the device of this session understands a message.
    pub fn is_command_valid(&self, message: Message) -> (valid: bool)
        ensures
            valid == accepts(self.device_type(), message.kind()),
    {
        device_accepts(self.device_type, message.get_device_message_type())
    }

    /// Begins a session with the device at `location`. Nothing has been done
    /// yet: the first step is to list the attached devices.
    pub fn open(location: DeviceLocation) -> (session: Session)
        ensures
            session == (Session::Unopened { location }),
    {
        Session::Unopened { location }
    }

    /// Begins reading the parameter that `message` is about. A message that
    /// the device does not understand ends the exchange at once, before
    /// anything is sent.
    pub fn fetch_value(&self, message: Message) -> (exchange: Exchange)
        ensures
            !accepts(self.device_type(), message.kind()) ==> exchange == Exchange::Done(
                Err(DeviceError::IncompatibleDevice),
            ) && exchange.pending() == Action::Finish,
            accepts(self.device_type(), message.kind()) ==> {
                &&& exchange matches Exchange::Asking { device_type, key, expected }
                &&& device_type == self.device_type()
                &&& key@ == message.key_bytes()
                &&& expected is None
            },
    {
        if !self.is_command_valid(message) {
            return Exchange::Done(Err(DeviceError::IncompatibleDevice));
        }
        Exchange::Asking {
            device_type: self.device_type,
            key: message.to_beacn_key(),
            expected: None,
        }
    }

    /// Begins changing the parameter that `message` is about to the value it
    /// carries. A message that the device does not understand ends the
    /// exchange at once, before anything is sent. A request carries no value
    /// and cannot be written to a device that would understand it.
    pub fn set_value(&self, message: Message) -> (exchange: Exchange)
        requires
            accepts(self.device_type(), message.kind()) ==> message.is_set(),
        ensures
            !accepts(self.device_type(), message.kind()) ==> exchange == Exchange::Done(
                Err(DeviceError::IncompatibleDevice),
            ) && exchange.pending() == Action::Finish,
            accepts(self.device_type(), message.kind()) ==> {
                &&& exchange matches Exchange::Writing { device_type, key, value }
                &&& device_type == self.device_type()
                &&& key@ == message.key_bytes()
                &&& value@ == message.value_bytes()
            },
    {
        if !self.is_command_valid(message) {
            return Exchange::Done(Err(DeviceError::IncompatibleDevice));
        }
        Exchange::Writing {
            device_type: self.device_type,
            key: message.to_beacn_key(),
            value: message.to_beacn_value(),
        }
    }

    /// Checks the reply to the request for the value behind `key` and hands
    /// its eight bytes on.
    pub fn param_lookup(key: [u8; 3], reply: &[u8]) -> (checked: Result<[u8; 8], DeviceError>)
        ensures
            match checked {
                Ok(bytes) => reply_error(key@, None, reply@) is None && bytes@ == reply@,
                Err(error) => reply_error(key@, None, reply@) == Some(error),
            },
    {
        if reply.len() != REPLY_LEN || reply[0] != key[0] || reply[1] != key[1] || reply[3]
            != OPCODE_VALUE {
            return Err(DeviceError::ProtocolError);
        }
        let bytes: [u8; 8] = [
            reply[0],
            reply[1],
            reply[2],
            reply[3],
            reply[4],
            reply[5],
            reply[6],
            reply[7],
        ];
        assert(bytes@ =~= reply@);
        Ok(bytes)
    }

    /// Checks the reply that was read back after `value` was written behind
    /// `key`: it has to answer the request and to report exactly that value.
    pub fn param_set(key: [u8; 3], value: BeacnValue, reply: &[u8]) -> (checked: Result<
        [u8; 8],
        DeviceError,
    >)
        ensures
            match checked {
                Ok(bytes) => reply_error(key@, Some(value@), reply@) is None && bytes@ == reply@,
                Err(error) => reply_error(key@, Some(value@), reply@) == Some(error),
            },
    {
        let bytes = match Self::param_lookup(key, reply) {
            Ok(bytes) => bytes,
            Err(error) => {
                return Err(error);
            },
        };
        if bytes[4] != value[0] || bytes[5] != value[1] || bytes[6] != value[2] || bytes[7]
            != value[3] {
            assert(reply@.subrange(4, 8) != value@) by {
                if reply@.subrange(4, 8) == value@ {
                    assert(reply@.subrange(4, 8)[0] == value@[0]);
                    assert(reply@.subrange(4, 8)[1] == value@[1]);
                    assert(reply@.subrange(4, 8)[2] == value@[2]);
                    assert(reply@.subrange(4, 8)[3] == value@[3]);
                }
            }
            return Err(DeviceError::VerificationFailed);
        }
        assert(reply@.subrange(4, 8) =~= value@);
        Ok(bytes)
    }

    /// Picks the device to open from those attached: the first one of the
    /// vendor that sits at `location`.
    pub fn find_device(location: DeviceLocation, devices: &[DeviceInfo]) -> (found: Result<
        usize,
        DeviceError,
    >)
        ensures
            match found {
                Ok(index) => index == device_from(devices@, location, 0) && index < devices@.len(),
                Err(error) => error == DeviceError::NotFound && device_from(devices@, location, 0)
                    >= devices@.len(),
            },
    {
        let mut i: usize = 0;
        while i < devices.len()
            invariant
                i <= devices@.len(),
                device_from(devices@, location, 0) == device_from(devices@, location, i as int),
            decreases devices@.len() - i,
        {
            let device = &devices[i];
            if device.vendor_id == VENDOR_BEACN && device.location == location {
                return Ok(i);
            }
            i = i + 1;
        }
        Err(DeviceError::NotFound)
    }
}

} // verus!
