//! The transport as the session sees it: the actions it asks for, the events
//! it is told of, and the fixed numbers of the protocol.

use crate::manager::DeviceInfo;
use vstd::prelude::*;

verus! {

/// The interface of the device that carries the parameter protocol.
pub const INTERFACE: u8 = 3;

/// The alternate setting of that interface that a session selects.
pub const ALTERNATE_SETTING: u8 = 1;

/// The bulk endpoint that requests are written to.
pub const ENDPOINT_OUT: u8 = 0x03;

/// The bulk endpoint that replies are read from.
pub const ENDPOINT_IN: u8 = 0x83;

/// The last byte of the request that starts the handshake.
pub const OPCODE_SETUP: u8 = 0xa0;

/// The last byte of the request for version and serial number.
pub const OPCODE_IDENTIFY: u8 = 0xa1;

/// The fourth byte of a request for the value of a parameter.
pub const OPCODE_LOOKUP: u8 = 0xa3;

/// The fourth byte of a request that changes a parameter, and of every reply
/// that reports a value.
pub const OPCODE_VALUE: u8 = 0xa4;

/// The most bytes that the reply to the identify request can have.
pub const IDENTITY_CAPACITY: usize = 512;

/// The length of a reply that reports a value.
pub const REPLY_LEN: usize = 8;

/// How long each step of the handshake may take, in milliseconds.
pub const SETUP_TIMEOUT_MS: u64 = 2000;

/// How long asking for a value and reading the reply may each take, in milliseconds.
pub const LOOKUP_TIMEOUT_MS: u64 = 3000;

/// How long writing a new value may take, in milliseconds.
pub const SET_TIMEOUT_MS: u64 = 200;

/// What the caller has to do on the transport before the next step.
#[derive(Copy, Clone, Debug, PartialEq, Eq, Structural)]
pub enum Action {
    /// List the attached USB devices, leaving out those whose descriptor cannot
    /// be read.
    Enumerate,
    /// Open the device at `index` of the list, claim `interface`, select its
    /// `alternate_setting` and clear the halt condition on `endpoint`.
    Connect { index: usize, interface: u8, alternate_setting: u8, endpoint: u8 },
    /// Write the outgoing bytes to the bulk endpoint `endpoint`.
    Write { endpoint: u8, timeout_ms: u64 },
    /// Read at most `capacity` bytes from the bulk endpoint `endpoint`.
    Read { endpoint: u8, capacity: usize, timeout_ms: u64 },
    /// Nothing: the session or exchange has come to its end.
    Finish,
}

/// How a transport action ended.
#[derive(Debug, PartialEq, Eq)]
pub enum Event {
    /// The devices that were listed.
    Enumerated(Vec<DeviceInfo>),
    /// The device was connected, or the bytes were written.
    Completed,
    /// The bytes that were read.
    Received(Vec<u8>),
    /// The action ran out of time.
    TimedOut,
    /// The action failed in any other way.
    Failed,
}

} // verus!
