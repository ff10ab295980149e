//! Reading and changing a parameter: the requests, the reply, and what the
//! reply means.

use crate::audio::messages::Message;
use crate::device::transport::{
    Action, Event, ENDPOINT_IN, ENDPOINT_OUT, LOOKUP_TIMEOUT_MS, OPCODE_LOOKUP, OPCODE_VALUE,
    REPLY_LEN, SET_TIMEOUT_MS,
};
use crate::device::{BeacnMic, DeviceError};
use crate::manager::DeviceType;
use crate::types::BeacnValue;
use vstd::prelude::*;
use vstd::slice::slice_to_vec;

verus! {

/// The request for the value behind a key: the key, then the lookup opcode.
pub open spec fn lookup_request_bytes(key: Seq<u8>) -> Seq<u8>
    recommends
        key.len() == 3,
{
    key.push(OPCODE_LOOKUP)
}

/// The request that puts a value behind a key: the key, the value opcode, the value.
pub open spec fn set_request_bytes(key: Seq<u8>, value: Seq<u8>) -> Seq<u8>
    recommends
        key.len() == 3,
        value.len() == 4,
{
    key.push(OPCODE_VALUE) + value
}

/// Whether a reply answers the request for the value behind a key: it is eight
/// bytes long, echoes the first two key bytes and reports a value. The third
/// byte of the reply is not compared with the key.
pub open spec fn answers(key: Seq<u8>, reply: Seq<u8>) -> bool
    recommends
        key.len() == 3,
{
    reply.len() == 8 && reply[0] == key[0] && reply[1] == key[1] && reply[3] == OPCODE_VALUE
}

/// What is wrong with a reply, if anything: it does not answer the request, or
/// it reports another value than the one that was written just before.
pub open spec fn reply_error(key: Seq<u8>, written: Option<Seq<u8>>, reply: Seq<u8>) -> Option<
    DeviceError,
>
    recommends
        key.len() == 3,
{
    if !answers(key, reply) {
        Some(DeviceError::ProtocolError)
    } else if written is Some && reply.subrange(4, 8) != written->Some_0 {
        Some(DeviceError::VerificationFailed)
    } else {
        None
    }
}

/// How an exchange ends once the reply is in: with the error of the reply, or
/// with the message that the reply stands for.
pub open spec fn outcome(key: Seq<u8>, written: Option<Seq<u8>>, reply: Seq<u8>) -> Result<
    Message,
    DeviceError,
>
    recommends
        key.len() == 3,
{
    match reply_error(key, written, reply) {
        Some(error) => Err(error),
        None => match Message::of_reply(reply) {
            Ok(message) => Ok(message),
            Err(error) => Err(DeviceError::DecodeError(error)),
        },
    }
}

/// Builds the request for the value behind a key.
pub fn lookup_request(key: [u8; 3]) -> (request: [u8; 4])
    ensures
        request@ == lookup_request_bytes(key@),
{
    let request: [u8; 4] = [key[0], key[1], key[2], OPCODE_LOOKUP];
    assert(request@ =~= lookup_request_bytes(key@));
    request
}

/// Builds the request that puts a value behind a key.
pub fn set_request(key: [u8; 3], value: BeacnValue) -> (request: [u8; 8])
    ensures
        request@ == set_request_bytes(key@, value@),
{
    let request: [u8; 8] = [
        key[0],
        key[1],
        key[2],
        OPCODE_VALUE,
        value[0],
        value[1],
        value[2],
        value[3],
    ];
    assert(request@ =~= set_request_bytes(key@, value@));
    request
}

/// A value that was written is verified: the exchange succeeds only if the
/// reply reports exactly the bytes that were written, and a reply that
/// answers the request with other bytes is a failed verification.
pub proof fn lemma_written_is_verified(key: Seq<u8>, value: Seq<u8>, reply: Seq<u8>)
    ensures
        outcome(key, Some(value), reply) is Ok ==> answers(key, reply) && reply.subrange(4, 8)
            == value,
        answers(key, reply) && reply.subrange(4, 8) != value ==> outcome(key, Some(value), reply)
            == Err::<Message, DeviceError>(DeviceError::VerificationFailed),
        !answers(key, reply) ==> outcome(key, Some(value), reply) == Err::<Message, DeviceError>(
            DeviceError::ProtocolError,
        ),
{
}

/// The reply to a request is about the parameter that was asked for: the
/// message that the exchange ends with is a value within its bound, and its
/// key begins with the first two bytes of the key of the request.
pub proof fn lemma_reply_is_about_request(key: Seq<u8>, written: Option<Seq<u8>>, reply: Seq<u8>)
    ensures
        outcome(key, written, reply) matches Ok(reported) ==> reported.is_set() && reported.wf()
            && reported.key_bytes()[0] == key[0] && reported.key_bytes()[1] == key[1],
{
    if answers(key, reply) {
        Message::lemma_of_reply(reply);
    }
}

/// A device that reports back the value it was sent confirms the message: the
/// exchange that writes a value within its bound ends with the message written.
pub proof fn lemma_echo_confirms(message: Message, pad: u8)
    requires
        message.is_set(),
        message.wf(),
    ensures
        outcome(
            message.key_bytes(),
            Some(message.value_bytes()),
            seq![message.key_bytes()[0], message.key_bytes()[1], pad, OPCODE_VALUE]
                + message.value_bytes(),
        ) == Ok::<Message, DeviceError>(message),
{
    let reply = seq![message.key_bytes()[0], message.key_bytes()[1], pad, OPCODE_VALUE]
        + message.value_bytes();
    Message::lemma_round_trip(message, pad, OPCODE_VALUE);
    assert(reply.subrange(4, 8) =~= message.value_bytes());
}

/// Reading or changing one parameter: the request or requests to write, the
/// reply to read, and the result.
#[derive(Copy, Clone, Debug, PartialEq, Eq)]
pub enum Exchange {
    /// The request that puts `value` behind `key` has to be written.
    Writing { device_type: DeviceType, key: [u8; 3], value: BeacnValue },
    /// The request for the value behind `key` has to be written. `expected`
    /// is the value that was written just before, if one was.
    Asking { device_type: DeviceType, key: [u8; 3], expected: Option<BeacnValue> },
    /// The reply has to be read.
    Awaiting { device_type: DeviceType, key: [u8; 3], expected: Option<BeacnValue> },
    /// The exchange has ended, with the message that the device reported or
    /// with an error.
    Done(Result<Message, DeviceError>),
}

/// The bytes of the value that was written, if one was.
pub open spec fn written(expected: Option<BeacnValue>) -> Option<Seq<u8>> {
    match expected {
        Some(value) => Some(value@),
        None => None,
    }
}

impl Exchange {
    /// Where the exchange stands after `event`.
    ///
    /// A write that went through leads to the next request or to the read,
    /// and the reply that was read ends the exchange with its outcome. Any
    /// other event is a failure of the transport and ends the exchange too.
    /// An exchange that has ended stays as it is.
    pub open spec fn next(self, event: Event) -> Exchange {
        match self {
            Exchange::Writing { device_type, key, value } => match event {
                Event::Completed => Exchange::Asking { device_type, key, expected: Some(value) },
                _ => Exchange::Done(Err(DeviceError::TransportError)),
            },
            Exchange::Asking { device_type, key, expected } => match event {
                Event::Completed => Exchange::Awaiting { device_type, key, expected },
                _ => Exchange::Done(Err(DeviceError::TransportError)),
            },
            Exchange::Awaiting { device_type, key, expected } => match event {
                Event::Received(reply) => Exchange::Done(outcome(key@, written(expected), reply@)),
                _ => Exchange::Done(Err(DeviceError::TransportError)),
            },
            Exchange::Done(result) => Exchange::Done(result),
        }
    }

    /// The transport action that the exchange waits for.
    pub open spec fn pending(self) -> Action {
        match self {
            Exchange::Writing { .. } => Action::Write {
                endpoint: ENDPOINT_OUT,
                timeout_ms: SET_TIMEOUT_MS,
            },
            Exchange::Asking { .. } => Action::Write {
                endpoint: ENDPOINT_OUT,
                timeout_ms: LOOKUP_TIMEOUT_MS,
            },
            Exchange::Awaiting { .. } => Action::Read {
                endpoint: ENDPOINT_IN,
                capacity: REPLY_LEN,
                timeout_ms: LOOKUP_TIMEOUT_MS,
            },
            Exchange::Done(_) => Action::Finish,
        }
    }

    /// The bytes to write where the pending action is a write; nothing otherwise.
    pub open spec fn outgoing_bytes(self) -> Seq<u8> {
        match self {
            Exchange::Writing { key, value, .. } => set_request_bytes(key@, value@),
            Exchange::Asking { key, .. } => lookup_request_bytes(key@),
            _ => Seq::empty(),
        }
    }

    /// Reading a parameter with a transport that does what it is asked: the
    /// lookup request is written, the reply is read, and the exchange ends
    /// with the outcome of the reply.
    pub proof fn lemma_fetch_run(device_type: DeviceType, key: [u8; 3], reply: Vec<u8>)
        ensures
            ({
                let asking = Exchange::Asking { device_type, key, expected: None };
                let awaiting = asking.next(Event::Completed);
                &&& asking.outgoing_bytes() == lookup_request_bytes(key@)
                &&& awaiting.pending() == (Action::Read {
                    endpoint: ENDPOINT_IN,
                    capacity: REPLY_LEN,
                    timeout_ms: LOOKUP_TIMEOUT_MS,
                })
                &&& awaiting.next(Event::Received(reply)) == Exchange::Done(
                    outcome(key@, None, reply@),
                )
            }),
    {
    }

    /// Changing a parameter with a transport that does what it is asked: the
    /// set request is written, then the lookup request for the same key, the
    /// reply is read, and the exchange ends with the outcome of the reply,
    /// held against the value that was written.
    pub proof fn lemma_set_run(
        device_type: DeviceType,
        key: [u8; 3],
        value: BeacnValue,
        reply: Vec<u8>,
    )
        ensures
            ({
                let writing = Exchange::Writing { device_type, key, value };
                let asking = writing.next(Event::Completed);
                let awaiting = asking.next(Event::Completed);
                &&& writing.outgoing_bytes() == set_request_bytes(key@, value@)
                &&& asking.outgoing_bytes() == lookup_request_bytes(key@)
                &&& awaiting.pending() == (Action::Read {
                    endpoint: ENDPOINT_IN,
                    capacity: REPLY_LEN,
                    timeout_ms: LOOKUP_TIMEOUT_MS,
                })
                &&& awaiting.next(Event::Received(reply)) == Exchange::Done(
                    outcome(key@, Some(value@), reply@),
                )
            }),
    {
    }

    /// A transport that fails or times out ends the exchange with a transport
    /// error, whatever was pending.
    pub proof fn lemma_failure_ends(exchange: Exchange, event: Event)
        requires
            !(exchange is Done),
            event is TimedOut || event is Failed,
        ensures
            exchange.next(event) == Exchange::Done(Err(DeviceError::TransportError)),
    {
    }

    /// An exchange that has ended asks for nothing and stays as it is.
    pub proof fn lemma_done_is_final(result: Result<Message, DeviceError>, event: Event)
        ensures
            Exchange::Done(result).next(event) == Exchange::Done(result),
            Exchange::Done(result).pending() == Action::Finish,
            Exchange::Done(result).outgoing_bytes() == Seq::<u8>::empty(),
    {
    }

    /// The transport action that the exchange waits for.
    pub fn action(&self) -> (action: Action)
        ensures
            action == self.pending(),
    {
        match self {
            Exchange::Writing { .. } => Action::Write {
                endpoint: ENDPOINT_OUT,
                timeout_ms: SET_TIMEOUT_MS,
            },
            Exchange::Asking { .. } => Action::Write {
                endpoint: ENDPOINT_OUT,
                timeout_ms: LOOKUP_TIMEOUT_MS,
            },
            Exchange::Awaiting { .. } => Action::Read {
                endpoint: ENDPOINT_IN,
                capacity: REPLY_LEN,
                timeout_ms: LOOKUP_TIMEOUT_MS,
            },
            Exchange::Done(_) => Action::Finish,
        }
    }

    /// The bytes to write where the pending action is a write; nothing otherwise.
    pub fn outgoing(&self) -> (bytes: Vec<u8>)
        ensures
            bytes@ == self.outgoing_bytes(),
    {
        match self {
            Exchange::Writing { key, value, .. } => {
                let request = set_request(*key, *value);
                slice_to_vec(request.as_slice())
            },
            Exchange::Asking { key, .. } => {
                let request = lookup_request(*key);
                slice_to_vec(request.as_slice())
            },
            _ => Vec::new(),
        }
    }

    /// Takes the exchange on by one event.
    pub fn step(self, event: Event) -> (next: Exchange)
        ensures
            next == self.next(event),
    {
        match self {
            Exchange::Writing { device_type, key, value } => match event {
                Event::Completed => Exchange::Asking { device_type, key, expected: Some(value) },
                _ => Exchange::Done(Err(DeviceError::TransportError)),
            },
            Exchange::Asking { device_type, key, expected } => match event {
                Event::Completed => Exchange::Awaiting { device_type, key, expected },
                _ => Exchange::Done(Err(DeviceError::TransportError)),
            },
            Exchange::Awaiting { device_type, key, expected } => match event {
                Event::Received(reply) => {
                    let checked = match expected {
                        Some(value) => BeacnMic::param_set(key, value, reply.as_slice()),
                        None => BeacnMic::param_lookup(key, reply.as_slice()),
                    };
                    match checked {
                        Ok(bytes) => match Message::try_from_beacn_message(bytes, device_type) {
                            Ok(message) => Exchange::Done(Ok(message)),
                            Err(error) => Exchange::Done(Err(DeviceError::DecodeError(error))),
                        },
                        Err(error) => Exchange::Done(Err(error)),
                    }
                },
                _ => Exchange::Done(Err(DeviceError::TransportError)),
            },
            Exchange::Done(result) => Exchange::Done(result),
        }
    }

    /// The result of an exchange that has ended.
    pub fn result(&self) -> (result: Option<Result<Message, DeviceError>>)
        ensures
            result == match *self {
                Exchange::Done(r) => Some(r),
                _ => None,
            },
    {
        match self {
            Exchange::Done(r) => Some(*r),
            _ => None,
        }
    }
}

} // verus!
