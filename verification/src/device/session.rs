//! Opening a session: from a location on the bus to a device that has told
//! its version and serial number.

use crate::device::identity::{
    ascii_text, identity_serial, identity_version, is_ascii, lemma_ascii_decodes, parse_identity,
    utf8_lossy,
};
use crate::device::transport::{
    Action, Event, ALTERNATE_SETTING, ENDPOINT_IN, ENDPOINT_OUT, IDENTITY_CAPACITY, INTERFACE,
    OPCODE_IDENTIFY, OPCODE_SETUP, SETUP_TIMEOUT_MS,
};
use crate::device::{device_from, lemma_device_from, BeacnMic, DeviceError};
use crate::manager::{DeviceInfo, DeviceLocation, DeviceType};
use vstd::prelude::*;
use vstd::slice::slice_to_vec;
use vstd::utf8::{decode_utf8, valid_utf8};

verus! {

/// The request that starts the handshake.
pub open spec fn setup_request_bytes() -> Seq<u8> {
    seq![0u8, 0u8, 0u8, OPCODE_SETUP]
}

/// The request for version and serial number.
pub open spec fn identify_request_bytes() -> Seq<u8> {
    seq![0u8, 0u8, 0u8, OPCODE_IDENTIFY]
}

/// What is pending in a handshake.
#[derive(Copy, Clone, Debug, PartialEq, Eq, Structural)]
pub enum Stage {
    /// The device has to be connected.
    Connect,
    /// The setup request has to be written.
    Setup,
    /// The identify request has to be written.
    Identify,
    /// The reply to the identify request has to be read.
    Reply,
}

/// The way from a location to an open session. A session is opened once: it
/// ends as `Ready` or as `Failed` and stays so.
#[derive(Debug, PartialEq, Eq)]
pub enum Session {
    /// Nothing has been done yet.
    Unopened { location: DeviceLocation },
    /// The device was found at `index` of the list of attached devices and is
    /// of a supported kind; the handshake is under way.
    Handshaking { location: DeviceLocation, device_type: DeviceType, index: usize, stage: Stage },
    /// The handshake is done.
    Ready(BeacnMic),
    /// Opening failed.
    Failed(DeviceError),
}

impl Session {
    /// Where opening stands once the attached devices are known: the first
    /// device of the vendor at `location` is chosen, and it has to be of a
    /// supported kind.
    pub open spec fn chosen(location: DeviceLocation, devices: Seq<DeviceInfo>) -> Session {
        let index = device_from(devices, location, 0);
        if index >= devices.len() {
            Session::Failed(DeviceError::NotFound)
        } else {
            match DeviceType::of_product_id(devices[index].product_id) {
                Some(device_type) => Session::Handshaking {
                    location,
                    device_type,
                    index: index as usize,
                    stage: Stage::Connect,
                },
                None => Session::Failed(DeviceError::UnsupportedDevice),
            }
        }
    }

    /// Whether this is the open session that a handshake with the given
    /// device and the given reply to the identify request leads to.
    pub open spec fn is_ready_with(
        self,
        location: DeviceLocation,
        device_type: DeviceType,
        reply: Seq<u8>,
    ) -> bool {
        &&& self matches Session::Ready(mic)
        &&& mic.location() == location
        &&& mic.device_type() == device_type
        &&& mic.version() == identity_version(reply)
        &&& mic.serial() == utf8_lossy(identity_serial(reply))
        &&& valid_utf8(identity_serial(reply)) ==> mic.serial() == decode_utf8(
            identity_serial(reply),
        )
    }

    /// Whether `next` is where the session stands after `event`.
    ///
    /// While nothing is done, only a list of devices leads on; anything else
    /// means that no device can be found. During the handshake each stage is
    /// left by the event that its action ends with. A timeout while the
    /// requests are written or the reply is read is a failed handshake, as is
    /// a reply too short to hold a version; every other event that does not
    /// fit is a failure of the transport. A session that is ready or has
    /// failed stays as it is.
    pub open spec fn steps_to(self, event: Event, next: Session) -> bool {
        match self {
            Session::Unopened { location } => match event {
                Event::Enumerated(devices) => next == Self::chosen(location, devices@),
                _ => next == Session::Failed(DeviceError::NotFound),
            },
            Session::Handshaking { location, device_type, index, stage } => match (stage, event) {
                (Stage::Connect, Event::Completed) => next == (Session::Handshaking {
                    location,
                    device_type,
                    index,
                    stage: Stage::Setup,
                }),
                (Stage::Setup, Event::Completed) => next == (Session::Handshaking {
                    location,
                    device_type,
                    index,
                    stage: Stage::Identify,
                }),
                (Stage::Identify, Event::Completed) => next == (Session::Handshaking {
                    location,
                    device_type,
                    index,
                    stage: Stage::Reply,
                }),
                (Stage::Reply, Event::Received(reply)) => if reply@.len() < 8 {
                    next == Session::Failed(DeviceError::HandshakeError)
                } else {
                    next.is_ready_with(location, device_type, reply@)
                },
                (Stage::Connect, _) => next == Session::Failed(DeviceError::TransportError),
                (_, Event::TimedOut) => next == Session::Failed(DeviceError::HandshakeError),
                (_, _) => next == Session::Failed(DeviceError::TransportError),
            },
            Session::Ready(_) => next == self,
            Session::Failed(_) => next == self,
        }
    }

    /// The transport action that the session waits for.
    pub open spec fn pending(self) -> Action {
        match self {
            Session::Unopened { .. } => Action::Enumerate,
            Session::Handshaking { index, stage, .. } => match stage {
                Stage::Connect => Action::Connect {
                    index,
                    interface: INTERFACE,
                    alternate_setting: ALTERNATE_SETTING,
                    endpoint: ENDPOINT_IN,
                },
                Stage::Setup => Action::Write {
                    endpoint: ENDPOINT_OUT,
                    timeout_ms: SETUP_TIMEOUT_MS,
                },
                Stage::Identify => Action::Write {
                    endpoint: ENDPOINT_OUT,
                    timeout_ms: SETUP_TIMEOUT_MS,
                },
                Stage::Reply => Action::Read {
                    endpoint: ENDPOINT_IN,
                    capacity: IDENTITY_CAPACITY,
                    timeout_ms: SETUP_TIMEOUT_MS,
                },
            },
            Session::Ready(_) => Action::Finish,
            Session::Failed(_) => Action::Finish,
        }
    }

    /// The bytes to write where the pending action is a write; nothing otherwise.
    pub open spec fn outgoing_bytes(self) -> Seq<u8> {
        match self {
            Session::Handshaking { stage: Stage::Setup, .. } => setup_request_bytes(),
            Session::Handshaking { stage: Stage::Identify, .. } => identify_request_bytes(),
            _ => Seq::empty(),
        }
    }

    /// Whether `last` is where opening ends when the devices listed are
    /// `devices`, the transport does what it is asked, and the device answers
    /// the identify request with `reply`.
    pub open spec fn opens_as(
        location: DeviceLocation,
        devices: Seq<DeviceInfo>,
        reply: Seq<u8>,
        last: Session,
    ) -> bool {
        match Self::chosen(location, devices) {
            Session::Handshaking { device_type, .. } => if reply.len() < 8 {
                last == Session::Failed(DeviceError::HandshakeError)
            } else {
                last.is_ready_with(location, device_type, reply)
            },
            other => last == other,
        }
    }

    /// Opening a session, step by step, with a transport that does what it is
    /// asked. Unless the device is missing or unsupported, the session asks in
    /// turn to connect the device it chose, to write the setup request, to
    /// write the identify request and to read the reply; then it has ended.
    pub proof fn lemma_open_run(
        location: DeviceLocation,
        devices: Vec<DeviceInfo>,
        reply: Vec<u8>,
        found: Session,
        connected: Session,
        greeted: Session,
        asked: Session,
        last: Session,
    )
        requires
            (Session::Unopened { location }).steps_to(Event::Enumerated(devices), found),
            found.steps_to(Event::Completed, connected),
            connected.steps_to(Event::Completed, greeted),
            greeted.steps_to(Event::Completed, asked),
            asked.steps_to(Event::Received(reply), last),
        ensures
            Self::opens_as(location, devices@, reply@, last),
            last.pending() == Action::Finish,
            found is Handshaking ==> {
                &&& found.pending() == (Action::Connect {
                    index: device_from(devices@, location, 0) as usize,
                    interface: INTERFACE,
                    alternate_setting: ALTERNATE_SETTING,
                    endpoint: ENDPOINT_IN,
                })
                &&& devices@[device_from(devices@, location, 0)].is_at(location)
                &&& connected.pending() == (Action::Write {
                    endpoint: ENDPOINT_OUT,
                    timeout_ms: SETUP_TIMEOUT_MS,
                })
                &&& connected.outgoing_bytes() == setup_request_bytes()
                &&& greeted.pending() == connected.pending()
                &&& greeted.outgoing_bytes() == identify_request_bytes()
                &&& asked.pending() == (Action::Read {
                    endpoint: ENDPOINT_IN,
                    capacity: IDENTITY_CAPACITY,
                    timeout_ms: SETUP_TIMEOUT_MS,
                })
            },
    {
        lemma_device_from(devices@, location, 0);
    }

    /// A serial number in ASCII reads as the device wrote it.
    pub proof fn lemma_ascii_serial(
        session: Session,
        location: DeviceLocation,
        device_type: DeviceType,
        reply: Seq<u8>,
    )
        requires
            reply.len() >= 8,
            session.is_ready_with(location, device_type, reply),
            is_ascii(identity_serial(reply)),
        ensures
            session->Ready_0.serial() == ascii_text(identity_serial(reply)),
    {
        lemma_ascii_decodes(identity_serial(reply));
    }

    /// A session that is ready or has failed asks for nothing and stays as it is.
    pub proof fn lemma_end_is_final(session: Session, event: Event, next: Session)
        requires
            session is Ready || session is Failed,
            session.steps_to(event, next),
        ensures
            next == session,
            session.pending() == Action::Finish,
            session.outgoing_bytes() == Seq::<u8>::empty(),
    {
    }

    /// A transport that fails ends the handshake: a timeout while the requests
    /// are written or the reply is read is a failed handshake, anything else a
    /// failure of the transport.
    pub proof fn lemma_failure_ends(session: Session, event: Event, next: Session)
        requires
            session is Handshaking,
            event is TimedOut || event is Failed,
            session.steps_to(event, next),
        ensures
            next == Session::Failed(
                if event is TimedOut && session->stage != Stage::Connect {
                    DeviceError::HandshakeError
                } else {
                    DeviceError::TransportError
                },
            ),
    {
    }

    /// The transport action that the session waits for.
    pub fn action(&self) -> (action: Action)
        ensures
            action == self.pending(),
    {
        match self {
            Session::Unopened { .. } => Action::Enumerate,
            Session::Handshaking { index, stage, .. } => match stage {
                Stage::Connect => Action::Connect {
                    index: *index,
                    interface: INTERFACE,
                    alternate_setting: ALTERNATE_SETTING,
                    endpoint: ENDPOINT_IN,
                },
                Stage::Setup | Stage::Identify => Action::Write {
                    endpoint: ENDPOINT_OUT,
                    timeout_ms: SETUP_TIMEOUT_MS,
                },
                Stage::Reply => Action::Read {
                    endpoint: ENDPOINT_IN,
                    capacity: IDENTITY_CAPACITY,
                    timeout_ms: SETUP_TIMEOUT_MS,
                },
            },
            Session::Ready(_) | Session::Failed(_) => Action::Finish,
        }
    }

    /// The bytes to write where the pending action is a write; nothing otherwise.
    pub fn outgoing(&self) -> (bytes: Vec<u8>)
        ensures
            bytes@ == self.outgoing_bytes(),
    {
        match self {
            Session::Handshaking { stage: Stage::Setup, .. } => {
                let request: [u8; 4] = [0, 0, 0, OPCODE_SETUP];
                assert(request@ =~= setup_request_bytes());
                slice_to_vec(request.as_slice())
            },
            Session::Handshaking { stage: Stage::Identify, .. } => {
                let request: [u8; 4] = [0, 0, 0, OPCODE_IDENTIFY];
                assert(request@ =~= identify_request_bytes());
                slice_to_vec(request.as_slice())
            },
            _ => Vec::new(),
        }
    }

    /// Takes the session on by one event.
    pub fn step(self, event: Event) -> (next: Session)
        ensures
            self.steps_to(event, next),
    {
        match self {
            Session::Unopened { location } => match event {
                Event::Enumerated(devices) => Self::select(location, devices.as_slice()),
                _ => Session::Failed(DeviceError::NotFound),
            },
            Session::Handshaking { location, device_type, index, stage } => match (stage, event) {
                (Stage::Connect, Event::Completed) => Session::Handshaking {
                    location,
                    device_type,
                    index,
                    stage: Stage::Setup,
                },
                (Stage::Setup, Event::Completed) => Session::Handshaking {
                    location,
                    device_type,
                    index,
                    stage: Stage::Identify,
                },
                (Stage::Identify, Event::Completed) => Session::Handshaking {
                    location,
                    device_type,
                    index,
                    stage: Stage::Reply,
                },
                (Stage::Reply, Event::Received(reply)) => match parse_identity(reply.as_slice()) {
                    Ok((firmware_version, serial)) => Session::Ready(
                        BeacnMic { device_type, location, serial, firmware_version },
                    ),
                    Err(error) => Session::Failed(error),
                },
                (Stage::Connect, _) => Session::Failed(DeviceError::TransportError),
                (_, Event::TimedOut) => Session::Failed(DeviceError::HandshakeError),
                (_, _) => Session::Failed(DeviceError::TransportError),
            },
            Session::Ready(mic) => Session::Ready(mic),
            Session::Failed(error) => Session::Failed(error),
        }
    }

    /// Chooses the device to open among those attached and classifies it.
    fn select(location: DeviceLocation, devices: &[DeviceInfo]) -> (session: Session)
        ensures
            session == Self::chosen(location, devices@),
    {
        match BeacnMic::find_device(location, devices) {
            Ok(index) => match DeviceType::from_product_id(devices[index].product_id) {
                Some(device_type) => Session::Handshaking {
                    location,
                    device_type,
                    index,
                    stage: Stage::Connect,
                },
                None => Session::Failed(DeviceError::UnsupportedDevice),
            },
            Err(error) => Session::Failed(error),
        }
    }
}

} // verus!
