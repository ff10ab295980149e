//! Parameter protocol of Beacn USB audio devices: the typed messages, their
//! wire encoding, and the request/response exchanges of a device session.
//!
//! The crate performs no I/O. A session hands out the next transport action and
//! takes back what the transport reported; everything in between is verified.

pub mod audio;
pub mod device;
pub mod manager;
pub mod types;
pub mod version;
