//! A minimal non-blocking datagram socket over the Linux netlink address
//! family, exposed as a pollable resource for a readiness-based event
//! loop.
//!
//! A caller opens a channel bound to one protocol discriminant and a
//! multicast group mask, registers it with an external readiness-event
//! source, and exchanges raw byte buffers with the kernel without ever
//! blocking: every descriptor is created non-blocking and close-on-exec,
//! and an operation that cannot complete at once reports the would-block
//! error instead of suspending the thread. Message payloads are never
//! interpreted here; parsing and protocol semantics belong to the caller.

mod channel;
mod error;
mod proto;
mod socket;
mod sys;

pub use channel::NetlinkDatagram;
pub use error::{os_result, registration_result, OsError, EAGAIN};
pub use proto::NetlinkProtocol;
pub use socket::Socket;
