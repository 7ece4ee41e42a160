//! The netlink channel: a bound socket that forwards I/O and can be
//! registered with an external readiness-event source.
//!
//! A channel is only observable in bound state: the single construction
//! path creates the socket and binds it before the value is handed out.
//! Its identity is its socket's descriptor, and the pollable-resource
//! operations delegate to the generic "watch this raw descriptor"
//! primitive of the event source, using exactly that descriptor.

use vstd::prelude::*;
use crate::error::{os_result, registration_result, OsError};
use crate::proto::NetlinkProtocol;
use crate::socket::Socket;
use crate::sys;

verus! {

/// A netlink datagram socket bound to a protocol and a multicast group
/// mask, with the calling process's id as its port id. Dropping a channel
/// drops the owned socket, which closes the descriptor exactly once
/// unless it was transferred out.
pub struct NetlinkDatagram {
    sock: Socket,
    groups: Ghost<u32>,
}

impl NetlinkDatagram {
    /// The descriptor of the owned socket.
    pub closed spec fn fd_spec(self) -> i32 {
        self.sock.fd_spec()
    }

    /// The numeric code of the protocol the channel was bound to.
    pub closed spec fn proto_spec(self) -> int {
        self.sock.proto_spec()
    }

    /// The multicast group mask the channel was bound with.
    pub closed spec fn groups_spec(self) -> u32 {
        self.groups@
    }

    /// A channel is well formed when its socket is.
    pub open spec fn wf(self) -> bool {
        self.fd_spec() >= 0
    }

    /// Creates a netlink socket for the protocol discriminant and binds
    /// it to the netlink address made of the calling process's id as port
    /// id and `groups` as multicast group mask. A creation failure is
    /// propagated unchanged; a bind failure releases the fresh descriptor
    /// best-effort and reports the bind error. Only a bound channel is
    /// ever returned.
    pub fn bind(proto: NetlinkProtocol, groups: u32) -> (r: Result<NetlinkDatagram, OsError>)
        ensures
            r matches Ok(ch) ==> ch.wf() && ch.proto_spec() == proto.spec_code()
                && ch.groups_spec() == groups,
    {
        let sock = match Socket::new(proto) {
            Ok(s) => s,
            Err(e) => {
                return Err(e);
            },
        };
        let pid = sys::sys_getpid();
        match os_result(sys::sys_bind(sock.as_raw_fd(), pid, groups)) {
            Ok(()) => Ok(NetlinkDatagram { sock: sock, groups: Ghost(groups) }),
            Err(e) => {
                // The fresh socket goes out of scope here, and its
                // destructor closes the never-exposed descriptor.
                Err(e)
            },
        }
    }

    /// Sends data on the socket to the socket's peer, forwarding to the
    /// owned socket with its contract unchanged: on success the number of
    /// bytes accepted, never more than the buffer's length; otherwise the
    /// OS error, with would-block distinguishable.
    pub fn send(&self, buf: &[u8]) -> (r: Result<usize, OsError>)
        requires
            self.wf(),
        ensures
            r matches Ok(n) ==> n <= buf@.len(),
    {
        self.sock.send(buf)
    }

    /// Receives data from the socket, forwarding to the owned socket with
    /// its contract unchanged: the buffer keeps its length; on success the
    /// number of leading bytes filled, never more than the buffer's
    /// length, with zero a valid empty datagram; otherwise the OS error,
    /// with would-block distinguishable.
    pub fn recv(&self, buf: &mut Vec<u8>) -> (r: Result<usize, OsError>)
        requires
            self.wf(),
        ensures
            final(buf)@.len() == old(buf)@.len(),
            r matches Ok(n) ==> n <= final(buf)@.len(),
    {
        self.sock.recv(buf)
    }

    /// Returns the descriptor without giving up ownership: the caller
    /// must not close it. The value is fixed at construction, so it is
    /// the same before and after any number of send or receive calls.
    pub fn as_raw_fd(&self) -> (r: i32)
        ensures
            r == self.fd_spec(),
    {
        self.sock.as_raw_fd()
    }

    /// Consumes the channel and transfers ownership of the descriptor to
    /// the caller, who becomes responsible for closing it; the channel's
    /// own release step never runs for a transferred descriptor.
    pub fn into_raw_fd(self) -> (r: i32)
        ensures
            r == self.fd_spec(),
    {
        self.sock.into_raw_fd()
    }

    /// Consumes the channel and closes its descriptor exactly once. A
    /// close failure is reported, but there is rarely anything to do
    /// with it.
    pub fn close(self) -> (r: Result<(), OsError>)
    {
        self.sock.close()
    }

    /// Registers the channel with the readiness-event source behind
    /// `poll`, under the opaque `token`, for the interest set `interest`,
    /// with options `opts`, by delegating to the source's watch on the
    /// channel's own raw descriptor. The channel keeps no event-loop
    /// state of its own.
    pub fn register(
        &self,
        poll: &mio::Poll,
        token: mio::Token,
        interest: mio::Ready,
        opts: mio::PollOpt,
    ) -> (r: Result<(), OsError>)
        requires
            self.wf(),
    {
        registration_result(sys::sys_register(poll, self.sock.as_raw_fd(), token, interest, opts))
    }

    /// Replaces the channel's previous registration with `poll` by one
    /// under `token`, for the interest set `interest`, with options
    /// `opts`: afterwards the source holds one watch for the descriptor,
    /// not two, by delegating to the source's re-register on the
    /// channel's own raw descriptor.
    pub fn reregister(
        &self,
        poll: &mio::Poll,
        token: mio::Token,
        interest: mio::Ready,
        opts: mio::PollOpt,
    ) -> (r: Result<(), OsError>)
        requires
            self.wf(),
    {
        registration_result(sys::sys_reregister(poll, self.sock.as_raw_fd(), token, interest, opts))
    }

    /// Removes the channel's registration from `poll`, making the
    /// descriptor invisible to future readiness notifications from that
    /// source, by delegating to the source's deregister on the channel's
    /// own raw descriptor.
    pub fn deregister(&self, poll: &mio::Poll) -> (r: Result<(), OsError>)
        requires
            self.wf(),
    {
        registration_result(sys::sys_deregister(poll, self.sock.as_raw_fd()))
    }
}

} // verus!
