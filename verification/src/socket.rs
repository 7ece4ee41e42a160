//! The raw netlink socket: exclusive ownership of one OS descriptor.
//!
//! A `Socket` is created by one factory operation that issues the OS
//! socket-creation call with the close-on-exec and non-blocking flags set
//! atomically, and its descriptor is released exactly once: by `close`,
//! by the destructor when an owning socket goes out of scope, or never by
//! this type when `into_raw_fd` transferred the descriptor to the caller.
//! The release step is guarded by a consumed/transferred flag, and the
//! consuming operations take the socket by value, so no path releases the
//! same descriptor twice.

use vstd::prelude::*;
use crate::error::{os_result, OsError};
use crate::proto::NetlinkProtocol;
use crate::sys;

verus! {

/// One exclusively owned netlink-family datagram descriptor, opened
/// non-blocking and close-on-exec.
pub struct Socket {
    fd: i32,
    owned: bool,
    proto_code: Ghost<int>,
}

impl Socket {
    /// The descriptor this socket owns.
    pub closed spec fn fd_spec(self) -> i32 {
        self.fd
    }

    /// The numeric code of the protocol the socket was created for.
    pub closed spec fn proto_spec(self) -> int {
        self.proto_code@
    }

    /// A socket is well formed when it holds a descriptor the kernel
    /// handed out, which is always non-negative.
    pub open spec fn wf(self) -> bool {
        self.fd_spec() >= 0
    }

    /// Creates a netlink datagram socket for the given protocol
    /// discriminant. The descriptor is created with the close-on-exec and
    /// non-blocking flags set atomically; on failure the OS error is
    /// returned unchanged.
    pub fn new(proto: NetlinkProtocol) -> (r: Result<Socket, OsError>)
        ensures
            r matches Ok(s) ==> s.wf() && s.proto_spec() == proto.spec_code(),
    {
        match os_result(sys::sys_socket(proto.code())) {
            Ok(fd) => Ok(
                Socket { fd: fd, owned: true, proto_code: Ghost(proto.spec_code()) },
            ),
            Err(e) => Err(e),
        }
    }

    /// Sends the buffer to the socket's default peer. On success the
    /// kernel reports how many bytes it accepted, never more than the
    /// buffer's length; a whole oversized datagram may be cut short. In
    /// non-blocking mode a kernel that can accept nothing right now
    /// reports the would-block error instead of suspending the caller.
    pub fn send(&self, buf: &[u8]) -> (r: Result<usize, OsError>)
        requires
            self.wf(),
        ensures
            r matches Ok(n) ==> n <= buf@.len(),
    {
        os_result(sys::sys_send(self.fd, buf))
    }

    /// Receives one datagram into the buffer, which keeps its length. On
    /// success the kernel reports how many of the buffer's leading bytes
    /// it filled: zero is a valid empty datagram, not an end-of-stream
    /// mark. In non-blocking mode an empty queue gives the would-block
    /// error instead of suspending the caller.
    pub fn recv(&self, buf: &mut Vec<u8>) -> (r: Result<usize, OsError>)
        requires
            self.wf(),
        ensures
            final(buf)@.len() == old(buf)@.len(),
            r matches Ok(n) ==> n <= final(buf)@.len(),
    {
        os_result(sys::sys_recv(self.fd, buf))
    }

    /// Returns the descriptor without giving up ownership: the caller
    /// must not close it. The value is the one fixed at creation, so it
    /// is the same before and after any number of send or receive calls.
    pub fn as_raw_fd(&self) -> (r: i32)
        ensures
            r == self.fd_spec(),
    {
        self.fd
    }

    /// Consumes the socket and transfers ownership of the descriptor to
    /// the caller, who becomes responsible for closing it. No close
    /// happens here, and the transferred flag keeps the destructor from
    /// closing a descriptor the socket no longer owns.
    pub fn into_raw_fd(self) -> (r: i32)
        ensures
            r == self.fd_spec(),
    {
        let mut sock = self;
        sock.owned = false;
        sock.fd
    }

    /// Consumes the socket and closes its descriptor, reporting a close
    /// failure instead of swallowing it; the consumed flag keeps the
    /// destructor from issuing a second close.
    pub fn close(self) -> (r: Result<(), OsError>)
    {
        let mut sock = self;
        sock.owned = false;
        os_result(sys::sys_close(sock.fd))
    }
}

impl Drop for Socket {
    /// Closes the descriptor exactly once when an owning socket goes out
    /// of scope; a socket consumed by `close` or `into_raw_fd` gave its
    /// descriptor up and is left alone. The close is best-effort: at
    /// teardown there is nothing useful to do with a failure.
    fn drop(&mut self)
        opens_invariants none
        no_unwind
    {
        if self.owned {
            let _ = sys::sys_close(self.fd);
        }
    }
}

} // verus!
