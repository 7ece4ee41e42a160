//! The trusted boundary to the operating system.
//!
//! Every function here is an `external_body` wrapper around one call into
//! an outside crate; Verus believes the stated contract and does not read
//! the body. Each body only makes the call and converts its arguments and
//! result between plain values and the outside crate's types. OS error
//! codes cross the boundary as raw `i32` values; the verified layers wrap
//! them in [`crate::OsError`].

use vstd::prelude::*;
use mio::Evented;

verus! {

/// The poll instance of the external readiness-event source
/// (`mio::Poll`), opaque to the verified code.
#[verifier::external_type_specification]
#[verifier::external_body]
pub struct ExPoll(mio::Poll);

/// The opaque caller-chosen registration token (`mio::Token`).
#[verifier::external_type_specification]
#[verifier::external_body]
pub struct ExToken(mio::Token);

/// The interest set of a registration (`mio::Ready`).
#[verifier::external_type_specification]
#[verifier::external_body]
pub struct ExReady(mio::Ready);

/// The options of a registration (`mio::PollOpt`).
#[verifier::external_type_specification]
#[verifier::external_body]
pub struct ExPollOpt(mio::PollOpt);

/// Relies on `rustix::net::socket_with`: issues the OS socket-creation
/// call for address family `AF_NETLINK`, type `SOCK_DGRAM`, with
/// `SOCK_CLOEXEC` and `SOCK_NONBLOCK` set atomically at creation, and the
/// given numeric protocol code (rustix encodes protocol 0 as `None`). On
/// success the kernel hands out a fresh non-negative descriptor; on
/// failure the raw OS error code is returned.
#[verifier::external_body]
pub(crate) fn sys_socket(code: i32) -> (r: Result<i32, i32>)
    requires
        0 <= code,
    ensures
        r matches Ok(fd) ==> fd >= 0,
{
    let protocol = rustix::net::RawProtocol::new(code as u32).map(rustix::net::Protocol::from_raw);
    let made = rustix::net::socket_with(
        rustix::net::AddressFamily::NETLINK,
        rustix::net::SocketType::DGRAM,
        rustix::net::SocketFlags::CLOEXEC | rustix::net::SocketFlags::NONBLOCK,
        protocol,
    );
    match made {
        Ok(fd) => Ok(rustix::fd::IntoRawFd::into_raw_fd(fd)),
        Err(e) => Err(e.raw_os_error()),
    }
}

/// Relies on `nix::sys::socket::bind` with a `nix` `NetlinkAddr`: binds
/// `fd` to the netlink address whose family is `AF_NETLINK`, whose port id
/// is `pid`, and whose multicast group mask is `groups` (the rest of the
/// address structure is zeroed). On failure the raw OS error code is
/// returned.
#[verifier::external_body]
pub(crate) fn sys_bind(fd: i32, pid: u32, groups: u32) -> (r: Result<(), i32>)
{
    let addr = nix::sys::socket::NetlinkAddr::new(pid, groups);
    match nix::sys::socket::bind(fd, &addr) {
        Ok(()) => Ok(()),
        Err(e) => Err(e as i32),
    }
}

/// Relies on `nix::sys::socket::send`: writes up to `buf.len()` bytes from
/// `buf` to the socket's default peer, with no flags. On success the
/// kernel reports how many bytes it accepted, never more than the length
/// of `buf`; on failure the raw OS error code is returned.
#[verifier::external_body]
pub(crate) fn sys_send(fd: i32, buf: &[u8]) -> (r: Result<usize, i32>)
    ensures
        r matches Ok(n) ==> n <= buf@.len(),
{
    match nix::sys::socket::send(fd, buf, nix::sys::socket::MsgFlags::empty()) {
        Ok(n) => Ok(n),
        Err(e) => Err(e as i32),
    }
}

/// Relies on `nix::sys::socket::recv`: reads up to `buf.len()` bytes into
/// `buf`, with no flags. The buffer keeps its length; on success the
/// kernel reports how many of its leading bytes were filled, never more
/// than the length of `buf`; on failure the raw OS error code is returned.
#[verifier::external_body]
pub(crate) fn sys_recv(fd: i32, buf: &mut Vec<u8>) -> (r: Result<usize, i32>)
    ensures
        final(buf)@.len() == old(buf)@.len(),
        r matches Ok(n) ==> n <= final(buf)@.len(),
{
    match nix::sys::socket::recv(fd, buf.as_mut_slice(), nix::sys::socket::MsgFlags::empty()) {
        Ok(n) => Ok(n),
        Err(e) => Err(e as i32),
    }
}

/// Relies on `nix::unistd::close`: closes the descriptor `fd`. On failure
/// the raw OS error code is returned; the call reports errors through its
/// result and never unwinds, so the destructor may rely on it.
#[verifier::external_body]
pub(crate) fn sys_close(fd: i32) -> (r: Result<(), i32>)
    opens_invariants none
    no_unwind
{
    match nix::unistd::close(fd) {
        Ok(()) => Ok(()),
        Err(e) => Err(e as i32),
    }
}

/// Relies on `nix::unistd::getpid`: returns the calling process's own
/// process id, which netlink uses as the bound socket's port id. The OS
/// assigns every process a positive id; the call cannot fail.
#[verifier::external_body]
pub(crate) fn sys_getpid() -> (r: u32)
{
    nix::unistd::getpid().as_raw() as u32
}

/// Relies on `mio::unix::EventedFd::register`: asks the readiness-event
/// source behind `poll` to watch the raw descriptor `fd`, under `token`,
/// for the interest set `interest`, with options `opts`. A failure that
/// carries no OS code is reported as `Err(None)`.
#[verifier::external_body]
pub(crate) fn sys_register(
    poll: &mio::Poll,
    fd: i32,
    token: mio::Token,
    interest: mio::Ready,
    opts: mio::PollOpt,
) -> (r: Result<(), Option<i32>>)
{
    match mio::unix::EventedFd(&fd).register(poll, token, interest, opts) {
        Ok(()) => Ok(()),
        Err(e) => Err(e.raw_os_error()),
    }
}

/// Relies on `mio::unix::EventedFd::reregister`: replaces the existing
/// registration of the raw descriptor `fd` with `poll` by one under
/// `token`, for the interest set `interest`, with options `opts`. A
/// failure that carries no OS code is reported as `Err(None)`.
#[verifier::external_body]
pub(crate) fn sys_reregister(
    poll: &mio::Poll,
    fd: i32,
    token: mio::Token,
    interest: mio::Ready,
    opts: mio::PollOpt,
) -> (r: Result<(), Option<i32>>)
{
    match mio::unix::EventedFd(&fd).reregister(poll, token, interest, opts) {
        Ok(()) => Ok(()),
        Err(e) => Err(e.raw_os_error()),
    }
}

/// Relies on `mio::unix::EventedFd::deregister`: removes the registration
/// of the raw descriptor `fd` from `poll`, so no further readiness events
/// for it are delivered. A failure that carries no OS code is reported as
/// `Err(None)`.
#[verifier::external_body]
pub(crate) fn sys_deregister(poll: &mio::Poll, fd: i32) -> (r: Result<(), Option<i32>>)
{
    match mio::unix::EventedFd(&fd).deregister(poll) {
        Ok(()) => Ok(()),
        Err(e) => Err(e.raw_os_error()),
    }
}

} // verus!
