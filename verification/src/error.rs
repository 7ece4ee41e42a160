//! The error type for OS-reported failures.
//!
//! Every fallible socket operation surfaces the platform's native error
//! code unchanged. The one distinguished sub-case is the "would block"
//! condition, which an event-loop driven caller treats as "not ready yet,
//! retry after the next readiness notification" rather than as a failure.

use vstd::prelude::*;

verus! {

/// The Linux error code for "operation would block" (`EAGAIN`, which is
/// the same value as `EWOULDBLOCK` on Linux).
pub const EAGAIN: i32 = 11;

/// An OS-reported failure, carrying the platform's native error code.
#[derive(Clone, Copy, Debug, PartialEq, Eq, Structural)]
pub struct OsError {
    code: i32,
}

impl OsError {
    /// Wraps a raw OS error code.
    pub fn from_raw(code: i32) -> (r: OsError)
        ensures
            r.code() == code,
    {
        OsError { code: code }
    }

    /// The raw OS error code this error carries.
    pub closed spec fn code(self) -> i32 {
        self.code
    }

    /// Returns the raw OS error code.
    pub fn raw_code(&self) -> (r: i32)
        ensures
            r == self.code(),
    {
        self.code
    }

    /// True exactly when this is the "would block" condition: the
    /// non-blocking operation could not complete immediately and should be
    /// retried after the next readiness notification.
    pub fn is_would_block(&self) -> (r: bool)
        ensures
            r == (self.code() == EAGAIN),
    {
        self.code == EAGAIN
    }
}

/// Translates the raw result of an OS call into the library's result
/// type: a success is passed through unchanged, and a raw error code is
/// wrapped in an [`OsError`] carrying exactly that code.
pub fn os_result<T>(r: Result<T, i32>) -> (res: Result<T, OsError>)
    ensures
        match r {
            Ok(v) => (res matches Ok(w) && w == v),
            Err(c) => (res matches Err(e) && e.code() == c),
        },
{
    match r {
        Ok(v) => Ok(v),
        Err(c) => Err(OsError::from_raw(c)),
    }
}

/// Translates the result of a registration call into the library's result
/// type. A failure that the event source reports without an OS code is
/// given code 0, which no OS failure uses, so it stays distinguishable.
pub fn registration_result(r: Result<(), Option<i32>>) -> (res: Result<(), OsError>)
    ensures
        match r {
            Ok(()) => (res matches Ok(v) && v == ()),
            Err(c) => (res matches Err(e) && e.code() == match c {
                Some(code) => code,
                None => 0,
            }),
        },
{
    match r {
        Ok(()) => Ok(()),
        Err(Some(code)) => Err(OsError::from_raw(code)),
        Err(None) => Err(OsError::from_raw(0)),
    }
}

} // verus!
