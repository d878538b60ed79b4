//! The error type shared by every fallible operation of the library.

use vstd::prelude::*;

verus! {

/// Linux `errno` value for an operation that would have blocked.
pub const ERRNO_WOULD_BLOCK: i32 = 11;

/// Linux `errno` value for a registration that already exists.
pub const ERRNO_ALREADY_EXISTS: i32 = 17;

/// Linux `errno` value for a registration that does not exist.
pub const ERRNO_NO_ENTRY: i32 = 2;

/// Linux `errno` value for a connection reset by the peer.
pub const ERRNO_CONNECTION_RESET: i32 = 104;

/// Linux `errno` value for a pipe whose read end is gone.
pub const ERRNO_BROKEN_PIPE: i32 = 32;

/// Every failure the library reports, in one closed set.
///
/// `WouldBlock` is a normal non-blocking-I/O signal, never a hard failure;
/// `HangUp` is a terminal peer condition; `PlatformError` carries a raw OS
/// error code; the remaining variants report registration or slot
/// bookkeeping mistakes synchronously at the call site.
#[derive(Clone, Copy, Debug, PartialEq, Eq, Structural)]
pub enum MioError {
    WouldBlock,
    HangUp,
    PlatformError(i32),
    AlreadyRegistered,
    NoSuchSlot,
    NoSuchRegistration,
}

pub type MioResult<T> = Result<T, MioError>;

impl MioError {
    /// Classifies a raw OS error number into the library's error set.
    pub fn from_errno(code: i32) -> (r: MioError)
        ensures
            r == MioError::spec_from_errno(code),
    {
        if code == ERRNO_WOULD_BLOCK {
            MioError::WouldBlock
        } else if code == ERRNO_ALREADY_EXISTS {
            MioError::AlreadyRegistered
        } else if code == ERRNO_NO_ENTRY {
            MioError::NoSuchRegistration
        } else if code == ERRNO_CONNECTION_RESET || code == ERRNO_BROKEN_PIPE {
            MioError::HangUp
        } else {
            MioError::PlatformError(code)
        }
    }

    /// What `from_errno` returns, for use in contracts.
    pub open spec fn spec_from_errno(code: i32) -> MioError {
        if code == ERRNO_WOULD_BLOCK {
            MioError::WouldBlock
        } else if code == ERRNO_ALREADY_EXISTS {
            MioError::AlreadyRegistered
        } else if code == ERRNO_NO_ENTRY {
            MioError::NoSuchRegistration
        } else if code == ERRNO_CONNECTION_RESET || code == ERRNO_BROKEN_PIPE {
            MioError::HangUp
        } else {
            MioError::PlatformError(code)
        }
    }
}

} // verus!
