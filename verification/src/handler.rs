//! The token and handler contracts: how readiness events are correlated
//! back to application state, and how the reactor notifies its owner.

use crate::reactor::Reactor;
use vstd::prelude::*;

verus! {

/// An opaque correlation handle between a registration and application
/// state: any small copyable value that travels through the OS poller as a
/// 64-bit word and comes back unchanged.
pub trait Token: Sized + Copy {
    /// The 64-bit wire value of this token.
    spec fn spec_u64(self) -> u64;

    fn to_u64(self) -> (r: u64)
        ensures
            r == self.spec_u64(),
    ;

    fn from_u64(v: u64) -> (r: Self)
        ensures
            r.spec_u64() == v,
    ;
}

impl Token for u64 {
    open spec fn spec_u64(self) -> u64 {
        self
    }

    fn to_u64(self) -> u64 {
        self
    }

    fn from_u64(v: u64) -> u64 {
        v
    }
}

/// The caller-supplied notification target. The reactor invokes `readable`
/// and `writable` with itself and the firing token; the handler owns all
/// application state and may re-register interest through the reactor. Both
/// methods default to doing nothing, so a handler implements only the
/// notifications it cares about.
pub trait Handler<T: Token> {
    fn readable(&mut self, _reactor: &mut Reactor<T>, _token: T) {
    }

    fn writable(&mut self, _reactor: &mut Reactor<T>, _token: T) {
    }
}

} // verus!
