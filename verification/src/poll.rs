//! The OS-multiplexer abstraction: register, reregister and deregister
//! pollable handles with an interest set and triggering policy, and wait
//! for a batch of readiness events.

use crate::error::MioError;
use crate::error::MioResult;
use crate::handler::Token;
use crate::io::IoHandle;
use crate::os;
use crate::os::RegOp;
use vstd::prelude::*;

verus! {

/// EPOLLIN: the handle became readable.
pub const EVENT_BIT_READABLE: u32 = 0x1;

/// EPOLLOUT: the handle became writable.
pub const EVENT_BIT_WRITABLE: u32 = 0x4;

/// EPOLLERR: an error condition on the handle.
pub const EVENT_BIT_ERROR: u32 = 0x8;

/// EPOLLHUP: the peer hung up.
pub const EVENT_BIT_HANGUP: u32 = 0x10;

/// EPOLLRDHUP: the peer closed its writing half.
pub const EVENT_BIT_READ_HANGUP: u32 = 0x2000;

/// The most events one wait call hands back.
pub const MAX_POLL_EVENTS: usize = 1024;

/// The closed set of readiness kinds one event can carry.
#[derive(Clone, Copy, Debug, PartialEq, Eq, Structural)]
pub struct IoEventKind {
    pub readable: bool,
    pub writable: bool,
    pub error: bool,
    pub hangup: bool,
}

/// Which readiness kinds a registration asks to be told about.
#[derive(Clone, Copy, Debug, PartialEq, Eq, Structural)]
pub struct Interest {
    pub readable: bool,
    pub writable: bool,
    pub hangup: bool,
}

impl Interest {
    /// Readable, writable and hang-up all at once: the default a plain
    /// registration uses.
    pub fn all() -> (r: Interest)
        ensures
            r == (Interest { readable: true, writable: true, hangup: true }),
    {
        Interest { readable: true, writable: true, hangup: true }
    }
}

/// One readiness notification: what happened, and the token the firing
/// registration was made with.
#[derive(Clone, Copy, Debug)]
pub struct IoEvent<T> {
    pub kind: IoEventKind,
    pub token: T,
}

impl<T> IoEvent<T> {
    pub fn is_readable(&self) -> (r: bool)
        ensures
            r == self.kind.readable,
    {
        self.kind.readable
    }

    pub fn is_writable(&self) -> (r: bool)
        ensures
            r == self.kind.writable,
    {
        self.kind.writable
    }

    pub fn is_error(&self) -> (r: bool)
        ensures
            r == self.kind.error,
    {
        self.kind.error
    }

    pub fn is_hangup(&self) -> (r: bool)
        ensures
            r == self.kind.hangup,
    {
        self.kind.hangup
    }
}

/// How the raw ready-state bits of one OS notification decode into the
/// closed readiness set.
pub open spec fn spec_kind_of_bits(bits: u32) -> IoEventKind {
    IoEventKind {
        readable: bits & EVENT_BIT_READABLE != 0,
        writable: bits & EVENT_BIT_WRITABLE != 0,
        error: bits & EVENT_BIT_ERROR != 0,
        hangup: bits & (EVENT_BIT_HANGUP | EVENT_BIT_READ_HANGUP) != 0,
    }
}

/// Decodes raw ready-state bits, exactly as `spec_kind_of_bits` says.
pub fn kind_of_bits(bits: u32) -> (k: IoEventKind)
    ensures
        k == spec_kind_of_bits(bits),
{
    IoEventKind {
        readable: bits & EVENT_BIT_READABLE != 0,
        writable: bits & EVENT_BIT_WRITABLE != 0,
        error: bits & EVENT_BIT_ERROR != 0,
        hangup: bits & (EVENT_BIT_HANGUP | EVENT_BIT_READ_HANGUP) != 0,
    }
}

/// The readiness-notification facility: one OS poller instance plus the
/// batch of events its last wait returned.
pub struct Poll<T: Token> {
    epfd: i32,
    events: Vec<IoEvent<T>>,
    registered: Ghost<Set<u64>>,
}

impl<T: Token> Poll<T> {
    /// The wire values of every token a registration has been made with on
    /// this poller. Deregistration is tracked by the OS per handle, not per
    /// token, so the set only grows.
    pub closed spec fn tokens(self) -> Set<u64> {
        self.registered@
    }

    /// The batch the last `poll` returned, in the order the OS reported it.
    pub closed spec fn pending(self) -> Seq<IoEvent<T>> {
        self.events@
    }

    /// A new poller with no registrations and an empty batch; fails only if
    /// the platform multiplexer cannot be created.
    pub fn new() -> (r: MioResult<Poll<T>>)
        ensures
            r matches Ok(p) ==> p.tokens() == Set::<u64>::empty() && p.pending()
                == Seq::<IoEvent<T>>::empty(),
    {
        match os::sys_epoll_create() {
            Ok(fd) => Ok(Poll { epfd: fd, events: Vec::new(), registered: Ghost(Set::empty()) }),
            Err(code) => Err(MioError::from_errno(code)),
        }
    }

    /// Begins monitoring `io` under `token` with the default interest set
    /// (everything) and edge triggering. On success the token is recorded
    /// as registered; an already-known handle fails with
    /// `AlreadyRegistered` and changes nothing.
    pub fn register<H: IoHandle>(&mut self, io: &H, token: T) -> (r: MioResult<()>)
        ensures
            r is Ok ==> final(self).tokens() == old(self).tokens().insert(token.spec_u64())
                && final(self).pending() == old(self).pending(),
            r is Err ==> *final(self) == *old(self),
    {
        self.register_opt(io, token, Interest::all(), true)
    }

    /// Begins monitoring `io` under `token` with the given interest set and
    /// triggering policy (edge when `edge`, level otherwise).
    pub fn register_opt<H: IoHandle>(
        &mut self,
        io: &H,
        token: T,
        interest: Interest,
        edge: bool,
    ) -> (r: MioResult<()>)
        ensures
            r is Ok ==> final(self).tokens() == old(self).tokens().insert(token.spec_u64())
                && final(self).pending() == old(self).pending(),
            r is Err ==> *final(self) == *old(self),
    {
        let data = token.to_u64();
        let fd = io.desc().fd;
        match os::sys_epoll_ctl(
            self.epfd,
            RegOp::Add,
            fd,
            data,
            interest.readable,
            interest.writable,
            interest.hangup,
            edge,
        ) {
            Ok(()) => {
                self.registered = Ghost(self.registered@.insert(data));
                Ok(())
            },
            Err(code) => Err(MioError::from_errno(code)),
        }
    }

    /// Updates an existing registration's token, interest set and
    /// triggering policy — required after every edge-triggered event the
    /// caller wants to observe again. An unknown handle fails with
    /// `NoSuchRegistration` and changes nothing.
    pub fn reregister<H: IoHandle>(
        &mut self,
        io: &H,
        token: T,
        interest: Interest,
        edge: bool,
    ) -> (r: MioResult<()>)
        ensures
            r is Ok ==> final(self).tokens() == old(self).tokens().insert(token.spec_u64())
                && final(self).pending() == old(self).pending(),
            r is Err ==> *final(self) == *old(self),
    {
        let data = token.to_u64();
        let fd = io.desc().fd;
        match os::sys_epoll_ctl(
            self.epfd,
            RegOp::Modify,
            fd,
            data,
            interest.readable,
            interest.writable,
            interest.hangup,
            edge,
        ) {
            Ok(()) => {
                self.registered = Ghost(self.registered@.insert(data));
                Ok(())
            },
            Err(code) => Err(MioError::from_errno(code)),
        }
    }

    /// Stops monitoring `io`: the OS delivers no further events for it. An
    /// unknown handle fails with `NoSuchRegistration`. The poller value
    /// itself is unchanged either way.
    pub fn deregister<H: IoHandle>(&mut self, io: &H) -> (r: MioResult<()>)
        ensures
            *final(self) == *old(self),
    {
        let fd = io.desc().fd;
        match os::sys_epoll_ctl(self.epfd, RegOp::Delete, fd, 0, false, false, false, false) {
            Ok(()) => Ok(()),
            Err(code) => Err(MioError::from_errno(code)),
        }
    }

    /// Blocks up to `timeout_ms` and replaces the pending batch with the
    /// registrations that became ready, in the order the OS reported them.
    /// Returns how many there are; on failure the poller is unchanged and
    /// the error is a hard one.
    #[verifier::loop_isolation(false)]
    pub fn poll(&mut self, timeout_ms: i32) -> (r: MioResult<usize>)
        requires
            timeout_ms >= 0,
        ensures
            final(self).tokens() == old(self).tokens(),
            r matches Ok(n) ==> n == final(self).pending().len() && n <= MAX_POLL_EVENTS,
            r is Err ==> *final(self) == *old(self),
    {
        match os::sys_epoll_wait(self.epfd, MAX_POLL_EVENTS, timeout_ms) {
            Ok(sys) => {
                let mut evs: Vec<IoEvent<T>> = Vec::new();
                let mut i: usize = 0;
                while i < sys.len()
                    invariant
                        i <= sys@.len(),
                        evs@.len() == i,
                    decreases sys@.len() - i,
                {
                    let s = sys[i];
                    evs.push(IoEvent { kind: kind_of_bits(s.bits), token: T::from_u64(s.data) });
                    i = i + 1;
                }
                let n = evs.len();
                self.events = evs;
                Ok(n)
            },
            Err(code) => Err(MioError::from_errno(code)),
        }
    }

    /// The `i`th event of the pending batch.
    pub fn event(&self, i: usize) -> (e: IoEvent<T>)
        requires
            i < self.pending().len(),
        ensures
            e == self.pending()[i as int],
    {
        self.events[i]
    }

    /// How many events the pending batch holds.
    pub fn events_len(&self) -> (n: usize)
        ensures
            n == self.pending().len(),
    {
        self.events.len()
    }
}

} // verus!
