//! A lightweight I/O reactor: owns one poller and a run flag, turns batches
//! of readiness events into handler callbacks, and normalizes the
//! connect/listen helpers so completion is always observed through the
//! normal tick path.

use crate::error::MioError;
use crate::error::MioResult;
use crate::handler::Handler;
use crate::handler::Token;
use crate::io::IoAcceptor;
use crate::io::IoHandle;
use crate::os;
use crate::poll::Interest;
use crate::poll::IoEvent;
use crate::poll::Poll;
use crate::socket::SockAddr;
use crate::socket::Socket;
use vstd::prelude::*;

verus! {

/// Placeholder for reactor construction options.
#[derive(Clone, Debug)]
pub struct ReactorConfig;

/// The number of ticks one `run` call is bounded by. At one tick per
/// nanosecond this outlasts any machine by centuries, so the bound is never
/// observed; it exists so that the run loop provably terminates.
pub const TICK_BUDGET: u64 = 0xffff_ffff_ffff_ffff;

/// How long one tick waits for events, so a pending shutdown takes effect
/// within one interval even with no I/O activity.
pub const TICK_TIMEOUT_MS: i32 = 1000;

/// A run-loop failure, carrying the handler back to the caller so no
/// accumulated state is lost.
pub struct ReactorError<H> {
    pub handler: H,
    pub error: MioError,
}

pub type ReactorResult<H> = Result<H, ReactorError<H>>;

impl<H> ReactorError<H> {
    fn new(handler: H, error: MioError) -> (r: ReactorError<H>)
        ensures
            r.handler == handler,
            r.error == error,
    {
        ReactorError { handler, error }
    }
}

/// One planned handler notification, derived from one tick's events.
/// Within a tick, every event is dispatched in the order the poller
/// returned it, and a readable notice always precedes the writable notice
/// of the same event.
pub ghost enum Notice<T> {
    Readable { token: T },
    Writable { token: T },
    ErrorSeen,
}

/// The notices one event gives rise to: readable first, then writable,
/// then the error report. A hang-up is a terminal condition the handler
/// should pair with cleanup, so it wakes the handler through the readable
/// path (the next read observes end-of-stream) even when no data is left.
pub open spec fn event_notices<T>(e: IoEvent<T>) -> Seq<Notice<T>> {
    let r: Seq<Notice<T>> = if e.kind.readable || e.kind.hangup {
        seq![Notice::Readable { token: e.token }]
    } else {
        seq![]
    };
    let w: Seq<Notice<T>> = if e.kind.writable {
        seq![Notice::Writable { token: e.token }]
    } else {
        seq![]
    };
    let x: Seq<Notice<T>> = if e.kind.error {
        seq![Notice::ErrorSeen]
    } else {
        seq![]
    };
    r + w + x
}

/// The dispatch plan of a whole batch: each event's notices, in batch
/// order.
pub open spec fn dispatch_plan<T>(events: Seq<IoEvent<T>>) -> Seq<Notice<T>>
    decreases events.len(),
{
    if events.len() == 0 {
        seq![]
    } else {
        dispatch_plan(events.drop_last()) + event_notices(events.last())
    }
}

/// Law: every event of a batch is delivered through the tick path. The
/// batch's dispatch plan carries a readable notice for each readable or
/// hung-up event and a writable notice for each writable one, under that
/// event's own token — so a connect whose completion surfaces as writable
/// readiness is always reported by a `writable` callback, never through a
/// separate immediate-result path, and a hang-up always wakes the handler.
pub proof fn lemma_every_event_is_dispatched<T>(events: Seq<IoEvent<T>>, i: int)
    requires
        0 <= i < events.len(),
    ensures
        events[i].kind.readable || events[i].kind.hangup ==> dispatch_plan(events).contains(
            Notice::Readable { token: events[i].token },
        ),
        events[i].kind.writable ==> dispatch_plan(events).contains(
            Notice::Writable { token: events[i].token },
        ),
    decreases events.len(),
{
    let plan_prefix = dispatch_plan(events.drop_last());
    let en = event_notices(events.last());
    if i == events.len() - 1 {
        let e = events[i];
        if e.kind.readable || e.kind.hangup {
            assert(en[0] == Notice::Readable { token: e.token });
            assert(dispatch_plan(events)[plan_prefix.len() as int] == en[0]);
        }
        if e.kind.writable {
            let j: int = if e.kind.readable || e.kind.hangup {
                1
            } else {
                0
            };
            assert(en[j] == Notice::Writable { token: e.token });
            assert(dispatch_plan(events)[plan_prefix.len() as int + j] == en[j]);
        }
    } else {
        lemma_every_event_is_dispatched(events.drop_last(), i);
        assert(events.drop_last()[i] == events[i]);
        if events[i].kind.readable || events[i].kind.hangup {
            let x = Notice::Readable { token: events[i].token };
            let k = choose|k: int| 0 <= k < plan_prefix.len() && plan_prefix[k] == x;
            assert(dispatch_plan(events)[k] == x);
        }
        if events[i].kind.writable {
            let x = Notice::Writable { token: events[i].token };
            let k = choose|k: int| 0 <= k < plan_prefix.len() && plan_prefix[k] == x;
            assert(dispatch_plan(events)[k] == x);
        }
    }
}

/// A lightweight I/O reactor: one poller plus a run flag.
pub struct Reactor<T: Token> {
    poll: Poll<T>,
    run: bool,
}

impl<T: Token> Reactor<T> {
    /// Whether the run loop would start another tick.
    pub closed spec fn is_running(self) -> bool {
        self.run
    }

    /// The wire values of every token registered through this reactor.
    pub closed spec fn tokens(self) -> Set<u64> {
        self.poll.tokens()
    }

    /// Initializes a new reactor with no registrations and the run flag
    /// set (no tick runs until `run` or `run_once` is called); fails only
    /// if the platform multiplexer cannot be created.
    pub fn new() -> (r: MioResult<Reactor<T>>)
        ensures
            r matches Ok(re) ==> re.tokens() == Set::<u64>::empty() && re.is_running(),
    {
        match Poll::new() {
            Ok(poll) => Ok(Reactor { poll, run: true }),
            Err(e) => Err(e),
        }
    }

    /// Tells the reactor to exit after the tick in flight has delivered its
    /// callbacks: the next tick does not start. Nothing else changes.
    pub fn shutdown(&mut self)
        ensures
            !final(self).is_running(),
            final(self).tokens() == old(self).tokens(),
    {
        self.run = false;
    }

    /// Registers an I/O handle with the reactor under `token`, with the
    /// default interest set; on success the token is recorded as
    /// registered, and a failure changes nothing.
    pub fn register<H: IoHandle>(&mut self, io: &H, token: T) -> (r: MioResult<()>)
        ensures
            r is Ok ==> final(self).tokens() == old(self).tokens().insert(token.spec_u64()),
            r is Err ==> *final(self) == *old(self),
            final(self).is_running() == old(self).is_running(),
    {
        self.poll.register(io, token)
    }

    /// Connects the socket to the given address. Whether or not the
    /// connect completes immediately (as it can against loopback), interest
    /// is registered afterward, so completion is always delivered to the
    /// handler through the normal readiness path — `Ok` never reports
    /// completion itself, and on `Ok` the token is always registered.
    pub fn connect<S: Socket>(
        &mut self,
        io: &S,
        addr: &SockAddr,
        token: T,
    ) -> (r: MioResult<()>)
        ensures
            r is Ok ==> final(self).tokens() == old(self).tokens().insert(token.spec_u64()),
            r is Err ==> *final(self) == *old(self),
            final(self).is_running() == old(self).is_running(),
    {
        // Attempt establishing the connection. This may not complete
        // immediately; either way the readiness path reports the outcome.
        let _completed_immediately = match os::sys_connect(io.desc().fd, addr) {
            Ok(done) => done,
            Err(code) => {
                return Err(MioError::from_errno(code));
            },
        };
        // Register interest with the socket on the reactor.
        match self.poll.register(io, token) {
            Ok(()) => Ok(()),
            Err(e) => Err(e),
        }
    }

    /// Updates an existing registration's token, interest set and
    /// triggering policy — how a handler re-arms an edge-triggered interest
    /// from inside a callback.
    pub fn reregister<H: IoHandle>(
        &mut self,
        io: &H,
        token: T,
        interest: Interest,
        edge: bool,
    ) -> (r: MioResult<()>)
        ensures
            r is Ok ==> final(self).tokens() == old(self).tokens().insert(token.spec_u64()),
            r is Err ==> *final(self) == *old(self),
            final(self).is_running() == old(self).is_running(),
    {
        self.poll.reregister(io, token, interest, edge)
    }

    /// Stops monitoring the handle: the OS delivers no further events for
    /// it. The reactor value itself is unchanged either way.
    pub fn deregister<H: IoHandle>(&mut self, io: &H) -> (r: MioResult<()>)
        ensures
            *final(self) == *old(self),
    {
        self.poll.deregister(io)
    }

    /// Marks the handle as listening at the OS level with the given
    /// backlog, then registers it: an incoming connection manifests as a
    /// readable event under `token`.
    pub fn listen<S, A: IoHandle + IoAcceptor<S>>(
        &mut self,
        io: &A,
        backlog: usize,
        token: T,
    ) -> (r: MioResult<()>)
        ensures
            r is Ok ==> final(self).tokens() == old(self).tokens().insert(token.spec_u64()),
            r is Err ==> *final(self) == *old(self),
            final(self).is_running() == old(self).is_running(),
    {
        match os::sys_listen(io.desc().fd, backlog) {
            Ok(()) => {},
            Err(code) => {
                return Err(MioError::from_errno(code));
            },
        }
        match self.poll.register(io, token) {
            Ok(()) => Ok(()),
            Err(e) => Err(e),
        }
    }

    /// Keeps ticking until `shutdown` clears the run flag, then returns the
    /// handler. A hard poll failure aborts the loop and hands the handler
    /// back together with the error, so no state is lost either way.
    pub fn run<H: Handler<T>>(&mut self, handler: H) -> (r: ReactorResult<H>)
        ensures
            r is Ok ==> !final(self).is_running(),
    {
        self.run = true;

        let mut handler = handler;
        let mut budget: u64 = TICK_BUDGET;
        while self.run
            ensures
                !self.is_running(),
            decreases budget,
        {
            if budget == 0 {
                // The bound is unreachable in practice; treat exhaustion as
                // a shutdown request.
                self.run = false;
                break;
            }
            budget = budget - 1;
            // Execute ticks as long as the reactor is running.
            match self.tick(&mut handler) {
                Err(e) => {
                    return Err(ReactorError::new(handler, e));
                },
                Ok(()) => {},
            }
        }

        Ok(handler)
    }

    /// Spins the reactor once: a single tick with the bounded wait, then
    /// returns the handler. A failing tick leaves the reactor and the
    /// handler exactly as they were and reports the error alongside the
    /// handler.
    pub fn run_once<H: Handler<T>>(&mut self, handler: H) -> (r: ReactorResult<H>)
        ensures
            r matches Err(re) ==> re.handler == handler && *final(self) == *old(self),
    {
        let mut handler = handler;
        // Execute a single tick.
        match self.tick(&mut handler) {
            Err(e) => Err(ReactorError::new(handler, e)),
            Ok(()) => Ok(handler),
        }
    }

    /// Executes a single run of the reactor loop. On failure nothing was
    /// dispatched and nothing changed.
    fn tick<H: Handler<T>>(&mut self, handler: &mut H) -> (r: MioResult<()>)
        ensures
            r matches Err(e) ==> *final(self) == *old(self) && *final(handler) == *old(handler),
    {
        // Check the registered handles for new events. Each poll waits one
        // bounded interval, so a shutdown request takes effect within it.
        self.io_poll(handler)
    }

    /// Polls for one bounded interval and dispatches every returned event:
    /// the whole batch is planned first, exactly as `dispatch_plan` says,
    /// then delivered in plan order, so a readable callback always precedes
    /// the writable callback of the same event and no callback can disturb
    /// the batch being delivered.
    #[verifier::loop_isolation(false)]
    fn io_poll<H: Handler<T>>(&mut self, handler: &mut H) -> (r: MioResult<()>)
        ensures
            r matches Err(e) ==> *final(self) == *old(self) && *final(handler) == *old(handler),
    {
        let cnt = match self.poll.poll(TICK_TIMEOUT_MS) {
            Ok(n) => n,
            Err(e) => {
                return Err(e);
            },
        };

        // Plan the whole batch before any callback runs.
        let plan = plan_dispatch(&self.poll, cnt);

        // Iterate over the notifications. Each event provides the token it
        // was registered with as well as what kind of readiness occurred.
        let mut i: usize = 0;
        while i < plan.notices.len()
            decreases plan.notices@.len() - i,
        {
            match plan.notices[i] {
                ExecNotice::Readable { token } => handler.readable(self, token),
                ExecNotice::Writable { token } => handler.writable(self, token),
                ExecNotice::ErrorSeen => os::report_error_event(),
            }
            i = i + 1;
        }

        Ok(())
    }
}

/// One planned handler notification, as executable data.
pub enum ExecNotice<T> {
    Readable { token: T },
    Writable { token: T },
    ErrorSeen,
}

impl<T> ExecNotice<T> {
    /// The ghost notice this executable notice stands for.
    pub open spec fn view_notice(self) -> Notice<T> {
        match self {
            ExecNotice::Readable { token } => Notice::Readable { token },
            ExecNotice::Writable { token } => Notice::Writable { token },
            ExecNotice::ErrorSeen => Notice::ErrorSeen,
        }
    }
}

/// The plan of one tick's callbacks.
pub struct DispatchPlan<T> {
    pub notices: Vec<ExecNotice<T>>,
}

impl<T> DispatchPlan<T> {
    pub open spec fn view_plan(self) -> Seq<Notice<T>> {
        self.notices@.map_values(|n: ExecNotice<T>| n.view_notice())
    }
}

/// Builds the dispatch plan of the first `cnt` pending events: exactly
/// `dispatch_plan` of that batch, so planning is provably faithful to the
/// readable-before-writable, batch-order discipline.
#[verifier::loop_isolation(false)]
pub fn plan_dispatch<T: Token>(poll: &Poll<T>, cnt: usize) -> (plan: DispatchPlan<T>)
    requires
        cnt <= poll.pending().len(),
    ensures
        plan.view_plan() == dispatch_plan(poll.pending().take(cnt as int)),
{
    let mut notices: Vec<ExecNotice<T>> = Vec::new();
    let mut i: usize = 0;
    while i < cnt
        invariant
            i <= cnt,
            notices@.map_values(|n: ExecNotice<T>| n.view_notice()) == dispatch_plan(
                poll.pending().take(i as int),
            ),
        decreases cnt - i,
    {
        let e = poll.event(i);
        proof {
            assert(poll.pending().take(i as int + 1).drop_last() =~= poll.pending().take(i as int));
            assert(poll.pending().take(i as int + 1).last() == poll.pending()[i as int]);
        }
        let ghost before = notices@.map_values(|n: ExecNotice<T>| n.view_notice());
        if e.is_readable() || e.is_hangup() {
            notices.push(ExecNotice::Readable { token: e.token });
        }
        if e.is_writable() {
            notices.push(ExecNotice::Writable { token: e.token });
        }
        if e.is_error() {
            notices.push(ExecNotice::ErrorSeen);
        }
        proof {
            assert(notices@.map_values(|n: ExecNotice<T>| n.view_notice()) =~= before
                + event_notices(poll.pending()[i as int]));
        }
        i = i + 1;
    }
    DispatchPlan { notices }
}

} // verus!
