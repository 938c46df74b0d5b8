//! The registry of running timers and the decisions of the event loop.
//!
//! The caller owns the countdown sources and the multiplexer. It performs
//! each action that the scheduler asks for and reports what came of it; the
//! scheduler decides what is done next.

use crate::dispatch::Outcome;
use crate::span::Span;
use crate::unit::TimerUnit;
use std::collections::HashMap;
use vstd::prelude::*;

verus! {

broadcast use vstd::std_specs::hash::group_hash_axioms;

/// How many ready events one wait asks for.
pub const WAIT_BATCH: usize = 16;

/// A timer while the daemon runs: its name, its unit, and the descriptor
/// of its countdown source.
#[derive(Clone, Debug, PartialEq, Eq)]
pub struct RuntimeTimer {
    pub name: String,
    pub unit: TimerUnit,
    pub descriptor: i32,
}

/// The running timers, each found by the descriptor of its countdown
/// source.
pub struct Registry {
    timers: HashMap<i32, RuntimeTimer>,
}

impl View for Registry {
    type V = Map<i32, RuntimeTimer>;

    closed spec fn view(&self) -> Map<i32, RuntimeTimer> {
        self.timers@
    }
}

impl Registry {
    /// Every timer is filed under its own descriptor.
    pub open spec fn wf(&self) -> bool {
        forall|fd: i32| self@.contains_key(fd) ==> (#[trigger] self@[fd]).descriptor == fd
    }

    /// A registry without timers.
    pub fn new() -> (r: Registry)
        ensures
            r@ == Map::<i32, RuntimeTimer>::empty(),
            r.wf(),
    {
        Registry { timers: HashMap::new() }
    }

    /// Files a timer under its descriptor, in place of one that was filed
    /// there before.
    pub fn register(&mut self, timer: RuntimeTimer)
        requires
            old(self).wf(),
        ensures
            final(self)@ == old(self)@.insert(timer.descriptor, timer),
            final(self).wf(),
    {
        let fd: i32 = timer.descriptor;
        self.timers.insert(fd, timer);
    }

    /// The timer filed under a descriptor, if there is one.
    pub fn lookup(&self, fd: i32) -> (r: Option<&RuntimeTimer>)
        ensures
            r == if self@.contains_key(fd) {
                Some(&self@[fd])
            } else {
                None
            },
    {
        self.timers.get(&fd)
    }

    /// Whether a timer is filed under a descriptor.
    pub fn contains(&self, fd: i32) -> (r: bool)
        ensures
            r == self@.contains_key(fd),
    {
        self.timers.contains_key(&fd)
    }

    /// How many timers are filed.
    pub fn len(&self) -> (r: usize)
        ensures
            r == self@.len(),
    {
        self.timers.len()
    }
}

/// Where the loop stands.
#[derive(Clone, Copy, Debug, PartialEq, Eq)]
pub enum LoopPhase {
    /// Blocked in the wait, or about to be.
    Waiting,
    /// The source with this descriptor is being drained.
    Draining(i32),
    /// The command of the timer with this descriptor runs.
    Dispatching(i32),
    /// The source with this descriptor is being armed again.
    Rearming(i32),
    /// The wait failed with this error number; the loop is over.
    Halted(i32),
}

/// What the caller reports to the scheduler.
#[derive(Clone, Debug, PartialEq, Eq)]
pub enum LoopEvent {
    /// The wait returned these descriptors, in this order.
    Ready(Vec<i32>),
    /// The wait was interrupted by a signal.
    Interrupted,
    /// The wait failed with this error number.
    WaitFailed(i32),
    /// The source was drained; how many expirations it had counted.
    Drained(u64),
    /// The command was run, with this outcome.
    Completed(Outcome),
    /// The source was asked to count down again; whether it took the
    /// request.
    Armed(bool),
}

/// What the scheduler asks of the caller.
#[derive(Clone, Copy, Debug, PartialEq, Eq)]
pub enum LoopAction {
    /// Block, without a timeout, until up to `WAIT_BATCH` sources are ready.
    Wait,
    /// Read the expiration count of the source with this descriptor.
    Drain(i32),
    /// Run the command of the timer with this descriptor.
    Dispatch(i32),
    /// Arm the source with this descriptor to expire once, this long from
    /// now.
    Arm(i32, Span),
    /// Give up with this error number.
    Stop(i32),
}

/// What is left of a batch once the descriptors at its head under which no
/// timer is filed are dropped.
pub open spec fn skip_foreign(timers: Map<i32, RuntimeTimer>, pending: Seq<i32>) -> Seq<i32>
    decreases pending.len(),
{
    if pending.len() > 0 && !timers.contains_key(pending[0]) {
        skip_foreign(timers, pending.drop_first())
    } else {
        pending
    }
}

/// The turn to the next ready timer of a batch: its source is drained, or,
/// where none is left, the loop waits again.
pub open spec fn advance_of(timers: Map<i32, RuntimeTimer>, pending: Seq<i32>) -> (
    LoopPhase,
    Seq<i32>,
    LoopAction,
) {
    let rest = skip_foreign(timers, pending);
    if rest.len() == 0 {
        (LoopPhase::Waiting, rest, LoopAction::Wait)
    } else {
        (LoopPhase::Draining(rest[0]), rest.drop_first(), LoopAction::Drain(rest[0]))
    }
}

/// The phase, the descriptors still to be served and the action that
/// follow an event, where the event fits the phase.
pub open spec fn loop_next(
    timers: Map<i32, RuntimeTimer>,
    phase: LoopPhase,
    pending: Seq<i32>,
    event: LoopEvent,
) -> Option<(LoopPhase, Seq<i32>, LoopAction)> {
    match (phase, event) {
        (LoopPhase::Waiting, LoopEvent::Ready(batch)) => Some(advance_of(timers, batch@)),
        (LoopPhase::Waiting, LoopEvent::Interrupted) => Some(
            (LoopPhase::Waiting, pending, LoopAction::Wait),
        ),
        (LoopPhase::Waiting, LoopEvent::WaitFailed(code)) => Some(
            (LoopPhase::Halted(code), pending, LoopAction::Stop(code)),
        ),
        (LoopPhase::Draining(fd), LoopEvent::Drained(_)) => Some(
            (LoopPhase::Dispatching(fd), pending, LoopAction::Dispatch(fd)),
        ),
        (LoopPhase::Dispatching(fd), LoopEvent::Completed(_)) => match timers[fd].unit.rearm_span() {
            Some(d) => Some((LoopPhase::Rearming(fd), pending, LoopAction::Arm(fd, d))),
            None => Some(advance_of(timers, pending)),
        },
        (LoopPhase::Rearming(_), LoopEvent::Armed(_)) => Some(advance_of(timers, pending)),
        _ => None,
    }
}

/// Whether a phase speaks only of a descriptor under which a timer is
/// filed.
pub open spec fn phase_known(timers: Map<i32, RuntimeTimer>, phase: LoopPhase) -> bool {
    match phase {
        LoopPhase::Draining(fd) => timers.contains_key(fd),
        LoopPhase::Dispatching(fd) => timers.contains_key(fd),
        LoopPhase::Rearming(fd) => timers.contains_key(fd),
        _ => true,
    }
}

/// The event loop's state: the registry, the phase, and what is left of
/// the batch that the last wait returned.
pub struct Scheduler {
    registry: Registry,
    phase: LoopPhase,
    batch: Vec<i32>,
    cursor: usize,
}

impl Scheduler {
    /// The timers that the loop serves.
    pub closed spec fn timers(&self) -> Map<i32, RuntimeTimer> {
        self.registry@
    }

    /// Where the loop stands.
    pub closed spec fn phase_of(&self) -> LoopPhase {
        self.phase
    }

    /// The ready descriptors that are still to be served, in order.
    pub closed spec fn pending(&self) -> Seq<i32> {
        self.batch@.subrange(self.cursor as int, self.batch@.len() as int)
    }

    /// The registry is well formed, and the phase speaks of a timer of it.
    pub closed spec fn wf(&self) -> bool {
        &&& self.registry.wf()
        &&& self.cursor <= self.batch@.len()
        &&& phase_known(self.registry@, self.phase)
    }

    /// A loop over the timers of a registry, about to wait for the first
    /// time.
    pub fn new(registry: Registry) -> (r: Scheduler)
        requires
            registry.wf(),
        ensures
            r.wf(),
            r.timers() == registry@,
            r.phase_of() == LoopPhase::Waiting,
            r.pending() == Seq::<i32>::empty(),
    {
        Scheduler { registry, phase: LoopPhase::Waiting, batch: Vec::new(), cursor: 0 }
    }

    /// Where the loop stands.
    pub fn phase(&self) -> (r: LoopPhase)
        ensures
            r == self.phase_of(),
    {
        self.phase
    }

    /// The timer filed under a descriptor, if there is one.
    pub fn timer(&self, fd: i32) -> (r: Option<&RuntimeTimer>)
        ensures
            r == if self.timers().contains_key(fd) {
                Some(&self.timers()[fd])
            } else {
                None
            },
    {
        self.registry.lookup(fd)
    }

    /// Turns to the next ready descriptor under which a timer is filed.
    fn advance(&mut self) -> (r: LoopAction)
        requires
            old(self).registry.wf(),
            old(self).cursor <= old(self).batch@.len(),
        ensures
            final(self).wf(),
            final(self).timers() == old(self).timers(),
            (final(self).phase_of(), final(self).pending(), r) == advance_of(
                old(self).timers(),
                old(self).pending(),
            ),
    {
        let ghost start = self.pending();
        while self.cursor < self.batch.len() && !self.registry.contains(self.batch[self.cursor])
            invariant
                self.registry == old(self).registry,
                self.batch == old(self).batch,
                self.cursor <= self.batch@.len(),
                skip_foreign(self.registry@, start) == skip_foreign(
                    self.registry@,
                    self.pending(),
                ),
            decreases self.batch@.len() - self.cursor,
        {
            assert(self.pending().drop_first() =~= self.batch@.subrange(
                self.cursor + 1,
                self.batch@.len() as int,
            ));
            self.cursor = self.cursor + 1;
        }
        if self.cursor < self.batch.len() {
            let fd: i32 = self.batch[self.cursor];
            assert(self.pending().drop_first() =~= self.batch@.subrange(
                self.cursor + 1,
                self.batch@.len() as int,
            ));
            self.cursor = self.cursor + 1;
            self.phase = LoopPhase::Draining(fd);
            LoopAction::Drain(fd)
        } else {
            self.phase = LoopPhase::Waiting;
            LoopAction::Wait
        }
    }

    /// Takes one event: the action that follows, or `None`, with nothing
    /// changed, where the event does not fit the phase.
    pub fn step(&mut self, event: LoopEvent) -> (r: Option<LoopAction>)
        requires
            old(self).wf(),
        ensures
            final(self).wf(),
            final(self).timers() == old(self).timers(),
            match loop_next(old(self).timers(), old(self).phase_of(), old(self).pending(), event) {
                Some((phase, rest, action)) => {
                    &&& r == Some(action)
                    &&& final(self).phase_of() == phase
                    &&& final(self).pending() == rest
                },
                None => {
                    &&& r is None
                    &&& final(self).phase_of() == old(self).phase_of()
                    &&& final(self).pending() == old(self).pending()
                },
            },
    {
        match self.phase {
            LoopPhase::Waiting => match event {
                LoopEvent::Ready(batch) => {
                    self.batch = batch;
                    self.cursor = 0;
                    assert(self.pending() =~= batch@);
                    Some(self.advance())
                },
                LoopEvent::Interrupted => Some(LoopAction::Wait),
                LoopEvent::WaitFailed(code) => {
                    self.phase = LoopPhase::Halted(code);
                    Some(LoopAction::Stop(code))
                },
                _ => None,
            },
            LoopPhase::Draining(fd) => match event {
                LoopEvent::Drained(_) => {
                    self.phase = LoopPhase::Dispatching(fd);
                    Some(LoopAction::Dispatch(fd))
                },
                _ => None,
            },
            LoopPhase::Dispatching(fd) => match event {
                LoopEvent::Completed(_) => {
                    let interval = match self.registry.lookup(fd) {
                        Some(timer) => timer.unit.rearm_interval(),
                        None => None,
                    };
                    match interval {
                        Some(d) => {
                            self.phase = LoopPhase::Rearming(fd);
                            Some(LoopAction::Arm(fd, d))
                        },
                        None => Some(self.advance()),
                    }
                },
                _ => None,
            },
            LoopPhase::Rearming(_) => match event {
                LoopEvent::Armed(_) => Some(self.advance()),
                _ => None,
            },
            LoopPhase::Halted(_) => None,
        }
    }
}

/// Whether an error number of the operating system is the one that reports
/// a call interrupted by a signal, as `nix` tells them apart.
pub uninterp spec fn errno_is_interrupt(code: i32) -> bool;

/// Calls `nix::errno::Errno::from_i32` and compares what it gives with
/// `Errno::EINTR`. Believed, not proved: the answer depends on the error
/// number alone.
#[verifier::external_body]
fn is_interrupt(code: i32) -> (r: bool)
    ensures
        r == errno_is_interrupt(code),
{
    nix::errno::Errno::from_i32(code) == nix::errno::Errno::EINTR
}

/// The event that a failed wait is reported as: an interruption where a
/// signal cut the wait short, a failure otherwise.
pub fn wait_failure(code: i32) -> (r: LoopEvent)
    ensures
        r == if errno_is_interrupt(code) {
            LoopEvent::Interrupted
        } else {
            LoopEvent::WaitFailed(code)
        },
{
    if is_interrupt(code) {
        LoopEvent::Interrupted
    } else {
        LoopEvent::WaitFailed(code)
    }
}

/// What `skip_foreign` leaves is the end of the batch, and starts, if it
/// starts at all, with a descriptor under which a timer is filed.
pub proof fn lemma_skip_foreign(timers: Map<i32, RuntimeTimer>, pending: Seq<i32>)
    ensures
        skip_foreign(timers, pending).len() <= pending.len(),
        skip_foreign(timers, pending) == pending.subrange(
            pending.len() - skip_foreign(timers, pending).len(),
            pending.len() as int,
        ),
        skip_foreign(timers, pending).len() > 0 ==> timers.contains_key(
            skip_foreign(timers, pending)[0],
        ),
        forall|i: int|
            0 <= i < pending.len() - skip_foreign(timers, pending).len() ==> !timers.contains_key(
                #[trigger] pending[i],
            ),
    decreases pending.len(),
{
    if pending.len() > 0 && !timers.contains_key(pending[0]) {
        let tail = pending.drop_first();
        lemma_skip_foreign(timers, tail);
        let rest = skip_foreign(timers, tail);
        let cut = tail.len() - rest.len();
        assert(tail.subrange(cut, tail.len() as int) =~= pending.subrange(
            cut + 1,
            pending.len() as int,
        ));
        assert forall|i: int| 0 <= i < pending.len() - rest.len() implies !timers.contains_key(
            #[trigger] pending[i],
        ) by {
            if i > 0 {
                assert(pending[i] == tail[i - 1]);
            }
        }
    } else {
        assert(pending.subrange(0, pending.len() as int) =~= pending);
    }
}

/// A source is drained only where a timer is filed under its descriptor:
/// a ready descriptor that the registry does not know is passed over.
pub proof fn lemma_foreign_descriptors_ignored(
    timers: Map<i32, RuntimeTimer>,
    pending: Seq<i32>,
    fd: i32,
)
    requires
        advance_of(timers, pending).2 == LoopAction::Drain(fd),
    ensures
        timers.contains_key(fd),
        pending.contains(fd),
{
    lemma_skip_foreign(timers, pending);
    let rest = skip_foreign(timers, pending);
    assert(rest[0] == pending[pending.len() - rest.len()]);
}

/// However many expirations a source had counted when it was drained, one
/// run of its command follows, and no more.
pub proof fn lemma_one_dispatch_per_drain(
    timers: Map<i32, RuntimeTimer>,
    fd: i32,
    pending: Seq<i32>,
    expirations: u64,
)
    ensures
        loop_next(timers, LoopPhase::Draining(fd), pending, LoopEvent::Drained(expirations))
            == Some((LoopPhase::Dispatching(fd), pending, LoopAction::Dispatch(fd))),
{
}

/// A command is run only in answer to a drained source, for the timer of
/// that source.
pub proof fn lemma_dispatch_follows_drain(
    timers: Map<i32, RuntimeTimer>,
    phase: LoopPhase,
    pending: Seq<i32>,
    event: LoopEvent,
    fd: i32,
)
    requires
        loop_next(timers, phase, pending, event) is Some,
        loop_next(timers, phase, pending, event).unwrap().2 == LoopAction::Dispatch(fd),
    ensures
        phase == LoopPhase::Draining(fd),
        event is Drained,
{
}

/// What follows a run does not depend on how the command ended: a timer
/// with an interval longer than nothing is armed again for that interval,
/// after a failure as after a success.
pub proof fn lemma_rearm_whatever_the_outcome(
    timers: Map<i32, RuntimeTimer>,
    fd: i32,
    pending: Seq<i32>,
    a: Outcome,
    b: Outcome,
)
    ensures
        loop_next(timers, LoopPhase::Dispatching(fd), pending, LoopEvent::Completed(a))
            == loop_next(timers, LoopPhase::Dispatching(fd), pending, LoopEvent::Completed(b)),
        timers[fd].unit.rearm_span() is Some ==> loop_next(
            timers,
            LoopPhase::Dispatching(fd),
            pending,
            LoopEvent::Completed(a),
        ) == Some(
            (
                LoopPhase::Rearming(fd),
                pending,
                LoopAction::Arm(fd, timers[fd].unit.rearm_span().unwrap()),
            ),
        ),
{
}

/// A source is armed again only when its timer's command has just ended,
/// and only for the timer's interval, which is then longer than nothing.
/// So a timer without such an interval fires once.
pub proof fn lemma_arm_only_after_run(
    timers: Map<i32, RuntimeTimer>,
    phase: LoopPhase,
    pending: Seq<i32>,
    event: LoopEvent,
    fd: i32,
    d: Span,
)
    requires
        loop_next(timers, phase, pending, event) is Some,
        loop_next(timers, phase, pending, event).unwrap().2 == LoopAction::Arm(fd, d),
    ensures
        phase == LoopPhase::Dispatching(fd),
        event is Completed,
        timers[fd].unit.on_unit_active_sec == Some(d),
        d@ > 0,
{
}

/// A source that did not take the request to count down again is left as
/// it is: the loop goes on as after a request that was taken.
pub proof fn lemma_failed_arm_goes_on(
    timers: Map<i32, RuntimeTimer>,
    fd: i32,
    pending: Seq<i32>,
)
    ensures
        loop_next(timers, LoopPhase::Rearming(fd), pending, LoopEvent::Armed(false)) == loop_next(
            timers,
            LoopPhase::Rearming(fd),
            pending,
            LoopEvent::Armed(true),
        ),
        loop_next(timers, LoopPhase::Rearming(fd), pending, LoopEvent::Armed(false)) == Some(
            advance_of(timers, pending),
        ),
{
}

} // verus!
