//! One run of a timer's command, bracketed by its wake lock.
//!
//! The caller performs each action (a write to the lock's control file, the
//! command itself) and reports what came of it; the functions here decide
//! what is done next.

use vstd::prelude::*;
use vstd::string::StringExecFns;

verus! {

/// How the command ended, as the caller saw it.
#[derive(Clone, Copy, Debug, PartialEq, Eq)]
pub enum Exit {
    /// The command could not be started.
    LaunchFailed,
    /// The command ran and left this exit code.
    Code(i32),
    /// The command ran and ended without an exit code.
    Killed,
}

/// What a run is recorded as.
#[derive(Clone, Copy, Debug, PartialEq, Eq)]
pub enum Outcome {
    /// The command left exit code zero.
    Success,
    /// The command ran and did not succeed; its exit code, if it left one.
    Failed(Option<i32>),
    /// The command could not be started.
    LaunchError,
}

/// What the caller reports to the dispatcher.
#[derive(Clone, Copy, Debug, PartialEq, Eq)]
pub enum DispatchEvent {
    /// The timer is due.
    Start,
    /// The write that takes the lock was made; whether it succeeded.
    LockWritten(bool),
    /// The command was waited for.
    Exited(Exit),
    /// The write that gives the lock back was made; whether it succeeded.
    UnlockWritten(bool),
}

/// What the dispatcher asks of the caller.
#[derive(Clone, Copy, Debug, PartialEq, Eq)]
pub enum DispatchAction {
    /// Write the lock's name to the control path that takes it.
    AcquireLock,
    /// Run the command through the shell and wait for it.
    RunCommand,
    /// Write the lock's name to the control path that gives it back.
    ReleaseLock,
    /// Record the outcome; the run is over.
    Finish(Outcome),
}

/// Where a run stands.
#[derive(Clone, Copy, Debug, PartialEq, Eq)]
pub enum DispatchState {
    /// Nothing was done yet.
    Idle,
    /// The lock is being taken.
    Acquiring,
    /// The command runs; `held` says whether the lock was taken.
    Running { held: bool },
    /// The command is over and the lock is being given back.
    Releasing { outcome: Outcome },
    /// The run is over.
    Finished,
}

/// The outcome that an exit is recorded as.
pub open spec fn outcome_of(exit: Exit) -> Outcome {
    match exit {
        Exit::LaunchFailed => Outcome::LaunchError,
        Exit::Code(c) => if c == 0 { Outcome::Success } else { Outcome::Failed(Some(c)) },
        Exit::Killed => Outcome::Failed(None),
    }
}

/// The state and the action that follow an event, where the event fits the
/// state.
pub open spec fn dispatch_next(wake_lock: bool, state: DispatchState, event: DispatchEvent)
    -> Option<(DispatchState, DispatchAction)> {
    match (state, event) {
        (DispatchState::Idle, DispatchEvent::Start) => if wake_lock {
            Some((DispatchState::Acquiring, DispatchAction::AcquireLock))
        } else {
            Some((DispatchState::Running { held: false }, DispatchAction::RunCommand))
        },
        (DispatchState::Acquiring, DispatchEvent::LockWritten(ok)) => Some(
            (DispatchState::Running { held: ok }, DispatchAction::RunCommand),
        ),
        (DispatchState::Running { held }, DispatchEvent::Exited(exit)) => if held {
            Some(
                (DispatchState::Releasing { outcome: outcome_of(exit) }, DispatchAction::ReleaseLock),
            )
        } else {
            Some((DispatchState::Finished, DispatchAction::Finish(outcome_of(exit))))
        },
        (DispatchState::Releasing { outcome }, DispatchEvent::UnlockWritten(_)) => Some(
            (DispatchState::Finished, DispatchAction::Finish(outcome)),
        ),
        _ => None,
    }
}

/// The actions that a sequence of events draws from a state, up to the
/// first event that does not fit.
pub open spec fn actions_of(wake_lock: bool, state: DispatchState, events: Seq<DispatchEvent>)
    -> Seq<DispatchAction>
    decreases events.len(),
{
    if events.len() == 0 {
        Seq::empty()
    } else {
        match dispatch_next(wake_lock, state, events[0]) {
            Some((next, action)) => seq![action] + actions_of(
                wake_lock,
                next,
                events.drop_first(),
            ),
            None => Seq::empty(),
        }
    }
}

/// The prefix that keeps this daemon's wake locks apart from all others.
pub open spec fn lock_prefix() -> Seq<char> {
    "micetimer:"@
}

/// The name of a timer's wake lock: the prefix, then the timer's name.
pub fn lock_name(name: &str) -> (r: String)
    ensures
        r@ == lock_prefix() + name@,
{
    String::from_str("micetimer:").concat(name)
}

/// Records how a command ended.
pub fn classify(exit: Exit) -> (r: Outcome)
    ensures
        r == outcome_of(exit),
{
    match exit {
        Exit::LaunchFailed => Outcome::LaunchError,
        Exit::Code(c) => if c == 0 {
            Outcome::Success
        } else {
            Outcome::Failed(Some(c))
        },
        Exit::Killed => Outcome::Failed(None),
    }
}

/// Takes one event of a run: the state and the action that follow, or
/// `None` where the event does not fit the state.
pub fn dispatch_step(wake_lock: bool, state: DispatchState, event: DispatchEvent) -> (r: Option<
    (DispatchState, DispatchAction),
>)
    ensures
        r == dispatch_next(wake_lock, state, event),
{
    match state {
        DispatchState::Idle => match event {
            DispatchEvent::Start => if wake_lock {
                Some((DispatchState::Acquiring, DispatchAction::AcquireLock))
            } else {
                Some((DispatchState::Running { held: false }, DispatchAction::RunCommand))
            },
            _ => None,
        },
        DispatchState::Acquiring => match event {
            DispatchEvent::LockWritten(ok) => Some(
                (DispatchState::Running { held: ok }, DispatchAction::RunCommand),
            ),
            _ => None,
        },
        DispatchState::Running { held } => match event {
            DispatchEvent::Exited(exit) => {
                let outcome = classify(exit);
                if held {
                    Some((DispatchState::Releasing { outcome }, DispatchAction::ReleaseLock))
                } else {
                    Some((DispatchState::Finished, DispatchAction::Finish(outcome)))
                }
            },
            _ => None,
        },
        DispatchState::Releasing { outcome } => match event {
            DispatchEvent::UnlockWritten(_) => Some(
                (DispatchState::Finished, DispatchAction::Finish(outcome)),
            ),
            _ => None,
        },
        DispatchState::Finished => None,
    }
}

/// With a wake lock asked for and taken, the lock is taken before the
/// command starts and given back after it ends, however the command ended
/// and whatever came of giving the lock back.
pub proof fn lemma_lock_brackets_command(exit: Exit, unlocked: bool)
    ensures
        actions_of(
            true,
            DispatchState::Idle,
            seq![
                DispatchEvent::Start,
                DispatchEvent::LockWritten(true),
                DispatchEvent::Exited(exit),
                DispatchEvent::UnlockWritten(unlocked),
            ],
        ) == seq![
            DispatchAction::AcquireLock,
            DispatchAction::RunCommand,
            DispatchAction::ReleaseLock,
            DispatchAction::Finish(outcome_of(exit)),
        ],
{
    let e3 = seq![DispatchEvent::UnlockWritten(unlocked)];
    let e2 = seq![DispatchEvent::Exited(exit), DispatchEvent::UnlockWritten(unlocked)];
    let e1 = seq![
        DispatchEvent::LockWritten(true),
        DispatchEvent::Exited(exit),
        DispatchEvent::UnlockWritten(unlocked),
    ];
    let e0 = seq![
        DispatchEvent::Start,
        DispatchEvent::LockWritten(true),
        DispatchEvent::Exited(exit),
        DispatchEvent::UnlockWritten(unlocked),
    ];
    let outcome = outcome_of(exit);
    assert(e3.drop_first() =~= Seq::<DispatchEvent>::empty());
    assert(e2.drop_first() =~= e3);
    assert(e1.drop_first() =~= e2);
    assert(e0.drop_first() =~= e1);
    assert(actions_of(true, DispatchState::Finished, e3.drop_first()) =~= Seq::empty());
    assert(actions_of(true, DispatchState::Releasing { outcome }, e3) =~= seq![
        DispatchAction::Finish(outcome),
    ]);
    assert(actions_of(true, DispatchState::Running { held: true }, e2) =~= seq![
        DispatchAction::ReleaseLock,
        DispatchAction::Finish(outcome),
    ]);
    assert(actions_of(true, DispatchState::Acquiring, e1) =~= seq![
        DispatchAction::RunCommand,
        DispatchAction::ReleaseLock,
        DispatchAction::Finish(outcome),
    ]);
    assert(actions_of(true, DispatchState::Idle, e0) =~= seq![
        DispatchAction::AcquireLock,
        DispatchAction::RunCommand,
        DispatchAction::ReleaseLock,
        DispatchAction::Finish(outcome),
    ]);
}

/// Where the lock could not be taken, or none was asked for, the command
/// still runs and nothing is given back.
pub proof fn lemma_command_runs_without_lock(wake_lock: bool, exit: Exit)
    ensures
        dispatch_next(wake_lock, DispatchState::Acquiring, DispatchEvent::LockWritten(false))
            == Some((DispatchState::Running { held: false }, DispatchAction::RunCommand)),
        dispatch_next(false, DispatchState::Idle, DispatchEvent::Start) == Some(
            (DispatchState::Running { held: false }, DispatchAction::RunCommand),
        ),
        dispatch_next(wake_lock, DispatchState::Running { held: false }, DispatchEvent::Exited(exit))
            == Some((DispatchState::Finished, DispatchAction::Finish(outcome_of(exit)))),
{
}

/// Timers of different names have wake locks of different names.
pub proof fn lemma_lock_names_apart(a: Seq<char>, b: Seq<char>)
    requires
        lock_prefix() + a == lock_prefix() + b,
    ensures
        a == b,
{
    let n = lock_prefix().len() as int;
    assert(a =~= (lock_prefix() + a).subrange(n, n + a.len()));
    assert(b =~= (lock_prefix() + b).subrange(n, n + b.len()));
    assert((lock_prefix() + a).len() == n + a.len());
    assert((lock_prefix() + b).len() == n + b.len());
}

} // verus!
