use micetimer::dispatch::{
    classify, dispatch_step, lock_name, DispatchAction, DispatchEvent, DispatchState, Exit,
    Outcome,
};

fn run(wake_lock: bool, events: &[DispatchEvent]) -> Vec<DispatchAction> {
    let mut state = DispatchState::Idle;
    let mut actions = Vec::new();
    for event in events {
        match dispatch_step(wake_lock, state, *event) {
            Some((next, action)) => {
                state = next;
                actions.push(action);
            }
            None => break,
        }
    }
    actions
}

#[test]
fn the_lock_is_named_after_the_timer() {
    assert_eq!(lock_name("backup"), "micetimer:backup");
    assert_eq!(lock_name(""), "micetimer:");
    assert_ne!(lock_name("a"), lock_name("b"));
}

#[test]
fn exits_are_classified() {
    assert_eq!(classify(Exit::Code(0)), Outcome::Success);
    assert_eq!(classify(Exit::Code(3)), Outcome::Failed(Some(3)));
    assert_eq!(classify(Exit::Code(-1)), Outcome::Failed(Some(-1)));
    assert_eq!(classify(Exit::Killed), Outcome::Failed(None));
    assert_eq!(classify(Exit::LaunchFailed), Outcome::LaunchError);
}

#[test]
fn the_lock_brackets_a_successful_command() {
    let actions = run(
        true,
        &[
            DispatchEvent::Start,
            DispatchEvent::LockWritten(true),
            DispatchEvent::Exited(Exit::Code(0)),
            DispatchEvent::UnlockWritten(true),
        ],
    );
    assert_eq!(
        actions,
        vec![
            DispatchAction::AcquireLock,
            DispatchAction::RunCommand,
            DispatchAction::ReleaseLock,
            DispatchAction::Finish(Outcome::Success),
        ]
    );
}

#[test]
fn the_lock_brackets_a_failing_command() {
    for exit in [Exit::Code(1), Exit::Killed, Exit::LaunchFailed] {
        let actions = run(
            true,
            &[
                DispatchEvent::Start,
                DispatchEvent::LockWritten(true),
                DispatchEvent::Exited(exit),
                DispatchEvent::UnlockWritten(false),
            ],
        );
        assert_eq!(
            actions,
            vec![
                DispatchAction::AcquireLock,
                DispatchAction::RunCommand,
                DispatchAction::ReleaseLock,
                DispatchAction::Finish(classify(exit)),
            ]
        );
    }
}

#[test]
fn a_lock_that_was_not_taken_is_not_given_back() {
    let actions = run(
        true,
        &[
            DispatchEvent::Start,
            DispatchEvent::LockWritten(false),
            DispatchEvent::Exited(Exit::Code(2)),
        ],
    );
    assert_eq!(
        actions,
        vec![
            DispatchAction::AcquireLock,
            DispatchAction::RunCommand,
            DispatchAction::Finish(Outcome::Failed(Some(2))),
        ]
    );
}

#[test]
fn without_a_wake_lock_the_command_runs_at_once() {
    let actions = run(false, &[DispatchEvent::Start, DispatchEvent::Exited(Exit::Code(0))]);
    assert_eq!(
        actions,
        vec![DispatchAction::RunCommand, DispatchAction::Finish(Outcome::Success)]
    );
}

#[test]
fn an_event_that_does_not_fit_is_refused() {
    assert_eq!(dispatch_step(true, DispatchState::Idle, DispatchEvent::LockWritten(true)), None);
    assert_eq!(
        dispatch_step(true, DispatchState::Acquiring, DispatchEvent::Exited(Exit::Code(0))),
        None
    );
    assert_eq!(
        dispatch_step(true, DispatchState::Running { held: true }, DispatchEvent::Start),
        None
    );
    assert_eq!(dispatch_step(true, DispatchState::Finished, DispatchEvent::Start), None);
    assert_eq!(
        dispatch_step(
            false,
            DispatchState::Releasing { outcome: Outcome::Success },
            DispatchEvent::LockWritten(true)
        ),
        None
    );
}
