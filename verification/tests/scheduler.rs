use micetimer::definition::parse_unit;
use micetimer::dispatch::Outcome;
use micetimer::scheduler::{
    wait_failure, LoopAction, LoopEvent, LoopPhase, Registry, RuntimeTimer, Scheduler, WAIT_BATCH,
};
use micetimer::span::Span;
use micetimer::unit::TimerUnit;

fn unit(boot: Option<u64>, interval: Option<u64>) -> TimerUnit {
    TimerUnit {
        description: None,
        command: "true".to_string(),
        on_boot_sec: boot.map(Span::from_secs),
        on_unit_active_sec: interval.map(Span::from_secs),
        wake_lock: true,
    }
}

fn timer(fd: i32, name: &str, unit: TimerUnit) -> RuntimeTimer {
    RuntimeTimer { name: name.to_string(), unit, descriptor: fd }
}

fn scheduler() -> Scheduler {
    let mut registry = Registry::new();
    registry.register(timer(5, "once", unit(Some(2), None)));
    registry.register(timer(6, "again", unit(None, Some(5))));
    registry.register(timer(7, "zero", unit(None, Some(0))));
    Scheduler::new(registry)
}

#[test]
fn the_wait_asks_for_sixteen_events() {
    assert_eq!(WAIT_BATCH, 16);
}

#[test]
fn the_first_arming_is_the_boot_delay_or_one_second() {
    assert_eq!(unit(Some(2), None).initial_delay(), Span::from_secs(2));
    assert_eq!(unit(None, Some(9)).initial_delay(), Span::from_secs(1));
    assert_eq!(unit(Some(0), None).initial_delay(), Span::from_secs(0));
    let parsed = parse_unit("Exec = \"x\"\nOnBootSec = \"2s\"\n").unwrap();
    assert_eq!(parsed.initial_delay(), Span::from_secs(2));
    assert_eq!(parsed.rearm_interval(), None);
}

#[test]
fn only_a_positive_interval_arms_again() {
    assert_eq!(unit(None, Some(5)).rearm_interval(), Some(Span::from_secs(5)));
    assert_eq!(unit(None, Some(0)).rearm_interval(), None);
    assert_eq!(unit(Some(3), None).rearm_interval(), None);
    let tiny = TimerUnit { on_unit_active_sec: Span::new(0, 1), ..unit(None, None) };
    assert_eq!(tiny.rearm_interval(), Span::new(0, 1));
}

#[test]
fn the_registry_finds_timers_by_descriptor() {
    let mut registry = Registry::new();
    assert_eq!(registry.len(), 0);
    assert!(registry.lookup(5).is_none());
    registry.register(timer(5, "a", unit(None, None)));
    registry.register(timer(9, "b", unit(None, None)));
    assert_eq!(registry.len(), 2);
    assert!(registry.contains(5));
    assert!(!registry.contains(6));
    assert_eq!(registry.lookup(9).unwrap().name, "b");
    registry.register(timer(5, "c", unit(None, None)));
    assert_eq!(registry.len(), 2);
    assert_eq!(registry.lookup(5).unwrap().name, "c");
}

#[test]
fn a_timer_without_interval_fires_once() {
    let mut s = scheduler();
    assert_eq!(s.phase(), LoopPhase::Waiting);
    assert_eq!(s.step(LoopEvent::Ready(vec![5])), Some(LoopAction::Drain(5)));
    assert_eq!(s.phase(), LoopPhase::Draining(5));
    assert_eq!(s.step(LoopEvent::Drained(1)), Some(LoopAction::Dispatch(5)));
    assert_eq!(s.phase(), LoopPhase::Dispatching(5));
    assert_eq!(s.step(LoopEvent::Completed(Outcome::Success)), Some(LoopAction::Wait));
    assert_eq!(s.phase(), LoopPhase::Waiting);
}

#[test]
fn a_timer_with_interval_is_armed_again_after_its_run() {
    let mut s = scheduler();
    assert_eq!(s.step(LoopEvent::Ready(vec![6])), Some(LoopAction::Drain(6)));
    assert_eq!(s.step(LoopEvent::Drained(1)), Some(LoopAction::Dispatch(6)));
    assert_eq!(
        s.step(LoopEvent::Completed(Outcome::Success)),
        Some(LoopAction::Arm(6, Span::from_secs(5)))
    );
    assert_eq!(s.phase(), LoopPhase::Rearming(6));
    assert_eq!(s.step(LoopEvent::Armed(true)), Some(LoopAction::Wait));
    assert_eq!(s.step(LoopEvent::Ready(vec![6])), Some(LoopAction::Drain(6)));
}

#[test]
fn a_zero_interval_does_not_arm_again() {
    let mut s = scheduler();
    assert_eq!(s.step(LoopEvent::Ready(vec![7])), Some(LoopAction::Drain(7)));
    assert_eq!(s.step(LoopEvent::Drained(1)), Some(LoopAction::Dispatch(7)));
    assert_eq!(s.step(LoopEvent::Completed(Outcome::Success)), Some(LoopAction::Wait));
}

#[test]
fn a_failed_command_is_armed_again_all_the_same() {
    for outcome in [Outcome::Failed(Some(1)), Outcome::Failed(None), Outcome::LaunchError] {
        let mut s = scheduler();
        assert_eq!(s.step(LoopEvent::Ready(vec![6])), Some(LoopAction::Drain(6)));
        assert_eq!(s.step(LoopEvent::Drained(1)), Some(LoopAction::Dispatch(6)));
        assert_eq!(
            s.step(LoopEvent::Completed(outcome)),
            Some(LoopAction::Arm(6, Span::from_secs(5)))
        );
    }
}

#[test]
fn coalesced_expirations_give_one_dispatch() {
    let mut s = scheduler();
    assert_eq!(s.step(LoopEvent::Ready(vec![6])), Some(LoopAction::Drain(6)));
    assert_eq!(s.step(LoopEvent::Drained(2)), Some(LoopAction::Dispatch(6)));
    assert_eq!(
        s.step(LoopEvent::Completed(Outcome::Success)),
        Some(LoopAction::Arm(6, Span::from_secs(5)))
    );
    assert_eq!(s.step(LoopEvent::Armed(true)), Some(LoopAction::Wait));
    assert_eq!(s.phase(), LoopPhase::Waiting);
}

#[test]
fn a_failed_arming_leaves_the_loop_running() {
    let mut s = scheduler();
    assert_eq!(s.step(LoopEvent::Ready(vec![6, 5])), Some(LoopAction::Drain(6)));
    assert_eq!(s.step(LoopEvent::Drained(1)), Some(LoopAction::Dispatch(6)));
    assert_eq!(
        s.step(LoopEvent::Completed(Outcome::Success)),
        Some(LoopAction::Arm(6, Span::from_secs(5)))
    );
    assert_eq!(s.step(LoopEvent::Armed(false)), Some(LoopAction::Drain(5)));
}

#[test]
fn a_batch_is_served_in_order_and_foreign_descriptors_are_passed_over() {
    let mut s = scheduler();
    assert_eq!(s.step(LoopEvent::Ready(vec![99, 7, 42, 5, 13])), Some(LoopAction::Drain(7)));
    assert_eq!(s.step(LoopEvent::Drained(1)), Some(LoopAction::Dispatch(7)));
    assert_eq!(s.step(LoopEvent::Completed(Outcome::Success)), Some(LoopAction::Drain(5)));
    assert_eq!(s.step(LoopEvent::Drained(3)), Some(LoopAction::Dispatch(5)));
    assert_eq!(s.step(LoopEvent::Completed(Outcome::LaunchError)), Some(LoopAction::Wait));
    assert_eq!(s.phase(), LoopPhase::Waiting);
}

#[test]
fn a_batch_of_foreign_descriptors_goes_back_to_waiting() {
    let mut s = scheduler();
    assert_eq!(s.step(LoopEvent::Ready(vec![1, 2, 3])), Some(LoopAction::Wait));
    assert_eq!(s.step(LoopEvent::Ready(vec![])), Some(LoopAction::Wait));
    assert_eq!(s.phase(), LoopPhase::Waiting);
}

#[test]
fn an_interrupted_wait_is_tried_again() {
    let interrupt: i32 = nix::errno::Errno::EINTR as i32;
    assert_eq!(wait_failure(interrupt), LoopEvent::Interrupted);
    let mut s = scheduler();
    assert_eq!(s.step(wait_failure(interrupt)), Some(LoopAction::Wait));
    assert_eq!(s.phase(), LoopPhase::Waiting);
}

#[test]
fn another_failure_of_the_wait_ends_the_loop() {
    let bad: i32 = nix::errno::Errno::EBADF as i32;
    assert_eq!(wait_failure(bad), LoopEvent::WaitFailed(bad));
    let mut s = scheduler();
    assert_eq!(s.step(wait_failure(bad)), Some(LoopAction::Stop(bad)));
    assert_eq!(s.phase(), LoopPhase::Halted(bad));
    assert_eq!(s.step(LoopEvent::Ready(vec![5])), None);
    assert_eq!(s.phase(), LoopPhase::Halted(bad));
}

#[test]
fn an_event_out_of_turn_changes_nothing() {
    let mut s = scheduler();
    assert_eq!(s.step(LoopEvent::Drained(1)), None);
    assert_eq!(s.step(LoopEvent::Armed(true)), None);
    assert_eq!(s.phase(), LoopPhase::Waiting);
    assert_eq!(s.step(LoopEvent::Ready(vec![5, 6])), Some(LoopAction::Drain(5)));
    assert_eq!(s.step(LoopEvent::Ready(vec![7])), None);
    assert_eq!(s.step(LoopEvent::Completed(Outcome::Success)), None);
    assert_eq!(s.phase(), LoopPhase::Draining(5));
    assert_eq!(s.step(LoopEvent::Drained(1)), Some(LoopAction::Dispatch(5)));
    assert_eq!(s.step(LoopEvent::Completed(Outcome::Success)), Some(LoopAction::Drain(6)));
    assert_eq!(s.timer(6).unwrap().name, "again");
    assert!(s.timer(8).is_none());
}
