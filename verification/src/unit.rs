//! The timer unit: what one definition asks for.

use crate::span::Span;
use vstd::prelude::*;

verus! {

/// One timer as its definition states it. It does not change once read.
#[derive(Clone, Debug, PartialEq, Eq)]
pub struct TimerUnit {
    /// Free text about the timer.
    pub description: Option<String>,
    /// The shell command to run.
    pub command: String,
    /// Delay before the first run.
    pub on_boot_sec: Option<Span>,
    /// Delay between the end of one run and the next.
    pub on_unit_active_sec: Option<Span>,
    /// Whether a wake lock is held while the command runs.
    pub wake_lock: bool,
}

/// A timer unit as plain values: texts as character sequences, spans in
/// nanoseconds.
pub struct UnitModel {
    pub description: Option<Seq<char>>,
    pub command: Seq<char>,
    pub on_boot_sec: Option<nat>,
    pub on_unit_active_sec: Option<nat>,
    pub wake_lock: bool,
}

/// The length of an optional span, in nanoseconds.
pub open spec fn span_model(s: Option<Span>) -> Option<nat> {
    match s {
        Some(d) => Some(d@),
        None => None,
    }
}

/// The characters of an optional text.
pub open spec fn text_model(s: Option<String>) -> Option<Seq<char>> {
    match s {
        Some(t) => Some(t@),
        None => None,
    }
}

impl View for TimerUnit {
    type V = UnitModel;

    open spec fn view(&self) -> UnitModel {
        UnitModel {
            description: text_model(self.description),
            command: self.command@,
            on_boot_sec: span_model(self.on_boot_sec),
            on_unit_active_sec: span_model(self.on_unit_active_sec),
            wake_lock: self.wake_lock,
        }
    }
}

/// Nanoseconds of the grace period that arms a timer without a boot delay.
pub open spec fn grace_nanos() -> nat {
    1_000_000_000
}

/// The delay of the first arming: the boot delay, or one second.
pub open spec fn initial_delay_of(u: UnitModel) -> nat {
    match u.on_boot_sec {
        Some(d) => d,
        None => grace_nanos(),
    }
}

/// The delay of the arming that follows a run, if there is to be one: the
/// interval where it is set and longer than nothing.
pub open spec fn rearm_of(u: UnitModel) -> Option<nat> {
    match u.on_unit_active_sec {
        Some(d) => if d > 0 { Some(d) } else { None },
        None => None,
    }
}

/// Whether a wake lock is held when a definition does not say.
pub fn default_wakelock() -> (r: bool)
    ensures
        r,
{
    true
}

impl TimerUnit {
    /// A unit is well formed when it has a command to run.
    pub open spec fn wf(&self) -> bool {
        self.command@.len() > 0
    }

    /// How long after start the timer first fires.
    pub fn initial_delay(&self) -> (r: Span)
        ensures
            r@ == initial_delay_of(self@),
    {
        match self.on_boot_sec {
            Some(d) => d,
            None => Span::from_secs(1),
        }
    }

    /// The span of the arming that follows a run: the interval, where it
    /// is set and longer than nothing.
    pub open spec fn rearm_span(&self) -> Option<Span> {
        match self.on_unit_active_sec {
            Some(d) => if d@ > 0 { Some(d) } else { None },
            None => None,
        }
    }

    /// How long after a run the timer fires again; `None` where it fires
    /// once only.
    pub fn rearm_interval(&self) -> (r: Option<Span>)
        ensures
            r == self.rearm_span(),
            span_model(r) == rearm_of(self@),
    {
        match self.on_unit_active_sec {
            Some(d) => if d.is_positive() { Some(d) } else { None },
            None => None,
        }
    }
}

} // verus!
