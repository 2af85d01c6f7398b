//! The engine's timer, as far as the frame logic relies on it.
//!
//! Nothing in this module is proved: every contract here is a claim about
//! `bevy::time::Timer`, and the rest of the crate is verified against these
//! claims. Times cross this boundary as whole nanoseconds in 64 bits.

use bevy::time::{Timer, TimerMode};
use std::time::Duration;
use vstd::prelude::*;

verus! {

/// `bevy::time::Timer`, taken as it is: the crate carries timers around and
/// hands them to the functions below, and never looks inside one.
#[verifier::external_type_specification]
#[verifier::external_body]
pub struct ExTimer(bevy::time::Timer);

/// What a timer holds.
pub struct TimerState {
    /// The time on the timer, in nanoseconds: `Timer::elapsed`.
    pub elapsed: nat,
    /// The time after which the timer finishes, in nanoseconds:
    /// `Timer::duration`.
    pub period: nat,
    /// Whether the timer starts over when it finishes: `Timer::mode`.
    pub repeating: bool,
    /// Whether the timer reached its period in the last tick, or, if it is
    /// one-shot, in any tick: `Timer::finished`.
    pub finished: bool,
    /// How often the timer finished during the last tick:
    /// `Timer::times_finished_this_tick`.
    pub fired: nat,
    /// Whether the timer is halted: `Timer::paused`.
    pub paused: bool,
}

/// What an engine timer holds: the values that its getters return.
pub uninterp spec fn timer_state(timer: Timer) -> TimerState;

/// The timers that `timer_tick` speaks of: running, with times that fit 64
/// bits, and with a period of more than nothing if repeating.
pub open spec fn in_range(s: TimerState) -> bool {
    &&& s.elapsed <= u64::MAX
    &&& s.period <= u64::MAX
    &&& s.repeating ==> s.period > 0
    &&& !s.paused
}

/// The state that a running timer in state `s` has after a tick of `delta`
/// nanoseconds. A one-shot timer that has finished stays as it is, but for
/// the count of the last tick; one that reaches its period stops there. A
/// repeating timer wraps around its period, and counts the wraps in 32 bits.
pub open spec fn ticked(s: TimerState, delta: nat) -> TimerState {
    let total = s.elapsed + delta;
    if !s.repeating && s.finished {
        TimerState { fired: 0, ..s }
    } else if total < s.period {
        TimerState { elapsed: total, finished: false, fired: 0, ..s }
    } else if !s.repeating {
        TimerState { elapsed: s.period, finished: true, fired: 1, ..s }
    } else {
        TimerState {
            elapsed: total % s.period,
            finished: true,
            fired: (total / s.period) % 0x1_0000_0000,
            ..s
        }
    }
}

/// `Timer::new`: a running timer of the given period and mode, with nothing
/// elapsed and not finished.
#[verifier::external_body]
pub(crate) fn timer_new(period_nanos: u64, repeating: bool) -> (timer: Timer)
    ensures
        timer_state(timer) == (TimerState {
            elapsed: 0,
            period: period_nanos as nat,
            repeating,
            finished: false,
            fired: 0,
            paused: false,
        }),
{
    let mode = if repeating { TimerMode::Repeating } else { TimerMode::Once };
    Timer::new(Duration::from_nanos(period_nanos), mode)
}

/// `Timer::tick`: advances a running timer by `delta_nanos`, as `ticked` says.
/// On the timers of `in_range` the time on the timer cannot overflow, so the
/// call returns.
#[verifier::external_body]
pub(crate) fn timer_tick(timer: &mut Timer, delta_nanos: u64)
    requires
        in_range(timer_state(*old(timer))),
    ensures
        timer_state(*final(timer)) == ticked(timer_state(*old(timer)), delta_nanos as nat),
    no_unwind
{
    timer.tick(Duration::from_nanos(delta_nanos));
}

/// `Timer::just_finished`: whether the timer finished during the last tick.
#[verifier::external_body]
pub(crate) fn timer_just_finished(timer: &Timer) -> (b: bool)
    ensures
        b == (timer_state(*timer).fired > 0),
{
    timer.just_finished()
}

/// `Clone::clone` of a timer: a timer in the same state.
#[verifier::external_body]
pub(crate) fn timer_clone(timer: &Timer) -> (copy: Timer)
    ensures
        timer_state(copy) == timer_state(*timer),
{
    timer.clone()
}

} // verus!
