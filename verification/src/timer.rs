//! The engine's countdown timer, as the simulation uses it.
//!
//! The timer itself is `bevy::time::Timer`. Nothing here is proved about it:
//! the functions below state what its source shows, for a timer that is never
//! paused, and the rest of the library is verified against those statements.

use bevy::time::Timer;
use bevy::time::TimerMode;
use std::time::Duration;
use vstd::prelude::*;

verus! {

/// `bevy::time::Timer`, taken as it is: what it holds shows only through
/// [`timer_state`].
#[verifier::external_type_specification]
#[verifier::external_body]
pub struct ExTimer(Timer);

/// `bevy::time::TimerMode`, with its two variants `Once` and `Repeating`.
#[verifier::external_type_specification]
pub struct ExTimerMode(TimerMode);

/// What a timer holds, with times in nanoseconds.
pub struct TimerState {
    /// Time counted so far.
    pub elapsed: nat,
    /// Time after which the timer finishes.
    pub duration: nat,
    /// Whether the timer starts over when it finishes.
    pub repeating: bool,
    /// Whether ticks are ignored.
    pub paused: bool,
    /// Whether the duration has been reached.
    pub finished: bool,
    /// How many times the duration was reached during the latest tick.
    pub times_finished: nat,
}

/// The state held by a `bevy::time::Timer`.
pub uninterp spec fn timer_state(timer: Timer) -> TimerState;

/// A state that [`ticked`] describes: a running timer with a positive
/// duration that a `u64` of nanoseconds can hold, and no more time counted
/// than that.
pub open spec fn tickable(state: TimerState) -> bool {
    &&& !state.paused
    &&& 0 < state.duration <= u64::MAX
    &&& state.elapsed <= state.duration
}

/// The state of a running timer after `delta` more nanoseconds.
///
/// A one-shot timer that has finished stays as it is. Otherwise the time is
/// added; a one-shot timer that reaches its duration stops there, and a
/// repeating one keeps the remainder and counts the periods that went by, in
/// 32 bits.
pub open spec fn ticked(state: TimerState, delta: nat) -> TimerState {
    let total = state.elapsed + delta;
    if !state.repeating && state.finished {
        TimerState { times_finished: 0, ..state }
    } else if total < state.duration {
        TimerState { elapsed: total, finished: false, times_finished: 0, ..state }
    } else if state.repeating {
        TimerState {
            elapsed: total % state.duration,
            finished: true,
            times_finished: (total / state.duration) % 0x1_0000_0000,
            ..state
        }
    } else {
        TimerState { elapsed: state.duration, finished: true, times_finished: 1, ..state }
    }
}

/// Calls `Timer::new` with a duration of `duration` nanoseconds. The new
/// timer has counted nothing, runs, and has not finished.
#[verifier::external_body]
pub(crate) fn timer_new(duration: u64, mode: TimerMode) -> (timer: Timer)
    ensures
        timer_state(timer) == (TimerState {
            elapsed: 0,
            duration: duration as nat,
            repeating: mode == TimerMode::Repeating,
            paused: false,
            finished: false,
            times_finished: 0,
        }),
{
    Timer::new(Duration::from_nanos(duration), mode)
}

/// Calls `Timer::tick` with `delta` nanoseconds. The timer's state moves as
/// [`ticked`] says.
#[verifier::external_body]
pub(crate) fn timer_tick(timer: &mut Timer, delta: u64)
    requires
        tickable(timer_state(*old(timer))),
    ensures
        timer_state(*final(timer)) == ticked(timer_state(*old(timer)), delta as nat),
{
    timer.tick(Duration::from_nanos(delta));
}

/// Calls `Timer::paused`: whether ticks are ignored.
#[verifier::external_body]
pub(crate) fn timer_paused(timer: &Timer) -> (paused: bool)
    ensures
        paused == timer_state(*timer).paused,
{
    timer.paused()
}

/// Calls `Timer::mode`: whether the timer starts over when it finishes.
#[verifier::external_body]
pub(crate) fn timer_mode(timer: &Timer) -> (mode: TimerMode)
    ensures
        (mode == TimerMode::Repeating) == timer_state(*timer).repeating,
{
    timer.mode()
}

/// Tells whether a timer is one that [`ticked`] describes.
pub fn is_tickable(timer: &Timer) -> (tickable: bool)
    ensures
        tickable == self::tickable(timer_state(*timer)),
{
    let duration = timer_duration(timer);
    !timer_paused(timer) && 0 < duration && duration <= u64::MAX as u128 && timer_elapsed(timer)
        <= duration
}

/// Tells whether a timer starts over when it finishes.
pub fn is_repeating(timer: &Timer) -> (repeating: bool)
    ensures
        repeating == timer_state(*timer).repeating,
{
    match timer_mode(timer) {
        TimerMode::Repeating => true,
        TimerMode::Once => false,
    }
}

/// Calls `Timer::finished`: whether the duration has been reached.
#[verifier::external_body]
pub(crate) fn timer_finished(timer: &Timer) -> (finished: bool)
    ensures
        finished == timer_state(*timer).finished,
{
    timer.finished()
}

/// Calls `Timer::just_finished`: whether the duration was reached during the
/// latest tick.
#[verifier::external_body]
pub(crate) fn timer_just_finished(timer: &Timer) -> (just_finished: bool)
    ensures
        just_finished == (timer_state(*timer).times_finished > 0),
{
    timer.just_finished()
}

/// Calls `Timer::elapsed` and gives the time counted so far in nanoseconds.
#[verifier::external_body]
pub(crate) fn timer_elapsed(timer: &Timer) -> (elapsed: u128)
    ensures
        elapsed == timer_state(*timer).elapsed,
{
    timer.elapsed().as_nanos()
}

/// Calls `Timer::duration` and gives the timer's duration in nanoseconds.
#[verifier::external_body]
pub(crate) fn timer_duration(timer: &Timer) -> (duration: u128)
    ensures
        duration == timer_state(*timer).duration,
{
    timer.duration().as_nanos()
}

/// Ticking keeps a tickable timer tickable.
pub proof fn lemma_ticked_tickable(state: TimerState, delta: nat)
    requires
        tickable(state),
    ensures
        tickable(ticked(state, delta)),
        ticked(state, delta).duration == state.duration,
        ticked(state, delta).repeating == state.repeating,
{
    let total = state.elapsed + delta;
    if state.repeating && total >= state.duration {
        assert(total % state.duration < state.duration) by (nonlinear_arith)
            requires
                state.duration > 0,
                total >= 0,
        ;
    }
}

/// A one-shot timer that has not reached its duration counts two ticks as
/// one tick of their sum.
pub proof fn lemma_ticks_add_up(state: TimerState, first: nat, second: nat)
    requires
        tickable(state),
        !state.repeating,
        !state.finished,
        state.elapsed + first < state.duration,
    ensures
        ticked(ticked(state, first), second) == ticked(state, first + second),
{
}

/// A one-shot timer that has finished stays finished, whatever time passes.
pub proof fn lemma_finished_for_good(state: TimerState, delta: nat)
    requires
        tickable(state),
        !state.repeating,
        state.finished,
    ensures
        ticked(state, delta).finished,
        ticked(state, delta).elapsed == state.elapsed,
{
}

} // verus!
