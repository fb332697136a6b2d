//! Countdown timers, kept by the engine's own `Timer`.

use vstd::prelude::*;
use bevy::prelude::Timer;
use std::time::Duration;

verus! {

/// An engine timer. Its fields are private to the engine: what the core
/// knows of one is its [`timer_state`].
#[verifier::external_type_specification]
#[verifier::external_body]
pub struct ExTimer(Timer);

/// What an engine timer holds. Times are in nanoseconds.
pub struct TimerState {
    /// The time after which the timer finishes.
    pub duration: nat,
    /// The time counted so far.
    pub elapsed: nat,
    /// Whether the duration has been reached.
    pub finished: bool,
    /// Whether the duration was reached by the latest tick.
    pub just_finished: bool,
    /// Whether ticks are ignored.
    pub paused: bool,
    /// Whether the timer starts over when it finishes.
    pub repeating: bool,
}

impl TimerState {
    /// A timer that counts once and is not paused.
    pub open spec fn counts_once(self) -> bool {
        !self.paused && !self.repeating
    }

    /// The state after a tick of `delta` nanoseconds, for a timer that
    /// counts once: a finished timer only forgets that it has just
    /// finished; another adds `delta` and finishes, with its elapsed time
    /// set to the duration, once that is reached.
    pub open spec fn ticked(self, delta: nat) -> TimerState {
        if self.finished {
            TimerState { just_finished: false, ..self }
        } else if self.elapsed + delta >= self.duration {
            TimerState { elapsed: self.duration, finished: true, just_finished: true, ..self }
        } else {
            TimerState { elapsed: self.elapsed + delta, just_finished: false, ..self }
        }
    }
}

/// The state of an engine timer: its duration, elapsed time, finished
/// marks, pause mark and mode, as `Timer::duration`, `Timer::elapsed`,
/// `Timer::finished`, `Timer::just_finished`, `Timer::paused` and
/// `Timer::repeating` report them.
pub uninterp spec fn timer_state(timer: Timer) -> TimerState;

/// Nanoseconds in a second.
pub const NANOS_PER_SECOND: u64 = 1_000_000_000;

/// `Timer::new`, on a duration of whole seconds: a timer of that duration
/// and mode with nothing elapsed, neither finished nor paused.
#[verifier::external_body]
pub(crate) fn timer_new(seconds: u32, repeating: bool) -> (timer: Timer)
    ensures
        timer_state(timer) == (TimerState {
            duration: (seconds as nat) * (NANOS_PER_SECOND as nat),
            elapsed: 0,
            finished: false,
            just_finished: false,
            paused: false,
            repeating,
        }),
{
    Timer::new(Duration::from_secs(u64::from(seconds)), repeating)
}

/// `Timer::tick`, on a timer that counts once: the state moves as
/// [`TimerState::ticked`] says. The elapsed time is bounded so that the
/// engine's addition of durations cannot overflow.
#[verifier::external_body]
pub(crate) fn timer_tick(timer: &mut Timer, delta_nanos: u64)
    requires
        timer_state(*old(timer)).counts_once(),
        timer_state(*old(timer)).elapsed <= u64::MAX,
    ensures
        timer_state(*final(timer)) == timer_state(*old(timer)).ticked(delta_nanos as nat),
    no_unwind
{
    timer.tick(Duration::from_nanos(delta_nanos));
}

/// `Timer::finished`.
#[verifier::external_body]
pub(crate) fn timer_finished(timer: &Timer) -> (finished: bool)
    ensures
        finished == timer_state(*timer).finished,
{
    timer.finished()
}

/// `Timer::just_finished`.
#[verifier::external_body]
pub(crate) fn timer_just_finished(timer: &Timer) -> (just_finished: bool)
    ensures
        just_finished == timer_state(*timer).just_finished,
{
    timer.just_finished()
}

/// `Timer::elapsed`, in nanoseconds, for an elapsed time that fits.
#[verifier::external_body]
pub(crate) fn timer_elapsed(timer: &Timer) -> (nanos: u64)
    requires
        timer_state(*timer).elapsed <= u64::MAX,
    ensures
        nanos == timer_state(*timer).elapsed,
{
    timer.elapsed().as_nanos() as u64
}

/// `Timer::duration`, in nanoseconds, for a duration that fits.
#[verifier::external_body]
pub(crate) fn timer_duration(timer: &Timer) -> (nanos: u64)
    requires
        timer_state(*timer).duration <= u64::MAX,
    ensures
        nanos == timer_state(*timer).duration,
{
    timer.duration().as_nanos() as u64
}

/// A timer that counts once, from zero up to a duration of whole seconds.
#[derive(Debug)]
pub struct Countdown {
    pub(crate) timer: Timer,
}

impl Countdown {
    #[verifier::type_invariant]
    pub open(crate) spec fn wf(self) -> bool {
        let state = timer_state(self.timer);
        &&& state.counts_once()
        &&& state.elapsed <= state.duration
        &&& state.duration <= u32::MAX * NANOS_PER_SECOND
    }

    /// What the timer holds.
    pub open(crate) spec fn state(&self) -> TimerState {
        timer_state(self.timer)
    }

    /// A countdown of `seconds` seconds with nothing elapsed.
    pub fn from_seconds(seconds: u32) -> (countdown: Countdown)
        ensures
            countdown.state() == (TimerState {
                duration: (seconds as nat) * (NANOS_PER_SECOND as nat),
                elapsed: 0,
                finished: false,
                just_finished: false,
                paused: false,
                repeating: false,
            }),
            countdown.wf(),
    {
        assert((seconds as nat) * (NANOS_PER_SECOND as nat) <= u32::MAX * NANOS_PER_SECOND)
            by (nonlinear_arith)
            requires
                seconds <= u32::MAX,
        ;
        Countdown { timer: timer_new(seconds, false) }
    }

    /// Advances the countdown by `delta_nanos` nanoseconds.
    pub fn tick(&mut self, delta_nanos: u64)
        ensures
            final(self).state() == old(self).state().ticked(delta_nanos as nat),
            final(self).wf(),
    {
        proof {
            use_type_invariant(&*self);
        }
        timer_tick(&mut self.timer, delta_nanos);
    }

    /// Whether the duration has been reached.
    pub fn finished(&self) -> (finished: bool)
        ensures
            finished == self.state().finished,
    {
        timer_finished(&self.timer)
    }

    /// Whether the duration was reached by the latest tick.
    pub fn just_finished(&self) -> (just_finished: bool)
        ensures
            just_finished == self.state().just_finished,
    {
        timer_just_finished(&self.timer)
    }

    /// The time counted so far, in nanoseconds.
    pub fn elapsed(&self) -> (nanos: u64)
        ensures
            nanos == self.state().elapsed,
    {
        proof {
            use_type_invariant(self);
        }
        timer_elapsed(&self.timer)
    }

    /// The time after which the countdown finishes, in nanoseconds.
    pub fn duration(&self) -> (nanos: u64)
        ensures
            nanos == self.state().duration,
    {
        proof {
            use_type_invariant(self);
        }
        timer_duration(&self.timer)
    }
}

/// The time a projectile has left.
#[derive(Debug)]
pub struct LifeTime {
    pub timer: Countdown,
}

impl LifeTime {
    /// A lifetime of `duration` seconds.
    pub fn from_seconds(duration: u32) -> (lifetime: LifeTime)
        ensures
            lifetime.timer.state() == (TimerState {
                duration: (duration as nat) * (NANOS_PER_SECOND as nat),
                elapsed: 0,
                finished: false,
                just_finished: false,
                paused: false,
                repeating: false,
            }),
    {
        LifeTime { timer: Countdown::from_seconds(duration) }
    }
}

} // verus!
