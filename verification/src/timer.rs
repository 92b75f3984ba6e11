//! A stopwatch that can be paused and resumed, on the monotonic clock.
//!
//! The timer is idle, running since an instant, or paused at an elapsed
//! time. Each operation that needs the time has two forms: one that reads
//! the clock itself, and one that is handed the reading, of which the
//! contract says exactly what it does.

use crate::clock::instant_before;
use crate::clock::instant_offset;
use crate::clock::nanos_of;
use std::time::Duration;
use std::time::Instant;
use vstd::prelude::*;

verus! {

/// The phase of a timer.
#[derive(Debug, Clone, Copy)]
pub enum TimerState {
    /// Not started, or reset.
    Idle,
    /// Stopped after `elapsed`.
    Paused { elapsed: Duration },
    /// Running since `start`. A timer that was resumed has a `start` that
    /// lies before the moment of resuming, by the time it had run already.
    Running { start: Instant },
}

/// What a timer in `state` shows when the clock stands at offset `now`, in
/// nanoseconds.
pub open spec fn reading(state: TimerState, now: int) -> nat {
    match state {
        TimerState::Idle => 0,
        TimerState::Paused { elapsed } => nanos_of(elapsed),
        TimerState::Running { start } => if now >= instant_offset(start) {
            (now - instant_offset(start)) as nat
        } else {
            0
        },
    }
}

/// The state that starting at the instant `now` brings a timer in state
/// `before` to.
///
/// An idle timer runs from `now`. A paused timer runs from the instant that
/// lies before `now` by the time it had run; where the platform cannot
/// represent that instant, it stays paused. A running timer stays as it is.
pub open spec fn started(before: TimerState, now: Instant) -> TimerState {
    match before {
        TimerState::Idle => TimerState::Running { start: now },
        TimerState::Paused { elapsed } => match instant_before(now, elapsed) {
            Some(start) => TimerState::Running { start },
            None => before,
        },
        TimerState::Running { .. } => before,
    }
}

/// Whether pausing a timer in state `before` at the instant `now` leaves it
/// in state `after`: a running timer is paused at what it shows, any other
/// stays as it is.
pub open spec fn paused(before: TimerState, now: Instant, after: TimerState) -> bool {
    match before {
        TimerState::Running { .. } => after matches TimerState::Paused { elapsed } && nanos_of(
            elapsed,
        ) == reading(before, instant_offset(now)),
        _ => after == before,
    }
}

/// The stopwatch.
#[derive(Debug)]
pub struct Timer {
    state: TimerState,
}

impl View for Timer {
    type V = TimerState;

    closed spec fn view(&self) -> TimerState {
        self.state
    }
}

impl Timer {
    /// An idle timer.
    pub fn new() -> (timer: Timer)
        ensures
            timer@ is Idle,
    {
        Timer { state: TimerState::Idle }
    }

    /// The phase that the timer is in.
    pub fn state(&self) -> (state: &TimerState)
        ensures
            *state == self@,
    {
        &self.state
    }

    /// Starts or resumes the timer at the instant `now`, where `back_dated`
    /// is the instant to resume from: the one that lies before `now` by the
    /// time that a paused timer shows, or `None` where there is no such
    /// instant.
    ///
    /// An idle timer runs from `now`. A paused timer runs from `back_dated`,
    /// and stays paused where there is none. A running timer stays as it
    /// is.
    pub fn start_with(&mut self, now: Instant, back_dated: Option<Instant>)
        ensures
            final(self)@ == match old(self)@ {
                TimerState::Idle => TimerState::Running { start: now },
                TimerState::Paused { .. } => match back_dated {
                    Some(start) => TimerState::Running { start },
                    None => old(self)@,
                },
                TimerState::Running { .. } => old(self)@,
            },
    {
        match self.state {
            TimerState::Idle => {
                self.state = TimerState::Running { start: now };
            },
            TimerState::Paused { .. } => {
                match back_dated {
                    Some(start) => {
                        self.state = TimerState::Running { start };
                    },
                    None => {},
                }
            },
            TimerState::Running { .. } => {},
        }
    }

    /// Starts or resumes the timer at the instant `now`.
    pub fn start_at(&mut self, now: Instant)
        ensures
            final(self)@ == started(old(self)@, now),
            old(self)@ matches TimerState::Paused { elapsed } ==> (final(self)@ is Running
                <==> instant_before(now, elapsed) is Some),
            old(self)@ is Paused && final(self)@ is Running ==> instant_offset(
                final(self)@->start,
            ) == instant_offset(now) - reading(old(self)@, instant_offset(now)),
    {
        let back_dated: Option<Instant> = match self.state {
            TimerState::Paused { elapsed } => now.checked_sub(elapsed),
            _ => None,
        };
        self.start_with(now, back_dated);
    }

    /// Starts or resumes the timer now. The clock is read unless the timer
    /// runs already.
    pub fn start(&mut self)
        ensures
            old(self)@ is Running ==> final(self)@ == old(self)@,
            !(old(self)@ is Running) ==> exists|now: Instant|
                {
                    &&& final(self)@ == started(old(self)@, now)
                    &&& old(self)@ is Paused && final(self)@ is Running ==> instant_offset(
                        final(self)@->start,
                    ) == instant_offset(now) - reading(old(self)@, instant_offset(now))
                },
    {
        match self.state {
            TimerState::Running { .. } => {},
            _ => {
                self.start_at(Instant::now());
            },
        }
    }

    /// Pauses the timer at the instant `now`.
    pub fn pause_at(&mut self, now: Instant)
        ensures
            paused(old(self)@, now, final(self)@),
    {
        match self.state {
            TimerState::Running { start } => {
                self.state = TimerState::Paused { elapsed: now.saturating_duration_since(start) };
            },
            _ => {},
        }
    }

    /// Pauses the timer now. The clock is read only where the timer runs.
    pub fn pause(&mut self)
        ensures
            old(self)@ is Running ==> exists|now: Instant| paused(old(self)@, now, final(self)@),
            !(old(self)@ is Running) ==> final(self)@ == old(self)@,
    {
        match self.state {
            TimerState::Running { .. } => {
                self.pause_at(Instant::now());
            },
            _ => {},
        }
    }

    /// Makes the timer idle again. The time it had run is lost.
    pub fn reset(&mut self)
        ensures
            final(self)@ is Idle,
    {
        self.state = TimerState::Idle;
    }

    /// What the timer shows at the instant `now`.
    pub fn elapsed_at(&self, now: Instant) -> (elapsed: Duration)
        ensures
            nanos_of(elapsed) == reading(self@, instant_offset(now)),
            self@ matches TimerState::Paused { elapsed: kept } ==> elapsed == kept,
    {
        match self.state {
            TimerState::Idle => Duration::new(0, 0),
            TimerState::Running { start } => now.saturating_duration_since(start),
            TimerState::Paused { elapsed } => elapsed,
        }
    }

    /// What the timer shows now. The clock is read only where the timer
    /// runs.
    pub fn elapsed(&self) -> (elapsed: Duration)
        ensures
            self@ is Idle ==> nanos_of(elapsed) == 0,
            self@ matches TimerState::Paused { elapsed: kept } ==> elapsed == kept,
            self@ is Running ==> exists|now: Instant|
                nanos_of(elapsed) == reading(self@, instant_offset(now)),
    {
        match self.state {
            TimerState::Idle => Duration::new(0, 0),
            TimerState::Running { .. } => self.elapsed_at(Instant::now()),
            TimerState::Paused { elapsed } => elapsed,
        }
    }
}

/// A timer that is not running shows the same time whenever it is read.
pub proof fn lemma_stopped_timer_stands_still(state: TimerState, now: int, later: int)
    requires
        !(state is Running),
    ensures
        reading(state, now) == reading(state, later),
{
}

/// An idle timer shows zero.
pub proof fn lemma_idle_timer_shows_zero(state: TimerState, now: int)
    requires
        state is Idle,
    ensures
        reading(state, now) == 0,
{
}

/// What a timer shows never goes down as the clock goes on.
pub proof fn lemma_reading_never_decreases(state: TimerState, now: int, later: int)
    requires
        now <= later,
    ensures
        reading(state, now) <= reading(state, later),
{
}

/// What a running timer shows goes up by the time that has passed, once the
/// clock has reached the instant it runs from.
pub proof fn lemma_running_timer_advances(state: TimerState, now: int, later: int)
    requires
        state matches TimerState::Running { start } && instant_offset(start) <= now,
        now < later,
    ensures
        reading(state, later) == reading(state, now) + (later - now),
        reading(state, now) < reading(state, later),
{
}

/// A timer that was paused shows, whenever it is read, what it showed at the
/// instant of pausing.
pub proof fn lemma_pause_keeps_reading(
    before: TimerState,
    now: Instant,
    after: TimerState,
    later: int,
)
    requires
        paused(before, now, after),
    ensures
        reading(after, later) == reading(before, instant_offset(now)),
{
}

/// A paused timer that was resumed, and so runs from the instant that lies
/// before the instant of resuming by the time it was paused at, carries on
/// from that time: after a further delay it shows that time and the delay.
pub proof fn lemma_resume_carries_on(
    before: TimerState,
    now: Instant,
    after: TimerState,
    later: int,
)
    requires
        before is Paused,
        after matches TimerState::Running { start } && instant_offset(start) == instant_offset(now)
            - reading(before, instant_offset(now)),
        instant_offset(now) <= later,
    ensures
        reading(after, later) == reading(before, instant_offset(now)) + (later - instant_offset(
            now,
        )),
{
}

} // verus!
