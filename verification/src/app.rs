//! The state of the application and what a key press does to it.
//!
//! The application owns a timer, the session and the scramble that the next
//! attempt is made on. The space bar starts an attempt or ends it; `q` asks
//! to quit. Storing the session is left to the caller, who is told when it
//! is due and what is to follow once it has succeeded.

use crate::scramble::is_cube3x3_scramble;
use crate::scramble::Puzzle;
use crate::scramble::Scrambler;
use crate::session::Session;
use crate::solve::Solve;
use crate::solve::SolveView;
use crate::timer::paused;
use crate::timer::Timer;
use crate::timer::TimerState;
use std::time::Duration;
use std::time::Instant;
use vstd::prelude::*;

verus! {

/// A key, as far as the application tells keys apart.
#[derive(Debug, Clone, Copy, PartialEq, Eq, Structural)]
pub enum Key {
    /// A key that stands for a character.
    Char(char),
    /// Any other key.
    Other,
}

/// What the caller is to do after a key press.
#[derive(Debug, Clone, Copy, PartialEq, Eq, Structural)]
pub enum Effect {
    /// Nothing.
    Nothing,
    /// Store the session and, once it is stored, have the next scramble made
    /// with `App::next_scramble`.
    SaveSessionThenScramble,
    /// Store the session and, once it is stored, quit with `App::quit`.
    SaveSessionThenQuit,
}

/// The key that starts and ends an attempt.
pub const TOGGLE_KEY: char = ' ';

/// The key that asks to quit.
pub const QUIT_KEY: char = 'q';

/// The state of the application.
pub struct App {
    pub should_quit: bool,
    pub timer: Timer,
    pub session: Session,
    pub current_scramble: Option<String>,
}

impl App {
    /// Whether a press of `key` ends the attempt that is under way.
    pub open spec fn ends_attempt(&self, key: Key) -> bool {
        key == Key::Char(TOGGLE_KEY) && self.timer@ is Running
    }

    /// Whether a press of `key` starts an attempt.
    pub open spec fn starts_attempt(&self, key: Key) -> bool {
        key == Key::Char(TOGGLE_KEY) && !(self.timer@ is Running)
    }

    /// The application at its start: it holds `session`, an idle timer and a
    /// first scramble.
    pub fn build(session: Session) -> (app: App)
        ensures
            app.session == session,
            app.timer@ is Idle,
            !app.should_quit,
            app.current_scramble matches Some(text) && is_cube3x3_scramble(text@),
    {
        App {
            session,
            timer: Timer::new(),
            should_quit: false,
            current_scramble: Some(Scrambler::new_scramble(Puzzle::Cube3x3)),
        }
    }

    /// Starts an attempt at the instant `now`: the timer runs from `now`,
    /// whatever it showed before.
    pub fn begin_attempt(&mut self, now: Instant)
        ensures
            final(self).timer@ == (TimerState::Running { start: now }),
            final(self).should_quit == old(self).should_quit,
            final(self).session == old(self).session,
            final(self).current_scramble == old(self).current_scramble,
    {
        self.timer.reset();
        self.timer.start_at(now);
    }

    /// Ends the attempt that is under way at the instant `now`: the timer is
    /// paused and the time it shows is saved with the current scramble as a
    /// solve without penalty. The scramble is used up: there is none until
    /// the next one is made.
    pub fn finish_attempt(&mut self, now: Instant)
        requires
            old(self).timer@ is Running,
            old(self).current_scramble is Some,
        ensures
            paused(old(self).timer@, now, final(self).timer@),
            final(self).session@.len() == old(self).session@.len() + 1,
            final(self).session@.drop_last() == old(self).session@,
            final(self).timer@ matches TimerState::Paused { elapsed }
                && final(self).session@.last()@ == (SolveView {
                scramble: old(self).current_scramble->0@,
                time: Some(elapsed),
                penalty: None,
            }),
            final(self).current_scramble is None,
            final(self).should_quit == old(self).should_quit,
    {
        self.timer.pause_at(now);
        let current_scramble: String = self.current_scramble.take().unwrap();
        let elapsed: Duration = self.timer.elapsed_at(now);
        let solve: Solve = Solve::build(current_scramble, Some(elapsed), None).unwrap();
        self.session.save_solve(solve);
        assert(self.session@.drop_last() =~= old(self).session@);
    }

    /// Makes the scramble for the next attempt.
    pub fn next_scramble(&mut self)
        ensures
            final(self).current_scramble matches Some(text) && is_cube3x3_scramble(text@),
            final(self).should_quit == old(self).should_quit,
            final(self).timer == old(self).timer,
            final(self).session == old(self).session,
    {
        self.current_scramble = Some(Scrambler::new_scramble(Puzzle::Cube3x3));
    }

    /// Asks the program to end.
    pub fn quit(&mut self)
        ensures
            final(self).should_quit,
            final(self).timer == old(self).timer,
            final(self).session == old(self).session,
            final(self).current_scramble == old(self).current_scramble,
    {
        self.should_quit = true;
    }

    /// Reacts to a press of `key`.
    ///
    /// The toggle key ends a running attempt: the timer is paused and the
    /// time it shows is saved with the current scramble as a solve without
    /// penalty; the session is then due to be stored, and the next scramble
    /// to be made once it is. With the timer idle or paused the toggle key
    /// starts an attempt from zero. The quit key changes nothing by itself:
    /// the session is due to be stored, and the program to quit once it is.
    /// Any other key does nothing.
    pub fn on_key_pressed(&mut self, key: Key) -> (effect: Effect)
        requires
            old(self).ends_attempt(key) ==> old(self).current_scramble is Some,
        ensures
            old(self).ends_attempt(key) ==> {
                &&& effect == Effect::SaveSessionThenScramble
                &&& final(self).should_quit == old(self).should_quit
                &&& exists|now: Instant| paused(old(self).timer@, now, final(self).timer@)
                &&& final(self).session@.len() == old(self).session@.len() + 1
                &&& final(self).session@.drop_last() == old(self).session@
                &&& final(self).timer@ matches TimerState::Paused { elapsed }
                    && final(self).session@.last()@ == (SolveView {
                    scramble: old(self).current_scramble->0@,
                    time: Some(elapsed),
                    penalty: None,
                })
                &&& final(self).current_scramble is None
            },
            old(self).starts_attempt(key) ==> {
                &&& effect == Effect::Nothing
                &&& final(self).should_quit == old(self).should_quit
                &&& final(self).timer@ is Running
                &&& final(self).session == old(self).session
                &&& final(self).current_scramble == old(self).current_scramble
            },
            key == Key::Char(QUIT_KEY) ==> {
                &&& effect == Effect::SaveSessionThenQuit
                &&& *final(self) == *old(self)
            },
            key != Key::Char(TOGGLE_KEY) && key != Key::Char(QUIT_KEY) ==> {
                &&& effect == Effect::Nothing
                &&& *final(self) == *old(self)
            },
    {
        match key {
            Key::Char(c) => {
                if c == TOGGLE_KEY {
                    match self.timer.state() {
                        TimerState::Running { .. } => {
                            let now: Instant = Instant::now();
                            self.finish_attempt(now);
                            assert(paused(old(self).timer@, now, self.timer@));
                            Effect::SaveSessionThenScramble
                        },
                        _ => {
                            self.begin_attempt(Instant::now());
                            Effect::Nothing
                        },
                    }
                } else if c == QUIT_KEY {
                    Effect::SaveSessionThenQuit
                } else {
                    Effect::Nothing
                }
            },
            Key::Other => Effect::Nothing,
        }
    }
}

} // verus!
