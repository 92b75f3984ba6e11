//! A solve: one timed or unfinished attempt, tied to the scramble it was
//! made on. A solve is checked once, when it is built, and never changes.

use std::time::Duration;
use vstd::prelude::*;

verus! {

/// What was held against an attempt.
#[derive(Debug, Clone, Copy, PartialEq, Eq, Structural)]
pub enum Penalty {
    /// The attempt was finished, with a time penalty of two seconds. The
    /// time of such a solve is kept and counted as it was given: whoever
    /// builds the solve has added the two seconds already.
    Plus2,
    /// The attempt was not finished.
    DNF,
}

/// Why a solve could not be built.
#[derive(Debug, Clone, Copy, PartialEq, Eq, Structural)]
pub enum SolveError {
    /// An unfinished attempt was given a time.
    TimeWithDNF,
    /// A finished attempt was given no time.
    NoTimeWithoutDNF,
}

impl SolveError {
    /// The sentence that tells a user what is wrong.
    pub fn message(&self) -> (text: &'static str)
        ensures
            text@ == match *self {
                SolveError::TimeWithDNF => "Time must be None when penalty is DNF"@,
                SolveError::NoTimeWithoutDNF => "Time cannot be None unless penalty is DNF"@,
            },
    {
        match *self {
            SolveError::TimeWithDNF => "Time must be None when penalty is DNF",
            SolveError::NoTimeWithoutDNF => "Time cannot be None unless penalty is DNF",
        }
    }

    /// A short name for what is wrong.
    pub fn description(&self) -> (text: &'static str)
        ensures
            text@ == match *self {
                SolveError::TimeWithDNF => "solve time but is DNF"@,
                SolveError::NoTimeWithoutDNF => "missing solve time and is not DNF"@,
            },
    {
        match *self {
            SolveError::TimeWithDNF => "solve time but is DNF",
            SolveError::NoTimeWithoutDNF => "missing solve time and is not DNF",
        }
    }
}

/// Whether a time and a penalty may stand together in one solve: an
/// unfinished attempt has no time, and every other attempt has one.
pub open spec fn consistent(time: Option<Duration>, penalty: Option<Penalty>) -> bool {
    penalty == Some(Penalty::DNF) <==> time is None
}

/// What a solve holds.
pub struct SolveView {
    pub scramble: Seq<char>,
    pub time: Option<Duration>,
    pub penalty: Option<Penalty>,
}

/// One attempt: the scramble, the time where the attempt was finished, and
/// the penalty where there was one.
#[derive(Debug)]
pub struct Solve {
    scramble: String,
    time: Option<Duration>,
    penalty: Option<Penalty>,
}

impl View for Solve {
    type V = SolveView;

    closed spec fn view(&self) -> SolveView {
        SolveView { scramble: self.scramble@, time: self.time, penalty: self.penalty }
    }
}

impl Solve {
    #[verifier::type_invariant]
    spec fn well_formed(self) -> bool {
        consistent(self.time, self.penalty)
    }

    /// Builds a solve, or says why the time and the penalty do not go
    /// together.
    pub fn build(scramble: String, time: Option<Duration>, penalty: Option<Penalty>) -> (r: Result<
        Solve,
        SolveError,
    >)
        ensures
            r is Ok <==> consistent(time, penalty),
            r matches Ok(solve) ==> solve@ == (SolveView { scramble: scramble@, time, penalty }),
            r matches Err(SolveError::TimeWithDNF) <==> penalty == Some(Penalty::DNF)
                && time is Some,
            r matches Err(SolveError::NoTimeWithoutDNF) <==> penalty != Some(Penalty::DNF)
                && time is None,
    {
        match penalty {
            Some(Penalty::DNF) => {
                if time.is_some() {
                    return Err(SolveError::TimeWithDNF);
                }
            },
            _ => {
                if time.is_none() {
                    return Err(SolveError::NoTimeWithoutDNF);
                }
            },
        }
        Ok(Solve { scramble, time, penalty })
    }

    /// The scramble that the attempt was made on.
    pub fn scramble(&self) -> (text: &str)
        ensures
            text@ == self@.scramble,
    {
        self.scramble.as_str()
    }

    /// The time of the attempt, where it was finished.
    pub fn time(&self) -> (time: &Option<Duration>)
        ensures
            *time == self@.time,
            consistent(self@.time, self@.penalty),
    {
        proof {
            use_type_invariant(self);
        }
        &self.time
    }

    /// The penalty of the attempt, where there was one.
    pub fn penalty(&self) -> (penalty: &Option<Penalty>)
        ensures
            *penalty == self@.penalty,
            consistent(self@.time, self@.penalty),
    {
        proof {
            use_type_invariant(self);
        }
        &self.penalty
    }
}

} // verus!
