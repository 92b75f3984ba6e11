//! A session: the solves of one sitting, in the order in which they were
//! made. Solves are only ever added at the end.

use crate::solve::Solve;
use std::time::Duration;
use vstd::prelude::*;

verus! {

/// The times of the solves that have one, in the order of the solves.
pub open spec fn time_series(solves: Seq<Solve>) -> Seq<Duration>
    decreases solves.len(),
{
    if solves.len() == 0 {
        Seq::empty()
    } else {
        match solves.last()@.time {
            Some(time) => time_series(solves.drop_last()).push(time),
            None => time_series(solves.drop_last()),
        }
    }
}

/// The log `log` after the solves of `saved` have been saved to it, one
/// after the other.
pub open spec fn after_saves(log: Seq<Solve>, saved: Seq<Solve>) -> Seq<Solve>
    decreases saved.len(),
{
    if saved.len() == 0 {
        log
    } else {
        after_saves(log, saved.drop_last()).push(saved.last())
    }
}

/// The log of solves.
pub struct Session {
    solves: Vec<Solve>,
}

impl View for Session {
    type V = Seq<Solve>;

    closed spec fn view(&self) -> Seq<Solve> {
        self.solves@
    }
}

impl Session {
    /// A session without solves.
    pub fn new() -> (session: Session)
        ensures
            session@ == Seq::<Solve>::empty(),
    {
        Session { solves: Vec::new() }
    }

    /// The session that holds `solves`, in their order.
    pub fn from_solves(solves: Vec<Solve>) -> (session: Session)
        ensures
            session@ == solves@,
    {
        Session { solves }
    }

    /// The solves, oldest first.
    pub fn solves(&self) -> (solves: &[Solve])
        ensures
            solves@ == self@,
    {
        self.solves.as_slice()
    }

    /// Adds `solve` at the end.
    pub fn save_solve(&mut self, solve: Solve)
        ensures
            final(self)@ == old(self)@.push(solve),
    {
        self.solves.push(solve);
    }

    /// The times of the solves that were finished, oldest first.
    pub fn times(&self) -> (times: Vec<Duration>)
        ensures
            times@ == time_series(self@),
    {
        let mut times: Vec<Duration> = Vec::new();
        let n: usize = self.solves.len();
        let mut i: usize = 0;
        while i < n
            invariant
                n == self.solves@.len(),
                i <= n,
                times@ == time_series(self.solves@.take(i as int)),
            decreases n - i,
        {
            proof {
                assert(self.solves@.take(i + 1).drop_last() =~= self.solves@.take(i as int));
            }
            match self.solves[i].time() {
                Some(time) => {
                    times.push(*time);
                },
                None => {},
            }
            i = i + 1;
        }
        proof {
            assert(self.solves@.take(n as int) =~= self.solves@);
        }
        times
    }
}

/// Saving a solve makes the log longer by one, leaves what was in it where
/// it was, and puts the solve last.
pub proof fn lemma_save_appends(log: Seq<Solve>, solve: Solve)
    ensures
        log.push(solve).len() == log.len() + 1,
        log.push(solve).last() == solve,
        forall|i: int| 0 <= i < log.len() ==> log.push(solve)[i] == log[i],
{
}

/// Solves stand in the log in the order in which they were saved, behind
/// what was in it before.
pub proof fn lemma_saves_keep_their_order(log: Seq<Solve>, saved: Seq<Solve>)
    ensures
        after_saves(log, saved) == log + saved,
        after_saves(log, saved).len() == log.len() + saved.len(),
    decreases saved.len(),
{
    if saved.len() > 0 {
        lemma_saves_keep_their_order(log, saved.drop_last());
    }
}

/// Saving a finished solve puts its time at the end of the time series;
/// saving an unfinished one leaves the series as it is.
pub proof fn lemma_save_extends_time_series(log: Seq<Solve>, solve: Solve)
    ensures
        time_series(log.push(solve)) == match solve@.time {
            Some(time) => time_series(log).push(time),
            None => time_series(log),
        },
{
    assert(log.push(solve).drop_last() =~= log);
}

} // verus!
