//! The listener: reads inbound events one after another, with no pause, until
//! the first failed read, and then never reads again.
use vstd::prelude::*;

use crate::Outcome;

verus! {

/// What the listener task is to do next.
#[derive(Clone, Copy, Debug, PartialEq, Eq, Structural)]
pub enum DrainAction {
    /// Read the next event at once.
    ReadNext,
    /// The connection is closed: log that and end the task.
    Finish,
}

/// The action due while the connection is open (`open`) or closed.
pub open spec fn drain_pending(open: bool) -> DrainAction {
    if open {
        DrainAction::ReadNext
    } else {
        DrainAction::Finish
    }
}

/// Whether the connection counts as open after a read that ended with `o`.
pub open spec fn drain_next(open: bool, o: Outcome) -> bool {
    open && o == Outcome::Succeeded
}

/// The actions handed out for the read outcomes `outs`, one per outcome.
pub open spec fn drain_actions(open: bool, outs: Seq<Outcome>) -> Seq<DrainAction>
    decreases outs.len(),
{
    if outs.len() == 0 {
        Seq::empty()
    } else {
        let n = drain_next(open, outs[0]);
        seq![drain_pending(n)] + drain_actions(n, outs.drop_first())
    }
}

/// The event drain loop.
pub struct DrainLoop {
    open: bool,
}

impl View for DrainLoop {
    type V = bool;

    /// Whether the connection is still being read.
    closed spec fn view(&self) -> bool {
        self.open
    }
}

impl DrainLoop {
    /// A listener that has just started.
    pub fn new() -> (r: DrainLoop)
        ensures
            r@,
    {
        DrainLoop { open: true }
    }

    /// Whether the connection is still being read.
    pub fn is_open(&self) -> (r: bool)
        ensures
            r == self@,
    {
        self.open
    }

    /// The action due now: on a new listener, the first read.
    pub fn action(&self) -> (r: DrainAction)
        ensures
            r == drain_pending(self@),
    {
        if self.open {
            DrainAction::ReadNext
        } else {
            DrainAction::Finish
        }
    }

    /// Takes the outcome of a read and says what to do next.
    pub fn on_read(&mut self, outcome: Outcome) -> (r: DrainAction)
        ensures
            final(self)@ == drain_next(old(self)@, outcome),
            r == drain_pending(final(self)@),
    {
        self.open = self.open && outcome == Outcome::Succeeded;
        self.action()
    }
}

/// A started listener reads again right after every successful read, and from
/// its first failed read on it finishes and never reads again: the action after
/// a read is to read again exactly when no read so far has failed.
pub proof fn lemma_reads_until_first_failure(outs: Seq<Outcome>)
    ensures
        drain_actions(true, outs).len() == outs.len(),
        forall|i: int|
            0 <= i < outs.len() ==> (#[trigger] drain_actions(true, outs)[i] == DrainAction::ReadNext
                <==> forall|j: int| 0 <= j <= i ==> outs[j] == Outcome::Succeeded),
{
    lemma_drain_actions(true, outs);
}

proof fn lemma_drain_actions(open: bool, outs: Seq<Outcome>)
    ensures
        drain_actions(open, outs).len() == outs.len(),
        forall|i: int|
            0 <= i < outs.len() ==> (#[trigger] drain_actions(open, outs)[i] == DrainAction::ReadNext
                <==> open && forall|j: int| 0 <= j <= i ==> outs[j] == Outcome::Succeeded),
    decreases outs.len(),
{
    if outs.len() > 0 {
        let n = drain_next(open, outs[0]);
        let rest = outs.drop_first();
        lemma_drain_actions(n, rest);
        let acts = drain_actions(open, outs);
        assert forall|i: int| 0 <= i < outs.len() implies (#[trigger] acts[i] == DrainAction::ReadNext
            <==> open && forall|j: int| 0 <= j <= i ==> outs[j] == Outcome::Succeeded) by {
            if i > 0 {
                assert(acts[i] == drain_actions(n, rest)[i - 1]);
                if open && forall|j: int| 0 <= j <= i ==> outs[j] == Outcome::Succeeded {
                    assert forall|j: int| 0 <= j <= i - 1 implies rest[j] == Outcome::Succeeded by {
                        assert(rest[j] == outs[j + 1]);
                    }
                }
                if n && forall|j: int| 0 <= j <= i - 1 ==> rest[j] == Outcome::Succeeded {
                    assert forall|j: int| 0 <= j <= i implies outs[j] == Outcome::Succeeded by {
                        if j > 0 {
                            assert(outs[j] == rest[j - 1]);
                        }
                    }
                }
            }
        }
    }
}

} // verus!
