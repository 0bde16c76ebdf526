//! The subscribe/publish loop: subscribe to the topic, retrying at a flat
//! interval, wait once for the subscription to settle, then publish the payload
//! at a fixed interval until an enqueue fails.
use vstd::prelude::*;

use crate::Outcome;

verus! {

/// Pause between a failed subscribe and the next attempt, in milliseconds.
pub const SUBSCRIBE_RETRY_MILLIS: u64 = 500;

/// Pause between a successful subscribe and the first publish, in milliseconds.
pub const SETTLE_MILLIS: u64 = 500;

/// Pause after each successful publish, in milliseconds.
pub const PUBLISH_INTERVAL_MILLIS: u64 = 2000;

/// Where the loop stands; each phase has one action pending.
#[derive(Clone, Copy, Debug, PartialEq, Eq, Structural)]
pub enum Phase {
    /// A subscribe attempt is due.
    Unsubscribed,
    /// A subscribe attempt failed; waiting before the next one.
    RetryWait,
    /// Subscribed; waiting once before the first publish.
    Settling,
    /// A publish is due.
    Publishing,
    /// A publish went out; waiting before the next one.
    Resting,
    /// A publish failed; the loop is over.
    Failed,
}

/// What the caller is to do next.
#[derive(Clone, Copy, Debug, PartialEq, Eq, Structural)]
pub enum Action {
    /// Subscribe to the topic at most-once quality.
    Subscribe,
    /// Block for the given number of milliseconds.
    Sleep { millis: u64 },
    /// Enqueue the payload on the topic at most-once quality, not retained.
    Publish,
    /// Give up and hand the publish failure to the caller.
    Stop,
}

/// What the last outcome is worth a log line for.
#[derive(Clone, Copy, Debug, PartialEq, Eq, Structural)]
pub enum Report {
    Quiet,
    SubscribeFailed,
    Subscribed,
    Published,
    PublishFailed,
}

/// The answer to one outcome: what to log, and what to do next.
#[derive(Clone, Copy, Debug, PartialEq, Eq, Structural)]
pub struct Decision {
    pub report: Report,
    pub action: Action,
}

/// The action that a phase has pending.
pub open spec fn pending(p: Phase) -> Action {
    match p {
        Phase::Unsubscribed => Action::Subscribe,
        Phase::RetryWait => Action::Sleep { millis: SUBSCRIBE_RETRY_MILLIS },
        Phase::Settling => Action::Sleep { millis: SETTLE_MILLIS },
        Phase::Publishing => Action::Publish,
        Phase::Resting => Action::Sleep { millis: PUBLISH_INTERVAL_MILLIS },
        Phase::Failed => Action::Stop,
    }
}

/// The phase reached when the pending action of `p` ends with `o`.
/// A sleep ends the same way whatever is reported for it.
pub open spec fn next_phase(p: Phase, o: Outcome) -> Phase {
    match (p, o) {
        (Phase::Unsubscribed, Outcome::Succeeded) => Phase::Settling,
        (Phase::Unsubscribed, Outcome::Failed) => Phase::RetryWait,
        (Phase::RetryWait, _) => Phase::Unsubscribed,
        (Phase::Settling, _) => Phase::Publishing,
        (Phase::Publishing, Outcome::Succeeded) => Phase::Resting,
        (Phase::Publishing, Outcome::Failed) => Phase::Failed,
        (Phase::Resting, _) => Phase::Publishing,
        (Phase::Failed, _) => Phase::Failed,
    }
}

/// What is logged when the pending action of `p` ends with `o`.
pub open spec fn report_of(p: Phase, o: Outcome) -> Report {
    match (p, o) {
        (Phase::Unsubscribed, Outcome::Succeeded) => Report::Subscribed,
        (Phase::Unsubscribed, Outcome::Failed) => Report::SubscribeFailed,
        (Phase::Publishing, Outcome::Succeeded) => Report::Published,
        (Phase::Publishing, Outcome::Failed) => Report::PublishFailed,
        _ => Report::Quiet,
    }
}

/// The phase reached from `p` after the outcomes `outs`, in order.
pub open spec fn phase_after(p: Phase, outs: Seq<Outcome>) -> Phase
    decreases outs.len(),
{
    if outs.len() == 0 {
        p
    } else {
        phase_after(next_phase(p, outs[0]), outs.drop_first())
    }
}

/// The actions handed out from `p` for the outcomes `outs`, one per outcome.
pub open spec fn actions_after(p: Phase, outs: Seq<Outcome>) -> Seq<Action>
    decreases outs.len(),
{
    if outs.len() == 0 {
        Seq::empty()
    } else {
        let q = next_phase(p, outs[0]);
        seq![pending(q)] + actions_after(q, outs.drop_first())
    }
}

/// After a successful subscribe exactly one settling pause is handed out, and
/// whatever is reported for it, the next action is the first publish.
pub proof fn lemma_one_settling_pause(p: Phase, after_pause: Outcome)
    requires
        pending(p) == Action::Subscribe,
    ensures
        actions_after(p, seq![Outcome::Succeeded, after_pause]) == seq![
            Action::Sleep { millis: SETTLE_MILLIS },
            Action::Publish,
        ],
{
    let outs = seq![Outcome::Succeeded, after_pause];
    let once = outs.drop_first();
    assert(once =~= seq![after_pause]);
    assert(once.drop_first() =~= Seq::<Outcome>::empty());
    assert(next_phase(p, outs[0]) == Phase::Settling);
    assert(next_phase(Phase::Settling, once[0]) == Phase::Publishing);
    assert(actions_after(Phase::Publishing, once.drop_first()) =~= Seq::<Action>::empty());
    assert(actions_after(Phase::Settling, once) =~= seq![Action::Publish]);
    assert(actions_after(p, outs) =~= seq![
        Action::Sleep { millis: SETTLE_MILLIS },
        Action::Publish,
    ]);
}

/// Failed subscribe attempts are never capped: when every attempt fails, each
/// one is followed by exactly one pause of the retry interval and then a new
/// attempt, and the loop is still waiting to subscribe after any number of them.
pub proof fn lemma_subscribe_retries_forever(outs: Seq<Outcome>)
    requires
        outs.len() % 2 == 0,
        forall|i: int| 0 <= i < outs.len() && i % 2 == 0 ==> outs[i] == Outcome::Failed,
    ensures
        phase_after(Phase::Unsubscribed, outs) == Phase::Unsubscribed,
        actions_after(Phase::Unsubscribed, outs).len() == outs.len(),
        forall|i: int|
            #![trigger actions_after(Phase::Unsubscribed, outs)[i]]
            0 <= i < outs.len() ==> actions_after(Phase::Unsubscribed, outs)[i] == if i % 2 == 0 {
                Action::Sleep { millis: SUBSCRIBE_RETRY_MILLIS }
            } else {
                Action::Subscribe
            },
        forall|i: int|
            0 <= i < outs.len() && i % 2 == 0 ==> report_of(
                #[trigger] phase_after(Phase::Unsubscribed, outs.take(i)),
                outs[i],
            ) == Report::SubscribeFailed,
    decreases outs.len(),
{
    if outs.len() > 0 {
        let rest = outs.drop_first().drop_first();
        assert forall|i: int| 0 <= i < rest.len() && i % 2 == 0 implies rest[i] == Outcome::Failed by {
            assert(rest[i] == outs[i + 2]);
        }
        lemma_subscribe_retries_forever(rest);
        let once = outs.drop_first();
        assert(next_phase(Phase::Unsubscribed, outs[0]) == Phase::RetryWait);
        assert(next_phase(Phase::RetryWait, once[0]) == Phase::Unsubscribed);
        assert(phase_after(Phase::RetryWait, once) == phase_after(Phase::Unsubscribed, rest));
        let tail = actions_after(Phase::Unsubscribed, rest);
        assert(actions_after(Phase::RetryWait, once) == seq![Action::Subscribe] + tail);
        assert forall|i: int| 0 <= i < outs.len() && i % 2 == 0 implies report_of(
            #[trigger] phase_after(Phase::Unsubscribed, outs.take(i)),
            outs[i],
        ) == Report::SubscribeFailed by {
            let t = outs.take(i);
            if i >= 2 {
                assert(t[0] == outs[0]);
                assert(t.drop_first()[0] == outs[1]);
                assert(t.drop_first().drop_first() =~= rest.take(i - 2));
                assert(phase_after(Phase::Unsubscribed, t) == phase_after(Phase::RetryWait, t.drop_first()));
                assert(outs[i] == rest[i - 2]);
                assert(phase_after(Phase::Unsubscribed, rest.take(i - 2)) == Phase::Unsubscribed);
            } else {
                assert(t.len() == 0);
            }
        }
    }
}

/// While publishes succeed, each one is followed by exactly one pause of the
/// publish interval and then the same publish again, for any number of rounds.
pub proof fn lemma_publish_rounds(p: Phase, outs: Seq<Outcome>)
    requires
        pending(p) == Action::Publish,
        outs.len() % 2 == 0,
        forall|i: int| 0 <= i < outs.len() && i % 2 == 0 ==> outs[i] == Outcome::Succeeded,
    ensures
        pending(phase_after(p, outs)) == Action::Publish,
        actions_after(p, outs).len() == outs.len(),
        forall|i: int|
            #![trigger actions_after(p, outs)[i]]
            0 <= i < outs.len() ==> actions_after(p, outs)[i] == if i % 2 == 0 {
                Action::Sleep { millis: PUBLISH_INTERVAL_MILLIS }
            } else {
                Action::Publish
            },
    decreases outs.len(),
{
    if outs.len() > 0 {
        let rest = outs.drop_first().drop_first();
        assert forall|i: int| 0 <= i < rest.len() && i % 2 == 0 implies rest[i] == Outcome::Succeeded by {
            assert(rest[i] == outs[i + 2]);
        }
        lemma_publish_rounds(Phase::Publishing, rest);
        let once = outs.drop_first();
        assert(next_phase(p, outs[0]) == Phase::Resting);
        assert(next_phase(Phase::Resting, once[0]) == Phase::Publishing);
        assert(phase_after(Phase::Resting, once) == phase_after(Phase::Publishing, rest));
        let tail = actions_after(Phase::Publishing, rest);
        assert(actions_after(Phase::Resting, once) == seq![Action::Publish] + tail);
    }
}

/// A failed publish ends the loop for good: it is reported, the loop stops,
/// and whatever follows, no action but stopping is handed out again.
pub proof fn lemma_publish_failure_is_final(p: Phase, outs: Seq<Outcome>)
    requires
        pending(p) == Action::Publish,
    ensures
        report_of(p, Outcome::Failed) == Report::PublishFailed,
        pending(next_phase(p, Outcome::Failed)) == Action::Stop,
        phase_after(next_phase(p, Outcome::Failed), outs) == Phase::Failed,
        actions_after(next_phase(p, Outcome::Failed), outs).len() == outs.len(),
        forall|i: int|
            0 <= i < outs.len() ==> #[trigger] actions_after(next_phase(p, Outcome::Failed), outs)[i]
                == Action::Stop,
    decreases outs.len(),
{
    if outs.len() > 0 {
        lemma_publish_failure_is_final(p, outs.drop_first());
    }
}

/// The subscribe/publish controller.
pub struct PublishLoop {
    phase: Phase,
}

impl View for PublishLoop {
    type V = Phase;

    closed spec fn view(&self) -> Phase {
        self.phase
    }
}

impl PublishLoop {
    /// A loop that has not subscribed yet.
    pub fn new() -> (r: PublishLoop)
        ensures
            r@ == Phase::Unsubscribed,
    {
        PublishLoop { phase: Phase::Unsubscribed }
    }

    /// The current phase.
    pub fn phase(&self) -> (r: Phase)
        ensures
            r == self@,
    {
        self.phase
    }

    /// The action due now: on a new loop, the first subscribe attempt.
    pub fn action(&self) -> (r: Action)
        ensures
            r == pending(self@),
    {
        match self.phase {
            Phase::Unsubscribed => Action::Subscribe,
            Phase::RetryWait => Action::Sleep { millis: SUBSCRIBE_RETRY_MILLIS },
            Phase::Settling => Action::Sleep { millis: SETTLE_MILLIS },
            Phase::Publishing => Action::Publish,
            Phase::Resting => Action::Sleep { millis: PUBLISH_INTERVAL_MILLIS },
            Phase::Failed => Action::Stop,
        }
    }

    /// Takes the outcome of the action due, moves on, and says what to log
    /// and what to do next.
    pub fn step(&mut self, outcome: Outcome) -> (d: Decision)
        ensures
            final(self)@ == next_phase(old(self)@, outcome),
            d.report == report_of(old(self)@, outcome),
            d.action == pending(final(self)@),
    {
        let (next, report) = match (self.phase, outcome) {
            (Phase::Unsubscribed, Outcome::Succeeded) => (Phase::Settling, Report::Subscribed),
            (Phase::Unsubscribed, Outcome::Failed) => (Phase::RetryWait, Report::SubscribeFailed),
            (Phase::RetryWait, _) => (Phase::Unsubscribed, Report::Quiet),
            (Phase::Settling, _) => (Phase::Publishing, Report::Quiet),
            (Phase::Publishing, Outcome::Succeeded) => (Phase::Resting, Report::Published),
            (Phase::Publishing, Outcome::Failed) => (Phase::Failed, Report::PublishFailed),
            (Phase::Resting, _) => (Phase::Publishing, Report::Quiet),
            (Phase::Failed, _) => (Phase::Failed, Report::Quiet),
        };
        self.phase = next;
        Decision { report, action: self.action() }
    }
}

} // verus!
