//! Bringing the device up: join the network, open the broker session, then
//! hand over to the two loops. A failure at either step is fatal.
use vstd::prelude::*;

use crate::Outcome;

verus! {

/// Where start-up stands.
#[derive(Clone, Copy, Debug, PartialEq, Eq, Structural)]
pub enum Stage {
    /// The network is to be brought up.
    Network,
    /// The broker session is to be created.
    Session,
    /// Both are up; the loops are to run.
    Running,
    /// A step failed; start-up is abandoned.
    Aborted,
}

/// What the caller is to do next.
#[derive(Clone, Copy, Debug, PartialEq, Eq, Structural)]
pub enum StartAction {
    /// Join the network with the configured credentials.
    BringUpNetwork,
    /// Create the client and connection pair for the broker.
    CreateSession,
    /// Start the listener and the subscribe/publish loop.
    Run,
    /// Report the failure and end start-up, with no MQTT operation.
    Abort,
}

/// The action that a stage has pending.
pub open spec fn start_pending(s: Stage) -> StartAction {
    match s {
        Stage::Network => StartAction::BringUpNetwork,
        Stage::Session => StartAction::CreateSession,
        Stage::Running => StartAction::Run,
        Stage::Aborted => StartAction::Abort,
    }
}

/// The stage reached when the pending action of `s` ends with `o`.
pub open spec fn start_next(s: Stage, o: Outcome) -> Stage {
    match (s, o) {
        (Stage::Network, Outcome::Succeeded) => Stage::Session,
        (Stage::Session, Outcome::Succeeded) => Stage::Running,
        (Stage::Network, Outcome::Failed) => Stage::Aborted,
        (Stage::Session, Outcome::Failed) => Stage::Aborted,
        _ => s,
    }
}

/// The start-up sequence.
pub struct Startup {
    stage: Stage,
}

impl View for Startup {
    type V = Stage;

    closed spec fn view(&self) -> Stage {
        self.stage
    }
}

impl Startup {
    /// Start-up before anything was tried.
    pub fn new() -> (r: Startup)
        ensures
            r@ == Stage::Network,
    {
        Startup { stage: Stage::Network }
    }

    /// The current stage.
    pub fn stage(&self) -> (r: Stage)
        ensures
            r == self@,
    {
        self.stage
    }

    /// The action due now: at first, bringing up the network.
    pub fn action(&self) -> (r: StartAction)
        ensures
            r == start_pending(self@),
    {
        match self.stage {
            Stage::Network => StartAction::BringUpNetwork,
            Stage::Session => StartAction::CreateSession,
            Stage::Running => StartAction::Run,
            Stage::Aborted => StartAction::Abort,
        }
    }

    /// Takes the outcome of the action due and says what to do next.
    pub fn step(&mut self, outcome: Outcome) -> (r: StartAction)
        ensures
            final(self)@ == start_next(old(self)@, outcome),
            r == start_pending(final(self)@),
    {
        self.stage = match (self.stage, outcome) {
            (Stage::Network, Outcome::Succeeded) => Stage::Session,
            (Stage::Session, Outcome::Succeeded) => Stage::Running,
            (Stage::Network, Outcome::Failed) => Stage::Aborted,
            (Stage::Session, Outcome::Failed) => Stage::Aborted,
            (s, _) => s,
        };
        self.action()
    }
}

} // verus!
