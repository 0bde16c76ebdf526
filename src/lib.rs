//! Control logic of a device that joins a network and talks MQTT.
//!
//! The device runs two loops over one broker session: a listener that drains
//! inbound events, and a controller that subscribes (retrying on failure) and
//! then publishes a fixed payload at a fixed interval. Each loop is a state
//! machine here: the caller performs the action it is handed and reports the
//! outcome, and the machine decides what comes next.
use vstd::prelude::*;

pub mod config;
pub mod listener;
pub mod publisher;
pub mod startup;

verus! {

/// How the last action handed to the caller went.
#[derive(Clone, Copy, Debug, PartialEq, Eq, Structural)]
pub enum Outcome {
    Succeeded,
    Failed,
}

} // verus!
