//! The two front ends: the control socket and the status page.

pub mod http;
pub mod websocket;

use vstd::prelude::*;
use crate::config::Config;
use crate::message::Message;

verus! {

/// What a client of the control socket can ask for.
#[derive(Debug, Clone)]
pub enum Request {
    SetConfig(Config),
    DefaultConfig,
    SendMessage(Message),
    Authenticate(String),
    GetConfig,
    GetTelemetry,
    GetTimeslot,
    GetVersion,
    Restart,
    Shutdown,
    Test,
}

/// The kinds of answer that the control socket gives.
#[derive(Debug, Clone, Copy, PartialEq, Eq, Structural)]
pub enum ResponseKind {
    Config,
    Telemetry,
    TelemetryUpdate,
    Timeslot,
    Version,
    Message,
    Log,
    Authenticated,
}

} // verus!
