//! The requests to the network's core: signing on and the heartbeat.

use vstd::prelude::*;
use crate::config::Config;
use crate::text::{decimal, decimal_text};

verus! {

/// Seconds between two heartbeats.
pub const HEARTBEAT_INTERVAL: u64 = 60;

/// A node of the network as the core names it.
#[derive(Debug, Clone)]
pub struct Node {
    pub host: String,
    pub reachable: bool,
    pub last_seen: Option<String>,
}

/// The core's answer to signing on: the slots of this transmitter and the
/// nodes of the network by name.
#[derive(Debug, Clone)]
pub struct BootstrapResponse {
    pub timeslots: Vec<bool>,
    pub nodes: Vec<(String, Node)>,
}

/// The core's answer to a heartbeat.
#[derive(Debug, Clone)]
pub struct HeartbeatResponse {
    pub status: String,
}

/// Why signing on came to nothing.
#[derive(Debug, Clone, Copy, PartialEq, Eq, Structural)]
pub enum BootstrapError {
    NoCallsign,
    NoAuthKey,
    ConnectionFailed,
    ParsingFailed,
}

impl BootstrapError {
    pub open spec fn spec_message(self) -> Seq<char> {
        match self {
            BootstrapError::NoCallsign => "No callsign configured"@,
            BootstrapError::NoAuthKey => "No auth key configured"@,
            BootstrapError::ConnectionFailed => "Bootstrap connection failed"@,
            BootstrapError::ParsingFailed => "Bootstrap data parsing failed"@,
        }
    }

    pub fn message(self) -> (text: &'static str)
        ensures
            text@ == self.spec_message(),
    {
        match self {
            BootstrapError::NoCallsign => "No callsign configured",
            BootstrapError::NoAuthKey => "No auth key configured",
            BootstrapError::ConnectionFailed => "Bootstrap connection failed",
            BootstrapError::ParsingFailed => "Bootstrap data parsing failed",
        }
    }
}

/// The address of a request to the core: the configured server and port,
/// and the path below `/transmitters/`.
pub open spec fn spec_url(config: Config, request: Seq<char>) -> Seq<char> {
    "http://"@ + config.master.server@ + ":"@ + decimal_text(config.master.port as nat)
        + "/transmitters/"@ + request
}

fn url(config: &Config, request: &str) -> (address: String)
    ensures
        address@ == spec_url(*config, request@),
{
    let mut address = "http://".to_owned();
    address.append(config.master.server.as_str());
    address.append(":");
    let port = decimal(config.master.port as u64);
    address.append(port.as_str());
    address.append("/transmitters/");
    address.append(request);
    address
}

/// Signing on needs a call sign and a key: says which of them is missing,
/// the call sign first.
pub fn check_credentials(config: &Config) -> (checked: Result<(), BootstrapError>)
    ensures
        config.master.call@.len() == 0 ==> checked == Err::<(), BootstrapError>(
            BootstrapError::NoCallsign,
        ),
        config.master.call@.len() > 0 && config.master.auth@.len() == 0 ==> checked == Err::<
            (),
            BootstrapError,
        >(BootstrapError::NoAuthKey),
        config.master.call@.len() > 0 && config.master.auth@.len() > 0 ==> checked.is_ok(),
{
    if config.master.call.as_str().unicode_len() == 0 {
        Err(BootstrapError::NoCallsign)
    } else if config.master.auth.as_str().unicode_len() == 0 {
        Err(BootstrapError::NoAuthKey)
    } else {
        Ok(())
    }
}

/// The address to sign on at.
pub fn bootstrap_url(config: &Config) -> (address: String)
    ensures
        address@ == spec_url(*config, "_bootstrap"@),
{
    url(config, "_bootstrap")
}

/// The address that heartbeats go to.
pub fn heartbeat_url(config: &Config) -> (address: String)
    ensures
        address@ == spec_url(*config, "_heartbeat"@),
{
    url(config, "_heartbeat")
}

} // verus!
