//! The link to the message broker: the names that it is set up with, and
//! what the events of the node do to it.

use vstd::prelude::*;
use crate::config::Config;
use crate::event::Event;
use crate::text::{decimal, decimal_text, lower_text, to_lower};

verus! {

/// The TCP port of the message broker.
pub const BROKER_PORT: u16 = 5672;

/// Seconds between two attempts to sign on to the network.
pub const RECONNECT_TIMEOUT: u64 = 10;

/// The exchange that calls come from.
pub const CALLS_EXCHANGE: &'static str = "dapnet.local_calls";

/// The exchange that telemetry goes to.
pub const TELEMETRY_EXCHANGE: &'static str = "dapnet.telemetry";

/// The tag under which calls are consumed.
pub const CONSUMER_TAG: &'static str = "consumer";

/// What an event asks of the link.
#[derive(Debug, Clone, Copy, PartialEq, Eq, Structural)]
pub enum LinkAction {
    /// Nothing.
    Ignore,
    /// Publish the telemetry that the event carries.
    PublishTelemetry,
    /// Close the link because the settings have changed.
    CloseForReconfig,
    /// Close the link for a restart.
    CloseForRestart,
    /// Close the link for good.
    CloseForShutdown,
}

impl LinkAction {
    /// The reason that is given to the broker when the link is closed.
    pub open spec fn spec_reason(self) -> Option<Seq<char>> {
        match self {
            LinkAction::CloseForReconfig => Some("reconfig"@),
            LinkAction::CloseForRestart => Some("restart"@),
            LinkAction::CloseForShutdown => Some("shutdown"@),
            _ => None,
        }
    }

    pub fn reason(self) -> (reason: Option<&'static str>)
        ensures
            match reason {
                Some(text) => self.spec_reason() == Some(text@),
                None => self.spec_reason().is_none(),
            },
    {
        match self {
            LinkAction::CloseForReconfig => Some("reconfig"),
            LinkAction::CloseForRestart => Some("restart"),
            LinkAction::CloseForShutdown => Some("shutdown"),
            _ => None,
        }
    }
}

/// The state of the link.
#[derive(Debug, Clone)]
pub struct CoreConnection {
    pub config: Config,
    pub routing_key: String,
    pub telemetry_routing_key: String,
    pub restart: bool,
}

/// The call sign in lower case: the name of the queue and the routing key
/// of the calls.
pub open spec fn spec_call(config: Config) -> Seq<char> {
    lower_text(config.master.call@)
}

/// The name that the transmitter signs on to the broker with.
pub open spec fn spec_user(config: Config) -> Seq<char> {
    "tx-"@ + spec_call(config)
}

/// The routing key of the telemetry.
pub open spec fn spec_telemetry_key(config: Config) -> Seq<char> {
    "transmitter."@ + spec_call(config)
}

/// The address of the broker with user and key.
pub open spec fn spec_address(config: Config) -> Seq<char> {
    "amqp://"@ + spec_user(config) + ":"@ + config.master.auth@ + "@"@ + config.master.server@
        + ":"@ + decimal_text(BROKER_PORT as nat) + "/%2f"@
}

impl CoreConnection {
    /// The link before it is set up: without routing keys, and to be set
    /// up again whenever it ends.
    pub fn new(config: Config) -> (connection: CoreConnection)
        ensures
            connection.config == config,
            connection.routing_key@.len() == 0,
            connection.telemetry_routing_key@.len() == 0,
            connection.restart,
    {
        CoreConnection {
            config,
            routing_key: String::new(),
            telemetry_routing_key: String::new(),
            restart: true,
        }
    }

    /// The call sign in lower case.
    pub fn call(&self) -> (call: String)
        ensures
            call@ == spec_call(self.config),
    {
        to_lower(self.config.master.call.as_str())
    }

    /// The name that the transmitter signs on to the broker with.
    pub fn user(&self) -> (user: String)
        ensures
            user@ == spec_user(self.config),
    {
        let mut user = "tx-".to_owned();
        let call = self.call();
        user.append(call.as_str());
        user
    }

    /// Sets the routing keys by the call sign and gives the address of the
    /// broker.
    pub fn prepare(&mut self) -> (address: String)
        ensures
            address@ == spec_address(old(self).config),
            final(self).routing_key@ == spec_call(old(self).config),
            final(self).telemetry_routing_key@ == spec_telemetry_key(old(self).config),
            final(self).config == old(self).config,
            final(self).restart == old(self).restart,
    {
        let call = self.call();
        let user = self.user();
        let mut key = "transmitter.".to_owned();
        key.append(call.as_str());
        self.telemetry_routing_key = key;
        self.routing_key = call;
        let mut address = "amqp://".to_owned();
        address.append(user.as_str());
        address.append(":");
        address.append(self.config.master.auth.as_str());
        address.append("@");
        address.append(self.config.master.server.as_str());
        address.append(":");
        let port = decimal(BROKER_PORT as u64);
        address.append(port.as_str());
        address.append("/%2f");
        address
    }

    /// What an event asks of the link.
    pub open spec fn spec_action(event: Event) -> LinkAction {
        match event {
            Event::TelemetryUpdate(_) | Event::TelemetryPartialUpdate(_) => LinkAction::PublishTelemetry,
            Event::ConfigUpdate(_) => LinkAction::CloseForReconfig,
            Event::Restart => LinkAction::CloseForRestart,
            Event::Shutdown => LinkAction::CloseForShutdown,
            _ => LinkAction::Ignore,
        }
    }

    /// Takes an event: new settings are taken over and close the link for
    /// a new start, a restart closes it for a new start, a shutdown closes
    /// it for good, and telemetry is to be published.
    pub fn handle_event(&mut self, event: Event) -> (action: LinkAction)
        ensures
            action == Self::spec_action(event),
            final(self).routing_key == old(self).routing_key,
            final(self).telemetry_routing_key == old(self).telemetry_routing_key,
            final(self).config == match event {
                Event::ConfigUpdate(config) => config,
                _ => old(self).config,
            },
            final(self).restart == match event {
                Event::ConfigUpdate(_) | Event::Restart => true,
                Event::Shutdown => false,
                _ => old(self).restart,
            },
    {
        match event {
            Event::TelemetryUpdate(_) | Event::TelemetryPartialUpdate(_) => LinkAction::PublishTelemetry,
            Event::ConfigUpdate(config) => {
                self.restart = true;
                self.config = config;
                LinkAction::CloseForReconfig
            },
            Event::Restart => {
                self.restart = true;
                LinkAction::CloseForRestart
            },
            Event::Shutdown => {
                self.restart = false;
                LinkAction::CloseForShutdown
            },
            _ => LinkAction::Ignore,
        }
    }
}

} // verus!
