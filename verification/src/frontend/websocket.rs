//! The control socket: who may ask, and what a request leads to.

use vstd::prelude::*;
use crate::config::Config;
use crate::event::Event;
use crate::frontend::{Request, ResponseKind};

verus! {

/// The TCP port that the control socket listens on.
pub const PORT: u16 = 8055;

/// What a request leads to.
#[derive(Debug, Clone)]
pub enum Reaction {
    /// Tell the client whether it is authenticated.
    Authenticated(bool),
    /// Store the settings and publish the event.
    StoreConfig(Config),
    /// Publish the event.
    Publish(Event),
    /// Answer with the settings, the telemetry record, the running slot or
    /// the version.
    Reply(ResponseKind),
    /// Nothing.
    Ignore,
}

/// One client of the control socket.
#[derive(Debug, Clone)]
pub struct Connection {
    pub password: Option<String>,
    pub auth: bool,
}

impl Connection {
    /// A new client. One that is connected from the machine itself counts
    /// as authenticated from the start.
    pub fn new(password: Option<String>, loopback: bool) -> (connection: Connection)
        ensures
            connection.password == password,
            connection.auth == loopback,
    {
        Connection { password, auth: loopback }
    }

    /// Whether a password authenticates: it is the configured one, or none
    /// is configured.
    pub open spec fn accepts(self, given: String) -> bool {
        match self.password {
            Some(password) => given@ == password@,
            None => true,
        }
    }

    /// Whether the client is authenticated after the request.
    pub open spec fn auth_after(self, request: Request) -> bool {
        match request {
            Request::Authenticate(given) => self.accepts(given),
            _ => self.auth,
        }
    }

    /// What a request of an authenticated client leads to.
    pub open spec fn spec_handle_request(request: Request) -> Reaction {
        match request {
            Request::SetConfig(config) => Reaction::StoreConfig(config),
            Request::DefaultConfig => Reaction::Ignore,
            Request::SendMessage(message) => Reaction::Publish(Event::MessageReceived(message)),
            Request::GetConfig => Reaction::Reply(ResponseKind::Config),
            Request::GetVersion => Reaction::Reply(ResponseKind::Version),
            Request::GetTelemetry => Reaction::Reply(ResponseKind::Telemetry),
            Request::GetTimeslot => Reaction::Reply(ResponseKind::Timeslot),
            Request::Test => Reaction::Publish(Event::Test),
            Request::Restart => Reaction::Publish(Event::Restart),
            Request::Shutdown => Reaction::Publish(Event::Shutdown),
            Request::Authenticate(_) => Reaction::Ignore,
        }
    }

    /// Takes a request. A password is checked and the client told how it
    /// went; anything else is done for an authenticated client, and an
    /// unauthenticated one is told that it is not authenticated.
    pub fn handle(&mut self, request: Request) -> (reaction: Reaction)
        ensures
            final(self).password == old(self).password,
            final(self).auth == old(self).auth_after(request),
            match request {
                Request::Authenticate(given) => reaction matches Reaction::Authenticated(ok) && ok
                    == old(self).accepts(given),
                Request::DefaultConfig => if old(self).auth {
                    (reaction matches Reaction::StoreConfig(config) && config.is_default())
                } else {
                    reaction matches Reaction::Authenticated(ok) && !ok
                },
                _ => if old(self).auth {
                    reaction == Self::spec_handle_request(request)
                } else {
                    reaction matches Reaction::Authenticated(ok) && !ok
                },
            },
    {
        match request {
            Request::Authenticate(given) => {
                let accepted = match &self.password {
                    Some(password) => given == *password,
                    None => true,
                };
                self.auth = accepted;
                Reaction::Authenticated(accepted)
            },
            other => {
                if self.auth {
                    Self::handle_request(other)
                } else {
                    Reaction::Authenticated(false)
                }
            },
        }
    }

    /// What a request of an authenticated client leads to: new settings
    /// are stored and published, a message, a test, a restart and a
    /// shutdown are published, and the questions are answered.
    pub fn handle_request(request: Request) -> (reaction: Reaction)
        ensures
            request is DefaultConfig ==> (reaction matches Reaction::StoreConfig(config)
                && config.is_default()),
            !(request is DefaultConfig) ==> reaction == Self::spec_handle_request(request),
    {
        match request {
            Request::SetConfig(config) => Reaction::StoreConfig(config),
            Request::DefaultConfig => Reaction::StoreConfig(Config::default()),
            Request::SendMessage(message) => Reaction::Publish(Event::MessageReceived(message)),
            Request::GetConfig => Reaction::Reply(ResponseKind::Config),
            Request::GetVersion => Reaction::Reply(ResponseKind::Version),
            Request::GetTelemetry => Reaction::Reply(ResponseKind::Telemetry),
            Request::GetTimeslot => Reaction::Reply(ResponseKind::Timeslot),
            Request::Test => Reaction::Publish(Event::Test),
            Request::Restart => Reaction::Publish(Event::Restart),
            Request::Shutdown => Reaction::Publish(Event::Shutdown),
            Request::Authenticate(_) => Reaction::Ignore,
        }
    }
}

/// The kind of answer that carries an event to the clients, for the events
/// that are shown to them.
pub open spec fn spec_response_kind(event: Event) -> Option<ResponseKind> {
    match event {
        Event::TelemetryUpdate(_) => Some(ResponseKind::Telemetry),
        Event::TelemetryPartialUpdate(_) => Some(ResponseKind::TelemetryUpdate),
        Event::MessageReceived(_) => Some(ResponseKind::Message),
        Event::Timeslot(_) => Some(ResponseKind::Timeslot),
        Event::Log(_, _) => Some(ResponseKind::Log),
        _ => None,
    }
}

/// The kind of answer that carries an event to the clients.
pub fn response_kind(event: &Event) -> (kind: Option<ResponseKind>)
    ensures
        kind == spec_response_kind(*event),
{
    match event {
        Event::TelemetryUpdate(_) => Some(ResponseKind::Telemetry),
        Event::TelemetryPartialUpdate(_) => Some(ResponseKind::TelemetryUpdate),
        Event::MessageReceived(_) => Some(ResponseKind::Message),
        Event::Timeslot(_) => Some(ResponseKind::Timeslot),
        Event::Log(_, _) => Some(ResponseKind::Log),
        _ => None,
    }
}

} // verus!
