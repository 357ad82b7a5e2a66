//! The events that pass between the parts of the node, and who gets which.

use vstd::prelude::*;
use crate::config::Config;
use crate::message::Message;
use crate::pocsag::timeslots::{TimeSlot, TimeSlots};
use crate::telemetry::Telemetry;

verus! {

/// The parts of the node that take events.
#[derive(Clone, Copy, Debug, PartialEq, Eq, Structural)]
pub enum Subscriber {
    Connection,
    Scheduler,
    Websocket,
    Main,
}

/// What can happen.
#[derive(Clone, Debug)]
pub enum Event {
    /// The whole telemetry record, published from time to time.
    TelemetryUpdate(Telemetry),
    /// The part of the telemetry record that has changed, as JSON text.
    TelemetryPartialUpdate(String),
    /// The slot that has begun.
    Timeslot(TimeSlot),
    /// The network has assigned a new set of slots.
    TimeslotsUpdate(TimeSlots),
    /// The settings were changed.
    ConfigUpdate(Config),
    /// A message came in.
    MessageReceived(Message),
    /// A part of the node asks for the events that are meant for it.
    Register(Subscriber),
    /// A line for the log, with its level.
    Log(u8, String),
    /// A test transmission was asked for.
    Test,
    Restart,
    Shutdown,
}

/// The subscribers that an event goes to.
#[derive(Clone, Copy, Debug, PartialEq, Eq, Structural)]
pub struct Routes {
    pub connection: bool,
    pub scheduler: bool,
    pub websocket: bool,
    pub main: bool,
}

impl Routes {
    pub open spec fn spec_none() -> Routes {
        Routes { connection: false, scheduler: false, websocket: false, main: false }
    }

    /// Whether the event goes to the subscriber.
    pub open spec fn spec_reaches(self, subscriber: Subscriber) -> bool {
        match subscriber {
            Subscriber::Connection => self.connection,
            Subscriber::Scheduler => self.scheduler,
            Subscriber::Websocket => self.websocket,
            Subscriber::Main => self.main,
        }
    }

    pub fn reaches(&self, subscriber: Subscriber) -> (b: bool)
        ensures
            b == self.spec_reaches(subscriber),
    {
        match subscriber {
            Subscriber::Connection => self.connection,
            Subscriber::Scheduler => self.scheduler,
            Subscriber::Websocket => self.websocket,
            Subscriber::Main => self.main,
        }
    }
}

/// Who gets an event if all have registered: telemetry goes to the
/// websocket and to the network connection, log lines and slot changes to
/// the websocket, messages to the scheduler and the websocket, new slot sets
/// and test requests to the scheduler, new settings and restarts to the
/// scheduler and the network connection, and the shutdown to these two and
/// to the main task. Registrations go to nobody.
pub open spec fn spec_routes(event: Event) -> Routes {
    match event {
        Event::TelemetryUpdate(_) | Event::TelemetryPartialUpdate(_) => Routes {
            connection: true,
            scheduler: false,
            websocket: true,
            main: false,
        },
        Event::Log(_, _) | Event::Timeslot(_) => Routes {
            connection: false,
            scheduler: false,
            websocket: true,
            main: false,
        },
        Event::MessageReceived(_) => Routes {
            connection: false,
            scheduler: true,
            websocket: true,
            main: false,
        },
        Event::TimeslotsUpdate(_) => Routes {
            connection: false,
            scheduler: true,
            websocket: false,
            main: false,
        },
        Event::Test => Routes {
            connection: false,
            scheduler: true,
            websocket: false,
            main: false,
        },
        Event::ConfigUpdate(_) | Event::Restart => Routes {
            connection: true,
            scheduler: true,
            websocket: false,
            main: false,
        },
        Event::Shutdown => Routes {
            connection: true,
            scheduler: true,
            websocket: false,
            main: true,
        },
        Event::Register(_) => Routes::spec_none(),
    }
}

/// The dispatcher's book of who has registered.
#[derive(Clone, Copy, Debug, PartialEq, Eq, Structural)]
pub struct EventDispatcher {
    pub connection: bool,
    pub scheduler: bool,
    pub websocket: bool,
    pub main: bool,
}

impl Default for EventDispatcher {
    fn default() -> (dispatcher: EventDispatcher)
        ensures
            dispatcher == (EventDispatcher {
                connection: false,
                scheduler: false,
                websocket: false,
                main: false,
            }),
    {
        EventDispatcher { connection: false, scheduler: false, websocket: false, main: false }
    }
}

impl EventDispatcher {
    /// Whether the subscriber has registered.
    pub open spec fn has(self, subscriber: Subscriber) -> bool {
        match subscriber {
            Subscriber::Connection => self.connection,
            Subscriber::Scheduler => self.scheduler,
            Subscriber::Websocket => self.websocket,
            Subscriber::Main => self.main,
        }
    }

    /// The book after an event: a registration enters the subscriber,
    /// nothing else changes it.
    pub open spec fn after(self, event: Event) -> EventDispatcher {
        match event {
            Event::Register(Subscriber::Connection) => EventDispatcher { connection: true, ..self },
            Event::Register(Subscriber::Scheduler) => EventDispatcher { scheduler: true, ..self },
            Event::Register(Subscriber::Websocket) => EventDispatcher { websocket: true, ..self },
            Event::Register(Subscriber::Main) => EventDispatcher { main: true, ..self },
            _ => self,
        }
    }

    /// The subscribers that an event is sent to: those that it is meant for
    /// and that have registered before it came.
    pub open spec fn deliveries(self, event: Event) -> Routes {
        let routes = spec_routes(event);
        Routes {
            connection: routes.connection && self.connection,
            scheduler: routes.scheduler && self.scheduler,
            websocket: routes.websocket && self.websocket,
            main: routes.main && self.main,
        }
    }

    /// Takes an event: enters a registration, and says whom the event is to
    /// be sent to.
    pub fn dispatch(&mut self, event: &Event) -> (routes: Routes)
        ensures
            routes == old(self).deliveries(*event),
            *final(self) == old(self).after(*event),
    {
        match event {
            Event::Register(subscriber) => {
                match subscriber {
                    Subscriber::Connection => {
                        self.connection = true;
                    },
                    Subscriber::Scheduler => {
                        self.scheduler = true;
                    },
                    Subscriber::Websocket => {
                        self.websocket = true;
                    },
                    Subscriber::Main => {
                        self.main = true;
                    },
                }
                Routes { connection: false, scheduler: false, websocket: false, main: false }
            },
            Event::TelemetryUpdate(_) | Event::TelemetryPartialUpdate(_) => Routes {
                connection: self.connection,
                scheduler: false,
                websocket: self.websocket,
                main: false,
            },
            Event::Log(_, _) | Event::Timeslot(_) => Routes {
                connection: false,
                scheduler: false,
                websocket: self.websocket,
                main: false,
            },
            Event::MessageReceived(_) => Routes {
                connection: false,
                scheduler: self.scheduler,
                websocket: self.websocket,
                main: false,
            },
            Event::TimeslotsUpdate(_) => Routes {
                connection: false,
                scheduler: self.scheduler,
                websocket: false,
                main: false,
            },
            Event::Test => Routes {
                connection: false,
                scheduler: self.scheduler,
                websocket: false,
                main: false,
            },
            Event::ConfigUpdate(_) | Event::Restart => Routes {
                connection: self.connection,
                scheduler: self.scheduler,
                websocket: false,
                main: false,
            },
            Event::Shutdown => Routes {
                connection: self.connection,
                scheduler: self.scheduler,
                websocket: false,
                main: self.main,
            },
        }
    }
}

/// Who gets an event if all have registered.
pub fn routes(event: &Event) -> (routes: Routes)
    ensures
        routes == spec_routes(*event),
{
    let mut all = EventDispatcher { connection: true, scheduler: true, websocket: true, main: true };
    all.dispatch(event)
}

} // verus!
