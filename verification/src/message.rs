//! Messages as they come from the network and wait in the queue.

use vstd::prelude::*;
use crate::clock::{utc_now, Timestamp};
use crate::pocsag;
use crate::pocsag::generator::Generator;

verus! {

/// Where the generator gets the messages that follow the first one. It asks
/// with the number of codewords that it has given out so far; the answer is
/// the next message of the transmission, or nothing to end it.
pub trait MessageProvider {
    fn next(&mut self, count: usize) -> Option<Message>;
}

/// The payload of a message, by protocol.
#[derive(Debug, Clone)]
pub enum ProtocolMessage {
    Pocsag(pocsag::message::Message),
}

/// A message with what the queue needs to know of it.
#[derive(Debug, Clone)]
pub struct Message {
    pub id: String,
    pub priority: usize,
    pub origin: String,
    pub expires_on: Option<Timestamp>,
    pub message: ProtocolMessage,
}

impl Message {
    /// The message has an expiry time and `now` has reached it.
    pub open spec fn spec_is_expired_at(&self, now: Timestamp) -> bool {
        match self.expires_on {
            Some(time) => now.spec_at_or_after(time),
            None => false,
        }
    }

    pub fn is_expired_at(&self, now: Timestamp) -> (expired: bool)
        ensures
            expired == self.spec_is_expired_at(now),
    {
        match self.expires_on {
            Some(time) => now.at_or_after(&time),
            None => false,
        }
    }

    /// Whether the message has expired by the system clock. One without an
    /// expiry time never has.
    pub fn is_expired(&self) -> (expired: bool)
        ensures
            exists|now: Timestamp| expired == #[trigger] self.spec_is_expired_at(now),
            self.expires_on.is_none() ==> !expired,
    {
        let now = utc_now();
        self.is_expired_at(now)
    }

    /// The generator that sends this message first.
    pub fn generator(self) -> (generator: Generator)
        ensures
            generator@ == crate::pocsag::generator::GeneratorModel::start(self.message->Pocsag_0),
    {
        match self.message {
            ProtocolMessage::Pocsag(msg) => Generator::new(msg),
        }
    }
}

} // verus!
