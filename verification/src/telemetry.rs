//! The record of the node's condition that is shown to the outside. Each
//! update says whether it changed the record, so that only changes are
//! published.

use vstd::prelude::*;
use crate::clock::Timestamp;
use crate::pocsag::timeslots::TimeSlots;
use crate::queue::{Queue, NUM_PRIORITIES};

verus! {

/// Seconds between two publications of the whole record.
pub const FULL_UPDATE_INTERVAL: u64 = 30;

/// The name under which the software reports itself.
pub const SOFTWARE_NAME: &'static str = "UniPager";

/// The version under which the software reports itself.
pub const SOFTWARE_VERSION: &'static str = "0.1.0";

/// The connection to the network node.
#[derive(Debug, Clone)]
pub struct Node {
    pub name: String,
    pub port: u16,
    pub connected: bool,
    pub connected_since: Option<Timestamp>,
}

/// The state of time synchronisation.
#[derive(Debug, Clone)]
pub struct Ntp {
    pub synced: bool,
    pub offset: isize,
    pub servers: Vec<String>,
}

/// Messages waiting and messages sent, by priority.
#[derive(Debug, Clone, Copy)]
pub struct Messages {
    pub queued: [usize; NUM_PRIORITIES],
    pub sent: [usize; NUM_PRIORITIES],
}

#[derive(Debug, Clone)]
pub struct TransmitterSoftware {
    pub name: String,
    pub version: String,
}

/// What the node was configured with.
#[derive(Debug, Clone)]
pub struct Config {
    pub timeslots: [bool; 16],
    pub software: TransmitterSoftware,
}

#[derive(Debug, Clone)]
pub struct Hardware {
    pub platform: String,
}

/// The whole record.
#[derive(Debug, Clone)]
pub struct Telemetry {
    pub onair: bool,
    pub timeslots: TimeSlots,
    pub node: Node,
    pub ntp: Ntp,
    pub messages: Messages,
    pub config: Config,
    pub hardware: Hardware,
}

impl Default for Node {
    fn default() -> (node: Node)
        ensures
            node.name@ == Seq::<char>::empty(),
            node.port == 0,
            !node.connected,
            node.connected_since.is_none(),
    {
        Node { name: String::new(), port: 0, connected: false, connected_since: None }
    }
}

impl Default for Ntp {
    fn default() -> (ntp: Ntp)
        ensures
            !ntp.synced,
            ntp.offset == 0,
            ntp.servers.len() == 0,
    {
        Ntp { synced: false, offset: 0, servers: Vec::new() }
    }
}

impl Default for Messages {
    fn default() -> (messages: Messages)
        ensures
            forall|p: int| 0 <= p < NUM_PRIORITIES ==> messages.queued@[p] == 0,
            forall|p: int| 0 <= p < NUM_PRIORITIES ==> messages.sent@[p] == 0,
    {
        Messages { queued: [0; NUM_PRIORITIES], sent: [0; NUM_PRIORITIES] }
    }
}

impl Default for TransmitterSoftware {
    fn default() -> (software: TransmitterSoftware)
        ensures
            software.name@ == SOFTWARE_NAME@,
            software.version@ == SOFTWARE_VERSION@,
    {
        TransmitterSoftware { name: SOFTWARE_NAME.to_owned(), version: SOFTWARE_VERSION.to_owned() }
    }
}

impl Default for Config {
    fn default() -> (config: Config)
        ensures
            forall|i: int| 0 <= i < 16 ==> !config.timeslots@[i],
            config.software.name@ == SOFTWARE_NAME@,
            config.software.version@ == SOFTWARE_VERSION@,
    {
        Config { timeslots: [false; 16], software: TransmitterSoftware::default() }
    }
}

impl Default for Hardware {
    fn default() -> (hardware: Hardware)
        ensures
            hardware.platform@ == Seq::<char>::empty(),
    {
        Hardware { platform: String::new() }
    }
}

impl Telemetry {
    /// The record of a node that has just started: off the air, without
    /// slots, node, time servers or messages, and with the name and the
    /// version of the software.
    pub open spec fn is_default(self) -> bool {
        &&& !self.onair
        &&& forall|i: int| 0 <= i < 16 ==> !self.timeslots@[i]
        &&& self.node.name@ == Seq::<char>::empty()
        &&& self.node.port == 0
        &&& !self.node.connected
        &&& self.node.connected_since.is_none()
        &&& !self.ntp.synced
        &&& self.ntp.offset == 0
        &&& self.ntp.servers.len() == 0
        &&& forall|p: int| 0 <= p < NUM_PRIORITIES ==> self.messages.queued@[p] == 0
        &&& forall|p: int| 0 <= p < NUM_PRIORITIES ==> self.messages.sent@[p] == 0
        &&& forall|i: int| 0 <= i < 16 ==> !self.config.timeslots@[i]
        &&& self.config.software.name@ == SOFTWARE_NAME@
        &&& self.config.software.version@ == SOFTWARE_VERSION@
        &&& self.hardware.platform@ == Seq::<char>::empty()
    }
}

impl Default for Telemetry {
    fn default() -> (telemetry: Telemetry)
        ensures
            telemetry.is_default(),
    {
        Telemetry {
            onair: false,
            timeslots: TimeSlots::new(),
            node: Node::default(),
            ntp: Ntp::default(),
            messages: Messages::default(),
            config: Config::default(),
            hardware: Hardware::default(),
        }
    }
}

impl Messages {
    /// Whether two records hold the same numbers.
    pub fn same_as(&self, other: &Messages) -> (same: bool)
        ensures
            same == (self.queued@ == other.queued@ && self.sent@ == other.sent@),
    {
        let mut p: usize = 0;
        while p < NUM_PRIORITIES
            invariant
                p <= NUM_PRIORITIES,
                forall|l: int| 0 <= l < p ==> self.queued@[l] == other.queued@[l],
                forall|l: int| 0 <= l < p ==> self.sent@[l] == other.sent@[l],
            decreases NUM_PRIORITIES - p,
        {
            if self.queued[p] != other.queued[p] || self.sent[p] != other.sent[p] {
                return false;
            }
            p += 1;
        }
        assert(self.queued@ =~= other.queued@);
        assert(self.sent@ =~= other.sent@);
        true
    }
}

/// Whether two sets of slots are the same.
pub fn same_slots(a: &TimeSlots, b: &TimeSlots) -> (same: bool)
    ensures
        same == (a@ == b@),
{
    let mut i: usize = 0;
    while i < 16
        invariant
            i <= 16,
            forall|k: int| 0 <= k < i ==> a@[k] == b@[k],
        decreases 16 - i,
    {
        if a.0[i] != b.0[i] {
            return false;
        }
        i += 1;
    }
    assert(a@ =~= b@);
    true
}

impl Telemetry {
    /// Records whether the transmitter is on the air. Says whether that
    /// changed the record.
    pub fn set_onair(&mut self, onair: bool) -> (changed: bool)
        ensures
            changed == (old(self).onair != onair),
            *final(self) == (Telemetry { onair, ..*old(self) }),
    {
        let changed = self.onair != onair;
        self.onair = onair;
        changed
    }

    /// Records the set of allowed slots. Says whether that changed the
    /// record.
    pub fn set_timeslots(&mut self, slots: TimeSlots) -> (changed: bool)
        ensures
            changed == (old(self).timeslots@ != slots@),
            *final(self) == (Telemetry { timeslots: slots, ..*old(self) }),
    {
        let changed = !same_slots(&self.timeslots, &slots);
        self.timeslots = slots;
        changed
    }

    /// Records the numbers of the queue. Says whether that changed the
    /// record.
    pub fn update_messages(&mut self, queue: &Queue) -> (changed: bool)
        requires
            queue@.wf(),
        ensures
            forall|p: int|
                0 <= p < NUM_PRIORITIES ==> #[trigger] final(self).messages.queued@[p]
                    == queue@.lines[p].len(),
            final(self).messages.sent@ == queue@.sent,
            changed == (old(self).messages.queued@ != final(self).messages.queued@ || old(
                self,
            ).messages.sent@ != final(self).messages.sent@),
            final(self).onair == old(self).onair,
            final(self).timeslots == old(self).timeslots,
    {
        let before = self.messages;
        let mut messages = self.messages;
        queue.telemetry_update(&mut messages);
        self.messages = messages;
        !before.same_as(&messages)
    }

    /// Records the node that the transmitter turns to, not yet connected.
    /// Says whether that changed the record.
    pub fn set_node(&mut self, name: String, port: u16) -> (changed: bool)
        ensures
            final(self).node.name == name,
            final(self).node.port == port,
            !final(self).node.connected,
            final(self).node.connected_since.is_none(),
            changed == (old(self).node.name@ != name@ || old(self).node.port != port || old(
                self,
            ).node.connected || old(self).node.connected_since.is_some()),
            final(self).onair == old(self).onair,
            final(self).timeslots == old(self).timeslots,
            final(self).messages == old(self).messages,
    {
        let changed = self.node.name != name || self.node.port != port || self.node.connected
            || self.node.connected_since.is_some();
        self.node.name = name;
        self.node.port = port;
        self.node.connected = false;
        self.node.connected_since = None;
        changed
    }

    /// Records that the connection to the node stands or is lost, and since
    /// when it stands. Says whether that changed the record.
    pub fn set_connected(&mut self, since: Option<Timestamp>) -> (changed: bool)
        ensures
            final(self).node.connected == since.is_some(),
            final(self).node.connected_since == since,
            final(self).node.name == old(self).node.name,
            final(self).node.port == old(self).node.port,
            changed == (old(self).node.connected != since.is_some() || old(
                self,
            ).node.connected_since != since),
            final(self).onair == old(self).onair,
            final(self).timeslots == old(self).timeslots,
            final(self).messages == old(self).messages,
    {
        let same_time = match (self.node.connected_since, since) {
            (Some(a), Some(b)) => a.secs == b.secs && a.nanos == b.nanos,
            (None, None) => true,
            _ => false,
        };
        let changed = self.node.connected != since.is_some() || !same_time;
        self.node.connected = since.is_some();
        self.node.connected_since = since;
        changed
    }
}

} // verus!
