//! The short status record of the node.

use vstd::prelude::*;
use crate::clock::TimeSpan;
use crate::pocsag::timeslots::{slot_at, TimeSlot, TimeSlots};
use crate::telemetry::SOFTWARE_VERSION;

verus! {

/// What the node shows of itself at a glance.
#[derive(Clone, Debug)]
pub struct Status {
    pub connected: bool,
    pub transmitting: bool,
    pub timeslots: TimeSlots,
    pub timeslot: TimeSlot,
    pub queue: usize,
    pub master: Option<String>,
    pub version: String,
    pub calls_tx: usize,
    pub calls_rx: usize,
}

impl Status {
    /// The status of a node that has just started, in the slot that is on
    /// by the system clock.
    pub fn new() -> (status: Status)
        ensures
            !status.connected,
            !status.transmitting,
            forall|i: int| 0 <= i < 16 ==> !status.timeslots@[i],
            exists|now: TimeSpan| status.timeslot.spec_index() == #[trigger] slot_at(now),
            status.queue == 0,
            status.master.is_none(),
            status.version@ == SOFTWARE_VERSION@,
            status.calls_tx == 0,
            status.calls_rx == 0,
    {
        Status {
            connected: false,
            transmitting: false,
            timeslots: TimeSlots::new(),
            timeslot: TimeSlot::current(),
            queue: 0,
            master: None,
            version: SOFTWARE_VERSION.to_owned(),
            calls_rx: 0,
            calls_tx: 0,
        }
    }
}

/// A copy of the status record for a reader.
pub fn get(status: &Status) -> (copy: Status)
    ensures
        copy.connected == status.connected,
        copy.transmitting == status.transmitting,
        copy.timeslots == status.timeslots,
        copy.timeslot == status.timeslot,
        copy.queue == status.queue,
        copy.version == status.version,
        copy.calls_tx == status.calls_tx,
        copy.calls_rx == status.calls_rx,
        copy.master.is_some() == status.master.is_some(),
        copy.master matches Some(name) ==> name == status.master.unwrap(),
{
    let master = match &status.master {
        Some(name) => Some(name.clone()),
        None => None,
    };
    Status {
        connected: status.connected,
        transmitting: status.transmitting,
        timeslots: status.timeslots,
        timeslot: status.timeslot,
        queue: status.queue,
        master,
        version: status.version.clone(),
        calls_tx: status.calls_tx,
        calls_rx: status.calls_rx,
    }
}

} // verus!
