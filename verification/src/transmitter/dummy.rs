//! The back-end without hardware: it only takes the time that a
//! transmission would take.

use vstd::prelude::*;

verus! {

/// Stands in for a transmitter.
#[derive(Debug, Clone, Copy)]
pub struct DummyTransmitter {
    count: u64,
}

impl View for DummyTransmitter {
    type V = nat;

    /// Codewords taken in the running transmission.
    closed spec fn view(&self) -> nat {
        self.count as nat
    }
}

/// Milliseconds that a transmission of `count` codewords occupies the
/// back-end: three for each codeword and fifty on top.
pub open spec fn spec_air_time(count: nat) -> nat {
    count * 3 + 50
}

impl DummyTransmitter {
    pub fn new() -> (transmitter: DummyTransmitter)
        ensures
            transmitter@ == 0,
    {
        DummyTransmitter { count: 0 }
    }

    /// Takes one codeword. The count stops at the largest number that it
    /// holds.
    pub fn take(&mut self, word: u32)
        ensures
            final(self)@ == if old(self)@ < u64::MAX {
                old(self)@ + 1
            } else {
                old(self)@
            },
    {
        self.count = self.count.saturating_add(1);
    }

    /// Ends the transmission: gives the milliseconds to sleep for it, or
    /// the largest number of them that fits, and starts the count anew.
    pub fn finish(&mut self) -> (millis: u64)
        ensures
            final(self)@ == 0,
            millis == spec_air_time(old(self)@) || (millis == u64::MAX && spec_air_time(old(self)@)
                > u64::MAX),
    {
        let count = self.count;
        self.count = 0;
        if count <= (u64::MAX - 50) / 3 {
            count * 3 + 50
        } else {
            u64::MAX
        }
    }
}

} // verus!
