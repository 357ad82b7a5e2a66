//! The C9000 back-end: codewords go out over a serial line, and before
//! every fortieth the board must say that its buffer has room.

use vstd::prelude::*;

verus! {

/// Codewords that the board takes between two looks at its buffer line.
pub const FLOW_INTERVAL: usize = 40;

/// Line that resets the board.
pub const RESET_PIN: usize = 0;

/// Line that keys the transmitter.
pub const PTT_PIN: usize = 2;

/// Line on which the board says that its buffer has room.
pub const SEND_PIN: usize = 3;

/// Line of the status light.
pub const STATUS_LED_PIN: usize = 10;

/// Line of the light that shows the connection.
pub const CONNECTED_LED_PIN: usize = 11;

/// Speed of the serial line.
pub const SERIAL_BAUD: u32 = 38400;

/// Keeps count of the codewords of a transmission.
#[derive(Debug, Clone, Copy)]
pub struct C9000Transmitter {
    sent: usize,
}

impl View for C9000Transmitter {
    type V = nat;

    /// Place in the block of forty of the codeword that comes next.
    closed spec fn view(&self) -> nat {
        self.sent as nat
    }
}

impl C9000Transmitter {
    /// The state before the first codeword of a transmission.
    pub fn new() -> (transmitter: C9000Transmitter)
        ensures
            transmitter@ == 0,
    {
        C9000Transmitter { sent: 0 }
    }

    /// Whether the serial line is to be flushed and the buffer line waited
    /// for before the next codeword: before the first codeword and then
    /// before every fortieth.
    pub fn must_wait(&self) -> (wait: bool)
        ensures
            wait == (self@ == 0),
    {
        self.sent == 0
    }

    /// Counts a codeword as sent.
    pub fn advance(&mut self)
        ensures
            final(self)@ == (old(self)@ + 1) % (FLOW_INTERVAL as nat),
    {
        self.sent = (self.sent % FLOW_INTERVAL + 1) % FLOW_INTERVAL;
    }
}

/// The place in the block of forty after `n` codewords of a transmission
/// have been counted.
pub open spec fn place_after(n: nat) -> nat
    decreases n,
{
    if n == 0 {
        0
    } else {
        (place_after((n - 1) as nat) + 1) % (FLOW_INTERVAL as nat)
    }
}

/// The buffer line is waited for before the codewords 0, 40, 80 and so on
/// of a transmission, and before no others.
pub proof fn lemma_wait_every_fortieth(n: nat)
    ensures
        place_after(n) == n % (FLOW_INTERVAL as nat),
        place_after(n) == 0 <==> n % 40 == 0,
    decreases n,
{
    if n > 0 {
        lemma_wait_every_fortieth((n - 1) as nat);
    }
}

} // verus!
