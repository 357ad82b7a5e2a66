//! The GPIO lines of the two revisions of the RasPager board.

use vstd::prelude::*;

verus! {

/// The board's lines by their GPIO pin numbers.
#[derive(Debug, Clone, Copy, PartialEq, Eq, Structural)]
pub struct RaspagerPins {
    pub le: usize,
    pub ce: usize,
    pub clk: usize,
    pub sdata: usize,
    pub muxout: usize,
    pub atclk: usize,
    pub atdata: usize,
    pub handshake: usize,
    pub ptt: usize,
}

impl RaspagerPins {
    /// The lines of the first board revision.
    pub fn raspager1() -> (pins: RaspagerPins)
        ensures
            pins == (RaspagerPins {
                le: 0,
                ce: 7,
                clk: 3,
                sdata: 2,
                muxout: 13,
                atclk: 11,
                atdata: 10,
                handshake: 5,
                ptt: 4,
            }),
    {
        RaspagerPins {
            le: 0,
            ce: 7,
            clk: 3,
            sdata: 2,
            muxout: 13,
            atclk: 11,
            atdata: 10,
            handshake: 5,
            ptt: 4,
        }
    }

    /// The lines of the second board revision: as the first, but for the
    /// latch line.
    pub fn raspager2() -> (pins: RaspagerPins)
        ensures
            pins == (RaspagerPins { le: 9, ..RaspagerPins::spec_raspager1() }),
    {
        RaspagerPins {
            le: 9,
            ce: 7,
            clk: 3,
            sdata: 2,
            muxout: 13,
            atclk: 11,
            atdata: 10,
            handshake: 5,
            ptt: 4,
        }
    }

    pub open spec fn spec_raspager1() -> RaspagerPins {
        RaspagerPins {
            le: 0,
            ce: 7,
            clk: 3,
            sdata: 2,
            muxout: 13,
            atclk: 11,
            atdata: 10,
            handshake: 5,
            ptt: 4,
        }
    }
}

} // verus!
