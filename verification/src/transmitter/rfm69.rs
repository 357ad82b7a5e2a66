//! The RFM69 and STM32 back-ends: codewords go out over a serial line, and
//! one byte marks the end of the transmission.

use vstd::prelude::*;

verus! {

/// The byte that ends a transmission.
pub const END_OF_TRANSMISSION: u8 = 0x17;

/// Speed of the serial line.
pub const SERIAL_BAUD: u32 = 38400;

/// The bytes of a whole transmission: the codewords, each with its highest
/// byte first, and the end mark.
pub open spec fn spec_frame(words: Seq<u32>) -> Seq<u8>
    decreases words.len(),
{
    if words.len() == 0 {
        seq![END_OF_TRANSMISSION]
    } else {
        crate::transmitter::spec_codeword_bytes(words[0]) + spec_frame(words.drop_first())
    }
}

/// The bytes of a whole transmission.
pub fn frame(words: &[u32]) -> (bytes: Vec<u8>)
    ensures
        bytes@ == spec_frame(words@),
        bytes.len() == 4 * words.len() + 1,
{
    let mut bytes: Vec<u8> = Vec::new();
    let mut i: usize = 0;
    assert(words@.skip(0) =~= words@);
    while i < words.len()
        invariant
            i <= words.len(),
            bytes.len() == 4 * i,
            bytes@ + spec_frame(words@.skip(i as int)) == spec_frame(words@),
        decreases words.len() - i,
    {
        let four = crate::transmitter::codeword_bytes(words[i]);
        let ghost before = bytes@;
        bytes.push(four[0]);
        bytes.push(four[1]);
        bytes.push(four[2]);
        bytes.push(four[3]);
        proof {
            let rest = words@.skip(i as int);
            assert(rest.drop_first() =~= words@.skip(i + 1));
            assert(bytes@ =~= before + crate::transmitter::spec_codeword_bytes(words[i as int]));
            assert(bytes@ + spec_frame(words@.skip(i + 1)) =~= before + spec_frame(rest));
        }
        i += 1;
    }
    bytes.push(END_OF_TRANSMISSION);
    assert(spec_frame(words@.skip(words.len() as int)) =~= seq![END_OF_TRANSMISSION]);
    bytes
}

} // verus!
