//! What the transmitter back-ends compute: the bytes, samples and register
//! words that go out to the hardware, and the order of the steps.

pub mod audio;
pub mod c9000;
pub mod dummy;
pub mod ptt;
pub mod raspager;
pub mod rfm69;

use vstd::prelude::*;
use crate::config::Config;
use crate::transmitter::audio::AudioTransmitter;
use crate::transmitter::raspager::pins::RaspagerPins;

verus! {

/// The most significant byte of a codeword first, the least last: the order
/// in which the serial back-ends send it.
pub open spec fn spec_codeword_bytes(word: u32) -> Seq<u8> {
    seq![
        ((word & 0xFF00_0000) >> 24) as u8,
        ((word & 0x00FF_0000) >> 16) as u8,
        ((word & 0x0000_FF00) >> 8) as u8,
        (word & 0x0000_00FF) as u8,
    ]
}

/// The four bytes of a codeword in the order of sending.
pub fn codeword_bytes(word: u32) -> (bytes: [u8; 4])
    ensures
        bytes@ == spec_codeword_bytes(word),
        word == (bytes@[0] as u32) << 24 | (bytes@[1] as u32) << 16 | (bytes@[2] as u32) << 8
            | bytes@[3] as u32,
{
    let b0 = ((word & 0xFF00_0000) >> 24) as u8;
    let b1 = ((word & 0x00FF_0000) >> 16) as u8;
    let b2 = ((word & 0x0000_FF00) >> 8) as u8;
    let b3 = (word & 0x0000_00FF) as u8;
    assert(word == (b0 as u32) << 24 | (b1 as u32) << 16 | (b2 as u32) << 8 | b3 as u32)
        by (bit_vector)
        requires
            b0 == ((word & 0xFF00_0000) >> 24) as u8,
            b1 == ((word & 0x00FF_0000) >> 16) as u8,
            b2 == ((word & 0x0000_FF00) >> 8) as u8,
            b3 == (word & 0x0000_00FF) as u8,
    ;
    let bytes = [b0, b1, b2, b3];
    assert(bytes@ =~= spec_codeword_bytes(word));
    bytes
}

/// Bit `i` of a codeword in the order of sending, the highest bit first.
pub open spec fn spec_air_bit(word: u32, i: int) -> bool {
    word & (1u32 << ((31 - i) as u32)) != 0
}

/// Bit `i` of a codeword in the order of sending.
pub fn air_bit(word: u32, i: u32) -> (bit: bool)
    requires
        i < 32,
    ensures
        bit == spec_air_bit(word, i as int),
{
    (word & (1u32 << (31 - i))) != 0
}

/// The back-end that the settings ask for, with what it needs to start.
pub enum Backend {
    Dummy,
    Audio(AudioTransmitter),
    Raspager(RaspagerPins),
    C9000,
    RFM69(String),
}

/// Chooses the back-end by the settings. The audio back-end needs a baud
/// rate other than zero.
pub fn from_config(config: &Config) -> (backend: Backend)
    requires
        config.transmitter == crate::config::Transmitter::Audio ==> config.audio.baudrate != 0,
    ensures
        match config.transmitter {
            crate::config::Transmitter::Dummy => backend is Dummy,
            crate::config::Transmitter::Audio => backend matches Backend::Audio(audio)
                && audio.is_for(config.audio),
            crate::config::Transmitter::Raspager => backend == Backend::Raspager(
                RaspagerPins::spec_raspager1(),
            ),
            crate::config::Transmitter::Raspager2 => backend == Backend::Raspager(
                RaspagerPins { le: 9, ..RaspagerPins::spec_raspager1() },
            ),
            crate::config::Transmitter::C9000 => backend is C9000,
            crate::config::Transmitter::RFM69 => backend matches Backend::RFM69(port) && port
                == config.rfm69.port,
        },
{
    match config.transmitter {
        crate::config::Transmitter::Dummy => Backend::Dummy,
        crate::config::Transmitter::Audio => Backend::Audio(AudioTransmitter::new(config)),
        crate::config::Transmitter::Raspager => Backend::Raspager(RaspagerPins::raspager1()),
        crate::config::Transmitter::Raspager2 => Backend::Raspager(RaspagerPins::raspager2()),
        crate::config::Transmitter::C9000 => Backend::C9000,
        crate::config::Transmitter::RFM69 => Backend::RFM69(config.rfm69.port.clone()),
    }
}

} // verus!
