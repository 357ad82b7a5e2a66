//! The audio back-end: each bit becomes a run of equal samples of eight-bit
//! sound, low for a one and high for a zero unless the signal is inverted.

use vstd::prelude::*;
use crate::config::{AudioConfig, Config};
use crate::transmitter::{air_bit, spec_air_bit};

verus! {

/// Samples in a second of sound.
pub const SAMPLE_RATE: usize = 48000;

/// The settings of the audio back-end as it works with them.
#[derive(Debug, Clone)]
pub struct AudioTransmitter {
    pub device: String,
    pub inverted: bool,
    pub level: u8,
    pub tx_delay: usize,
    pub samples_per_bit: usize,
}

/// The sample value of a bit: a set bit is low and a cleared bit is high,
/// and the other way round where the signal is inverted.
pub open spec fn spec_sample(bit: bool, inverted: bool, level: u8) -> u8 {
    if bit != inverted {
        (127 - level) as u8
    } else {
        (128 + level) as u8
    }
}

/// The samples of one codeword, the highest bit first.
pub open spec fn spec_word_samples(
    word: u32,
    inverted: bool,
    level: u8,
    samples_per_bit: nat,
) -> Seq<u8> {
    Seq::new(
        32 * samples_per_bit,
        |k: int| spec_sample(spec_air_bit(word, k / (samples_per_bit as int)), inverted, level),
    )
}

/// A run of `sample_size` samples of one value.
pub fn create_bit_sample(sample_size: usize, constant_value: u8) -> (bit_sample: Vec<u8>)
    ensures
        bit_sample@ == Seq::new(sample_size as nat, |i: int| constant_value),
{
    let mut bit_sample: Vec<u8> = Vec::new();
    let mut s: usize = 0;
    while s < sample_size
        invariant
            s <= sample_size,
            bit_sample@ == Seq::new(s as nat, |i: int| constant_value),
        decreases sample_size - s,
    {
        bit_sample.push(constant_value);
        assert(bit_sample@ =~= Seq::new((s + 1) as nat, |i: int| constant_value));
        s += 1;
    }
    bit_sample
}

impl AudioTransmitter {
    /// The back-end is set up as the settings say: the device is the
    /// default one where none is named, the level goes up to 127, and a bit
    /// takes as many samples as the sample rate holds of the baud rate.
    pub open spec fn is_for(self, config: AudioConfig) -> bool {
        &&& self.device@ == if config.device@.len() == 0 {
            "default"@
        } else {
            config.device@
        }
        &&& self.inverted == config.inverted
        &&& self.level == if config.level > 127 {
            127u8
        } else {
            config.level
        }
        &&& self.tx_delay == config.tx_delay
        &&& self.samples_per_bit == SAMPLE_RATE / config.baudrate
    }

    /// Sets the back-end up by the settings, which must name a baud rate
    /// other than zero.
    pub fn new(config: &Config) -> (transmitter: AudioTransmitter)
        requires
            config.audio.baudrate != 0,
        ensures
            transmitter.is_for(config.audio),
            transmitter.level <= 127,
    {
        let device = if config.audio.device.as_str().unicode_len() == 0 {
            "default".to_owned()
        } else {
            config.audio.device.clone()
        };
        let level = if config.audio.level > 127 {
            127
        } else {
            config.audio.level
        };
        AudioTransmitter {
            device,
            inverted: config.audio.inverted,
            level,
            tx_delay: config.audio.tx_delay,
            samples_per_bit: SAMPLE_RATE / config.audio.baudrate,
        }
    }

    /// The sample value of a set bit, before inversion.
    pub fn low_level(&self) -> (value: u8)
        requires
            self.level <= 127,
        ensures
            value == 127 - self.level,
    {
        127 - self.level
    }

    /// The sample value of a cleared bit, before inversion.
    pub fn high_level(&self) -> (value: u8)
        requires
            self.level <= 127,
        ensures
            value == 128 + self.level,
    {
        128 + self.level
    }

    /// Adds the samples of one codeword to the sound.
    pub fn render(&self, buffer: &mut Vec<u8>, word: u32)
        requires
            self.level <= 127,
        ensures
            final(buffer)@ == old(buffer)@ + spec_word_samples(
                word,
                self.inverted,
                self.level,
                self.samples_per_bit as nat,
            ),
    {
        let low = self.low_level();
        let high = self.high_level();
        let ghost start = buffer@;
        let per_bit = self.samples_per_bit;
        let mut i: u32 = 0;
        while i < 32
            invariant
                i <= 32,
                per_bit == self.samples_per_bit,
                low == 127 - self.level,
                high == 128 + self.level,
                self.level <= 127,
                buffer@.len() == start.len() + i * per_bit,
                forall|k: int| 0 <= k < start.len() ==> buffer@[k] == start[k],
                forall|k: int|
                    0 <= k < i * per_bit ==> #[trigger] buffer@[start.len() + k] == spec_sample(
                        spec_air_bit(word, k / (per_bit as int)),
                        self.inverted,
                        self.level,
                    ),
            decreases 32 - i,
        {
            let bit = air_bit(word, i);
            let value = if (!self.inverted && bit) || (self.inverted && !bit) {
                low
            } else {
                high
            };
            let mut s: usize = 0;
            while s < per_bit
                invariant
                    s <= per_bit,
                    i < 32,
                    per_bit == self.samples_per_bit,
                    value == spec_sample(spec_air_bit(word, i as int), self.inverted, self.level),
                    buffer@.len() == start.len() + i * per_bit + s,
                    forall|k: int| 0 <= k < start.len() ==> buffer@[k] == start[k],
                    forall|k: int|
                        0 <= k < i * per_bit + s ==> #[trigger] buffer@[start.len() + k]
                            == spec_sample(
                            spec_air_bit(word, k / (per_bit as int)),
                            self.inverted,
                            self.level,
                        ),
                decreases per_bit - s,
            {
                let ghost before = buffer@;
                buffer.push(value);
                proof {
                    assert forall|k: int| 0 <= k < i * per_bit + s + 1 implies #[trigger] buffer@[start.len()
                        + k] == spec_sample(
                        spec_air_bit(word, k / (per_bit as int)),
                        self.inverted,
                        self.level,
                    ) by {
                        if k == i * per_bit + s {
                            assert(k / (per_bit as int) == i) by (nonlinear_arith)
                                requires
                                    k == i * per_bit + s,
                                    0 <= s < per_bit,
                                    0 <= i,
                            ;
                        } else {
                            assert(buffer@[start.len() + k] == before[start.len() + k]);
                        }
                    }
                }
                s += 1;
            }
            proof {
                assert(i * per_bit + per_bit == (i + 1) * per_bit) by (nonlinear_arith);
            }
            i += 1;
        }
        proof {
            let samples = spec_word_samples(
                word,
                self.inverted,
                self.level,
                self.samples_per_bit as nat,
            );
            let whole = start + samples;
            assert(buffer@.len() == whole.len());
            assert forall|j: int| 0 <= j < whole.len() implies buffer@[j] == whole[j] by {
                if j >= start.len() {
                    let k = j - start.len();
                    assert(buffer@[start.len() + k] == samples[k]);
                }
            }
            assert(buffer@ =~= whole);
        }
    }
}

} // verus!
