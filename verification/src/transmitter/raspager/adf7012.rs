//! The four configuration registers of the ADF7012 synthesiser.

use vstd::prelude::*;

verus! {

/// Frequency of the board's crystal in hertz.
pub const XTAL_FREQ: u32 = 4915200;

/// Division of the output frequency.
#[derive(Copy, Clone, Debug, PartialEq, Eq, Structural)]
pub enum OutputDivider {
    Disabled,
    DivideBy2,
    DivideBy4,
    DivideBy8,
}

#[derive(Copy, Clone, Debug, PartialEq, Eq, Structural)]
pub enum Prescaler {
    Scale4_5,
    Scale8_9,
}

#[derive(Copy, Clone, Debug, PartialEq, Eq, Structural)]
pub enum Modulation {
    FSK,
    GFSK,
    ASK,
    OOK,
}

/// What the chip shows on its multiplexed output line.
#[derive(Copy, Clone, Debug, PartialEq, Eq, Structural)]
pub enum MuxOut {
    RegReady,
    DigitalLock,
}

impl OutputDivider {
    /// The two-bit code of the setting; the output is divided by two to the
    /// power of it.
    pub open spec fn spec_code(self) -> u32 {
        match self {
            OutputDivider::Disabled => 0,
            OutputDivider::DivideBy2 => 1,
            OutputDivider::DivideBy4 => 2,
            OutputDivider::DivideBy8 => 3,
        }
    }

    pub fn code(self) -> (c: u32)
        ensures
            c == self.spec_code(),
    {
        match self {
            OutputDivider::Disabled => 0,
            OutputDivider::DivideBy2 => 1,
            OutputDivider::DivideBy4 => 2,
            OutputDivider::DivideBy8 => 3,
        }
    }

    /// The number that the output is divided by.
    pub open spec fn spec_divisor(self) -> u32 {
        match self {
            OutputDivider::Disabled => 1,
            OutputDivider::DivideBy2 => 2,
            OutputDivider::DivideBy4 => 4,
            OutputDivider::DivideBy8 => 8,
        }
    }
}

impl Prescaler {
    pub open spec fn spec_code(self) -> u32 {
        match self {
            Prescaler::Scale4_5 => 0,
            Prescaler::Scale8_9 => 1,
        }
    }

    pub fn code(self) -> (c: u32)
        ensures
            c == self.spec_code(),
    {
        match self {
            Prescaler::Scale4_5 => 0,
            Prescaler::Scale8_9 => 1,
        }
    }
}

impl Modulation {
    pub open spec fn spec_code(self) -> u32 {
        match self {
            Modulation::FSK => 0,
            Modulation::GFSK => 1,
            Modulation::ASK => 2,
            Modulation::OOK => 3,
        }
    }

    pub fn code(self) -> (c: u32)
        ensures
            c == self.spec_code(),
    {
        match self {
            Modulation::FSK => 0,
            Modulation::GFSK => 1,
            Modulation::ASK => 2,
            Modulation::OOK => 3,
        }
    }
}

impl MuxOut {
    pub open spec fn spec_code(self) -> u32 {
        match self {
            MuxOut::RegReady => 3,
            MuxOut::DigitalLock => 4,
        }
    }

    pub fn code(self) -> (c: u32)
        ensures
            c == self.spec_code(),
    {
        match self {
            MuxOut::RegReady => 3,
            MuxOut::DigitalLock => 4,
        }
    }
}

/// One for a set flag, nothing for a cleared one.
pub open spec fn flag(b: bool) -> u32 {
    if b {
        1
    } else {
        0
    }
}

fn flag_bit(b: bool) -> (bit: u32)
    ensures
        bit == flag(b),
{
    if b {
        1
    } else {
        0
    }
}

/// The settings of the chip.
#[derive(Debug, Clone, Copy)]
pub struct Adf7012Config {
    pub output_divider: OutputDivider,
    pub vco_adjust: u8,
    pub clock_out_divider: u8,
    pub xtal_disable: bool,
    pub xtal_doubler: bool,
    pub r_divider: u8,
    pub freq_err_correction: i16,
    pub prescaler: Prescaler,
    pub integer_n: u8,
    pub fractional_n: u16,
    pub index_counter: u8,
    pub gfsk_mod_control: u8,
    pub mod_deviation: u16,
    pub pa_output_level: u8,
    pub gaussian_ook: bool,
    pub mod_control: Modulation,
    pub pa_bias: u8,
    pub vco_bias: u8,
    pub ld_precision: u8,
    pub muxout: MuxOut,
    pub vco_disable: bool,
    pub bleed_down: bool,
    pub bleed_up: bool,
    pub charge_pump: u8,
    pub data_invert: bool,
    pub clkout_enable: bool,
    pub pa_enable: bool,
    pub pll_enable: bool,
}

/// The frequency error correction as the chip takes it. A correction below
/// zero stands as what is missing to 2048, which for corrections down to
/// -1024 is the eleven-bit two's complement; one from zero up stands with
/// its low ten bits.
pub open spec fn spec_freq_err_field(correction: i16) -> int {
    if correction < 0 {
        2048 - (-(correction as int)) % 2048
    } else {
        (correction as int) % 1024
    }
}

/// The whole and the fractional part, in 4096ths, of the quotient of the
/// output frequency by the comparison frequency.
pub open spec fn spec_divider_ratio(freq: u32, divider: OutputDivider) -> (int, int) {
    let f_pfd = (XTAL_FREQ / divider.spec_divisor()) as int;
    ((freq as int) / f_pfd, ((freq as int) % f_pfd) * 4096 / f_pfd)
}

impl Adf7012Config {
    /// Register 0: output divider, VCO adjust, clock out divider, crystal
    /// disable and doubler, R divider and frequency error correction.
    pub open spec fn spec_r0(&self) -> u32 {
        ((self.output_divider.spec_code() & 0b11) << 25) | ((self.vco_adjust as u32 & 0b11) << 23)
            | ((self.clock_out_divider as u32 & 0b1111) << 19) | (flag(self.xtal_disable) << 18)
            | (flag(self.xtal_doubler) << 17) | ((self.r_divider as u32 & 0b1111) << 13) | ((
        spec_freq_err_field(self.freq_err_correction) as u32 & 0b11111111111) << 2)
    }

    /// Register 1: prescaler and the two parts of the divider ratio.
    pub open spec fn spec_r1(&self) -> u32 {
        1u32 | ((self.prescaler.spec_code() & 0b1) << 22) | ((self.integer_n as u32 & 0b11111111)
            << 14) | ((self.fractional_n as u32 & 0b111111111111) << 2)
    }

    /// Register 2: modulation settings and the output level of the
    /// amplifier.
    pub open spec fn spec_r2(&self) -> u32 {
        2u32 | ((self.index_counter as u32 & 0b11) << 23) | ((self.gfsk_mod_control as u32 & 0b111)
            << 20) | ((self.mod_deviation as u32 & 0b111111111) << 11) | ((self.pa_output_level as u32
            & 0b111111) << 5) | ((flag(self.gaussian_ook) & 0b1) << 4) | ((
        self.mod_control.spec_code() & 0b11) << 2)
    }

    /// Register 3: biases, the multiplexed output and the enable flags.
    pub open spec fn spec_r3(&self) -> u32 {
        3u32 | ((self.pa_bias as u32 & 0b111) << 20) | ((self.vco_bias as u32 & 0b1111) << 16) | ((
        self.ld_precision as u32 & 0b1) << 15) | ((self.muxout.spec_code() & 0b1111) << 11) | ((
        flag(self.vco_disable) & 0b1) << 10) | ((flag(self.bleed_down) & 0b1) << 8) | ((flag(
            self.bleed_up,
        ) & 0b1) << 7) | ((self.charge_pump as u32 & 0b11) << 6) | ((flag(self.data_invert) & 0b1)
            << 5) | ((flag(self.clkout_enable) & 0b1) << 4) | ((flag(self.pa_enable) & 0b1) << 3) | ((
        flag(self.pll_enable) & 0b1) << 2)
    }

    /// The settings after power-up.
    pub open spec fn power_up() -> Adf7012Config {
        Adf7012Config {
            output_divider: OutputDivider::Disabled,
            vco_adjust: 2,
            clock_out_divider: 1,
            xtal_disable: false,
            xtal_doubler: false,
            r_divider: 1,
            freq_err_correction: -47i16,
            prescaler: Prescaler::Scale4_5,
            integer_n: 179,
            fractional_n: 128,
            index_counter: 0,
            gfsk_mod_control: 0,
            mod_deviation: 13,
            pa_output_level: 30,
            gaussian_ook: false,
            mod_control: Modulation::FSK,
            pa_bias: 4,
            vco_bias: 1,
            ld_precision: 1,
            muxout: MuxOut::RegReady,
            vco_disable: false,
            bleed_down: false,
            bleed_up: false,
            charge_pump: 3,
            data_invert: true,
            clkout_enable: false,
            pa_enable: false,
            pll_enable: false,
        }
    }

    /// The settings with the divider ratio for an output frequency.
    pub open spec fn tuned(self, freq: u32) -> Adf7012Config {
        Adf7012Config {
            integer_n: (spec_divider_ratio(freq, self.output_divider).0 % 256) as u8,
            fractional_n: spec_divider_ratio(freq, self.output_divider).1 as u16,
            ..self
        }
    }

    /// The settings after power-up.
    pub fn new() -> (config: Adf7012Config)
        ensures
            config == Adf7012Config::power_up(),
    {
        Adf7012Config {
            output_divider: OutputDivider::Disabled,
            vco_adjust: 2,
            clock_out_divider: 1,
            xtal_disable: false,
            xtal_doubler: false,
            r_divider: 1,
            freq_err_correction: -47,
            prescaler: Prescaler::Scale4_5,
            integer_n: 179,
            fractional_n: 128,
            index_counter: 0,
            gfsk_mod_control: 0,
            mod_deviation: 13,
            pa_output_level: 30,
            gaussian_ook: false,
            mod_control: Modulation::FSK,
            pa_bias: 4,
            vco_bias: 1,
            ld_precision: 1,
            muxout: MuxOut::RegReady,
            vco_disable: false,
            bleed_up: false,
            bleed_down: false,
            charge_pump: 3,
            data_invert: true,
            clkout_enable: false,
            pa_enable: false,
            pll_enable: false,
        }
    }

    /// Sets the divider ratio for the output frequency `freq` in hertz: its
    /// whole part, of which the register holds the low eight bits, and its
    /// fraction in 4096ths.
    pub fn set_freq(&mut self, freq: u32)
        ensures
            *final(self) == old(self).tuned(freq),
            0 <= spec_divider_ratio(freq, old(self).output_divider).1 < 4096,
    {
        let divider: u32 = match self.output_divider {
            OutputDivider::Disabled => 1,
            OutputDivider::DivideBy2 => 2,
            OutputDivider::DivideBy4 => 4,
            OutputDivider::DivideBy8 => 8,
        };
        let f_pfd = XTAL_FREQ / divider;
        let n = freq / f_pfd;
        let rest = (freq % f_pfd) as u64;
        let m = rest * 4096 / (f_pfd as u64);
        assert(m < 4096) by (nonlinear_arith)
            requires
                m == rest * 4096 / (f_pfd as int),
                0 <= rest < f_pfd,
        ;
        self.integer_n = (n % 256) as u8;
        self.fractional_n = m as u16;
    }

    /// Sets the frequency error correction.
    pub fn set_freq_err_correction(&mut self, value: i16)
        ensures
            *final(self) == (Adf7012Config { freq_err_correction: value, ..*old(self) }),
    {
        self.freq_err_correction = value;
    }

    /// The frequency error correction as the chip takes it.
    pub fn freq_err_correction(&self) -> (field: u16)
        ensures
            field == spec_freq_err_field(self.freq_err_correction),
            1 <= field <= 2048 || self.freq_err_correction >= 0,
            field < 1024 || self.freq_err_correction < 0,
    {
        let value = self.freq_err_correction;
        if value < 0 {
            let size = (-(value as i32)) as u16;
            let inverse = !size & 0b11111111111;
            assert(inverse == 2047 - size % 2048) by (bit_vector)
                requires
                    inverse == !size & 0b11111111111u16,
            ;
            let field = inverse + 1;
            field
        } else {
            let low = value as u16 & 0b1111111111;
            assert(low == (value as u16) % 1024) by (bit_vector)
                requires
                    low == value as u16 & 0b1111111111,
            ;
            low
        }
    }

    /// Chooses what the chip shows on its multiplexed output.
    pub fn set_muxout(&mut self, muxout: MuxOut)
        ensures
            *final(self) == (Adf7012Config { muxout, ..*old(self) }),
    {
        self.muxout = muxout;
    }

    pub fn vco_bias(&self) -> (value: u8)
        ensures
            value == self.vco_bias,
    {
        self.vco_bias
    }

    pub fn set_vco_bias(&mut self, value: u8)
        ensures
            *final(self) == (Adf7012Config { vco_bias: value, ..*old(self) }),
    {
        self.vco_bias = value;
    }

    pub fn vco_adjust(&self) -> (value: u8)
        ensures
            value == self.vco_adjust,
    {
        self.vco_adjust
    }

    pub fn set_vco_adjust(&mut self, value: u8)
        ensures
            *final(self) == (Adf7012Config { vco_adjust: value, ..*old(self) }),
    {
        self.vco_adjust = value;
    }

    /// Sets the frequency deviation of the modulation.
    pub fn set_mod_deviation(&mut self, value: u16)
        ensures
            *final(self) == (Adf7012Config { mod_deviation: value, ..*old(self) }),
    {
        self.mod_deviation = value;
    }

    pub fn set_pll_enable(&mut self, value: bool)
        ensures
            *final(self) == (Adf7012Config { pll_enable: value, ..*old(self) }),
    {
        self.pll_enable = value;
    }

    pub fn set_pa_enable(&mut self, value: bool)
        ensures
            *final(self) == (Adf7012Config { pa_enable: value, ..*old(self) }),
    {
        self.pa_enable = value;
    }

    pub fn pa_output_level(&self) -> (value: u8)
        ensures
            value == self.pa_output_level,
    {
        self.pa_output_level
    }

    /// Sets the output level of the amplifier, which goes up to 63; a higher
    /// value counts as 63.
    pub fn set_pa_output_level(&mut self, value: u8)
        ensures
            *final(self) == (Adf7012Config {
                pa_output_level: if value > 63 {
                    63u8
                } else {
                    value
                },
                ..*old(self)
            }),
    {
        if value > 63 {
            self.pa_output_level = 63;
        } else {
            self.pa_output_level = value;
        }
    }

    /// The word for register 0.
    pub fn r0(&self) -> (word: u32)
        ensures
            word == self.spec_r0(),
    {
        ((self.output_divider.code() & 0b11) << 25) | ((self.vco_adjust as u32 & 0b11) << 23) | ((
        self.clock_out_divider as u32 & 0b1111) << 19) | (flag_bit(self.xtal_disable) << 18) | (
        flag_bit(self.xtal_doubler) << 17) | ((self.r_divider as u32 & 0b1111) << 13) | ((
        self.freq_err_correction() as u32 & 0b11111111111) << 2)
    }

    /// The word for register 1.
    pub fn r1(&self) -> (word: u32)
        ensures
            word == self.spec_r1(),
    {
        1u32 | ((self.prescaler.code() & 0b1) << 22) | ((self.integer_n as u32 & 0b11111111) << 14)
            | ((self.fractional_n as u32 & 0b111111111111) << 2)
    }

    /// The word for register 2.
    pub fn r2(&self) -> (word: u32)
        ensures
            word == self.spec_r2(),
    {
        2u32 | ((self.index_counter as u32 & 0b11) << 23) | ((self.gfsk_mod_control as u32 & 0b111)
            << 20) | ((self.mod_deviation as u32 & 0b111111111) << 11) | ((self.pa_output_level as u32
            & 0b111111) << 5) | ((flag_bit(self.gaussian_ook) & 0b1) << 4) | ((
        self.mod_control.code() & 0b11) << 2)
    }

    /// The word for register 3.
    pub fn r3(&self) -> (word: u32)
        ensures
            word == self.spec_r3(),
    {
        3u32 | ((self.pa_bias as u32 & 0b111) << 20) | ((self.vco_bias as u32 & 0b1111) << 16) | ((
        self.ld_precision as u32 & 0b1) << 15) | ((self.muxout.code() & 0b1111) << 11) | ((
        flag_bit(self.vco_disable) & 0b1) << 10) | ((flag_bit(self.bleed_down) & 0b1) << 8) | ((
        flag_bit(self.bleed_up) & 0b1) << 7) | ((self.charge_pump as u32 & 0b11) << 6) | ((
        flag_bit(self.data_invert) & 0b1) << 5) | ((flag_bit(self.clkout_enable) & 0b1) << 4) | ((
        flag_bit(self.pa_enable) & 0b1) << 3) | ((flag_bit(self.pll_enable) & 0b1) << 2)
    }
}

/// Each register word names its register in its two lowest bits, and the
/// settings can be read back from the places that they are written to. Two
/// settings of register 3 share a bit: the charge pump current takes bits
/// 7 and 6, and bleed up takes bit 7 as well.
pub proof fn lemma_register_fields(config: Adf7012Config)
    ensures
        config.spec_r0() & 0b11 == 0,
        (config.spec_r0() >> 25) & 0b11 == config.output_divider.spec_code(),
        (config.spec_r0() >> 23) & 0b11 == config.vco_adjust & 0b11,
        (config.spec_r0() >> 19) & 0b1111 == config.clock_out_divider & 0b1111,
        (config.spec_r0() >> 18) & 0b1 == flag(config.xtal_disable),
        (config.spec_r0() >> 17) & 0b1 == flag(config.xtal_doubler),
        (config.spec_r0() >> 13) & 0b1111 == config.r_divider & 0b1111,
        (config.spec_r0() >> 2) & 0b11111111111 == spec_freq_err_field(config.freq_err_correction)
            as u32 & 0b11111111111,
        config.spec_r1() & 0b11 == 1,
        (config.spec_r1() >> 22) & 0b1 == config.prescaler.spec_code(),
        (config.spec_r1() >> 14) & 0b11111111 == config.integer_n,
        (config.spec_r1() >> 2) & 0b111111111111 == config.fractional_n & 0b111111111111,
        config.spec_r2() & 0b11 == 2,
        (config.spec_r2() >> 23) & 0b11 == config.index_counter & 0b11,
        (config.spec_r2() >> 20) & 0b111 == config.gfsk_mod_control & 0b111,
        (config.spec_r2() >> 11) & 0b111111111 == config.mod_deviation & 0b111111111,
        (config.spec_r2() >> 5) & 0b111111 == config.pa_output_level & 0b111111,
        (config.spec_r2() >> 4) & 0b1 == flag(config.gaussian_ook),
        (config.spec_r2() >> 2) & 0b11 == config.mod_control.spec_code(),
        config.spec_r3() & 0b11 == 3,
        (config.spec_r3() >> 20) & 0b111 == config.pa_bias & 0b111,
        (config.spec_r3() >> 16) & 0b1111 == config.vco_bias & 0b1111,
        (config.spec_r3() >> 15) & 0b1 == config.ld_precision & 0b1,
        (config.spec_r3() >> 11) & 0b1111 == config.muxout.spec_code(),
        (config.spec_r3() >> 10) & 0b1 == flag(config.vco_disable),
        (config.spec_r3() >> 8) & 0b1 == flag(config.bleed_down),
        (config.spec_r3() >> 6) & 0b11 == (config.charge_pump as u32 & 0b11) | (flag(
            config.bleed_up,
        ) << 1),
        (config.spec_r3() >> 5) & 0b1 == flag(config.data_invert),
        (config.spec_r3() >> 4) & 0b1 == flag(config.clkout_enable),
        (config.spec_r3() >> 3) & 0b1 == flag(config.pa_enable),
        (config.spec_r3() >> 2) & 0b1 == flag(config.pll_enable),
{
    let a = config.output_divider.spec_code();
    let b = config.vco_adjust as u32;
    let c = config.clock_out_divider as u32;
    let d = flag(config.xtal_disable);
    let e = flag(config.xtal_doubler);
    let f = config.r_divider as u32;
    let g = spec_freq_err_field(config.freq_err_correction) as u32;
    let r0 = config.spec_r0();
    assert(r0 & 0b11 == 0 && (r0 >> 25) & 0b11 == a && (r0 >> 23) & 0b11 == b & 0b11 && (r0 >> 19)
        & 0b1111 == c & 0b1111 && (r0 >> 18) & 0b1 == d && (r0 >> 17) & 0b1 == e && (r0 >> 13)
        & 0b1111 == f & 0b1111 && (r0 >> 2) & 0b11111111111 == g & 0b11111111111) by (bit_vector)
        requires
            r0 == ((a & 0b11) << 25) | ((b & 0b11) << 23) | ((c & 0b1111) << 19) | (d << 18) | (e
                << 17) | ((f & 0b1111) << 13) | ((g & 0b11111111111) << 2),
            a <= 3,
            d <= 1,
            e <= 1,
    ;
    let a = config.prescaler.spec_code();
    let b = config.integer_n as u32;
    let c = config.fractional_n as u32;
    let r1 = config.spec_r1();
    assert(r1 & 0b11 == 1 && (r1 >> 22) & 0b1 == a && (r1 >> 14) & 0b11111111 == b && (r1 >> 2)
        & 0b111111111111 == c & 0b111111111111) by (bit_vector)
        requires
            r1 == 1u32 | ((a & 0b1) << 22) | ((b & 0b11111111) << 14) | ((c & 0b111111111111) << 2),
            a <= 1,
            b <= 255,
    ;
    let a = config.index_counter as u32;
    let b = config.gfsk_mod_control as u32;
    let c = config.mod_deviation as u32;
    let d = config.pa_output_level as u32;
    let e = flag(config.gaussian_ook);
    let f = config.mod_control.spec_code();
    let r2 = config.spec_r2();
    assert(r2 & 0b11 == 2 && (r2 >> 23) & 0b11 == a & 0b11 && (r2 >> 20) & 0b111 == b & 0b111 && (r2
        >> 11) & 0b111111111 == c & 0b111111111 && (r2 >> 5) & 0b111111 == d & 0b111111 && (r2 >> 4)
        & 0b1 == e && (r2 >> 2) & 0b11 == f) by (bit_vector)
        requires
            r2 == 2u32 | ((a & 0b11) << 23) | ((b & 0b111) << 20) | ((c & 0b111111111) << 11) | ((d
                & 0b111111) << 5) | ((e & 0b1) << 4) | ((f & 0b11) << 2),
            e <= 1,
            f <= 3,
    ;
    let a = config.pa_bias as u32;
    let b = config.vco_bias as u32;
    let c = config.ld_precision as u32;
    let d = config.muxout.spec_code();
    let e = flag(config.vco_disable);
    let f = flag(config.bleed_down);
    let g = flag(config.bleed_up);
    let h = config.charge_pump as u32;
    let i = flag(config.data_invert);
    let j = flag(config.clkout_enable);
    let k = flag(config.pa_enable);
    let l = flag(config.pll_enable);
    let r3 = config.spec_r3();
    assert(r3 & 0b11 == 3 && (r3 >> 20) & 0b111 == a & 0b111 && (r3 >> 16) & 0b1111 == b & 0b1111
        && (r3 >> 15) & 0b1 == c & 0b1 && (r3 >> 11) & 0b1111 == d && (r3 >> 10) & 0b1 == e && (r3
        >> 8) & 0b1 == f && (r3 >> 6) & 0b11 == (h & 0b11) | (g << 1) && (r3 >> 5) & 0b1 == i && (r3
        >> 4) & 0b1 == j && (r3 >> 3) & 0b1 == k && (r3 >> 2) & 0b1 == l) by (bit_vector)
        requires
            r3 == 3u32 | ((a & 0b111) << 20) | ((b & 0b1111) << 16) | ((c & 0b1) << 15) | ((d
                & 0b1111) << 11) | ((e & 0b1) << 10) | ((f & 0b1) << 8) | ((g & 0b1) << 7) | ((h
                & 0b11) << 6) | ((i & 0b1) << 5) | ((j & 0b1) << 4) | ((k & 0b1) << 3) | ((l & 0b1)
                << 2),
            d <= 15,
            e <= 1,
            f <= 1,
            g <= 1,
            i <= 1,
            j <= 1,
            k <= 1,
            l <= 1,
    ;
}

} // verus!
