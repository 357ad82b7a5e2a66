//! The RasPager back-end: what is done to the lines of the board to program
//! the synthesiser, to key up with a locked PLL, and to hand the bits of a
//! codeword to the microcontroller.

use vstd::prelude::*;
use crate::config::Config;
use crate::transmitter::raspager::adf7012::{Adf7012Config, MuxOut};
use crate::transmitter::{air_bit, spec_air_bit};

verus! {

/// The lines of the board.
#[derive(Debug, Clone, Copy, PartialEq, Eq, Structural)]
pub enum Line {
    Le,
    Ce,
    Clk,
    Sdata,
    Muxout,
    Atclk,
    Atdata,
    Handshake,
    Ptt,
}

/// One thing done to the board.
#[derive(Debug, Clone, Copy, PartialEq, Eq, Structural)]
pub enum Op {
    /// Drive an output line high or low.
    Drive(Line, bool),
    /// Wait this many microseconds.
    DelayUs(u32),
    /// Wait this many milliseconds.
    DelayMs(u64),
    /// Read an input line again and again, that many microseconds apart,
    /// until it shows the level.
    Await { line: Line, high: bool, poll_us: u32 },
}

/// How far keying up has come.
#[derive(Debug, Clone, Copy, PartialEq, Eq, Structural)]
pub enum Keying {
    /// The transmitter is not keyed.
    Idle,
    /// The registers are written; the chip is to show that it is ready.
    AwaitReady,
    /// The PLL is switched on; the chip is to show that it has locked.
    AwaitLock,
    /// The PLL has locked and the amplifier is on.
    Keyed,
}

/// What keying up needs next.
#[derive(Debug, Clone, Copy, PartialEq, Eq, Structural)]
pub enum Next {
    /// The level of the multiplexed output, for the next step.
    ReadMuxout,
    /// Nothing: the transmitter is keyed.
    Keyed,
    /// Nothing: the chip was not ready, the attempt is over.
    NotReady,
    /// Nothing: the PLL did not lock in the whole sweep, the transmitter is
    /// unkeyed again and the attempt is over.
    LockFailed,
}

/// Attempts to key up before a transmission is given up.
pub const KEY_UP_ATTEMPTS: usize = 5;

/// The highest VCO bias of the sweep.
pub const MAX_VCO_BIAS: u8 = 13;

/// The highest VCO adjustment of the sweep.
pub const MAX_VCO_ADJUST: u8 = 3;

/// Clocks one bit into the synthesiser.
pub open spec fn clock_in(bit: bool) -> Seq<Op> {
    seq![
        Op::Drive(Line::Sdata, bit),
        Op::DelayUs(10),
        Op::Drive(Line::Clk, true),
        Op::DelayUs(30),
        Op::Drive(Line::Clk, false),
        Op::DelayUs(30),
    ]
}

/// Clocks the `n` highest bits of a register word into the synthesiser, the
/// highest first.
pub open spec fn clock_in_bits(register: u32, n: nat) -> Seq<Op>
    decreases n,
{
    if n == 0 {
        Seq::empty()
    } else {
        clock_in_bits(register, (n - 1) as nat) + clock_in(spec_air_bit(register, n - 1))
    }
}

/// Writes one register of the synthesiser: with the latch line low the 32
/// bits are clocked in, and the latch line going high takes them over.
#[verifier::opaque]
pub open spec fn spec_write_register(register: u32) -> Seq<Op> {
    seq![Op::Drive(Line::Clk, false), Op::DelayUs(2), Op::Drive(Line::Le, false), Op::DelayUs(10)]
        + clock_in_bits(register, 32) + seq![Op::DelayUs(10), Op::Drive(Line::Le, true)]
}

/// Writes the four registers of the synthesiser.
#[verifier::opaque]
pub open spec fn spec_write_config(config: Adf7012Config) -> Seq<Op> {
    spec_write_register(config.spec_r0()) + spec_write_register(config.spec_r1())
        + spec_write_register(config.spec_r2()) + spec_write_register(config.spec_r3())
}

/// Brings the synthesiser into its state after power-up.
pub open spec fn spec_reset() -> Seq<Op> {
    seq![
        Op::Drive(Line::Ce, false),
        Op::Drive(Line::Le, true),
        Op::Drive(Line::Clk, true),
        Op::Drive(Line::Sdata, true),
        Op::DelayMs(5),
        Op::Drive(Line::Ce, true),
        Op::DelayMs(100),
    ]
}

/// Hands one bit to the microcontroller once it has room for it.
pub open spec fn hand_over(bit: bool) -> Seq<Op> {
    seq![
        Op::Await { line: Line::Handshake, high: true, poll_us: 100 },
        Op::Drive(Line::Atdata, bit),
        Op::DelayUs(20),
        Op::Drive(Line::Atclk, true),
        Op::DelayUs(100),
        Op::Drive(Line::Atclk, false),
        Op::DelayUs(50),
    ]
}

/// Hands the `n` highest bits of a codeword to the microcontroller, the
/// highest first.
pub open spec fn hand_over_bits(word: u32, n: nat) -> Seq<Op>
    decreases n,
{
    if n == 0 {
        Seq::empty()
    } else {
        hand_over_bits(word, (n - 1) as nat) + hand_over(spec_air_bit(word, n - 1))
    }
}

/// The settings of the synthesiser with the amplifier off.
pub open spec fn amplifier_off(config: Adf7012Config) -> Adf7012Config {
    Adf7012Config { pa_enable: false, pa_output_level: 0, ..config }
}

/// Unkeys: once the microcontroller has let go of the keying line, the
/// amplifier is switched off and the chip disabled.
#[verifier::opaque]
pub open spec fn spec_ptt_off(config: Adf7012Config) -> Seq<Op> {
    seq![Op::Await { line: Line::Ptt, high: false, poll_us: 100_000 }] + spec_write_config(
        amplifier_off(config),
    ) + seq![Op::DelayMs(100), Op::Drive(Line::Ce, false)]
}

/// The place in the sweep after `(adjust, bias)`: the next bias, and after
/// the highest bias the lowest bias of the next adjustment; nothing after
/// the highest adjustment.
pub open spec fn sweep_next(adjust: u8, bias: u8) -> Option<(u8, u8)> {
    if bias < MAX_VCO_BIAS {
        Some(((adjust as int) as u8, (bias + 1) as u8))
    } else if adjust < MAX_VCO_ADJUST {
        Some(((adjust + 1) as u8, 1u8))
    } else {
        None
    }
}

/// Places that are left in the sweep from `(adjust, bias)` on.
pub open spec fn sweep_left(adjust: u8, bias: u8) -> int {
    let rows = if adjust < MAX_VCO_ADJUST {
        MAX_VCO_ADJUST - adjust
    } else {
        0
    };
    let places = if bias < MAX_VCO_BIAS {
        MAX_VCO_BIAS - bias
    } else {
        0
    };
    rows * 13 + places
}

/// The sweep comes to an end: each step leaves fewer places, and there are
/// 52 at most.
pub proof fn lemma_sweep_ends(adjust: u8, bias: u8)
    ensures
        0 <= sweep_left(adjust, bias) <= 52,
        sweep_next(adjust, bias) matches Some(next) ==> sweep_left(next.0, next.1) < sweep_left(
            adjust,
            bias,
        ),
        sweep_next(adjust, bias).is_none() <==> sweep_left(adjust, bias) == 0,
{
}

/// The state of the back-end.
pub struct RaspagerModel {
    pub config: Adf7012Config,
    /// The output level of the amplifier while the transmitter is keyed.
    pub output_level: u8,
    pub keying: Keying,
    /// The place in the sweep that is tried next.
    pub adjust: u8,
    pub bias: u8,
}

impl RaspagerModel {
    /// Starts keying up: the chip is enabled and programmed with the
    /// amplifier off, and is to show that it is ready.
    pub open spec fn ptt_on(self) -> (RaspagerModel, Seq<Op>) {
        let config = Adf7012Config { muxout: MuxOut::RegReady, ..amplifier_off(self.config) };
        (
            RaspagerModel { config, keying: Keying::AwaitReady, ..self },
            seq![Op::Drive(Line::Ce, true)] + spec_write_config(config) + seq![Op::DelayMs(100)],
        )
    }

    /// The chip has shown whether it is ready: if so its PLL is switched
    /// on and the sweep starts at the settings as they are, and if not the
    /// attempt is over.
    pub open spec fn ready_step(self, muxout: bool) -> (RaspagerModel, Seq<Op>, Next) {
        if muxout {
            let config = Adf7012Config {
                pll_enable: true,
                muxout: MuxOut::DigitalLock,
                ..self.config
            };
            (
                RaspagerModel {
                    config,
                    keying: Keying::AwaitLock,
                    adjust: self.config.vco_adjust,
                    bias: self.config.vco_bias,
                    ..self
                },
                spec_write_config(config) + seq![Op::DelayMs(500)],
                Next::ReadMuxout,
            )
        } else {
            (RaspagerModel { keying: Keying::Idle, ..self }, Seq::empty(), Next::NotReady)
        }
    }

    /// The PLL has locked: the amplifier is switched on at the output level
    /// of the back-end, which counts up to 63.
    pub open spec fn locked_step(self) -> (RaspagerModel, Seq<Op>, Next) {
        let level = if self.output_level > 63 {
            63u8
        } else {
            self.output_level
        };
        let config = Adf7012Config { pa_enable: true, pa_output_level: level, ..self.config };
        (
            RaspagerModel { config, keying: Keying::Keyed, ..self },
            spec_write_config(config) + seq![Op::DelayMs(50)],
            Next::Keyed,
        )
    }

    /// The PLL has not locked: the place of the sweep that is due is tried.
    /// After the last place the attempt is over: the VCO settings go to
    /// zero and the transmitter is unkeyed.
    pub open spec fn unlocked_step(self) -> (RaspagerModel, Seq<Op>, Next) {
        let tried = Adf7012Config { vco_adjust: self.adjust, vco_bias: self.bias, ..self.config };
        let trial = spec_write_config(tried) + seq![Op::DelayMs(500)];
        match sweep_next(self.adjust, self.bias) {
            Some(next) => (
                RaspagerModel { config: tried, adjust: next.0, bias: next.1, ..self },
                trial,
                Next::ReadMuxout,
            ),
            None => {
                let given_up = Adf7012Config { vco_adjust: 0, vco_bias: 0, ..tried };
                (
                    RaspagerModel { config: amplifier_off(given_up), keying: Keying::Idle, ..self },
                    trial + spec_ptt_off(given_up),
                    Next::LockFailed,
                )
            },
        }
    }

    /// Goes on with keying up after the multiplexed output was read.
    pub open spec fn ptt_on_step(self, muxout: bool) -> (RaspagerModel, Seq<Op>, Next) {
        match self.keying {
            Keying::AwaitReady => self.ready_step(muxout),
            Keying::AwaitLock => if muxout {
                self.locked_step()
            } else {
                self.unlocked_step()
            },
            Keying::Idle => (self, Seq::empty(), Next::NotReady),
            Keying::Keyed => (self, Seq::empty(), Next::Keyed),
        }
    }

    /// Unkeys.
    pub open spec fn ptt_off(self) -> (RaspagerModel, Seq<Op>) {
        (
            RaspagerModel { config: amplifier_off(self.config), keying: Keying::Idle, ..self },
            spec_ptt_off(self.config),
        )
    }
}

/// The RasPager back-end.
pub struct RaspagerTransmitter {
    config: Adf7012Config,
    output_level: u8,
    keying: Keying,
    adjust: u8,
    bias: u8,
}

impl View for RaspagerTransmitter {
    type V = RaspagerModel;

    closed spec fn view(&self) -> RaspagerModel {
        RaspagerModel {
            config: self.config,
            output_level: self.output_level,
            keying: self.keying,
            adjust: self.adjust,
            bias: self.bias,
        }
    }
}

/// Adds the steps that write one register of the synthesiser.
pub fn write_register(ops: &mut Vec<Op>, register: u32)
    ensures
        final(ops)@ == old(ops)@ + spec_write_register(register),
{
    let ghost start = ops@;
    ops.push(Op::Drive(Line::Clk, false));
    ops.push(Op::DelayUs(2));
    ops.push(Op::Drive(Line::Le, false));
    ops.push(Op::DelayUs(10));
    let ghost head = ops@;
    assert(head =~= start + seq![
        Op::Drive(Line::Clk, false),
        Op::DelayUs(2),
        Op::Drive(Line::Le, false),
        Op::DelayUs(10),
    ]);
    let mut i: u32 = 0;
    while i < 32
        invariant
            i <= 32,
            ops@ == head + clock_in_bits(register, i as nat),
        decreases 32 - i,
    {
        let bit = air_bit(register, i);
        let ghost before = ops@;
        ops.push(Op::Drive(Line::Sdata, bit));
        ops.push(Op::DelayUs(10));
        ops.push(Op::Drive(Line::Clk, true));
        ops.push(Op::DelayUs(30));
        ops.push(Op::Drive(Line::Clk, false));
        ops.push(Op::DelayUs(30));
        assert(ops@ =~= before + clock_in(bit));
        assert(ops@ =~= head + clock_in_bits(register, (i + 1) as nat));
        i += 1;
    }
    let ghost body = ops@;
    ops.push(Op::DelayUs(10));
    ops.push(Op::Drive(Line::Le, true));
    assert(ops@ =~= body + seq![Op::DelayUs(10), Op::Drive(Line::Le, true)]);
    assert(ops@ =~= start + spec_write_register(register)) by {
        reveal(spec_write_register);
    }
}

/// Adds the steps that write the four registers of the synthesiser.
pub fn write_config(ops: &mut Vec<Op>, config: &Adf7012Config)
    ensures
        final(ops)@ == old(ops)@ + spec_write_config(*config),
{
    let ghost start = ops@;
    write_register(ops, config.r0());
    write_register(ops, config.r1());
    write_register(ops, config.r2());
    write_register(ops, config.r3());
    assert(ops@ =~= start + spec_write_config(*config)) by {
        reveal(spec_write_config);
    }
}

/// Adds the steps that bring the synthesiser into its state after power-up.
pub fn reset(ops: &mut Vec<Op>)
    ensures
        final(ops)@ == old(ops)@ + spec_reset(),
{
    let ghost start = ops@;
    ops.push(Op::Drive(Line::Ce, false));
    ops.push(Op::Drive(Line::Le, true));
    ops.push(Op::Drive(Line::Clk, true));
    ops.push(Op::Drive(Line::Sdata, true));
    ops.push(Op::DelayMs(5));
    ops.push(Op::Drive(Line::Ce, true));
    ops.push(Op::DelayMs(100));
    assert(ops@ =~= start + spec_reset());
}

/// Adds the steps that hand a codeword to the microcontroller, the highest
/// bit first.
pub fn send_word(ops: &mut Vec<Op>, word: u32)
    ensures
        final(ops)@ == old(ops)@ + hand_over_bits(word, 32),
{
    let ghost start = ops@;
    let mut i: u32 = 0;
    while i < 32
        invariant
            i <= 32,
            ops@ == start + hand_over_bits(word, i as nat),
        decreases 32 - i,
    {
        let bit = air_bit(word, i);
        let ghost before = ops@;
        ops.push(Op::Await { line: Line::Handshake, high: true, poll_us: 100 });
        ops.push(Op::Drive(Line::Atdata, bit));
        ops.push(Op::DelayUs(20));
        ops.push(Op::Drive(Line::Atclk, true));
        ops.push(Op::DelayUs(100));
        ops.push(Op::Drive(Line::Atclk, false));
        ops.push(Op::DelayUs(50));
        assert(ops@ =~= before + hand_over(bit));
        assert(ops@ =~= start + hand_over_bits(word, (i + 1) as nat));
        i += 1;
    }
}

fn unkey(ops: &mut Vec<Op>, config: &mut Adf7012Config)
    ensures
        final(ops)@ == old(ops)@ + spec_ptt_off(*old(config)),
        *final(config) == amplifier_off(*old(config)),
{
    let ghost start = ops@;
    ops.push(Op::Await { line: Line::Ptt, high: false, poll_us: 100_000 });
    config.set_pa_enable(false);
    config.set_pa_output_level(0);
    write_config(ops, config);
    ops.push(Op::DelayMs(100));
    ops.push(Op::Drive(Line::Ce, false));
    assert(ops@ =~= start + spec_ptt_off(*old(config))) by {
        reveal(spec_ptt_off);
    }
}

impl RaspagerTransmitter {
    /// Sets the back-end up by the settings: the steps reset the
    /// synthesiser and program it for the frequency, its correction and the
    /// deviation of the settings.
    pub fn new(config: &Config) -> (made: (RaspagerTransmitter, Vec<Op>))
        ensures
            made.0@ == (RaspagerModel {
                config: Adf7012Config {
                    freq_err_correction: config.raspager.freq_corr,
                    mod_deviation: config.raspager.mod_deviation,
                    ..Adf7012Config::power_up().tuned(config.raspager.freq)
                },
                output_level: config.raspager.pa_output_level,
                keying: Keying::Idle,
                adjust: 2,
                bias: 1,
            }),
            made.1@ == spec_reset() + spec_write_config(made.0@.config),
    {
        let mut ops: Vec<Op> = Vec::new();
        let mut settings = Adf7012Config::new();
        reset(&mut ops);
        settings.set_freq_err_correction(config.raspager.freq_corr);
        settings.set_freq(config.raspager.freq);
        settings.set_mod_deviation(config.raspager.mod_deviation);
        write_config(&mut ops, &settings);
        let transmitter = RaspagerTransmitter {
            config: settings,
            output_level: config.raspager.pa_output_level,
            keying: Keying::Idle,
            adjust: settings.vco_adjust(),
            bias: settings.vco_bias(),
        };
        assert(ops@ =~= spec_reset() + spec_write_config(settings));
        (transmitter, ops)
    }

    /// Starts keying up. The level of the multiplexed output is needed
    /// next, for `ptt_on_step`.
    pub fn ptt_on(&mut self, ops: &mut Vec<Op>)
        ensures
            final(self)@ == old(self)@.ptt_on().0,
            final(ops)@ == old(ops)@ + old(self)@.ptt_on().1,
    {
        let ghost start = ops@;
        ops.push(Op::Drive(Line::Ce, true));
        self.config.set_pa_enable(false);
        self.config.set_pa_output_level(0);
        self.config.set_muxout(MuxOut::RegReady);
        write_config(ops, &self.config);
        ops.push(Op::DelayMs(100));
        self.keying = Keying::AwaitReady;
        assert(ops@ =~= start + old(self)@.ptt_on().1);
    }

    fn ready_step(&mut self, muxout: bool, ops: &mut Vec<Op>) -> (next: Next)
        ensures
            final(self)@ == old(self)@.ready_step(muxout).0,
            final(ops)@ == old(ops)@ + old(self)@.ready_step(muxout).1,
            next == old(self)@.ready_step(muxout).2,
    {
        let ghost start = ops@;
        if muxout {
            self.adjust = self.config.vco_adjust();
            self.bias = self.config.vco_bias();
            self.config.set_pll_enable(true);
            self.config.set_muxout(MuxOut::DigitalLock);
            write_config(ops, &self.config);
            ops.push(Op::DelayMs(500));
            self.keying = Keying::AwaitLock;
            assert(ops@ =~= start + (spec_write_config(self.config) + seq![Op::DelayMs(500)]));
            Next::ReadMuxout
        } else {
            self.keying = Keying::Idle;
            assert(ops@ =~= start + Seq::<Op>::empty());
            Next::NotReady
        }
    }

    fn locked_step(&mut self, ops: &mut Vec<Op>) -> (next: Next)
        ensures
            final(self)@ == old(self)@.locked_step().0,
            final(ops)@ == old(ops)@ + old(self)@.locked_step().1,
            next == old(self)@.locked_step().2,
    {
        let ghost start = ops@;
        self.config.set_pa_enable(true);
        self.config.set_pa_output_level(self.output_level);
        write_config(ops, &self.config);
        ops.push(Op::DelayMs(50));
        self.keying = Keying::Keyed;
        assert(ops@ =~= start + (spec_write_config(self.config) + seq![Op::DelayMs(50)]));
        Next::Keyed
    }

    fn try_place(&mut self, ops: &mut Vec<Op>)
        ensures
            final(self)@ == (RaspagerModel {
                config: Adf7012Config {
                    vco_adjust: old(self)@.adjust,
                    vco_bias: old(self)@.bias,
                    ..old(self)@.config
                },
                ..old(self)@
            }),
            final(ops)@ == old(ops)@ + (spec_write_config(final(self)@.config) + seq![
                Op::DelayMs(500),
            ]),
    {
        let ghost start = ops@;
        self.config.set_vco_adjust(self.adjust);
        self.config.set_vco_bias(self.bias);
        write_config(ops, &self.config);
        ops.push(Op::DelayMs(500));
        assert(ops@ =~= start + (spec_write_config(self.config) + seq![Op::DelayMs(500)]));
    }

    fn end_sweep(&mut self, ops: &mut Vec<Op>)
        ensures
            final(self)@ == (RaspagerModel {
                config: amplifier_off(
                    Adf7012Config { vco_adjust: 0, vco_bias: 0, ..old(self)@.config },
                ),
                keying: Keying::Idle,
                ..old(self)@
            }),
            final(ops)@ == old(ops)@ + spec_ptt_off(
                Adf7012Config { vco_adjust: 0, vco_bias: 0, ..old(self)@.config },
            ),
    {
        self.config.set_vco_adjust(0);
        self.config.set_vco_bias(0);
        unkey(ops, &mut self.config);
        self.keying = Keying::Idle;
    }

    fn unlocked_step(&mut self, ops: &mut Vec<Op>) -> (next: Next)
        ensures
            final(self)@ == old(self)@.unlocked_step().0,
            final(ops)@ == old(ops)@ + old(self)@.unlocked_step().1,
            next == old(self)@.unlocked_step().2,
    {
        let ghost start = ops@;
        self.try_place(ops);
        let ghost trial = spec_write_config(self@.config) + seq![Op::DelayMs(500)];
        if self.bias < MAX_VCO_BIAS {
            self.bias = self.bias + 1;
            Next::ReadMuxout
        } else if self.adjust < MAX_VCO_ADJUST {
            self.bias = 1;
            self.adjust = self.adjust + 1;
            Next::ReadMuxout
        } else {
            let ghost tried = self@.config;
            self.end_sweep(ops);
            assert(ops@ =~= start + (trial + spec_ptt_off(
                Adf7012Config { vco_adjust: 0, vco_bias: 0, ..tried },
            )));
            Next::LockFailed
        }
    }

    /// Goes on with keying up after the multiplexed output was read: a
    /// ready chip gets its PLL switched on, a locked PLL gets the amplifier
    /// switched on, and a PLL that has not locked gets the next place of
    /// the sweep, until the sweep is through.
    pub fn ptt_on_step(&mut self, muxout: bool, ops: &mut Vec<Op>) -> (next: Next)
        ensures
            final(self)@ == old(self)@.ptt_on_step(muxout).0,
            final(ops)@ == old(ops)@ + old(self)@.ptt_on_step(muxout).1,
            next == old(self)@.ptt_on_step(muxout).2,
    {
        match self.keying {
            Keying::AwaitReady => self.ready_step(muxout, ops),
            Keying::AwaitLock => if muxout {
                self.locked_step(ops)
            } else {
                self.unlocked_step(ops)
            },
            Keying::Idle => {
                assert(ops@ =~= ops@ + Seq::<Op>::empty());
                Next::NotReady
            },
            Keying::Keyed => {
                assert(ops@ =~= ops@ + Seq::<Op>::empty());
                Next::Keyed
            },
        }
    }

    /// Unkeys.
    pub fn ptt_off(&mut self, ops: &mut Vec<Op>)
        ensures
            final(self)@ == old(self)@.ptt_off().0,
            final(ops)@ == old(ops)@ + old(self)@.ptt_off().1,
    {
        unkey(ops, &mut self.config);
        self.keying = Keying::Idle;
    }

    /// Ends a transmission: the data line to the microcontroller goes low,
    /// the transmitter is unkeyed, and the back-end rests for a fifth of a
    /// second.
    pub fn finish(&mut self, ops: &mut Vec<Op>)
        ensures
            final(self)@ == old(self)@.ptt_off().0,
            final(ops)@ == old(ops)@ + seq![Op::Drive(Line::Atdata, false)] + old(self)@.ptt_off().1
                + seq![Op::DelayMs(200)],
    {
        let ghost start = ops@;
        ops.push(Op::Drive(Line::Atdata, false));
        self.ptt_off(ops);
        ops.push(Op::DelayMs(200));
        assert(ops@ =~= start + seq![Op::Drive(Line::Atdata, false)] + old(self)@.ptt_off().1 + seq![
            Op::DelayMs(200),
        ]);
    }

    /// Gives a transmission up after the last attempt to key up has failed:
    /// the transmitter is unkeyed, and the back-end rests for a fifth of a
    /// second.
    pub fn give_up(&mut self, ops: &mut Vec<Op>)
        ensures
            final(self)@ == old(self)@.ptt_off().0,
            final(ops)@ == old(ops)@ + old(self)@.ptt_off().1 + seq![Op::DelayMs(200)],
    {
        let ghost start = ops@;
        self.ptt_off(ops);
        ops.push(Op::DelayMs(200));
        assert(ops@ =~= start + old(self)@.ptt_off().1 + seq![Op::DelayMs(200)]);
    }
}

} // verus!
