use unipager::transmitter::raspager::adf7012::{
    Adf7012Config, Modulation, MuxOut, OutputDivider, Prescaler, XTAL_FREQ,
};
use unipager::transmitter::raspager::pins::RaspagerPins;

#[test]
pub fn test_freq_err_correction() {
    let mut adf_config = Adf7012Config::new();

    adf_config.set_freq_err_correction(-1024);
    assert_eq!(adf_config.freq_err_correction(), 0b10000000000);

    adf_config.set_freq_err_correction(-1023);
    assert_eq!(adf_config.freq_err_correction(), 0b10000000001);

    adf_config.set_freq_err_correction(-1);
    assert_eq!(adf_config.freq_err_correction(), 0b11111111111);

    adf_config.set_freq_err_correction(0);
    assert_eq!(adf_config.freq_err_correction(), 0);

    adf_config.set_freq_err_correction(1);
    assert_eq!(adf_config.freq_err_correction(), 0b1);

    adf_config.set_freq_err_correction(1023);
    assert_eq!(adf_config.freq_err_correction(), 0b01111111111);
}

#[test]
fn freq_err_correction_out_of_range() {
    let mut config = Adf7012Config::new();
    assert_eq!(config.freq_err_correction(), 2048 - 47);
    config.set_freq_err_correction(1024);
    assert_eq!(config.freq_err_correction(), 0);
    config.set_freq_err_correction(i16::MAX);
    assert_eq!(config.freq_err_correction(), 1023);
    config.set_freq_err_correction(-1025);
    assert_eq!(config.freq_err_correction(), 1023);
    config.set_freq_err_correction(-2048);
    assert_eq!(config.freq_err_correction(), 2048);
    config.set_freq_err_correction(i16::MIN);
    assert_eq!(config.freq_err_correction(), 2048);
}

#[test]
fn registers_after_power_up() {
    let config = Adf7012Config::new();
    assert_eq!(config.r0(), 0x0108_3F44);
    assert_eq!(config.r1(), 0x002C_C201);
    assert_eq!(config.r2(), 0x0000_6BC2);
    assert_eq!(config.r3(), 0x0041_98E3);
    assert_eq!(config.vco_adjust(), 2);
    assert_eq!(config.vco_bias(), 1);
    assert_eq!(config.pa_output_level(), 30);
}

#[test]
fn registers_name_themselves_in_their_low_bits() {
    let config = Adf7012Config::new();
    assert_eq!(config.r0() & 3, 0);
    assert_eq!(config.r1() & 3, 1);
    assert_eq!(config.r2() & 3, 2);
    assert_eq!(config.r3() & 3, 3);
}

#[test]
fn registers_of_a_keyed_transmitter() {
    let mut config = Adf7012Config::new();
    config.set_freq(439_987_500);
    config.set_freq_err_correction(100);
    config.set_muxout(MuxOut::DigitalLock);
    config.set_pll_enable(true);
    config.set_pa_enable(true);
    config.set_pa_output_level(63);
    assert_eq!(config.r0(), 0x0108_2190);
    assert_eq!(config.r1(), 0x0016_6101);
    assert_eq!(config.r2(), 0x0000_6FE2);
    assert_eq!(config.r3(), 0x0041_A0EF);
}

#[test]
fn frequency_sets_the_divider_ratio() {
    assert_eq!(XTAL_FREQ, 4_915_200);
    let mut config = Adf7012Config::new();
    config.set_freq(439_987_500);
    assert_eq!(config.integer_n, 89);
    assert_eq!(config.fractional_n, 2112);
    config.set_freq(4_915_200 * 100);
    assert_eq!((config.integer_n, config.fractional_n), (100, 0));
    config.set_freq(4_915_200 * 100 + 4_915_199);
    assert_eq!((config.integer_n, config.fractional_n), (100, 4095));
    config.set_freq(0);
    assert_eq!((config.integer_n, config.fractional_n), (0, 0));
    // the register holds the low eight bits of the whole part
    config.set_freq(u32::MAX);
    assert_eq!(config.integer_n, (873 % 256) as u8);
    config.output_divider = OutputDivider::DivideBy8;
    config.set_freq(61_440_000);
    assert_eq!((config.integer_n, config.fractional_n), (100, 0));
    config.set_freq(61_440_000 + 307_200);
    assert_eq!((config.integer_n, config.fractional_n), (100, 2048));
}

#[test]
fn setters_change_one_setting() {
    let mut config = Adf7012Config::new();
    config.set_vco_bias(9);
    assert_eq!(config.vco_bias(), 9);
    config.set_vco_adjust(3);
    assert_eq!(config.vco_adjust(), 3);
    config.set_mod_deviation(20);
    assert_eq!(config.mod_deviation, 20);
    config.set_pa_output_level(64);
    assert_eq!(config.pa_output_level(), 63);
    config.set_pa_output_level(255);
    assert_eq!(config.pa_output_level(), 63);
    config.set_pa_output_level(0);
    assert_eq!(config.pa_output_level(), 0);
    config.set_pll_enable(true);
    assert!(config.pll_enable && !config.pa_enable);
    config.set_pa_enable(true);
    assert!(config.pa_enable);
    // the other settings are as after power-up
    assert_eq!(config.integer_n, 179);
    assert_eq!(config.freq_err_correction, -47);
    assert_eq!(config.muxout, MuxOut::RegReady);
}

#[test]
fn setting_codes() {
    assert_eq!(OutputDivider::Disabled.code(), 0);
    assert_eq!(OutputDivider::DivideBy8.code(), 3);
    assert_eq!(Prescaler::Scale8_9.code(), 1);
    assert_eq!(Modulation::OOK.code(), 3);
    assert_eq!(MuxOut::RegReady.code(), 3);
    assert_eq!(MuxOut::DigitalLock.code(), 4);
}

#[test]
fn board_pins() {
    let one = RaspagerPins::raspager1();
    let two = RaspagerPins::raspager2();
    assert_eq!(one.le, 0);
    assert_eq!(two.le, 9);
    assert_eq!(RaspagerPins { le: 0, ..two }, one);
    assert_eq!(
        (one.ce, one.clk, one.sdata, one.muxout, one.atclk, one.atdata, one.handshake, one.ptt),
        (7, 3, 2, 13, 11, 10, 5, 4)
    );
}
