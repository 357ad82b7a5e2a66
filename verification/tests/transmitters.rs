use unipager::config::{Config, PttConfig, PttMethod, Transmitter};
use unipager::transmitter::audio::{create_bit_sample, AudioTransmitter, SAMPLE_RATE};
use unipager::transmitter::c9000::{C9000Transmitter, FLOW_INTERVAL};
use unipager::transmitter::dummy::DummyTransmitter;
use unipager::transmitter::ptt::{hid_mask, is_cm108, Ptt, PttAction};
use unipager::transmitter::raspager::adf7012::Adf7012Config;
use unipager::transmitter::raspager::pins::RaspagerPins;
use unipager::transmitter::raspager::transmitter::{
    reset, send_word, write_config, write_register, Keying, Line, Next, Op, RaspagerTransmitter,
    KEY_UP_ATTEMPTS,
};
use unipager::transmitter::rfm69::{frame, END_OF_TRANSMISSION};
use unipager::transmitter::{air_bit, codeword_bytes, from_config, Backend};

#[test]
fn codeword_goes_out_highest_byte_first() {
    assert_eq!(codeword_bytes(0x7CD2_15D8), [0x7C, 0xD2, 0x15, 0xD8]);
    assert_eq!(codeword_bytes(0x0000_0001), [0, 0, 0, 1]);
    assert_eq!(codeword_bytes(0xFF00_0000), [0xFF, 0, 0, 0]);
}

#[test]
fn codeword_goes_out_highest_bit_first() {
    assert!(air_bit(0x8000_0000, 0));
    assert!(!air_bit(0x8000_0000, 1));
    assert!(air_bit(0x0000_0001, 31));
    assert!(!air_bit(0x0000_0001, 30));
    let bits: Vec<bool> = (0..32).map(|i| air_bit(0xAAAA_AAAA, i)).collect();
    for (i, bit) in bits.iter().enumerate() {
        assert_eq!(*bit, i % 2 == 0);
    }
}

#[test]
fn back_end_by_the_settings() {
    let mut config = Config::default();
    assert!(matches!(from_config(&config), Backend::Dummy));
    config.transmitter = Transmitter::Audio;
    assert!(matches!(from_config(&config), Backend::Audio(_)));
    config.transmitter = Transmitter::Raspager;
    match from_config(&config) {
        Backend::Raspager(pins) => assert_eq!(pins, RaspagerPins::raspager1()),
        _ => panic!("the first board revision was asked for"),
    }
    config.transmitter = Transmitter::Raspager2;
    match from_config(&config) {
        Backend::Raspager(pins) => assert_eq!(pins, RaspagerPins::raspager2()),
        _ => panic!("the second board revision was asked for"),
    }
    config.transmitter = Transmitter::C9000;
    assert!(matches!(from_config(&config), Backend::C9000));
    config.transmitter = Transmitter::RFM69;
    config.rfm69.port = "/dev/ttyACM3".to_owned();
    match from_config(&config) {
        Backend::RFM69(port) => assert_eq!(port, "/dev/ttyACM3"),
        _ => panic!("the serial back-end was asked for"),
    }
}

#[test]
fn dummy_takes_three_milliseconds_a_codeword() {
    let mut dummy = DummyTransmitter::new();
    assert_eq!(dummy.finish(), 50);
    for word in 0..35 {
        dummy.take(word);
    }
    assert_eq!(dummy.finish(), 155);
    // the count has started anew
    dummy.take(0);
    assert_eq!(dummy.finish(), 53);
}

#[test]
fn audio_settings() {
    let mut config = Config::default();
    config.audio.level = 200;
    config.audio.device = "".to_owned();
    config.audio.tx_delay = 250;
    let audio = AudioTransmitter::new(&config);
    assert_eq!(audio.device, "default");
    assert_eq!(audio.level, 127);
    assert_eq!(audio.samples_per_bit, 40);
    assert_eq!(audio.tx_delay, 250);
    assert!(!audio.inverted);
    assert_eq!(audio.low_level(), 0);
    assert_eq!(audio.high_level(), 255);
    assert_eq!(SAMPLE_RATE, 48000);

    config.audio.level = 100;
    config.audio.device = "plughw:1".to_owned();
    config.audio.baudrate = 512;
    config.audio.inverted = true;
    let audio = AudioTransmitter::new(&config);
    assert_eq!(audio.device, "plughw:1");
    assert_eq!(audio.level, 100);
    assert_eq!(audio.samples_per_bit, 93);
    assert!(audio.inverted);
    assert_eq!(audio.low_level(), 27);
    assert_eq!(audio.high_level(), 228);
}

#[test]
fn bit_samples() {
    assert_eq!(create_bit_sample(0, 9), Vec::<u8>::new());
    assert_eq!(create_bit_sample(4, 9), vec![9, 9, 9, 9]);
    assert_eq!(create_bit_sample(40, 255), vec![255; 40]);
}

#[test]
fn audio_renders_a_run_of_samples_for_each_bit() {
    let mut config = Config::default();
    config.audio.level = 100;
    config.audio.baudrate = 16000;
    let audio = AudioTransmitter::new(&config);
    assert_eq!(audio.samples_per_bit, 3);
    let mut buffer = vec![1, 2];
    audio.render(&mut buffer, 0x8000_0001);
    assert_eq!(buffer.len(), 2 + 96);
    assert_eq!(&buffer[..2], &[1, 2]);
    // a set bit is low
    assert_eq!(&buffer[2..5], &[27, 27, 27]);
    assert_eq!(&buffer[5..95], &[228; 90][..]);
    assert_eq!(&buffer[95..], &[27, 27, 27]);

    config.audio.inverted = true;
    let inverted = AudioTransmitter::new(&config);
    let mut other = Vec::new();
    inverted.render(&mut other, 0x8000_0001);
    assert_eq!(&other[..3], &[228, 228, 228]);
    assert_eq!(&other[3..93], &[27; 90][..]);
    assert_eq!(&other[93..], &[228, 228, 228]);
}

#[test]
fn audio_renders_the_preamble_as_a_square_wave() {
    let audio = AudioTransmitter::new(&Config::default());
    let mut buffer = Vec::new();
    audio.render(&mut buffer, 0xAAAA_AAAA);
    assert_eq!(buffer.len(), 32 * 40);
    for (i, sample) in buffer.iter().enumerate() {
        let expected = if (i / 40) % 2 == 0 { 0 } else { 255 };
        assert_eq!(*sample, expected);
    }
}

#[test]
fn ptt_by_the_settings() {
    let mut config = PttConfig::default();
    config.gpio_pin = 17;
    match Ptt::from_config(&config) {
        Ptt::Gpio { pin, inverted } => assert_eq!((pin, inverted), (17, false)),
        _ => panic!("a GPIO line was asked for"),
    }
    config.method = PttMethod::SerialDtr;
    config.inverted = true;
    match Ptt::from_config(&config) {
        Ptt::SerialDtr { port, inverted } => {
            assert_eq!(port, "/dev/ttyS0");
            assert!(inverted);
        }
        _ => panic!("the DTR line was asked for"),
    }
    config.method = PttMethod::SerialRts;
    assert!(matches!(Ptt::from_config(&config), Ptt::SerialRts { inverted: true, .. }));
    config.method = PttMethod::HidRaw;
    match Ptt::from_config(&config) {
        Ptt::HidRaw { device, gpio, inverted } => {
            assert_eq!(device, "/dev/hidraw0");
            assert_eq!(gpio, 0x04);
            assert!(inverted);
        }
        _ => panic!("the sound chip was asked for"),
    }
}

#[test]
fn ptt_levels() {
    let plain = Ptt::Gpio { pin: 4, inverted: false };
    assert_eq!(plain.set(true), PttAction::SetPin(true));
    assert_eq!(plain.set(false), PttAction::SetPin(false));
    let inverted = Ptt::Gpio { pin: 4, inverted: true };
    assert_eq!(inverted.set(true), PttAction::SetPin(false));
    assert_eq!(inverted.set(false), PttAction::SetPin(true));
    let dtr = Ptt::SerialDtr { port: "p".to_owned(), inverted: true };
    assert_eq!(dtr.set(true), PttAction::SetDtr(false));
    let rts = Ptt::SerialRts { port: "p".to_owned(), inverted: false };
    assert_eq!(rts.set(true), PttAction::SetRts(true));
    assert_eq!(rts.set(false), PttAction::SetRts(false));
}

#[test]
fn ptt_reports_of_the_sound_chip() {
    let hid = Ptt::HidRaw { device: "d".to_owned(), gpio: 0x04, inverted: false };
    assert_eq!(hid.set(true), PttAction::WriteReport([0, 0, 4, 4, 0]));
    assert_eq!(hid.set(false), PttAction::WriteReport([0, 0, 0, 4, 0]));
    let inverted = Ptt::HidRaw { device: "d".to_owned(), gpio: 0x08, inverted: true };
    assert_eq!(inverted.set(true), PttAction::WriteReport([0, 0, 0, 8, 0]));
    assert_eq!(inverted.set(false), PttAction::WriteReport([0, 0, 8, 8, 0]));
    assert_eq!(
        [hid_mask(0), hid_mask(1), hid_mask(2), hid_mask(3), hid_mask(4), hid_mask(5)],
        [0, 1, 2, 4, 8, 0]
    );
    assert!(is_cm108(0x0D8C, 0x013C));
    assert!(is_cm108(0x0D8C, 0x000C));
    assert!(!is_cm108(0x0D8C, 0x000D));
    assert!(!is_cm108(0x0D8D, 0x013C));
}

#[test]
fn c9000_waits_before_every_fortieth_codeword() {
    assert_eq!(FLOW_INTERVAL, 40);
    let mut c9000 = C9000Transmitter::new();
    let mut waits = Vec::new();
    for i in 0..100 {
        if c9000.must_wait() {
            waits.push(i);
        }
        c9000.advance();
    }
    assert_eq!(waits, vec![0, 40, 80]);
}

#[test]
fn serial_frame_ends_with_the_end_mark() {
    assert_eq!(END_OF_TRANSMISSION, 0x17);
    assert_eq!(frame(&[]), vec![0x17]);
    assert_eq!(
        frame(&[0xAAAA_AAAA, 0x7CD2_15D8]),
        vec![0xAA, 0xAA, 0xAA, 0xAA, 0x7C, 0xD2, 0x15, 0xD8, 0x17]
    );
}

fn clocked_bits(ops: &[Op], data: Line, clock: Line) -> Vec<bool> {
    let mut level = false;
    let mut bits = Vec::new();
    for op in ops {
        match op {
            Op::Drive(line, high) if *line == data => level = *high,
            Op::Drive(line, true) if *line == clock => bits.push(level),
            _ => {}
        }
    }
    bits
}

fn word_of(bits: &[bool]) -> u32 {
    bits.iter().fold(0, |word, bit| (word << 1) | *bit as u32)
}

#[test]
fn register_is_clocked_in_highest_bit_first() {
    let mut ops = vec![Op::DelayMs(1)];
    write_register(&mut ops, 0x8000_0001);
    assert_eq!(ops.len(), 1 + 4 + 32 * 6 + 2);
    assert_eq!(
        &ops[..11],
        &[
            Op::DelayMs(1),
            Op::Drive(Line::Clk, false),
            Op::DelayUs(2),
            Op::Drive(Line::Le, false),
            Op::DelayUs(10),
            Op::Drive(Line::Sdata, true),
            Op::DelayUs(10),
            Op::Drive(Line::Clk, true),
            Op::DelayUs(30),
            Op::Drive(Line::Clk, false),
            Op::DelayUs(30),
        ]
    );
    assert_eq!(&ops[ops.len() - 2..], &[Op::DelayUs(10), Op::Drive(Line::Le, true)]);
    let bits = clocked_bits(&ops, Line::Sdata, Line::Clk);
    assert_eq!(bits.len(), 32);
    assert_eq!(word_of(&bits), 0x8000_0001);

    let mut ops = Vec::new();
    write_register(&mut ops, 0x0041_98E3);
    assert_eq!(word_of(&clocked_bits(&ops, Line::Sdata, Line::Clk)), 0x0041_98E3);
}

#[test]
fn config_writes_the_four_registers_in_order() {
    let config = Adf7012Config::new();
    let mut ops = Vec::new();
    write_config(&mut ops, &config);
    assert_eq!(ops.len(), 4 * 198);
    let registers: Vec<u32> =
        ops.chunks(198).map(|one| word_of(&clocked_bits(one, Line::Sdata, Line::Clk))).collect();
    assert_eq!(registers, vec![config.r0(), config.r1(), config.r2(), config.r3()]);
}

#[test]
fn reset_steps() {
    let mut ops = Vec::new();
    reset(&mut ops);
    assert_eq!(
        ops,
        vec![
            Op::Drive(Line::Ce, false),
            Op::Drive(Line::Le, true),
            Op::Drive(Line::Clk, true),
            Op::Drive(Line::Sdata, true),
            Op::DelayMs(5),
            Op::Drive(Line::Ce, true),
            Op::DelayMs(100),
        ]
    );
}

#[test]
fn codeword_is_handed_over_bit_by_bit() {
    let mut ops = Vec::new();
    send_word(&mut ops, 0x7CD2_15D8);
    assert_eq!(ops.len(), 32 * 7);
    assert_eq!(
        &ops[..7],
        &[
            Op::Await { line: Line::Handshake, high: true, poll_us: 100 },
            Op::Drive(Line::Atdata, false),
            Op::DelayUs(20),
            Op::Drive(Line::Atclk, true),
            Op::DelayUs(100),
            Op::Drive(Line::Atclk, false),
            Op::DelayUs(50),
        ]
    );
    assert_eq!(word_of(&clocked_bits(&ops, Line::Atdata, Line::Atclk)), 0x7CD2_15D8);
    let waits =
        ops.iter().filter(|op| matches!(op, Op::Await { line: Line::Handshake, .. })).count();
    assert_eq!(waits, 32);
}

fn registers_written(ops: &[Op]) -> Vec<u32> {
    let mut words = Vec::new();
    let mut bits = Vec::new();
    let mut level = false;
    for op in ops {
        match op {
            Op::Drive(Line::Le, false) => bits.clear(),
            Op::Drive(Line::Sdata, high) => level = *high,
            Op::Drive(Line::Clk, true) => bits.push(level),
            Op::Drive(Line::Le, true) if bits.len() == 32 => words.push(word_of(&bits)),
            _ => {}
        }
    }
    words
}

fn raspager(level: u8) -> RaspagerTransmitter {
    let mut config = Config::default();
    config.raspager.pa_output_level = level;
    config.raspager.freq_corr = -5;
    let (transmitter, ops) = RaspagerTransmitter::new(&config);
    assert_eq!(ops.len(), 7 + 4 * 198);
    let mut expected = Adf7012Config::new();
    expected.set_freq_err_correction(-5);
    expected.set_freq(439_987_500);
    expected.set_mod_deviation(13);
    assert_eq!(
        registers_written(&ops[7..]),
        vec![expected.r0(), expected.r1(), expected.r2(), expected.r3()]
    );
    transmitter
}

#[test]
fn key_up_with_a_pll_that_locks_at_once() {
    assert_eq!(KEY_UP_ATTEMPTS, 5);
    let mut transmitter = raspager(40);
    let mut ops = Vec::new();
    transmitter.ptt_on(&mut ops);
    assert_eq!(ops[0], Op::Drive(Line::Ce, true));
    assert_eq!(ops.len(), 1 + 4 * 198 + 1);
    assert_eq!(*ops.last().unwrap(), Op::DelayMs(100));
    // amplifier off, ready signal on the multiplexed output
    let written = registers_written(&ops);
    assert_eq!((written[2] >> 5) & 0x3F, 0);
    assert_eq!((written[3] >> 11) & 0xF, 3);
    assert_eq!((written[3] >> 3) & 1, 0);

    let mut ops = Vec::new();
    assert_eq!(transmitter.ptt_on_step(true, &mut ops), Next::ReadMuxout);
    assert_eq!(*ops.last().unwrap(), Op::DelayMs(500));
    let written = registers_written(&ops);
    // PLL on, lock signal on the multiplexed output
    assert_eq!((written[3] >> 11) & 0xF, 4);
    assert_eq!((written[3] >> 2) & 1, 1);

    let mut ops = Vec::new();
    assert_eq!(transmitter.ptt_on_step(true, &mut ops), Next::Keyed);
    assert_eq!(*ops.last().unwrap(), Op::DelayMs(50));
    let written = registers_written(&ops);
    assert_eq!((written[2] >> 5) & 0x3F, 40);
    assert_eq!((written[3] >> 3) & 1, 1);

    // a keyed transmitter stays keyed
    let mut ops = Vec::new();
    assert_eq!(transmitter.ptt_on_step(false, &mut ops), Next::Keyed);
    assert!(ops.is_empty());
}

#[test]
fn key_up_with_a_chip_that_is_not_ready() {
    let mut transmitter = raspager(40);
    let mut ops = Vec::new();
    transmitter.ptt_on(&mut ops);
    let mut ops = Vec::new();
    assert_eq!(transmitter.ptt_on_step(false, &mut ops), Next::NotReady);
    assert!(ops.is_empty());
    assert_eq!(transmitter.ptt_on_step(true, &mut ops), Next::NotReady);
    assert!(ops.is_empty());
}

#[test]
fn pll_sweep_runs_through_all_places_and_fails() {
    let mut transmitter = raspager(63);
    let mut ops = Vec::new();
    transmitter.ptt_on(&mut ops);
    assert_eq!(transmitter.ptt_on_step(true, &mut ops), Next::ReadMuxout);
    let mut tried = Vec::new();
    loop {
        let mut ops = Vec::new();
        let next = transmitter.ptt_on_step(false, &mut ops);
        let written = registers_written(&ops);
        tried.push(((written[0] >> 23) & 3, (written[3] >> 16) & 0xF));
        if next == Next::LockFailed {
            // unkeyed: wait for the keying line, amplifier off, chip off
            assert!(ops.contains(&Op::Await { line: Line::Ptt, high: false, poll_us: 100_000 }));
            assert_eq!(&ops[ops.len() - 2..], &[Op::DelayMs(100), Op::Drive(Line::Ce, false)]);
            assert_eq!(written.len(), 8);
            assert_eq!((written[4] >> 23) & 3, 0);
            assert_eq!((written[7] >> 16) & 0xF, 0);
            assert_eq!((written[7] >> 3) & 1, 0);
            break;
        }
        assert_eq!(next, Next::ReadMuxout);
        assert!(tried.len() <= 52);
    }
    // from the settings after power-up: adjustment 2 from bias 1, then 3
    let mut expected = Vec::new();
    for bias in 1..=13 {
        expected.push((2, bias));
    }
    for bias in 1..=13 {
        expected.push((3, bias));
    }
    assert_eq!(tried, expected);

    // the next attempt starts from zero
    let mut ops = Vec::new();
    transmitter.ptt_on(&mut ops);
    assert_eq!(transmitter.ptt_on_step(true, &mut ops), Next::ReadMuxout);
    let mut ops = Vec::new();
    assert_eq!(transmitter.ptt_on_step(false, &mut ops), Next::ReadMuxout);
    let written = registers_written(&ops);
    assert_eq!(((written[0] >> 23) & 3, (written[3] >> 16) & 0xF), (0, 0));
    let mut count = 1;
    loop {
        let mut ops = Vec::new();
        count += 1;
        if transmitter.ptt_on_step(false, &mut ops) == Next::LockFailed {
            break;
        }
    }
    assert_eq!(count, 1 + 4 * 13);
}

#[test]
fn pll_that_locks_during_the_sweep() {
    let mut transmitter = raspager(200);
    let mut ops = Vec::new();
    transmitter.ptt_on(&mut ops);
    transmitter.ptt_on_step(true, &mut ops);
    for _ in 0..5 {
        let mut ops = Vec::new();
        assert_eq!(transmitter.ptt_on_step(false, &mut ops), Next::ReadMuxout);
    }
    let mut ops = Vec::new();
    assert_eq!(transmitter.ptt_on_step(true, &mut ops), Next::Keyed);
    let written = registers_written(&ops);
    // the place that locked stays set, the level is capped
    assert_eq!(((written[0] >> 23) & 3, (written[3] >> 16) & 0xF), (2, 5));
    assert_eq!((written[2] >> 5) & 0x3F, 63);
}

#[test]
fn end_of_a_transmission() {
    let mut transmitter = raspager(40);
    let mut ops = Vec::new();
    transmitter.ptt_on(&mut ops);
    transmitter.ptt_on_step(true, &mut ops);
    transmitter.ptt_on_step(true, &mut ops);
    let mut ops = Vec::new();
    transmitter.finish(&mut ops);
    assert_eq!(ops[0], Op::Drive(Line::Atdata, false));
    assert_eq!(ops[1], Op::Await { line: Line::Ptt, high: false, poll_us: 100_000 });
    assert_eq!(
        &ops[ops.len() - 3..],
        &[Op::DelayMs(100), Op::Drive(Line::Ce, false), Op::DelayMs(200)]
    );
    let written = registers_written(&ops);
    assert_eq!((written[2] >> 5) & 0x3F, 0);
    assert_eq!((written[3] >> 3) & 1, 0);

    let mut ops = Vec::new();
    transmitter.give_up(&mut ops);
    assert_eq!(ops[0], Op::Await { line: Line::Ptt, high: false, poll_us: 100_000 });
    assert_eq!(*ops.last().unwrap(), Op::DelayMs(200));
    let mut ops = Vec::new();
    transmitter.ptt_off(&mut ops);
    assert_eq!(*ops.last().unwrap(), Op::Drive(Line::Ce, false));
    let _ = Keying::Idle;
}
