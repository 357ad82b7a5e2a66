use std::collections::VecDeque;

use unipager::message::{Message, MessageProvider, ProtocolMessage};
use unipager::pocsag::codeword::{address_word, IDLE_WORD, PREAMBLE_WORD, SYNC_WORD};
use unipager::pocsag::generator::{address_slot, Generator};
use unipager::pocsag::message::{Message as Call, MessageType};
use unipager::pocsag::testgenerator::TestGenerator;
use unipager::pocsag::transmission::encode;

struct Following {
    calls: VecDeque<Call>,
    asked: Vec<usize>,
}

impl Following {
    fn of(calls: Vec<Call>) -> Following {
        Following { calls: calls.into_iter().collect(), asked: Vec::new() }
    }
}

impl MessageProvider for Following {
    fn next(&mut self, count: usize) -> Option<Message> {
        self.asked.push(count);
        self.calls.pop_front().map(wrap)
    }
}

fn wrap(call: Call) -> Message {
    Message {
        id: "test".to_owned(),
        priority: 0,
        origin: "tests".to_owned(),
        expires_on: None,
        message: ProtocolMessage::Pocsag(call),
    }
}

fn call(ric: u32, func: u8, mtype: MessageType, data: &str) -> Call {
    Call { mtype, speed: 1200, ric, func, data: data.to_owned() }
}

fn stream(first: Call, following: &mut Following) -> Vec<u32> {
    let mut generator = Generator::new(first);
    let mut words = Vec::new();
    while let Some(word) = generator.next(following) {
        words.push(word);
        assert!(words.len() < 10_000);
    }
    // a finished generator stays finished
    assert_eq!(generator.next(following), None);
    words
}

/// A receiver's view of the stream: the calls with their symbols, the
/// trailing symbols of the last message word included.
fn decode(words: &[u32]) -> Vec<(u32, u8, Vec<u32>)> {
    let mut calls: Vec<(u32, u8, Vec<u32>)> = Vec::new();
    let mut bits: Vec<Vec<u32>> = Vec::new();
    assert!(words.len() > 18);
    for word in &words[..18] {
        assert_eq!(*word, PREAMBLE_WORD);
    }
    for (i, word) in words[18..].iter().enumerate() {
        if i % 17 == 0 {
            assert_eq!(*word, SYNC_WORD);
            continue;
        }
        let place = (i % 17 - 1) as u32;
        if *word == IDLE_WORD {
            continue;
        }
        if word >> 31 == 0 {
            let ric = ((word >> 13) << 3) | (place / 2);
            assert_eq!(place % 2, 0);
            calls.push((ric, ((word >> 11) & 3) as u8, Vec::new()));
            bits.push(Vec::new());
        } else {
            let payload = (word >> 11) & 0xF_FFFF;
            let last = bits.last_mut().unwrap();
            for j in 0..20 {
                last.push((payload >> (19 - j)) & 1);
            }
        }
    }
    for (call, air) in calls.iter_mut().zip(bits.iter()) {
        call.2 = air.clone();
    }
    calls
}

fn symbols(air: &[u32], width: usize) -> Vec<u8> {
    air.chunks_exact(width)
        .map(|chunk| chunk.iter().enumerate().fold(0u8, |sym, (b, bit)| sym | ((*bit as u8) << b)))
        .collect()
}

#[test]
fn empty_alpha_message() {
    let mut following = Following::of(vec![]);
    let words = stream(call(0x012345, 3, MessageType::AlphaNum, ""), &mut following);
    assert_eq!(words.len(), 35);
    let mut expected = vec![PREAMBLE_WORD; 18];
    expected.push(SYNC_WORD);
    expected.extend(vec![IDLE_WORD; 10]);
    expected.push(0x048D_189B);
    expected.extend(vec![IDLE_WORD; 5]);
    assert_eq!(words, expected);
    assert_eq!(address_slot(0x012345), 10);
    // asked once, with the codewords given out before the address word
    assert_eq!(following.asked, vec![29]);
}

#[test]
fn empty_message_takes_35_codewords_for_every_frame() {
    for ric in [0u32, 1, 2, 3, 4, 5, 6, 7, 0x1F_FFF8, 0x1F_FFFF, 0x0A_BCDE] {
        for mtype in [MessageType::AlphaNum, MessageType::Numeric] {
            let mut following = Following::of(vec![]);
            let words = stream(call(ric, 1, mtype, ""), &mut following);
            assert_eq!(words.len(), 35);
            let offset = 2 * (ric & 0b111) as usize;
            for (i, word) in words[19..].iter().enumerate() {
                if i == offset {
                    assert_eq!(*word, address_word(ric, 1));
                } else {
                    assert_eq!(*word, IDLE_WORD);
                }
            }
        }
    }
}

#[test]
fn single_numeric_digit() {
    let mut following = Following::of(vec![]);
    let words = stream(call(8, 0, MessageType::Numeric, "1"), &mut following);
    assert_eq!(words.len(), 35);
    assert_eq!(&words[..18], &[PREAMBLE_WORD; 18][..]);
    assert_eq!(words[18], SYNC_WORD);
    assert_eq!(words[19], 0x0000_2185);
    assert_eq!(words[20], 0xC199_98B4);
    assert_eq!(&words[21..], &[IDLE_WORD; 14][..]);
    let payload = (words[20] >> 11) & 0xF_FFFF;
    // the digit, its low bit first, then four trailing symbols
    assert_eq!(payload >> 16, 0b1000);
    assert_eq!(payload & 0xFFFF, 0x3333);
    let decoded = decode(&words);
    assert_eq!(decoded.len(), 1);
    assert_eq!(symbols(&decoded[0].2, 4), vec![0x1, 0xC, 0xC, 0xC, 0xC]);
    assert_eq!(following.asked, vec![20]);
}

#[test]
fn alphanum_text_in_one_and_in_two_codewords() {
    let mut following = Following::of(vec![]);
    let words = stream(call(0, 3, MessageType::AlphaNum, "AB"), &mut following);
    assert_eq!(words.len(), 35);
    assert_eq!(words[19], 0x0000_1ACD);
    assert_eq!(words[20], 0xC142_0357);
    assert_eq!((words[20] >> 11) & 0xF_FFFF, 0b1000001_0100001_000000);
    assert_eq!(&words[21..], &[IDLE_WORD; 14][..]);

    let mut following = Following::of(vec![]);
    let words = stream(call(0, 3, MessageType::AlphaNum, "ABC"), &mut following);
    assert_eq!(words.len(), 35);
    assert_eq!(words[19], 0x0000_1ACD);
    assert_eq!(words[20], 0xC143_80D1);
    assert_eq!(words[21], 0xC000_03B5);
    assert_eq!(&words[22..], &[IDLE_WORD; 13][..]);
    for word in &words[20..22] {
        assert_eq!(word >> 31, 1);
        assert_eq!(
            unipager::pocsag::codeword::parity(unipager::pocsag::codeword::crc(
                word & 0xFFFF_F800
            )),
            *word
        );
        // even parity, unless the check bits have taken the parity bit
        let checked = unipager::pocsag::codeword::crc(word & 0xFFFF_F800);
        let taken = checked & 1 == 1 && checked.count_ones() % 2 == 1;
        assert_eq!(word.count_ones() % 2 == 0, !taken);
    }
    assert_eq!(words[20].count_ones() % 2, 1);
    assert_eq!(words[21].count_ones() % 2, 1);
    let decoded = decode(&words);
    assert_eq!(symbols(&decoded[0].2, 7), vec![0x41, 0x42, 0x43, 0, 0]);
}

#[test]
fn text_that_fills_its_last_codeword_gets_no_further_one() {
    let mut following = Following::of(vec![]);
    let words = stream(call(0, 3, MessageType::Numeric, "12345"), &mut following);
    assert_eq!(words.len(), 35);
    assert_eq!(words[20], 0xC261_5045);
    assert_eq!(&words[21..], &[IDLE_WORD; 14][..]);
}

#[test]
fn messages_follow_one_another_in_their_frames() {
    let first = call(0x1ABCD5, 1, MessageType::AlphaNum, "Hello, world! This is a longer text.");
    let second = call(0x000A03, 2, MessageType::Numeric, "0123456789*U -)(x");
    let third = call(7, 0, MessageType::AlphaNum, "");
    let mut following = Following::of(vec![second, third]);
    let words = stream(first, &mut following);
    let expected: Vec<u32> = vec![
        0x7CD215D8, 0x7A89C197, 0x7A89C197, 0x7A89C197, 0x7A89C197, 0x7A89C197, 0x7A89C197,
        0x7A89C197, 0x7A89C197, 0x7A89C197, 0x7A89C197, 0x6AF34A2A, 0x89A668A5, 0xCDFB337B,
        0xC0BBF8EA, 0xB4E6C937, 0x9C20402B, 0x7CD215D8, 0xD45CBA3B, 0xCE0A5A47, 0xE705087A,
        0xC11BF1CC, 0xEEF9D128, 0xB4E08AF3, 0xBD31E2A7, 0xDDD00323, 0x7A89C197, 0x7A89C197,
        0x7A89C197, 0x7A89C197, 0x7A89C197, 0x7A89C197, 0x7A89C197, 0x7A89C197, 0x7CD215D8,
        0x7A89C197, 0x7A89C197, 0x7A89C197, 0x7A89C197, 0x7A89C197, 0x7A89C197, 0x00281157,
        0x842613B7, 0xD370C8B7, 0xAE9DB9C9, 0xF9999A41, 0x7A89C197, 0x7A89C197, 0x7A89C197,
        0x00000000, 0x7A89C197,
    ];
    assert_eq!(words.len(), 69);
    assert_eq!(&words[..18], &[PREAMBLE_WORD; 18][..]);
    assert_eq!(&words[18..], &expected[..]);
    // asked after the last word of each message, with the codewords before it
    assert_eq!(following.asked, vec![43, 63, 67]);
}

#[test]
fn sixteen_codewords_between_sync_words() {
    let text = "The quick brown fox jumps over the lazy dog. ".repeat(4);
    let first = call(0x123456, 3, MessageType::AlphaNum, &text);
    let second = call(0x000001, 0, MessageType::Numeric, "555 0100");
    let mut following = Following::of(vec![second]);
    let words = stream(first, &mut following);
    assert!(words.len() > 100);
    assert_eq!((words.len() - 18) % 17, 0);
    for (i, word) in words.iter().enumerate() {
        let due = i >= 18 && (i - 18) % 17 == 0;
        assert_eq!(*word == SYNC_WORD, due);
    }
}

#[test]
fn stream_reads_back_as_the_messages() {
    let calls = vec![
        call(0x1ABCD5, 1, MessageType::AlphaNum, "Hello, world!"),
        call(0x000A03, 2, MessageType::Numeric, "0123456789*U -)("),
        call(0x1FFFFF, 3, MessageType::AlphaNum, "x"),
        call(0x000000, 0, MessageType::Numeric, "73"),
    ];
    let mut rest = calls.clone();
    let first = rest.remove(0);
    let mut following = Following::of(rest);
    let words = stream(first, &mut following);
    let decoded = decode(&words);
    assert_eq!(decoded.len(), calls.len());
    let digits = "0123456789*U -)(";
    for (sent, (ric, func, air)) in calls.iter().zip(decoded.iter()) {
        assert_eq!(*ric, sent.ric);
        assert_eq!(*func, sent.func);
        match sent.mtype {
            MessageType::AlphaNum => {
                let read = symbols(air, 7);
                assert_eq!(&read[..sent.data.len()], sent.data.as_bytes());
                assert!(read[sent.data.len()..].iter().all(|s| *s == 0));
            }
            MessageType::Numeric => {
                let read = symbols(air, 4);
                let text: String = read[..sent.data.len()]
                    .iter()
                    .map(|s| digits.as_bytes()[*s as usize] as char)
                    .collect();
                assert_eq!(text, sent.data);
                assert!(read[sent.data.len()..].iter().all(|s| *s == 0xC));
            }
        }
    }
}

#[test]
fn bytes_outside_the_alphabet_are_replaced() {
    let mut following = Following::of(vec![]);
    let words = stream(call(0, 3, MessageType::AlphaNum, "né"), &mut following);
    let decoded = decode(&words);
    // "é" is two bytes above 127: two question marks
    assert_eq!(symbols(&decoded[0].2, 7)[..3], [b'n', 0x3F, 0x3F]);
}

#[test]
fn generator_counts_its_calls() {
    let mut following = Following::of(vec![]);
    let mut generator = Generator::new(call(0, 3, MessageType::AlphaNum, ""));
    assert_eq!(generator.count(), 0);
    assert!(!generator.finishing());
    for n in 1..=19 {
        assert_eq!(generator.next(&mut following).is_some(), true);
        assert_eq!(generator.count(), n);
    }
    // the address of pager 0 stands first in the batch
    assert!(generator.finishing());
    assert_eq!(generator.advance(None), Some(0x0000_1ACD));
    assert!(!generator.finishing());
    assert!(following.asked.is_empty());
}

#[test]
fn advance_takes_the_following_message() {
    let mut generator = Generator::new(call(0, 3, MessageType::AlphaNum, ""));
    for _ in 0..19 {
        generator.advance(None);
    }
    let next = call(1, 2, MessageType::AlphaNum, "");
    assert_eq!(generator.advance(Some(next)), Some(address_word(0, 3)));
    assert_eq!(generator.advance(None), Some(IDLE_WORD));
    assert_eq!(generator.advance(None), Some(address_word(1, 2)));
    for _ in 0..13 {
        assert_eq!(generator.advance(None), Some(IDLE_WORD));
    }
    assert_eq!(generator.advance(None), None);
}

#[test]
fn message_makes_its_generator() {
    let message = wrap(call(0x012345, 3, MessageType::AlphaNum, ""));
    let mut generator = message.generator();
    let mut following = Following::of(vec![]);
    let mut words = Vec::new();
    while let Some(word) = generator.next(&mut following) {
        words.push(word);
    }
    assert_eq!(words.len(), 35);
    assert_eq!(words[29], 0x048D_189B);
}

#[test]
fn test_transmission_is_preamble_only() {
    let mut generator = TestGenerator::new(1125);
    let mut count = 0;
    while let Some(word) = generator.next() {
        assert_eq!(word, PREAMBLE_WORD);
        count += 1;
    }
    assert_eq!(count, 1125);
    assert_eq!(generator.next(), None);
    assert_eq!(TestGenerator::new(0).next(), None);
}

fn message_words(call: &Call) -> usize {
    let bits = match call.mtype {
        MessageType::AlphaNum => 7,
        MessageType::Numeric => 4,
    };
    (call.data.len() * bits + 19) / 20
}

/// The most calls that a transmission can take.
fn calls_at_most(first: &Call, following: &[Call]) -> usize {
    let to_address = 2 * (first.ric & 7) as usize + 1;
    let rest: usize = following.iter().map(|call| 17 + 2 * message_words(call)).sum();
    18 + 1 + to_address + 2 * message_words(first) + rest + 16
}

#[test]
fn streams_end_within_their_bound() {
    let text = "0123456789".repeat(50);
    let samples = vec![
        vec![call(0, 0, MessageType::AlphaNum, "")],
        vec![call(7, 0, MessageType::AlphaNum, "")],
        vec![call(7, 0, MessageType::Numeric, &text)],
        vec![
            call(7, 3, MessageType::AlphaNum, "a"),
            call(6, 3, MessageType::AlphaNum, "b"),
            call(0, 3, MessageType::AlphaNum, ""),
            call(7, 3, MessageType::AlphaNum, &text),
            call(7, 3, MessageType::Numeric, "1"),
        ],
        vec![
            call(7, 3, MessageType::AlphaNum, "abcdefghijklmnopqrstuvwxyz0123456789ABC"),
            call(6, 3, MessageType::AlphaNum, ""),
            call(6, 3, MessageType::AlphaNum, ""),
        ],
    ];
    for sample in samples {
        let mut rest = sample.clone();
        let first = rest.remove(0);
        let bound = calls_at_most(&first, &rest);
        let mut following = Following::of(rest);
        let words = stream(first, &mut following);
        // the call that gives nothing counts too
        assert!(words.len() + 1 <= bound + 1);
        assert!(words.len() <= bound);
        assert_eq!(decode(&words).len(), sample.len());
    }
}

#[test]
fn message_right_behind_another_takes_seventeen_calls_to_its_address() {
    // the first message ends at place 15, the second stands in frame 7
    let first = call(7, 3, MessageType::AlphaNum, "ab");
    let second = call(6, 3, MessageType::AlphaNum, "");
    let mut following = Following::of(vec![second.clone()]);
    let words = stream(first, &mut following);
    assert_eq!(words.len(), 18 + 17 + 17);
    assert_eq!(words[18 + 15], address_word(7, 3));
    assert_eq!(words[18 + 17 + 13], address_word(6, 3));
}

#[test]
fn whole_transmission_at_once() {
    let first = call(0x1ABCD5, 1, MessageType::AlphaNum, "Hello, world! This is a longer text.");
    let second = call(0x000A03, 2, MessageType::Numeric, "0123456789*U -)(x");
    let third = call(7, 0, MessageType::AlphaNum, "");
    let words = encode(first.clone(), vec![second.clone(), third.clone()]);
    let mut following = Following::of(vec![second.clone(), third.clone()]);
    assert_eq!(words, stream(first.clone(), &mut following));
    assert_eq!(words.len(), 69);
    assert_eq!(words[18 + 11], 0x6AF3_4A2A);
    assert!(words.len() <= calls_at_most(&first, &[second, third]));

    let alone = encode(call(0x012345, 3, MessageType::AlphaNum, ""), vec![]);
    assert_eq!(alone.len(), 35);
    assert_eq!(alone[29], 0x048D_189B);
    let decoded = decode(&encode(call(9, 2, MessageType::Numeric, "112"), vec![]));
    assert_eq!(decoded.len(), 1);
    assert_eq!((decoded[0].0, decoded[0].1), (9, 2));
    assert_eq!(symbols(&decoded[0].2, 4), vec![1, 1, 2, 0xC, 0xC]);
}
