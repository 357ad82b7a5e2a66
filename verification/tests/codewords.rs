use unipager::pocsag::codeword::{
    address_word, crc, message_word, parity, payload, IDLE_WORD, PREAMBLE_WORD, SYNC_WORD,
};
use unipager::pocsag::encoding::{encode_alphanum, encode_numeric, Encoding};
use unipager::pocsag::message::{Message, MessageType};

fn ones(word: u32) -> u32 {
    word.count_ones()
}

#[test]
fn idle_word_is_its_own_check() {
    assert_eq!(parity(crc(IDLE_WORD & 0xFFFF_F800)), IDLE_WORD);
}

#[test]
fn crc_fills_the_low_ten_bits() {
    assert_eq!(crc(0x7A89_C000), 0x7A89_C196);
    assert_eq!(crc(0), 0);
    assert_eq!(crc(0x8000_0000), 0x8000_0001);
    // 22 division steps leave bit 10 clear, also where 21 steps would set it
    assert_eq!(crc(0x7CD2_1000), 0x7CD2_12B1);
    for content in [0x0000_0800u32, 0xFFFF_F800, 0x1234_5800, 0x8000_0800] {
        assert_eq!(crc(content) & 0xFFFF_FC00, content);
    }
}

#[test]
fn parity_sets_bit_zero_for_odd_words() {
    assert_eq!(parity(0), 0);
    assert_eq!(parity(0x8000_0000), 0x8000_0001);
    assert_eq!(parity(0x7A89_C196), 0x7A89_C197);
    assert_eq!(parity(0x0000_0003), 0x0000_0003);
    // bit zero already taken and the word odd: nothing to mend it with
    assert_eq!(parity(0x0000_0001), 0x0000_0001);
}

#[test]
fn fixed_words_have_even_parity() {
    assert_eq!(ones(SYNC_WORD) % 2, 0);
    assert_eq!(ones(IDLE_WORD) % 2, 0);
    assert_eq!(ones(PREAMBLE_WORD) % 2, 0);
}

#[test]
fn address_word_keeps_address_and_function() {
    let word = address_word(0x012345, 3);
    assert_eq!(word, 0x048D_189B);
    assert_eq!(word >> 31, 0);
    assert_eq!(word >> 13, 0x012345 >> 3);
    assert_eq!((word >> 11) & 3, 3);
    assert_ne!(word, SYNC_WORD);
    assert_eq!(parity(crc(word & 0xFFFF_F800)), word);
}

#[test]
fn address_words_of_small_addresses() {
    assert_eq!(address_word(0, 0), 0x0000_0000);
    assert_eq!(address_word(0, 3), 0x0000_1ACD);
    assert_eq!(address_word(8, 0), 0x0000_2185);
    assert_eq!(address_word(8, 1), 0x0000_283F);
    assert_eq!(address_word(56, 3), 0x0000_F93F);
    // the low three bits of the address are not in the word
    assert_eq!(address_word(8, 0), address_word(15, 0));
    // the function counts with its low two bits
    assert_eq!(address_word(8, 1), address_word(8, 5));
}

#[test]
fn address_parity_is_even_unless_check_bits_take_bit_zero() {
    for ric in (0u32..4096).step_by(8) {
        for func in 0u8..4 {
            let word = address_word(ric, func);
            let before_parity = crc(word & 0xFFFF_F800);
            let taken = before_parity & 1 == 1 && ones(before_parity) % 2 == 1;
            assert_eq!(ones(word) % 2 == 0, !taken);
        }
    }
    // an address whose word stays odd
    assert_eq!(ones(address_word(8, 0)) % 2, 1);
}

#[test]
fn message_word_carries_the_payload() {
    let word = message_word(0x83333);
    assert_eq!(word, 0xC199_98B4);
    assert_eq!(word >> 31, 1);
    assert_eq!((word >> 11) & 0xF_FFFF, 0x83333);
    assert_eq!(message_word(0), 0x8000_0001);
    assert_eq!(message_word(0xF_FFFF) >> 11, 0x1F_FFFF);
}

#[test]
fn alphanum_symbols() {
    assert_eq!(encode_alphanum(0), 0);
    assert_eq!(encode_alphanum(b'A'), 0x41);
    assert_eq!(encode_alphanum(127), 127);
    assert_eq!(encode_alphanum(128), 0x3F);
    assert_eq!(encode_alphanum(255), 0x3F);
}

#[test]
fn numeric_symbols() {
    let table: [(u8, u8); 16] = [
        (b'0', 0x0),
        (b'1', 0x1),
        (b'2', 0x2),
        (b'3', 0x3),
        (b'4', 0x4),
        (b'5', 0x5),
        (b'6', 0x6),
        (b'7', 0x7),
        (b'8', 0x8),
        (b'9', 0x9),
        (b'*', 0xA),
        (b'U', 0xB),
        (b' ', 0xC),
        (b'-', 0xD),
        (b')', 0xE),
        (b'(', 0xF),
    ];
    for (byte, symbol) in table {
        assert_eq!(encode_numeric(byte), symbol);
    }
    assert_eq!(encode_numeric(b'x'), 0xC);
    assert_eq!(encode_numeric(b'u'), 0xC);
    assert_eq!(encode_numeric(0), 0xC);
    assert_eq!(encode_numeric(255), 0xC);
}

#[test]
fn encodings_of_the_two_types() {
    let alpha = Encoding::of(MessageType::AlphaNum);
    assert_eq!(alpha.bits(), 7);
    assert_eq!(alpha.trailing(), 0x00);
    assert_eq!(alpha.encode(200), 0x3F);
    let numeric = Encoding::of(MessageType::Numeric);
    assert_eq!(numeric.bits(), 4);
    assert_eq!(numeric.trailing(), 0x0C);
    assert_eq!(numeric.encode(b'7'), 7);
    assert_eq!(Encoding::alphanum().bits(), 7);
    assert_eq!(Encoding::numeric().bits(), 4);
}

#[test]
fn payload_puts_symbols_low_bit_first() {
    // "1" is 1000 on the air, the trailing symbol 0xC is 0011
    assert_eq!(payload(b"1", Encoding::numeric(), 0), 0x83333);
    // "A" is 1000001, "B" is 0100001, then zeros
    assert_eq!(payload(b"AB", Encoding::alphanum(), 0), 0x82840);
    assert_eq!(payload(b"ABC", Encoding::alphanum(), 0), 0x82870);
    assert_eq!(payload(b"ABC", Encoding::alphanum(), 1), 0x80000);
    // past the text there is only the trailing symbol
    assert_eq!(payload(b"", Encoding::alphanum(), 0), 0);
    assert_eq!(payload(b"", Encoding::numeric(), 0), 0x33333);
    assert_eq!(payload(b"1", Encoding::numeric(), 7), 0x33333);
}

#[test]
fn default_message() {
    let message = Message::default();
    assert_eq!(message.mtype, MessageType::AlphaNum);
    assert_eq!(message.speed, 1200);
    assert_eq!(message.ric, 0);
    assert_eq!(message.func, 3);
    assert_eq!(message.data, "");
    assert_eq!(message.size(), 0);
    let text = Message { data: "grüß".to_owned(), ..Message::default() };
    assert_eq!(text.size(), 6);
}
