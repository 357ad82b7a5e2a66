//! The 32-bit codeword: check bits, parity, and the two kinds of content word.

use vstd::prelude::*;
use crate::pocsag::encoding::Encoding;

verus! {

/// Marks the start of every batch.
pub const SYNC_WORD: u32 = 0x7CD215D8;

/// Fills batch positions that carry nothing.
pub const IDLE_WORD: u32 = 0x7A89C197;

/// The alternating bit pattern sent before the first batch.
pub const PREAMBLE_WORD: u32 = 0xAAAAAAAA;

/// One step of the division by the check polynomial: where bit `31 - i` is
/// set, the polynomial is subtracted with its top bit aligned there.
pub open spec fn crc_step(w: u32, i: u32) -> u32 {
    if w & (0x8000_0000u32 >> i) != 0 {
        w ^ (0xED20_0000u32 >> i)
    } else {
        w
    }
}

/// The word after the first `n` division steps, from bit 31 downwards.
pub open spec fn crc_reduce(w: u32, n: nat) -> u32
    decreases n,
{
    if n == 0 {
        w
    } else {
        crc_step(crc_reduce(w, (n - 1) as nat), (n - 1) as u32)
    }
}

/// The codeword with its check bits filled in: what is left of the word after
/// 22 division steps is or-ed into it.
pub open spec fn spec_crc(w: u32) -> u32 {
    w | crc_reduce(w, 22)
}

/// Exclusive or of all 32 bits: 1 when an odd number of them is set.
pub open spec fn parity_fold(w: u32) -> u32 {
    let a = w ^ (w >> 1);
    let b = a ^ (a >> 2);
    let c = b ^ (b >> 4);
    let d = c ^ (c >> 8);
    let e = d ^ (d >> 16);
    e & 1
}

/// The codeword with the parity of its bits or-ed into bit 0.
pub open spec fn spec_parity(w: u32) -> u32 {
    w | parity_fold(w)
}

/// An even number of the 32 bits is set.
pub open spec fn has_even_parity(w: u32) -> bool {
    parity_fold(w) == 0
}

/// A received word is taken as intact when its low eleven bits are what the
/// sender computes from its upper 21.
pub open spec fn passes_check(w: u32) -> bool {
    w == spec_parity(spec_crc(w & 0xFFFF_F800))
}

proof fn lemma_crc_step_clears(w: u32, i: u32)
    by (bit_vector)
    requires
        i < 22,
        w <= (0xFFFF_FFFFu32 >> i),
    ensures
        crc_step(w, i) <= (0x7FFF_FFFFu32 >> i),
{
}

proof fn lemma_crc_reduce_bound(w: u32, n: nat)
    requires
        n <= 22,
    ensures
        n == 0 ==> crc_reduce(w, n) == w,
        n > 0 ==> crc_reduce(w, n) <= (0x7FFF_FFFFu32 >> ((n - 1) as u32)),
    decreases n,
{
    if n == 1 {
        assert(crc_reduce(w, 0) == w);
        assert(w <= (0xFFFF_FFFFu32 >> 0u32)) by (bit_vector);
        lemma_crc_step_clears(w, 0);
        assert(crc_reduce(w, 1) == crc_step(w, 0));
    } else if n > 1 {
        lemma_crc_reduce_bound(w, (n - 1) as nat);
        let p = crc_reduce(w, (n - 1) as nat);
        let i = (n - 1) as u32;
        assert(p <= (0xFFFF_FFFFu32 >> i)) by (bit_vector)
            requires
                1 <= i < 22,
                p <= (0x7FFF_FFFFu32 >> ((i - 1) as u32)),
        ;
        lemma_crc_step_clears(p, i);
        assert(crc_reduce(w, n) == crc_step(p, i));
    }
}

/// The check bits that `spec_crc` adds lie in the low ten bits of the word.
pub proof fn lemma_crc_remainder_low(w: u32)
    ensures
        crc_reduce(w, 22) < 1024,
        spec_crc(w) & 0xFFFF_FC00 == w & 0xFFFF_FC00,
{
    lemma_crc_reduce_bound(w, 22);
    let r = crc_reduce(w, 22);
    assert(r < 1024) by (bit_vector)
        requires
            r <= (0x7FFF_FFFFu32 >> 21u32),
    ;
    assert((w | r) & 0xFFFF_FC00 == w & 0xFFFF_FC00) by (bit_vector)
        requires
            r < 1024,
    ;
}

/// `parity_fold` is the exclusive or of the bits: it is 0 on the zero word
/// and changes whenever a single bit of the word changes.
pub proof fn lemma_parity_fold_counts_bits(w: u32, k: u32)
    by (bit_vector)
    requires
        k < 32,
    ensures
        parity_fold(0) == 0,
        parity_fold(w) == 0 || parity_fold(w) == 1,
        parity_fold(w ^ (1u32 << k)) == parity_fold(w) ^ 1,
{
}

/// The parity bit makes the word even exactly when bit 0 was free to take it,
/// or the word was even already.
pub proof fn lemma_parity_even(w: u32)
    by (bit_vector)
    ensures
        has_even_parity(spec_parity(w)) <==> (w & 1 == 0 || has_even_parity(w)),
        spec_parity(w) & 0xFFFF_FFFE == w & 0xFFFF_FFFE,
{
}

/// The three fixed words of the framing have even parity.
pub proof fn lemma_fixed_words_even()
    by (bit_vector)
    ensures
        has_even_parity(SYNC_WORD),
        has_even_parity(IDLE_WORD),
        has_even_parity(PREAMBLE_WORD),
{
}

/// What holds of every content word: check bits and parity are added below
/// the 21 bits of content, which come through unchanged, and bit 10 stays
/// clear, so that no content word is the synchronisation word.
pub proof fn lemma_content_word(d: u32)
    requires
        d & 0x7FF == 0,
    ensures
        spec_parity(spec_crc(d)) & 0xFFFF_F800 == d,
        spec_parity(spec_crc(d)) >> 11 == d >> 11,
        passes_check(spec_parity(spec_crc(d))),
        spec_parity(spec_crc(d)) != SYNC_WORD,
{
    lemma_crc_remainder_low(d);
    lemma_parity_even(spec_crc(d));
    let c = spec_crc(d);
    let w = spec_parity(c);
    assert(w & 0xFFFF_F800 == d && w >> 11 == d >> 11 && w != 0x7CD215D8u32) by (bit_vector)
        requires
            d & 0x7FF == 0,
            c & 0xFFFF_FC00 == d & 0xFFFF_FC00,
            w & 0xFFFF_FFFE == c & 0xFFFF_FFFE,
    ;
}

/// The check bits of the content `d` reach into bit 0 and leave the word with
/// an odd number of bits set, so that the parity bit cannot mend it.
pub open spec fn parity_bit_taken(d: u32) -> bool {
    spec_crc(d) & 1 == 1 && !has_even_parity(spec_crc(d))
}

/// A content word has even parity, except where the check bits have taken
/// the place of the parity bit.
pub proof fn lemma_content_word_parity(d: u32)
    requires
        d & 0x7FF == 0,
    ensures
        has_even_parity(spec_parity(spec_crc(d))) <==> !parity_bit_taken(d),
{
    lemma_parity_even(spec_crc(d));
    let c = spec_crc(d);
    assert(c & 1 == 0 || c & 1 == 1) by (bit_vector);
}

/// The upper 21 bits of an address word: the pager address without its low
/// three bits, then the two function bits.
pub open spec fn address_content(ric: u32, func: u8) -> u32 {
    ((ric & 0x001F_FFF8) << 10) | ((func as u32 & 0b11) << 11)
}

/// The address codeword of a call.
pub open spec fn spec_address_word(ric: u32, func: u8) -> u32 {
    spec_parity(spec_crc(address_content(ric, func)))
}

/// The upper 21 bits of a message word: the flag bit, then 20 bits of text.
pub open spec fn message_content(payload: u32) -> u32 {
    0x8000_0000u32 | (payload << 11)
}

/// The message codeword that carries 20 bits of text.
pub open spec fn spec_message_word(payload: u32) -> u32 {
    spec_parity(spec_crc(message_content(payload)))
}

/// The symbol at place `i` of a message: the encoded byte of the text, and
/// the trailing symbol past its end.
pub open spec fn symbol_at(data: Seq<u8>, encoding: Encoding, i: int) -> u8 {
    if 0 <= i < data.len() {
        encoding.spec_encode(data[i])
    } else {
        encoding.spec_trailing()
    }
}

/// Bit `p` of the text as it goes on the air: the symbols follow one another,
/// each with its least significant bit first.
pub open spec fn stream_bit(data: Seq<u8>, encoding: Encoding, p: int) -> u32 {
    let width = encoding.spec_bits() as int;
    (symbol_at(data, encoding, p / width) as u32 >> ((p % width) as u32)) & 1
}

/// The `n` bits of the text from bit `pos` on, the first of them highest.
pub open spec fn pack_bits(data: Seq<u8>, encoding: Encoding, pos: int, n: nat) -> u32
    decreases n,
{
    if n == 0 {
        0
    } else {
        (pack_bits(data, encoding, pos, (n - 1) as nat) << 1) | stream_bit(
            data,
            encoding,
            pos + n - 1,
        )
    }
}

/// The 20 bits of text that message word number `index` of a message carries.
pub open spec fn spec_payload(data: Seq<u8>, encoding: Encoding, index: nat) -> u32 {
    pack_bits(data, encoding, 20 * (index as int), 20)
}

/// Number of message words that a text of `len` bytes takes.
pub open spec fn message_words(len: nat, encoding: Encoding) -> nat {
    let bits = len * encoding.spec_bits();
    ((bits + 19) / 20) as nat
}

proof fn lemma_pack_step(w: u32, bit: u32, n: u32)
    by (bit_vector)
    requires
        n < 20,
        w < (1u32 << n),
        bit <= 1,
    ensures
        ((w << 1) | bit) < (1u32 << ((n + 1) as u32)),
{
}

proof fn lemma_pack_bits_bound(data: Seq<u8>, encoding: Encoding, pos: int, n: nat)
    requires
        n <= 20,
    ensures
        pack_bits(data, encoding, pos, n) < (1u32 << (n as u32)),
    decreases n,
{
    if n == 0 {
        assert(0u32 < (1u32 << 0u32)) by (bit_vector);
    } else {
        lemma_pack_bits_bound(data, encoding, pos, (n - 1) as nat);
        let w = pack_bits(data, encoding, pos, (n - 1) as nat);
        let bit = stream_bit(data, encoding, pos + n - 1);
        let sym = symbol_at(data, encoding, (pos + n - 1) / (encoding.spec_bits() as int)) as u32;
        let shift = ((pos + n - 1) % (encoding.spec_bits() as int)) as u32;
        assert(((sym >> shift) & 1) <= 1) by (bit_vector);
        lemma_pack_step(w, bit, (n - 1) as u32);
    }
}

/// A payload fills 20 bits and no more.
pub proof fn lemma_payload_bound(data: Seq<u8>, encoding: Encoding, index: nat)
    ensures
        spec_payload(data, encoding, index) < 0x10_0000,
{
    lemma_pack_bits_bound(data, encoding, 20 * (index as int), 20);
    assert((1u32 << 20u32) == 0x10_0000u32) by (bit_vector);
}

proof fn lemma_pack_shift(w: u32, bit: u32, k: u32)
    by (bit_vector)
    requires
        w < 0x10_0000,
        bit <= 1,
        k < 20,
    ensures
        ((w << 1) | bit) & 1 == bit,
        (((w << 1) | bit) >> ((k + 1) as u32)) & 1 == (w >> k) & 1,
{
}

proof fn lemma_pack_bits_place(data: Seq<u8>, encoding: Encoding, pos: int, n: nat, j: int)
    requires
        n <= 20,
        0 <= j < n,
    ensures
        (pack_bits(data, encoding, pos, n) >> ((n - 1 - j) as u32)) & 1 == stream_bit(
            data,
            encoding,
            pos + j,
        ),
    decreases n,
{
    let shorter = pack_bits(data, encoding, pos, (n - 1) as nat);
    let bit = stream_bit(data, encoding, pos + n - 1);
    let sym = symbol_at(data, encoding, (pos + n - 1) / (encoding.spec_bits() as int)) as u32;
    let shift = ((pos + n - 1) % (encoding.spec_bits() as int)) as u32;
    assert(((sym >> shift) & 1) <= 1) by (bit_vector);
    lemma_pack_bits_bound(data, encoding, pos, (n - 1) as nat);
    let short = (n - 1) as u32;
    assert(shorter < 0x10_0000) by (bit_vector)
        requires
            short < 20,
            shorter < (1u32 << short),
    ;
    if j == n - 1 {
        lemma_pack_shift(shorter, bit, 0);
        assert(((shorter << 1) | bit) >> 0u32 == (shorter << 1) | bit) by (bit_vector);
    } else {
        lemma_pack_bits_place(data, encoding, pos, (n - 1) as nat, j);
        lemma_pack_shift(shorter, bit, (n - 2 - j) as u32);
    }
}

/// Within the 20 bits of a payload the text runs from the highest bit down:
/// bit `j` of the part of the text that the word carries stands at place
/// `19 - j`.
pub proof fn lemma_payload_bit(data: Seq<u8>, encoding: Encoding, index: nat, j: int)
    requires
        0 <= j < 20,
    ensures
        (spec_payload(data, encoding, index) >> ((19 - j) as u32)) & 1 == stream_bit(
            data,
            encoding,
            20 * index + j,
        ),
{
    lemma_pack_bits_place(data, encoding, 20 * (index as int), 20, j);
}

/// The symbol that `width` bits of the air stream from bit `first` on stand
/// for, the first bit lowest.
pub open spec fn unpack_symbol(data: Seq<u8>, encoding: Encoding, first: int, width: nat) -> u32
    decreases width,
{
    if width == 0 {
        0
    } else {
        stream_bit(data, encoding, first) | (unpack_symbol(
            data,
            encoding,
            first + 1,
            (width - 1) as nat,
        ) << 1)
    }
}

proof fn lemma_symbol_bound(data: Seq<u8>, encoding: Encoding, i: int)
    ensures
        encoding.mtype == crate::pocsag::message::MessageType::AlphaNum ==> symbol_at(
            data,
            encoding,
            i,
        ) < 128,
        encoding.mtype == crate::pocsag::message::MessageType::Numeric ==> symbol_at(
            data,
            encoding,
            i,
        ) < 16,
{
}

proof fn lemma_gather(s: u32)
    by (bit_vector)
    ensures
        s < 16 ==> s == ((s >> 0u32) & 1) | ((((s >> 1u32) & 1) | ((((s >> 2u32) & 1) | ((((s
            >> 3u32) & 1) | (0u32 << 1)) << 1)) << 1)) << 1),
        s < 128 ==> s == ((s >> 0u32) & 1) | ((((s >> 1u32) & 1) | ((((s >> 2u32) & 1) | ((((s
            >> 3u32) & 1) | ((((s >> 4u32) & 1) | ((((s >> 5u32) & 1) | ((((s >> 6u32) & 1) | (0u32
            << 1)) << 1)) << 1)) << 1)) << 1)) << 1)) << 1),
{
}

proof fn lemma_stream_bit_of_symbol(data: Seq<u8>, encoding: Encoding, i: int, b: int)
    requires
        0 <= i,
        0 <= b < encoding.spec_bits(),
    ensures
        stream_bit(data, encoding, i * encoding.spec_bits() + b) == (symbol_at(data, encoding, i) as u32
            >> (b as u32)) & 1,
{
    let width = encoding.spec_bits() as int;
    let first = i * width;
    assert((first + b) / width == i && (first + b) % width == b) by (nonlinear_arith)
        requires
            first == i * width,
            0 <= b < width,
            0 <= i,
    ;
}

/// The text can be read back from the air stream: the bits of symbol `i`,
/// gathered lowest first, are that symbol again. Past the end of the text
/// this is the trailing symbol.
pub proof fn lemma_symbol_round_trip(data: Seq<u8>, encoding: Encoding, i: int)
    requires
        0 <= i,
    ensures
        unpack_symbol(data, encoding, i * encoding.spec_bits(), encoding.spec_bits()) == symbol_at(
            data,
            encoding,
            i,
        ),
{
    let width = encoding.spec_bits() as int;
    let first = i * width;
    let s = symbol_at(data, encoding, i) as u32;
    lemma_symbol_bound(data, encoding, i);
    lemma_gather(s);
    lemma_stream_bit_of_symbol(data, encoding, i, 0);
    lemma_stream_bit_of_symbol(data, encoding, i, 1);
    lemma_stream_bit_of_symbol(data, encoding, i, 2);
    lemma_stream_bit_of_symbol(data, encoding, i, 3);
    if width == 7 {
        lemma_stream_bit_of_symbol(data, encoding, i, 4);
        lemma_stream_bit_of_symbol(data, encoding, i, 5);
        lemma_stream_bit_of_symbol(data, encoding, i, 6);
    }
    reveal_with_fuel(unpack_symbol, 8);
    assert(stream_bit(data, encoding, first + 0) == (s >> 0u32) & 1);
    assert(stream_bit(data, encoding, first + 1) == (s >> 1u32) & 1);
    assert(stream_bit(data, encoding, first + 2) == (s >> 2u32) & 1);
    assert(stream_bit(data, encoding, first + 3) == (s >> 3u32) & 1);
    if width == 7 {
        assert(stream_bit(data, encoding, first + 4) == (s >> 4u32) & 1);
        assert(stream_bit(data, encoding, first + 5) == (s >> 5u32) & 1);
        assert(stream_bit(data, encoding, first + 6) == (s >> 6u32) & 1);
    }
}

/// The address can be read back from the address word and its place in the
/// batch: the word holds all but the low three bits and the function bits,
/// and the frame gives the low three bits.
pub proof fn lemma_address_round_trip(ric: u32, func: u8, position: u32)
    requires
        ric < 0x20_0000,
        func < 4,
        position == 2 * (ric & 0b111),
    ensures
        ((spec_address_word(ric, func) >> 13) << 3) | (position >> 1) == ric,
        (spec_address_word(ric, func) >> 11) & 0b11 == func,
{
    lemma_address_word(ric, func);
    let w = spec_address_word(ric, func);
    assert((w >> 13) << 3 | (position >> 1) == ric && (w >> 11) & 0b11 == func) by (bit_vector)
        requires
            w >> 13 == (ric >> 3) & 0x3_FFFF,
            (w >> 11) & 0b11 == func & 0b11,
            ric < 0x20_0000,
            func < 4,
            position == 2 * (ric & 0b111),
    ;
}

/// What holds of every address word: bit 31 is clear, bits 30 to 13 hold
/// the address without its low three bits and bits 12 and 11 the function
/// bits, the word passes the check of its low bits and is not the
/// synchronisation word. It is the idle word only for the address and
/// function that the idle word stands at. Its parity is even unless the
/// check bits have taken the place of the parity bit.
pub proof fn lemma_address_word(ric: u32, func: u8)
    ensures
        address_content(ric, func) & 0x7FF == 0,
        spec_address_word(ric, func) & 0xFFFF_F800 == address_content(ric, func),
        spec_address_word(ric, func) & 0x8000_0000 == 0,
        spec_address_word(ric, func) >> 13 == (ric >> 3) & 0x3_FFFF,
        (spec_address_word(ric, func) >> 11) & 0b11 == func & 0b11,
        passes_check(spec_address_word(ric, func)),
        spec_address_word(ric, func) != SYNC_WORD,
        address_content(ric, func) != 0x7A89_C000 ==> spec_address_word(ric, func) != IDLE_WORD,
        has_even_parity(spec_address_word(ric, func)) <==> !parity_bit_taken(
            address_content(ric, func),
        ),
{
    let content = address_content(ric, func);
    assert(content & 0x7FF == 0 && (content >> 11) & 0x10_0000 == 0 && (content >> 11) >> 2 == (ric
        >> 3) & 0x3_FFFF && (content >> 11) & 0b11 == func & 0b11) by (bit_vector)
        requires
            content == ((ric & 0x001F_FFF8) << 10) | ((func as u32 & 0b11) << 11),
    ;
    lemma_content_word(content);
    lemma_content_word_parity(content);
    let w = spec_parity(spec_crc(content));
    let top = content >> 11;
    assert(w & 0x8000_0000 == 0 && w >> 13 == top >> 2 && (w == 0x7A89_C197u32 ==> w
        & 0xFFFF_F800 == 0x7A89_C000u32)) by (bit_vector)
        requires
            w >> 11 == top,
            top & 0x10_0000 == 0,
    ;
}

/// What holds of every message word: bit 31 is set, bits 30 to 11 hold the
/// 20 bits of text, the word passes the check of its low bits and is
/// neither the synchronisation word nor the idle word. Its parity is even
/// unless the check bits have taken the place of the parity bit.
pub proof fn lemma_message_word(payload: u32)
    requires
        payload < 0x10_0000,
    ensures
        message_content(payload) & 0x7FF == 0,
        spec_message_word(payload) & 0xFFFF_F800 == message_content(payload),
        spec_message_word(payload) & 0x8000_0000 != 0,
        (spec_message_word(payload) >> 11) & 0xF_FFFF == payload,
        passes_check(spec_message_word(payload)),
        spec_message_word(payload) != SYNC_WORD,
        spec_message_word(payload) != IDLE_WORD,
        has_even_parity(spec_message_word(payload)) <==> !parity_bit_taken(
            message_content(payload),
        ),
{
    let content = message_content(payload);
    assert(content & 0x7FF == 0 && (content >> 11) & 0x10_0000 != 0 && (content >> 11) & 0xF_FFFF
        == payload) by (bit_vector)
        requires
            content == 0x8000_0000u32 | (payload << 11),
            payload < 0x10_0000,
    ;
    lemma_content_word(content);
    lemma_content_word_parity(content);
    let w = spec_parity(spec_crc(content));
    let top = content >> 11;
    assert(w & 0x8000_0000 != 0 && w != 0x7A89_C197u32) by (bit_vector)
        requires
            w >> 11 == top,
            top & 0x10_0000 != 0,
    ;
}

/// The address codeword of a call: bit 31 clear, the address without its low
/// three bits in bits 30 to 13, the function bits in bits 12 and 11, check
/// bits and parity below.
pub fn address_word(ric: u32, func: u8) -> (w: u32)
    ensures
        w == spec_address_word(ric, func),
        w & 0x8000_0000 == 0,
        w >> 13 == (ric >> 3) & 0x3_FFFF,
        (w >> 11) & 0b11 == func & 0b11,
        passes_check(w),
        w != SYNC_WORD,
{
    let addr = (ric & 0x001F_FFF8) << 10;
    let func_bits = (func as u32 & 0b11) << 11;
    proof {
        lemma_address_word(ric, func);
    }
    parity(crc(addr | func_bits))
}

/// The message codeword for 20 bits of text: bit 31 set, the text in bits 30
/// to 11, check bits and parity below.
pub fn message_word(payload: u32) -> (w: u32)
    requires
        payload < 0x10_0000,
    ensures
        w == spec_message_word(payload),
        w & 0x8000_0000 != 0,
        (w >> 11) & 0xF_FFFF == payload,
        passes_check(w),
        w != SYNC_WORD,
{
    proof {
        lemma_message_word(payload);
    }
    parity(crc(0x8000_0000u32 | (payload << 11)))
}

/// The 20 bits of text for message word number `index`.
pub fn payload(data: &[u8], encoding: Encoding, index: usize) -> (bits: u32)
    ensures
        bits == spec_payload(data@, encoding, index as nat),
        bits < 0x10_0000,
{
    let width: u128 = encoding.bits() as u128;
    let pos: u128 = 20 * (index as u128);
    let mut word: u32 = 0;
    let mut n: u128 = 0;
    while n < 20
        invariant
            n <= 20,
            width == encoding.spec_bits(),
            pos == 20 * index,
            word == pack_bits(data@, encoding, pos as int, n as nat),
        decreases 20 - n,
    {
        let p: u128 = pos + n;
        let place: u128 = p / width;
        let shift: u32 = (p % width) as u32;
        let sym: u8 = if place < data.len() as u128 {
            encoding.encode(data[place as usize])
        } else {
            encoding.trailing()
        };
        word = (word << 1) | ((sym as u32 >> shift) & 1);
        n += 1;
    }
    proof {
        lemma_payload_bound(data@, encoding, index as nat);
    }
    word
}

/// Fills in the check bits of a codeword.
pub fn crc(codeword: u32) -> (r: u32)
    ensures
        r == spec_crc(codeword),
{
    let mut crc = codeword;
    let mut i: u32 = 0;
    while i < 22
        invariant
            i <= 22,
            crc == crc_reduce(codeword, i as nat),
        decreases 22 - i,
    {
        if (crc & (0x8000_0000u32 >> i)) != 0 {
            crc = crc ^ (0xED20_0000u32 >> i);
        }
        i += 1;
    }
    codeword | crc
}

/// Fills in the parity bit of a codeword.
pub fn parity(codeword: u32) -> (r: u32)
    ensures
        r == spec_parity(codeword),
{
    let mut parity = codeword ^ (codeword >> 1);
    parity = parity ^ (parity >> 2);
    parity = parity ^ (parity >> 4);
    parity = parity ^ (parity >> 8);
    parity = parity ^ (parity >> 16);
    codeword | (parity & 1)
}

} // verus!
