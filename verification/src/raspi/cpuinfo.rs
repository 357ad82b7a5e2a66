//! Reading the board's description of its processor: the revision code and
//! the hardware family. The description is a text of lines; a line names
//! something, and what it says of it follows behind a colon.

use vstd::prelude::*;
use crate::raspi::model::{spec_model, Model};

verus! {

/// The line feed that ends a line.
pub const LINE_FEED: u8 = 0x0A;

/// The colon that parts the fields of a line.
pub const COLON: u8 = 0x3A;

/// The name of the line with the revision code, `Revision`.
pub open spec fn revision_key() -> Seq<u8> {
    seq![0x52u8, 0x65u8, 0x76u8, 0x69u8, 0x73u8, 0x69u8, 0x6Fu8, 0x6Eu8]
}

/// The name of the line with the hardware family, `Hardware`.
pub open spec fn hardware_key() -> Seq<u8> {
    seq![0x48u8, 0x61u8, 0x72u8, 0x64u8, 0x77u8, 0x61u8, 0x72u8, 0x65u8]
}

/// The short name of the Allwinner family, `sun8i`.
pub open spec fn sun8i_name() -> Seq<u8> {
    seq![0x73u8, 0x75u8, 0x6Eu8, 0x38u8, 0x69u8]
}

/// The long name of the Allwinner family, `Allwinner sun8i Family`.
pub open spec fn allwinner_name() -> Seq<u8> {
    seq![
        0x41u8,
        0x6Cu8,
        0x6Cu8,
        0x77u8,
        0x69u8,
        0x6Eu8,
        0x6Eu8,
        0x65u8,
        0x72u8,
        0x20u8,
        0x73u8,
        0x75u8,
        0x6Eu8,
        0x38u8,
        0x69u8,
        0x20u8,
        0x46u8,
        0x61u8,
        0x6Du8,
        0x69u8,
        0x6Cu8,
        0x79u8,
    ]
}

/// Blanks: space, tab, line feed, vertical tab, form feed and carriage
/// return.
pub open spec fn is_blank(byte: u8) -> bool {
    byte == 0x20 || (0x09 <= byte <= 0x0D)
}

/// The place of the first `mark` in the text from `start` up to `end`, or
/// `end` where there is none.
pub open spec fn next_mark(text: Seq<u8>, mark: u8, start: int, end: int) -> int
    decreases end - start,
{
    if start >= end {
        end
    } else if text[start] == mark {
        start
    } else {
        next_mark(text, mark, start + 1, end)
    }
}

/// The part of the text from `start` up to `end` begins with `key`.
pub open spec fn begins_with(text: Seq<u8>, start: int, end: int, key: Seq<u8>) -> bool {
    start + key.len() <= end && text.subrange(start, start + key.len()) == key
}

/// The ends of the first line from place `start` on that begins with
/// `key`. A line ends at the next line feed or at the end of the text.
pub open spec fn find_line(text: Seq<u8>, start: int, key: Seq<u8>) -> Option<(int, int)>
    decreases text.len() - start,
{
    if start > text.len() || start < 0 {
        None
    } else {
        let end = next_mark(text, LINE_FEED, start, text.len() as int);
        if begins_with(text, start, end, key) {
            Some((start, end))
        } else if end >= text.len() || end < start {
            None
        } else {
            find_line(text, end + 1, key)
        }
    }
}

/// The ends of the second of the fields that colons part a line into, if
/// the line has a colon.
pub open spec fn second_field(text: Seq<u8>, start: int, end: int) -> Option<(int, int)> {
    let first = next_mark(text, COLON, start, end);
    if first >= end {
        None
    } else {
        Some((first + 1, next_mark(text, COLON, first + 1, end)))
    }
}

/// The place of the first byte from `start` up to `end` that is no blank,
/// or `end`.
pub open spec fn skip_blanks(text: Seq<u8>, start: int, end: int) -> int
    decreases end - start,
{
    if start >= end {
        end
    } else if !is_blank(text[start]) {
        start
    } else {
        skip_blanks(text, start + 1, end)
    }
}

/// The place behind the last byte from `start` up to `end` that is no
/// blank, or `start`.
pub open spec fn drop_blanks(text: Seq<u8>, start: int, end: int) -> int
    decreases end - start,
{
    if end <= start {
        start
    } else if !is_blank(text[end - 1]) {
        end
    } else {
        drop_blanks(text, start, end - 1)
    }
}

/// The ends of a field without the blanks at its ends.
pub open spec fn trimmed(text: Seq<u8>, start: int, end: int) -> (int, int) {
    let first = skip_blanks(text, start, end);
    (first, drop_blanks(text, first, end))
}

/// The value of a hexadecimal digit.
pub open spec fn digit_value(byte: u8) -> Option<int> {
    if 0x30 <= byte <= 0x39 {
        Some(byte - 0x30)
    } else if 0x41 <= byte <= 0x46 {
        Some(byte - 0x41 + 10)
    } else if 0x61 <= byte <= 0x66 {
        Some(byte - 0x61 + 10)
    } else {
        None
    }
}

/// The number that the `n` bytes from `start` on stand for, if they are
/// all hexadecimal digits.
pub open spec fn digits_value(text: Seq<u8>, start: int, n: nat) -> Option<int>
    decreases n,
{
    if n == 0 {
        Some(0)
    } else {
        match (digits_value(text, start, (n - 1) as nat), digit_value(text[start + n - 1])) {
            (Some(high), Some(low)) => Some(high * 16 + low),
            _ => None,
        }
    }
}

/// The number that the text from `start` up to `end` stands for in
/// hexadecimal: one digit at the least, a plus sign before the digits at
/// will, and a value that 32 bits hold.
pub open spec fn hex_number(text: Seq<u8>, start: int, end: int) -> Option<u32> {
    let first = if start < end && text[start] == 0x2B {
        start + 1
    } else {
        start
    };
    if first >= end {
        None
    } else {
        match digits_value(text, first, (end - first) as nat) {
            Some(value) => if value <= u32::MAX {
                Some(value as u32)
            } else {
                None
            },
            None => None,
        }
    }
}

/// The revision code: the number in the second field of the first line
/// that begins with `Revision`, and zero where there is no such line, no
/// such field or no number in it.
pub open spec fn spec_revision(text: Seq<u8>) -> u32 {
    match find_line(text, 0, revision_key()) {
        Some((start, end)) => match second_field(text, start, end) {
            Some((from, to)) => {
                let (first, last) = trimmed(text, from, to);
                match hex_number(text, first, last) {
                    Some(number) => number,
                    None => 0,
                }
            },
            None => 0,
        },
        None => 0,
    }
}

/// Whether the hardware is of the Allwinner sun8i family: the second field
/// of the first line that begins with `Hardware` names it, by its short or
/// by its long name.
pub open spec fn spec_is_sun8i(text: Seq<u8>) -> bool {
    match find_line(text, 0, hardware_key()) {
        Some((start, end)) => match second_field(text, start, end) {
            Some((from, to)) => {
                let (first, last) = trimmed(text, from, to);
                text.subrange(first, last) == sun8i_name() || text.subrange(first, last)
                    == allwinner_name()
            },
            None => false,
        },
        None => false,
    }
}

fn find_mark(text: &[u8], mark: u8, start: usize, end: usize) -> (place: usize)
    requires
        start <= end <= text.len(),
    ensures
        place == next_mark(text@, mark, start as int, end as int),
        start <= place <= end,
{
    let mut i = start;
    while i < end && text[i] != mark
        invariant
            start <= i <= end <= text.len(),
            next_mark(text@, mark, start as int, end as int) == next_mark(
                text@,
                mark,
                i as int,
                end as int,
            ),
        decreases end - i,
    {
        i += 1;
    }
    i
}

fn has_key(text: &[u8], start: usize, end: usize, key: &[u8]) -> (has: bool)
    requires
        start <= end <= text.len(),
    ensures
        has == begins_with(text@, start as int, end as int, key@),
{
    if key.len() > end - start {
        return false;
    }
    let mut i: usize = 0;
    while i < key.len()
        invariant
            i <= key.len(),
            start + key.len() <= end <= text.len(),
            forall|k: int| 0 <= k < i ==> text@[start + k] == key@[k],
        decreases key.len() - i,
    {
        if text[start + i] != key[i] {
            assert(text@.subrange(start as int, start + key.len())[i as int] != key@[i as int]);
            return false;
        }
        i += 1;
    }
    assert(text@.subrange(start as int, start + key.len()) =~= key@);
    true
}

fn line_with(text: &[u8], key: &[u8]) -> (line: Option<(usize, usize)>)
    ensures
        match line {
            Some((start, end)) => find_line(text@, 0, key@) == Some((start as int, end as int))
                && start <= end <= text.len(),
            None => find_line(text@, 0, key@).is_none(),
        },
{
    let mut start: usize = 0;
    loop
        invariant
            start <= text.len(),
            find_line(text@, 0, key@) == find_line(text@, start as int, key@),
        decreases text.len() - start,
    {
        let end = find_mark(text, LINE_FEED, start, text.len());
        if has_key(text, start, end, key) {
            return Some((start, end));
        }
        if end >= text.len() {
            return None;
        }
        start = end + 1;
    }
}

fn field_of(text: &[u8], start: usize, end: usize) -> (field: Option<(usize, usize)>)
    requires
        start <= end <= text.len(),
    ensures
        match field {
            Some((from, to)) => second_field(text@, start as int, end as int) == Some(
                (from as int, to as int),
            ) && start <= from <= to <= end,
            None => second_field(text@, start as int, end as int).is_none(),
        },
{
    let first = find_mark(text, COLON, start, end);
    if first >= end {
        None
    } else {
        Some((first + 1, find_mark(text, COLON, first + 1, end)))
    }
}

fn blank(byte: u8) -> (b: bool)
    ensures
        b == is_blank(byte),
{
    byte == 0x20 || (0x09 <= byte && byte <= 0x0D)
}

fn trim(text: &[u8], start: usize, end: usize) -> (ends: (usize, usize))
    requires
        start <= end <= text.len(),
    ensures
        (ends.0 as int, ends.1 as int) == trimmed(text@, start as int, end as int),
        start <= ends.0 <= ends.1 <= end,
{
    let mut first = start;
    while first < end && blank(text[first])
        invariant
            start <= first <= end <= text.len(),
            skip_blanks(text@, start as int, end as int) == skip_blanks(
                text@,
                first as int,
                end as int,
            ),
        decreases end - first,
    {
        first += 1;
    }
    let mut last = end;
    while last > first && blank(text[last - 1])
        invariant
            first <= last <= end <= text.len(),
            drop_blanks(text@, first as int, end as int) == drop_blanks(
                text@,
                first as int,
                last as int,
            ),
        decreases last - first,
    {
        last -= 1;
    }
    (first, last)
}

fn digit(byte: u8) -> (value: Option<u64>)
    ensures
        match value {
            Some(v) => digit_value(byte) == Some(v as int) && v < 16,
            None => digit_value(byte).is_none(),
        },
{
    if 0x30 <= byte && byte <= 0x39 {
        Some((byte - 0x30) as u64)
    } else if 0x41 <= byte && byte <= 0x46 {
        Some((byte - 0x41 + 10) as u64)
    } else if 0x61 <= byte && byte <= 0x66 {
        Some((byte - 0x61 + 10) as u64)
    } else {
        None
    }
}

proof fn lemma_digits_grow(text: Seq<u8>, start: int, m: nat, n: nat)
    requires
        m <= n,
    ensures
        digits_value(text, start, m).is_none() ==> digits_value(text, start, n).is_none(),
        digits_value(text, start, n) matches Some(whole) ==> digits_value(text, start, m).is_some()
            && 0 <= digits_value(text, start, m).unwrap() <= whole,
    decreases n,
{
    if m < n {
        lemma_digits_grow(text, start, m, (n - 1) as nat);
    } else {
        lemma_digits_nonnegative(text, start, n);
    }
}

proof fn lemma_digits_nonnegative(text: Seq<u8>, start: int, n: nat)
    ensures
        digits_value(text, start, n) matches Some(value) ==> value >= 0,
    decreases n,
{
    if n > 0 {
        lemma_digits_nonnegative(text, start, (n - 1) as nat);
    }
}

fn number(text: &[u8], start: usize, end: usize) -> (parsed: Option<u32>)
    requires
        start <= end <= text.len(),
    ensures
        parsed == hex_number(text@, start as int, end as int),
{
    let first = if start < end && text[start] == 0x2B {
        start + 1
    } else {
        start
    };
    if first >= end {
        return None;
    }
    let mut value: u64 = 0;
    let mut i = first;
    while i < end
        invariant
            first <= i <= end <= text.len(),
            first < end,
            first == if start < end && text@[start as int] == 0x2B {
                start + 1
            } else {
                start as int
            },
            value <= u32::MAX,
            digits_value(text@, first as int, (i - first) as nat) == Some(value as int),
        decreases end - i,
    {
        let ghost upto = (i + 1 - first) as nat;
        match digit(text[i]) {
            Some(low) => {
                value = value * 16 + low;
                assert(digits_value(text@, first as int, upto) == Some(value as int));
                if value > u32::MAX as u64 {
                    proof {
                        lemma_digits_grow(
                            text@,
                            first as int,
                            (i + 1 - first) as nat,
                            (end - first) as nat,
                        );
                    }
                    return None;
                }
            },
            None => {
                assert(digits_value(text@, first as int, upto).is_none());
                proof {
                    lemma_digits_grow(
                        text@,
                        first as int,
                        (i + 1 - first) as nat,
                        (end - first) as nat,
                    );
                }
                return None;
            },
        }
        i += 1;
    }
    Some(value as u32)
}

/// The revision code that the description gives.
pub fn revision(text: &[u8]) -> (code: u32)
    ensures
        code == spec_revision(text@),
{
    let key: [u8; 8] = [0x52, 0x65, 0x76, 0x69, 0x73, 0x69, 0x6F, 0x6E];
    assert(key@ =~= revision_key());
    match line_with(text, key.as_slice()) {
        Some((start, end)) => match field_of(text, start, end) {
            Some((from, to)) => {
                let (first, last) = trim(text, from, to);
                match number(text, first, last) {
                    Some(code) => code,
                    None => 0,
                }
            },
            None => 0,
        },
        None => 0,
    }
}

fn is_name(text: &[u8], start: usize, end: usize, name: &[u8]) -> (same: bool)
    requires
        start <= end <= text.len(),
    ensures
        same == (text@.subrange(start as int, end as int) == name@),
{
    if end - start != name.len() {
        return false;
    }
    has_key(text, start, end, name)
}

/// Whether the description names hardware of the Allwinner sun8i family.
pub fn is_sun8i(text: &[u8]) -> (sun8i: bool)
    ensures
        sun8i == spec_is_sun8i(text@),
{
    let key: [u8; 8] = [0x48, 0x61, 0x72, 0x64, 0x77, 0x61, 0x72, 0x65];
    assert(key@ =~= hardware_key());
    let short: [u8; 5] = [0x73, 0x75, 0x6E, 0x38, 0x69];
    assert(short@ =~= sun8i_name());
    let long: [u8; 22] = [
        0x41,
        0x6C,
        0x6C,
        0x77,
        0x69,
        0x6E,
        0x6E,
        0x65,
        0x72,
        0x20,
        0x73,
        0x75,
        0x6E,
        0x38,
        0x69,
        0x20,
        0x46,
        0x61,
        0x6D,
        0x69,
        0x6C,
        0x79,
    ];
    assert(long@ =~= allwinner_name());
    match line_with(text, key.as_slice()) {
        Some((start, end)) => match field_of(text, start, end) {
            Some((from, to)) => {
                let (first, last) = trim(text, from, to);
                is_name(text, first, last, short.as_slice()) || is_name(
                    text,
                    first,
                    last,
                    long.as_slice(),
                )
            },
            None => false,
        },
        None => false,
    }
}

impl Model {
    /// The model that the description of the processor tells of.
    pub fn from_cpuinfo(text: &[u8]) -> (model: Model)
        ensures
            model == spec_model(spec_revision(text@), spec_is_sun8i(text@)),
    {
        Model::from_revision(revision(text), is_sun8i(text))
    }
}

} // verus!
