//! Small pieces of text handling: numbers in decimal and letters in lower
//! case.

use vstd::prelude::*;

verus! {

/// The character for a decimal digit.
pub open spec fn digit_char(d: int) -> char {
    ((0x30 + d) as u8) as char
}

/// A number in decimal, without leading zeros.
pub open spec fn decimal_text(n: nat) -> Seq<char>
    decreases n,
{
    if n < 10 {
        seq![digit_char(n as int)]
    } else {
        decimal_text(n / 10).push(digit_char((n % 10) as int))
    }
}

/// A letter of the upper case as the same letter of the lower case, and any
/// other character as it is.
pub open spec fn lower_char(c: char) -> char {
    if 0x41 <= c as u32 <= 0x5A {
        ((c as u32 + 0x20) as u8) as char
    } else {
        c
    }
}

/// A text with its upper-case letters put into lower case.
pub open spec fn lower_text(text: Seq<char>) -> Seq<char> {
    Seq::new(text.len(), |i: int| lower_char(text[i]))
}

/// `String::push`: the character is added at the end of the text.
#[verifier::external_body]
fn push_char(text: &mut String, c: char)
    ensures
        final(text)@ == old(text)@.push(c),
{
    text.push(c);
}

/// The digits of a list, the last of them first.
pub open spec fn reversed_digits(digits: Seq<u8>) -> Seq<char> {
    Seq::new(digits.len(), |i: int| digit_char(digits[digits.len() - 1 - i] as int))
}

/// Writes a number in decimal.
pub fn decimal(n: u64) -> (text: String)
    ensures
        text@ == decimal_text(n as nat),
{
    // the digits from the lowest up
    let mut digits: Vec<u8> = Vec::new();
    digits.push((n % 10) as u8);
    let mut rest = n / 10;
    assert(reversed_digits(digits@) =~= seq![digit_char((n % 10) as int)]);
    while rest > 0
        invariant
            forall|i: int| 0 <= i < digits.len() ==> (#[trigger] digits[i]) < 10,
            decimal_text(n as nat) == if rest > 0 {
                decimal_text(rest as nat) + reversed_digits(digits@)
            } else {
                reversed_digits(digits@)
            },
        decreases rest,
    {
        let ghost lower = reversed_digits(digits@);
        let ghost whole = rest;
        digits.push((rest % 10) as u8);
        rest = rest / 10;
        proof {
            assert(reversed_digits(digits@) =~= seq![digit_char((whole % 10) as int)] + lower);
            if rest > 0 {
                assert(decimal_text(n as nat) =~= decimal_text(rest as nat) + reversed_digits(
                    digits@,
                ));
            } else {
                assert(decimal_text(n as nat) =~= reversed_digits(digits@));
            }
        }
    }
    let mut text = String::new();
    let mut i: usize = digits.len();
    while i > 0
        invariant
            i <= digits.len(),
            forall|k: int| 0 <= k < digits.len() ==> (#[trigger] digits[k]) < 10,
            text@ == reversed_digits(digits@).take(digits.len() - i),
        decreases i,
    {
        i -= 1;
        push_char(&mut text, (0x30 + digits[i]) as char);
        assert(text@ =~= reversed_digits(digits@).take(digits.len() - i));
    }
    assert(reversed_digits(digits@).take(digits.len() as int) =~= reversed_digits(digits@));
    text
}

/// Puts the upper-case letters of a text into lower case.
pub fn to_lower(text: &str) -> (lower: String)
    ensures
        lower@ == lower_text(text@),
{
    let mut lower = String::new();
    let len = text.unicode_len();
    let mut i: usize = 0;
    while i < len
        invariant
            i <= len,
            len == text@.len(),
            lower@ == lower_text(text@.take(i as int)),
        decreases len - i,
    {
        let c = text.get_char(i);
        let code = c as u32;
        let l = if 0x41 <= code && code <= 0x5A {
            ((code + 0x20) as u8) as char
        } else {
            c
        };
        push_char(&mut lower, l);
        assert(lower@ =~= lower_text(text@.take(i + 1)));
        i += 1;
    }
    assert(text@.take(len as int) =~= text@);
    lower
}

} // verus!
