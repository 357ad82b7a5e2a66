//! The sixteen time slots of the paging cycle, and the set of slots in which
//! this transmitter may key up.

use vstd::prelude::*;
use crate::clock::{unix_time, TimeSpan};

verus! {

/// Codewords kept free at the end of a slot.
pub const TAIL_GUARD: usize = 30;

/// A budget must exceed this many codewords before a transmission starts.
pub const MIN_BUDGET: usize = 30;

/// The slot that is on at time `t`: a slot lasts 64 tenths of a second, and
/// sixteen slots make a cycle.
pub open spec fn slot_at(t: TimeSpan) -> int {
    (t.as_decis() / 64) % 16
}

/// The tenth of a second, counted from the epoch, at which `slot` begins
/// next after time `t`: in the running cycle, or in the one after it where
/// that start is not in the future.
pub open spec fn slot_start(slot: int, t: TimeSpan) -> int {
    let now = t.as_decis();
    let target = now - now % 1024 + 64 * slot;
    if target <= now {
        target + 1024
    } else {
        target
    }
}

/// Nanoseconds from time `t` until `slot` begins; nothing while it is on.
pub open spec fn spec_duration_until(slot: int, t: TimeSpan) -> int {
    if slot == slot_at(t) {
        0
    } else {
        slot_start(slot, t) * 100_000_000 - t.as_nanos()
    }
}

/// The slot that comes `k` slots after `current` in the cycle.
pub open spec fn slot_after(current: int, k: int) -> int {
    (current + k) % 16
}

/// Tenths of a second that are left of the slot that is on at time `t`.
pub open spec fn remaining_decis(t: TimeSpan) -> int {
    64 - t.as_decis() % 64
}

/// Codewords that still fit into the running slot at time `t`, the tail guard
/// taken off; nothing where the slot is not in the set.
pub open spec fn spec_budget(slots: Seq<bool>, t: TimeSpan, baud: u32) -> int {
    if slots[slot_at(t)] {
        let fit = remaining_decis(t) * baud / 320;
        if fit > TAIL_GUARD {
            fit - TAIL_GUARD
        } else {
            0
        }
    } else {
        0
    }
}

/// The value of a hexadecimal digit, in either case.
pub open spec fn hex_value(c: char) -> Option<int> {
    let code = c as u32;
    if 0x30 <= code <= 0x39 {
        Some(code - 0x30)
    } else if 0x41 <= code <= 0x46 {
        Some(code - 0x41 + 10)
    } else if 0x61 <= code <= 0x66 {
        Some(code - 0x61 + 10)
    } else {
        None
    }
}

/// The digit that names a slot: `0` to `9`, then `A` to `F`.
pub open spec fn hex_char(slot: int) -> char {
    if slot < 10 {
        ((0x30 + slot) as u8) as char
    } else {
        ((0x41 + slot - 10) as u8) as char
    }
}

/// The slots that the digits of a text name.
pub open spec fn hex_bitmap(text: Seq<char>) -> Seq<bool> {
    Seq::new(16, |slot: int| exists|j: int| 0 <= j < text.len() && hex_value(text[j]) == Some(slot))
}

/// The digits of the slots below `upto` that are in the set, in rising order.
pub open spec fn hex_text(slots: Seq<bool>, upto: nat) -> Seq<char>
    decreases upto,
{
    if upto == 0 {
        Seq::empty()
    } else if slots[upto - 1] {
        hex_text(slots, (upto - 1) as nat).push(hex_char(upto - 1))
    } else {
        hex_text(slots, (upto - 1) as nat)
    }
}

/// The slot that is on follows from the place in the cycle of 1024 tenths.
pub proof fn lemma_slot_in_cycle(t: TimeSpan)
    ensures
        slot_at(t) == (t.as_decis() % 1024) / 64,
        0 <= slot_at(t) < 16,
{
    let d = t.as_decis();
    let q = d / 1024;
    let c = d % 1024;
    assert(d == 1024 * q + c);
    assert(d / 64 == 16 * q + c / 64);
}

/// The wait for a slot that is not on, from the place in the cycle: the
/// tenths up to its start, less the part of a tenth that has passed.
proof fn lemma_wait(slot: int, t: TimeSpan)
    requires
        0 <= slot < 16,
        slot != slot_at(t),
    ensures
        ({
            let c = t.as_decis() % 1024;
            let gap = if slot < c / 64 {
                64 * slot + 1024 - c
            } else {
                64 * slot - c
            };
            &&& 0 < gap <= 1023
            &&& spec_duration_until(slot, t) == gap * 100_000_000 - t.nanos % 100_000_000
        }),
{
    lemma_slot_in_cycle(t);
    let d = t.as_decis();
    let c = d % 1024;
    let fine = t.nanos % 100_000_000;
    assert(t.nanos == (t.nanos / 100_000_000) * 100_000_000 + fine);
    assert(t.as_nanos() == d * 100_000_000 + fine);
}

/// One of the sixteen slots.
#[derive(Clone, Copy, Debug, PartialEq, Eq)]
pub struct TimeSlot(usize);

impl TimeSlot {
    #[verifier::type_invariant]
    spec fn in_range(self) -> bool {
        self.0 < 16
    }

    /// The number of the slot.
    pub closed spec fn spec_index(&self) -> int {
        self.0 as int
    }

    /// The slot with the given number, if there is one.
    pub fn new(index: usize) -> (slot: Option<TimeSlot>)
        ensures
            index < 16 ==> slot.is_some() && slot.unwrap().spec_index() == index,
            index >= 16 ==> slot.is_none(),
    {
        if index < 16 {
            Some(TimeSlot(index))
        } else {
            None
        }
    }

    pub fn index(&self) -> (i: usize)
        ensures
            i == self.spec_index(),
            i < 16,
    {
        proof {
            use_type_invariant(self);
        }
        self.0
    }

    /// The slot that is on at time `now`.
    pub fn at(now: TimeSpan) -> (slot: TimeSlot)
        ensures
            slot.spec_index() == slot_at(now),
    {
        let time = now.deciseconds();
        TimeSlot(((time / 64) % 16) as usize)
    }

    /// The slot that is on by the system clock.
    pub fn current() -> (slot: TimeSlot)
        ensures
            exists|now: TimeSpan| slot.spec_index() == #[trigger] slot_at(now),
            0 <= slot.spec_index() < 16,
    {
        let now = unix_time();
        proof {
            lemma_slot_in_cycle(now);
        }
        TimeSlot::at(now)
    }

    /// Whether this slot is on at time `now`.
    pub fn active_at(&self, now: TimeSpan) -> (b: bool)
        ensures
            b == (self.spec_index() == slot_at(now)),
    {
        self.0 == TimeSlot::at(now).0
    }

    /// Whether this slot is on by the system clock.
    pub fn active(&self) -> (b: bool)
        ensures
            exists|now: TimeSpan| b == (self.spec_index() == #[trigger] slot_at(now)),
    {
        self.active_at(unix_time())
    }

    /// The time from `now` until this slot begins; nothing while it is on.
    pub fn duration_until_at(&self, now: TimeSpan) -> (wait: TimeSpan)
        ensures
            wait.as_nanos() == spec_duration_until(self.spec_index(), now),
            wait.as_nanos() < 102_400_000_000,
            wait.nanos < 1_000_000_000,
            self.spec_index() != slot_at(now) ==> wait.as_nanos() > 0,
    {
        proof {
            use_type_invariant(self);
        }
        let in_cycle = (now.deciseconds() % 1024) as u64;
        let current_slot = in_cycle / 64;
        let this_slot = self.0 as u64;
        proof {
            lemma_slot_in_cycle(now);
        }
        if this_slot == current_slot {
            return TimeSpan::zero();
        }
        proof {
            lemma_wait(self.0 as int, now);
        }
        let gap = if this_slot < current_slot {
            this_slot * 64 + 1024 - in_cycle
        } else {
            this_slot * 64 - in_cycle
        };
        let wait = gap * 100_000_000 - (now.nanos % 100_000_000) as u64;
        TimeSpan { secs: wait / 1_000_000_000, nanos: (wait % 1_000_000_000) as u32 }
    }

    /// The time until this slot begins by the system clock.
    pub fn duration_until(&self) -> (wait: TimeSpan)
        ensures
            exists|now: TimeSpan|
                wait.as_nanos() == #[trigger] spec_duration_until(self.spec_index(), now),
            0 <= wait.as_nanos() < 102_400_000_000,
            wait.nanos < 1_000_000_000,
    {
        self.duration_until_at(unix_time())
    }
}

/// The slot that is on begins now: there is no wait for it.
pub proof fn lemma_current_slot_has_no_wait(now: TimeSpan)
    ensures
        spec_duration_until(slot_at(now), now) == 0,
{
}

/// The wait for any slot is shorter than one cycle of 102.4 seconds.
pub proof fn lemma_wait_within_cycle(slot: int, now: TimeSpan)
    requires
        0 <= slot < 16,
    ensures
        0 <= spec_duration_until(slot, now) < 102_400_000_000,
{
    if slot != slot_at(now) {
        lemma_wait(slot, now);
    }
}

/// The set of slots in which the transmitter may key up.
#[derive(Clone, Copy, Debug, PartialEq, Eq)]
pub struct TimeSlots(pub [bool; 16]);

impl View for TimeSlots {
    type V = Seq<bool>;

    open spec fn view(&self) -> Seq<bool> {
        self.0@
    }
}

/// The text for one slot digit.
fn hex_str(slot: usize) -> (text: &'static str)
    requires
        slot < 16,
    ensures
        text@ == seq![hex_char(slot as int)],
{
    proof {
        reveal_strlit("0");
        reveal_strlit("1");
        reveal_strlit("2");
        reveal_strlit("3");
        reveal_strlit("4");
        reveal_strlit("5");
        reveal_strlit("6");
        reveal_strlit("7");
        reveal_strlit("8");
        reveal_strlit("9");
        reveal_strlit("A");
        reveal_strlit("B");
        reveal_strlit("C");
        reveal_strlit("D");
        reveal_strlit("E");
        reveal_strlit("F");
    }
    let text = if slot == 0 {
        "0"
    } else if slot == 1 {
        "1"
    } else if slot == 2 {
        "2"
    } else if slot == 3 {
        "3"
    } else if slot == 4 {
        "4"
    } else if slot == 5 {
        "5"
    } else if slot == 6 {
        "6"
    } else if slot == 7 {
        "7"
    } else if slot == 8 {
        "8"
    } else if slot == 9 {
        "9"
    } else if slot == 10 {
        "A"
    } else if slot == 11 {
        "B"
    } else if slot == 12 {
        "C"
    } else if slot == 13 {
        "D"
    } else if slot == 14 {
        "E"
    } else {
        "F"
    };
    assert(text@ =~= seq![hex_char(slot as int)]);
    text
}

/// The value of a hexadecimal digit, in either case.
pub fn hex_digit(c: char) -> (value: Option<usize>)
    ensures
        match value {
            Some(v) => hex_value(c) == Some(v as int) && v < 16,
            None => hex_value(c).is_none(),
        },
{
    let code = c as u32;
    if 0x30 <= code && code <= 0x39 {
        Some((code - 0x30) as usize)
    } else if 0x41 <= code && code <= 0x46 {
        Some((code - 0x41 + 10) as usize)
    } else if 0x61 <= code && code <= 0x66 {
        Some((code - 0x61 + 10) as usize)
    } else {
        None
    }
}

impl TimeSlots {
    /// The empty set.
    pub fn new() -> (slots: TimeSlots)
        ensures
            forall|i: int| 0 <= i < 16 ==> !slots@[i],
    {
        TimeSlots([false; 16])
    }

    /// The set that holds slot `i` where entry `i` of the list is there and
    /// true.
    pub fn from_vec(allowed: Vec<bool>) -> (slots: TimeSlots)
        ensures
            forall|i: int| 0 <= i < 16 ==> slots@[i] == (i < allowed.len() && allowed[i]),
    {
        let mut slots = [false; 16];
        let mut i: usize = 0;
        while i < 16
            invariant
                i <= 16,
                forall|k: int| 0 <= k < i ==> slots@[k] == (k < allowed.len() && allowed[k]),
                forall|k: int| i <= k < 16 ==> !slots@[k],
            decreases 16 - i,
        {
            if i < allowed.len() && allowed[i] {
                slots[i] = true;
            }
            i += 1;
        }
        TimeSlots(slots)
    }

    /// The set of the slots whose digits occur in the text. What is no
    /// hexadecimal digit is passed over.
    pub fn from_hex_chars(text: &str) -> (slots: TimeSlots)
        ensures
            slots@ == hex_bitmap(text@),
    {
        let mut slots = [false; 16];
        let len = text.unicode_len();
        let mut j: usize = 0;
        while j < len
            invariant
                j <= len,
                len == text@.len(),
                forall|slot: int|
                    0 <= slot < 16 ==> (slots@[slot] <==> exists|k: int|
                        0 <= k < j && hex_value(text@[k]) == Some(slot)),
            decreases len - j,
        {
            let c = text.get_char(j);
            let ghost before = slots@;
            match hex_digit(c) {
                Some(v) => {
                    slots[v] = true;
                },
                None => {},
            }
            assert forall|slot: int| 0 <= slot < 16 implies (slots@[slot] <==> exists|k: int|
                0 <= k < j + 1 && hex_value(text@[k]) == Some(slot)) by {
                if slots@[slot] {
                    if before[slot] {
                        let k = choose|k: int| 0 <= k < j && hex_value(text@[k]) == Some(slot);
                        assert(0 <= k < j + 1 && hex_value(text@[k]) == Some(slot));
                    } else {
                        assert(hex_value(text@[j as int]) == Some(slot));
                    }
                }
                if exists|k: int| 0 <= k < j + 1 && hex_value(text@[k]) == Some(slot) {
                    let k = choose|k: int| 0 <= k < j + 1 && hex_value(text@[k]) == Some(slot);
                    if k < j {
                        assert(before[slot]);
                    }
                }
            }
            j += 1;
        }
        assert(slots@ =~= hex_bitmap(text@));
        TimeSlots(slots)
    }

    /// The digits of the slots in the set, in rising order.
    pub fn to_hex_chars(&self) -> (text: String)
        ensures
            text@ == hex_text(self@, 16),
    {
        let mut text = String::new();
        let mut i: usize = 0;
        while i < 16
            invariant
                i <= 16,
                text@ == hex_text(self@, i as nat),
            decreases 16 - i,
        {
            if self.0[i] {
                text.append(hex_str(i));
                assert(text@ =~= hex_text(self@, i as nat).push(hex_char(i as int)));
            }
            i += 1;
        }
        text
    }

    /// Whether the slot is in the set.
    pub fn is_allowed(&self, slot: TimeSlot) -> (b: bool)
        ensures
            b == self@[slot.spec_index()],
    {
        self.0[slot.index()]
    }

    /// Whether the slot that is on at time `now` is in the set.
    pub fn is_allowed_at(&self, now: TimeSpan) -> (b: bool)
        ensures
            b == self@[slot_at(now)],
    {
        self.is_allowed(TimeSlot::at(now))
    }

    /// Whether the slot that is on by the system clock is in the set.
    pub fn is_current_allowed(&self) -> (b: bool)
        ensures
            exists|now: TimeSpan| b == self@[#[trigger] slot_at(now)],
    {
        self.is_allowed_at(unix_time())
    }

    /// The first slot of the set in the order of the cycle, from `current`
    /// on and round to the slot before it.
    pub fn next_allowed_from(&self, current: TimeSlot) -> (next: Option<TimeSlot>)
        ensures
            match next {
                Some(slot) => exists|k: int|
                    0 <= k < 16 && slot.spec_index() == #[trigger] slot_after(
                        current.spec_index(),
                        k,
                    ) && self@[slot.spec_index()] && forall|j: int|
                        0 <= j < k ==> !self@[#[trigger] slot_after(current.spec_index(), j)],
                None => forall|i: int| 0 <= i < 16 ==> !self@[i],
            },
    {
        let start = current.index();
        let mut k: usize = 0;
        while k < 16
            invariant
                k <= 16,
                start < 16,
                start == current.spec_index(),
                forall|j: int| 0 <= j < k ==> !self@[#[trigger] slot_after(start as int, j)],
            decreases 16 - k,
        {
            let i = (start + k) % 16;
            if self.0[i] {
                let found = TimeSlot(i);
                assert(0 <= k < 16 && found.spec_index() == slot_after(
                    current.spec_index(),
                    k as int,
                ));
                return Some(found);
            }
            k += 1;
        }
        assert forall|i: int| 0 <= i < 16 implies !self@[i] by {
            let j = if i >= start {
                i - start
            } else {
                i + 16 - start
            };
            assert(slot_after(start as int, j) == i);
        }
        None
    }

    /// The next slot of the set at time `now`, the running slot first.
    pub fn next_allowed_at(&self, now: TimeSpan) -> (next: Option<TimeSlot>)
        ensures
            match next {
                Some(slot) => exists|k: int|
                    0 <= k < 16 && slot.spec_index() == #[trigger] slot_after(slot_at(now), k)
                        && self@[slot.spec_index()] && forall|j: int|
                        0 <= j < k ==> !self@[#[trigger] slot_after(slot_at(now), j)],
                None => forall|i: int| 0 <= i < 16 ==> !self@[i],
            },
    {
        self.next_allowed_from(TimeSlot::at(now))
    }

    /// The next slot of the set by the system clock, the running slot first.
    pub fn next_allowed(&self) -> (next: Option<TimeSlot>)
        ensures
            match next {
                Some(slot) => self@[slot.spec_index()] && exists|now: TimeSpan, k: int|
                    0 <= k < 16 && slot.spec_index() == #[trigger] slot_after(slot_at(now), k)
                        && forall|j: int|
                        0 <= j < k ==> !self@[#[trigger] slot_after(slot_at(now), j)],
                None => forall|i: int| 0 <= i < 16 ==> !self@[i],
            },
    {
        self.next_allowed_at(unix_time())
    }

    /// Codewords that still fit into the running slot at time `now` at the
    /// given baud rate, the tail guard taken off.
    pub fn calculate_budget_at(&self, now: TimeSpan, baud: u32) -> (budget: usize)
        ensures
            budget == spec_budget(self@, now, baud),
    {
        proof {
            lemma_slot_in_cycle(now);
        }
        if !self.is_allowed_at(now) {
            return 0;
        }
        let remaining = 64 - (now.deciseconds() % 64) as u64;
        assert(remaining * (baud as u64) <= 64 * 0xFFFF_FFFF) by (nonlinear_arith)
            requires
                remaining <= 64,
                baud <= 0xFFFF_FFFF,
        ;
        let fit = remaining * (baud as u64) / 320;
        if fit > TAIL_GUARD as u64 {
            (fit - TAIL_GUARD as u64) as usize
        } else {
            0
        }
    }

    /// Codewords that still fit into the running slot by the system clock.
    pub fn calculate_budget(&self, baud: u32) -> (budget: usize)
        ensures
            exists|now: TimeSpan| budget == #[trigger] spec_budget(self@, now, baud),
    {
        self.calculate_budget_at(unix_time(), baud)
    }
}

impl std::str::FromStr for TimeSlots {
    type Err = ();

    /// Reads a set from the digits of its slots; see `from_hex_chars`.
    fn from_str(text: &str) -> (slots: Result<TimeSlots, ()>)
        ensures
            slots matches Ok(set) && set@ == hex_bitmap(text@),
    {
        Ok(TimeSlots::from_hex_chars(text))
    }
}

/// Each slot digit has the slot's number as its value.
pub proof fn lemma_hex_char_value(slot: int)
    requires
        0 <= slot < 16,
    ensures
        hex_value(hex_char(slot)) == Some(slot),
{
}

proof fn lemma_hex_text_members(slots: Seq<bool>, upto: nat, c: char)
    requires
        slots.len() == 16,
        upto <= 16,
    ensures
        hex_text(slots, upto).contains(c) <==> exists|i: int|
            0 <= i < upto && slots[i] && c == hex_char(i),
    decreases upto,
{
    if upto > 0 {
        let shorter = hex_text(slots, (upto - 1) as nat);
        lemma_hex_text_members(slots, (upto - 1) as nat, c);
        if slots[upto - 1] {
            let text = shorter.push(hex_char(upto - 1));
            if text.contains(c) {
                let j = choose|j: int| 0 <= j < text.len() && text[j] == c;
                if j < shorter.len() {
                    assert(shorter[j] == c);
                    assert(shorter.contains(c));
                } else {
                    assert(slots[upto - 1] && c == hex_char(upto - 1));
                }
            }
            if exists|i: int| 0 <= i < upto && slots[i] && c == hex_char(i) {
                let i = choose|i: int| 0 <= i < upto && slots[i] && c == hex_char(i);
                if i < upto - 1 {
                    assert(shorter.contains(c));
                    let j = choose|j: int| 0 <= j < shorter.len() && shorter[j] == c;
                    assert(text[j] == c);
                } else {
                    assert(text[shorter.len() as int] == c);
                }
            }
        }
    }
}

/// Writing a set as digits and reading the digits gives the set back.
pub proof fn lemma_hex_text_round_trip(slots: Seq<bool>)
    requires
        slots.len() == 16,
    ensures
        hex_bitmap(hex_text(slots, 16)) == slots,
{
    let text = hex_text(slots, 16);
    assert forall|slot: int| 0 <= slot < 16 implies hex_bitmap(text)[slot] == slots[slot] by {
        lemma_hex_char_value(slot);
        lemma_hex_text_members(slots, 16, hex_char(slot));
        if slots[slot] {
            assert(text.contains(hex_char(slot)));
            let j = choose|j: int| 0 <= j < text.len() && text[j] == hex_char(slot);
            assert(hex_value(text[j]) == Some(slot));
        }
        if hex_bitmap(text)[slot] {
            let j = choose|j: int| 0 <= j < text.len() && hex_value(text[j]) == Some(slot);
            lemma_hex_text_members(slots, 16, text[j]);
            assert(text.contains(text[j]));
            let i = choose|i: int| 0 <= i < 16 && slots[i] && text[j] == hex_char(i);
            lemma_hex_char_value(i);
        }
    }
    assert(hex_bitmap(text) =~= slots);
}

/// Reading a text, writing the set and reading that again changes nothing:
/// the written form stands for the same set as the text it came from.
pub proof fn lemma_hex_normal_form(text: Seq<char>)
    ensures
        hex_bitmap(hex_text(hex_bitmap(text), 16)) == hex_bitmap(text),
{
    lemma_hex_text_round_trip(hex_bitmap(text));
}

/// The set that a text names depends on which characters are in it, not on
/// their order or number.
pub proof fn lemma_hex_order_independent(a: Seq<char>, b: Seq<char>)
    requires
        forall|c: char| a.contains(c) <==> b.contains(c),
    ensures
        hex_bitmap(a) == hex_bitmap(b),
{
    assert forall|slot: int| 0 <= slot < 16 implies hex_bitmap(a)[slot] == hex_bitmap(b)[slot] by {
        if hex_bitmap(a)[slot] {
            let j = choose|j: int| 0 <= j < a.len() && hex_value(a[j]) == Some(slot);
            assert(a.contains(a[j]));
            assert(b.contains(a[j]));
            let k = choose|k: int| 0 <= k < b.len() && b[k] == a[j];
            assert(hex_value(b[k]) == Some(slot));
        }
        if hex_bitmap(b)[slot] {
            let j = choose|j: int| 0 <= j < b.len() && hex_value(b[j]) == Some(slot);
            assert(b.contains(b[j]));
            assert(a.contains(b[j]));
            let k = choose|k: int| 0 <= k < a.len() && a[k] == b[j];
            assert(hex_value(a[k]) == Some(slot));
        }
    }
    assert(hex_bitmap(a) =~= hex_bitmap(b));
}

} // verus!
