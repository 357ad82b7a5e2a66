use std::str::FromStr;

use unipager::clock::TimeSpan;
use unipager::pocsag::timeslots::{hex_digit, TimeSlot, TimeSlots, MIN_BUDGET, TAIL_GUARD};

fn at_decis(decis: u64) -> TimeSpan {
    TimeSpan::from_decis(decis)
}

fn nanos(span: TimeSpan) -> u128 {
    span.secs as u128 * 1_000_000_000 + span.nanos as u128
}

fn slot(index: usize) -> TimeSlot {
    TimeSlot::new(index).unwrap()
}

#[test]
pub fn test_timeslots() {
    let slots = TimeSlots::from_str("AC39").unwrap();
    println!("Curr {:?}", TimeSlot::current());
    println!("Next {:?}", slots.next_allowed());
    println!("Until {:?}", slots.next_allowed().unwrap().duration_until());
}

#[test]
fn slots_from_hex_digits() {
    let slots = TimeSlots::from_str("AC39").unwrap();
    let mut expected = [false; 16];
    for i in [0xA, 0xC, 0x3, 0x9] {
        expected[i] = true;
    }
    assert_eq!(slots.0, expected);
    assert_eq!(TimeSlots::from_hex_chars("AC39"), slots);
    assert_eq!(TimeSlots::from_hex_chars("ac39"), slots);
    assert_eq!(TimeSlots::from_hex_chars("93CA"), slots);
    assert_eq!(TimeSlots::from_hex_chars("9 3,C-A!9g"), slots);
    assert_eq!(TimeSlots::from_hex_chars(""), TimeSlots::new());
    assert_eq!(TimeSlots::from_hex_chars("xyz é"), TimeSlots::new());
    assert_eq!(TimeSlots::from_hex_chars("0123456789abcdef").0, [true; 16]);
}

#[test]
fn slots_to_hex_digits_and_back() {
    assert_eq!(TimeSlots::from_hex_chars("AC39").to_hex_chars(), "39AC");
    assert_eq!(TimeSlots::from_hex_chars("fedcba9876543210").to_hex_chars(), "0123456789ABCDEF");
    assert_eq!(TimeSlots::new().to_hex_chars(), "");
    for text in ["", "0", "F", "a1b2", "0F0F", "39AC", "c0ffee"] {
        let slots = TimeSlots::from_hex_chars(text);
        assert_eq!(TimeSlots::from_hex_chars(&slots.to_hex_chars()), slots);
    }
}

#[test]
fn hex_digits() {
    assert_eq!(hex_digit('0'), Some(0));
    assert_eq!(hex_digit('9'), Some(9));
    assert_eq!(hex_digit('a'), Some(10));
    assert_eq!(hex_digit('F'), Some(15));
    assert_eq!(hex_digit('g'), None);
    assert_eq!(hex_digit('/'), None);
    assert_eq!(hex_digit(':'), None);
    assert_eq!(hex_digit('@'), None);
    assert_eq!(hex_digit('`'), None);
    assert_eq!(hex_digit('é'), None);
}

#[test]
fn slots_from_list() {
    let slots = TimeSlots::from_vec(vec![true, false, true]);
    assert_eq!(slots.to_hex_chars(), "02");
    let mut long = vec![false; 20];
    long[15] = true;
    long[17] = true;
    assert_eq!(TimeSlots::from_vec(long).to_hex_chars(), "F");
    assert_eq!(TimeSlots::from_vec(vec![]), TimeSlots::new());
}

#[test]
fn slot_math() {
    let now = at_decis(0x3F0);
    assert_eq!(TimeSlot::at(now).index(), 0xF);
    let wait = slot(0).duration_until_at(now);
    assert_eq!(wait, TimeSpan::new(1, 600_000_000));
    assert_eq!(slot(0xF).duration_until_at(now), TimeSpan::zero());
    // slot 14 has passed in this cycle: it begins again 64 tenths before
    // slot 15 does, one cycle on
    assert_eq!(nanos(slot(14).duration_until_at(now)), (0x400 - 0x40 - 0x30) * 100_000_000);
}

#[test]
fn slot_of_a_time() {
    assert_eq!(TimeSlot::at(TimeSpan::zero()).index(), 0);
    assert_eq!(TimeSlot::at(TimeSpan::new(6, 399_999_999)).index(), 0);
    assert_eq!(TimeSlot::at(TimeSpan::new(6, 400_000_000)).index(), 1);
    assert_eq!(TimeSlot::at(TimeSpan::new(102, 399_999_999)).index(), 15);
    assert_eq!(TimeSlot::at(TimeSpan::new(102, 400_000_000)).index(), 0);
    assert_eq!(TimeSlot::at(TimeSpan::new(u64::MAX, 999_999_999)).index(), 15);
    assert!(TimeSlot::new(16).is_none());
    assert_eq!(slot(7).index(), 7);
}

#[test]
fn current_slot_has_no_wait() {
    for decis in [0u64, 1, 63, 64, 1023, 1024, 17_000_000_000, u64::MAX / 100] {
        let now = at_decis(decis);
        let current = TimeSlot::at(now);
        assert_eq!(current.duration_until_at(now), TimeSpan::zero());
        assert!(current.active_at(now));
    }
    let now = TimeSpan::new(1_700_000_000, 123_456_789);
    assert_eq!(TimeSlot::at(now).duration_until_at(now), TimeSpan::zero());
}

#[test]
fn wait_is_shorter_than_a_cycle() {
    for secs in [0u64, 5, 6, 7, 100, 102, 103, 1_700_000_000, u64::MAX] {
        for fraction in [0u32, 1, 99_999_999, 100_000_000, 399_999_999, 400_000_000, 999_999_999] {
            let now = TimeSpan::new(secs, fraction);
            for index in 0..16 {
                let wait = slot(index).duration_until_at(now);
                assert!(nanos(wait) < 102_400_000_000);
                assert!(wait.nanos < 1_000_000_000);
                if slot(index).active_at(now) {
                    assert_eq!(nanos(wait), 0);
                } else {
                    assert!(nanos(wait) > 0);
                    // the slot begins when the wait is over
                    let then = nanos(now) + nanos(wait);
                    assert_eq!(then % 100_000_000, 0);
                    assert_eq!((then / 100_000_000 / 64) % 16, index as u128);
                    assert_eq!((then / 100_000_000) % 64, 0);
                }
            }
        }
    }
}

#[test]
fn wait_counts_the_part_of_a_tenth_that_has_passed() {
    let now = TimeSpan::new(0, 50_000_000);
    assert_eq!(slot(1).duration_until_at(now), TimeSpan::new(6, 350_000_000));
    assert_eq!(slot(15).duration_until_at(now), TimeSpan::new(95, 950_000_000));
}

#[test]
fn allowed_slots() {
    let slots = TimeSlots::from_hex_chars("39");
    assert!(slots.is_allowed(slot(3)));
    assert!(slots.is_allowed(slot(9)));
    assert!(!slots.is_allowed(slot(0)));
    assert!(slots.is_allowed_at(at_decis(3 * 64)));
    assert!(!slots.is_allowed_at(at_decis(4 * 64)));
}

#[test]
fn next_allowed_searches_round_the_cycle() {
    let slots = TimeSlots::from_hex_chars("39");
    assert_eq!(slots.next_allowed_from(slot(0)).unwrap().index(), 3);
    assert_eq!(slots.next_allowed_from(slot(3)).unwrap().index(), 3);
    assert_eq!(slots.next_allowed_from(slot(4)).unwrap().index(), 9);
    assert_eq!(slots.next_allowed_from(slot(10)).unwrap().index(), 3);
    assert_eq!(slots.next_allowed_from(slot(15)).unwrap().index(), 3);
    assert!(TimeSlots::new().next_allowed_from(slot(5)).is_none());
    assert!(TimeSlots::new().next_allowed().is_none());
    assert_eq!(slots.next_allowed_at(at_decis(10 * 64 + 5)).unwrap().index(), 3);
    let only = TimeSlots::from_hex_chars("0");
    for current in 0..16 {
        assert_eq!(only.next_allowed_from(slot(current)).unwrap().index(), 0);
    }
}

#[test]
fn budget_of_a_slot() {
    assert_eq!(TAIL_GUARD, 30);
    assert_eq!(MIN_BUDGET, 30);
    let slots = TimeSlots::from_hex_chars("0");
    // a whole slot at 1200 baud holds 240 codewords
    assert_eq!(slots.calculate_budget_at(at_decis(0), 1200), 210);
    assert_eq!(slots.calculate_budget_at(at_decis(32), 1200), 90);
    assert_eq!(slots.calculate_budget_at(at_decis(48), 1200), 30);
    assert_eq!(slots.calculate_budget_at(at_decis(47), 1200), 33);
    assert_eq!(slots.calculate_budget_at(at_decis(56), 1200), 0);
    assert_eq!(slots.calculate_budget_at(at_decis(63), 1200), 0);
    // the slot is not allowed
    assert_eq!(slots.calculate_budget_at(at_decis(64), 1200), 0);
    assert_eq!(slots.calculate_budget_at(at_decis(0), 512), 72);
    assert_eq!(slots.calculate_budget_at(at_decis(0), 2400), 450);
    assert_eq!(slots.calculate_budget_at(at_decis(0), 0), 0);
    assert_eq!(slots.calculate_budget_at(at_decis(0), u32::MAX), 858_993_429);
    assert_eq!(TimeSlots::new().calculate_budget(1200), 0);
}

#[test]
fn clock_gives_a_slot() {
    let current = TimeSlot::current();
    assert!(current.index() < 16);
    let wait = current.duration_until();
    assert!(nanos(wait) < 102_400_000_000);
    let all = TimeSlots::from_hex_chars("0123456789ABCDEF");
    assert!(all.is_current_allowed());
    assert!(all.next_allowed().is_some());
    assert!(!TimeSlots::new().is_current_allowed());
    // one of two slots that lie half a cycle apart is not on
    assert!(!(slot(0).active() && slot(8).active()));
}
