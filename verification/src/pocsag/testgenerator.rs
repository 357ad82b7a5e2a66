//! The test transmission: preamble words and nothing else.

use vstd::prelude::*;
use crate::pocsag::codeword::PREAMBLE_WORD;

verus! {

/// Gives a fixed number of preamble words.
pub struct TestGenerator {
    length: usize,
}

impl View for TestGenerator {
    type V = nat;

    /// The words that are still to come.
    closed spec fn view(&self) -> nat {
        self.length as nat
    }
}

impl TestGenerator {
    /// A generator of `length` preamble words.
    pub fn new(length: usize) -> (generator: TestGenerator)
        ensures
            generator@ == length,
    {
        TestGenerator { length }
    }

    /// The next word, while there is one to come.
    pub fn next(&mut self) -> (word: Option<u32>)
        ensures
            old(self)@ > 0 ==> word == Some(PREAMBLE_WORD) && final(self)@ == old(self)@ - 1,
            old(self)@ == 0 ==> word.is_none() && final(self)@ == 0,
    {
        if self.length > 0 {
            self.length -= 1;
            Some(PREAMBLE_WORD)
        } else {
            None
        }
    }
}

} // verus!
