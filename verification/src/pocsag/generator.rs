//! The codeword generator: preamble, batches of sixteen codewords behind a
//! synchronisation word, and in them the address and message words of one
//! message after the other.

use vstd::prelude::*;
use crate::message::{MessageProvider, ProtocolMessage};
use crate::pocsag::codeword::{
    address_word, message_word, payload, spec_address_word, spec_message_word, spec_payload,
    IDLE_WORD, PREAMBLE_WORD, SYNC_WORD,
};
use crate::pocsag::encoding::Encoding;
use crate::pocsag::message::Message;

verus! {

/// Preamble length in codewords.
pub const PREAMBLE_LENGTH: u8 = 18;

/// Codewords in a batch, the synchronisation word not counted.
pub const BATCH_LENGTH: u8 = 16;

/// What the generator is sending.
pub enum Phase {
    /// The preamble before the first batch.
    Preamble,
    /// Idle words up to the frame of the current message, then its address.
    AddressWord,
    /// The text of the current message; `index` message words are out.
    MessageWord { index: nat },
    /// Idle words to the end of the batch.
    Completed,
}

/// The state of a generator.
pub struct GeneratorModel {
    pub phase: Phase,
    /// Codewords that are left of the preamble or of the batch.
    pub codewords: nat,
    /// The message that is being sent.
    pub message: Option<Message>,
    /// Calls of `next` so far.
    pub count: nat,
}

/// The batch position that the address of a pager must stand in: the first
/// word of the frame that its low three bits select.
pub open spec fn address_position(ric: u32) -> int {
    2 * ((ric & 0b111) as int)
}

/// Bits of text in a message.
pub open spec fn text_bits(message: Message) -> nat {
    message.bytes().len() * Encoding { mtype: message.mtype }.spec_bits()
}

impl GeneratorModel {
    /// A generator before its first codeword.
    pub open spec fn start(first: Message) -> GeneratorModel {
        GeneratorModel {
            phase: Phase::Preamble,
            codewords: PREAMBLE_LENGTH as nat,
            message: Some(first),
            count: 0,
        }
    }

    /// What holds of every state that a generator gets into.
    pub open spec fn wf(self) -> bool {
        &&& self.count <= usize::MAX
        &&& match self.phase {
            Phase::Preamble => self.codewords <= PREAMBLE_LENGTH && self.message.is_some(),
            Phase::AddressWord => self.codewords <= BATCH_LENGTH && self.message.is_some(),
            Phase::MessageWord { index } => self.codewords <= BATCH_LENGTH
                && self.message.is_some() && 20 * index < text_bits(self.message.unwrap()),
            Phase::Completed => self.codewords <= BATCH_LENGTH,
        }
    }

    /// Place in the batch of the codeword that comes next.
    pub open spec fn position(self) -> int {
        BATCH_LENGTH - self.codewords
    }

    /// The count of calls after one more; it stops at the largest number
    /// that the counter holds.
    pub open spec fn counted(self) -> nat {
        if self.count < usize::MAX {
            self.count + 1
        } else {
            self.count
        }
    }

    /// The next codeword is the last of the current message, so that the
    /// provider is asked for the message that follows.
    pub open spec fn finishing(self) -> bool {
        self.codewords > 0 && match (self.phase, self.message) {
            (Phase::AddressWord, Some(m)) => address_position(m.ric) == self.position()
                && m.bytes().len() == 0,
            (Phase::MessageWord { index }, Some(m)) => 20 * (index + 1) >= text_bits(m),
            _ => false,
        }
    }

    /// The state after the last codeword of a message, by what the provider
    /// answered.
    pub open spec fn follow(self, answer: Option<Message>) -> GeneratorModel {
        match answer {
            Some(m) => GeneratorModel {
                phase: Phase::AddressWord,
                codewords: (self.codewords - 1) as nat,
                message: Some(m),
                count: self.counted(),
            },
            None => GeneratorModel {
                phase: Phase::Completed,
                codewords: (self.codewords - 1) as nat,
                message: None,
                count: self.counted(),
            },
        }
    }

    /// The state one codeword further into the batch, in the given phase.
    pub open spec fn within_batch(self, phase: Phase) -> GeneratorModel {
        GeneratorModel {
            phase,
            codewords: (self.codewords - 1) as nat,
            message: self.message,
            count: self.counted(),
        }
    }

    /// The state at the start of a new batch, in the given phase.
    pub open spec fn new_batch(self, phase: Phase) -> GeneratorModel {
        GeneratorModel {
            phase,
            codewords: BATCH_LENGTH as nat,
            message: self.message,
            count: self.counted(),
        }
    }

    /// One call of `next`: the state after it and the codeword that it gives,
    /// where `answer` is what the provider says if it is asked.
    pub open spec fn step(self, answer: Option<Message>) -> (GeneratorModel, Option<u32>) {
        if self.codewords == 0 {
            match self.phase {
                Phase::Completed => (
                    GeneratorModel {
                        phase: Phase::Completed,
                        codewords: 0,
                        message: self.message,
                        count: self.counted(),
                    },
                    None,
                ),
                Phase::Preamble => (self.new_batch(Phase::AddressWord), Some(SYNC_WORD)),
                _ => (self.new_batch(self.phase), Some(SYNC_WORD)),
            }
        } else {
            match (self.phase, self.message) {
                (Phase::Preamble, _) => (self.within_batch(Phase::Preamble), Some(PREAMBLE_WORD)),
                (Phase::AddressWord, Some(m)) => if address_position(m.ric) == self.position() {
                    if m.bytes().len() == 0 {
                        (self.follow(answer), Some(spec_address_word(m.ric, m.func)))
                    } else {
                        (
                            self.within_batch(Phase::MessageWord { index: 0 }),
                            Some(spec_address_word(m.ric, m.func)),
                        )
                    }
                } else {
                    (self.within_batch(Phase::AddressWord), Some(IDLE_WORD))
                },
                (Phase::MessageWord { index }, Some(m)) => {
                    let word = spec_message_word(
                        spec_payload(m.bytes(), Encoding { mtype: m.mtype }, index),
                    );
                    if 20 * (index + 1) >= text_bits(m) {
                        (self.follow(answer), Some(word))
                    } else {
                        (self.within_batch(Phase::MessageWord { index: index + 1 }), Some(word))
                    }
                },
                _ => (self.within_batch(Phase::Completed), Some(IDLE_WORD)),
            }
        }
    }
}

/// A text has at most seven bits to the byte.
pub proof fn lemma_text_bits_bound(message: Message)
    ensures
        text_bits(message) <= 7 * message.bytes().len(),
        text_bits(message) >= 4 * message.bytes().len(),
{
}

/// Each step leads from a well-formed state to a well-formed state, and only
/// a step that finishes a message looks at the provider's answer.
pub proof fn lemma_step_keeps_wf(model: GeneratorModel, answer: Option<Message>)
    requires
        model.wf(),
    ensures
        model.step(answer).0.wf(),
        !model.finishing() ==> model.step(answer) == model.step(None),
{
}

/// The batch position that the address of a pager must stand in.
pub fn address_slot(ric: u32) -> (slot: u8)
    ensures
        slot == address_position(ric),
        slot <= 14,
{
    let slot = ((ric & 0b111) << 1) as u8;
    assert(slot == 2 * (ric & 0b111) && slot <= 14) by (bit_vector)
        requires
            slot == ((ric & 0b111) << 1) as u8,
    ;
    slot
}

#[derive(Clone, Copy)]
enum State {
    Preamble,
    AddressWord,
    MessageWord(usize),
    Completed,
}

/// Generates the codewords of a transmission, one with each call of `next`.
pub struct Generator {
    state: State,
    message: Option<Message>,
    codewords: u8,
    count: usize,
}

impl View for Generator {
    type V = GeneratorModel;

    closed spec fn view(&self) -> GeneratorModel {
        GeneratorModel {
            phase: match self.state {
                State::Preamble => Phase::Preamble,
                State::AddressWord => Phase::AddressWord,
                State::MessageWord(index) => Phase::MessageWord { index: index as nat },
                State::Completed => Phase::Completed,
            },
            codewords: self.codewords as nat,
            message: self.message,
            count: self.count as nat,
        }
    }
}

impl Generator {
    #[verifier::type_invariant]
    spec fn well_formed(&self) -> bool {
        self@.wf()
    }

    /// A generator that sends `first_msg` first.
    pub fn new(first_msg: Message) -> (generator: Generator)
        ensures
            generator@ == GeneratorModel::start(first_msg),
            generator@.wf(),
    {
        Generator {
            state: State::Preamble,
            message: Some(first_msg),
            codewords: PREAMBLE_LENGTH,
            count: 0,
        }
    }

    /// Number of calls of `next` so far.
    pub fn count(&self) -> (n: usize)
        ensures
            n == self@.count,
    {
        self.count
    }

    /// Whether the next codeword is the last of the current message, so that
    /// `next` will ask the provider.
    pub fn finishing(&self) -> (b: bool)
        ensures
            b == self@.finishing(),
            self@.wf(),
    {
        proof {
            use_type_invariant(self);
        }
        if self.codewords == 0 {
            return false;
        }
        match (self.state, &self.message) {
            (State::AddressWord, Some(m)) => {
                let slot = address_slot(m.ric);
                slot == BATCH_LENGTH - self.codewords && m.size() == 0
            },
            (State::MessageWord(index), Some(m)) => {
                let bits = Encoding::of(m.mtype).bits();
                let size = m.size();
                assert(size * bits <= 7 * usize::MAX) by (nonlinear_arith)
                    requires
                        bits <= 7,
                        size <= usize::MAX,
                ;
                20 * (index as u128 + 1) >= (size as u128) * (bits as u128)
            },
            _ => false,
        }
    }

    /// One step with the provider's answer at hand: gives the next codeword,
    /// or nothing once the last batch is full. The answer counts only where
    /// the step finishes a message.
    pub fn advance(&mut self, answer: Option<Message>) -> (word: Option<u32>)
        ensures
            (final(self)@, word) == old(self)@.step(answer),
            final(self)@.wf(),
    {
        proof {
            use_type_invariant(&*self);
            lemma_step_keeps_wf(self@, answer);
        }
        let finishing = self.finishing();
        self.count = self.count.saturating_add(1);
        if self.codewords == 0 {
            return match self.state {
                State::Completed => None,
                State::Preamble => {
                    self.codewords = BATCH_LENGTH;
                    self.state = State::AddressWord;
                    Some(SYNC_WORD)
                },
                _ => {
                    self.codewords = BATCH_LENGTH;
                    Some(SYNC_WORD)
                },
            };
        }
        self.codewords = self.codewords - 1;
        let word = match (self.state, &self.message) {
            (State::Preamble, _) => PREAMBLE_WORD,
            (State::AddressWord, Some(m)) => {
                let slot = address_slot(m.ric);
                if slot == BATCH_LENGTH - 1 - self.codewords {
                    address_word(m.ric, m.func)
                } else {
                    return Some(IDLE_WORD);
                }
            },
            (State::MessageWord(index), Some(m)) => {
                let encoding = Encoding::of(m.mtype);
                let text = m.data.as_str().as_bytes();
                assert(m.bytes().len() == text.len() <= usize::MAX);
                message_word(payload(text, encoding, index))
            },
            _ => {
                return Some(IDLE_WORD);
            },
        };
        if finishing {
            match answer {
                Some(m) => {
                    self.state = State::AddressWord;
                    self.message = Some(m);
                },
                None => {
                    self.state = State::Completed;
                    self.message = None;
                },
            }
        } else {
            match self.state {
                State::AddressWord => {
                    self.state = State::MessageWord(0);
                },
                State::MessageWord(index) => {
                    proof {
                        lemma_text_bits_bound(self.message.unwrap());
                    }
                    self.state = State::MessageWord(index + 1);
                },
                _ => {},
            }
        }
        Some(word)
    }

    /// Gives the next codeword, or nothing once the last batch is full.
    /// Where the codeword is the last of a message, the provider is asked for
    /// the message that follows, with the number of codewords given out
    /// before this one.
    pub fn next<P: MessageProvider>(&mut self, provider: &mut P) -> (word: Option<u32>)
        ensures
            exists|answer: Option<Message>|
                (final(self)@, word) == #[trigger] old(self)@.step(answer),
            !old(self)@.finishing() ==> (final(self)@, word) == old(self)@.step(None),
            final(self)@.wf(),
    {
        let answer = if self.finishing() {
            let given = self.count.saturating_add(1) - 1;
            match provider.next(given) {
                Some(following) => match following.message {
                    ProtocolMessage::Pocsag(m) => Some(m),
                },
                None => None,
            }
        } else {
            None
        };
        self.advance(answer)
    }
}

} // verus!
