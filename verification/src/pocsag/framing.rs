//! What holds of the whole stream of codewords that a generator gives.

use vstd::prelude::*;
use crate::pocsag::codeword::{
    has_even_parity, lemma_address_word, lemma_fixed_words_even, lemma_message_word,
    lemma_payload_bound, message_words, parity_bit_taken, spec_address_word, spec_payload,
    IDLE_WORD, PREAMBLE_WORD, SYNC_WORD,
};
use crate::pocsag::encoding::Encoding;
use crate::pocsag::generator::{
    address_position, lemma_step_keeps_wf, text_bits, GeneratorModel, Phase,
};
use crate::pocsag::message::Message;

verus! {

/// The codewords that a generator gives from state `model` on, in at most
/// `limit` calls. Whenever it asks, the provider answers with the next of
/// `following`, and with nothing once they are used up.
pub open spec fn run(model: GeneratorModel, following: Seq<Message>, limit: nat) -> Seq<u32>
    decreases limit,
{
    if limit == 0 {
        Seq::empty()
    } else {
        let served = model.finishing() && following.len() > 0;
        let answer = if served {
            Some(following[0])
        } else {
            None
        };
        let rest = if served {
            following.drop_first()
        } else {
            following
        };
        match model.step(answer).1 {
            Some(word) => seq![word].add(run(model.step(answer).0, rest, (limit - 1) as nat)),
            None => Seq::empty(),
        }
    }
}

/// The stream of a message without text when nothing follows it: `before`
/// words of preamble, the synchronisation word, and a batch that is idle but
/// for the address word in the first place of the pager's frame.
pub open spec fn lone_address_stream(message: Message, before: nat) -> Seq<u32> {
    Seq::new(
        before + 17,
        |i: int|
            if i < before {
                PREAMBLE_WORD
            } else if i == before {
                SYNC_WORD
            } else if i - before - 1 == address_position(message.ric) {
                spec_address_word(message.ric, message.func)
            } else {
                IDLE_WORD
            },
    )
}

/// The frame of a pager begins at an even place within the batch.
pub proof fn lemma_address_position_range(ric: u32)
    ensures
        0 <= address_position(ric) <= 14,
        address_position(ric) % 2 == 0,
{
    let low = ric & 0b111;
    assert(low <= 7) by (bit_vector)
        requires
            low == ric & 0b111,
    ;
}

/// Only the step at the start of a batch gives the synchronisation word.
pub proof fn lemma_step_sync(model: GeneratorModel, answer: Option<Message>)
    requires
        model.wf(),
    ensures
        model.codewords == 0 ==> model.step(answer).1 == Some(SYNC_WORD) || model.step(answer).1
            == None::<u32>,
        model.codewords == 0 ==> model.step(answer).0.codewords == 16 || model.step(answer).1
            == None::<u32>,
        model.codewords > 0 ==> model.step(answer).1.is_some() && model.step(answer).1
            != Some(SYNC_WORD),
        model.codewords > 0 ==> model.step(answer).0.codewords == model.codewords - 1,
{
    if model.codewords > 0 {
        match (model.phase, model.message) {
            (Phase::AddressWord, Some(m)) => {
                lemma_address_word(m.ric, m.func);
            },
            (Phase::MessageWord { index }, Some(m)) => {
                lemma_payload_bound(m.bytes(), Encoding { mtype: m.mtype }, index);
                lemma_message_word(spec_payload(m.bytes(), Encoding { mtype: m.mtype }, index));
            },
            _ => {},
        }
    }
}

/// Synchronisation words stand in the stream where the framing puts them
/// and nowhere else: the first when the codewords that were left are out,
/// and then one after every sixteen codewords.
pub proof fn lemma_sync_spacing(model: GeneratorModel, following: Seq<Message>, limit: nat)
    requires
        model.wf(),
    ensures
        forall|i: int|
            0 <= i < run(model, following, limit).len() ==> (#[trigger] run(
                model,
                following,
                limit,
            )[i] == SYNC_WORD <==> i >= model.codewords && (i - model.codewords) % 17 == 0),
    decreases limit,
{
    if limit > 0 {
        let served = model.finishing() && following.len() > 0;
        let answer = if served {
            Some(following[0])
        } else {
            None
        };
        let rest = if served {
            following.drop_first()
        } else {
            following
        };
        let after = model.step(answer).0;
        lemma_step_sync(model, answer);
        lemma_step_keeps_wf(model, answer);
        if model.step(answer).1.is_some() {
            let word = model.step(answer).1.unwrap();
            let tail = run(after, rest, (limit - 1) as nat);
            lemma_sync_spacing(after, rest, (limit - 1) as nat);
            let all = run(model, following, limit);
            assert(all =~= seq![word].add(tail));
            assert forall|i: int| 0 <= i < all.len() implies (#[trigger] all[i] == SYNC_WORD <==> i
                >= model.codewords && (i - model.codewords) % 17 == 0) by {
                if i > 0 {
                    assert(all[i] == tail[i - 1]);
                }
            }
        }
    }
}

/// From the start of a transmission the synchronisation words stand at
/// places 18, 35, 52 and so on: sixteen codewords lie between any two.
pub proof fn lemma_sixteen_between_syncs(first: Message, following: Seq<Message>, limit: nat)
    ensures
        forall|i: int|
            0 <= i < run(GeneratorModel::start(first), following, limit).len() ==> (#[trigger] run(
                GeneratorModel::start(first),
                following,
                limit,
            )[i] == SYNC_WORD <==> i >= 18 && (i - 18) % 17 == 0),
{
    lemma_sync_spacing(GeneratorModel::start(first), following, limit);
}

/// Once the last message is out, idle words fill what is left of the batch
/// and the stream ends.
pub proof fn lemma_completed_run(model: GeneratorModel, following: Seq<Message>, limit: nat)
    requires
        model.wf(),
        model.phase is Completed,
        limit > model.codewords,
    ensures
        run(model, following, limit) == Seq::new(model.codewords, |i: int| IDLE_WORD),
    decreases model.codewords,
{
    let all = run(model, following, limit);
    if model.codewords == 0 {
        assert(all =~= Seq::new(0, |i: int| IDLE_WORD));
    } else {
        let after = model.step(None).0;
        lemma_completed_run(after, following, (limit - 1) as nat);
        assert(all =~= seq![IDLE_WORD].add(run(after, following, (limit - 1) as nat)));
        assert(all =~= Seq::new(model.codewords, |i: int| IDLE_WORD));
    }
}

/// The rest of the batch while the address of a message without text is
/// still to come and nothing follows it: idle words, the address word in its
/// place, idle words to the end.
proof fn lemma_lone_address_batch(model: GeneratorModel, limit: nat)
    requires
        model.wf(),
        model.phase is AddressWord,
        model.codewords > 0,
        model.message.unwrap().bytes().len() == 0,
        address_position(model.message.unwrap().ric) >= model.position(),
        limit > model.codewords,
    ensures
        run(model, Seq::empty(), limit) == Seq::new(
            model.codewords,
            |i: int|
                if i + model.position() == address_position(model.message.unwrap().ric) {
                    spec_address_word(model.message.unwrap().ric, model.message.unwrap().func)
                } else {
                    IDLE_WORD
                },
        ),
    decreases model.codewords,
{
    let m = model.message.unwrap();
    let following = Seq::<Message>::empty();
    let all = run(model, following, limit);
    let after = model.step(None).0;
    let word = model.step(None).1.unwrap();
    let tail = run(after, following, (limit - 1) as nat);
    let expected = Seq::new(
        model.codewords,
        |i: int|
            if i + model.position() == address_position(m.ric) {
                spec_address_word(m.ric, m.func)
            } else {
                IDLE_WORD
            },
    );
    lemma_address_position_range(m.ric);
    assert(all =~= seq![word].add(tail));
    if address_position(m.ric) == model.position() {
        lemma_completed_run(after, following, (limit - 1) as nat);
        assert(all =~= expected);
    } else {
        lemma_lone_address_batch(after, (limit - 1) as nat);
        assert(all =~= expected);
    }
}

proof fn lemma_lone_address_run(model: GeneratorModel, limit: nat)
    requires
        model.wf(),
        model.phase is Preamble,
        model.message.unwrap().bytes().len() == 0,
        limit > model.codewords + 17,
    ensures
        run(model, Seq::empty(), limit) == lone_address_stream(
            model.message.unwrap(),
            model.codewords,
        ),
    decreases model.codewords,
{
    let m = model.message.unwrap();
    let following = Seq::<Message>::empty();
    let all = run(model, following, limit);
    let after = model.step(None).0;
    let word = model.step(None).1.unwrap();
    let tail = run(after, following, (limit - 1) as nat);
    assert(all =~= seq![word].add(tail));
    if model.codewords == 0 {
        lemma_address_position_range(m.ric);
        lemma_lone_address_batch(after, (limit - 1) as nat);
        assert(all =~= lone_address_stream(m, 0));
    } else {
        lemma_lone_address_run(after, (limit - 1) as nat);
        assert(all =~= lone_address_stream(m, model.codewords));
    }
}

/// A message without text that nothing follows gives 35 codewords: the 18 of
/// the preamble, the synchronisation word, and one batch with the address
/// word at twice the low three bits of the pager's address and idle words in
/// the other fifteen places.
pub proof fn lemma_lone_address_stream(first: Message, limit: nat)
    requires
        first.bytes().len() == 0,
        limit > 35,
    ensures
        run(GeneratorModel::start(first), Seq::empty(), limit) == lone_address_stream(first, 18),
        run(GeneratorModel::start(first), Seq::empty(), limit).len() == 35,
{
    lemma_lone_address_run(GeneratorModel::start(first), limit);
}

/// Every codeword of a step has even parity, except a content word whose
/// check bits have taken the place of the parity bit.
pub proof fn lemma_step_parity(model: GeneratorModel, answer: Option<Message>)
    requires
        model.wf(),
    ensures
        model.step(answer).1 matches Some(word) ==> has_even_parity(word) || parity_bit_taken(
            word & 0xFFFF_F800,
        ),
{
    lemma_fixed_words_even();
    if model.codewords > 0 {
        match (model.phase, model.message) {
            (Phase::AddressWord, Some(m)) => {
                lemma_address_word(m.ric, m.func);
            },
            (Phase::MessageWord { index }, Some(m)) => {
                lemma_payload_bound(m.bytes(), Encoding { mtype: m.mtype }, index);
                lemma_message_word(spec_payload(m.bytes(), Encoding { mtype: m.mtype }, index));
            },
            _ => {},
        }
    }
}

/// Every codeword of the stream has even parity, except a content word whose
/// check bits have taken the place of the parity bit.
pub proof fn lemma_stream_parity(model: GeneratorModel, following: Seq<Message>, limit: nat)
    requires
        model.wf(),
    ensures
        forall|i: int|
            0 <= i < run(model, following, limit).len() ==> has_even_parity(
                #[trigger] run(model, following, limit)[i],
            ) || parity_bit_taken(run(model, following, limit)[i] & 0xFFFF_F800),
    decreases limit,
{
    if limit > 0 {
        let served = model.finishing() && following.len() > 0;
        let answer = if served {
            Some(following[0])
        } else {
            None
        };
        let rest = if served {
            following.drop_first()
        } else {
            following
        };
        let after = model.step(answer).0;
        lemma_step_parity(model, answer);
        lemma_step_keeps_wf(model, answer);
        if model.step(answer).1.is_some() {
            let word = model.step(answer).1.unwrap();
            let tail = run(after, rest, (limit - 1) as nat);
            lemma_stream_parity(after, rest, (limit - 1) as nat);
            let all = run(model, following, limit);
            assert(all =~= seq![word].add(tail));
            assert forall|i: int| 0 <= i < all.len() implies has_even_parity(#[trigger] all[i])
                || parity_bit_taken(all[i] & 0xFFFF_F800) by {
                if i > 0 {
                    assert(all[i] == tail[i - 1]);
                }
            }
        }
    }
}

/// The stream from state `model` on comes to its end in at most `limit`
/// calls.
pub open spec fn ends_within(model: GeneratorModel, following: Seq<Message>, limit: nat) -> bool
    decreases limit,
{
    if limit == 0 {
        false
    } else {
        let served = model.finishing() && following.len() > 0;
        let answer = if served {
            Some(following[0])
        } else {
            None
        };
        let rest = if served {
            following.drop_first()
        } else {
            following
        };
        match model.step(answer).1 {
            Some(_) => ends_within(model.step(answer).0, rest, (limit - 1) as nat),
            None => true,
        }
    }
}

/// While text is left for message word number `index`, the message has
/// more than `index` message words, and exactly one more where that word
/// takes the rest of the text.
pub proof fn lemma_words_of(message: Message, index: nat)
    requires
        20 * index < text_bits(message),
    ensures
        20 * (index + 1) >= text_bits(message) ==> message_words(
            message.bytes().len(),
            Encoding { mtype: message.mtype },
        ) == index + 1,
        20 * (index + 1) < text_bits(message) ==> message_words(
            message.bytes().len(),
            Encoding { mtype: message.mtype },
        ) > index + 1,
{
}


/// Number of message words of a message.
pub open spec fn words_of(message: Message) -> nat {
    message_words(message.bytes().len(), Encoding { mtype: message.mtype })
}

/// Calls that it takes at most to send the messages that follow and to
/// fill the last batch: 17 for each message to get to its address word,
/// two for each of its message words, which leaves room for the
/// synchronisation words between them, and 16 for the idle words at the
/// end.
pub open spec fn calls_for(following: Seq<Message>) -> nat
    decreases following.len(),
{
    if following.len() == 0 {
        16
    } else {
        17 + 2 * words_of(following[0]) + calls_for(following.drop_first())
    }
}

/// Calls up to and with the address word, from a place in the batch.
pub open spec fn calls_to_address(codewords: nat, target: int) -> int {
    if codewords == 0 {
        target + 2
    } else if target >= 16 - codewords {
        target - (16 - codewords) + 1
    } else {
        codewords + target + 2
    }
}

/// Calls that it takes at most until the stream from state `model` on has
/// come to its end.
pub open spec fn calls_left(model: GeneratorModel, following: Seq<Message>) -> int {
    match model.phase {
        Phase::Preamble => model.codewords + 1 + calls_to_address(
            16,
            address_position(model.message.unwrap().ric),
        ) + 2 * words_of(model.message.unwrap()) + calls_for(following),
        Phase::AddressWord => calls_to_address(
            model.codewords,
            address_position(model.message.unwrap().ric),
        ) + 2 * words_of(model.message.unwrap()) + calls_for(following),
        Phase::MessageWord { index } => 2 * (words_of(model.message.unwrap()) - index) + (if model.codewords
            == 0 {
            1int
        } else {
            0int
        }) + calls_for(following),
        Phase::Completed => model.codewords as int,
    }
}

proof fn lemma_calls_for(following: Seq<Message>)
    ensures
        calls_for(following) >= 16,
        following.len() > 0 ==> calls_for(following) == 17 + 2 * words_of(following[0])
            + calls_for(following.drop_first()),
    decreases following.len(),
{
    if following.len() > 0 {
        lemma_calls_for(following.drop_first());
    }
}

/// Each call that gives a codeword brings the end of the stream nearer.
pub proof fn lemma_calls_decrease(model: GeneratorModel, following: Seq<Message>)
    requires
        model.wf(),
    ensures
        calls_left(model, following) >= 0,
        ({
            let served = model.finishing() && following.len() > 0;
            let answer = if served {
                Some(following[0])
            } else {
                None
            };
            let rest = if served {
                following.drop_first()
            } else {
                following
            };
            model.step(answer).1.is_some() ==> 0 <= calls_left(model.step(answer).0, rest)
                < calls_left(model, following)
        }),
{
    let served = model.finishing() && following.len() > 0;
    let answer = if served {
        Some(following[0])
    } else {
        None
    };
    let rest = if served {
        following.drop_first()
    } else {
        following
    };
    let after = model.step(answer).0;
    lemma_step_keeps_wf(model, answer);
    lemma_calls_for(following);
    lemma_calls_for(rest);
    if !(model.phase is Completed) {
        let m = model.message.unwrap();
        lemma_address_position_range(m.ric);
        match model.phase {
            Phase::MessageWord { index } => {
                lemma_words_of(m, index);
            },
            _ => {},
        }
        if m.bytes().len() > 0 {
            lemma_words_of(m, 0);
        }
    }
    if after.phase is AddressWord || after.phase is Preamble {
        lemma_address_position_range(after.message.unwrap().ric);
    }
    lemma_calls_nonnegative(after, rest);
    lemma_calls_nonnegative(model, following);
}

/// Every stream comes to its end: from a well-formed state the generator
/// gives out no more codewords than `calls_left` says.
pub proof fn lemma_stream_ends(model: GeneratorModel, following: Seq<Message>, limit: nat)
    requires
        model.wf(),
        limit > calls_left(model, following),
    ensures
        ends_within(model, following, limit),
        calls_left(model, following) >= 0,
    decreases limit,
{
    let served = model.finishing() && following.len() > 0;
    let answer = if served {
        Some(following[0])
    } else {
        None
    };
    let rest = if served {
        following.drop_first()
    } else {
        following
    };
    lemma_step_keeps_wf(model, answer);
    lemma_calls_decrease(model, following);
    if model.step(answer).1.is_some() {
        lemma_stream_ends(model.step(answer).0, rest, (limit - 1) as nat);
    }
}

proof fn lemma_calls_nonnegative(model: GeneratorModel, following: Seq<Message>)
    requires
        model.wf(),
    ensures
        calls_left(model, following) >= 0,
{
    lemma_calls_for(following);
    if !(model.phase is Completed) {
        let m = model.message.unwrap();
        lemma_address_position_range(m.ric);
        match model.phase {
            Phase::MessageWord { index } => {
                lemma_words_of(m, index);
            },
            _ => {},
        }
    }
}

} // verus!
