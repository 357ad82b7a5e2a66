//! The stream as a receiver reads it, and the proof that what it reads is
//! what was sent.

use vstd::prelude::*;
use crate::pocsag::codeword::{
    address_content, lemma_address_round_trip, lemma_address_word, lemma_message_word,
    lemma_payload_bound, message_words, spec_address_word, spec_message_word, spec_payload,
    IDLE_WORD,
};
use crate::pocsag::encoding::Encoding;
use crate::pocsag::framing::{
    calls_left, ends_within, lemma_address_position_range, lemma_stream_ends, lemma_words_of, run,
};
use crate::pocsag::generator::{address_position, lemma_step_keeps_wf, GeneratorModel, Phase};
use crate::pocsag::message::Message;

verus! {

/// A call as it is read from the stream: the address, the function bits,
/// and the payloads of the message words that follow the address word.
pub struct Received {
    pub ric: u32,
    pub func: u8,
    pub payload: Seq<u32>,
}

/// What a receiver reads from a stream of codewords. It lets `preamble`
/// words pass, then counts the places of the batches: place 0 holds the
/// synchronisation word, places 1 to 16 the codewords. An idle word is
/// passed over; a word with bit 31 clear is an address, whose low three
/// bits come from the frame that it stands in; a word with bit 31 set adds
/// its 20 bits of text to the call that was read last.
pub open spec fn receive(words: Seq<u32>, preamble: nat, place: nat, got: Seq<Received>) -> Seq<
    Received,
>
    decreases words.len(),
{
    if words.len() == 0 {
        got
    } else {
        let word = words[0];
        let rest = words.drop_first();
        let next = if place >= 16 {
            0nat
        } else {
            place + 1
        };
        if preamble > 0 {
            receive(rest, (preamble - 1) as nat, 0, got)
        } else if place == 0 || word == IDLE_WORD {
            receive(rest, 0, next, got)
        } else if word & 0x8000_0000 == 0 {
            receive(
                rest,
                0,
                next,
                got.push(
                    Received {
                        ric: ((word >> 13) << 3) | ((place - 1) as u32 >> 1),
                        func: ((word >> 11) & 0b11) as u8,
                        payload: Seq::empty(),
                    },
                ),
            )
        } else if got.len() > 0 {
            receive(
                rest,
                0,
                next,
                got.update(
                    got.len() - 1,
                    Received {
                        ric: got.last().ric,
                        func: got.last().func,
                        payload: got.last().payload.push((word >> 11) & 0xF_FFFF),
                    },
                ),
            )
        } else {
            receive(rest, 0, next, got)
        }
    }
}

/// A message with the first `n` of its message words.
pub open spec fn partly(message: Message, n: nat) -> Received {
    Received {
        ric: message.ric,
        func: message.func,
        payload: Seq::new(
            n,
            |k: int| spec_payload(message.bytes(), Encoding { mtype: message.mtype }, k as nat),
        ),
    }
}

/// A message as it is sent: with all its message words.
pub open spec fn sent(message: Message) -> Received {
    partly(message, message_words(message.bytes().len(), Encoding { mtype: message.mtype }))
}

/// The messages as they are sent, in their order.
pub open spec fn sent_all(messages: Seq<Message>) -> Seq<Received> {
    Seq::new(messages.len(), |i: int| sent(messages[i]))
}

/// A message that a receiver can read: its address has 21 bits and its
/// function two, and the address word is not the idle word, which stands
/// at the eight addresses from 2007664 on with function 0.
pub open spec fn readable(message: Message) -> bool {
    message.ric < 0x20_0000 && message.func < 4 && address_content(message.ric, message.func)
        != 0x7A89_C000
}

/// Words of preamble that a receiver still lets pass in state `model`.
pub open spec fn preamble_left(model: GeneratorModel) -> nat {
    if model.phase is Preamble {
        model.codewords
    } else {
        0
    }
}

/// The place in the batch that a receiver counts in state `model`.
pub open spec fn place_of(model: GeneratorModel) -> nat {
    if model.phase is Preamble || model.codewords == 0 {
        0
    } else {
        (17 - model.codewords) as nat
    }
}

/// What a receiver has read at the end of the stream, if it has read `got`
/// when the generator is in state `model`.
pub open spec fn read_at_end(model: GeneratorModel, following: Seq<Message>, got: Seq<Received>) -> Seq<
    Received,
> {
    match model.phase {
        Phase::Preamble | Phase::AddressWord => got + sent_all(
            seq![model.message.unwrap()] + following,
        ),
        Phase::MessageWord { .. } => got.drop_last() + sent_all(
            seq![model.message.unwrap()] + following,
        ),
        Phase::Completed => got,
    }
}

/// The receiver is in step with the generator: while the text of a message
/// is being sent, the call that it has read last is that message with the
/// message words that are out.
pub open spec fn in_step(model: GeneratorModel, got: Seq<Received>) -> bool {
    match model.phase {
        Phase::MessageWord { index } => got.len() > 0 && got.last() == partly(
            model.message.unwrap(),
            index,
        ),
        _ => true,
    }
}

proof fn lemma_receive_one(word: u32, tail: Seq<u32>)
    ensures
        (seq![word] + tail)[0] == word,
        (seq![word] + tail).drop_first() == tail,
{
    assert((seq![word] + tail).drop_first() =~= tail);
}

proof fn lemma_partly_grows(message: Message, index: nat)
    ensures
        partly(message, index).payload.push(
            spec_payload(message.bytes(), Encoding { mtype: message.mtype }, index),
        ) == partly(message, index + 1).payload,
{
    assert(partly(message, index).payload.push(
        spec_payload(message.bytes(), Encoding { mtype: message.mtype }, index),
    ) =~= partly(message, index + 1).payload);
}

proof fn lemma_sent_all_first(first: Message, rest: Seq<Message>)
    ensures
        sent_all(seq![first] + rest) == seq![sent(first)] + sent_all(rest),
        rest.len() > 0 ==> seq![rest[0]] + rest.drop_first() == rest,
        sent_all(Seq::<Message>::empty()) == Seq::<Received>::empty(),
{
    assert(sent_all(seq![first] + rest) =~= seq![sent(first)] + sent_all(rest));
    if rest.len() > 0 {
        assert(seq![rest[0]] + rest.drop_first() =~= rest);
    }
    assert(sent_all(Seq::<Message>::empty()) =~= Seq::<Received>::empty());
}

/// What a receiver that is in step with the generator reads from the rest
/// of the stream is the rest of what is sent.
pub proof fn lemma_receive_from(
    model: GeneratorModel,
    following: Seq<Message>,
    limit: nat,
    got: Seq<Received>,
)
    requires
        model.wf(),
        ends_within(model, following, limit),
        !(model.phase is Completed) ==> readable(model.message.unwrap()),
        forall|i: int| 0 <= i < following.len() ==> readable(#[trigger] following[i]),
        in_step(model, got),
    ensures
        receive(run(model, following, limit), preamble_left(model), place_of(model), got)
            == read_at_end(model, following, got),
    decreases limit,
{
    let served = model.finishing() && following.len() > 0;
    let answer = if served {
        Some(following[0])
    } else {
        None
    };
    let rest = if served {
        following.drop_first()
    } else {
        following
    };
    let after = model.step(answer).0;
    let all = run(model, following, limit);
    lemma_step_keeps_wf(model, answer);
    match model.step(answer).1 {
        None => {
            assert(all =~= Seq::<u32>::empty());
        },
        Some(word) => {
            let tail = run(after, rest, (limit - 1) as nat);
            assert(all == seq![word] + tail);
            lemma_receive_one(word, tail);
            assert forall|i: int| 0 <= i < rest.len() implies readable(#[trigger] rest[i]) by {
                if served {
                    assert(rest[i] == following[i + 1]);
                }
            }
            if model.codewords == 0 || model.phase is Preamble || model.phase is Completed {
                lemma_receive_from(after, rest, (limit - 1) as nat, got);
            } else {
                let m = model.message.unwrap();
                let encoding = Encoding { mtype: m.mtype };
                lemma_address_position_range(m.ric);
                lemma_sent_all_first(m, following);
                if following.len() > 0 {
                    lemma_sent_all_first(following[0], following.drop_first());
                }
                match model.phase {
                    Phase::AddressWord => {
                        if address_position(m.ric) == model.position() {
                            lemma_address_word(m.ric, m.func);
                            let place = place_of(model);
                            let position = (place - 1) as u32;
                            lemma_address_round_trip(m.ric, m.func, position);
                            assert(word == spec_address_word(m.ric, m.func));
                            let read = Received {
                                ric: ((word >> 13) << 3) | (position >> 1),
                                func: ((word >> 11) & 0b11) as u8,
                                payload: Seq::empty(),
                            };
                            assert(read.payload =~= partly(m, 0).payload);
                            assert(read == partly(m, 0));
                            let more = got.push(read);
                            assert(more.drop_last() =~= got);
                            if m.bytes().len() == 0 {
                                assert(sent(m) == partly(m, 0));
                            }
                            lemma_receive_from(after, rest, (limit - 1) as nat, more);
                            assert(read_at_end(after, rest, more) =~= read_at_end(
                                model,
                                following,
                                got,
                            ));
                        } else {
                            lemma_receive_from(after, rest, (limit - 1) as nat, got);
                        }
                    },
                    Phase::MessageWord { index } => {
                        let bits = spec_payload(m.bytes(), encoding, index);
                        lemma_payload_bound(m.bytes(), encoding, index);
                        lemma_message_word(bits);
                        assert(word == spec_message_word(bits));
                        lemma_words_of(m, index);
                        lemma_partly_grows(m, index);
                        let read = Received {
                            ric: got.last().ric,
                            func: got.last().func,
                            payload: got.last().payload.push((word >> 11) & 0xF_FFFF),
                        };
                        assert(read == partly(m, index + 1));
                        let more = got.update(got.len() - 1, read);
                        assert(more.drop_last() =~= got.drop_last());
                        assert(more =~= got.drop_last().push(read));
                        lemma_receive_from(after, rest, (limit - 1) as nat, more);
                        assert(read_at_end(after, rest, more) =~= read_at_end(
                            model,
                            following,
                            got,
                        ));
                    },
                    _ => {},
                }
            }
        },
    }
}

/// Reading the stream gives back what was sent: a receiver that lets the
/// 18 words of the preamble pass and then reads batch after batch reads
/// the calls in the order in which they were sent, each with its address,
/// its function bits and the payloads of its message words.
pub proof fn lemma_round_trip(first: Message, following: Seq<Message>, limit: nat)
    requires
        readable(first),
        forall|i: int| 0 <= i < following.len() ==> readable(#[trigger] following[i]),
        ends_within(GeneratorModel::start(first), following, limit),
    ensures
        receive(run(GeneratorModel::start(first), following, limit), 18, 0, Seq::empty())
            == sent_all(seq![first] + following),
{
    lemma_receive_from(GeneratorModel::start(first), following, limit, Seq::empty());
    assert(Seq::<Received>::empty() + sent_all(seq![first] + following) =~= sent_all(
        seq![first] + following,
    ));
}

/// A transmission comes to its end, and reading it gives back what was
/// sent; see `lemma_round_trip`.
pub proof fn lemma_whole_round_trip(first: Message, following: Seq<Message>, limit: nat)
    requires
        readable(first),
        forall|i: int| 0 <= i < following.len() ==> readable(#[trigger] following[i]),
        limit > calls_left(GeneratorModel::start(first), following),
    ensures
        ends_within(GeneratorModel::start(first), following, limit),
        receive(run(GeneratorModel::start(first), following, limit), 18, 0, Seq::empty())
            == sent_all(seq![first] + following),
{
    lemma_stream_ends(GeneratorModel::start(first), following, limit);
    lemma_round_trip(first, following, limit);
}

} // verus!
