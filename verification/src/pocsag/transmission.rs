//! A whole transmission at once: the codewords for a list of messages.

use vstd::prelude::*;
use crate::pocsag::framing::{calls_left, ends_within, lemma_calls_decrease, lemma_stream_ends, run};
use crate::pocsag::generator::{lemma_step_keeps_wf, Generator, GeneratorModel};
use crate::pocsag::message::Message;
use crate::pocsag::receiver::{lemma_round_trip, readable, receive, sent_all, Received};

verus! {

/// The stream of a transmission that sends `first` and then the messages
/// that follow, as far as `run` gives it in the calls that it takes at
/// most.
pub open spec fn spec_encode(first: Message, following: Seq<Message>) -> Seq<u32> {
    run(
        GeneratorModel::start(first),
        following,
        (calls_left(GeneratorModel::start(first), following) + 1) as nat,
    )
}

/// The codewords of a transmission that sends `first` and then the
/// messages that follow, one after the other: the whole stream from the
/// preamble to the last idle word. Where the messages are such as a
/// receiver can read, it reads them back from the stream.
#[verifier::loop_isolation(false)]
pub fn encode(first: Message, following: Vec<Message>) -> (words: Vec<u32>)
    ensures
        words@ == spec_encode(first, following@),
        ends_within(
            GeneratorModel::start(first),
            following@,
            (calls_left(GeneratorModel::start(first), following@) + 1) as nat,
        ),
        words.len() <= calls_left(GeneratorModel::start(first), following@),
        readable(first) && (forall|i: int|
            0 <= i < following.len() ==> readable(#[trigger] following@[i])) ==> receive(
            words@,
            18,
            0,
            Seq::<Received>::empty(),
        ) == sent_all(seq![first] + following@),
{
    let ghost start = GeneratorModel::start(first);
    let ghost all = following@;
    let ghost limit = (calls_left(start, all) + 1) as nat;
    proof {
        lemma_stream_ends(start, all, limit);
        if readable(first) && (forall|i: int| 0 <= i < all.len() ==> readable(#[trigger] all[i])) {
            lemma_round_trip(first, all, limit);
        }
    }
    let mut rest = following;
    let mut generator = Generator::new(first);
    let mut words: Vec<u32> = Vec::new();
    loop
        invariant
            generator@.wf(),
            words.len() + calls_left(generator@, rest@) < limit,
            words@ + run(generator@, rest@, (limit - words.len()) as nat) == run(start, all, limit),
        decreases calls_left(generator@, rest@),
    {
        let ghost model = generator@;
        let ghost before = rest@;
        proof {
            lemma_calls_decrease(model, before);
        }
        let answer = if generator.finishing() && rest.len() > 0 {
            Some(rest.remove(0))
        } else {
            None
        };
        proof {
            lemma_step_keeps_wf(model, answer);
            if model.finishing() && before.len() > 0 {
                assert(rest@ =~= before.drop_first());
            }
        }
        match generator.advance(answer) {
            Some(word) => {
                let ghost sofar = words@;
                words.push(word);
                proof {
                    let tail = run(generator@, rest@, (limit - words.len()) as nat);
                    assert(run(model, before, (limit - sofar.len()) as nat) == seq![word] + tail);
                    assert(words@ + tail =~= sofar + (seq![word] + tail));
                }
            },
            None => {
                proof {
                    assert(run(model, before, (limit - words.len()) as nat) =~= Seq::<u32>::empty());
                    assert(words@ =~= words@ + Seq::<u32>::empty());
                }
                return words;
            },
        }
    }
}

} // verus!
