//! The queue of messages that wait for transmission: one line for each
//! priority, served from the highest priority down.

use vstd::prelude::*;
use std::collections::VecDeque;
use crate::clock::{utc_now, Timestamp};
use crate::message::Message;
use crate::telemetry::Messages;

verus! {

/// The number of priorities, and of lines in the queue. Priorities run from
/// 0, the lowest, to one below this number.
pub const NUM_PRIORITIES: usize = 5;

/// What a queue holds.
pub struct QueueModel {
    /// The waiting messages by priority, the one that came first in front.
    pub lines: Seq<Seq<Message>>,
    /// Messages handed out so far, by priority.
    pub sent: Seq<usize>,
}

/// Every message of the line has expired at time `now`.
pub open spec fn all_expired(line: Seq<Message>, now: Timestamp) -> bool {
    forall|j: int| 0 <= j < line.len() ==> (#[trigger] line[j]).spec_is_expired_at(now)
}

/// A counter after one more message; it stops at the largest number that it
/// holds.
pub open spec fn bumped(n: usize) -> usize {
    if n < usize::MAX {
        (n + 1) as usize
    } else {
        n
    }
}

impl QueueModel {
    pub open spec fn wf(self) -> bool {
        &&& self.lines.len() == NUM_PRIORITIES
        &&& self.sent.len() == NUM_PRIORITIES
        &&& forall|p: int, j: int|
            0 <= p < NUM_PRIORITIES && 0 <= j < self.lines[p].len() ==> (
            #[trigger] self.lines[p][j]).priority == p
    }

    /// Number of waiting messages in the lines below `upto`.
    pub open spec fn waiting(self, upto: nat) -> nat
        decreases upto,
    {
        if upto == 0 {
            0
        } else {
            self.waiting((upto - 1) as nat) + self.lines[upto - 1].len()
        }
    }

    /// The queue after `message` has come in: at the end of the line of its
    /// priority, or nowhere if there is no such line.
    pub open spec fn enqueued(self, message: Message) -> QueueModel {
        if message.priority < NUM_PRIORITIES {
            QueueModel {
                lines: self.lines.update(
                    message.priority as int,
                    self.lines[message.priority as int].push(message),
                ),
                sent: self.sent,
            }
        } else {
            self
        }
    }

    /// `after` is this queue once `message` has been taken from place `k`
    /// of line `p` at time `now`: it is the first message in the order of
    /// service that has not expired, and all that stood before it are gone.
    pub open spec fn taken(
        self,
        now: Timestamp,
        after: QueueModel,
        message: Message,
        p: int,
        k: int,
    ) -> bool {
        &&& 0 <= p < NUM_PRIORITIES
        &&& 0 <= k < self.lines[p].len()
        &&& message == self.lines[p][k]
        &&& !message.spec_is_expired_at(now)
        &&& all_expired(self.lines[p].take(k), now)
        &&& forall|h: int| p < h < NUM_PRIORITIES ==> all_expired(#[trigger] self.lines[h], now)
        &&& after.lines.len() == NUM_PRIORITIES
        &&& after.lines[p] == self.lines[p].skip(k + 1)
        &&& forall|h: int| p < h < NUM_PRIORITIES ==> (#[trigger] after.lines[h]).len() == 0
        &&& forall|l: int| 0 <= l < p ==> #[trigger] after.lines[l] == self.lines[l]
        &&& after.sent == self.sent.update(p, bumped(self.sent[p]))
    }

    /// `after` and `out` are what a dequeue at time `now` makes of this
    /// queue. Lines are served from the highest priority down and each from
    /// its front; messages that have expired are dropped on the way.
    pub open spec fn dequeued(self, now: Timestamp, after: QueueModel, out: Option<Message>) -> bool {
        match out {
            Some(message) => exists|p: int, k: int| #[trigger] self.taken(now, after, message, p, k),
            None => {
                &&& forall|p: int|
                    0 <= p < NUM_PRIORITIES ==> all_expired(#[trigger] self.lines[p], now)
                &&& after.lines.len() == NUM_PRIORITIES
                &&& forall|p: int| 0 <= p < NUM_PRIORITIES ==> (#[trigger] after.lines[p]).len() == 0
                &&& after.sent == self.sent
            },
        }
    }
}

/// A message that comes in goes behind all that wait with its priority, and
/// nothing else in the queue changes.
pub proof fn lemma_enqueue_goes_last(queue: QueueModel, message: Message)
    requires
        queue.wf(),
    ensures
        queue.enqueued(message).wf(),
        queue.enqueued(message).sent == queue.sent,
        message.priority < NUM_PRIORITIES ==> queue.enqueued(message).lines[message.priority as int]
            == queue.lines[message.priority as int].push(message),
        forall|p: int|
            0 <= p < NUM_PRIORITIES && p != message.priority ==> #[trigger] queue.enqueued(
                message,
            ).lines[p] == queue.lines[p],
{
}

/// The message that is handed out has the highest priority of all waiting
/// messages that have not expired.
pub proof fn lemma_highest_priority_first(
    queue: QueueModel,
    now: Timestamp,
    after: QueueModel,
    message: Message,
    p: int,
    j: int,
)
    requires
        queue.wf(),
        queue.dequeued(now, after, Some(message)),
        0 <= p < NUM_PRIORITIES,
        0 <= j < queue.lines[p].len(),
        !queue.lines[p][j].spec_is_expired_at(now),
    ensures
        queue.lines[p][j].priority <= message.priority,
{
    let (q, k) = choose|q: int, k: int| #[trigger] queue.taken(now, after, message, q, k);
    assert(queue.lines[q][k].priority == q);
    assert(queue.lines[p][j].priority == p);
    if p > q {
        assert(all_expired(queue.lines[p], now));
    }
}

/// Of the waiting messages of one priority that have not expired, the one
/// that came first is handed out first: the message that is handed out
/// stands in its line at or before any other such message.
pub proof fn lemma_first_come_first_served(
    queue: QueueModel,
    now: Timestamp,
    after: QueueModel,
    message: Message,
    j: int,
)
    requires
        queue.wf(),
        queue.dequeued(now, after, Some(message)),
        message.priority < NUM_PRIORITIES,
        0 <= j < queue.lines[message.priority as int].len(),
        !queue.lines[message.priority as int][j].spec_is_expired_at(now),
    ensures
        exists|k: int| 0 <= k <= j && queue.lines[message.priority as int][k] == message,
{
    let (q, k) = choose|q: int, k: int| #[trigger] queue.taken(now, after, message, q, k);
    assert(queue.lines[q][k].priority == q);
    if k > j {
        assert(queue.lines[q].take(k)[j] == queue.lines[q][j]);
    }
    assert(0 <= k <= j && queue.lines[message.priority as int][k] == message);
}

/// A message that has expired is never handed out: what a dequeue at time
/// `now` gives has no expiry time, or one that `now` has not reached.
pub proof fn lemma_expired_never_handed_out(
    queue: QueueModel,
    now: Timestamp,
    after: QueueModel,
    message: Message,
)
    requires
        queue.dequeued(now, after, Some(message)),
    ensures
        !message.spec_is_expired_at(now),
        message.expires_on matches Some(time) ==> now.secs < time.secs || (now.secs == time.secs
            && now.nanos < time.nanos),
{
    let (q, k) = choose|q: int, k: int| #[trigger] queue.taken(now, after, message, q, k);
}

/// The priority queue.
pub struct Queue {
    queues: Vec<VecDeque<Message>>,
    sent: [usize; NUM_PRIORITIES],
}

impl Queue {
    /// What holds of every queue that `new` has made.
    pub open spec fn wf(&self) -> bool {
        self@.wf()
    }
}

impl View for Queue {
    type V = QueueModel;

    closed spec fn view(&self) -> QueueModel {
        QueueModel {
            lines: Seq::new(self.queues.len() as nat, |p: int| self.queues[p]@),
            sent: self.sent@,
        }
    }
}

impl Queue {
    /// The empty queue.
    pub fn new() -> (queue: Queue)
        ensures
            queue@.wf(),
            forall|p: int| 0 <= p < NUM_PRIORITIES ==> (#[trigger] queue@.lines[p]).len() == 0,
            forall|p: int| 0 <= p < NUM_PRIORITIES ==> #[trigger] queue@.sent[p] == 0,
    {
        let mut queues: Vec<VecDeque<Message>> = Vec::new();
        let mut i: usize = 0;
        while i < NUM_PRIORITIES
            invariant
                i <= NUM_PRIORITIES,
                queues.len() == i,
                forall|p: int| 0 <= p < i ==> (#[trigger] queues[p])@.len() == 0,
            decreases NUM_PRIORITIES - i,
        {
            queues.push(VecDeque::new());
            i += 1;
        }
        Queue { queues, sent: [0; NUM_PRIORITIES] }
    }

    /// Puts a message at the end of the line of its priority. A message
    /// whose priority has no line is dropped.
    pub fn enqueue(&mut self, message: Message)
        requires
            old(self)@.wf(),
        ensures
            final(self)@ == old(self)@.enqueued(message),
            final(self)@.wf(),
    {
        let ghost before = self@;
        let priority = message.priority;
        if priority < NUM_PRIORITIES {
            self.queues[priority].push_back(message);
            assert(self@.lines =~= before.lines.update(
                priority as int,
                before.lines[priority as int].push(message),
            ));
        }
    }

    /// Hands out the message that is served next at time `now`: the first
    /// that has not expired, looking through the lines from the highest
    /// priority down and through each line from its front. The expired
    /// messages that stand before it are dropped.
    pub fn dequeue_at(&mut self, now: Timestamp) -> (message: Option<Message>)
        requires
            old(self)@.wf(),
        ensures
            old(self)@.dequeued(now, final(self)@, message),
            final(self)@.wf(),
            message matches Some(m) ==> m.priority < NUM_PRIORITIES && !m.spec_is_expired_at(now),
    {
        let ghost before = self@;
        let mut p: usize = NUM_PRIORITIES;
        while p > 0
            invariant
                p <= NUM_PRIORITIES,
                before == old(self)@,
                before.wf(),
                self@.wf(),
                self@.sent == before.sent,
                forall|h: int| p <= h < NUM_PRIORITIES ==> all_expired(#[trigger] before.lines[h], now),
                forall|h: int| p <= h < NUM_PRIORITIES ==> (#[trigger] self@.lines[h]).len() == 0,
                forall|l: int| 0 <= l < p ==> #[trigger] self@.lines[l] == before.lines[l],
            decreases p,
        {
            p -= 1;
            let ghost mut k: int = 0;
            while self.queues[p].len() > 0
                invariant
                    p < NUM_PRIORITIES,
                    before == old(self)@,
                    before.wf(),
                    self@.wf(),
                    self@.sent == before.sent,
                    0 <= k <= before.lines[p as int].len(),
                    self@.lines[p as int] == before.lines[p as int].skip(k),
                    all_expired(before.lines[p as int].take(k), now),
                    forall|h: int|
                        p < h < NUM_PRIORITIES ==> all_expired(#[trigger] before.lines[h], now),
                    forall|h: int|
                        p < h < NUM_PRIORITIES ==> (#[trigger] self@.lines[h]).len() == 0,
                    forall|l: int| 0 <= l < p ==> #[trigger] self@.lines[l] == before.lines[l],
                decreases self.queues[p as int]@.len(),
            {
                let ghost during = self@;
                let front = self.queues[p].pop_front();
                assert(self@.lines =~= during.lines.update(
                    p as int,
                    during.lines[p as int].subrange(1, during.lines[p as int].len() as int),
                ));
                assert(self@.lines[p as int] =~= before.lines[p as int].skip(k + 1));
                match front {
                    Some(message) => {
                        assert(message == before.lines[p as int][k]);
                        if !message.is_expired_at(now) {
                            let sent = self.sent[p];
                            self.sent[p] = sent.saturating_add(1);
                            assert(before.taken(now, self@, message, p as int, k));
                            return Some(message);
                        }
                        proof {
                            let longer = before.lines[p as int].take(k + 1);
                            assert forall|j: int| 0 <= j < longer.len() implies (
                            #[trigger] longer[j]).spec_is_expired_at(now) by {
                                if j < k {
                                    assert(before.lines[p as int].take(k)[j] == longer[j]);
                                }
                            }
                            k = k + 1;
                        }
                    },
                    None => {},
                }
            }
            proof {
                assert(before.lines[p as int].take(k) =~= before.lines[p as int]);
            }
        }
        None
    }

    /// Hands out the message that is served next by the system clock; see
    /// `dequeue_at`.
    pub fn dequeue(&mut self) -> (message: Option<Message>)
        requires
            old(self)@.wf(),
        ensures
            exists|now: Timestamp| #[trigger] old(self)@.dequeued(now, final(self)@, message),
            final(self)@.wf(),
            message matches Some(m) ==> m.priority < NUM_PRIORITIES,
    {
        let now = utc_now();
        self.dequeue_at(now)
    }

    /// Number of waiting messages.
    pub fn len(&self) -> (n: usize)
        requires
            self@.wf(),
        ensures
            n == self@.waiting(NUM_PRIORITIES as nat) || (n == usize::MAX && self@.waiting(
                NUM_PRIORITIES as nat,
            ) > usize::MAX),
    {
        let mut n: usize = 0;
        let mut exact = true;
        let mut p: usize = 0;
        while p < NUM_PRIORITIES
            invariant
                p <= NUM_PRIORITIES,
                self@.wf(),
                exact ==> n == self@.waiting(p as nat),
                !exact ==> n == usize::MAX && self@.waiting(p as nat) > usize::MAX,
            decreases NUM_PRIORITIES - p,
        {
            let line = self.queues[p].len();
            if exact && line <= usize::MAX - n {
                n = n + line;
            } else {
                exact = false;
                n = usize::MAX;
            }
            p += 1;
        }
        n
    }

    /// Whether no message is waiting.
    pub fn is_empty(&self) -> (empty: bool)
        requires
            self@.wf(),
        ensures
            empty == (forall|p: int|
                0 <= p < NUM_PRIORITIES ==> (#[trigger] self@.lines[p]).len() == 0),
    {
        let mut p: usize = 0;
        while p < NUM_PRIORITIES
            invariant
                p <= NUM_PRIORITIES,
                self@.wf(),
                forall|l: int| 0 <= l < p ==> (#[trigger] self@.lines[l]).len() == 0,
            decreases NUM_PRIORITIES - p,
        {
            if self.queues[p].len() > 0 {
                assert(self@.lines[p as int].len() > 0);
                return false;
            }
            p += 1;
        }
        true
    }

    /// Writes the number of waiting messages of each priority, and the
    /// numbers of messages handed out, into the telemetry record.
    pub fn telemetry_update(&self, messages: &mut Messages)
        requires
            self@.wf(),
        ensures
            forall|p: int|
                0 <= p < NUM_PRIORITIES ==> #[trigger] final(messages).queued@[p]
                    == self@.lines[p].len(),
            final(messages).sent@ == self@.sent,
    {
        let mut p: usize = 0;
        while p < NUM_PRIORITIES
            invariant
                p <= NUM_PRIORITIES,
                self@.wf(),
                forall|l: int| 0 <= l < p ==> #[trigger] messages.queued@[l] == self@.lines[l].len(),
            decreases NUM_PRIORITIES - p,
        {
            messages.queued[p] = self.queues[p].len();
            p += 1;
        }
        messages.sent = self.sent;
    }
}

} // verus!
