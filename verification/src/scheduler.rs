//! The scheduler's decisions: what an event does to its state, when a
//! transmission may start, and whether a transmission may go on with another
//! message.

use vstd::prelude::*;
use crate::clock::{unix_time, utc_now, TimeSpan, Timestamp};
use crate::config::Config;
use crate::event::Event;
use crate::message::Message;
use crate::pocsag::timeslots::{
    slot_after, slot_at, spec_budget, spec_duration_until, TimeSlots, MIN_BUDGET, TAIL_GUARD,
};
use crate::queue::{Queue, QueueModel};

verus! {

/// The baud rate that budgets are reckoned at.
pub const BAUD_RATE: u32 = 1200;

/// Milliseconds that the loop lets pass at the least before it looks at
/// the slot again, where the wait that it is given is shorter.
pub const POLL_INTERVAL: u64 = 100;

/// Length of the test transmission in codewords.
pub const TEST_LENGTH: usize = 1125;

/// What the scheduler holds.
pub struct SchedulerModel {
    pub config: Config,
    pub slots: Seq<bool>,
    pub queue: QueueModel,
    /// Codewords that the running slot had room for when it was last looked
    /// at.
    pub budget: usize,
    pub test: bool,
    pub stop: bool,
    pub restart: bool,
}

/// What the scheduler is to do next.
pub enum Step {
    /// Leave the loop.
    Halt,
    /// Wait for an event, however long that takes.
    AwaitEvent,
    /// Wait for an event, but no longer than this.
    AwaitEventFor(TimeSpan),
    /// Send this message.
    Transmit(Message),
}

impl SchedulerModel {
    pub open spec fn wf(self) -> bool {
        self.queue.wf() && self.slots.len() == 16
    }

    /// The state after an event.
    pub open spec fn after(self, event: Event) -> SchedulerModel {
        match event {
            Event::MessageReceived(message) => SchedulerModel {
                queue: self.queue.enqueued(message),
                ..self
            },
            Event::TimeslotsUpdate(slots) => SchedulerModel { slots: slots@, ..self },
            Event::ConfigUpdate(config) => SchedulerModel {
                config,
                stop: true,
                restart: true,
                ..self
            },
            Event::Test => SchedulerModel { test: true, stop: true, restart: true, ..self },
            Event::Restart => SchedulerModel { stop: true, restart: true, ..self },
            Event::Shutdown => SchedulerModel { stop: true, restart: false, ..self },
            _ => self,
        }
    }

    /// No message is waiting.
    pub open spec fn idle(self) -> bool {
        forall|p: int| 0 <= p < self.queue.lines.len() ==> (#[trigger] self.queue.lines[p]).len() == 0
    }

    /// A transmission may start at time `now`: the running slot is allowed
    /// and has room for more than the least budget.
    pub open spec fn may_transmit(self, now: TimeSpan) -> bool {
        self.slots[slot_at(now)] && spec_budget(self.slots, now, BAUD_RATE) > MIN_BUDGET
    }

    /// A transmission that has given out `count` codewords may go on with
    /// another message: the tail guard still fits into the budget.
    pub open spec fn may_follow(self, count: usize) -> bool {
        count + TAIL_GUARD <= self.budget
    }

    /// The budget after a look at the slot at time `now`: reckoned anew
    /// where the running slot is allowed, and left alone where not.
    pub open spec fn budget_at(self, now: TimeSpan) -> int {
        if self.slots[slot_at(now)] {
            spec_budget(self.slots, now, BAUD_RATE)
        } else {
            self.budget as int
        }
    }

    /// `slot` is the first allowed slot from the running one on.
    pub open spec fn next_slot(self, now: TimeSpan, slot: int) -> bool {
        exists|k: int|
            0 <= k < 16 && slot == #[trigger] slot_after(slot_at(now), k) && self.slots[slot]
                && forall|j: int| 0 <= j < k ==> !self.slots[#[trigger] slot_after(slot_at(now), j)]
    }

    /// How long to wait where no transmission may start at time `now`: until
    /// the next allowed slot begins, or without end where no slot is
    /// allowed.
    pub open spec fn is_wait(self, now: TimeSpan, step: Step) -> bool {
        match step {
            Step::AwaitEventFor(wait) => exists|slot: int|
                #[trigger] self.next_slot(now, slot) && wait.as_nanos() == spec_duration_until(
                    slot,
                    now,
                ),
            Step::AwaitEvent => forall|i: int| 0 <= i < 16 ==> !self.slots[i],
            _ => false,
        }
    }
    /// `after` and `step` are what the loop's decision at time `now`, with
    /// `date` for the calendar time, makes of this state: halt once the
    /// loop is to end; wait for an event while nothing is queued; look at
    /// the slot, which sets the budget; wait for a slot while no
    /// transmission may start; and else take the next message from the
    /// queue and send it, or wait for an event where all that waited had
    /// expired.
    pub open spec fn stepped(
        self,
        now: TimeSpan,
        date: Timestamp,
        after: SchedulerModel,
        step: Step,
    ) -> bool {
        if self.stop {
            step is Halt && after == self
        } else if self.idle() {
            step is AwaitEvent && after == self
        } else if !self.may_transmit(now) {
            self.is_wait(now, step) && after == (SchedulerModel {
                budget: self.budget_at(now) as usize,
                ..self
            })
        } else {
            after == (SchedulerModel {
                budget: self.budget_at(now) as usize,
                queue: after.queue,
                ..self
            }) && match step {
                Step::Transmit(message) => self.queue.dequeued(date, after.queue, Some(message)),
                Step::AwaitEvent => self.queue.dequeued(date, after.queue, None),
                _ => false,
            }
        }
    }

    /// `after` and `message` are what asking for the message that follows,
    /// after `count` codewords and at calendar time `date`, makes of this
    /// state: nothing where the budget does not allow another message, and
    /// else what the queue hands out.
    pub open spec fn followed(
        self,
        count: usize,
        date: Timestamp,
        after: SchedulerModel,
        message: Option<Message>,
    ) -> bool {
        if self.may_follow(count) {
            self.queue.dequeued(date, after.queue, message) && after == (SchedulerModel {
                queue: after.queue,
                ..self
            })
        } else {
            message.is_none() && after == self
        }
    }

}

/// A transmission starts only while the loop runs, in an allowed slot that
/// has room for more than the least budget, and with a message that has
/// not expired.
pub proof fn lemma_transmit_only_with_budget(
    model: SchedulerModel,
    now: TimeSpan,
    date: Timestamp,
    after: SchedulerModel,
    step: Step,
)
    requires
        model.stepped(now, date, after, step),
        step is Transmit,
    ensures
        !model.stop,
        model.slots[slot_at(now)],
        spec_budget(model.slots, now, BAUD_RATE) > MIN_BUDGET,
        after.budget == spec_budget(model.slots, now, BAUD_RATE),
        !step->Transmit_0.spec_is_expired_at(date),
{
    crate::queue::lemma_expired_never_handed_out(model.queue, date, after.queue, step->Transmit_0);
}

/// The scheduler: the queue, the allowed slots, the budget of the running
/// transmission and the flags that end the loop.
pub struct Scheduler {
    config: Config,
    slots: TimeSlots,
    queue: Queue,
    budget: usize,
    test: bool,
    stop: bool,
    restart: bool,
}

impl View for Scheduler {
    type V = SchedulerModel;

    closed spec fn view(&self) -> SchedulerModel {
        SchedulerModel {
            config: self.config,
            slots: self.slots@,
            queue: self.queue@,
            budget: self.budget,
            test: self.test,
            stop: self.stop,
            restart: self.restart,
        }
    }
}

impl Scheduler {
    /// A scheduler with nothing to send and no slot allowed. It is set to
    /// start again when its loop ends.
    pub fn new(config: Config) -> (scheduler: Scheduler)
        ensures
            scheduler@.wf(),
            scheduler@.config == config,
            scheduler@.idle(),
            forall|i: int| 0 <= i < 16 ==> !scheduler@.slots[i],
            scheduler@.budget == 0,
            !scheduler@.test,
            !scheduler@.stop,
            scheduler@.restart,
    {
        Scheduler {
            config,
            slots: TimeSlots::new(),
            queue: Queue::new(),
            budget: 0,
            test: false,
            stop: false,
            restart: true,
        }
    }

    pub fn config(&self) -> (config: &Config)
        ensures
            *config == self@.config,
    {
        &self.config
    }

    pub fn slots(&self) -> (slots: TimeSlots)
        ensures
            slots@ == self@.slots,
    {
        self.slots
    }

    pub fn queue(&self) -> (queue: &Queue)
        requires
            self@.wf(),
        ensures
            queue@ == self@.queue,
            queue@.wf(),
    {
        &self.queue
    }

    pub fn budget(&self) -> (budget: usize)
        ensures
            budget == self@.budget,
    {
        self.budget
    }

    /// Whether a test transmission is asked for.
    pub fn test_requested(&self) -> (test: bool)
        ensures
            test == self@.test,
    {
        self.test
    }

    /// Whether the loop is to end.
    pub fn stopped(&self) -> (stop: bool)
        ensures
            stop == self@.stop,
    {
        self.stop
    }

    /// Whether the scheduler is to start again when its loop has ended.
    pub fn restarts(&self) -> (restart: bool)
        ensures
            restart == self@.restart,
    {
        self.restart
    }

    /// Ends the loop without a restart being asked for or called off.
    pub fn halt(&mut self)
        requires
            old(self)@.wf(),
        ensures
            final(self)@ == (SchedulerModel { stop: true, ..old(self)@ }),
            final(self)@.wf(),
    {
        self.stop = true;
    }

    /// Makes the scheduler ready for the next run of its loop: the stop
    /// flag and the test request are cleared.
    pub fn resume(&mut self)
        requires
            old(self)@.wf(),
        ensures
            final(self)@ == (SchedulerModel { stop: false, test: false, ..old(self)@ }),
            final(self)@.wf(),
    {
        self.stop = false;
        self.test = false;
    }

    /// Takes an event: a message goes into the queue, a new slot set
    /// replaces the old one, new settings and requests for a test or a
    /// restart end the loop for a restart, a shutdown ends it for good.
    pub fn process_event(&mut self, event: Event)
        requires
            old(self)@.wf(),
        ensures
            final(self)@ == old(self)@.after(event),
            final(self)@.wf(),
    {
        match event {
            Event::MessageReceived(message) => {
                self.queue.enqueue(message);
            },
            Event::TimeslotsUpdate(slots) => {
                self.slots = slots;
            },
            Event::ConfigUpdate(config) => {
                self.config = config;
                self.stop = true;
                self.restart = true;
            },
            Event::Test => {
                self.test = true;
                self.stop = true;
                self.restart = true;
            },
            Event::Restart => {
                self.stop = true;
                self.restart = true;
            },
            Event::Shutdown => {
                self.stop = true;
                self.restart = false;
            },
            _ => {},
        }
    }

    /// Looks at the slot at time `now`. Where it is allowed the budget is
    /// reckoned anew, and where that gives more than the least budget a
    /// transmission may start: the answer is nothing. Otherwise the answer
    /// is how to wait.
    pub fn wait_for_next_timeslot_at(&mut self, now: TimeSpan) -> (wait: Option<Step>)
        requires
            old(self)@.wf(),
        ensures
            final(self)@ == (SchedulerModel {
                budget: old(self)@.budget_at(now) as usize,
                ..old(self)@
            }),
            final(self)@.wf(),
            wait.is_none() <==> old(self)@.may_transmit(now),
            wait matches Some(step) ==> old(self)@.is_wait(now, step),
    {
        if self.slots.is_allowed_at(now) {
            self.budget = self.slots.calculate_budget_at(now, BAUD_RATE);
            if self.budget > MIN_BUDGET {
                return None;
            }
        }
        match self.slots.next_allowed_at(now) {
            Some(slot) => {
                let wait = slot.duration_until_at(now);
                assert(old(self)@.next_slot(now, slot.spec_index()));
                Some(Step::AwaitEventFor(wait))
            },
            None => Some(Step::AwaitEvent),
        }
    }

    /// What to do at time `now`, where `date` is the calendar time: halt
    /// once the loop is to end, wait for an event while nothing is queued,
    /// wait for a slot while no transmission may start, and else send the
    /// message that the queue hands out.
    pub fn next_step_at(&mut self, now: TimeSpan, date: Timestamp) -> (step: Step)
        requires
            old(self)@.wf(),
        ensures
            old(self)@.stepped(now, date, final(self)@, step),
            final(self)@.wf(),
    {
        if self.stop {
            return Step::Halt;
        }
        if self.queue.is_empty() {
            return Step::AwaitEvent;
        }
        match self.wait_for_next_timeslot_at(now) {
            Some(wait) => wait,
            None => match self.queue.dequeue_at(date) {
                Some(message) => Step::Transmit(message),
                None => Step::AwaitEvent,
            },
        }
    }

    /// What to do now, by the system clock; see `next_step_at`.
    pub fn next_step(&mut self) -> (step: Step)
        requires
            old(self)@.wf(),
        ensures
            exists|now: TimeSpan, date: Timestamp|
                #[trigger] old(self)@.stepped(now, date, final(self)@, step),
            final(self)@.wf(),
    {
        let now = unix_time();
        let date = utc_now();
        self.next_step_at(now, date)
    }

    /// Whether a transmission that has given out `count` codewords may go on
    /// with another message.
    pub fn may_follow(&self, count: usize) -> (may: bool)
        ensures
            may == self@.may_follow(count),
    {
        count <= usize::MAX - TAIL_GUARD && count + TAIL_GUARD <= self.budget
    }

    /// The message that follows in a transmission which has given out
    /// `count` codewords, at calendar time `date`: nothing where the budget
    /// does not allow another message, and else what the queue hands out.
    pub fn next_message_at(&mut self, count: usize, date: Timestamp) -> (message: Option<Message>)
        requires
            old(self)@.wf(),
        ensures
            old(self)@.followed(count, date, final(self)@, message),
            final(self)@.wf(),
    {
        if !self.may_follow(count) {
            return None;
        }
        self.queue.dequeue_at(date)
    }
}

impl Scheduler {
    /// The message that follows in the running transmission, by the system
    /// clock; see `next_message_at`.
    pub fn next_message(&mut self, count: usize) -> (message: Option<Message>)
        requires
            old(self)@.wf(),
        ensures
            exists|date: Timestamp| #[trigger] old(self)@.followed(count, date, final(self)@, message),
            final(self)@.wf(),
    {
        let date = utc_now();
        self.next_message_at(count, date)
    }
}

} // verus!
