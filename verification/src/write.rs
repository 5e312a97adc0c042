//! The guarded write: one transport write, tried again after a failure as
//! often as the settings allow.

use vstd::prelude::*;
use crate::error::{BitcoreError, IoFailure};
use crate::slot::SlotStatus;
use crate::time::TimeSpan;

verus! {

/// Milliseconds between a failed write and the next attempt.
pub const WRITE_RETRY_DELAY_MS: u64 = 10;

/// What a write is waiting for.
#[derive(Clone, Copy, Debug, PartialEq, Eq, Structural)]
pub enum WritePhase {
    /// The write is over.
    Idle,
    /// The state of the connection slot.
    AwaitSlot,
    /// The outcome of one transport write.
    AwaitWrite,
    /// The end of a sleep.
    AwaitSleep,
}

/// What the caller reports back to a write.
#[derive(Debug, PartialEq, Eq)]
pub enum WriteEvent {
    /// What the caller found when it went for the lock.
    Slot(SlotStatus),
    /// The outcome of one write of the whole data to the transport.
    Written(Result<usize, IoFailure>),
    /// The sleep is over.
    Slept,
}

/// What a write asks the caller to do next.
#[derive(Debug, PartialEq, Eq)]
pub enum WriteAction {
    /// Take the lock on the slot and report what it holds.
    Acquire,
    /// Write the whole data to the transport once.
    Write,
    /// Sleep this long, the lock still held.
    Sleep(TimeSpan),
    /// Let go of the lock, if taken; the write is over, with this result.
    Finish(Result<usize, BitcoreError>),
}

/// The guarded write as a state machine.
#[derive(Clone, Copy, Debug, PartialEq, Eq, Structural)]
pub struct WriteOp {
    /// Failed attempts that may be followed by another.
    pub retries: usize,
    /// Failed attempts so far that were followed by another.
    pub attempts: usize,
    /// What the write is waiting for.
    pub phase: WritePhase,
}

impl WriteOp {
    /// No more attempts were repeated than the settings allow.
    pub open spec fn wf(&self) -> bool {
        self.attempts <= self.retries
    }

    /// Whether `event` is the report that the write is waiting for.
    pub open spec fn accepts(&self, event: &WriteEvent) -> bool {
        match *event {
            WriteEvent::Slot(_) => self.phase == WritePhase::AwaitSlot,
            WriteEvent::Written(_) => self.phase == WritePhase::AwaitWrite,
            WriteEvent::Slept => self.phase == WritePhase::AwaitSleep,
        }
    }

    /// What the write waits for once it has asked for `action`.
    pub open spec fn phase_for(action: &WriteAction) -> WritePhase {
        match *action {
            WriteAction::Acquire => WritePhase::AwaitSlot,
            WriteAction::Write => WritePhase::AwaitWrite,
            WriteAction::Sleep(_) => WritePhase::AwaitSleep,
            WriteAction::Finish(_) => WritePhase::Idle,
        }
    }

    /// The first request of a write of `len` bytes: nothing to write is done
    /// at once, before the lock is looked at.
    pub open spec fn opening(len: usize) -> WriteAction {
        if len == 0 {
            WriteAction::Finish(Ok(0))
        } else {
            WriteAction::Acquire
        }
    }

    /// The write's answer to `event`.
    ///
    /// A slot that cannot be used ends the write with the slot's verdict. A
    /// transport write that succeeds ends it with the count that the
    /// transport reported, which may be short. One that fails is followed by
    /// a sleep and another attempt while fewer than `retries` failures were
    /// repeated; the failure after that ends the write as an I/O error.
    pub open spec fn reply(&self, event: WriteEvent) -> WriteAction {
        match event {
            WriteEvent::Slot(status) => match status.verdict() {
                Err(refusal) => WriteAction::Finish(Err(refusal)),
                Ok(_) => WriteAction::Write,
            },
            WriteEvent::Written(Ok(count)) => WriteAction::Finish(Ok(count)),
            WriteEvent::Written(Err(failure)) => if self.attempts < self.retries {
                WriteAction::Sleep(TimeSpan { nanos: 10_000_000 })
            } else {
                WriteAction::Finish(Err(BitcoreError::Io(failure)))
            },
            WriteEvent::Slept => WriteAction::Write,
        }
    }

    /// The number of repeated failures after `event`.
    pub open spec fn attempts_after(&self, event: WriteEvent) -> int {
        if event matches WriteEvent::Written(Err(_)) && self.attempts < self.retries {
            self.attempts + 1
        } else {
            self.attempts as int
        }
    }

    /// The write after `event`.
    pub open spec fn next(&self, event: WriteEvent) -> WriteOp {
        WriteOp {
            retries: self.retries,
            attempts: self.attempts_after(event) as usize,
            phase: Self::phase_for(&self.reply(event)),
        }
    }

    /// Whether the write, told `events` one after the other, was waiting for
    /// each of them when it came.
    pub open spec fn runs(&self, events: Seq<WriteEvent>) -> bool
        decreases events.len(),
    {
        events.len() == 0 || (self.runs(events.drop_last()) && self.after(
            events.drop_last(),
        ).accepts(&events.last()))
    }

    /// The write after `events`, told one after the other.
    pub open spec fn after(&self, events: Seq<WriteEvent>) -> WriteOp
        decreases events.len(),
    {
        if events.len() == 0 {
            *self
        } else {
            self.after(events.drop_last()).next(events.last())
        }
    }

    /// How often the write has asked for a transport write in answer to one
    /// of `events`, told one after the other.
    pub open spec fn writes_asked(&self, events: Seq<WriteEvent>) -> nat
        decreases events.len(),
    {
        if events.len() == 0 {
            0
        } else {
            let asked: nat = if self.after(events.drop_last()).reply(events.last()) is Write {
                1
            } else {
                0
            };
            self.writes_asked(events.drop_last()) + asked
        }
    }

    /// Most transport writes that the write may still ask for.
    pub open spec fn writes_left(&self) -> int {
        match self.phase {
            WritePhase::Idle => 0,
            WritePhase::AwaitSlot => self.retries - self.attempts + 1,
            WritePhase::AwaitWrite => self.retries - self.attempts,
            WritePhase::AwaitSleep => self.retries - self.attempts + 1,
        }
    }

    /// A write of `len` bytes under `retries` retries, as it begins.
    pub open spec fn started(len: usize, retries: usize) -> WriteOp {
        WriteOp { retries, attempts: 0, phase: Self::phase_for(&Self::opening(len)) }
    }

    /// Begins a write of `len` bytes that may repeat `retries` failed
    /// attempts.
    pub fn begin(len: usize, retries: usize) -> (started: (WriteOp, WriteAction))
        ensures
            started.1 == Self::opening(len),
            started.0 == Self::started(len, retries),
            started.0.wf(),
    {
        if len == 0 {
            (WriteOp { retries, attempts: 0, phase: WritePhase::Idle }, WriteAction::Finish(Ok(0)))
        } else {
            (WriteOp { retries, attempts: 0, phase: WritePhase::AwaitSlot }, WriteAction::Acquire)
        }
    }

    /// Whether `event` is the report that the write is waiting for.
    pub fn expects(&self, event: &WriteEvent) -> (expected: bool)
        ensures
            expected == self.accepts(event),
    {
        match event {
            WriteEvent::Slot(_) => self.phase == WritePhase::AwaitSlot,
            WriteEvent::Written(_) => self.phase == WritePhase::AwaitWrite,
            WriteEvent::Slept => self.phase == WritePhase::AwaitSleep,
        }
    }

    /// Takes the caller's report and decides what comes next.
    pub fn step(&mut self, event: WriteEvent) -> (action: WriteAction)
        requires
            old(self).accepts(&event),
        ensures
            action == old(self).reply(event),
            *final(self) == old(self).next(event),
            old(self).wf() ==> final(self).wf(),
    {
        match event {
            WriteEvent::Slot(status) => match status.check() {
                Err(refusal) => {
                    self.phase = WritePhase::Idle;
                    WriteAction::Finish(Err(refusal))
                },
                Ok(_) => {
                    self.phase = WritePhase::AwaitWrite;
                    WriteAction::Write
                },
            },
            WriteEvent::Written(Ok(count)) => {
                self.phase = WritePhase::Idle;
                WriteAction::Finish(Ok(count))
            },
            WriteEvent::Written(Err(failure)) => {
                if self.attempts < self.retries {
                    self.attempts = self.attempts + 1;
                    self.phase = WritePhase::AwaitSleep;
                    WriteAction::Sleep(TimeSpan::from_millis(WRITE_RETRY_DELAY_MS))
                } else {
                    self.phase = WritePhase::Idle;
                    WriteAction::Finish(Err(BitcoreError::Io(failure)))
                }
            },
            WriteEvent::Slept => {
                self.phase = WritePhase::AwaitWrite;
                WriteAction::Write
            },
        }
    }
}

/// Whatever the slot and the transport do, a write asks for the first
/// transport write and for one more after each failure that it repeats: what
/// it has asked for and what it may still ask for never grow beyond what it
/// began with.
pub proof fn writes_stay_in_budget(op: WriteOp, events: Seq<WriteEvent>)
    requires
        op.wf(),
        op.runs(events),
    ensures
        op.after(events).wf(),
        op.after(events).retries == op.retries,
        op.writes_asked(events) + op.after(events).writes_left() <= op.writes_left(),
    decreases events.len(),
{
    if events.len() > 0 {
        writes_stay_in_budget(op, events.drop_last());
    }
}

/// A write is credited with what the transport took, no more and no less:
/// it ends in success exactly at the report of a transport write that
/// succeeded, with the count of that report.
pub proof fn success_is_what_the_transport_took(op: WriteOp, event: WriteEvent, count: usize)
    requires
        op.accepts(&event),
    ensures
        op.reply(event) == WriteAction::Finish(Ok(count)) <==> event == WriteEvent::Written(
            Ok(count),
        ),
{
}

/// The transport is written to only under the lock: a write that gets any
/// report at all gets the state of the slot first, and unless that says
/// that a transport is held, the write ends there, with no transport write
/// asked for.
pub proof fn written_only_with_the_slot_held(len: usize, retries: usize, events: Seq<WriteEvent>)
    requires
        WriteOp::started(len, retries).runs(events),
        events.len() > 0,
    ensures
        len > 0,
        events[0] is Slot,
        events[0] != WriteEvent::Slot(SlotStatus::Held) ==> {
            &&& events.len() == 1
            &&& WriteOp::started(len, retries).after(events).phase == WritePhase::Idle
            &&& WriteOp::started(len, retries).writes_asked(events) == 0
        },
    decreases events.len(),
{
    let op = WriteOp::started(len, retries);
    let front = events.drop_last();
    assert(op.runs(front) && op.after(front).accepts(&events.last()));
    if front.len() == 0 {
        assert(op.after(front) == op);
        assert(op.writes_asked(front) == 0);
        assert(events.last() == events[0]);
    } else {
        written_only_with_the_slot_held(len, retries, front);
        assert(front[0] == events[0]);
        if events[0] != WriteEvent::Slot(SlotStatus::Held) {
            assert(op.after(front).phase == WritePhase::Idle);
            assert(false);
        }
    }
}

/// The reports that a write gets on a held transport when every transport
/// write fails: the slot held, then each of `failures` in turn, a sleep
/// between one and the next.
pub open spec fn all_failing(failures: Seq<IoFailure>) -> Seq<WriteEvent>
    decreases failures.len(),
{
    if failures.len() == 0 {
        seq![WriteEvent::Slot(SlotStatus::Held)]
    } else if failures.len() == 1 {
        seq![WriteEvent::Slot(SlotStatus::Held), WriteEvent::Written(Err(failures[0]))]
    } else {
        all_failing(failures.drop_last()).push(WriteEvent::Slept).push(
            WriteEvent::Written(Err(failures.last())),
        )
    }
}

/// When every transport write fails, the retries are used up one by one and
/// then the last failure surfaces. After each failure but the last allowed,
/// the write has asked for as many transport writes as have failed and
/// sleeps ten milliseconds before the next; the failure after `retries`
/// repeated ones ends it as an I/O error that holds that very failure. So a
/// write that never succeeds asks for exactly `retries + 1` transport
/// writes.
pub proof fn failures_use_up_the_retries(len: usize, retries: usize, failures: Seq<IoFailure>)
    requires
        len > 0,
        1 <= failures.len() <= retries + 1,
    ensures
        WriteOp::started(len, retries).runs(all_failing(failures)),
        WriteOp::started(len, retries).writes_asked(all_failing(failures)) == failures.len(),
        failures.len() <= retries ==> {
            &&& WriteOp::started(len, retries).after(all_failing(failures)) == (WriteOp {
                retries,
                attempts: failures.len() as usize,
                phase: WritePhase::AwaitSleep,
            })
            &&& WriteOp::started(len, retries).after(all_failing(failures).drop_last()).reply(
                all_failing(failures).last(),
            ) == WriteAction::Sleep(TimeSpan { nanos: 10_000_000 })
        },
        failures.len() == retries + 1 ==> {
            &&& WriteOp::started(len, retries).after(all_failing(failures)) == (WriteOp {
                retries,
                attempts: retries,
                phase: WritePhase::Idle,
            })
            &&& WriteOp::started(len, retries).after(all_failing(failures).drop_last()).reply(
                all_failing(failures).last(),
            ) == WriteAction::Finish(Err(BitcoreError::Io(failures.last())))
        },
    decreases failures.len(),
{
    let op = WriteOp::started(len, retries);
    let events = all_failing(failures);
    let last = WriteEvent::Written(Err(failures.last()));
    if failures.len() == 1 {
        let held = WriteEvent::Slot(SlotStatus::Held);
        let first = seq![held];
        assert(events.drop_last() =~= first);
        assert(first.drop_last() =~= Seq::<WriteEvent>::empty());
        assert(events.last() == last);
        assert(first.last() == held);
        assert(op.after(first.drop_last()) == op);
        assert(op.runs(first.drop_last()));
        assert(op.writes_asked(first.drop_last()) == 0);
        assert(op.runs(first));
        assert(op.after(first) == op.next(held));
        assert(op.writes_asked(first) == 1);
    } else {
        let front = all_failing(failures.drop_last());
        let ready = front.push(WriteEvent::Slept);
        failures_use_up_the_retries(len, retries, failures.drop_last());
        assert(events == ready.push(last));
        assert(events.drop_last() =~= ready);
        assert(ready.drop_last() =~= front);
        assert(events.last() == last);
        assert(ready.last() == WriteEvent::Slept);
        assert(op.runs(ready));
        assert(op.after(ready) == op.after(front).next(WriteEvent::Slept));
        assert(op.writes_asked(ready) == failures.len());
    }
}

/// A write of any data under `retries` retries asks for a transport write
/// at most `retries + 1` times, and for none when there is nothing to write.
pub proof fn at_most_one_write_more_than_retries(
    len: usize,
    retries: usize,
    events: Seq<WriteEvent>,
)
    requires
        WriteOp::started(len, retries).runs(events),
    ensures
        WriteOp::started(len, retries).writes_asked(events) <= retries + 1,
        len == 0 ==> WriteOp::started(len, retries).writes_asked(events) == 0,
{
    writes_stay_in_budget(WriteOp::started(len, retries), events);
}

} // verus!
