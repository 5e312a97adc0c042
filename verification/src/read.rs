//! The guarded read: take the lock, apply the timeout, then poll.

use vstd::prelude::*;
use crate::error::BitcoreError;
use crate::poll::{PollAction, PollEvent, PollPhase, PollingReader};
use crate::slot::SlotStatus;
use crate::time::TimeSpan;

verus! {

/// What a read is waiting for.
#[derive(Clone, Copy, Debug, PartialEq, Eq, Structural)]
pub enum ReadPhase {
    /// The read is over.
    Idle,
    /// The state of the connection slot.
    AwaitSlot,
    /// Word that the timeout was handed to the transport.
    AwaitTimeout,
    /// Whatever the polling reader is waiting for.
    Polling,
}

/// What the caller reports back to a read.
#[derive(Debug, PartialEq, Eq)]
pub enum ReadEvent {
    /// What the caller found when it went for the lock.
    Slot(SlotStatus),
    /// The timeout was handed to the transport, whether it took it or not.
    TimeoutApplied,
    /// A report for the polling reader.
    Poll(PollEvent),
}

/// What a read asks the caller to do next.
#[derive(Debug, PartialEq, Eq)]
pub enum ReadAction {
    /// Take the lock on the slot and report what it holds.
    Acquire,
    /// Set the transport's read timeout to this span.
    ApplyTimeout(TimeSpan),
    /// Do what the polling reader asks; it never asks to finish here.
    Poll(PollAction),
    /// Let go of the lock, if taken; the read is over, with this result.
    Finish(Result<usize, BitcoreError>),
}

/// The guarded read as a state machine around a polling reader.
#[derive(Clone, Copy, Debug, PartialEq, Eq, Structural)]
pub struct ReadOp {
    /// Room in the caller's buffer.
    pub capacity: usize,
    /// Time allowed, from the connection's settings.
    pub timeout: TimeSpan,
    /// What the read is waiting for.
    pub phase: ReadPhase,
    /// The polling reader that does the waiting.
    pub poller: PollingReader,
}

/// The request of a read that passes on what its polling reader asked: the
/// end of the polling is the end of the read.
pub open spec fn lifted(inner: PollAction) -> ReadAction {
    match inner {
        PollAction::Finish(result) => ReadAction::Finish(result),
        other => ReadAction::Poll(other),
    }
}

impl ReadOp {
    /// A read that has not ended has room in its buffer, and while it polls
    /// its reader is at work under the read's own timeout.
    pub open spec fn wf(&self) -> bool {
        &&& self.phase != ReadPhase::Idle ==> self.capacity != 0
        &&& self.phase == ReadPhase::Polling ==> {
            &&& self.poller.phase != PollPhase::Idle
            &&& self.poller.timeout == self.timeout
        }
    }

    /// Whether `event` is the report that the read is waiting for.
    pub open spec fn accepts(&self, event: &ReadEvent) -> bool {
        match *event {
            ReadEvent::Slot(_) => self.phase == ReadPhase::AwaitSlot,
            ReadEvent::TimeoutApplied => self.phase == ReadPhase::AwaitTimeout,
            ReadEvent::Poll(inner) => self.phase == ReadPhase::Polling && self.poller.accepts(
                &inner,
            ),
        }
    }

    /// What the read waits for once it has asked for `action`.
    pub open spec fn phase_for(action: &ReadAction) -> ReadPhase {
        match *action {
            ReadAction::Acquire => ReadPhase::AwaitSlot,
            ReadAction::ApplyTimeout(_) => ReadPhase::AwaitTimeout,
            ReadAction::Poll(_) => ReadPhase::Polling,
            ReadAction::Finish(_) => ReadPhase::Idle,
        }
    }

    /// The first request of a read into `capacity` bytes: a buffer without
    /// room is done at once, before the lock is looked at.
    pub open spec fn opening(capacity: usize) -> ReadAction {
        if capacity == 0 {
            ReadAction::Finish(Ok(0))
        } else {
            ReadAction::Acquire
        }
    }

    /// Whether `action` is the read's answer to `event`.
    ///
    /// A slot that cannot be used ends the read with the slot's verdict; a
    /// held one has the settings' timeout applied, and then the polling
    /// reader takes over, starting at the clock, with the sleep between
    /// polls that it was made with. Its requests are passed on and its
    /// result is the read's result.
    pub open spec fn answers(&self, event: &ReadEvent, action: &ReadAction) -> bool {
        match *event {
            ReadEvent::Slot(status) => match status.verdict() {
                Err(refusal) => *action == ReadAction::Finish(Err(refusal)),
                Ok(_) => *action == ReadAction::ApplyTimeout(self.timeout),
            },
            ReadEvent::TimeoutApplied => if self.capacity == 0 {
                *action == ReadAction::Finish(Ok(0))
            } else {
                *action == ReadAction::Poll(PollAction::CheckClock)
            },
            ReadEvent::Poll(inner) => match *action {
                ReadAction::Finish(result) => self.poller.answers(
                    &inner,
                    &PollAction::Finish(result),
                ),
                ReadAction::Poll(request) => !(request is Finish) && self.poller.answers(
                    &inner,
                    &request,
                ),
                _ => false,
            },
        }
    }

    /// The read after `event`.
    pub open spec fn next(&self, event: &ReadEvent) -> ReadOp {
        match *event {
            ReadEvent::Slot(status) => ReadOp {
                phase: if status == SlotStatus::Held {
                    ReadPhase::AwaitTimeout
                } else {
                    ReadPhase::Idle
                },
                ..*self
            },
            ReadEvent::TimeoutApplied => ReadOp {
                phase: if self.capacity == 0 {
                    ReadPhase::Idle
                } else {
                    ReadPhase::Polling
                },
                poller: self.poller.started(self.capacity, self.timeout),
                ..*self
            },
            ReadEvent::Poll(inner) => ReadOp {
                phase: if self.poller.phase_after(&inner) == PollPhase::Idle {
                    ReadPhase::Idle
                } else {
                    ReadPhase::Polling
                },
                poller: self.poller.next(&inner),
                ..*self
            },
        }
    }

    /// Whether the read, told `events` one after the other, was waiting for
    /// each of them when it came.
    pub open spec fn runs(&self, events: Seq<ReadEvent>) -> bool
        decreases events.len(),
    {
        events.len() == 0 || (self.runs(events.drop_last()) && self.after(
            events.drop_last(),
        ).accepts(&events.last()))
    }

    /// The read after `events`, told one after the other.
    pub open spec fn after(&self, events: Seq<ReadEvent>) -> ReadOp
        decreases events.len(),
    {
        if events.len() == 0 {
            *self
        } else {
            self.after(events.drop_last()).next(&events.last())
        }
    }

    /// A read into `capacity` bytes with `timeout` allowed, as it begins.
    pub open spec fn started(capacity: usize, timeout: TimeSpan) -> ReadOp {
        ReadOp {
            capacity,
            timeout,
            phase: Self::phase_for(&Self::opening(capacity)),
            poller: PollingReader {
                timeout: TimeSpan { nanos: 0 },
                poll_interval: TimeSpan { nanos: 10_000_000 },
                phase: PollPhase::Idle,
            },
        }
    }

    /// Begins a read into a buffer of `capacity` bytes, with `timeout`
    /// allowed.
    pub fn begin(capacity: usize, timeout: TimeSpan) -> (started: (ReadOp, ReadAction))
        ensures
            started.1 == Self::opening(capacity),
            started.0 == Self::started(capacity, timeout),
            started.0.wf(),
    {
        let poller = PollingReader::new();
        if capacity == 0 {
            (
                ReadOp { capacity, timeout, phase: ReadPhase::Idle, poller },
                ReadAction::Finish(Ok(0)),
            )
        } else {
            (ReadOp { capacity, timeout, phase: ReadPhase::AwaitSlot, poller }, ReadAction::Acquire)
        }
    }

    /// Whether `event` is the report that the read is waiting for.
    pub fn expects(&self, event: &ReadEvent) -> (expected: bool)
        ensures
            expected == self.accepts(event),
    {
        match event {
            ReadEvent::Slot(_) => self.phase == ReadPhase::AwaitSlot,
            ReadEvent::TimeoutApplied => self.phase == ReadPhase::AwaitTimeout,
            ReadEvent::Poll(inner) => self.phase == ReadPhase::Polling && self.poller.expects(
                inner,
            ),
        }
    }

    /// Takes the caller's report and decides what comes next.
    pub fn step(&mut self, event: ReadEvent) -> (action: ReadAction)
        requires
            old(self).accepts(&event),
        ensures
            old(self).answers(&event, &action),
            *final(self) == old(self).next(&event),
            final(self).phase == Self::phase_for(&action),
            old(self).wf() ==> final(self).wf(),
    {
        match event {
            ReadEvent::Slot(status) => match status.check() {
                Err(refusal) => {
                    self.phase = ReadPhase::Idle;
                    ReadAction::Finish(Err(refusal))
                },
                Ok(_) => {
                    self.phase = ReadPhase::AwaitTimeout;
                    ReadAction::ApplyTimeout(self.timeout)
                },
            },
            ReadEvent::TimeoutApplied => {
                match self.poller.start(self.capacity, self.timeout) {
                    PollAction::Finish(result) => {
                        self.phase = ReadPhase::Idle;
                        ReadAction::Finish(result)
                    },
                    request => {
                        self.phase = ReadPhase::Polling;
                        ReadAction::Poll(request)
                    },
                }
            },
            ReadEvent::Poll(inner) => {
                let request = self.poller.step(inner);
                match request {
                    PollAction::Finish(result) => {
                        self.phase = ReadPhase::Idle;
                        ReadAction::Finish(result)
                    },
                    other => {
                        self.phase = ReadPhase::Polling;
                        ReadAction::Poll(other)
                    },
                }
            },
        }
    }
}

/// The transport is read only under the lock: a read that gets any report
/// at all has room in its buffer and gets the state of the slot first, and
/// unless that says that a transport is held, the read ends there, before
/// the transport has heard of it.
pub proof fn read_only_with_the_slot_held(
    capacity: usize,
    timeout: TimeSpan,
    events: Seq<ReadEvent>,
)
    requires
        ReadOp::started(capacity, timeout).runs(events),
        events.len() > 0,
    ensures
        capacity > 0,
        events[0] is Slot,
        events[0] != ReadEvent::Slot(SlotStatus::Held) ==> {
            &&& events.len() == 1
            &&& ReadOp::started(capacity, timeout).after(events).phase == ReadPhase::Idle
        },
    decreases events.len(),
{
    let op = ReadOp::started(capacity, timeout);
    let front = events.drop_last();
    assert(op.runs(front) && op.after(front).accepts(&events.last()));
    if front.len() == 0 {
        assert(op.after(front) == op);
        assert(events.last() == events[0]);
    } else {
        read_only_with_the_slot_held(capacity, timeout, front);
        assert(front[0] == events[0]);
        if events[0] != ReadEvent::Slot(SlotStatus::Held) {
            assert(op.after(front).phase == ReadPhase::Idle);
            assert(false);
        }
    }
}

} // verus!
