//! Reading until a buffer is full.

use vstd::prelude::*;
use crate::error::BitcoreError;
use crate::time::TimeSpan;

verus! {

/// Milliseconds to sleep after a read that brought nothing.
pub const EMPTY_READ_PAUSE_MS: u64 = 1;

/// What an exact read is waiting for.
#[derive(Clone, Copy, Debug, PartialEq, Eq, Structural)]
pub enum ExactPhase {
    /// The read is over.
    Idle,
    /// The time since the read began.
    AwaitClock,
    /// The result of one guarded read into the rest of the buffer.
    AwaitRead,
    /// The end of a sleep.
    AwaitSleep,
}

/// What the caller reports back to an exact read.
#[derive(Debug, PartialEq, Eq)]
pub enum ExactEvent {
    /// The time that has passed since the exact read began.
    Elapsed(TimeSpan),
    /// The result of one guarded read into the rest of the buffer.
    Read(Result<usize, BitcoreError>),
    /// The sleep is over.
    Slept,
}

/// What an exact read asks the caller to do next.
#[derive(Debug, PartialEq, Eq)]
pub enum ExactAction {
    /// Report the time that has passed since the exact read began.
    CheckClock,
    /// Do one guarded read into the buffer from `offset` to its end.
    Read { offset: usize },
    /// Sleep this long.
    Sleep(TimeSpan),
    /// The exact read is over, with this result.
    Finish(Result<(), BitcoreError>),
}

/// Filling a buffer by repeated reads, as a state machine.
#[derive(Clone, Copy, Debug, PartialEq, Eq, Structural)]
pub struct ExactReader {
    /// Length of the buffer.
    pub len: usize,
    /// Bytes of the buffer filled so far.
    pub filled: usize,
    /// Time allowed for the whole of it.
    pub timeout: TimeSpan,
    /// What the exact read is waiting for.
    pub phase: ExactPhase,
}

impl ExactReader {
    /// No more is filled than the buffer holds, and a read that has not
    /// ended has room left.
    pub open spec fn wf(&self) -> bool {
        &&& self.filled <= self.len
        &&& self.phase != ExactPhase::Idle ==> self.filled < self.len
    }

    /// Whether `event` is the report that the exact read is waiting for. A
    /// read cannot bring more than the rest of the buffer holds.
    pub open spec fn accepts(&self, event: &ExactEvent) -> bool {
        match *event {
            ExactEvent::Elapsed(_) => self.phase == ExactPhase::AwaitClock,
            ExactEvent::Read(Ok(count)) => self.phase == ExactPhase::AwaitRead && count <= self.len
                - self.filled,
            ExactEvent::Read(Err(_)) => self.phase == ExactPhase::AwaitRead,
            ExactEvent::Slept => self.phase == ExactPhase::AwaitSleep,
        }
    }

    /// What the exact read waits for once it has asked for `action`.
    pub open spec fn phase_for(action: &ExactAction) -> ExactPhase {
        match *action {
            ExactAction::CheckClock => ExactPhase::AwaitClock,
            ExactAction::Read { .. } => ExactPhase::AwaitRead,
            ExactAction::Sleep(_) => ExactPhase::AwaitSleep,
            ExactAction::Finish(_) => ExactPhase::Idle,
        }
    }

    /// The first request of an exact read into `len` bytes: an empty buffer
    /// is full already.
    pub open spec fn opening(len: usize) -> ExactAction {
        if len == 0 {
            ExactAction::Finish(Ok(()))
        } else {
            ExactAction::CheckClock
        }
    }

    /// Bytes filled after `event`.
    pub open spec fn filled_after(&self, event: ExactEvent) -> int {
        match event {
            ExactEvent::Read(Ok(count)) => self.filled + count,
            _ => self.filled as int,
        }
    }

    /// The exact read's answer to `event`.
    ///
    /// While the buffer has room and time is left, the rest of the buffer is
    /// read into. A read that brings nothing is followed by a short sleep; a
    /// read that fails ends the operation with its error. The operation
    /// succeeds at the moment the buffer is full, and ends with a timeout
    /// when the clock shows the time allowed has passed before that.
    pub open spec fn reply(&self, event: ExactEvent) -> ExactAction {
        match event {
            ExactEvent::Elapsed(elapsed) => if elapsed.nanos < self.timeout.nanos {
                ExactAction::Read { offset: self.filled }
            } else {
                ExactAction::Finish(Err(BitcoreError::timed_out(self.timeout)))
            },
            ExactEvent::Read(Ok(count)) => if count == 0 {
                ExactAction::Sleep(TimeSpan { nanos: 1_000_000 })
            } else if self.filled + count == self.len {
                ExactAction::Finish(Ok(()))
            } else {
                ExactAction::CheckClock
            },
            ExactEvent::Read(Err(error)) => ExactAction::Finish(Err(error)),
            ExactEvent::Slept => ExactAction::CheckClock,
        }
    }

    /// The exact read after `event`.
    pub open spec fn next(&self, event: ExactEvent) -> ExactReader {
        ExactReader {
            len: self.len,
            filled: self.filled_after(event) as usize,
            timeout: self.timeout,
            phase: Self::phase_for(&self.reply(event)),
        }
    }

    /// Whether the exact read, told `events` one after the other, was
    /// waiting for each of them when it came.
    pub open spec fn runs(&self, events: Seq<ExactEvent>) -> bool
        decreases events.len(),
    {
        events.len() == 0 || (self.runs(events.drop_last()) && self.after(
            events.drop_last(),
        ).accepts(&events.last()))
    }

    /// The exact read after `events`, told one after the other.
    pub open spec fn after(&self, events: Seq<ExactEvent>) -> ExactReader
        decreases events.len(),
    {
        if events.len() == 0 {
            *self
        } else {
            self.after(events.drop_last()).next(events.last())
        }
    }

    /// The number of bytes that the reads among `events` brought.
    pub open spec fn brought(events: Seq<ExactEvent>) -> nat
        decreases events.len(),
    {
        if events.len() == 0 {
            0
        } else {
            let count: nat = match events.last() {
                ExactEvent::Read(Ok(count)) => count as nat,
                _ => 0,
            };
            Self::brought(events.drop_last()) + count
        }
    }

    /// An exact read into `len` bytes with `timeout` allowed, as it begins.
    pub open spec fn started(len: usize, timeout: TimeSpan) -> ExactReader {
        ExactReader { len, filled: 0, timeout, phase: Self::phase_for(&Self::opening(len)) }
    }

    /// Begins an exact read into a buffer of `len` bytes, with `timeout`
    /// allowed for the whole of it.
    pub fn begin(len: usize, timeout: TimeSpan) -> (started: (ExactReader, ExactAction))
        ensures
            started.1 == Self::opening(len),
            started.0 == Self::started(len, timeout),
            started.0.wf(),
    {
        if len == 0 {
            (
                ExactReader { len, filled: 0, timeout, phase: ExactPhase::Idle },
                ExactAction::Finish(Ok(())),
            )
        } else {
            (
                ExactReader { len, filled: 0, timeout, phase: ExactPhase::AwaitClock },
                ExactAction::CheckClock,
            )
        }
    }

    /// Whether `event` is the report that the exact read is waiting for.
    pub fn expects(&self, event: &ExactEvent) -> (expected: bool)
        ensures
            expected == self.accepts(event),
    {
        match event {
            ExactEvent::Elapsed(_) => self.phase == ExactPhase::AwaitClock,
            ExactEvent::Read(Ok(count)) => self.phase == ExactPhase::AwaitRead && self.filled
                <= self.len && *count <= self.len - self.filled,
            ExactEvent::Read(Err(_)) => self.phase == ExactPhase::AwaitRead,
            ExactEvent::Slept => self.phase == ExactPhase::AwaitSleep,
        }
    }

    /// Takes the caller's report and decides what comes next.
    pub fn step(&mut self, event: ExactEvent) -> (action: ExactAction)
        requires
            old(self).accepts(&event),
        ensures
            action == old(self).reply(event),
            *final(self) == old(self).next(event),
            old(self).wf() ==> final(self).wf(),
            old(self).wf() ==> (action == ExactAction::Finish(Ok(())) <==> final(self).filled
                == final(self).len),
    {
        match event {
            ExactEvent::Elapsed(elapsed) => {
                if elapsed.shorter_than(&self.timeout) {
                    self.phase = ExactPhase::AwaitRead;
                    ExactAction::Read { offset: self.filled }
                } else {
                    self.phase = ExactPhase::Idle;
                    ExactAction::Finish(Err(BitcoreError::timeout_after(self.timeout)))
                }
            },
            ExactEvent::Read(Ok(count)) => {
                if count == 0 {
                    self.phase = ExactPhase::AwaitSleep;
                    ExactAction::Sleep(TimeSpan::from_millis(EMPTY_READ_PAUSE_MS))
                } else {
                    self.filled = self.filled + count;
                    if self.filled == self.len {
                        self.phase = ExactPhase::Idle;
                        ExactAction::Finish(Ok(()))
                    } else {
                        self.phase = ExactPhase::AwaitClock;
                        ExactAction::CheckClock
                    }
                }
            },
            ExactEvent::Read(Err(error)) => {
                self.phase = ExactPhase::Idle;
                ExactAction::Finish(Err(error))
            },
            ExactEvent::Slept => {
                self.phase = ExactPhase::AwaitClock;
                ExactAction::CheckClock
            },
        }
    }
}

/// What an exact read has filled is what its reads have brought, whatever
/// else happened in between.
pub proof fn filled_is_what_the_reads_brought(reader: ExactReader, events: Seq<ExactEvent>)
    requires
        reader.wf(),
        reader.runs(events),
    ensures
        reader.after(events).wf(),
        reader.after(events).len == reader.len,
        reader.after(events).timeout == reader.timeout,
        reader.after(events).filled == reader.filled + ExactReader::brought(events),
    decreases events.len(),
{
    if events.len() > 0 {
        filled_is_what_the_reads_brought(reader, events.drop_last());
    }
}

/// An exact read into a buffer of `len` bytes succeeds at the very report
/// with which the bytes brought reach `len`, and at no other. Where the
/// clock shows that time is left, it reads on at the place where the bytes
/// brought so far end; where the clock shows that the time allowed has
/// passed, it ends with a timeout that carries that time.
pub proof fn exact_read_succeeds_when_full(
    len: usize,
    timeout: TimeSpan,
    events: Seq<ExactEvent>,
    last: ExactEvent,
)
    requires
        len > 0,
        ExactReader::started(len, timeout).runs(events.push(last)),
    ensures
        ExactReader::brought(events) < len,
        ExactReader::started(len, timeout).after(events).reply(last) == ExactAction::Finish(Ok(()))
            <==> ExactReader::brought(events.push(last)) == len,
        last matches ExactEvent::Elapsed(elapsed) && elapsed.nanos >= timeout.nanos
            ==> ExactReader::started(len, timeout).after(events).reply(last) == ExactAction::Finish(
            Err(BitcoreError::timed_out(timeout)),
        ),
        last matches ExactEvent::Elapsed(elapsed) && elapsed.nanos < timeout.nanos
            ==> ExactReader::started(len, timeout).after(events).reply(last) == (ExactAction::Read {
            offset: ExactReader::brought(events) as usize,
        }),
{
    let reader = ExactReader::started(len, timeout);
    assert(events.push(last).drop_last() == events);
    filled_is_what_the_reads_brought(reader, events);
    filled_is_what_the_reads_brought(reader, events.push(last));
}

} // verus!
