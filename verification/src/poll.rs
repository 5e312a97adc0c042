//! The bounded-wait read: poll the transport until bytes arrive or the time
//! allowed has passed.

use vstd::prelude::*;
use vstd::string::*;
use crate::error::{BitcoreError, IoFailure, IoKind};
use crate::time::TimeSpan;

verus! {

/// Milliseconds to sleep between two polls, unless set otherwise.
pub const DEFAULT_POLL_INTERVAL_MS: u64 = 10;

/// What a polling reader is waiting for.
#[derive(Clone, Copy, Debug, PartialEq, Eq, Structural)]
pub enum PollPhase {
    /// No read is under way.
    Idle,
    /// The time since the read began.
    AwaitClock,
    /// The number of bytes the transport holds.
    AwaitAvailable,
    /// The outcome of one transport read.
    AwaitRead,
    /// The end of a sleep.
    AwaitSleep,
}

/// What the caller reports back to a polling reader.
#[derive(Debug, PartialEq, Eq)]
pub enum PollEvent {
    /// The time that has passed since the read began.
    Elapsed(TimeSpan),
    /// The transport's answer to how many bytes it holds.
    Available(Result<u32, IoFailure>),
    /// The outcome of one read from the transport into the buffer.
    Read(Result<usize, IoFailure>),
    /// The sleep is over.
    Slept,
}

/// What a polling reader asks the caller to do next.
#[derive(Debug, PartialEq, Eq)]
pub enum PollAction {
    /// Report the time that has passed since the read began.
    CheckClock,
    /// Ask the transport how many bytes it holds.
    QueryAvailable,
    /// Read once from the transport into the buffer.
    Read,
    /// Sleep this long.
    Sleep(TimeSpan),
    /// The read is over, with this result.
    Finish(Result<usize, BitcoreError>),
}

/// The bounded-wait read as a state machine.
#[derive(Clone, Copy, Debug, PartialEq, Eq, Structural)]
pub struct PollingReader {
    /// Time allowed to the read under way.
    pub timeout: TimeSpan,
    /// Sleep between two polls.
    pub poll_interval: TimeSpan,
    /// What the reader is waiting for.
    pub phase: PollPhase,
}

/// Whether `error` is the I/O failure that surfaces `failure`: of kind
/// `Other`, its message `prefix` followed by the message of `failure`.
pub open spec fn surfaces(prefix: Seq<char>, failure: IoFailure, error: BitcoreError) -> bool {
    &&& error matches BitcoreError::Io(wrapped)
    &&& wrapped.kind == IoKind::Other
    &&& wrapped.message@ == prefix + failure.message@
}

/// The I/O failure that surfaces `failure` under `prefix`.
fn surface(prefix: &str, failure: IoFailure) -> (error: BitcoreError)
    ensures
        surfaces(prefix@, failure, error),
{
    let message = String::from_str(prefix).concat(failure.message.as_str());
    BitcoreError::Io(IoFailure { kind: IoKind::Other, message })
}

impl PollingReader {
    /// Whether `event` is the report that the reader is waiting for.
    pub open spec fn accepts(&self, event: &PollEvent) -> bool {
        match *event {
            PollEvent::Elapsed(_) => self.phase == PollPhase::AwaitClock,
            PollEvent::Available(_) => self.phase == PollPhase::AwaitAvailable,
            PollEvent::Read(_) => self.phase == PollPhase::AwaitRead,
            PollEvent::Slept => self.phase == PollPhase::AwaitSleep,
        }
    }

    /// What the reader waits for once it has asked for `action`.
    pub open spec fn phase_for(action: &PollAction) -> PollPhase {
        match *action {
            PollAction::CheckClock => PollPhase::AwaitClock,
            PollAction::QueryAvailable => PollPhase::AwaitAvailable,
            PollAction::Read => PollPhase::AwaitRead,
            PollAction::Sleep(_) => PollPhase::AwaitSleep,
            PollAction::Finish(_) => PollPhase::Idle,
        }
    }

    /// Whether `action` is the reader's answer to `event`.
    ///
    /// While time is left the transport is asked what it holds; only when it
    /// holds something is it read, and the first read that yields bytes ends
    /// the operation with their number. An empty answer is followed by a
    /// sleep of one poll interval. A failure of the transport ends the
    /// operation at once, as an I/O failure. When the time allowed has
    /// passed the operation ends with a timeout that carries that time in
    /// milliseconds.
    pub open spec fn answers(&self, event: &PollEvent, action: &PollAction) -> bool {
        match *event {
            PollEvent::Elapsed(elapsed) => if elapsed.nanos < self.timeout.nanos {
                *action == PollAction::QueryAvailable
            } else {
                *action == PollAction::Finish(Err(BitcoreError::timed_out(self.timeout)))
            },
            PollEvent::Available(Ok(count)) => if count > 0 {
                *action == PollAction::Read
            } else {
                *action == PollAction::Sleep(self.poll_interval)
            },
            PollEvent::Available(Err(failure)) => {
                &&& *action matches PollAction::Finish(Err(error))
                &&& surfaces("error checking bytes to read: "@, failure, error)
            },
            PollEvent::Read(Ok(count)) => if count > 0 {
                *action == PollAction::Finish(Ok(count))
            } else {
                *action == PollAction::Sleep(self.poll_interval)
            },
            PollEvent::Read(Err(failure)) => {
                &&& *action matches PollAction::Finish(Err(error))
                &&& surfaces("error reading bytes: "@, failure, error)
            },
            PollEvent::Slept => *action == PollAction::CheckClock,
        }
    }

    /// What the reader waits for after `event`.
    pub open spec fn phase_after(&self, event: &PollEvent) -> PollPhase {
        match *event {
            PollEvent::Elapsed(elapsed) => if elapsed.nanos < self.timeout.nanos {
                PollPhase::AwaitAvailable
            } else {
                PollPhase::Idle
            },
            PollEvent::Available(Ok(count)) => if count > 0 {
                PollPhase::AwaitRead
            } else {
                PollPhase::AwaitSleep
            },
            PollEvent::Read(Ok(count)) => if count > 0 {
                PollPhase::Idle
            } else {
                PollPhase::AwaitSleep
            },
            PollEvent::Available(Err(_)) | PollEvent::Read(Err(_)) => PollPhase::Idle,
            PollEvent::Slept => PollPhase::AwaitClock,
        }
    }

    /// The reader after `event`.
    pub open spec fn next(&self, event: &PollEvent) -> PollingReader {
        PollingReader { phase: self.phase_after(event), ..*self }
    }

    /// The first request of a read into `capacity` bytes: a buffer without
    /// room is done at once, any other read starts at the clock.
    pub open spec fn opening(capacity: usize) -> PollAction {
        if capacity == 0 {
            PollAction::Finish(Ok(0))
        } else {
            PollAction::CheckClock
        }
    }

    /// The reader once it has begun a read into `capacity` bytes with
    /// `timeout` allowed.
    pub open spec fn started(&self, capacity: usize, timeout: TimeSpan) -> PollingReader {
        PollingReader {
            timeout,
            poll_interval: self.poll_interval,
            phase: Self::phase_for(&Self::opening(capacity)),
        }
    }

    /// An idle reader that sleeps 10 ms between polls.
    pub fn new() -> (reader: PollingReader)
        ensures
            reader.phase == PollPhase::Idle,
            reader.poll_interval.nanos == 10_000_000,
            reader.timeout.nanos == 0,
    {
        PollingReader {
            timeout: TimeSpan::from_nanos(0),
            poll_interval: TimeSpan::from_millis(DEFAULT_POLL_INTERVAL_MS),
            phase: PollPhase::Idle,
        }
    }

    /// The same reader with another sleep between polls.
    pub fn with_poll_interval(self, interval: TimeSpan) -> (reader: PollingReader)
        ensures
            reader == (PollingReader { poll_interval: interval, ..self }),
    {
        PollingReader { poll_interval: interval, ..self }
    }

    /// Whether `event` is the report that the reader is waiting for.
    pub fn expects(&self, event: &PollEvent) -> (expected: bool)
        ensures
            expected == self.accepts(event),
    {
        match event {
            PollEvent::Elapsed(_) => self.phase == PollPhase::AwaitClock,
            PollEvent::Available(_) => self.phase == PollPhase::AwaitAvailable,
            PollEvent::Read(_) => self.phase == PollPhase::AwaitRead,
            PollEvent::Slept => self.phase == PollPhase::AwaitSleep,
        }
    }

    /// Begins a read into a buffer of `capacity` bytes, with `timeout`
    /// allowed. A buffer without room is done at once, with zero bytes and
    /// without a word to the transport; any other read starts at the clock.
    pub fn start(&mut self, capacity: usize, timeout: TimeSpan) -> (action: PollAction)
        ensures
            action == Self::opening(capacity),
            *final(self) == old(self).started(capacity, timeout),
    {
        self.timeout = timeout;
        if capacity == 0 {
            self.phase = PollPhase::Idle;
            PollAction::Finish(Ok(0))
        } else {
            self.phase = PollPhase::AwaitClock;
            PollAction::CheckClock
        }
    }

    /// Takes the caller's report and decides what comes next.
    pub fn step(&mut self, event: PollEvent) -> (action: PollAction)
        requires
            old(self).accepts(&event),
        ensures
            old(self).answers(&event, &action),
            *final(self) == old(self).next(&event),
            final(self).phase == Self::phase_for(&action),
    {
        match event {
            PollEvent::Elapsed(elapsed) => {
                if elapsed.shorter_than(&self.timeout) {
                    self.phase = PollPhase::AwaitAvailable;
                    PollAction::QueryAvailable
                } else {
                    self.phase = PollPhase::Idle;
                    PollAction::Finish(Err(BitcoreError::timeout_after(self.timeout)))
                }
            },
            PollEvent::Available(Ok(count)) => {
                if count > 0 {
                    self.phase = PollPhase::AwaitRead;
                    PollAction::Read
                } else {
                    self.phase = PollPhase::AwaitSleep;
                    PollAction::Sleep(self.poll_interval)
                }
            },
            PollEvent::Available(Err(failure)) => {
                self.phase = PollPhase::Idle;
                PollAction::Finish(Err(surface("error checking bytes to read: ", failure)))
            },
            PollEvent::Read(Ok(count)) => {
                if count > 0 {
                    self.phase = PollPhase::Idle;
                    PollAction::Finish(Ok(count))
                } else {
                    self.phase = PollPhase::AwaitSleep;
                    PollAction::Sleep(self.poll_interval)
                }
            },
            PollEvent::Read(Err(failure)) => {
                self.phase = PollPhase::Idle;
                PollAction::Finish(Err(surface("error reading bytes: ", failure)))
            },
            PollEvent::Slept => {
                self.phase = PollPhase::AwaitClock;
                PollAction::CheckClock
            },
        }
    }
}

/// The transport is read only in answer to its own word that it holds
/// bytes.
pub proof fn read_follows_available(reader: PollingReader, event: PollEvent, action: PollAction)
    requires
        reader.answers(&event, &action),
        action is Read,
    ensures
        event matches PollEvent::Available(Ok(count)) && count > 0,
{
}

/// Polling succeeds only with the count of a transport read that brought
/// something, and with exactly that count.
pub proof fn success_is_a_read_that_brought_bytes(
    reader: PollingReader,
    event: PollEvent,
    action: PollAction,
)
    requires
        reader.answers(&event, &action),
    ensures
        match action {
            PollAction::Finish(Ok(count)) => count > 0 && event == PollEvent::Read(Ok(count)),
            _ => true,
        },
        match event {
            PollEvent::Read(Ok(count)) => count > 0 ==> action == PollAction::Finish(Ok(count)),
            _ => true,
        },
{
}

/// A timeout and a failure of the transport are told apart: polling ends
/// with a timeout exactly when the clock shows that the time allowed has
/// passed, and with an I/O error exactly when the transport failed.
pub proof fn timeout_is_told_from_failure(
    reader: PollingReader,
    event: PollEvent,
    action: PollAction,
)
    requires
        reader.answers(&event, &action),
    ensures
        (action matches PollAction::Finish(Err(error)) && error is Timeout) <==> (event matches PollEvent::Elapsed(
            elapsed,
        ) && elapsed.nanos >= reader.timeout.nanos),
        (action matches PollAction::Finish(Err(error)) && error is Io) <==> (event matches PollEvent::Available(
            Err(_),
        ) || event matches PollEvent::Read(Err(_))),
        action matches PollAction::Finish(Err(error)) ==> error is Timeout || error is Io,
{
}

} // verus!
