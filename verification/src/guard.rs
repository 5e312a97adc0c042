//! The guard of one connection: how it is opened, and the operations that
//! its settings govern.

use vstd::prelude::*;
use vstd::string::*;
use crate::config::SerialConfig;
use crate::error::{BitcoreError, IoFailure, TransportFailure};
use crate::exact::{ExactAction, ExactReader};
use crate::line::{LineAction, LineReader, LineState};
use crate::read::{ReadAction, ReadOp};
use crate::slot::SlotStatus;
use crate::write::{WriteAction, WriteOp};

verus! {

/// The guard of one open connection: the settings it was opened with.
///
/// The caller keeps the transport behind a lock; the guard says what to do
/// with it.
#[derive(Clone, Copy, Debug, PartialEq, Eq, Structural)]
pub struct Serial {
    pub config: SerialConfig,
}

/// What an opening is waiting for.
#[derive(Clone, Copy, Debug, PartialEq, Eq, Structural)]
pub enum OpenPhase {
    /// The opening is over.
    Idle,
    /// The outcome of opening the device.
    AwaitOpen,
    /// The outcome of the first flush.
    AwaitFlush,
}

/// What the caller reports back to an opening.
#[derive(Debug, PartialEq, Eq)]
pub enum OpenEvent {
    /// The outcome of opening the device with the settings.
    Opened(Result<(), TransportFailure>),
    /// The outcome of flushing the transport just opened.
    Flushed(Result<(), TransportFailure>),
}

/// What an opening asks the caller to do next.
#[derive(Debug, PartialEq, Eq)]
pub enum OpenAction {
    /// Open the device with these settings.
    Open(SerialConfig),
    /// Flush the transport, so that nothing stale is left in its buffers.
    Flush,
    /// The opening is over: on success, store the transport in the slot
    /// under this guard; on failure, let go of it.
    Finish(Result<Serial, BitcoreError>),
}

/// Opening a connection, as a state machine.
#[derive(Clone, Copy, Debug, PartialEq, Eq, Structural)]
pub struct OpenOp {
    /// The settings to open with.
    pub config: SerialConfig,
    /// What the opening is waiting for.
    pub phase: OpenPhase,
}

impl OpenOp {
    /// Whether `event` is the report that the opening is waiting for.
    pub open spec fn accepts(&self, event: &OpenEvent) -> bool {
        match *event {
            OpenEvent::Opened(_) => self.phase == OpenPhase::AwaitOpen,
            OpenEvent::Flushed(_) => self.phase == OpenPhase::AwaitFlush,
        }
    }

    /// What the opening waits for once it has asked for `action`.
    pub open spec fn phase_for(action: &OpenAction) -> OpenPhase {
        match *action {
            OpenAction::Open(_) => OpenPhase::AwaitOpen,
            OpenAction::Flush => OpenPhase::AwaitFlush,
            OpenAction::Finish(_) => OpenPhase::Idle,
        }
    }

    /// The opening's answer to `event`: a device that opens is flushed, and
    /// once flushed it is guarded under the settings; a failure of either
    /// step ends the opening as a transport error.
    pub open spec fn reply(&self, event: OpenEvent) -> OpenAction {
        match event {
            OpenEvent::Opened(Ok(_)) => OpenAction::Flush,
            OpenEvent::Flushed(Ok(_)) => OpenAction::Finish(Ok(Serial { config: self.config })),
            OpenEvent::Opened(Err(failure)) | OpenEvent::Flushed(Err(failure)) => {
                OpenAction::Finish(Err(BitcoreError::SerialPort(failure)))
            },
        }
    }

    /// Whether `event` is the report that the opening is waiting for.
    pub fn expects(&self, event: &OpenEvent) -> (expected: bool)
        ensures
            expected == self.accepts(event),
    {
        match event {
            OpenEvent::Opened(_) => self.phase == OpenPhase::AwaitOpen,
            OpenEvent::Flushed(_) => self.phase == OpenPhase::AwaitFlush,
        }
    }

    /// Takes the caller's report and decides what comes next.
    pub fn step(&mut self, event: OpenEvent) -> (action: OpenAction)
        requires
            old(self).accepts(&event),
        ensures
            action == old(self).reply(event),
            final(self).config == old(self).config,
            final(self).phase == Self::phase_for(&action),
    {
        match event {
            OpenEvent::Opened(Ok(_)) => {
                self.phase = OpenPhase::AwaitFlush;
                OpenAction::Flush
            },
            OpenEvent::Flushed(Ok(_)) => {
                self.phase = OpenPhase::Idle;
                OpenAction::Finish(Ok(Serial { config: self.config }))
            },
            OpenEvent::Opened(Err(failure)) => {
                self.phase = OpenPhase::Idle;
                OpenAction::Finish(Err(BitcoreError::SerialPort(failure)))
            },
            OpenEvent::Flushed(Err(failure)) => {
                self.phase = OpenPhase::Idle;
                OpenAction::Finish(Err(BitcoreError::SerialPort(failure)))
            },
        }
    }
}

impl Serial {
    /// Begins to open a connection with the default settings.
    pub fn new() -> (started: (OpenOp, OpenAction))
        ensures
            started.0.config == SerialConfig::with_baud(9600),
            started.0.phase == OpenPhase::AwaitOpen,
            started.1 == OpenAction::Open(started.0.config),
    {
        Serial::with_config(SerialConfig::new(crate::config::DEFAULT_BAUD_RATE))
    }

    /// Begins to open a connection with `config`.
    pub fn with_config(config: SerialConfig) -> (started: (OpenOp, OpenAction))
        ensures
            started.0.config == config,
            started.0.phase == OpenPhase::AwaitOpen,
            started.1 == OpenAction::Open(config),
    {
        (OpenOp { config, phase: OpenPhase::AwaitOpen }, OpenAction::Open(config))
    }

    /// Begins a write of `data`, with the retries of the settings. Empty
    /// data is written at once: zero bytes, and the transport not touched.
    pub fn write(&self, data: &[u8]) -> (started: (WriteOp, WriteAction))
        ensures
            started.1 == WriteOp::opening(data@.len() as usize),
            started.0 == WriteOp::started(data@.len() as usize, self.config.retries),
            started.0.wf(),
    {
        WriteOp::begin(data.len(), self.config.retries)
    }

    /// Begins a write of the bytes of `data`: the write of those bytes, and
    /// nothing else.
    pub fn write_str(&self, data: &str) -> (started: (WriteOp, WriteAction))
        ensures
            started.1 == WriteOp::opening(data.spec_bytes().len() as usize),
            started.0 == WriteOp::started(data.spec_bytes().len() as usize, self.config.retries),
            started.0.wf(),
    {
        self.write(data.as_bytes())
    }

    /// Begins a read into `buffer`, with the timeout of the settings. A
    /// buffer without room is read at once: zero bytes, and the transport
    /// not touched.
    pub fn read(&self, buffer: &[u8]) -> (started: (ReadOp, ReadAction))
        ensures
            started.1 == ReadOp::opening(buffer@.len() as usize),
            started.0 == ReadOp::started(buffer@.len() as usize, self.config.timeout),
            started.0.wf(),
    {
        ReadOp::begin(buffer.len(), self.config.timeout)
    }

    /// Begins a read that fills `buffer`, with the timeout of the settings
    /// for the whole of it.
    pub fn read_exact(&self, buffer: &[u8]) -> (started: (ExactReader, ExactAction))
        ensures
            started.1 == ExactReader::opening(buffer@.len() as usize),
            started.0 == ExactReader::started(buffer@.len() as usize, self.config.timeout),
            started.0.wf(),
    {
        ExactReader::begin(buffer.len(), self.config.timeout)
    }

    /// Begins the read of one line, with the timeout of the settings for
    /// the whole line.
    pub fn read_line(&self) -> (started: (LineReader, LineAction))
        ensures
            started.1 == LineAction::CheckClock,
            started.0@ == LineState::fresh(self.config.timeout),
    {
        LineReader::begin(self.config.timeout)
    }

    /// The result of a flush, from what the caller found in the slot and,
    /// on a held transport, what the transport's own flush returned. It is
    /// not tried again.
    pub fn flush(&self, slot: SlotStatus, flushed: Result<(), IoFailure>) -> (result: Result<
        (),
        BitcoreError,
    >)
        ensures
            result == match slot.verdict() {
                Err(refusal) => Err(refusal),
                Ok(_) => match flushed {
                    Ok(_) => Ok(()),
                    Err(failure) => Err(BitcoreError::Io(failure)),
                },
            },
    {
        slot.flush(flushed)
    }

    /// The port's name: the transport's own answer where one is held,
    /// nothing where the slot is empty or its lock cannot be taken.
    pub fn port_name(&self, slot: &SlotStatus, name: Option<String>) -> (reported: Option<String>)
        ensures
            reported == if *slot == SlotStatus::Held { name } else { None },
    {
        slot.port_name(name)
    }

    /// Whether a transport is held. A lock that cannot be taken counts as
    /// not connected.
    pub fn is_connected(&self, slot: &SlotStatus) -> (connected: bool)
        ensures
            connected == (*slot == SlotStatus::Held),
    {
        slot.is_connected()
    }
}

} // verus!
