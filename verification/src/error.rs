//! The error surface of the library.

use vstd::prelude::*;
use vstd::string::*;
use crate::text::{decimal, push_decimal};
use crate::time::TimeSpan;

verus! {

/// The kinds of low-level I/O failure that the library tells apart.
#[derive(Clone, Copy, Debug, PartialEq, Eq, Structural)]
pub enum IoKind {
    /// The far end is not connected.
    NotConnected,
    /// The operating system gave up waiting.
    TimedOut,
    /// The resource exists already.
    AlreadyExists,
    /// Any other failure.
    Other,
}

/// A low-level I/O failure, as plain values.
#[derive(Clone, Debug, PartialEq, Eq)]
pub struct IoFailure {
    pub kind: IoKind,
    pub message: String,
}

/// The categories of failure that a transport driver reports.
#[derive(Clone, Copy, Debug, PartialEq, Eq, Structural)]
pub enum TransportKind {
    /// The device is missing or busy.
    NoDevice,
    /// A setting was refused.
    InvalidInput,
    /// The driver could not classify the failure.
    Unknown,
    /// An I/O failure below the driver.
    Io(IoKind),
}

/// A failure reported by the transport driver, as plain values.
#[derive(Clone, Debug, PartialEq, Eq)]
pub struct TransportFailure {
    pub kind: TransportKind,
    pub description: String,
}

/// Every way in which an operation of the library can fail.
#[derive(Clone, Debug, PartialEq, Eq)]
pub enum BitcoreError {
    /// The transport driver failed.
    SerialPort(TransportFailure),
    /// Reading from or writing to the transport failed.
    Io(IoFailure),
    /// No transport is held.
    NotConnected,
    /// A transport is held already.
    AlreadyConnected,
    /// The lock on the connection slot could not be taken.
    LockFailed(String),
    /// Nothing arrived within the time allowed.
    Timeout { timeout_ms: u64 },
    /// Every attempt allowed has failed.
    RetryLimitExceeded { attempts: usize },
    /// A parameter was refused.
    InvalidParameter { param: String, reason: String },
}

impl BitcoreError {
    /// The error that stands for a low-level I/O failure: the three kinds
    /// that have a variant of their own, else the failure wrapped as it is.
    pub open spec fn of_io(failure: IoFailure) -> BitcoreError {
        match failure.kind {
            IoKind::NotConnected => BitcoreError::NotConnected,
            IoKind::TimedOut => BitcoreError::Timeout { timeout_ms: 0 },
            IoKind::AlreadyExists => BitcoreError::AlreadyConnected,
            IoKind::Other => BitcoreError::Io(failure),
        }
    }

    /// The kind under which this error is reported as a low-level I/O
    /// failure.
    pub open spec fn spec_io_kind(&self) -> IoKind {
        match self {
            BitcoreError::Io(failure) => failure.kind,
            BitcoreError::NotConnected => IoKind::NotConnected,
            BitcoreError::Timeout { .. } => IoKind::TimedOut,
            _ => IoKind::Other,
        }
    }

    /// The kind under which this error is reported as a low-level I/O
    /// failure.
    pub fn io_kind(&self) -> (kind: IoKind)
        ensures
            kind == self.spec_io_kind(),
    {
        match self {
            BitcoreError::Io(failure) => failure.kind,
            BitcoreError::NotConnected => IoKind::NotConnected,
            BitcoreError::Timeout { .. } => IoKind::TimedOut,
            _ => IoKind::Other,
        }
    }

    /// What the error says of itself.
    pub open spec fn description(&self) -> Seq<char> {
        match *self {
            BitcoreError::SerialPort(failure) => "serial port error: "@ + failure.description@,
            BitcoreError::Io(failure) => "io error: "@ + failure.message@,
            BitcoreError::NotConnected => "connection not established"@,
            BitcoreError::AlreadyConnected => "connection already exists"@,
            BitcoreError::LockFailed(reason) => "lock acquisition failed: "@ + reason@,
            BitcoreError::Timeout { timeout_ms } => "operation timed out after "@ + decimal(
                timeout_ms as nat,
            ) + "ms"@,
            BitcoreError::RetryLimitExceeded { attempts } => "retry limit exceeded: "@ + decimal(
                attempts as nat,
            ) + " attempts failed"@,
            BitcoreError::InvalidParameter { param, reason } => "invalid parameter "@ + param@
                + ": "@ + reason@,
        }
    }

    /// What the error says of itself, as text.
    pub fn describe(&self) -> (text: String)
        ensures
            text@ == self.description(),
    {
        match self {
            BitcoreError::SerialPort(failure) => String::from_str("serial port error: ").concat(
                failure.description.as_str(),
            ),
            BitcoreError::Io(failure) => String::from_str("io error: ").concat(
                failure.message.as_str(),
            ),
            BitcoreError::NotConnected => String::from_str("connection not established"),
            BitcoreError::AlreadyConnected => String::from_str("connection already exists"),
            BitcoreError::LockFailed(reason) => String::from_str(
                "lock acquisition failed: ",
            ).concat(reason.as_str()),
            BitcoreError::Timeout { timeout_ms } => {
                let mut text = String::from_str("operation timed out after ");
                push_decimal(&mut text, *timeout_ms);
                text.concat("ms")
            },
            BitcoreError::RetryLimitExceeded { attempts } => {
                let mut text = String::from_str("retry limit exceeded: ");
                push_decimal(&mut text, *attempts as u64);
                text.concat(" attempts failed")
            },
            BitcoreError::InvalidParameter { param, reason } => String::from_str(
                "invalid parameter ",
            ).concat(param.as_str()).concat(": ").concat(reason.as_str()),
        }
    }

    /// The timeout that carries the time allowed, `timeout`, in whole
    /// milliseconds, capped at the largest `u64`.
    pub open spec fn timed_out(timeout: TimeSpan) -> BitcoreError {
        BitcoreError::Timeout { timeout_ms: timeout.capped_millis() as u64 }
    }

    /// The timeout that carries the time allowed, `timeout`, in whole
    /// milliseconds.
    pub fn timeout_after(timeout: TimeSpan) -> (error: BitcoreError)
        ensures
            error == BitcoreError::timed_out(timeout),
    {
        BitcoreError::Timeout { timeout_ms: timeout.as_millis_capped() }
    }
}

impl From<IoFailure> for BitcoreError {
    fn from(failure: IoFailure) -> (error: BitcoreError) {
        match failure.kind {
            IoKind::NotConnected => BitcoreError::NotConnected,
            IoKind::TimedOut => BitcoreError::Timeout { timeout_ms: 0 },
            IoKind::AlreadyExists => BitcoreError::AlreadyConnected,
            IoKind::Other => BitcoreError::Io(failure),
        }
    }
}

impl vstd::std_specs::convert::FromSpecImpl<IoFailure> for BitcoreError {
    open spec fn obeys_from_spec() -> bool {
        true
    }

    open spec fn from_spec(failure: IoFailure) -> BitcoreError {
        BitcoreError::of_io(failure)
    }
}

} // verus!
