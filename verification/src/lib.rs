//! Verified decision core of a managed serial connection.
//!
//! Every operation on the line is a small state machine: the caller performs
//! the action the machine names (take the lock, query the transport, sleep)
//! and hands back what happened; the machine decides what comes next. The
//! machines hold no transport and do no I/O, so each decision is proved for
//! every possible behaviour of the line.

pub mod config;
pub mod error;
pub mod exact;
pub mod guard;
pub mod line;
pub mod poll;
pub mod read;
pub mod slot;
pub mod text;
pub mod time;
pub mod write;

pub use config::{DataBits, DelayPlan, FlowControl, Parity, RetryConfig, SerialConfig, StopBits};
pub use error::{BitcoreError, IoFailure, IoKind, TransportFailure, TransportKind};
pub use guard::Serial;
pub use slot::{Connection, SlotStatus};
pub use time::TimeSpan;
