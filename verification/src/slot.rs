//! The connection slot: at most one transport, released exactly once.

use vstd::prelude::*;
use crate::error::{BitcoreError, IoFailure};

verus! {

/// A connection: either nothing, or the one transport it owns.
#[derive(Debug)]
pub enum Connection<T> {
    /// No transport is held.
    Disconnected,
    /// The transport, owned by this connection alone.
    Connected(T),
}

/// What the caller found when it went for the lock on the slot.
#[derive(Debug, PartialEq, Eq)]
pub enum SlotStatus {
    /// An earlier holder failed while holding the lock; the reason given.
    Poisoned(String),
    /// The lock was taken; the slot holds no transport.
    Empty,
    /// The lock was taken; the slot holds a transport.
    Held,
}

impl<T> Connection<T> {
    /// A connection that owns `transport`.
    pub fn new(transport: T) -> (connection: Connection<T>)
        ensures
            connection == Connection::Connected(transport),
    {
        Connection::Connected(transport)
    }

    /// Whether a transport is held.
    pub fn is_connected(&self) -> (connected: bool)
        ensures
            connected == (self is Connected),
    {
        match self {
            Connection::Connected(_) => true,
            Connection::Disconnected => false,
        }
    }

    /// The status that a caller holding the lock reports for this slot.
    pub fn status(&self) -> (status: SlotStatus)
        ensures
            self is Connected ==> status == SlotStatus::Held,
            self is Disconnected ==> status == SlotStatus::Empty,
    {
        match self {
            Connection::Connected(_) => SlotStatus::Held,
            Connection::Disconnected => SlotStatus::Empty,
        }
    }

    /// Takes the transport out, for the caller to close. The slot is empty
    /// afterwards, so a second call hands out nothing.
    pub fn disconnect(&mut self) -> (transport: Option<T>)
        ensures
            (*final(self), transport) == released(*old(self)),
    {
        let mut taken = Connection::Disconnected;
        core::mem::swap(self, &mut taken);
        match taken {
            Connection::Connected(held) => Some(held),
            Connection::Disconnected => None,
        }
    }
}

impl SlotStatus {
    /// The verdict on an operation that needs the transport.
    pub open spec fn verdict(self) -> Result<(), BitcoreError> {
        match self {
            SlotStatus::Poisoned(reason) => Err(BitcoreError::LockFailed(reason)),
            SlotStatus::Empty => Err(BitcoreError::NotConnected),
            SlotStatus::Held => Ok(()),
        }
    }

    /// Whether an operation that needs the transport may go on: it fails
    /// with `LockFailed` on a poisoned lock and with `NotConnected` on an
    /// empty slot.
    pub fn check(self) -> (verdict: Result<(), BitcoreError>)
        ensures
            verdict == self.verdict(),
    {
        match self {
            SlotStatus::Poisoned(reason) => Err(BitcoreError::LockFailed(reason)),
            SlotStatus::Empty => Err(BitcoreError::NotConnected),
            SlotStatus::Held => Ok(()),
        }
    }

    /// Whether the slot is known to hold a transport. A poisoned lock
    /// counts as not connected.
    pub fn is_connected(&self) -> (connected: bool)
        ensures
            connected == (*self == SlotStatus::Held),
    {
        match self {
            SlotStatus::Held => true,
            _ => false,
        }
    }

    /// The port's name as the guard reports it: the transport's own answer
    /// where one is held, nothing otherwise.
    pub fn port_name(&self, name: Option<String>) -> (reported: Option<String>)
        ensures
            reported == if *self == SlotStatus::Held { name } else { None },
    {
        match self {
            SlotStatus::Held => name,
            _ => None,
        }
    }

    /// The result of a flush: the verdict on the slot, and on a held
    /// transport the outcome of the transport's own flush, a failure
    /// wrapped as an I/O error. `flushed` is looked at only on a held
    /// transport.
    pub fn flush(self, flushed: Result<(), IoFailure>) -> (result: Result<(), BitcoreError>)
        ensures
            result == match self.verdict() {
                Err(refusal) => Err(refusal),
                Ok(_) => match flushed {
                    Ok(_) => Ok(()),
                    Err(failure) => Err(BitcoreError::Io(failure)),
                },
            },
    {
        match self.check() {
            Err(refusal) => Err(refusal),
            Ok(_) => match flushed {
                Ok(_) => Ok(()),
                Err(failure) => Err(BitcoreError::Io(failure)),
            },
        }
    }
}

/// A connection hands its transport out once: after a disconnect the slot
/// is empty, and a second disconnect finds nothing to release.
pub proof fn released_exactly_once<T>(before: Connection<T>)
    ensures
        released(released(before).0).1 is None,
        released(before).0 is Disconnected,
        before is Connected ==> released(before).1 is Some,
{
}

/// The slot and the transport handed out by a disconnect.
pub open spec fn released<T>(connection: Connection<T>) -> (Connection<T>, Option<T>) {
    (
        Connection::Disconnected,
        match connection {
            Connection::Connected(held) => Some(held),
            Connection::Disconnected => None,
        },
    )
}

} // verus!
