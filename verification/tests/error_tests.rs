use bitcore::slot::{Connection, SlotStatus};
use bitcore::{BitcoreError, IoFailure, IoKind, Serial, SerialConfig, TimeSpan};

fn failure_of(kind: IoKind, message: &str) -> IoFailure {
    IoFailure { kind, message: String::from(message) }
}

#[test]
fn io_failures_map_to_their_own_variants() {
    assert_eq!(
        BitcoreError::from(failure_of(IoKind::NotConnected, "gone")),
        BitcoreError::NotConnected
    );
    assert_eq!(
        BitcoreError::from(failure_of(IoKind::TimedOut, "late")),
        BitcoreError::Timeout { timeout_ms: 0 }
    );
    assert_eq!(
        BitcoreError::from(failure_of(IoKind::AlreadyExists, "twice")),
        BitcoreError::AlreadyConnected
    );
    assert_eq!(
        BitcoreError::from(failure_of(IoKind::Other, "eof")),
        BitcoreError::Io(failure_of(IoKind::Other, "eof"))
    );
}

#[test]
fn errors_report_their_io_kind() {
    assert_eq!(BitcoreError::NotConnected.io_kind(), IoKind::NotConnected);
    assert_eq!(BitcoreError::Timeout { timeout_ms: 7 }.io_kind(), IoKind::TimedOut);
    assert_eq!(BitcoreError::AlreadyConnected.io_kind(), IoKind::Other);
    assert_eq!(BitcoreError::LockFailed(String::from("poisoned")).io_kind(), IoKind::Other);
    assert_eq!(BitcoreError::RetryLimitExceeded { attempts: 3 }.io_kind(), IoKind::Other);
    assert_eq!(
        BitcoreError::InvalidParameter { param: String::from("baud"), reason: String::from("0") }
            .io_kind(),
        IoKind::Other
    );
    assert_eq!(
        BitcoreError::Io(failure_of(IoKind::AlreadyExists, "x")).io_kind(),
        IoKind::AlreadyExists
    );
    assert_eq!(
        BitcoreError::timeout_after(TimeSpan::from_millis(1500)),
        BitcoreError::Timeout { timeout_ms: 1500 }
    );
    assert_eq!(
        BitcoreError::timeout_after(TimeSpan { nanos: u128::MAX }),
        BitcoreError::Timeout { timeout_ms: u64::MAX }
    );
}

#[test]
fn a_connection_releases_its_transport_once() {
    let mut connection = Connection::new(String::from("ttyUSB0"));
    assert!(connection.is_connected());
    assert_eq!(connection.status(), SlotStatus::Held);
    assert_eq!(connection.disconnect(), Some(String::from("ttyUSB0")));
    assert!(!connection.is_connected());
    assert_eq!(connection.status(), SlotStatus::Empty);
    assert_eq!(connection.disconnect(), None);
    assert!(!connection.is_connected());
}

#[test]
fn slot_verdicts() {
    assert_eq!(SlotStatus::Held.check(), Ok(()));
    assert_eq!(SlotStatus::Empty.check(), Err(BitcoreError::NotConnected));
    assert_eq!(
        SlotStatus::Poisoned(String::from("panicked")).check(),
        Err(BitcoreError::LockFailed(String::from("panicked")))
    );
}

#[test]
fn flush_passes_the_transport_result_through() {
    let guard = Serial { config: SerialConfig::default() };
    assert_eq!(guard.flush(SlotStatus::Held, Ok(())), Ok(()));
    assert_eq!(
        guard.flush(SlotStatus::Held, Err(failure_of(IoKind::Other, "stuck"))),
        Err(BitcoreError::Io(failure_of(IoKind::Other, "stuck")))
    );
    assert_eq!(guard.flush(SlotStatus::Empty, Ok(())), Err(BitcoreError::NotConnected));
    assert_eq!(
        guard.flush(SlotStatus::Poisoned(String::from("p")), Ok(())),
        Err(BitcoreError::LockFailed(String::from("p")))
    );
}

#[test]
fn port_name_and_connection_status_degrade_quietly() {
    let guard = Serial { config: SerialConfig::default() };
    let name = Some(String::from("/dev/ttyS0"));
    assert_eq!(guard.port_name(&SlotStatus::Held, name.clone()), name);
    assert_eq!(guard.port_name(&SlotStatus::Held, None), None);
    assert_eq!(guard.port_name(&SlotStatus::Empty, name.clone()), None);
    assert_eq!(guard.port_name(&SlotStatus::Poisoned(String::from("p")), name), None);
    assert!(guard.is_connected(&SlotStatus::Held));
    assert!(!guard.is_connected(&SlotStatus::Empty));
    assert!(!guard.is_connected(&SlotStatus::Poisoned(String::from("p"))));
}

#[test]
fn errors_describe_themselves() {
    assert_eq!(
        BitcoreError::SerialPort(bitcore::TransportFailure {
            kind: bitcore::TransportKind::NoDevice,
            description: String::from("no such device"),
        })
        .describe(),
        "serial port error: no such device"
    );
    assert_eq!(
        BitcoreError::Io(failure_of(IoKind::Other, "broken pipe")).describe(),
        "io error: broken pipe"
    );
    assert_eq!(BitcoreError::NotConnected.describe(), "connection not established");
    assert_eq!(BitcoreError::AlreadyConnected.describe(), "connection already exists");
    assert_eq!(
        BitcoreError::LockFailed(String::from("poisoned lock")).describe(),
        "lock acquisition failed: poisoned lock"
    );
    assert_eq!(
        BitcoreError::Timeout { timeout_ms: 1500 }.describe(),
        "operation timed out after 1500ms"
    );
    assert_eq!(
        BitcoreError::RetryLimitExceeded { attempts: 3 }.describe(),
        "retry limit exceeded: 3 attempts failed"
    );
    assert_eq!(
        BitcoreError::InvalidParameter {
            param: String::from("baud_rate"),
            reason: String::from("must be positive"),
        }
        .describe(),
        "invalid parameter baud_rate: must be positive"
    );
}

#[test]
fn numbers_are_written_in_decimal() {
    for n in [0u64, 7, 9, 10, 11, 99, 100, 101, 1_000_000, 18_446_744_073_709_551_615] {
        let mut text = String::from("n=");
        bitcore::text::push_decimal(&mut text, n);
        assert_eq!(text, format!("n={}", n));
    }
    assert_eq!(BitcoreError::Timeout { timeout_ms: 0 }.describe(), "operation timed out after 0ms");
    assert_eq!(
        BitcoreError::Timeout { timeout_ms: u64::MAX }.describe(),
        "operation timed out after 18446744073709551615ms"
    );
}
