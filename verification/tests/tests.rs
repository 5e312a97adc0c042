use bitcore::guard::{OpenAction, OpenEvent, OpenOp};
use bitcore::{
    BitcoreError, DataBits, DelayPlan, FlowControl, IoKind, Parity, RetryConfig, Serial,
    SerialConfig, StopBits, TimeSpan, TransportFailure, TransportKind,
};

/// Evaluates a delay plan the way the caller of the library does: in single
/// precision, rounded down to whole nanoseconds.
fn resolve_delay(plan: DelayPlan) -> TimeSpan {
    match plan {
        DelayPlan::Fixed(delay) => delay,
        DelayPlan::Scaled { base, multiplier_bits, exponent } => {
            let multiplier = f32::from_bits(multiplier_bits).powi(exponent as i32);
            TimeSpan::from_nanos((base.as_nanos() as f32 * multiplier) as u64)
        }
    }
}

/// What the serial driver says when asked to open `port`.
fn try_open_device(port: &str, config: &SerialConfig) -> Result<(), TransportFailure> {
    let timeout = std::time::Duration::from_nanos(config.timeout.as_nanos() as u64);
    match serialport::new(port, config.baud_rate).timeout(timeout).open() {
        Ok(_) => Ok(()),
        Err(error) => Err(TransportFailure {
            kind: match error.kind {
                serialport::ErrorKind::NoDevice => TransportKind::NoDevice,
                serialport::ErrorKind::InvalidInput => TransportKind::InvalidInput,
                serialport::ErrorKind::Unknown => TransportKind::Unknown,
                serialport::ErrorKind::Io(_) => TransportKind::Io(IoKind::Other),
            },
            description: error.description,
        }),
    }
}

/// Opens `port` under the default settings.
fn connect(port: &str) -> Result<Serial, BitcoreError> {
    let (opening, action) = Serial::new();
    run_opening(port, opening, action)
}

/// Opens `port` under `config`.
fn connect_with(port: &str, config: &SerialConfig) -> Result<Serial, BitcoreError> {
    let (opening, action) = Serial::with_config(*config);
    run_opening(port, opening, action)
}

/// Carries an opening through, the device's part played by the driver.
fn run_opening(
    port: &str,
    mut opening: OpenOp,
    mut action: OpenAction,
) -> Result<Serial, BitcoreError> {
    loop {
        action = match action {
            OpenAction::Open(settings) => {
                let event = OpenEvent::Opened(try_open_device(port, &settings));
                assert!(opening.expects(&event));
                opening.step(event)
            }
            OpenAction::Flush => {
                let event = OpenEvent::Flushed(Ok(()));
                assert!(opening.expects(&event));
                opening.step(event)
            }
            OpenAction::Finish(result) => return result,
        };
    }
}

#[test]
fn test_serial_config() {
    // test default config
    let default_config = SerialConfig::default();
    assert_eq!(default_config.baud_rate, 9600);
    assert_eq!(default_config.timeout, TimeSpan::from_secs(1));
    assert_eq!(default_config.retries, 3);

    // test custom config
    let custom_config = SerialConfig::new(115200)
        .timeout(TimeSpan::from_millis(500))
        .retries(5);
    assert_eq!(custom_config.baud_rate, 115200);
    assert_eq!(custom_config.timeout, TimeSpan::from_millis(500));
    assert_eq!(custom_config.retries, 5);
}

#[test]
fn test_connection_to_nonexistent_port() {
    // test connection to non-existent port should fail gracefully
    let result = connect("/dev/nonexistent_port_12345");
    assert!(result.is_err());

    // test with custom config should also fail gracefully
    let config = SerialConfig::new(115200);
    let result = connect_with("/dev/nonexistent_port_12345", &config);
    assert!(result.is_err());
    assert!(matches!(result, Err(BitcoreError::SerialPort(_))));
}

#[test]
fn test_retry_config() {
    // test default retry config
    let default_config = RetryConfig::default();
    assert_eq!(default_config.max_attempts, 3);
    assert_eq!(default_config.retry_delay, TimeSpan::from_millis(100));
    assert_eq!(f32::from_bits(default_config.backoff_bits), 1.0);

    // test custom retry config
    let custom_config = RetryConfig::new(5)
        .with_delay(TimeSpan::from_millis(50))
        .with_backoff_bits(2.0f32.to_bits());
    assert_eq!(custom_config.max_attempts, 5);
    assert_eq!(custom_config.retry_delay, TimeSpan::from_millis(50));
    assert_eq!(f32::from_bits(custom_config.backoff_bits), 2.0);

    // test delay calculation with exponential backoff
    let delay_0 = resolve_delay(custom_config.delay_for_attempt(0));
    let delay_1 = resolve_delay(custom_config.delay_for_attempt(1));
    let delay_2 = resolve_delay(custom_config.delay_for_attempt(2));

    assert_eq!(delay_0, TimeSpan::from_millis(50));
    assert_eq!(delay_1, TimeSpan::from_millis(100)); // 50 * 2^1
    assert_eq!(delay_2, TimeSpan::from_millis(200)); // 50 * 2^2
}

#[test]
fn test_serial_config_builder_pattern() {
    // test builder pattern works correctly
    let config = SerialConfig::new(57600)
        .timeout(TimeSpan::from_millis(250))
        .retries(10);

    assert_eq!(config.baud_rate, 57600);
    assert_eq!(config.timeout, TimeSpan::from_millis(250));
    assert_eq!(config.retries, 10);

    // test that other fields keep defaults
    assert_eq!(config.data_bits, DataBits::Eight);
    assert_eq!(config.parity, Parity::Off);
    assert_eq!(config.stop_bits, StopBits::One);
    assert_eq!(config.flow_control, FlowControl::Off);
}

pub struct UartDriver {
    pub config: SerialConfig,
    pub stats: UartStats,
}

pub struct UartStats {
    pub tx: u32,
    pub rx: u32,
}

impl UartDriver {
    pub fn new(config: SerialConfig) -> Self {
        Self { config, stats: UartStats { tx: 0, rx: 0 } }
    }

    fn connect(&self, port_name: &str) -> Result<Serial, BitcoreError> {
        let serial = connect_with(port_name, &self.config)?;
        Ok(serial)
    }
}

#[test]
fn test_user_use_case_with_reference() {
    let config = SerialConfig::new(115200)
        .timeout(TimeSpan::from_millis(500))
        .retries(3);

    let driver = UartDriver::new(config);
    assert_eq!(driver.stats.tx, 0);
    assert_eq!(driver.stats.rx, 0);

    // This should compile and fail gracefully (port doesn't exist)
    let result = driver.connect("/dev/nonexistent_test_port");
    assert!(result.is_err());
}

#[test]
fn flat_policy_waits_the_base_delay_on_every_attempt() {
    let policy = RetryConfig::new(4)
        .with_delay(TimeSpan::from_millis(75))
        .with_backoff_bits(1.0f32.to_bits());
    assert!(policy.is_flat());
    for attempt in 0..64usize {
        assert_eq!(
            policy.delay_for_attempt(attempt),
            DelayPlan::Fixed(TimeSpan::from_millis(75))
        );
    }
}

#[test]
fn flatness_is_nearness_to_one_in_single_precision() {
    let mut bits: u32 = 0x3F7F_FFF0;
    while bits <= 0x3F80_0010 {
        let multiplier = f32::from_bits(bits);
        let near_one = (multiplier - 1.0).abs() < f32::EPSILON;
        let policy = RetryConfig::new(1).with_backoff_bits(bits);
        assert_eq!(policy.is_flat(), near_one, "bits {:#x}", bits);
        bits += 1;
    }
    assert!(!RetryConfig::new(1).with_backoff_bits(f32::NAN.to_bits()).is_flat());
    assert!(!RetryConfig::new(1).with_backoff_bits((-1.0f32).to_bits()).is_flat());
    assert!(RetryConfig::default().is_flat());
    assert!(RetryConfig::new(9).is_flat());
    assert!(!RetryConfig::default().with_backoff_bits(1.5f32.to_bits()).is_flat());
}

#[test]
fn the_default_policy_waits_the_base_delay_on_every_attempt() {
    let policy = RetryConfig::default();
    assert_eq!(policy.max_attempts, 3);
    for attempt in 0..32usize {
        assert_eq!(
            policy.delay_for_attempt(attempt),
            DelayPlan::Fixed(TimeSpan::from_millis(100))
        );
        assert_eq!(resolve_delay(policy.delay_for_attempt(attempt)), TimeSpan::from_millis(100));
    }
    assert_eq!(
        RetryConfig::new(7).delay_for_attempt(5),
        DelayPlan::Fixed(TimeSpan::from_millis(100))
    );
}

#[test]
fn growing_policy_hands_out_a_scaled_plan() {
    let policy = RetryConfig::default().with_backoff_bits(1.5f32.to_bits());
    assert_eq!(
        policy.delay_for_attempt(3),
        DelayPlan::Scaled {
            base: TimeSpan::from_millis(100),
            multiplier_bits: 1.5f32.to_bits(),
            exponent: 3
        }
    );
    assert_eq!(resolve_delay(policy.delay_for_attempt(1)), TimeSpan::from_millis(150));
}

#[test]
fn time_spans_convert_exactly() {
    assert_eq!(TimeSpan::from_nanos(17).as_nanos(), 17);
    assert_eq!(TimeSpan::from_millis(500).as_nanos(), 500_000_000);
    assert_eq!(TimeSpan::from_secs(2).as_nanos(), 2_000_000_000);
    assert_eq!(TimeSpan::from_nanos(1_999_999).as_millis(), 1);
    assert_eq!(TimeSpan::from_secs(u64::MAX).as_nanos(), u64::MAX as u128 * 1_000_000_000);
    assert_eq!(TimeSpan::from_millis(u64::MAX).as_millis_capped(), u64::MAX);
    assert_eq!(TimeSpan { nanos: u128::MAX }.as_millis_capped(), u64::MAX);
    assert_eq!(TimeSpan::from_nanos(999_999).as_millis_capped(), 0);
    assert!(TimeSpan::from_millis(1).shorter_than(&TimeSpan::from_millis(2)));
    assert!(!TimeSpan::from_millis(2).shorter_than(&TimeSpan::from_millis(2)));
}

#[test]
fn opening_flushes_before_it_hands_out_the_guard() {
    let config = SerialConfig::new(19200);
    let (mut opening, action) = Serial::with_config(config);
    assert_eq!(action, OpenAction::Open(config));
    assert!(!opening.expects(&OpenEvent::Flushed(Ok(()))));
    assert_eq!(opening.step(OpenEvent::Opened(Ok(()))), OpenAction::Flush);
    assert!(!opening.expects(&OpenEvent::Opened(Ok(()))));
    assert_eq!(
        opening.step(OpenEvent::Flushed(Ok(()))),
        OpenAction::Finish(Ok(Serial { config }))
    );
}

#[test]
fn opening_with_defaults_asks_for_the_default_settings() {
    let (_, action) = Serial::new();
    assert_eq!(action, OpenAction::Open(SerialConfig::default()));
}

#[test]
fn a_failed_first_flush_is_a_transport_error() {
    let (mut opening, _) = Serial::with_config(SerialConfig::default());
    opening.step(OpenEvent::Opened(Ok(())));
    let failure = TransportFailure {
        kind: TransportKind::Io(IoKind::Other),
        description: String::from("broken pipe"),
    };
    assert_eq!(
        opening.step(OpenEvent::Flushed(Err(failure.clone()))),
        OpenAction::Finish(Err(BitcoreError::SerialPort(failure)))
    );
}
