//! Settings of a connection and the retry policy.

use vstd::prelude::*;
use crate::time::TimeSpan;

verus! {

/// Number of bits per character on the line.
#[derive(Clone, Copy, Debug, PartialEq, Eq, Structural)]
pub enum DataBits {
    Five,
    Six,
    Seven,
    Eight,
}

/// Parity checking mode.
#[derive(Clone, Copy, Debug, PartialEq, Eq, Structural)]
pub enum Parity {
    Off,
    Odd,
    Even,
}

/// Number of stop bits after each character.
#[derive(Clone, Copy, Debug, PartialEq, Eq, Structural)]
pub enum StopBits {
    One,
    Two,
}

/// Flow control mode.
#[derive(Clone, Copy, Debug, PartialEq, Eq, Structural)]
pub enum FlowControl {
    Off,
    Software,
    Hardware,
}

/// Baud rate of a connection opened without one.
pub const DEFAULT_BAUD_RATE: u32 = 9600;

/// Write retries of a connection opened without a count.
pub const DEFAULT_RETRIES: usize = 3;

/// Settings of one connection: built once, used for every operation on it.
#[derive(Clone, Copy, Debug, PartialEq, Eq, Structural)]
pub struct SerialConfig {
    pub baud_rate: u32,
    pub timeout: TimeSpan,
    pub retries: usize,
    pub data_bits: DataBits,
    pub parity: Parity,
    pub stop_bits: StopBits,
    pub flow_control: FlowControl,
}

impl SerialConfig {
    /// The settings at `baud_rate` with every other field at its default:
    /// one second of timeout, three retries, eight data bits, no parity, one
    /// stop bit, no flow control.
    pub open spec fn with_baud(baud_rate: u32) -> SerialConfig {
        SerialConfig {
            baud_rate,
            timeout: TimeSpan { nanos: 1_000_000_000 },
            retries: 3,
            data_bits: DataBits::Eight,
            parity: Parity::Off,
            stop_bits: StopBits::One,
            flow_control: FlowControl::Off,
        }
    }

    /// Default settings at the given baud rate.
    pub fn new(baud_rate: u32) -> (config: SerialConfig)
        ensures
            config == SerialConfig::with_baud(baud_rate),
    {
        SerialConfig {
            baud_rate,
            timeout: TimeSpan::from_secs(1),
            retries: DEFAULT_RETRIES,
            data_bits: DataBits::Eight,
            parity: Parity::Off,
            stop_bits: StopBits::One,
            flow_control: FlowControl::Off,
        }
    }

    /// The same settings with another timeout.
    pub fn timeout(self, timeout: TimeSpan) -> (config: SerialConfig)
        ensures
            config == (SerialConfig { timeout, ..self }),
    {
        SerialConfig { timeout, ..self }
    }

    /// The same settings with another number of write retries.
    pub fn retries(self, retries: usize) -> (config: SerialConfig)
        ensures
            config == (SerialConfig { retries, ..self }),
    {
        SerialConfig { retries, ..self }
    }
}

impl Default for SerialConfig {
    /// Default settings at 9600 baud.
    fn default() -> (config: SerialConfig)
        ensures
            config == SerialConfig::with_baud(9600),
    {
        SerialConfig::new(DEFAULT_BAUD_RATE)
    }
}

/// Bit pattern of the single-precision number one.
pub const ONE_BITS: u32 = 0x3F80_0000;

/// Bit pattern of the largest single-precision number below one.
pub const BELOW_ONE_BITS: u32 = 0x3F7F_FFFF;

/// Bit pattern of the multiplier of a policy made without one: the number
/// one, under which the delay does not grow.
pub const DEFAULT_BACKOFF_BITS: u32 = ONE_BITS;

/// Attempts of a policy made without a count.
pub const DEFAULT_MAX_ATTEMPTS: usize = 3;

/// Retry policy: how often to try, and how long to wait before each attempt.
///
/// The backoff multiplier is a single-precision number, held as its IEEE 754
/// bit pattern. Nothing here computes with it: a delay that grows is handed
/// out as a [`DelayPlan::Scaled`] for the caller to evaluate.
#[derive(Clone, Copy, Debug, PartialEq, Eq, Structural)]
pub struct RetryConfig {
    /// Most attempts to make.
    pub max_attempts: usize,
    /// Delay before the first retry.
    pub retry_delay: TimeSpan,
    /// Bit pattern of the factor by which the delay grows with each attempt.
    pub backoff_bits: u32,
}

/// The delay before an attempt.
#[derive(Clone, Copy, Debug, PartialEq, Eq, Structural)]
pub enum DelayPlan {
    /// Wait this long.
    Fixed(TimeSpan),
    /// Wait `base` times the multiplier raised to `exponent`, computed in
    /// single precision and rounded down to whole nanoseconds.
    Scaled { base: TimeSpan, multiplier_bits: u32, exponent: usize },
}

impl RetryConfig {
    /// Whether the multiplier is closer to one than the single-precision
    /// machine epsilon. Two numbers are: one itself and its predecessor.
    pub open spec fn flat(&self) -> bool {
        self.backoff_bits == 0x3F80_0000u32 || self.backoff_bits == 0x3F7F_FFFFu32
    }

    /// The delay before attempt number `attempt`, counted from zero.
    pub open spec fn plan(&self, attempt: usize) -> DelayPlan {
        if self.flat() {
            DelayPlan::Fixed(self.retry_delay)
        } else {
            DelayPlan::Scaled {
                base: self.retry_delay,
                multiplier_bits: self.backoff_bits,
                exponent: attempt,
            }
        }
    }

    /// A policy of `max_attempts` attempts, 100 ms apart, the delay the same
    /// before every attempt.
    pub fn new(max_attempts: usize) -> (policy: RetryConfig)
        ensures
            policy.max_attempts == max_attempts,
            policy.retry_delay.nanos == 100_000_000,
            policy.backoff_bits == 0x3F80_0000u32,
            policy.flat(),
    {
        RetryConfig {
            max_attempts,
            retry_delay: TimeSpan::from_millis(100),
            backoff_bits: DEFAULT_BACKOFF_BITS,
        }
    }

    /// The same policy with another base delay.
    pub fn with_delay(self, delay: TimeSpan) -> (policy: RetryConfig)
        ensures
            policy == (RetryConfig { retry_delay: delay, ..self }),
    {
        RetryConfig { retry_delay: delay, ..self }
    }

    /// The same policy with another multiplier, given as its bit pattern.
    pub fn with_backoff_bits(self, multiplier_bits: u32) -> (policy: RetryConfig)
        ensures
            policy == (RetryConfig { backoff_bits: multiplier_bits, ..self }),
    {
        RetryConfig { backoff_bits: multiplier_bits, ..self }
    }

    /// Whether every attempt waits the base delay.
    pub fn is_flat(&self) -> (flat: bool)
        ensures
            flat == self.flat(),
    {
        self.backoff_bits == ONE_BITS || self.backoff_bits == BELOW_ONE_BITS
    }

    /// The delay before attempt number `attempt`, counted from zero: the
    /// base delay itself under a flat policy, whatever the attempt.
    pub fn delay_for_attempt(&self, attempt: usize) -> (delay: DelayPlan)
        ensures
            delay == self.plan(attempt),
            self.flat() ==> delay == DelayPlan::Fixed(self.retry_delay),
    {
        if self.is_flat() {
            DelayPlan::Fixed(self.retry_delay)
        } else {
            DelayPlan::Scaled {
                base: self.retry_delay,
                multiplier_bits: self.backoff_bits,
                exponent: attempt,
            }
        }
    }
}

impl Default for RetryConfig {
    /// Three attempts, 100 ms apart, the delay the same before every
    /// attempt.
    fn default() -> (policy: RetryConfig)
        ensures
            policy.max_attempts == 3,
            policy.retry_delay.nanos == 100_000_000,
            policy.backoff_bits == 0x3F80_0000u32,
            policy.flat(),
    {
        RetryConfig::new(DEFAULT_MAX_ATTEMPTS)
    }
}

/// Under a flat policy every attempt waits the base delay, exactly.
pub proof fn flat_policy_waits_the_base_delay(policy: RetryConfig, attempt: usize)
    requires
        policy.flat(),
    ensures
        policy.plan(attempt) == DelayPlan::Fixed(policy.retry_delay),
{
}

} // verus!
