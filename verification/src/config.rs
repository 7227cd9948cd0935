//! Application configuration: servers, sensors, streaming and logging.
use vstd::prelude::*;

use crate::text::{decimal, decimal_text, join2, owned};

verus! {

// ── Rates held as IEEE-754 binary64 encodings ───────────────────────────────

/// A rate in hertz, held as the IEEE-754 binary64 encoding of the value that
/// configuration files and forms carry.
#[derive(Clone, Copy, Debug, PartialEq, Eq, Structural)]
pub struct RateHz {
    pub bits: u64,
}

pub open spec fn sign_bit() -> nat {
    0x8000_0000_0000_0000
}

/// Encoding of +infinity; every encoding whose magnitude part exceeds it is a NaN.
pub open spec fn infinity_bits() -> nat {
    0x7FF0_0000_0000_0000
}

/// Encoding of 5.0.
pub open spec fn five_hz_bits() -> u64 {
    0x4014_0000_0000_0000
}

pub open spec fn magnitude(bits: u64) -> nat {
    bits as nat % sign_bit()
}

pub open spec fn is_nan(bits: u64) -> bool {
    magnitude(bits) > infinity_bits()
}

/// Encoding of 0.1, the binary64 value nearest to a tenth.
pub open spec fn tenth_hz_bits() -> u64 {
    0x3FB9_9999_9999_999A
}

/// `x < y` for encoded values where `y` is positive and finite: false for a
/// NaN, true for ±0 and for every negative value, and among non-negative,
/// non-NaN encodings the order of values is that of the encodings.
pub open spec fn lt_positive(bits: u64, limit: u64) -> bool {
    !is_nan(bits) && ((bits as nat) >= sign_bit() || bits < limit)
}

/// `x > y` for encoded values where `y` is positive and finite: among
/// non-negative, non-NaN encodings the order of values is that of the encodings.
pub open spec fn gt_positive(bits: u64, limit: u64) -> bool {
    !is_nan(bits) && (bits as nat) < sign_bit() && bits > limit
}

impl RateHz {
    /// `self < 0.1`.
    pub fn lt_tenth(&self) -> (b: bool)
        ensures
            b == lt_positive(self.bits, tenth_hz_bits()),
    {
        let mag: u64 = self.bits % 0x8000_0000_0000_0000;
        mag <= 0x7FF0_0000_0000_0000 && (self.bits >= 0x8000_0000_0000_0000 || self.bits
            < 0x3FB9_9999_9999_999A)
    }

    /// `self > 5.0`.
    pub fn gt_five(&self) -> (b: bool)
        ensures
            b == gt_positive(self.bits, five_hz_bits()),
    {
        let mag: u64 = self.bits % 0x8000_0000_0000_0000;
        mag <= 0x7FF0_0000_0000_0000 && self.bits < 0x8000_0000_0000_0000 && self.bits
            > 0x4014_0000_0000_0000
    }

    /// `0.1 <= self && self <= 5.0`: among all encodings, exactly those of the
    /// values from 0.1 up to 5.0 lie between the encodings of the two bounds.
    pub fn in_tenth_to_five(&self) -> (b: bool)
        ensures
            b == (tenth_hz_bits() <= self.bits && self.bits <= five_hz_bits()),
    {
        0x3FB9_9999_9999_999A <= self.bits && self.bits <= 0x4014_0000_0000_0000
    }

    /// The encoding of 5.0 Hz.
    pub fn five() -> (r: RateHz)
        ensures
            r.bits == five_hz_bits(),
    {
        RateHz { bits: 0x4014_0000_0000_0000 }
    }
}

// ── Configuration sections ───────────────────────────────────────────────────

pub struct ServerConfig {
    pub host: String,
    pub port: u16,
    pub cors_origins: Vec<String>,
}

pub struct ModbusConfig {
    pub device: String,
    pub baud_rate: u32,
    pub slave_id: u8,
    pub timeout_ms: u64,
    pub retry_attempts: u8,
}

pub struct StreamingConfig {
    pub max_connections: usize,
    pub buffer_size: usize,
    pub metrics_update_rate_hz: RateHz,
    pub raw_data_max_samples: usize,
    pub websocket_ping_interval_sec: u64,
}

pub struct LoggingConfig {
    pub level: String,
    pub format: String,
}

pub struct AppConfig {
    pub server: ServerConfig,
    pub sensors: Vec<ModbusConfig>,
    pub streaming: StreamingConfig,
    pub logging: LoggingConfig,
}

/// The settings of a sensor on `device` before any configuration is read.
pub open spec fn is_default_sensor(s: ModbusConfig, device: Seq<char>) -> bool {
    &&& s.device@ == device
    &&& s.baud_rate == 115200
    &&& s.slave_id == 1
    &&& s.timeout_ms == 5000
    &&& s.retry_attempts == 3
}

pub fn default_sensor(device: &str) -> (s: ModbusConfig)
    ensures
        is_default_sensor(s, device@),
{
    ModbusConfig {
        device: owned(device),
        baud_rate: 115200,
        slave_id: 1,
        timeout_ms: 5000,
        retry_attempts: 3,
    }
}

/// The configuration written when none exists yet.
pub open spec fn is_default_config(c: AppConfig) -> bool {
    &&& c.server.host@ == "0.0.0.0"@
    &&& c.server.port == 3000
    &&& c.server.cors_origins@.len() == 1
    &&& c.server.cors_origins@[0]@ == "*"@
    &&& c.sensors@.len() == 4
    &&& is_default_sensor(c.sensors@[0], "/dev/ttyUSB0"@)
    &&& is_default_sensor(c.sensors@[1], "/dev/ttyUSB1"@)
    &&& is_default_sensor(c.sensors@[2], "/dev/ttyUSB2"@)
    &&& is_default_sensor(c.sensors@[3], "/dev/ttyUSB3"@)
    &&& c.streaming.max_connections == 10
    &&& c.streaming.buffer_size == 1024
    &&& c.streaming.metrics_update_rate_hz.bits == five_hz_bits()
    &&& c.streaming.raw_data_max_samples == 123
    &&& c.streaming.websocket_ping_interval_sec == 30
    &&& c.logging.level@ == "info"@
    &&& c.logging.format@ == "pretty"@
}

impl Default for AppConfig {
    fn default() -> (c: AppConfig)
        ensures
            is_default_config(c),
    {
        let mut cors_origins: Vec<String> = Vec::new();
        cors_origins.push(owned("*"));
        let mut sensors: Vec<ModbusConfig> = Vec::new();
        sensors.push(default_sensor("/dev/ttyUSB0"));
        sensors.push(default_sensor("/dev/ttyUSB1"));
        sensors.push(default_sensor("/dev/ttyUSB2"));
        sensors.push(default_sensor("/dev/ttyUSB3"));
        AppConfig {
            server: ServerConfig { host: owned("0.0.0.0"), port: 3000, cors_origins },
            sensors,
            streaming: StreamingConfig {
                max_connections: 10,
                buffer_size: 1024,
                metrics_update_rate_hz: RateHz::five(),
                raw_data_max_samples: 123,
                websocket_ping_interval_sec: 30,
            },
            logging: LoggingConfig { level: owned("info"), format: owned("pretty") },
        }
    }
}

// ── Validation ───────────────────────────────────────────────────────────────

/// Why a configuration is refused.
#[derive(PartialEq, Eq, Structural, Clone, Copy, Debug)]
pub enum ConfigError {
    PortZero,
    NoSensors,
    /// The sensor at this position (counting from 0) has slave ID 0.
    SlaveIdZero(usize),
    MaxConnectionsZero,
    RawSamplesOverLimit,
}

/// Position of the first sensor whose slave ID is 0, if any.
pub open spec fn first_zero_slave(sensors: Seq<ModbusConfig>) -> Option<int>
    decreases sensors.len(),
{
    if sensors.len() == 0 {
        None
    } else {
        match first_zero_slave(sensors.drop_last()) {
            Some(i) => Some(i),
            None => if sensors.last().slave_id == 0 {
                Some(sensors.len() - 1)
            } else {
                None
            },
        }
    }
}

/// The outcome of checking a configuration: the first failing rule, in the
/// order port, sensors present, slave IDs, connections, raw sample limit.
pub open spec fn spec_validate(c: AppConfig) -> Result<(), ConfigError> {
    if c.server.port == 0 {
        Err(ConfigError::PortZero)
    } else if c.sensors@.len() == 0 {
        Err(ConfigError::NoSensors)
    } else if first_zero_slave(c.sensors@) is Some {
        Err(ConfigError::SlaveIdZero(first_zero_slave(c.sensors@)->0 as usize))
    } else if c.streaming.max_connections == 0 {
        Err(ConfigError::MaxConnectionsZero)
    } else if c.streaming.raw_data_max_samples > 123 {
        Err(ConfigError::RawSamplesOverLimit)
    } else {
        Ok(())
    }
}

proof fn lemma_first_zero_slave(sensors: Seq<ModbusConfig>)
    ensures
        match first_zero_slave(sensors) {
            Some(i) => 0 <= i < sensors.len() && sensors[i].slave_id == 0 && forall|j: int|
                0 <= j < i ==> #[trigger] sensors[j].slave_id != 0,
            None => forall|j: int| 0 <= j < sensors.len() ==> #[trigger] sensors[j].slave_id != 0,
        },
    decreases sensors.len(),
{
    if sensors.len() > 0 {
        let prefix = sensors.drop_last();
        lemma_first_zero_slave(prefix);
        match first_zero_slave(prefix) {
            Some(i) => {
                assert(prefix[i] == sensors[i]);
                assert forall|j: int| 0 <= j < i implies #[trigger] sensors[j].slave_id != 0 by {
                    assert(prefix[j] == sensors[j]);
                }
            },
            None => {
                assert forall|j: int| 0 <= j < prefix.len() implies #[trigger] sensors[j].slave_id
                    != 0 by {
                    assert(prefix[j] == sensors[j]);
                }
                assert(sensors.last() == sensors[sensors.len() - 1]);
            },
        }
    }
}

proof fn lemma_first_zero_slave_at(sensors: Seq<ModbusConfig>, k: int)
    requires
        0 <= k < sensors.len(),
        sensors[k].slave_id == 0,
        forall|j: int| 0 <= j < k ==> #[trigger] sensors[j].slave_id != 0,
    ensures
        first_zero_slave(sensors) == Some(k),
{
    lemma_first_zero_slave(sensors);
}

impl AppConfig {
    pub fn validate(&self) -> (r: Result<(), ConfigError>)
        ensures
            r == spec_validate(*self),
    {
        if self.server.port == 0 {
            return Err(ConfigError::PortZero);
        }
        if self.sensors.len() == 0 {
            return Err(ConfigError::NoSensors);
        }
        let n = self.sensors.len();
        let mut i: usize = 0;
        while i < n
            invariant
                n == self.sensors@.len(),
                n > 0,
                self.server.port != 0,
                0 <= i <= n,
                forall|j: int| 0 <= j < i ==> #[trigger] self.sensors@[j].slave_id != 0,
            decreases n - i,
        {
            if self.sensors[i].slave_id == 0 {
                proof {
                    lemma_first_zero_slave_at(self.sensors@, i as int);
                }
                return Err(ConfigError::SlaveIdZero(i));
            }
            i = i + 1;
        }
        proof {
            lemma_first_zero_slave(self.sensors@);
        }
        if self.streaming.max_connections == 0 {
            return Err(ConfigError::MaxConnectionsZero);
        }
        if self.streaming.raw_data_max_samples > 123 {
            return Err(ConfigError::RawSamplesOverLimit);
        }
        Ok(())
    }
}

/// The message that reports a configuration error.
pub open spec fn config_error_text(e: ConfigError) -> Seq<char> {
    match e {
        ConfigError::PortZero => "Server port cannot be 0"@,
        ConfigError::NoSensors => "At least one sensor must be configured"@,
        ConfigError::SlaveIdZero(i) => "sensor"@ + decimal_text((i + 1) as nat) + " slave ID cannot be 0"@,
        ConfigError::MaxConnectionsZero => "Maximum connections cannot be 0"@,
        ConfigError::RawSamplesOverLimit => "Raw data max samples cannot exceed 123 (sensor limitation)"@,
    }
}

impl ConfigError {
    pub fn message(&self) -> (s: String)
        requires
            *self matches ConfigError::SlaveIdZero(i) ==> i < u64::MAX,
        ensures
            s@ == config_error_text(*self),
    {
        match self {
            ConfigError::PortZero => owned("Server port cannot be 0"),
            ConfigError::NoSensors => owned("At least one sensor must be configured"),
            ConfigError::SlaveIdZero(i) => {
                let mut s = join2("sensor", decimal((*i as u64) + 1).as_str());
                s.append(" slave ID cannot be 0");
                s
            },
            ConfigError::MaxConnectionsZero => owned("Maximum connections cannot be 0"),
            ConfigError::RawSamplesOverLimit => owned(
                "Raw data max samples cannot exceed 123 (sensor limitation)",
            ),
        }
    }
}

/// The default configuration passes its own checks.
pub proof fn lemma_default_config_valid(c: AppConfig)
    requires
        is_default_config(c),
    ensures
        spec_validate(c) == Ok::<(), ConfigError>(()),
{
    lemma_first_zero_slave(c.sensors@);
}

/// A configuration passes its checks exactly when its port is not 0, it has
/// a sensor, no sensor has slave ID 0, it allows a connection and its raw
/// sample limit is at most 123; the first failing rule, in that order, is
/// the one reported, with the first sensor whose slave ID is 0.
pub proof fn lemma_validation_rules(c: AppConfig)
    ensures
        spec_validate(c) is Ok <==> (c.server.port != 0 && c.sensors@.len() > 0 && (forall|j: int|
            0 <= j < c.sensors@.len() ==> #[trigger] c.sensors@[j].slave_id != 0)
            && c.streaming.max_connections != 0 && c.streaming.raw_data_max_samples <= 123),
        c.server.port == 0 ==> spec_validate(c) == Err::<(), ConfigError>(ConfigError::PortZero),
        c.server.port != 0 && c.sensors@.len() == 0 ==> spec_validate(c) == Err::<(), ConfigError>(
            ConfigError::NoSensors,
        ),
        forall|k: int|
            0 <= k < c.sensors@.len() && c.server.port != 0 && (#[trigger] c.sensors@[k]).slave_id
                == 0 && (forall|j: int| 0 <= j < k ==> #[trigger] c.sensors@[j].slave_id != 0)
                ==> spec_validate(c) == Err::<(), ConfigError>(ConfigError::SlaveIdZero(k as usize)),
{
    lemma_first_zero_slave(c.sensors@);
    assert forall|k: int|
        0 <= k < c.sensors@.len() && c.server.port != 0 && (#[trigger] c.sensors@[k]).slave_id == 0
            && (forall|j: int| 0 <= j < k ==> #[trigger] c.sensors@[j].slave_id != 0)
        implies spec_validate(c) == Err::<(), ConfigError>(ConfigError::SlaveIdZero(k as usize)) by {
        lemma_first_zero_slave_at(c.sensors@, k);
    }
}

} // verus!
