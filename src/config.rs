//! The monitor's settings, read once at startup and fixed thereafter.

use vstd::prelude::*;

verus! {

/// What the reconciliation loop needs to know, all intervals in seconds.
pub struct MonitorConfig {
    /// Name or id of the server to keep reachable.
    pub server_identifier: String,
    /// Address the liveness probe is sent to.
    pub ping_target: String,
    /// Pause after a cycle that did not get an unshelve accepted.
    pub normal_interval_secs: u64,
    /// Pause after a cycle whose unshelve request was accepted.
    pub recovering_interval_secs: u64,
    /// How long the probe waits for an answer.
    pub ping_timeout_secs: u64,
}

/// Poll interval, in minutes, when none is given.
pub const DEFAULT_INTERVAL_MINUTES: u64 = 5;

/// Probe timeout, in seconds, when none is given.
pub const DEFAULT_PING_TIMEOUT_SECS: u64 = 3;

/// Pause after an accepted unshelve request: one minute.
pub const RECOVERING_INTERVAL_SECS: u64 = 60;

/// Why the settings cannot start a monitor.
#[derive(Clone, Copy, Debug, PartialEq, Eq, Structural)]
pub enum ConfigError {
    MissingServerName,
    MissingPingTarget,
    /// The poll interval is not a whole number of minutes.
    InvalidInterval,
    /// The probe timeout is not a whole number of seconds.
    InvalidTimeout,
    /// The poll interval in seconds does not fit in 64 bits.
    IntervalTooLong,
}

pub open spec fn is_digit(c: char) -> bool {
    '0' <= c && c <= '9'
}

/// The number that a run of decimal digits spells.
pub open spec fn digits_value(s: Seq<char>) -> int
    decreases s.len(),
{
    if s.len() == 0 {
        0
    } else {
        digits_value(s.drop_last()) * 10 + (s.last() as u32 - '0' as u32)
    }
}

/// The number written by `s`: an optional `+` and then one or more decimal
/// digits, nothing else.
pub open spec fn decimal_value(s: Seq<char>) -> Option<int> {
    let digits = if s.len() > 0 && s[0] == '+' { s.drop_first() } else { s };
    if digits.len() > 0 && forall|i: int| 0 <= i < digits.len() ==> is_digit(#[trigger] digits[i]) {
        Some(digits_value(digits))
    } else {
        None
    }
}

/// `s` read as a `u64`: a decimal number that fits.
pub open spec fn u64_from_text(s: Seq<char>) -> Option<u64> {
    match decimal_value(s) {
        Some(v) => if v <= u64::MAX { Some(v as u64) } else { None },
        None => None,
    }
}

/// Relies on `<u64 as FromStr>::from_str`, documented to accept an optional
/// `+` followed by decimal digits only, and to fail on anything else or on a
/// value out of range.
#[verifier::external_body]
fn parse_u64(text: &str) -> (r: Option<u64>)
    ensures
        r == u64_from_text(text@),
{
    text.parse::<u64>().ok()
}

/// A numeric setting: its default when absent, else its text read as a `u64`.
pub open spec fn setting_value(text: Option<String>, default: u64) -> Option<u64> {
    match text {
        None => Some(default),
        Some(t) => u64_from_text(t@),
    }
}

/// The first thing wrong with a set of settings, in the order they are read.
pub open spec fn config_error(
    has_server_name: bool,
    has_ping_target: bool,
    interval_minutes: Option<u64>,
    ping_timeout_secs: Option<u64>,
) -> Option<ConfigError> {
    if !has_server_name {
        Some(ConfigError::MissingServerName)
    } else if !has_ping_target {
        Some(ConfigError::MissingPingTarget)
    } else if interval_minutes is None {
        Some(ConfigError::InvalidInterval)
    } else if ping_timeout_secs is None {
        Some(ConfigError::InvalidTimeout)
    } else if interval_minutes.unwrap() * 60 > u64::MAX {
        Some(ConfigError::IntervalTooLong)
    } else {
        None
    }
}

fn read_setting(text: Option<String>, default: u64) -> (r: Option<u64>)
    ensures
        r == setting_value(text, default),
{
    match text {
        None => Some(default),
        Some(t) => parse_u64(t.as_str()),
    }
}

impl MonitorConfig {
    /// Builds the configuration from the raw settings: the server's name or
    /// id and the probe target are required; the poll interval (minutes) and
    /// the probe timeout (seconds) fall back to their defaults when absent.
    pub fn from_settings(
        server_name: Option<String>,
        ping_target: Option<String>,
        interval_minutes: Option<String>,
        ping_timeout_secs: Option<String>,
    ) -> (r: Result<MonitorConfig, ConfigError>)
        ensures
            ({
                let minutes = setting_value(interval_minutes, DEFAULT_INTERVAL_MINUTES);
                let timeout = setting_value(ping_timeout_secs, DEFAULT_PING_TIMEOUT_SECS);
                let error = config_error(
                    server_name is Some,
                    ping_target is Some,
                    minutes,
                    timeout,
                );
                match r {
                    Ok(cfg) => {
                        &&& error is None
                        &&& cfg.server_identifier@ == server_name->Some_0@
                        &&& cfg.ping_target@ == ping_target->Some_0@
                        &&& cfg.normal_interval_secs == minutes->Some_0 * 60
                        &&& cfg.recovering_interval_secs == RECOVERING_INTERVAL_SECS
                        &&& cfg.ping_timeout_secs == timeout->Some_0
                    },
                    Err(e) => error == Some(e),
                }
            }),
    {
        let server_identifier = match server_name {
            Some(n) => n,
            None => return Err(ConfigError::MissingServerName),
        };
        let ping_target = match ping_target {
            Some(t) => t,
            None => return Err(ConfigError::MissingPingTarget),
        };
        let minutes = match read_setting(interval_minutes, DEFAULT_INTERVAL_MINUTES) {
            Some(m) => m,
            None => return Err(ConfigError::InvalidInterval),
        };
        let timeout = match read_setting(ping_timeout_secs, DEFAULT_PING_TIMEOUT_SECS) {
            Some(t) => t,
            None => return Err(ConfigError::InvalidTimeout),
        };
        let normal_interval_secs = match minutes.checked_mul(60) {
            Some(secs) => secs,
            None => return Err(ConfigError::IntervalTooLong),
        };
        Ok(MonitorConfig {
            server_identifier,
            ping_target,
            normal_interval_secs,
            recovering_interval_secs: RECOVERING_INTERVAL_SECS,
            ping_timeout_secs: timeout,
        })
    }
}

} // verus!
