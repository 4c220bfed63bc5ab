use vstd::prelude::*;

verus! {

/// The settings the monitor runs with.
pub struct Config {
    pub watcher_host: String,
    pub watcher_port: String,
    pub redis_url: String,
    pub logging_api_url: String,
    pub stale_threshold_seconds: u64,
    pub check_interval_seconds: u64,
}

/// Why a set of raw settings could not become a `Config`.
#[derive(Debug, Clone, Copy, PartialEq, Eq, Structural)]
pub enum ConfigError {
    MissingRedisUrl,
    MissingLoggingApiUrl,
    InvalidStaleThreshold,
    InvalidCheckInterval,
}

pub const DEFAULT_STALE_THRESHOLD_SECONDS: u64 = 30;

pub const DEFAULT_CHECK_INTERVAL_SECONDS: u64 = 10;

/// The digits of a decimal number written with an optional leading `+`.
pub open spec fn unsigned_digits(s: Seq<char>) -> Seq<char> {
    if s.len() > 0 && s[0] == '+' {
        s.drop_first()
    } else {
        s
    }
}

pub open spec fn all_decimal_digits(d: Seq<char>) -> bool {
    d.len() > 0 && forall|i: int| 0 <= i < d.len() ==> '0' <= #[trigger] d[i] <= '9'
}

/// The number that a sequence of decimal digits denotes.
pub open spec fn digits_value(d: Seq<char>) -> nat
    decreases d.len(),
{
    if d.len() == 0 {
        0
    } else {
        digits_value(d.drop_last()) * 10 + (d.last() as nat - '0' as nat) as nat
    }
}

/// `s` is the decimal text of a number that fits in a `u64`.
pub open spec fn is_u64_text(s: Seq<char>) -> bool {
    all_decimal_digits(unsigned_digits(s)) && digits_value(unsigned_digits(s)) <= u64::MAX
}

/// The value of a decimal text.
pub open spec fn u64_text_value(s: Seq<char>) -> nat {
    digits_value(unsigned_digits(s))
}

/// A number of seconds from its decimal text.
///
/// Relies on `<u64 as FromStr>::from_str` (`str::parse`), whose documentation
/// says it accepts an optional `+` followed by base-ten ASCII digits only, and
/// fails on anything else and on a value that does not fit.
#[verifier::external_body]
fn parse_u64(s: &str) -> (r: Option<u64>)
    ensures
        r.is_some() <==> is_u64_text(s@),
        r matches Some(n) ==> n as nat == u64_text_value(s@),
{
    s.parse::<u64>().ok()
}

/// A setting in seconds: the default when it is not set, else its text read as
/// a number.
pub open spec fn seconds_setting(raw: Option<String>, default: u64) -> Option<u64> {
    match raw {
        None => Some(default),
        Some(s) => if is_u64_text(s@) {
            Some(u64_text_value(s@) as u64)
        } else {
            None
        },
    }
}

/// Reads a setting in seconds.
pub fn parse_seconds(raw: Option<String>, default: u64) -> (r: Option<u64>)
    ensures
        r == seconds_setting(raw, default),
{
    match raw {
        None => Some(default),
        Some(s) => parse_u64(s.as_str()),
    }
}

impl ConfigError {
    /// The name of the setting the error is about.
    pub fn setting_name(&self) -> (r: &'static str)
        ensures
            *self == ConfigError::MissingRedisUrl ==> r@ == "REDIS_URL"@,
            *self == ConfigError::MissingLoggingApiUrl ==> r@ == "LOGGING_API_URL"@,
            *self == ConfigError::InvalidStaleThreshold ==> r@ == "STALE_THRESHOLD_SECONDS"@,
            *self == ConfigError::InvalidCheckInterval ==> r@ == "CHECK_INTERVAL_SECONDS"@,
    {
        match self {
            ConfigError::MissingRedisUrl => "REDIS_URL",
            ConfigError::MissingLoggingApiUrl => "LOGGING_API_URL",
            ConfigError::InvalidStaleThreshold => "STALE_THRESHOLD_SECONDS",
            ConfigError::InvalidCheckInterval => "CHECK_INTERVAL_SECONDS",
        }
    }
}

impl Config {
    /// Builds the settings from their raw values, `None` standing for a value
    /// that was not given. The host and port have defaults, the two URLs are
    /// required, and the two durations default to 30 and 10 seconds.
    /// The first missing or unreadable setting, in field order, is the error.
    pub fn from_values(
        watcher_host: Option<String>,
        watcher_port: Option<String>,
        redis_url: Option<String>,
        logging_api_url: Option<String>,
        stale_threshold_seconds: Option<String>,
        check_interval_seconds: Option<String>,
    ) -> (r: Result<Config, ConfigError>)
        ensures
            redis_url is None ==> r == Err::<Config, ConfigError>(ConfigError::MissingRedisUrl),
            redis_url is Some && logging_api_url is None ==> r == Err::<Config, ConfigError>(
                ConfigError::MissingLoggingApiUrl,
            ),
            redis_url is Some && logging_api_url is Some && seconds_setting(
                stale_threshold_seconds,
                DEFAULT_STALE_THRESHOLD_SECONDS,
            ) is None ==> r == Err::<Config, ConfigError>(ConfigError::InvalidStaleThreshold),
            redis_url is Some && logging_api_url is Some && seconds_setting(
                stale_threshold_seconds,
                DEFAULT_STALE_THRESHOLD_SECONDS,
            ) is Some && seconds_setting(check_interval_seconds, DEFAULT_CHECK_INTERVAL_SECONDS)
                is None ==> r == Err::<Config, ConfigError>(ConfigError::InvalidCheckInterval),
            r is Ok <==> (redis_url is Some && logging_api_url is Some && seconds_setting(
                stale_threshold_seconds,
                DEFAULT_STALE_THRESHOLD_SECONDS,
            ) is Some && seconds_setting(check_interval_seconds, DEFAULT_CHECK_INTERVAL_SECONDS)
                is Some),
            r matches Ok(c) ==> {
                &&& redis_url == Some(c.redis_url)
                &&& logging_api_url == Some(c.logging_api_url)
                &&& c.watcher_host@ == (match watcher_host {
                    Some(h) => h@,
                    None => "0.0.0.0"@,
                })
                &&& c.watcher_port@ == (match watcher_port {
                    Some(p) => p@,
                    None => "8080"@,
                })
                &&& seconds_setting(stale_threshold_seconds, DEFAULT_STALE_THRESHOLD_SECONDS)
                    == Some(c.stale_threshold_seconds)
                &&& seconds_setting(check_interval_seconds, DEFAULT_CHECK_INTERVAL_SECONDS)
                    == Some(c.check_interval_seconds)
            },
    {
        let watcher_host = match watcher_host {
            Some(h) => h,
            None => "0.0.0.0".to_owned(),
        };
        let watcher_port = match watcher_port {
            Some(p) => p,
            None => "8080".to_owned(),
        };
        let redis_url = match redis_url {
            Some(u) => u,
            None => return Err(ConfigError::MissingRedisUrl),
        };
        let logging_api_url = match logging_api_url {
            Some(u) => u,
            None => return Err(ConfigError::MissingLoggingApiUrl),
        };
        let stale = match parse_seconds(stale_threshold_seconds, DEFAULT_STALE_THRESHOLD_SECONDS) {
            Some(n) => n,
            None => return Err(ConfigError::InvalidStaleThreshold),
        };
        let interval = match parse_seconds(check_interval_seconds, DEFAULT_CHECK_INTERVAL_SECONDS) {
            Some(n) => n,
            None => return Err(ConfigError::InvalidCheckInterval),
        };
        Ok(
            Config {
                watcher_host,
                watcher_port,
                redis_url,
                logging_api_url,
                stale_threshold_seconds: stale,
                check_interval_seconds: interval,
            },
        )
    }
}

} // verus!
