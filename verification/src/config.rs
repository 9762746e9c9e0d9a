//! Configuration of a process, read from the values of its environment.

use vstd::prelude::*;

use crate::json::{decimal_value, digit_value, lemma_decimal_prefix, lemma_decimal_reaches};
use crate::text::{chars_of, ends_with_char, nat_text, u64_to_string};

verus! {

/// Name of the variable that holds the host to listen on.
pub const HOST_KEY: &'static str = "APP_HOST";

/// Name of the variable that holds the port to listen on.
pub const PORT_KEY: &'static str = "APP_PORT";

/// Name of the variable that holds the worker number of the generator of
/// identifiers.
pub const WORKER_KEY: &'static str = "SNOWFLAKE_WORKER";

/// Start of the time that identifiers count from, in milliseconds since the
/// Unix epoch.
pub const EPOCH_MS: u64 = 1698765529972;

/// Where the server listens.
#[derive(Debug, Clone, PartialEq, Eq)]
pub struct ApplicationConfig {
    pub port: u16,
    pub host: String,
}

/// Which generator of identifiers the process is.
#[derive(Debug, Clone, Copy, PartialEq, Eq, Structural)]
pub struct SnowflakeConfig {
    pub worker: u8,
    pub process: u8,
}

/// Why a configuration could not be read.
#[derive(Debug, Clone, PartialEq, Eq)]
pub enum ConfigError {
    /// The variable is not set.
    Missing(String),
    /// The variable is set to nothing.
    Empty(String),
    /// The variable does not hold what it must; the text says what.
    Invalid(String),
}

/// The value of a variable that must be set and not empty.
pub open spec fn required(key: Seq<char>, value: Option<Seq<char>>) -> Result<
    Seq<char>,
    ConfigErrorView,
> {
    match value {
        None => Err(ConfigErrorView::Missing(key)),
        Some(text) => if text.len() == 0 {
            Err(ConfigErrorView::Empty(key))
        } else {
            Ok(text)
        },
    }
}

/// The value of the variable `key`, which must be set and not empty;
/// `None` stands for a variable that is not set.
pub fn get_var(key: &str, value: Option<String>) -> (checked: Result<String, ConfigError>)
    ensures
        match required(key@, optional_view(value)) {
            Ok(text) => checked matches Ok(t) && t@ == text,
            Err(error) => checked matches Err(e) && e@ == error,
        },
{
    match value {
        None => Err(ConfigError::Missing(key.to_owned())),
        Some(text) => {
            if text.as_str().is_empty() {
                Err(ConfigError::Empty(key.to_owned()))
            } else {
                Ok(text)
            }
        },
    }
}

/// An address with a slash at its end: the address itself where it ends
/// with one.
pub open spec fn with_slash(url: Seq<char>) -> Seq<char> {
    if url.len() > 0 && url.last() == '/' {
        url
    } else {
        url.push('/')
    }
}

/// The text of the address that the variable `key` holds, with a slash at
/// its end, so that paths can be joined to it.
pub fn get_url_var(key: &str, value: Option<String>) -> (checked: Result<String, ConfigError>)
    ensures
        match required(key@, optional_view(value)) {
            Ok(text) => checked matches Ok(t) && t@ == with_slash(text),
            Err(error) => checked matches Err(e) && e@ == error,
        },
{
    match get_var(key, value) {
        Ok(url) => {
            if ends_with_char(url.as_str(), '/') {
                Ok(url)
            } else {
                let mut url = url;
                url.push('/');
                Ok(url)
            }
        },
        Err(error) => Err(error),
    }
}

/// The port that a text names: decimal digits, with a plus sign before them
/// or not, that make a number up to 65535.
pub open spec fn port_of(text: Seq<char>) -> Option<u16> {
    let digits = if text.len() > 0 && text[0] == '+' {
        text.skip(1)
    } else {
        text
    };
    match decimal_value(digits) {
        Some(value) => if value <= u16::MAX {
            Some(value as u16)
        } else {
            None
        },
        None => None,
    }
}

/// The port that a text names.
#[verifier::loop_isolation(false)]
pub fn parse_port(text: &str) -> (port: Option<u16>)
    ensures
        port == port_of(text@),
{
    let v = chars_of(text);
    let start: usize = if v.len() > 0 && v[0] == '+' {
        1
    } else {
        0
    };
    let ghost digits = v@.skip(start as int);
    assert(v@.skip(0) == v@);
    assert(digits == (if text@.len() > 0 && text@[0] == '+' {
        text@.skip(1)
    } else {
        text@
    }));
    if v.len() == start {
        assert(digits.len() == 0);
        return None;
    }
    let mut value: u32 = 0;
    let mut i: usize = start;
    while i < v.len()
        invariant
            start <= i <= v.len(),
            value <= u16::MAX,
            i > start ==> decimal_value(digits.take(i - start)) == Some(value as nat),
            i == start ==> value == 0,
        decreases v.len() - i,
    {
        let ghost prefix = digits.take(i + 1 - start);
        assert(prefix.drop_last() == digits.take(i - start));
        assert(prefix.last() == v@[i as int]);
        let digit = match digit_value(v[i]) {
            Some(digit) => digit,
            None => {
                proof {
                    lemma_decimal_prefix(digits, i + 1 - start);
                }
                return None;
            },
        };
        let next = value * 10 + digit as u32;
        if next > 0xFFFF {
            proof {
                lemma_decimal_reaches(digits, i + 1 - start, 0xFFFF);
            }
            return None;
        }
        value = next;
        i += 1;
    }
    assert(digits.take(v.len() - start) == digits);
    Some(value as u16)
}

impl ApplicationConfig {
    /// What the values of the port and host variables make: the port must
    /// be set, not empty and a port; then the host must be set and not
    /// empty.
    pub open spec fn read(port: Option<Seq<char>>, host: Option<Seq<char>>) -> Result<
        (u16, Seq<char>),
        ConfigErrorView,
    > {
        match port {
            None => Err(ConfigErrorView::Missing(PORT_KEY@)),
            Some(port) => if port.len() == 0 {
                Err(ConfigErrorView::Empty(PORT_KEY@))
            } else {
                match port_of(port) {
                    None => Err(ConfigErrorView::Invalid(PORT_KEY@ + " must be a valid u16"@)),
                    Some(number) => match host {
                        None => Err(ConfigErrorView::Missing(HOST_KEY@)),
                        Some(host) => if host.len() == 0 {
                            Err(ConfigErrorView::Empty(HOST_KEY@))
                        } else {
                            Ok((number, host))
                        },
                    },
                }
            },
        }
    }

    /// Reads the configuration from the values of the port and host
    /// variables; `None` stands for a variable that is not set.
    pub fn from_env(port: Option<String>, host: Option<String>) -> (config: Result<
        ApplicationConfig,
        ConfigError,
    >)
        ensures
            match Self::read(optional_view(port), optional_view(host)) {
                Ok((number, name)) => config matches Ok(c) && c.port == number && c.host@ == name,
                Err(error) => config matches Err(e) && e@ == error,
            },
    {
        let port = match port {
            Some(port) => port,
            None => {
                return Err(ConfigError::Missing(PORT_KEY.to_owned()));
            },
        };
        if port.as_str().is_empty() {
            return Err(ConfigError::Empty(PORT_KEY.to_owned()));
        }
        let number = match parse_port(port.as_str()) {
            Some(number) => number,
            None => {
                let mut text = PORT_KEY.to_owned();
                text.append(" must be a valid u16");
                return Err(ConfigError::Invalid(text));
            },
        };
        let host = match host {
            Some(host) => host,
            None => {
                return Err(ConfigError::Missing(HOST_KEY.to_owned()));
            },
        };
        if host.as_str().is_empty() {
            return Err(ConfigError::Empty(HOST_KEY.to_owned()));
        }
        Ok(ApplicationConfig { port: number, host })
    }
}

impl SnowflakeConfig {
    /// What the value of the worker variable and the number of the process
    /// make, for a generator that takes workers up to `worker_max` and
    /// `process_max` processes: the worker must be set, not empty, a number
    /// up to 255 and no more than `worker_max`; the process is the
    /// remainder of its number by `process_max`.
    pub open spec fn read(
        worker: Option<Seq<char>>,
        process_id: u32,
        worker_max: u8,
        process_max: u8,
    ) -> Result<(u8, u8), ConfigErrorView>
        recommends
            process_max > 0,
    {
        match worker {
            None => Err(ConfigErrorView::Missing(WORKER_KEY@)),
            Some(worker) => if worker.len() == 0 {
                Err(ConfigErrorView::Empty(WORKER_KEY@))
            } else {
                match port_of(worker) {
                    Some(number) if number <= u8::MAX => if number > worker_max {
                        Err(
                            ConfigErrorView::Invalid(
                                WORKER_KEY@ + " must be less than "@ + nat_text(worker_max as nat),
                            ),
                        )
                    } else {
                        Ok((number as u8, (process_id % (process_max as u32)) as u8))
                    },
                    _ => Err(ConfigErrorView::Invalid(WORKER_KEY@ + " must be a valid u8"@)),
                }
            },
        }
    }

    /// Reads the configuration from the value of the worker variable, where
    /// `None` stands for a variable that is not set, and the number of the
    /// process.
    pub fn from_env(worker: Option<String>, process_id: u32, worker_max: u8, process_max: u8) -> (config:
        Result<SnowflakeConfig, ConfigError>)
        requires
            process_max > 0,
        ensures
            match Self::read(optional_view(worker), process_id, worker_max, process_max) {
                Ok((number, process)) => config == Ok::<SnowflakeConfig, ConfigError>(
                    SnowflakeConfig { worker: number, process },
                ),
                Err(error) => config matches Err(e) && e@ == error,
            },
    {
        let worker = match worker {
            Some(worker) => worker,
            None => {
                return Err(ConfigError::Missing(WORKER_KEY.to_owned()));
            },
        };
        if worker.as_str().is_empty() {
            return Err(ConfigError::Empty(WORKER_KEY.to_owned()));
        }
        let number: u16 = match parse_port(worker.as_str()) {
            Some(number) => number,
            None => 0x100,
        };
        if number > 0xFF {
            let mut text = WORKER_KEY.to_owned();
            text.append(" must be a valid u8");
            return Err(ConfigError::Invalid(text));
        }
        if number > worker_max as u16 {
            let mut text = WORKER_KEY.to_owned();
            text.append(" must be less than ");
            text.append(u64_to_string(worker_max as u64).as_str());
            return Err(ConfigError::Invalid(text));
        }
        let process: u32 = process_id % (process_max as u32);
        Ok(SnowflakeConfig { worker: number as u8, process: process as u8 })
    }
}

/// Model of a [`ConfigError`].
pub enum ConfigErrorView {
    Missing(Seq<char>),
    Empty(Seq<char>),
    Invalid(Seq<char>),
}

impl View for ConfigError {
    type V = ConfigErrorView;

    open spec fn view(&self) -> ConfigErrorView {
        match self {
            ConfigError::Missing(key) => ConfigErrorView::Missing(key@),
            ConfigError::Empty(key) => ConfigErrorView::Empty(key@),
            ConfigError::Invalid(text) => ConfigErrorView::Invalid(text@),
        }
    }
}

/// The scalar values of an optional string.
pub open spec fn optional_view(text: Option<String>) -> Option<Seq<char>> {
    match text {
        Some(t) => Some(t@),
        None => None,
    }
}

} // verus!
