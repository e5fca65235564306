//! Which log level the process runs with, as `RUST_LOG` selects it.
use vstd::prelude::*;
use tracing::level_filters::LevelFilter;
use crate::text::{called_with, equal_ignoring_ascii_case, parse_unsigned_spec, string_option_view};

verus! {

/// The most verbose level that is logged; `Off` logs nothing.
#[derive(Clone, Copy, Debug, PartialEq, Eq, Structural)]
pub enum LogLevel {
    Off,
    Error,
    Warn,
    Info,
    Debug,
    Trace,
}

/// A `RUST_LOG` value that names no level.
#[derive(Clone, Copy, Debug, PartialEq, Eq, Structural)]
pub struct InvalidLogLevel;

/// The levels by number, from `0` for `Off` to `5` for `Trace`.
pub open spec fn level_by_number(n: int) -> Option<LogLevel> {
    if n == 0 {
        Some(LogLevel::Off)
    } else if n == 1 {
        Some(LogLevel::Error)
    } else if n == 2 {
        Some(LogLevel::Warn)
    } else if n == 3 {
        Some(LogLevel::Info)
    } else if n == 4 {
        Some(LogLevel::Debug)
    } else if n == 5 {
        Some(LogLevel::Trace)
    } else {
        None
    }
}

/// The levels by name, in any ASCII case; the empty string selects `Error`.
pub open spec fn level_by_name(s: Seq<char>) -> Option<LogLevel> {
    if s.len() == 0 {
        Some(LogLevel::Error)
    } else if equal_ignoring_ascii_case(s, "error"@) {
        Some(LogLevel::Error)
    } else if equal_ignoring_ascii_case(s, "warn"@) {
        Some(LogLevel::Warn)
    } else if equal_ignoring_ascii_case(s, "info"@) {
        Some(LogLevel::Info)
    } else if equal_ignoring_ascii_case(s, "debug"@) {
        Some(LogLevel::Debug)
    } else if equal_ignoring_ascii_case(s, "trace"@) {
        Some(LogLevel::Trace)
    } else if equal_ignoring_ascii_case(s, "off"@) {
        Some(LogLevel::Off)
    } else {
        None
    }
}

/// A level written as a number from 0 to 5, or else by its name.
pub open spec fn parsed_level(s: Seq<char>) -> Option<LogLevel> {
    match parse_unsigned_spec(s, usize::MAX as int) {
        Some(n) if n <= 5 => level_by_number(n),
        _ => level_by_name(s),
    }
}

/// `<LevelFilter as FromStr>::from_str` of tracing: a `usize` from 0 to 5 selects the level
/// by number, otherwise the empty string or a level name in any ASCII case; anything else
/// is refused. The six values of `LevelFilter` become the six levels.
#[verifier::external_body]
fn parse_level_filter(text: &str) -> (level: Option<LogLevel>)
    ensures
        level == parsed_level(text@),
{
    match text.parse::<LevelFilter>() {
        Ok(LevelFilter::OFF) => Some(LogLevel::Off),
        Ok(LevelFilter::ERROR) => Some(LogLevel::Error),
        Ok(LevelFilter::WARN) => Some(LogLevel::Warn),
        Ok(LevelFilter::INFO) => Some(LogLevel::Info),
        Ok(LevelFilter::DEBUG) => Some(LogLevel::Debug),
        Ok(_) => Some(LogLevel::Trace),
        Err(_) => None,
    }
}

/// The level for a `RUST_LOG` value; without one, `info`.
pub open spec fn level_from_setting(value: Option<Seq<char>>) -> Result<LogLevel, InvalidLogLevel> {
    let text = match value {
        Some(text) => text,
        None => "info"@,
    };
    match parsed_level(text) {
        Some(level) => Ok(level),
        None => Err(InvalidLogLevel),
    }
}

/// Process-wide logging configuration.
pub struct LogingConfig;

impl LogingConfig {
    /// The level for a `RUST_LOG` value, `info` when it is not set.
    pub fn level_filter_from_setting(value: Option<&str>) -> (level: Result<LogLevel, InvalidLogLevel>)
        ensures
            level == level_from_setting(
                match value {
                    Some(text) => Some(text@),
                    None => None,
                },
            ),
    {
        let text = match value {
            Some(text) => text,
            None => "info",
        };
        match parse_level_filter(text) {
            Some(level) => Ok(level),
            None => Err(InvalidLogLevel),
        }
    }

    /// The level for `RUST_LOG` as `lookup` reads it; `RUST_LOG` is looked up once.
    pub fn level_filter_from_lookup(lookup: impl Fn(&str) -> Option<String>) -> (level: Result<
        LogLevel,
        InvalidLogLevel,
    >)
        requires
            forall|name: &str| lookup.requires((name,)),
        ensures
            exists|value: Option<String>|
                called_with(lookup, "RUST_LOG"@, value) && #[trigger] level_from_setting(string_option_view(value))
                    == level,
    {
        let value = lookup("RUST_LOG");
        let ghost setting = value;
        let level = match &value {
            Some(text) => Self::level_filter_from_setting(Some(text.as_str())),
            None => Self::level_filter_from_setting(None),
        };
        assert(level_from_setting(string_option_view(setting)) == level);
        level
    }
}

} // verus!
