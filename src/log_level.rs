//! The log severity chosen at startup from the `LOG_LEVEL` setting, read with
//! the `log` crate's own parser.

use vstd::prelude::*;

verus! {

/// How much the logging collaborator records.
#[derive(Clone, Copy, PartialEq, Eq, Structural, Debug)]
pub enum LogLevel {
    Off,
    Error,
    Warn,
    Info,
    Debug,
    Trace,
}

/// `s` spells `name`, a word of upper-case ASCII letters, in any mix of ASCII
/// case.
pub open spec fn spells_ignoring_case(s: Seq<char>, name: Seq<char>) -> bool {
    &&& s.len() == name.len()
    &&& forall|i: int|
        0 <= i < s.len() ==> (#[trigger] s[i]) as u32 == name[i] as u32 || s[i] as u32 == name[i]
            as u32 + 32
}

/// The level whose name `s` spells, ignoring ASCII case.
pub open spec fn level_named(s: Seq<char>) -> Option<LogLevel> {
    if spells_ignoring_case(s, "OFF"@) {
        Some(LogLevel::Off)
    } else if spells_ignoring_case(s, "ERROR"@) {
        Some(LogLevel::Error)
    } else if spells_ignoring_case(s, "WARN"@) {
        Some(LogLevel::Warn)
    } else if spells_ignoring_case(s, "INFO"@) {
        Some(LogLevel::Info)
    } else if spells_ignoring_case(s, "DEBUG"@) {
        Some(LogLevel::Debug)
    } else if spells_ignoring_case(s, "TRACE"@) {
        Some(LogLevel::Trace)
    } else {
        None
    }
}

/// The level that the setting `value` selects: the level it names, or `Info`
/// when it is absent or names none.
pub open spec fn level_from_setting_spec(value: Option<Seq<char>>) -> LogLevel {
    match value {
        Some(s) => match level_named(s) {
            Some(level) => level,
            None => LogLevel::Info,
        },
        None => LogLevel::Info,
    }
}

/// Relies on `<log::LevelFilter as FromStr>::from_str`, which compares its
/// argument with "OFF", "ERROR", "WARN", "INFO", "DEBUG" and "TRACE" by
/// `eq_ignore_ascii_case` and fails on anything else.
#[verifier::external_body]
fn parse_level_filter(s: &str) -> (r: Option<LogLevel>)
    ensures
        r == level_named(s@),
{
    match <log::LevelFilter as std::str::FromStr>::from_str(s) {
        Ok(log::LevelFilter::Off) => Some(LogLevel::Off),
        Ok(log::LevelFilter::Error) => Some(LogLevel::Error),
        Ok(log::LevelFilter::Warn) => Some(LogLevel::Warn),
        Ok(log::LevelFilter::Info) => Some(LogLevel::Info),
        Ok(log::LevelFilter::Debug) => Some(LogLevel::Debug),
        Ok(log::LevelFilter::Trace) => Some(LogLevel::Trace),
        Err(_) => None,
    }
}

/// The level that the setting `value` selects: the level it names, in any
/// ASCII case, or `Info` when it is absent or names no level.
pub fn log_level_from_setting(value: Option<&str>) -> (r: LogLevel)
    ensures
        r == level_from_setting_spec(
            match value {
                Some(s) => Some(s@),
                None => None,
            },
        ),
{
    match value {
        Some(s) => match parse_level_filter(s) {
            Some(level) => level,
            None => LogLevel::Info,
        },
        None => LogLevel::Info,
    }
}

} // verus!
