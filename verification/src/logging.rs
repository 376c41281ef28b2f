//! How much the service writes to its log.

use vstd::prelude::*;

verus! {

/// How much is logged, from nothing to everything.
#[derive(Clone, Copy, Debug, PartialEq, Eq, Structural)]
pub enum LogLevel {
    Off,
    Error,
    Warn,
    Info,
    Debug,
    Trace,
}

/// The level that a verbosity name asks for.
pub open spec fn level_named(name: Seq<char>) -> LogLevel {
    if name == "info"@ {
        LogLevel::Info
    } else if name == "debug"@ {
        LogLevel::Debug
    } else if name == "trace"@ {
        LogLevel::Trace
    } else if name == "warn"@ {
        LogLevel::Warn
    } else if name == "error"@ {
        LogLevel::Error
    } else if name == "quiet"@ {
        LogLevel::Off
    } else {
        LogLevel::Info
    }
}

/// The level of the service where no verbosity is named.
pub open spec fn default_level() -> LogLevel {
    LogLevel::Info
}

/// The level for a verbosity that may not be named at all.
pub open spec fn level_chosen(name: Option<Seq<char>>) -> LogLevel {
    match name {
        Some(n) => level_named(n),
        None => default_level(),
    }
}

/// The level that is the most a noisy part of the program may log at,
/// whatever the level of the service: the parts called `mastodon_async` and
/// `rustls` are held to warnings. Other parts have none of their own.
pub open spec fn level_of_target(target: Seq<char>) -> Option<LogLevel> {
    if target == "mastodon_async"@ || target == "rustls"@ {
        Some(LogLevel::Warn)
    } else {
        None
    }
}

/// The level that a part of the program is held to, if it has one of its
/// own.
pub fn target_level(target: &str) -> (r: Option<LogLevel>)
    ensures
        r == level_of_target(target@),
{
    if target.eq("mastodon_async") || target.eq("rustls") {
        Some(LogLevel::Warn)
    } else {
        None
    }
}

/// The level that a verbosity name asks for: `info`, `debug`, `trace`,
/// `warn`, `error`, or `quiet` for none at all. Any other name stands for
/// `info`.
pub fn level_from_name(name: &str) -> (r: LogLevel)
    ensures
        r == level_named(name@),
{
    if name.eq("info") {
        LogLevel::Info
    } else if name.eq("debug") {
        LogLevel::Debug
    } else if name.eq("trace") {
        LogLevel::Trace
    } else if name.eq("warn") {
        LogLevel::Warn
    } else if name.eq("error") {
        LogLevel::Error
    } else if name.eq("quiet") {
        LogLevel::Off
    } else {
        LogLevel::Info
    }
}

/// The level for a verbosity that may not be named at all.
pub fn level_for(name: Option<&str>) -> (r: LogLevel)
    ensures
        r == level_chosen(
            match name {
                Some(n) => Some(n@),
                None => None,
            },
        ),
{
    match name {
        Some(n) => level_from_name(n),
        None => LogLevel::Info,
    }
}

} // verus!
