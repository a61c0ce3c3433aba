//! Diagnostic verbosity as an explicit, passed-around configuration: the
//! resolution pipeline owns no process-wide mutable state, so the caller
//! carries the level and asks before printing.
use vstd::prelude::*;

verus! {

/// How much a caller wants reported, least talkative first.
#[derive(Debug, Copy, Clone, PartialEq, Eq, Structural)]
pub enum LogLevel {
    Error,
    Warn,
    Info,
    Debug,
}

/// Rank of a level: a message is printed when its rank does not exceed the
/// configured one.
pub open spec fn level_rank(l: LogLevel) -> int {
    match l {
        LogLevel::Error => 1,
        LogLevel::Warn => 2,
        LogLevel::Info => 3,
        LogLevel::Debug => 4,
    }
}

/// The diagnostic configuration a caller threads through a resolution.
pub struct LogConfig {
    pub level: LogLevel,
}

impl Default for LogConfig {
    /// Reporting up to informational messages, as the pipeline starts out.
    fn default() -> (r: Self)
        ensures
            r.level == LogLevel::Info,
    {
        LogConfig { level: LogLevel::Info }
    }
}

/// Sets the configured verbosity.
pub fn set_log_level(cfg: &mut LogConfig, level: LogLevel)
    ensures
        final(cfg).level == level,
{
    cfg.level = level;
}

/// Reads the configured verbosity.
pub fn get_log_level(cfg: &LogConfig) -> (l: LogLevel)
    ensures
        l == cfg.level,
{
    cfg.level
}

/// Whether a message of rank `msg` should be printed under `cfg`.
pub fn should_log(cfg: &LogConfig, msg: LogLevel) -> (r: bool)
    ensures
        r == (level_rank(msg) <= level_rank(cfg.level)),
{
    let m: u8 = match msg {
        LogLevel::Error => 1,
        LogLevel::Warn => 2,
        LogLevel::Info => 3,
        LogLevel::Debug => 4,
    };
    let c: u8 = match cfg.level {
        LogLevel::Error => 1,
        LogLevel::Warn => 2,
        LogLevel::Info => 3,
        LogLevel::Debug => 4,
    };
    m <= c
}

} // verus!
