//! Logging set-up that repairs its own configuration file.
use crate::text::{join_path, joined};
use vstd::prelude::*;
use vstd::string::*;

verus! {

/// The logging configuration written where the file is missing or broken.
/// The log files land in the data directory, which log4rs reads from the
/// `MEMOSPOT_DATA` environment variable; they roll over at 10 MB and five are kept.
pub const LOGGING_CONFIG_YAML: &'static str = "
# Log4rs configuration file.
# https://github.com/estk/log4rs#quick-start
#
# Use absolute paths for file appender. Otherwise, it'll try to write next to the application binary.
# Data directory is available as: $ENV{MEMOSPOT_DATA}
appenders:
  file:
    encoder:
      pattern: \"{d(%Y-%m-%d %H:%M:%S)} - {h({l})}: {m}{n}\"
    path: $ENV{MEMOSPOT_DATA}/memospot.log
    kind: rolling_file
    policy:
      trigger:
        kind: size
        limit: 10 mb
      roller:
        kind: fixed_window
        pattern: $ENV{MEMOSPOT_DATA}/memospot.log.{}.gz
        count: 5
        base: 1
root:
  # debug | info | warn | error | off
  level: info
  appenders:
    - file
";

/// The logging configuration file inside the data directory.
pub fn logging_config_path(data_dir: &str, windows: bool) -> (r: String)
    ensures
        r@ == joined(data_dir@, "logging_config.yaml"@, windows),
{
    join_path(data_dir, "logging_config.yaml", windows)
}

/// What a step of the logging set-up reports back.
#[derive(Clone, Copy, Debug, PartialEq, Eq)]
pub enum LogEvent {
    /// Nothing has been done yet; logging is enabled by the configuration or not.
    Start { enabled: bool },
    /// Logging was initialised from the file, or failed to; `retried` where
    /// the file had been rewritten before.
    Initialized { ok: bool, retried: bool },
    /// The built-in configuration was written and flushed to the file, or not.
    Rewritten(bool),
}

/// Why logging cannot be set up; each of these ends the start-up.
#[derive(Clone, Copy, Debug, PartialEq, Eq)]
pub enum LogError {
    /// The file could not be truncated, written or flushed.
    WriteFailed,
    /// Even the rewritten file did not initialise logging; the user must delete it.
    InitFailed,
}

/// The next thing to do.
#[derive(Clone, Copy, Debug, PartialEq, Eq)]
pub enum LogAction {
    /// Initialise logging from the configuration file.
    Init,
    /// Overwrite the file with the built-in configuration and flush it.
    Rewrite,
    /// The set-up is over; logging is on or off.
    Done { enabled: bool },
    /// Stop the start-up.
    Fatal(LogError),
}

/// The action that follows an event: disabled logging ends at once; a failed
/// initialisation rewrites the file and tries exactly once more.
pub open spec fn log_step(e: LogEvent) -> LogAction {
    match e {
        LogEvent::Start { enabled } => if enabled {
            LogAction::Init
        } else {
            LogAction::Done { enabled: false }
        },
        LogEvent::Initialized { ok, retried } => if ok {
            LogAction::Done { enabled: true }
        } else if retried {
            LogAction::Fatal(LogError::InitFailed)
        } else {
            LogAction::Rewrite
        },
        LogEvent::Rewritten(ok) => if ok {
            LogAction::Init
        } else {
            LogAction::Fatal(LogError::WriteFailed)
        },
    }
}

/// Decides the next step of the logging set-up.
pub fn setup_logger(e: LogEvent) -> (r: LogAction)
    ensures
        r == log_step(e),
{
    match e {
        LogEvent::Start { enabled } => if enabled {
            LogAction::Init
        } else {
            LogAction::Done { enabled: false }
        },
        LogEvent::Initialized { ok, retried } => if ok {
            LogAction::Done { enabled: true }
        } else if retried {
            LogAction::Fatal(LogError::InitFailed)
        } else {
            LogAction::Rewrite
        },
        LogEvent::Rewritten(ok) => if ok {
            LogAction::Init
        } else {
            LogAction::Fatal(LogError::WriteFailed)
        },
    }
}

/// The steps of a set-up with logging enabled whose first initialisation
/// fails (a broken file), fed with the events that the steps report: the
/// rewrite succeeds where `write_ok`, the retry where `retry_ok`.
pub open spec fn repair_run(write_ok: bool, retry_ok: bool) -> Seq<LogAction> {
    let a0 = log_step(LogEvent::Start { enabled: true });
    let a1 = log_step(LogEvent::Initialized { ok: false, retried: false });
    let a2 = log_step(LogEvent::Rewritten(write_ok));
    if a2 == LogAction::Init {
        seq![a0, a1, a2, log_step(LogEvent::Initialized { ok: retry_ok, retried: true })]
    } else {
        seq![a0, a1, a2]
    }
}

/// A broken logging file is overwritten with the built-in configuration
/// once, and logging is on after the retry; where the file cannot be
/// written, the set-up stops.
pub proof fn lemma_logging_repairs_itself(write_ok: bool, retry_ok: bool)
    ensures
        repair_run(write_ok, retry_ok)[1] == LogAction::Rewrite,
        write_ok && retry_ok ==> repair_run(write_ok, retry_ok) == seq![
            LogAction::Init,
            LogAction::Rewrite,
            LogAction::Init,
            LogAction::Done { enabled: true },
        ],
        !write_ok ==> repair_run(write_ok, retry_ok).last() == LogAction::Fatal(LogError::WriteFailed),
        write_ok && !retry_ok ==> repair_run(write_ok, retry_ok).last() == LogAction::Fatal(LogError::InitFailed),
{
}

} // verus!
