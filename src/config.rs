//! Loading the configuration file, repairing it where it is missing or broken.
use crate::memos::{demo_mode, mode_of, Memos};
use vstd::prelude::*;
use vstd::string::*;

verus! {

/// What a step of the configuration load reports back.
#[derive(Clone, Copy, Debug, PartialEq, Eq)]
pub enum ConfigEvent {
    /// Nothing has been done yet.
    Start,
    /// The configuration path was looked at.
    Probed { exists: bool, is_dir: bool, writable: bool },
    /// The default configuration was written to the missing file, or not.
    Created(bool),
    /// The file was read and parsed, or failed to parse.
    Loaded(bool),
    /// The user answered whether to reset the broken file to the defaults.
    ResetAnswered(bool),
    /// The broken file was overwritten with the defaults, or not.
    Reset(bool),
}

/// Why the configuration cannot be had; each of these ends the start-up.
#[derive(Clone, Copy, Debug, PartialEq, Eq)]
pub enum ConfigError {
    /// The missing file could not be written.
    CreateFailed,
    /// The path is a directory; it must be a file.
    IsDirectory,
    /// The file is not writable, and later runs must update it.
    NotWritable,
    /// The user declined the reset and must repair the file by hand.
    ResetDeclined,
    /// The reset could not be written.
    ResetFailed,
}

/// The next thing to do.
#[derive(Clone, Copy, Debug, PartialEq, Eq)]
pub enum ConfigAction {
    /// Look at the configuration path.
    Probe,
    /// Write the default configuration to the missing file.
    Create,
    /// Read and parse the file.
    Load,
    /// Ask the user whether to reset the broken file to the defaults.
    AskReset,
    /// Overwrite the broken file with the defaults.
    Reset,
    /// Use what was loaded.
    UseLoaded,
    /// Use the default configuration, which is now on disk.
    UseDefaults,
    /// Stop the start-up.
    Fatal(ConfigError),
}

/// The action that follows an event.
pub open spec fn config_step(e: ConfigEvent) -> ConfigAction {
    match e {
        ConfigEvent::Start => ConfigAction::Probe,
        ConfigEvent::Probed { exists, is_dir, writable } => if !exists {
            ConfigAction::Create
        } else if is_dir {
            ConfigAction::Fatal(ConfigError::IsDirectory)
        } else if !writable {
            ConfigAction::Fatal(ConfigError::NotWritable)
        } else {
            ConfigAction::Load
        },
        ConfigEvent::Created(ok) => if ok {
            ConfigAction::Probe
        } else {
            ConfigAction::Fatal(ConfigError::CreateFailed)
        },
        ConfigEvent::Loaded(ok) => if ok {
            ConfigAction::UseLoaded
        } else {
            ConfigAction::AskReset
        },
        ConfigEvent::ResetAnswered(yes) => if yes {
            ConfigAction::Reset
        } else {
            ConfigAction::Fatal(ConfigError::ResetDeclined)
        },
        ConfigEvent::Reset(ok) => if ok {
            ConfigAction::UseDefaults
        } else {
            ConfigAction::Fatal(ConfigError::ResetFailed)
        },
    }
}

/// Decides the next step of loading the configuration file: a missing file
/// is written with the defaults, a directory or a read-only file is fatal,
/// and a file that does not parse is reset only where the user agrees.
pub fn load_config_step(e: ConfigEvent) -> (r: ConfigAction)
    ensures
        r == config_step(e),
{
    match e {
        ConfigEvent::Start => ConfigAction::Probe,
        ConfigEvent::Probed { exists, is_dir, writable } => if !exists {
            ConfigAction::Create
        } else if is_dir {
            ConfigAction::Fatal(ConfigError::IsDirectory)
        } else if !writable {
            ConfigAction::Fatal(ConfigError::NotWritable)
        } else {
            ConfigAction::Load
        },
        ConfigEvent::Created(ok) => if ok {
            ConfigAction::Probe
        } else {
            ConfigAction::Fatal(ConfigError::CreateFailed)
        },
        ConfigEvent::Loaded(ok) => if ok {
            ConfigAction::UseLoaded
        } else {
            ConfigAction::AskReset
        },
        ConfigEvent::ResetAnswered(yes) => if yes {
            ConfigAction::Reset
        } else {
            ConfigAction::Fatal(ConfigError::ResetDeclined)
        },
        ConfigEvent::Reset(ok) => if ok {
            ConfigAction::UseDefaults
        } else {
            ConfigAction::Fatal(ConfigError::ResetFailed)
        },
    }
}

/// The port of a development build: one above the configured one, so that
/// it keeps a WebView cache of its own; 0 stays 0, and 65535 wraps to 0,
/// which asks for any free port.
pub open spec fn dev_port(p: u16) -> u16 {
    if p == 0 { 0 } else { ((p as int + 1) % 65536) as u16 }
}

/// The Memos settings to run with. A development build runs Memos in demo
/// mode, which is seeded with data, on the port above the configured one; a
/// release build keeps the settings as loaded.
pub fn config(memos: Memos, dev_build: bool) -> (r: Memos)
    ensures
        !dev_build ==> r == memos,
        dev_build ==> mode_of(r.mode) == Some(demo_mode()),
        dev_build ==> r.port == match memos.port {
            Some(p) => if p == 0 { Some(0u16) } else { Some(dev_port(p)) },
            None => None::<u16>,
        },
        r.binary_path == memos.binary_path,
        r.working_dir == memos.working_dir,
        r.data == memos.data,
        r.addr == memos.addr,
        r.env == memos.env,
{
    if !dev_build {
        return memos;
    }
    proof {
        reveal_strlit("demo");
        assert("demo"@ =~= demo_mode());
    }
    let mut m = memos;
    m.mode = Some(String::from_str("demo"));
    m.port = match m.port {
        Some(p) => if p == 0 { Some(0u16) } else { Some(p.wrapping_add(1)) },
        None => None,
    };
    m
}

} // verus!
