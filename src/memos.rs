//! Settings of the Memos server.
use std::collections::HashMap;
use vstd::prelude::*;
use vstd::string::*;

verus! {

/// Memos configuration.
#[derive(Debug, PartialEq, Clone)]
pub struct Memos {
    /// Memos binary path.
    pub binary_path: Option<String>,
    /// Memos current working directory.
    pub working_dir: Option<String>,
    /// Directory where Memos will store its database and assets.
    pub data: Option<String>,
    /// Server mode: one of `prod`, `dev` and `demo`. Each mode uses a
    /// different database file.
    pub mode: Option<String>,
    /// Server address; "127.0.0.1" keeps the server local.
    pub addr: Option<String>,
    /// Last port used by Memos; 0 asks for any free port.
    pub port: Option<u16>,
    /// Custom environment variables to pass to Memos.
    pub env: Option<HashMap<String, String>>,
}

/// The server modes that Memos knows.
pub open spec fn is_server_mode(m: Seq<char>) -> bool {
    m == seq!['p', 'r', 'o', 'd'] || m == seq!['d', 'e', 'v'] || m == seq!['d', 'e', 'm', 'o']
}

/// The server mode of a setting, `None` where it is not set.
pub open spec fn mode_of(m: Option<String>) -> Option<Seq<char>> {
    match m {
        Some(s) => Some(s@),
        None => None,
    }
}

/// The mode used during development.
pub open spec fn demo_mode() -> Seq<char> {
    seq!['d', 'e', 'm', 'o']
}

impl Memos {
    /// The settings written to a fresh configuration file: production mode
    /// on the local address, any free port, everything else unset.
    pub fn default_settings() -> (r: Memos)
        ensures
            mode_of(r.mode) == Some(seq!['p', 'r', 'o', 'd']),
            r.mode.is_some() && is_server_mode(r.mode.unwrap()@),
            r.port == Some(0u16),
            r.binary_path.is_none(),
            r.working_dir.is_none(),
            r.data.is_none(),
            r.addr.is_some() && r.addr.unwrap()@ == seq!['1', '2', '7', '.', '0', '.', '0', '.', '1'],
            r.env.is_none(),
    {
        proof {
            reveal_strlit("prod");
            reveal_strlit("127.0.0.1");
            assert("prod"@ =~= seq!['p', 'r', 'o', 'd']);
            assert("127.0.0.1"@ =~= seq!['1', '2', '7', '.', '0', '.', '0', '.', '1']);
        }
        Memos {
            binary_path: None,
            working_dir: None,
            data: None,
            mode: Some(String::from_str("prod")),
            addr: Some(String::from_str("127.0.0.1")),
            port: Some(0u16),
            env: None,
        }
    }
}

} // verus!
