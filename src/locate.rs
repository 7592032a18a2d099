//! Where the Memos server binary is looked for.
use crate::paths::setting_text;
use crate::text::{join_path, joined, trim, trimmed};
use vstd::prelude::*;
use vstd::string::*;

verus! {

/// The views of a sequence of strings.
pub open spec fn views(v: Seq<String>) -> Seq<Seq<char>> {
    v.map_values(|s: String| s@)
}

/// The file name of the server binary on the platform.
pub open spec fn binary_name(windows: bool) -> Seq<char> {
    if windows { "memos.exe"@ } else { "memos"@ }
}

/// The directories searched after the configured path, in order: the current
/// directory, the data directory, then `%PROGRAMDATA%\memos` on Windows
/// where that variable is set, or `/usr/local/bin`, `/var/opt/memos` and
/// `/usr/local/memos` elsewhere.
pub open spec fn search_dirs(cwd: Seq<char>, data: Seq<char>, windows: bool, program_data: Option<Seq<char>>) -> Seq<Seq<char>> {
    let system = if windows {
        match program_data {
            Some(p) => seq![joined(p, "memos"@, true)],
            None => Seq::empty(),
        }
    } else {
        seq!["/usr/local/bin"@, "/var/opt/memos"@, "/usr/local/memos"@]
    };
    seq![cwd, data] + system
}

/// Every path where the binary is looked for, in order: the configured path
/// first, where one is given, then the binary in each searched directory.
pub open spec fn candidates(configured: Option<Seq<char>>, dirs: Seq<Seq<char>>, windows: bool) -> Seq<Seq<char>> {
    let found = dirs.map_values(|d: Seq<char>| joined(d, binary_name(windows), windows));
    match configured {
        Some(c) => seq![c] + found,
        None => found,
    }
}

/// The configured binary path to expand and resolve, where the setting holds
/// more than white space.
pub fn configured_binary(setting: &Option<String>) -> (r: Option<String>)
    ensures
        setting_text(*setting).len() == 0 ==> r.is_none(),
        setting_text(*setting).len() > 0 ==> r.is_some() && r.unwrap()@ == setting_text(*setting),
{
    match setting {
        Some(s) => {
            let t = trim(s.as_str());
            if t.unicode_len() == 0 { None } else { Some(t) }
        },
        None => None,
    }
}

/// The view of an optional string.
pub open spec fn opt_view(o: Option<String>) -> Option<Seq<char>> {
    match o {
        Some(s) => Some(s@),
        None => None,
    }
}

/// The paths where the binary is looked for, in order; `configured` is the
/// configured path already expanded and made absolute.
pub fn search_paths(
    configured: &Option<String>,
    cwd: &str,
    data: &str,
    windows: bool,
    program_data: &Option<String>,
) -> (r: Vec<String>)
    ensures
        views(r@) == candidates(
            opt_view(*configured),
            search_dirs(cwd@, data@, windows, opt_view(*program_data)),
            windows,
        ),
{
    proof {
        reveal_strlit("memos");
        reveal_strlit("memos.exe");
        reveal_strlit("/usr/local/bin");
        reveal_strlit("/var/opt/memos");
        reveal_strlit("/usr/local/memos");
    }
    let name: &str = if windows { "memos.exe" } else { "memos" };
    let mut dirs: Vec<String> = Vec::new();
    dirs.push(String::from_str(cwd));
    dirs.push(String::from_str(data));
    if windows {
        match program_data {
            Some(p) => dirs.push(join_path(p.as_str(), "memos", true)),
            None => {},
        }
    } else {
        dirs.push(String::from_str("/usr/local/bin"));
        dirs.push(String::from_str("/var/opt/memos"));
        dirs.push(String::from_str("/usr/local/memos"));
    }
    let ghost pd = opt_view(*program_data);
    assert(views(dirs@) =~= search_dirs(cwd@, data@, windows, pd));
    let mut r: Vec<String> = Vec::new();
    match configured {
        Some(c) => r.push(String::from_str(c.as_str())),
        None => {},
    }
    let ghost start = r@.len();
    let mut i: usize = 0;
    while i < dirs.len()
        invariant
            i <= dirs@.len(),
            r@.len() == start + i,
            forall|j: int| 0 <= j < start ==> r@[j]@ == configured->0@,
            start == (if configured.is_some() { 1int } else { 0 }),
            forall|j: int| 0 <= j < i ==> r@[start + j]@ == joined(dirs@[j]@, binary_name(windows), windows),
            name@ == binary_name(windows),
        decreases dirs@.len() - i,
    {
        let p = join_path(dirs[i].as_str(), name, windows);
        r.push(p);
        i = i + 1;
    }
    let ghost dv = search_dirs(cwd@, data@, windows, pd);
    assert(views(r@) =~= candidates(opt_view(*configured), dv, windows)) by {
        assert(dv.len() == dirs@.len());
        assert forall|j: int| 0 <= j < dirs@.len() implies dv[j] == dirs@[j]@ by {
            assert(views(dirs@)[j] == dirs@[j]@);
        }
    }
    r
}

/// The index of the first `true` at or after `i`.
pub open spec fn first_from(s: Seq<bool>, i: int) -> Option<int>
    decreases s.len() - i,
{
    if i < 0 || i >= s.len() {
        None
    } else if s[i] {
        Some(i)
    } else {
        first_from(s, i + 1)
    }
}

/// The index of the first candidate that is an existing regular file.
pub open spec fn first_file(is_file: Seq<bool>) -> Option<int> {
    first_from(is_file, 0)
}

/// Picks the binary: the first candidate, in search order, that is an existing
/// regular file; `None` where there is none, and the start-up stops listing
/// every candidate.
pub fn find_memos(is_file: &Vec<bool>) -> (r: Option<usize>)
    ensures
        match r {
            Some(i) => i < is_file@.len() && is_file@[i as int] && forall|j: int| 0 <= j < i ==> !is_file@[j],
            None => forall|j: int| 0 <= j < is_file@.len() ==> !is_file@[j],
        },
        r matches Some(i) ==> first_file(is_file@) == Some(i as int),
        r is None ==> first_file(is_file@) is None,
{
    let mut i: usize = 0;
    while i < is_file.len()
        invariant
            i <= is_file@.len(),
            forall|j: int| 0 <= j < i ==> !is_file@[j],
            first_file(is_file@) == first_from(is_file@, i as int),
        decreases is_file@.len() - i,
    {
        if is_file[i] {
            return Some(i);
        }
        i = i + 1;
    }
    None
}

/// A configured path that is an existing regular file wins: no other
/// candidate is taken, whatever it holds.
pub proof fn lemma_configured_binary_wins(
    configured: Seq<char>,
    dirs: Seq<Seq<char>>,
    windows: bool,
    is_file: Seq<bool>,
)
    requires
        is_file.len() == candidates(Some(configured), dirs, windows).len(),
        is_file[0],
    ensures
        first_file(is_file) == Some(0int),
        candidates(Some(configured), dirs, windows)[0] == configured,
{
}

} // verus!
