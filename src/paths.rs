//! Where the data directory, the backups and the database live.
use crate::text::{join_path, joined, same_text, trim, trimmed};
use vstd::prelude::*;
use vstd::string::*;

verus! {

/// How a directory setting resolves.
pub enum DirChoice {
    /// The directory is this path, with nothing left to expand.
    Resolved(String),
    /// The directory is this user-given path, once its `~` is expanded and it
    /// is made absolute.
    Expand(String),
}

impl DirChoice {
    /// The choice as a pair: whether it still needs expansion, and the path.
    pub open spec fn view(&self) -> (bool, Seq<char>) {
        match self {
            DirChoice::Resolved(p) => (false, p@),
            DirChoice::Expand(p) => (true, p@),
        }
    }
}

/// A setting that falls back to the default directory: empty, or the
/// current directory marker `.`.
pub open spec fn is_default_marker(t: Seq<char>) -> bool {
    t.len() == 0 || t == seq!['.']
}

/// The trimmed text of an optional setting, empty where it is not set.
pub open spec fn setting_text(s: Option<String>) -> Seq<char> {
    match s {
        Some(v) => trimmed(v@),
        None => Seq::empty(),
    }
}

fn trimmed_setting(s: &Option<String>) -> (r: String)
    ensures
        r@ == setting_text(*s),
{
    match s {
        Some(v) => trim(v.as_str()),
        None => String::new(),
    }
}

/// The Memos data directory: the application data directory where the setting
/// is empty or `.` (a path that could resolve to a read-only install
/// directory), else the setting to expand.
pub fn memos_data(setting: &Option<String>, app_data: &str) -> (r: DirChoice)
    ensures
        is_default_marker(setting_text(*setting)) ==> r@ == (false, app_data@),
        !is_default_marker(setting_text(*setting)) ==> r@ == (true, setting_text(*setting)),
{
    let t = trimmed_setting(setting);
    proof {
        reveal_strlit(".");
        assert("."@ =~= seq!['.']);
    }
    if t.unicode_len() == 0 || same_text(t.as_str(), ".") {
        DirChoice::Resolved(String::from_str(app_data))
    } else {
        DirChoice::Expand(t)
    }
}

/// The name of the default backup folder inside the application data directory.
pub open spec fn backups_folder() -> Seq<char> {
    seq!['b', 'a', 'c', 'k', 'u', 'p', 's']
}

/// The backup directory: `{app_data}/backups` where the setting is empty, `.`
/// or the folder name `backups` itself, else the setting to expand.
pub fn backup_directory(setting: &Option<String>, app_data: &str, windows: bool) -> (r: DirChoice)
    ensures
        is_default_marker(setting_text(*setting)) || setting_text(*setting) == backups_folder()
            ==> r@ == (false, joined(app_data@, backups_folder(), windows)),
        !(is_default_marker(setting_text(*setting)) || setting_text(*setting) == backups_folder())
            ==> r@ == (true, setting_text(*setting)),
{
    let t = trimmed_setting(setting);
    proof {
        reveal_strlit(".");
        reveal_strlit("backups");
        assert("."@ =~= seq!['.']);
        assert("backups"@ =~= seq!['b', 'a', 'c', 'k', 'u', 'p', 's']);
    }
    if t.unicode_len() == 0 || same_text(t.as_str(), ".") || same_text(t.as_str(), "backups") {
        DirChoice::Resolved(join_path(app_data, "backups", windows))
    } else {
        DirChoice::Expand(t)
    }
}

/// The database file and the two files that SQLite keeps beside it.
pub struct DatabaseFiles {
    pub db: String,
    pub wal: String,
    pub shm: String,
}

/// `memos_{mode}.db`.
pub open spec fn db_file_name(mode: Seq<char>) -> Seq<char> {
    seq!['m', 'e', 'm', 'o', 's', '_'] + mode + seq!['.', 'd', 'b']
}

/// The mode of a setting, empty where it is not set.
pub open spec fn mode_text(mode: Option<String>) -> Seq<char> {
    match mode {
        Some(m) => m@,
        None => Seq::empty(),
    }
}

/// The database files of the given server mode inside the Memos data directory.
pub fn database(memos_data: &str, mode: &Option<String>, windows: bool) -> (r: DatabaseFiles)
    ensures
        r.db@ == joined(memos_data@, db_file_name(mode_text(*mode)), windows),
        r.wal@ == r.db@ + seq!['-', 'w', 'a', 'l'],
        r.shm@ == r.db@ + seq!['-', 's', 'h', 'm'],
{
    proof {
        reveal_strlit("memos_");
        reveal_strlit(".db");
        reveal_strlit("-wal");
        reveal_strlit("-shm");
        assert("memos_"@ =~= seq!['m', 'e', 'm', 'o', 's', '_']);
        assert(".db"@ =~= seq!['.', 'd', 'b']);
        assert("-wal"@ =~= seq!['-', 'w', 'a', 'l']);
        assert("-shm"@ =~= seq!['-', 's', 'h', 'm']);
    }
    let mut name = String::from_str("memos_");
    match mode {
        Some(m) => name.append(m.as_str()),
        None => {},
    }
    name.append(".db");
    assert(name@ =~= db_file_name(mode_text(*mode)));
    let db = join_path(memos_data, name.as_str(), windows);
    let wal = String::from_str(db.as_str()).concat("-wal");
    let shm = String::from_str(db.as_str()).concat("-shm");
    DatabaseFiles { db, wal, shm }
}

/// Whether the demo database is removed at start-up: only in a development
/// build running in demo mode. That database is seeded data that migrations
/// do not handle.
pub fn remove_demo_database(dev_build: bool, mode: &Option<String>) -> (r: bool)
    ensures
        r == (dev_build && mode_text(*mode) == seq!['d', 'e', 'm', 'o'] && mode.is_some()),
{
    proof {
        reveal_strlit("demo");
        assert("demo"@ =~= seq!['d', 'e', 'm', 'o']);
    }
    match mode {
        Some(m) => dev_build && same_text(m.as_str(), "demo"),
        None => false,
    }
}

} // verus!
