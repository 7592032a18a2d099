//! Expansion of a leading `~` or `~user` in a path, and the home directories
//! of the user database (`/etc/passwd`).
use vstd::prelude::*;
use vstd::string::*;

verus! {

/// Why a home directory cannot be found.
#[derive(Clone, Debug, PartialEq)]
pub enum HomeError {
    /// The current user's home directory is unknown.
    MissingHome,
    /// The user database holds no entry for this user.
    MissingEntry(String),
}

/// The pieces of `s` between the separators `sep`, reading from index `i`
/// with the current piece started at `start`.
pub open spec fn split_from(s: Seq<char>, sep: char, start: int, i: int) -> Seq<Seq<char>>
    decreases s.len() - i,
{
    if start < 0 || start > i || i >= s.len() {
        seq![s.subrange(start, s.len() as int)]
    } else if s[i] == sep {
        seq![s.subrange(start, i)] + split_from(s, sep, i + 1, i + 1)
    } else {
        split_from(s, sep, start, i + 1)
    }
}

/// The pieces of `s` between the separators `sep`.
pub open spec fn split(s: Seq<char>, sep: char) -> Seq<Seq<char>> {
    split_from(s, sep, 0, 0)
}

/// The views of a sequence of strings.
pub open spec fn piece_views(v: Seq<String>) -> Seq<Seq<char>> {
    v.map_values(|s: String| s@)
}

/// Splits `s` at each `sep`.
pub fn split_text(s: &str, sep: char) -> (r: Vec<String>)
    ensures
        piece_views(r@) == split(s@, sep),
{
    let n = s.unicode_len();
    let mut pieces: Vec<String> = Vec::new();
    let mut start: usize = 0;
    let mut i: usize = 0;
    while i < n
        invariant
            n == s@.len(),
            start <= i <= n,
            piece_views(pieces@) + split_from(s@, sep, start as int, i as int) == split(s@, sep),
        decreases n - i,
    {
        if s.get_char(i) == sep {
            let ghost old_pieces = pieces@;
            pieces.push(String::from_str(s.substring_char(start, i)));
            assert(piece_views(pieces@) =~= piece_views(old_pieces) + seq![s@.subrange(start as int, i as int)]);
            assert(piece_views(pieces@) + split_from(s@, sep, i + 1, i + 1) =~= piece_views(old_pieces) + split_from(s@, sep, start as int, i as int));
            start = i + 1;
        }
        i = i + 1;
    }
    let ghost old_pieces = pieces@;
    pieces.push(String::from_str(s.substring_char(start, n)));
    assert(piece_views(pieces@) =~= piece_views(old_pieces) + split_from(s@, sep, start as int, n as int));
    pieces
}

/// The home directory of `user` among the database lines from `k` on: the
/// sixth field of the first line whose first field is the user name and
/// that has at least six fields.
pub open spec fn home_in(lines: Seq<Seq<char>>, user: Seq<char>, k: int) -> Option<Seq<char>>
    decreases lines.len() - k,
{
    if k < 0 || k >= lines.len() {
        None
    } else if split(lines[k], ':').len() >= 6 && split(lines[k], ':')[0] == user {
        Some(split(lines[k], ':')[5])
    } else {
        home_in(lines, user, k + 1)
    }
}

/// The home directory of `user` in the text of a user database.
pub open spec fn passwd_home(passwd: Seq<char>, user: Seq<char>) -> Option<Seq<char>> {
    home_in(split(passwd, '\n'), user, 0)
}

/// Looks up the home directory of `user` in the text of a user database in
/// the format of `/etc/passwd`.
pub fn getent(passwd: &str, user: &str) -> (r: Result<String, HomeError>)
    ensures
        match passwd_home(passwd@, user@) {
            Some(h) => r is Ok && r->Ok_0@ == h,
            None => r is Err && (r->Err_0 matches HomeError::MissingEntry(u) && u@ == user@),
        },
{
    let lines = split_text(passwd, '\n');
    let mut k: usize = 0;
    while k < lines.len()
        invariant
            k <= lines@.len(),
            piece_views(lines@) == split(passwd@, '\n'),
            passwd_home(passwd@, user@) == home_in(split(passwd@, '\n'), user@, k as int),
        decreases lines@.len() - k,
    {
        assert(piece_views(lines@)[k as int] == lines@[k as int]@);
        let fields = split_text(lines[k].as_str(), ':');
        if fields.len() >= 6 {
            assert(piece_views(fields@)[0] == fields@[0]@);
            assert(piece_views(fields@)[5] == fields@[5]@);
            if crate::text::same_text(fields[0].as_str(), user) {
                return Ok(String::from_str(fields[5].as_str()));
            }
        }
        k = k + 1;
    }
    Err(HomeError::MissingEntry(String::from_str(user)))
}

/// Whether `c` ends the `~user` part of a path.
pub open spec fn is_separator(c: char, windows: bool) -> bool {
    c == '/' || (windows && c == '\\')
}

/// The index of the first separator at or after `i`, or the length.
pub open spec fn first_separator(p: Seq<char>, windows: bool, i: int) -> int
    decreases p.len() - i,
{
    if i < 0 || i >= p.len() {
        p.len() as int
    } else if is_separator(p[i], windows) {
        i
    } else {
        first_separator(p, windows, i + 1)
    }
}

proof fn lemma_first_separator(p: Seq<char>, windows: bool, i: int, k: int)
    requires
        1 <= i <= k <= p.len(),
        k == p.len() || is_separator(p[k], windows),
        forall|j: int| i <= j < k ==> !is_separator(#[trigger] p[j], windows),
    ensures
        first_separator(p, windows, i) == k,
    decreases k - i,
{
    if i < k {
        lemma_first_separator(p, windows, i + 1, k);
    }
}

/// Expanding `~user/rest` gives that user's home directory from the user
/// database followed by `rest`, and fails where the database has no such
/// user; expanding `~/rest` gives the current user's home directory followed
/// by `rest`; a path without a leading `~` comes back unchanged.
pub proof fn lemma_expansion_is_lookup(
    user: Seq<char>,
    rest: Seq<char>,
    home: Option<Seq<char>>,
    passwd: Seq<char>,
    windows: bool,
    plain: Seq<char>,
)
    requires
        forall|j: int| 0 <= j < user.len() ==> !is_separator(#[trigger] user[j], windows),
        rest.len() == 0 || is_separator(rest[0], windows),
    ensures
        user.len() > 0 ==> expanded(seq!['~'] + user + rest, home, passwd, windows) == match passwd_home(passwd, user) {
            Some(h) => Ok::<Seq<char>, ()>(h + rest),
            None => Err(()),
        },
        user.len() == 0 ==> expanded(seq!['~'] + rest, home, passwd, windows) == match home {
            Some(h) => if h.len() > 0 { Ok::<Seq<char>, ()>(h + rest) } else { Err(()) },
            None => Err(()),
        },
        plain.len() == 0 || plain[0] != '~' ==> expanded(plain, home, passwd, windows) == Ok::<Seq<char>, ()>(plain),
{
    let p = seq!['~'] + user + rest;
    let k: int = 1 + user.len() as int;
    assert forall|j: int| 1 <= j < k implies !is_separator(#[trigger] p[j], windows) by {
        assert(p[j] == user[j - 1]);
    }
    if k < p.len() {
        assert(p[k] == rest[0]);
    }
    lemma_first_separator(p, windows, 1, k);
    assert(p.subrange(1, k) =~= user);
    assert(p.subrange(k, p.len() as int) =~= rest);
    if user.len() == 0 {
        assert(p =~= seq!['~'] + rest);
    }
}

/// The outcome of expanding `p`: unchanged without a leading `~`; else the
/// home directory of the named user, or of the current user where no name
/// follows the `~`, with the rest of the path after it.
pub open spec fn expanded(p: Seq<char>, home: Option<Seq<char>>, passwd: Seq<char>, windows: bool) -> Result<Seq<char>, ()> {
    if p.len() == 0 || p[0] != '~' {
        Ok(p)
    } else {
        let k = first_separator(p, windows, 1);
        let user = p.subrange(1, k);
        let rest = p.subrange(k, p.len() as int);
        let h = if user.len() == 0 {
            match home {
                Some(h) => if h.len() > 0 { Some(h) } else { None },
                None => None,
            }
        } else {
            passwd_home(passwd, user)
        };
        match h {
            Some(d) => Ok(d + rest),
            None => Err(()),
        }
    }
}

/// Expands a leading `~` (the current user's home directory `home`) or
/// `~user` (that user's entry in the user database `passwd`) of a path;
/// other paths come back unchanged.
pub fn expand_home(path: &str, home: &Option<String>, passwd: &str, windows: bool) -> (r: Result<String, HomeError>)
    ensures
        match expanded(path@, match home { Some(h) => Some(h@), None => None }, passwd@, windows) {
            Ok(e) => r is Ok && r->Ok_0@ == e,
            Err(_) => r is Err,
        },
{
    let n = path.unicode_len();
    if n == 0 || path.get_char(0) != '~' {
        return Ok(String::from_str(path));
    }
    let mut k: usize = 1;
    while k < n && !(path.get_char(k) == '/' || (windows && path.get_char(k) == '\\'))
        invariant
            1 <= k <= n,
            n == path@.len(),
            first_separator(path@, windows, 1) == first_separator(path@, windows, k as int),
        decreases n - k,
    {
        k = k + 1;
    }
    let user = path.substring_char(1, k);
    let rest = path.substring_char(k, n);
    if k == 1 {
        match home {
            Some(h) => {
                if h.unicode_len() == 0 {
                    return Err(HomeError::MissingHome);
                }
                Ok(String::from_str(h.as_str()).concat(rest))
            },
            None => Err(HomeError::MissingHome),
        }
    } else {
        match getent(passwd, user) {
            Ok(h) => Ok(h.concat(rest)),
            Err(e) => Err(e),
        }
    }
}

} // verus!
