//! Small verified helpers on strings and paths.
use vstd::prelude::*;
use vstd::string::*;

verus! {

/// What `str::trim` leaves of a string.
pub uninterp spec fn trimmed(s: Seq<char>) -> Seq<char>;

/// Relies on `str::trim`: removes leading and trailing white space, so the
/// result depends on the characters alone, and an empty string stays empty.
#[verifier::external_body]
pub(crate) fn trim(s: &str) -> (r: String)
    ensures
        r@ == trimmed(s@),
        s@.len() == 0 ==> r@.len() == 0,
{
    s.trim().to_string()
}

/// Compares two strings character by character.
pub fn same_text(a: &str, b: &str) -> (r: bool)
    ensures
        r == (a@ == b@),
{
    let n = a.unicode_len();
    if n != b.unicode_len() {
        return false;
    }
    let mut i: usize = 0;
    while i < n
        invariant
            n == a@.len(),
            n == b@.len(),
            i <= n,
            forall|j: int| 0 <= j < i ==> a@[j] == b@[j],
        decreases n - i,
    {
        if a.get_char(i) != b.get_char(i) {
            return false;
        }
        i = i + 1;
    }
    assert(a@ =~= b@);
    true
}

/// The path separator of the platform.
pub open spec fn separator(windows: bool) -> char {
    if windows { '\\' } else { '/' }
}

/// `name` placed inside the directory `dir`: a separator goes between the two
/// unless `dir` already ends with one.
pub open spec fn joined(dir: Seq<char>, name: Seq<char>, windows: bool) -> Seq<char> {
    if dir.len() > 0 && dir.last() == separator(windows) {
        dir + name
    } else {
        dir + seq![separator(windows)] + name
    }
}

/// Places `name` inside the directory `dir`.
pub fn join_path(dir: &str, name: &str, windows: bool) -> (r: String)
    ensures
        r@ == joined(dir@, name@, windows),
{
    let n = dir.unicode_len();
    let sep: &str = if windows { "\\" } else { "/" };
    proof {
        reveal_strlit("\\");
        reveal_strlit("/");
    }
    let mut r = String::from_str(dir);
    if n > 0 && dir.get_char(n - 1) == separator_char(windows) {
        r.append(name);
    } else {
        r.append(sep);
        r.append(name);
    }
    r
}

/// The path separator of the platform.
pub fn separator_char(windows: bool) -> (c: char)
    ensures
        c == separator(windows),
{
    if windows { '\\' } else { '/' }
}

} // verus!
