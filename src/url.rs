//! The address that the shell opens.
use crate::num::{decimal, push_decimal};
use vstd::prelude::*;
use vstd::string::*;

verus! {

/// Why the remote server address cannot be used.
#[derive(Clone, Copy, Debug, PartialEq, Eq)]
pub enum UrlError {
    /// The remote URL is empty or does not start with `http`.
    InvalidRemoteUrl,
}

/// `http://localhost:{port}/`.
pub open spec fn local_url(port: u16) -> Seq<char> {
    "http://localhost:"@ + decimal(port as nat, 0) + "/"@
}

/// The URL without its trailing slashes.
pub open spec fn without_trailing_slashes(u: Seq<char>) -> Seq<char>
    decreases u.len(),
{
    if u.len() > 0 && u.last() == '/' {
        without_trailing_slashes(u.drop_last())
    } else {
        u
    }
}

/// Whether the URL starts with `http`.
pub open spec fn starts_with_http(u: Seq<char>) -> bool {
    u.len() >= 4 && u.subrange(0, 4) == "http"@
}

/// The URL of the Memos server: the local server on its port unless the
/// remote server is enabled and a remote URL is set; that URL then must
/// start with `http`, and ends with exactly one slash.
pub fn memos_url(remote_enabled: bool, remote_url: &Option<String>, port: u16) -> (r: Result<String, UrlError>)
    ensures
        !remote_enabled || remote_url.is_none() ==> r is Ok && r->Ok_0@ == local_url(port),
        remote_enabled && remote_url.is_some() && !starts_with_http(remote_url->0@) ==> r == Err::<String, UrlError>(UrlError::InvalidRemoteUrl),
        remote_enabled && remote_url.is_some() && starts_with_http(remote_url->0@) ==> r is Ok && r->Ok_0@
            == without_trailing_slashes(remote_url->0@) + "/"@,
{
    proof {
        reveal_strlit("http://localhost:");
        reveal_strlit("/");
        reveal_strlit("http");
    }
    match remote_url {
        Some(u) if remote_enabled => {
            let s = u.as_str();
            let len = s.unicode_len();
            if len < 4 || !(s.get_char(0) == 'h' && s.get_char(1) == 't' && s.get_char(2) == 't' && s.get_char(3) == 'p') {
                proof {
                    assert("http"@ =~= seq!['h', 't', 't', 'p']);
                    if s@.len() >= 4 && s@.subrange(0, 4) == "http"@ {
                        assert(s@[0] == s@.subrange(0, 4)[0]);
                        assert(s@[1] == s@.subrange(0, 4)[1]);
                        assert(s@[2] == s@.subrange(0, 4)[2]);
                        assert(s@[3] == s@.subrange(0, 4)[3]);
                    }
                }
                return Err(UrlError::InvalidRemoteUrl);
            }
            proof {
                assert("http"@ =~= seq!['h', 't', 't', 'p']);
                assert(s@.subrange(0, 4) =~= "http"@);
                assert(s@.subrange(0, len as int) =~= s@);
            }
            let mut n: usize = len;
            while n > 0 && s.get_char(n - 1) == '/'
                invariant
                    n <= s@.len(),
                    without_trailing_slashes(s@) == without_trailing_slashes(s@.subrange(0, n as int)),
                decreases n,
            {
                assert(s@.subrange(0, n as int).drop_last() =~= s@.subrange(0, n - 1));
                n = n - 1;
            }
            let r = String::from_str(s.substring_char(0, n)).concat("/");
            assert(s@.subrange(0, n as int) == without_trailing_slashes(s@.subrange(0, n as int)));
            Ok(r)
        },
        _ => {
            let mut r = String::from_str("http://localhost:");
            push_decimal(&mut r, port as u32, 0);
            r.append("/");
            Ok(r)
        },
    }
}

} // verus!
