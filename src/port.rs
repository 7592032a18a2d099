//! Choosing the port that the Memos server listens on.
use vstd::prelude::*;

verus! {

/// Relies on `portpicker::is_free`: whether the port can be bound on both TCP
/// and UDP at this moment. Nothing is promised of the answer.
#[verifier::external_body]
fn port_is_free(port: u16) -> (r: bool) {
    portpicker::is_free(port)
}

/// Relies on `portpicker::pick_unused_port`: some port that was free a moment
/// ago, or `None`. Nothing is promised of the answer.
#[verifier::external_body]
fn pick_unused_port() -> (r: Option<u16>) {
    portpicker::pick_unused_port()
}

/// The port chosen from a preference and what the machine reported: the
/// preferred port where it is set (not 0) and free, else the picked port,
/// provided that it is neither 0 nor the preferred one.
pub open spec fn chosen_port(preferred: u16, preferred_free: bool, picked: Option<u16>) -> Option<u16> {
    if preferred != 0 && preferred_free {
        Some(preferred)
    } else {
        match picked {
            Some(q) => if q != 0 && q != preferred { Some(q) } else { None },
            None => None,
        }
    }
}

/// Chooses the port from a preference and what the machine reported of it.
pub fn choose_port(preferred: u16, preferred_free: bool, picked: Option<u16>) -> (r: Option<u16>)
    ensures
        r == chosen_port(preferred, preferred_free, picked),
        preferred != 0 && preferred_free ==> r == Some(preferred),
        !preferred_free ==> r != Some(preferred),
{
    if preferred != 0 && preferred_free {
        Some(preferred)
    } else {
        match picked {
            Some(q) => if q != 0 && q != preferred { Some(q) } else { None },
            None => None,
        }
    }
}

/// A free port for the Memos server: the preferred one where it is set and
/// free, else one that the machine offers; `None` where no port is found.
pub fn memos_port(preferred: u16) -> (r: Option<u16>)
    ensures
        r matches Some(q) ==> q != 0,
{
    let free = if preferred != 0 { port_is_free(preferred) } else { false };
    if preferred != 0 && free {
        return Some(preferred);
    }
    let picked = pick_unused_port();
    choose_port(preferred, free, picked)
}

} // verus!
