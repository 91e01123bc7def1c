//! The X server of the single-process display manager; it differs from the daemon's in the
//! way it makes its authorization cookie.
use vstd::prelude::*;
use crate::support::entropy::{choose_char, thread_rng};
use crate::support::text::string_push;
use crate::daemon::server::is_auth_file_name;

pub use crate::daemon::server::{StartPlan, StopPlan, Xserver};

verus! {

/// The characters a cookie is drawn from: the lower-case hex digits.
pub const HEX_CHARS: [char; 16] = [
    '0', '1', '2', '3', '4', '5', '6', '7', '8', '9', 'a', 'b', 'c', 'd', 'e', 'f',
];

/// Generates an authorization cookie: 32 characters, each drawn at random from
/// [`HEX_CHARS`].
pub fn generate_cookie() -> (cookie: String)
    ensures
        cookie@.len() == 32,
        forall|i: int| 0 <= i < cookie@.len() ==> HEX_CHARS@.contains(#[trigger] cookie@[i]),
{
    let mut cookie = String::new();
    let mut rng = thread_rng();
    while cookie.as_str().unicode_len() < 32
        invariant
            cookie@.len() <= 32,
            forall|i: int| 0 <= i < cookie@.len() ==> HEX_CHARS@.contains(#[trigger] cookie@[i]),
        decreases 32 - cookie@.len(),
    {
        let c: char = match choose_char(HEX_CHARS.as_slice(), &mut rng) {
            Some(c) => c,
            None => {
                assert(HEX_CHARS@.len() == 16);
                assert(false);
                return cookie;
            },
        };
        let ghost before = cookie@;
        string_push(&mut cookie, c);
        assert(forall|i: int| 0 <= i < before.len() ==> cookie@[i] == before[i]);
    }
    cookie
}

/// A stopped server of the single-process display manager: a cookie from
/// [`generate_cookie`] and a fresh authorization file name in the run directory. The caller
/// creates the file.
pub fn new_xserver() -> (x: Xserver)
    ensures
        x.cookie().len() == 32,
        forall|i: int| 0 <= i < x.cookie().len() ==> HEX_CHARS@.contains(#[trigger] x.cookie()[i]),
        x.auth_file_view() matches Some(f) && is_auth_file_name(f),
        !x.is_running(),
        x.display_view() is None,
{
    Xserver::with_cookie(generate_cookie())
}

} // verus!
