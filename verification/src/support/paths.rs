//! Joining file system paths the way `PathBuf::push` does on Unix.
use vstd::prelude::*;

verus! {

/// The path `base` with `p` pushed onto it: an absolute `p` replaces `base`; otherwise `p` is
/// appended, after a `/` unless `base` is empty or already ends with one.
pub open spec fn path_pushed(base: Seq<char>, p: Seq<char>) -> Seq<char> {
    if p.len() > 0 && p[0] == '/' {
        p
    } else if base.len() > 0 && base.last() != '/' {
        base + seq!['/'] + p
    } else {
        base + p
    }
}

/// Pushes `p` onto the path `base`.
pub fn path_push(base: &mut String, p: &str)
    ensures
        final(base)@ == path_pushed(old(base)@, p@),
{
    let plen: usize = p.unicode_len();
    if plen > 0 && p.get_char(0) == '/' {
        *base = p.to_owned();
        return;
    }
    let blen: usize = base.as_str().unicode_len();
    if blen > 0 && base.as_str().get_char(blen - 1) != '/' {
        base.append("/");
        proof {
            reveal_strlit("/");
        }
    }
    base.append(p);
}

} // verus!
