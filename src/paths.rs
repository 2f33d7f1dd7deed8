//! Slash-separated path text and the storage path conventions.
use vstd::prelude::*;
use vstd::string::*;

verus! {

/// Joining a relative segment onto a base path: a separator is added only
/// where the base is not empty and does not already end in one. A segment
/// that starts with a separator is absolute and replaces the base.
pub open spec fn join_spec(base: Seq<char>, seg: Seq<char>) -> Seq<char> {
    if seg.len() > 0 && seg[0] == '/' {
        seg
    } else if base.len() == 0 || base[base.len() - 1] == '/' {
        base + seg
    } else {
        base + seq!['/'] + seg
    }
}

/// Appends `seg` to `base` as one more path component.
pub fn join_path(base: &str, seg: &str) -> (r: String)
    ensures
        r@ == join_spec(base@, seg@),
{
    let bl = base.unicode_len();
    let sl = seg.unicode_len();
    if sl > 0 && seg.get_char(0) == '/' {
        return String::from_str(seg);
    }
    let mut r = String::from_str(base);
    if bl > 0 && base.get_char(bl - 1) != '/' {
        r.append("/");
    }
    r.append(seg);
    proof {
        reveal_strlit("/");
    }
    r
}

} // verus!
