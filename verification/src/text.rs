//! Small verified string helpers: equality, reserved-word unescaping, and
//! the mapping from labels to generation modes.

use vstd::prelude::*;
use vstd::string::*;

use crate::generate::GenMode;

verus! {

/// Character-for-character equality of two string slices.
pub fn str_eq(a: &str, b: &str) -> (r: bool)
    ensures
        r == (a@ == b@),
{
    let an = a.unicode_len();
    let bn = b.unicode_len();
    if an != bn {
        return false;
    }
    let mut i: usize = 0;
    while i < an
        invariant
            an == a@.len(),
            an == b@.len(),
            i <= an,
            forall|j: int| 0 <= j < i ==> a@[j] == b@[j],
        decreases an - i,
    {
        if a.get_char(i) != b.get_char(i) {
            return false;
        }
        i += 1;
    }
    proof {
        assert(a@ =~= b@);
    }
    true
}

/// A name with its reserved-word escape prefix removed, if it has one.
pub open spec fn spec_unraw(s: Seq<char>) -> Seq<char> {
    if s.len() >= 2 && s[0] == 'r' && s[1] == '#' {
        s.subrange(2, s.len() as int)
    } else {
        s
    }
}

/// Strips the reserved-word escape prefix from a name, if present.
pub fn unraw(s: &str) -> (r: String)
    ensures
        r@ == spec_unraw(s@),
{
    let n = s.unicode_len();
    if n >= 2 && s.get_char(0) == 'r' && s.get_char(1) == '#' {
        let t = s.substring_char(2, n);
        String::from_str(t)
    } else {
        String::from_str(s)
    }
}

/// The generation mode denoted by a label, if it denotes one.
pub open spec fn spec_label_mode(l: Seq<char>) -> Option<GenMode> {
    if l == "get_ref"@ {
        Some(GenMode::GetRef)
    } else if l == "get_copy"@ {
        Some(GenMode::GetCopy)
    } else if l == "get_mut"@ {
        Some(GenMode::GetMut)
    } else if l == "set"@ {
        Some(GenMode::Setter)
    } else if l == "set_with"@ {
        Some(GenMode::SetWith)
    } else {
        None
    }
}

/// Maps a label to the generation mode it names, if any.
pub fn label_mode(l: &str) -> (r: Option<GenMode>)
    ensures
        r == spec_label_mode(l@),
{
    if str_eq(l, "get_ref") {
        Some(GenMode::GetRef)
    } else if str_eq(l, "get_copy") {
        Some(GenMode::GetCopy)
    } else if str_eq(l, "get_mut") {
        Some(GenMode::GetMut)
    } else if str_eq(l, "set") {
        Some(GenMode::Setter)
    } else if str_eq(l, "set_with") {
        Some(GenMode::SetWith)
    } else {
        None
    }
}

} // verus!
