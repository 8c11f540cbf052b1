use vstd::prelude::*;
use vstd::string::*;

use crate::text::{trim, trimmed};

verus! {

/// The code of `c` with ASCII capitals taken to lower case.
pub open spec fn ascii_fold(c: char) -> u32 {
    let u = c as u32;
    if 0x41 <= u <= 0x5A {
        (u + 0x20) as u32
    } else {
        u
    }
}

/// `s` and `w` hold the same characters up to ASCII case.
pub open spec fn same_ignoring_ascii_case(s: Seq<char>, w: Seq<char>) -> bool {
    &&& s.len() == w.len()
    &&& forall|i: int| 0 <= i < s.len() ==> ascii_fold(#[trigger] s[i]) == ascii_fold(w[i])
}

/// A configuration value reads as "on": once trimmed, it is one of
/// `true`, `t`, `yes`, `y` or `1`, in any ASCII case.
pub open spec fn truthy(s: Seq<char>) -> bool {
    let t = trimmed(s);
    ||| same_ignoring_ascii_case(t, "true"@)
    ||| same_ignoring_ascii_case(t, "t"@)
    ||| same_ignoring_ascii_case(t, "yes"@)
    ||| same_ignoring_ascii_case(t, "y"@)
    ||| same_ignoring_ascii_case(t, "1"@)
}

fn fold_char(c: char) -> (r: u32)
    ensures
        r == ascii_fold(c),
{
    let u = c as u32;
    if 0x41 <= u && u <= 0x5A {
        u + 0x20
    } else {
        u
    }
}

/// Whether `s` and `w` are equal up to ASCII case.
pub fn eq_ignore_ascii_case(s: &str, w: &str) -> (r: bool)
    ensures
        r == same_ignoring_ascii_case(s@, w@),
{
    let n = s.unicode_len();
    if n != w.unicode_len() {
        return false;
    }
    let mut i: usize = 0;
    while i < n
        invariant
            i <= n,
            n == s@.len(),
            n == w@.len(),
            forall|k: int| 0 <= k < i ==> ascii_fold(#[trigger] s@[k]) == ascii_fold(w@[k]),
        decreases n - i,
    {
        if fold_char(s.get_char(i)) != fold_char(w.get_char(i)) {
            return false;
        }
        i = i + 1;
    }
    true
}

/// Whether the configuration value `s` reads as "on".
pub fn is_truthy(s: &str) -> (r: bool)
    ensures
        r == truthy(s@),
{
    let t = trim(s);
    let t = t.as_str();
    eq_ignore_ascii_case(t, "true") || eq_ignore_ascii_case(t, "t") || eq_ignore_ascii_case(
        t,
        "yes",
    ) || eq_ignore_ascii_case(t, "y") || eq_ignore_ascii_case(t, "1")
}

} // verus!
