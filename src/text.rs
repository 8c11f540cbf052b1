use vstd::prelude::*;
use vstd::string::*;

verus! {

/// The characters of Unicode's `White_Space` property: what separates words
/// in a pane title and what trimming removes.
pub open spec fn is_space(c: char) -> bool {
    let u = c as u32;
    ||| 0x09 <= u <= 0x0D
    ||| u == 0x20
    ||| u == 0x85
    ||| u == 0xA0
    ||| u == 0x1680
    ||| 0x2000 <= u <= 0x200A
    ||| u == 0x2028
    ||| u == 0x2029
    ||| u == 0x202F
    ||| u == 0x205F
    ||| u == 0x3000
}

/// The first index at or after `i` that does not hold a space (or the length).
pub open spec fn skip_spaces(s: Seq<char>, i: int) -> int
    decreases s.len() - i,
{
    if 0 <= i < s.len() && is_space(s[i]) {
        skip_spaces(s, i + 1)
    } else {
        i
    }
}

/// The first index at or after `i` that holds a space (or the length).
pub open spec fn skip_word(s: Seq<char>, i: int) -> int
    decreases s.len() - i,
{
    if 0 <= i < s.len() && !is_space(s[i]) {
        skip_word(s, i + 1)
    } else {
        i
    }
}

/// Walking back from `j` towards `lo`, the index just after the last `'/'`
/// in `s[lo..j]`, or `lo` when there is none.
pub open spec fn segment_start(s: Seq<char>, lo: int, j: int) -> int
    decreases j - lo,
{
    if j <= lo {
        lo
    } else if s[j - 1] == '/' {
        j
    } else {
        segment_start(s, lo, j - 1)
    }
}

/// The name a tab takes from the title of its focused pane: the first
/// whitespace-separated word of the title, cut to what follows its last `'/'`.
/// A title with no word gives no name.
pub open spec fn derived_name(title: Seq<char>) -> Option<Seq<char>> {
    let a = skip_spaces(title, 0);
    if a >= title.len() {
        None
    } else {
        let b = skip_word(title, a);
        Some(title.subrange(segment_start(title, a, b), b))
    }
}

/// `s` with the spaces at both ends removed.
pub open spec fn trimmed(s: Seq<char>) -> Seq<char> {
    let a = skip_spaces(s, 0);
    s.subrange(a, trim_end(s, a, s.len() as int))
}

/// Walking back from `j` towards `lo`, the index just after the last
/// character in `s[lo..j]` that is not a space, or `lo` when there is none.
pub open spec fn trim_end(s: Seq<char>, lo: int, j: int) -> int
    decreases j - lo,
{
    if j > lo && is_space(s[j - 1]) {
        trim_end(s, lo, j - 1)
    } else if j > lo {
        j
    } else {
        lo
    }
}

pub open spec fn string_option_view(o: Option<String>) -> Option<Seq<char>> {
    match o {
        Some(s) => Some(s@),
        None => None,
    }
}

/// Whether `c` is a Unicode space.
pub fn is_space_char(c: char) -> (r: bool)
    ensures
        r == is_space(c),
{
    let u = c as u32;
    (0x09 <= u && u <= 0x0D) || u == 0x20 || u == 0x85 || u == 0xA0 || u == 0x1680 || (0x2000
        <= u && u <= 0x200A) || u == 0x2028 || u == 0x2029 || u == 0x202F || u == 0x205F || u
        == 0x3000
}

/// The index of the first character of `s` that is not a space.
fn first_non_space(s: &str, n: usize) -> (a: usize)
    requires
        n == s@.len(),
    ensures
        a == skip_spaces(s@, 0),
        a <= n,
{
    let mut a: usize = 0;
    while a < n && is_space_char(s.get_char(a))
        invariant
            a <= n,
            n == s@.len(),
            skip_spaces(s@, a as int) == skip_spaces(s@, 0),
        decreases n - a,
    {
        a = a + 1;
    }
    a
}

/// The name a tab takes from the title `title` of its focused pane.
pub fn derive_tab_name(title: &str) -> (r: Option<String>)
    ensures
        string_option_view(r) == derived_name(title@),
{
    let n = title.unicode_len();
    let a = first_non_space(title, n);
    if a >= n {
        return None;
    }
    let mut b: usize = a;
    while b < n && !is_space_char(title.get_char(b))
        invariant
            a <= b <= n,
            n == title@.len(),
            skip_word(title@, b as int) == skip_word(title@, a as int),
        decreases n - b,
    {
        b = b + 1;
    }
    let mut c: usize = b;
    while c > a && title.get_char(c - 1) != '/'
        invariant
            a <= c <= b <= n,
            n == title@.len(),
            segment_start(title@, a as int, c as int) == segment_start(
                title@,
                a as int,
                b as int,
            ),
        decreases c,
    {
        c = c - 1;
    }
    Some(title.substring_char(c, b).to_owned())
}

/// `s` with the spaces at both ends removed.
pub fn trim(s: &str) -> (r: String)
    ensures
        r@ == trimmed(s@),
{
    let n = s.unicode_len();
    let a = first_non_space(s, n);
    let mut e: usize = n;
    while e > a && is_space_char(s.get_char(e - 1))
        invariant
            a <= e <= n,
            n == s@.len(),
            trim_end(s@, a as int, e as int) == trim_end(s@, a as int, n as int),
        decreases e,
    {
        e = e - 1;
    }
    s.substring_char(a, e).to_owned()
}

/// Whether `prefix` is a prefix of `s`.
pub fn starts_with(s: &str, prefix: &str) -> (r: bool)
    ensures
        r == prefix@.is_prefix_of(s@),
{
    let n = s.unicode_len();
    let m = prefix.unicode_len();
    if m > n {
        return false;
    }
    let mut i: usize = 0;
    while i < m
        invariant
            i <= m <= n,
            n == s@.len(),
            m == prefix@.len(),
            forall|k: int| 0 <= k < i ==> prefix@[k] == s@[k],
        decreases m - i,
    {
        if prefix.get_char(i) != s.get_char(i) {
            return false;
        }
        i = i + 1;
    }
    assert(prefix@ =~= s@.subrange(0, m as int));
    true
}

} // verus!
