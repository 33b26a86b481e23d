//! Character-level helpers on strings: whitespace trimming and prefixes.

use vstd::prelude::*;
use vstd::string::*;

verus! {

/// Whether a character has the Unicode `White_Space` property, which
/// `char::is_whitespace` tests: these 25 code points.
pub open spec fn white_space(c: char) -> bool {
    let u = c as u32;
    ||| 0x09 <= u <= 0x0D
    ||| u == 0x20
    ||| u == 0x85
    ||| u == 0xA0
    ||| u == 0x1680
    ||| 0x2000 <= u <= 0x200A
    ||| u == 0x2028
    ||| u == 0x2029
    ||| u == 0x202F
    ||| u == 0x205F
    ||| u == 0x3000
}

fn is_white(c: char) -> (r: bool)
    ensures
        r == white_space(c),
{
    let u = c as u32;
    (0x09 <= u && u <= 0x0D) || u == 0x20 || u == 0x85 || u == 0xA0 || u == 0x1680 || (0x2000
        <= u && u <= 0x200A) || u == 0x2028 || u == 0x2029 || u == 0x202F || u == 0x205F || u
        == 0x3000
}

/// Number of leading whitespace characters.
pub open spec fn leading_ws(s: Seq<char>) -> nat
    decreases s.len(),
{
    if s.len() > 0 && white_space(s[0]) {
        1 + leading_ws(s.drop_first())
    } else {
        0
    }
}

/// Number of trailing whitespace characters.
pub open spec fn trailing_ws(s: Seq<char>) -> nat
    decreases s.len(),
{
    if s.len() > 0 && white_space(s.last()) {
        1 + trailing_ws(s.drop_last())
    } else {
        0
    }
}

/// `s` without its leading and trailing whitespace.
pub open spec fn trimmed(s: Seq<char>) -> Seq<char> {
    let t = s.subrange(leading_ws(s) as int, s.len() as int);
    t.subrange(0, t.len() - trailing_ws(t))
}

/// The text of `s` with leading and trailing whitespace removed.
pub fn trim(s: &str) -> (r: String)
    ensures
        r@ == trimmed(s@),
{
    let n = s.unicode_len();
    let ghost v = s@;
    let mut i: usize = 0;
    assert(v.subrange(0, n as int) =~= v);
    while i < n && is_white(s.get_char(i))
        invariant
            n == v.len(),
            v == s@,
            i <= n,
            leading_ws(v) == i + leading_ws(v.subrange(i as int, n as int)),
        decreases n - i,
    {
        proof {
            let rest = v.subrange(i as int, n as int);
            assert(rest.drop_first() =~= v.subrange(i + 1, n as int));
        }
        i = i + 1;
    }
    proof {
        let rest = v.subrange(i as int, n as int);
        if i < n {
            assert(rest[0] == v[i as int]);
        }
        assert(leading_ws(rest) == 0);
    }
    let ghost t = v.subrange(i as int, n as int);
    let mut j: usize = n;
    assert(t.subrange(0, n - i) =~= t);
    while j > i && is_white(s.get_char(j - 1))
        invariant
            n == v.len(),
            v == s@,
            t == v.subrange(i as int, n as int),
            i <= j <= n,
            trailing_ws(t) == (n - j) + trailing_ws(t.subrange(0, j - i)),
        decreases j - i,
    {
        proof {
            let head = t.subrange(0, j - i);
            assert(head.last() == v[j - 1]);
            assert(head.drop_last() =~= t.subrange(0, j - 1 - i));
        }
        j = j - 1;
    }
    proof {
        let head = t.subrange(0, j - i);
        if j > i {
            assert(head.last() == v[j - 1]);
        }
        assert(trailing_ws(head) == 0);
        assert(t.subrange(0, t.len() - trailing_ws(t)) =~= v.subrange(i as int, j as int));
    }
    String::from_str(s.substring_char(i, j))
}

/// If `s` starts with `p`, the rest of `s` after it.
pub fn strip_prefix<'a>(s: &'a str, p: &str) -> (r: Option<&'a str>)
    ensures
        r is Some <==> p@.is_prefix_of(s@),
        r matches Some(rest) ==> rest@ == s@.subrange(p@.len() as int, s@.len() as int),
{
    let n = s.unicode_len();
    let m = p.unicode_len();
    if m > n {
        return None;
    }
    let mut k: usize = 0;
    while k < m
        invariant
            n == s@.len(),
            m == p@.len(),
            m <= n,
            k <= m,
            forall|x: int| 0 <= x < k ==> s@[x] == p@[x],
        decreases m - k,
    {
        if s.get_char(k) != p.get_char(k) {
            return None;
        }
        k = k + 1;
    }
    Some(s.substring_char(m, n))
}

/// Whether two strings hold the same characters.
pub fn same_text(a: &str, b: &str) -> (r: bool)
    ensures
        r == (a@ == b@),
{
    if a.unicode_len() != b.unicode_len() {
        return false;
    }
    match strip_prefix(a, b) {
        Some(_) => {
            assert(a@ =~= b@);
            true
        },
        None => false,
    }
}

/// Whether `needle` occurs in `hay`.
pub open spec fn contains_seq(hay: Seq<char>, needle: Seq<char>) -> bool {
    exists|i: int|
        0 <= i && i + needle.len() <= hay.len() && #[trigger] hay.subrange(i, i + needle.len())
            == needle
}

/// Whether `needle` occurs in `hay`.
pub fn contains_text(hay: &str, needle: &str) -> (r: bool)
    ensures
        r == contains_seq(hay@, needle@),
{
    let n = hay.unicode_len();
    let m = needle.unicode_len();
    if m > n {
        return false;
    }
    let mut i: usize = 0;
    loop
        invariant
            n == hay@.len(),
            m == needle@.len(),
            m <= n,
            i <= n - m,
            forall|j: int| 0 <= j < i ==> #[trigger] hay@.subrange(j, j + m) != needle@,
        decreases n - m - i,
    {
        let window = hay.substring_char(i, i + m);
        if same_text(window, needle) {
            return true;
        }
        if i == n - m {
            return false;
        }
        i = i + 1;
    }
}

/// The lowercase mapping of a text, as Unicode defines it.
pub uninterp spec fn lower_of(s: Seq<char>) -> Seq<char>;

/// Relies on `str::to_lowercase`: the result depends on the characters alone.
#[verifier::external_body]
pub(crate) fn lowercase(s: &str) -> (r: String)
    ensures
        r@ == lower_of(s@),
{
    s.to_lowercase()
}

} // verus!
