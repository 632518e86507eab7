//! Verified text helpers: ASCII case folding, substring search, and
//! rendering of unsigned integers as decimal text.
//!
//! Device classes, interface names, and vendor strings are classified by
//! case-insensitive containment throughout the library; the spec functions
//! here give those classifications an exact meaning over `Seq<char>`.

use vstd::prelude::*;
use vstd::string::StrSliceExecFns;
use vstd::string::StringExecFns;

verus! {

/// Unicode code point of `c` with ASCII capitals folded to lower case.
pub open spec fn lower_code(c: char) -> u32 {
    if 'A' <= c && c <= 'Z' {
        ((c as u32) + 32) as u32
    } else {
        c as u32
    }
}

/// The sequence of folded code points of `s`.
pub open spec fn lower_seq(s: Seq<char>) -> Seq<u32> {
    s.map_values(|c: char| lower_code(c))
}

/// `n` occurs in `h` at position `i`, comparing folded code points.
pub open spec fn matches_ci_at(h: Seq<char>, n: Seq<char>, i: int) -> bool {
    &&& 0 <= i
    &&& i + n.len() <= h.len()
    &&& forall|j: int| 0 <= j < n.len() ==> lower_code(h[i + j]) == #[trigger] lower_code(n[j])
}

/// `n` occurs somewhere in `h`, comparing folded code points.
pub open spec fn contains_ci(h: Seq<char>, n: Seq<char>) -> bool {
    exists|i: int| matches_ci_at(h, n, i)
}

/// The two sequences are equal up to ASCII case.
pub open spec fn eq_ci(a: Seq<char>, b: Seq<char>) -> bool {
    lower_seq(a) == lower_seq(b)
}

/// `n` occurs in `h` at position `i`, character for character.
pub open spec fn matches_cs_at(h: Seq<char>, n: Seq<char>, i: int) -> bool {
    &&& 0 <= i
    &&& i + n.len() <= h.len()
    &&& forall|j: int| 0 <= j < n.len() ==> h[i + j] == #[trigger] n[j]
}

/// `n` occurs somewhere in `h`, character for character.
pub open spec fn contains_cs(h: Seq<char>, n: Seq<char>) -> bool {
    exists|i: int| matches_cs_at(h, n, i)
}

/// Folded code point of one character.
fn lower_code_of(c: char) -> (r: u32)
    ensures
        r == lower_code(c),
{
    let u = c as u32;
    if 65 <= u && u <= 90 {
        u + 32
    } else {
        u
    }
}

/// Does `n` occur in `h` at position `i`, up to ASCII case?
fn matches_ci_at_exec(h: &str, n: &str, i: usize, h_len: usize, n_len: usize) -> (r: bool)
    requires
        h_len == h@.len(),
        n_len == n@.len(),
        i + n_len <= h_len,
    ensures
        r == matches_ci_at(h@, n@, i as int),
{
    let mut j: usize = 0;
    while j < n_len
        invariant
            j <= n_len,
            h_len == h@.len(),
            n_len == n@.len(),
            i + n_len <= h_len,
            forall|k: int| 0 <= k < j ==> lower_code(h@[i + k]) == #[trigger] lower_code(n@[k]),
        decreases n_len - j,
    {
        let hc = h.get_char(i + j);
        let nc = n.get_char(j);
        if lower_code_of(hc) != lower_code_of(nc) {
            return false;
        }
        j += 1;
    }
    true
}

/// Case-insensitive substring test: does `needle` occur in `haystack`,
/// comparing ASCII characters without regard to case?
pub fn contains_ignore_case(haystack: &str, needle: &str) -> (r: bool)
    ensures
        r == contains_ci(haystack@, needle@),
{
    let h_len = haystack.unicode_len();
    let n_len = needle.unicode_len();
    if n_len > h_len {
        assert(forall|i: int| !matches_ci_at(haystack@, needle@, i));
        return false;
    }
    if n_len == 0 {
        assert(matches_ci_at(haystack@, needle@, 0));
        return true;
    }
    let mut i: usize = 0;
    while i <= h_len - n_len
        invariant
            h_len == haystack@.len(),
            n_len == needle@.len(),
            1 <= n_len <= h_len,
            i <= h_len - n_len + 1,
            forall|k: int| 0 <= k < i ==> !matches_ci_at(haystack@, needle@, k),
        decreases h_len - i,
    {
        if matches_ci_at_exec(haystack, needle, i, h_len, n_len) {
            return true;
        }
        i += 1;
    }
    assert(forall|k: int| !matches_ci_at(haystack@, needle@, k));
    false
}

/// Case-insensitive equality of two strings over ASCII case folding.
pub fn eq_ignore_case(a: &str, b: &str) -> (r: bool)
    ensures
        r == eq_ci(a@, b@),
{
    let a_len = a.unicode_len();
    let b_len = b.unicode_len();
    if a_len != b_len {
        assert(lower_seq(a@).len() != lower_seq(b@).len());
        return false;
    }
    let mut i: usize = 0;
    while i < a_len
        invariant
            a_len == a@.len(),
            b_len == b@.len(),
            a_len == b_len,
            i <= a_len,
            forall|k: int| 0 <= k < i ==> lower_code(a@[k]) == #[trigger] lower_code(b@[k]),
        decreases a_len - i,
    {
        let ac = a.get_char(i);
        let bc = b.get_char(i);
        if lower_code_of(ac) != lower_code_of(bc) {
            assert(lower_seq(a@)[i as int] != lower_seq(b@)[i as int]);
            return false;
        }
        i += 1;
    }
    assert(lower_seq(a@) =~= lower_seq(b@));
    true
}

/// Exact equality of two strings, character for character.
pub fn eq_str(a: &str, b: &str) -> (r: bool)
    ensures
        r == (a@ == b@),
{
    let a_len = a.unicode_len();
    let b_len = b.unicode_len();
    if a_len != b_len {
        return false;
    }
    let mut i: usize = 0;
    while i < a_len
        invariant
            a_len == a@.len(),
            b_len == b@.len(),
            a_len == b_len,
            i <= a_len,
            forall|k: int| 0 <= k < i ==> a@[k] == #[trigger] b@[k],
        decreases a_len - i,
    {
        let ac = a.get_char(i);
        let bc = b.get_char(i);
        if ac != bc {
            return false;
        }
        i += 1;
    }
    proof {
        assert(a@ =~= b@);
    }
    true
}

/// Does `n` occur in `h` at position `i`, character for character?
fn matches_cs_at_exec(h: &str, n: &str, i: usize, h_len: usize, n_len: usize) -> (r: bool)
    requires
        h_len == h@.len(),
        n_len == n@.len(),
        i + n_len <= h_len,
    ensures
        r == matches_cs_at(h@, n@, i as int),
{
    let mut j: usize = 0;
    while j < n_len
        invariant
            j <= n_len,
            h_len == h@.len(),
            n_len == n@.len(),
            i + n_len <= h_len,
            forall|k: int| 0 <= k < j ==> h@[i + k] == #[trigger] n@[k],
        decreases n_len - j,
    {
        let hc = h.get_char(i + j);
        let nc = n.get_char(j);
        if hc != nc {
            return false;
        }
        j += 1;
    }
    true
}

/// Case-sensitive substring test: does `needle` occur in `haystack`?
pub fn contains_str(haystack: &str, needle: &str) -> (r: bool)
    ensures
        r == contains_cs(haystack@, needle@),
{
    let h_len = haystack.unicode_len();
    let n_len = needle.unicode_len();
    if n_len > h_len {
        assert(forall|i: int| !matches_cs_at(haystack@, needle@, i));
        return false;
    }
    if n_len == 0 {
        assert(matches_cs_at(haystack@, needle@, 0));
        return true;
    }
    let mut i: usize = 0;
    while i <= h_len - n_len
        invariant
            h_len == haystack@.len(),
            n_len == needle@.len(),
            1 <= n_len <= h_len,
            i <= h_len - n_len + 1,
            forall|k: int| 0 <= k < i ==> !matches_cs_at(haystack@, needle@, k),
        decreases h_len - i,
    {
        if matches_cs_at_exec(haystack, needle, i, h_len, n_len) {
            return true;
        }
        i += 1;
    }
    assert(forall|k: int| !matches_cs_at(haystack@, needle@, k));
    false
}

/// The views of a sequence of strings.
pub open spec fn strings_view(s: Seq<String>) -> Seq<Seq<char>> {
    s.map_values(|x: String| x@)
}

/// The decimal digit character for `d`.
pub open spec fn digit_char(d: int) -> char {
    if d == 0 {
        '0'
    } else if d == 1 {
        '1'
    } else if d == 2 {
        '2'
    } else if d == 3 {
        '3'
    } else if d == 4 {
        '4'
    } else if d == 5 {
        '5'
    } else if d == 6 {
        '6'
    } else if d == 7 {
        '7'
    } else if d == 8 {
        '8'
    } else {
        '9'
    }
}

/// Decimal rendering of a non-negative integer, most significant digit first.
pub open spec fn dec_str(n: int) -> Seq<char>
    decreases n,
{
    if n < 10 {
        seq![digit_char(n)]
    } else {
        dec_str(n / 10) + seq![digit_char(n % 10)]
    }
}

/// Append the digit character for `d` to `s`.
fn push_digit(s: &mut String, d: u64)
    requires
        d < 10,
    ensures
        final(s)@ == old(s)@ + seq![digit_char(d as int)],
{
    proof {
        reveal_strlit("0");
        reveal_strlit("1");
        reveal_strlit("2");
        reveal_strlit("3");
        reveal_strlit("4");
        reveal_strlit("5");
        reveal_strlit("6");
        reveal_strlit("7");
        reveal_strlit("8");
        reveal_strlit("9");
    }
    match d {
        0 => s.append("0"),
        1 => s.append("1"),
        2 => s.append("2"),
        3 => s.append("3"),
        4 => s.append("4"),
        5 => s.append("5"),
        6 => s.append("6"),
        7 => s.append("7"),
        8 => s.append("8"),
        _ => s.append("9"),
    }
    proof {
        assert(final(s)@ =~= old(s)@ + seq![digit_char(d as int)]);
    }
}

/// Render `n` in decimal.
pub fn u64_to_string(n: u64) -> (r: String)
    ensures
        r@ == dec_str(n as int),
    decreases n,
{
    if n < 10 {
        let mut s = String::new();
        push_digit(&mut s, n);
        proof {
            assert(s@ =~= dec_str(n as int));
        }
        s
    } else {
        let mut s = u64_to_string(n / 10);
        push_digit(&mut s, n % 10);
        s
    }
}

} // verus!
