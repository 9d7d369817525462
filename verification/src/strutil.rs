//! Verified helpers for the string handling the configuration and
//! path layers need: ASCII case folding, character appends, and
//! content-based membership in string lists.

use vstd::prelude::*;

verus! {

/// Relies on std's `String::push`: appends exactly the one character
/// to the end of the string.
#[verifier::external_body]
pub(crate) fn push_char(s: &mut String, c: char)
    ensures
        final (s)@ == old(s)@.push(c),
{
    s.push(c);
}

/// ASCII lower-casing of one character; everything but `A`..`Z` is
/// left alone.
pub open spec fn spec_lower_char(c: char) -> char {
    if 65 <= c as u32 && c as u32 <= 90 {
        (((c as u32) + 32) as u8) as char
    } else {
        c
    }
}

/// ASCII upper-casing of one character; everything but `a`..`z` is
/// left alone.
pub open spec fn spec_upper_char(c: char) -> char {
    if 97 <= c as u32 && c as u32 <= 122 {
        (((c as u32) - 32) as u8) as char
    } else {
        c
    }
}

pub fn lower_char(c: char) -> (r: char)
    ensures
        r == spec_lower_char(c),
{
    let u = c as u32;
    if 65 <= u && u <= 90 {
        ((u + 32) as u8) as char
    } else {
        c
    }
}

pub fn upper_char(c: char) -> (r: char)
    ensures
        r == spec_upper_char(c),
{
    let u = c as u32;
    if 97 <= u && u <= 122 {
        ((u - 32) as u8) as char
    } else {
        c
    }
}

/// The whole string lower-cased, character by character.
pub open spec fn spec_lower(s: Seq<char>) -> Seq<char> {
    s.map_values(|c: char| spec_lower_char(c))
}

/// ASCII lower-casing of a whole string.
pub fn to_ascii_lowercase(s: &str) -> (r: String)
    ensures
        r@ == spec_lower(s@),
{
    let n = s.unicode_len();
    let mut out = String::new();
    let mut i: usize = 0;
    proof {
        assert(out@ =~= spec_lower(s@.subrange(0, 0)));
    }
    while i < n
        invariant
            0 <= i <= n,
            n == s@.len(),
            out@ == spec_lower(s@.subrange(0, i as int)),
        decreases n - i,
    {
        let c = s.get_char(i);
        push_char(&mut out, lower_char(c));
        proof {
            assert(s@.subrange(0, i + 1) =~= s@.subrange(0, i as int).push(c));
            assert(spec_lower(s@.subrange(0, i + 1)) =~= spec_lower(
                s@.subrange(0, i as int),
            ).push(spec_lower_char(c)));
        }
        i = i + 1;
    }
    proof {
        assert(s@.subrange(0, n as int) =~= s@);
    }
    out
}

/// The string with its first character ASCII upper-cased; the empty
/// string stays empty.
pub open spec fn spec_capitalize_first(s: Seq<char>) -> Seq<char> {
    if s.len() == 0 {
        s
    } else {
        seq![spec_upper_char(s[0])] + s.subrange(1, s.len() as int)
    }
}

/// Whether some entry of `l` has exactly the characters of `x`.
pub fn contains_string(l: &Vec<String>, x: &str) -> (r: bool)
    ensures
        r <==> (exists|i: int| 0 <= i < l@.len() && (#[trigger] l@[i])@ == x@),
{
    let mut i: usize = 0;
    while i < l.len()
        invariant
            0 <= i <= l@.len(),
            forall|j: int| 0 <= j < i ==> (#[trigger] l@[j])@ != x@,
        decreases l@.len() - i,
    {
        if string_eq_str(&l[i], x) {
            return true;
        }
        i = i + 1;
    }
    false
}

/// Character-for-character equality of a `String` and a `&str`.
pub fn string_eq_str(a: &String, b: &str) -> (r: bool)
    ensures
        r <==> a@ == b@,
{
    str_eq(a.as_str(), b)
}

/// Character-for-character equality of two string slices.
pub fn str_eq(a: &str, b: &str) -> (r: bool)
    ensures
        r <==> a@ == b@,
{
    let n = a.unicode_len();
    if n != b.unicode_len() {
        return false;
    }
    let mut i: usize = 0;
    while i < n
        invariant
            0 <= i <= n,
            n == a@.len(),
            n == b@.len(),
            forall|j: int| 0 <= j < i ==> a@[j] == b@[j],
        decreases n - i,
    {
        if a.get_char(i) != b.get_char(i) {
            return false;
        }
        i = i + 1;
    }
    proof {
        assert(a@ =~= b@);
    }
    true
}

/// Whether `s` ends in the characters of `suffix`.
pub open spec fn spec_ends_with(s: Seq<char>, suffix: Seq<char>) -> bool {
    suffix.len() <= s.len() && s.subrange(s.len() - suffix.len(), s.len() as int) == suffix
}

/// Whether `s` has `needle` as a contiguous part.
pub open spec fn spec_contains_str(s: Seq<char>, needle: Seq<char>) -> bool {
    exists|i: int|
        0 <= i <= s.len() - needle.len() && #[trigger] s.subrange(i, i + needle.len())
            == needle
}

/// Whether the characters of `s` starting at `at` spell `needle`.
fn matches_at(s: &str, n: usize, needle: &str, m: usize, at: usize) -> (r: bool)
    requires
        n == s@.len(),
        m == needle@.len(),
        at + m <= n,
    ensures
        r <==> s@.subrange(at as int, at + m) == needle@,
{
    let mut j: usize = 0;
    while j < m
        invariant
            0 <= j <= m,
            n == s@.len(),
            m == needle@.len(),
            at + m <= n,
            forall|k: int| 0 <= k < j ==> s@[at + k] == needle@[k],
        decreases m - j,
    {
        if s.get_char(at + j) != needle.get_char(j) {
            assert(s@.subrange(at as int, at + m)[j as int] != needle@[j as int]);
            return false;
        }
        j = j + 1;
    }
    proof {
        assert(s@.subrange(at as int, at + m) =~= needle@);
    }
    true
}

/// Whether `s` ends in `suffix`.
pub fn ends_with_str(s: &str, suffix: &str) -> (r: bool)
    ensures
        r == spec_ends_with(s@, suffix@),
{
    let n = s.unicode_len();
    let m = suffix.unicode_len();
    if m > n {
        return false;
    }
    matches_at(s, n, suffix, m, n - m)
}

/// Whether `s` starts with the character `c`.
pub fn starts_with_char(s: &str, c: char) -> (r: bool)
    ensures
        r == (s@.len() > 0 && s@[0] == c),
{
    let n = s.unicode_len();
    if n == 0 {
        return false;
    }
    s.get_char(0) == c
}

/// Whether `needle` occurs contiguously anywhere in `s`.
pub fn contains_str(s: &str, needle: &str) -> (r: bool)
    ensures
        r == spec_contains_str(s@, needle@),
{
    let n = s.unicode_len();
    let m = needle.unicode_len();
    if m > n {
        return false;
    }
    if m == 0 {
        proof {
            assert(s@.subrange(0, 0 + needle@.len() as int) =~= needle@);
        }
        return true;
    }
    let end = n - m;
    let mut i: usize = 0;
    while i <= end
        invariant
            0 <= i <= end + 1,
            end == n - m,
            0 < m <= n,
            n == s@.len(),
            m == needle@.len(),
            forall|k: int|
                0 <= k < i ==> #[trigger] s@.subrange(k, k + m as int) != needle@,
        decreases end + 1 - i,
    {
        if matches_at(s, n, needle, m, i) {
            return true;
        }
        i = i + 1;
    }
    false
}

/// The position of the first occurrence of `c` in `s`, if any.
pub fn find_char(s: &str, c: char) -> (r: Option<usize>)
    ensures
        r matches Some(i) ==> i < s@.len() && s@[i as int] == c && (forall|j: int|
            0 <= j < i ==> s@[j] != c),
        r is None ==> forall|j: int| 0 <= j < s@.len() ==> s@[j] != c,
{
    let n = s.unicode_len();
    let mut i: usize = 0;
    while i < n
        invariant
            0 <= i <= n,
            n == s@.len(),
            forall|j: int| 0 <= j < i ==> s@[j] != c,
        decreases n - i,
    {
        if s.get_char(i) == c {
            return Some(i);
        }
        i = i + 1;
    }
    None
}

/// The entries of a string list whose characters differ from `x`, in
/// their original order.
pub open spec fn spec_remove_string(l: Seq<Seq<char>>, x: Seq<char>) -> Seq<Seq<char>> {
    l.filter(|s: Seq<char>| s != x)
}

/// The entries of `l` whose characters differ from `x`, in order.
pub fn remove_matching_string(l: &Vec<String>, x: &str) -> (r: Vec<String>)
    ensures
        r.deep_view() == spec_remove_string(l.deep_view(), x@),
{
    let ghost pred = |s: Seq<char>| s != x@;
    let mut kept: Vec<String> = Vec::new();
    let mut i: usize = 0;
    proof {
        reveal(Seq::filter);
        assert(kept.deep_view() =~= l.deep_view().subrange(0, 0).filter(pred));
    }
    while i < l.len()
        invariant
            0 <= i <= l@.len(),
            l.deep_view().len() == l@.len(),
            forall|j: int|
                0 <= j < l@.len() ==> l.deep_view()[j] == (#[trigger] l@[j])@,
            kept.deep_view() == l.deep_view().subrange(0, i as int).filter(pred),
            pred == (|s: Seq<char>| s != x@),
        decreases l@.len() - i,
    {
        let ghost prefix = l.deep_view().subrange(0, i as int);
        let ghost next = l.deep_view().subrange(0, i + 1);
        proof {
            reveal(Seq::filter);
            assert(next.drop_last() =~= prefix);
            assert(next.last() == l@[i as int]@);
            assert(next.filter(pred) == if pred(l@[i as int]@) {
                prefix.filter(pred).push(l@[i as int]@)
            } else {
                prefix.filter(pred)
            });
        }
        if !string_eq_str(&l[i], x) {
            let ghost kept_before = kept.deep_view();
            kept.push(l[i].clone());
            proof {
                assert(kept.deep_view() =~= kept_before.push(l@[i as int]@));
            }
        }
        i = i + 1;
    }
    proof {
        assert(l.deep_view().subrange(0, l@.len() as int) =~= l.deep_view());
    }
    kept
}

} // verus!
