//! Small verified helpers over strings: prefix tests and whitespace scans.

use vstd::prelude::*;
use vstd::string::{StrSliceExecFns, StringExecFns};

use crate::command::lemma_vec_push_deep_view;

verus! {

broadcast use vstd::seq::group_seq_axioms;

/// `p` is a prefix of `s`.
pub open spec fn spec_starts_with(s: Seq<char>, p: Seq<char>) -> bool {
    p.len() <= s.len() && s.subrange(0, p.len() as int) == p
}

/// The characters that `char::is_whitespace` accepts.
pub open spec fn is_space_char(c: char) -> bool {
    ||| c == ' '
    ||| c == '\t'
    ||| c == '\n'
    ||| c == '\r'
    ||| c as u32 == 0x0B
    ||| c as u32 == 0x0C
    ||| c as u32 == 0x85
    ||| c as u32 == 0xA0
    ||| c as u32 == 0x1680
    ||| (0x2000 <= c as u32 && c as u32 <= 0x200A)
    ||| c as u32 == 0x2028
    ||| c as u32 == 0x2029
    ||| c as u32 == 0x202F
    ||| c as u32 == 0x205F
    ||| c as u32 == 0x3000
}

/// Some character of `s` is whitespace.
pub open spec fn has_space(s: Seq<char>) -> bool {
    exists|i: int| 0 <= i < s.len() && is_space_char(s[i])
}

/// Whether `c` is a whitespace character.
pub fn char_is_space(c: char) -> (r: bool)
    ensures
        r == is_space_char(c),
{
    let u = c as u32;
    u == 0x20 || u == 0x09 || u == 0x0A || u == 0x0D || u == 0x0B || u == 0x0C || u == 0x85
        || u == 0xA0 || u == 0x1680 || (0x2000 <= u && u <= 0x200A) || u == 0x2028 || u == 0x2029
        || u == 0x202F || u == 0x205F || u == 0x3000
}

/// Whether any character of `s` is whitespace.
pub fn contains_space(s: &str) -> (r: bool)
    ensures
        r == has_space(s@),
{
    let n = s.unicode_len();
    let mut i: usize = 0;
    while i < n
        invariant
            i <= n,
            n == s@.len(),
            forall|j: int| 0 <= j < i ==> !is_space_char(s@[j]),
        decreases n - i,
    {
        if char_is_space(s.get_char(i)) {
            return true;
        }
        i += 1;
    }
    false
}

/// Whether `s` and `t` hold the same characters.
pub fn str_eq(s: &str, t: &str) -> (r: bool)
    ensures
        r == (s@ == t@),
{
    let n = s.unicode_len();
    if n != t.unicode_len() {
        return false;
    }
    let mut i: usize = 0;
    while i < n
        invariant
            i <= n,
            n == s@.len(),
            n == t@.len(),
            forall|j: int| 0 <= j < i ==> s@[j] == t@[j],
        decreases n - i,
    {
        if s.get_char(i) != t.get_char(i) {
            return false;
        }
        i += 1;
    }
    proof {
        assert(s@ =~= t@);
    }
    true
}

/// Whether `s` starts with `p`.
pub fn starts_with(s: &str, p: &str) -> (r: bool)
    ensures
        r == spec_starts_with(s@, p@),
{
    let plen = p.unicode_len();
    let slen = s.unicode_len();
    if plen > slen {
        return false;
    }
    let mut i: usize = 0;
    while i < plen
        invariant
            i <= plen,
            plen <= slen,
            plen == p@.len(),
            slen == s@.len(),
            forall|j: int| 0 <= j < i ==> s@[j] == p@[j],
        decreases plen - i,
    {
        if s.get_char(i) != p.get_char(i) {
            proof {
                assert(s@.subrange(0, p@.len() as int)[i as int] == s@[i as int]);
            }
            return false;
        }
        i += 1;
    }
    proof {
        assert(s@.subrange(0, p@.len() as int) =~= p@);
    }
    true
}


/// Where `sep` first occurs in `s`, or -1.
pub open spec fn find_char(s: Seq<char>, sep: char) -> int
    decreases s.len(),
{
    if s.len() == 0 {
        -1
    } else if s[0] == sep {
        0
    } else {
        let r = find_char(s.skip(1), sep);
        if r == -1 {
            -1
        } else {
            r + 1
        }
    }
}

/// A sequence without `sep` finds nothing.
proof fn lemma_find_char_none(s: Seq<char>, sep: char)
    requires
        forall|x: int| 0 <= x < s.len() ==> s[x] != sep,
    ensures
        find_char(s, sep) == -1,
    decreases s.len(),
{
    if s.len() > 0 {
        assert(forall|x: int| 0 <= x < s.skip(1).len() ==> s.skip(1)[x] == s[x + 1]);
        lemma_find_char_none(s.skip(1), sep);
    }
}

/// The first occurrence of `sep` is found.
proof fn lemma_find_char_at(s: Seq<char>, sep: char, m: int)
    requires
        0 <= m < s.len(),
        s[m] == sep,
        forall|x: int| 0 <= x < m ==> s[x] != sep,
    ensures
        find_char(s, sep) == m,
    decreases m,
{
    if m > 0 {
        assert(forall|x: int| 0 <= x < s.skip(1).len() ==> s.skip(1)[x] == s[x + 1]);
        lemma_find_char_at(s.skip(1), sep, m - 1);
    }
}

/// `s` split at every `sep`, separators dropped; an empty input gives one
/// empty segment, as `str::split` does.
pub open spec fn spec_split(s: Seq<char>, sep: char) -> Seq<Seq<char>>
    decreases s.len(),
{
    let i = find_char(s, sep);
    if i < 0 || i >= s.len() {
        seq![s]
    } else {
        seq![s.take(i)] + spec_split(s.skip(i + 1), sep)
    }
}

/// Split `s` at every occurrence of `sep`.
pub fn split_char(s: &str, sep: char) -> (r: Vec<String>)
    ensures
        r.deep_view() == spec_split(s@, sep),
{
    let n = s.unicode_len();
    let mut out: Vec<String> = Vec::new();
    let mut start: usize = 0;
    let mut j: usize = 0;
    proof {
        assert(s@.skip(0) =~= s@);
        assert(out.deep_view() =~= Seq::<Seq<char>>::empty());
    }
    while j < n
        invariant
            start <= j <= n,
            n == s@.len(),
            out.deep_view() + spec_split(s@.skip(start as int), sep) =~= spec_split(s@, sep),
            forall|x: int| start <= x < j ==> s@[x] != sep,
        decreases n - j,
    {
        if s.get_char(j) == sep {
            let seg = s.substring_char(start, j);
            let seg_owned = String::from_str(seg);
            proof {
                let rest = s@.skip(start as int);
                assert(forall|x: int| 0 <= x < rest.len() ==> rest[x] == s@[x + start]);
                lemma_find_char_at(rest, sep, j - start);
                assert(rest.take(j - start) =~= s@.subrange(start as int, j as int));
                assert(rest.skip(j - start + 1) =~= s@.skip(j + 1));
            }
            let ghost pre = out;
            out.push(seg_owned);
            proof {
                lemma_vec_push_deep_view(pre, out, seg_owned);
                assert(out.deep_view() + spec_split(s@.skip(j + 1), sep) =~= spec_split(s@, sep));
            }
            start = j + 1;
        }
        j += 1;
    }
    let seg = s.substring_char(start, n);
    let seg_owned = String::from_str(seg);
    proof {
        let rest = s@.skip(start as int);
        assert(forall|x: int| 0 <= x < rest.len() ==> rest[x] == s@[x + start]);
        lemma_find_char_none(rest, sep);
        assert(seg_owned@ =~= rest);
    }
    let ghost pre = out;
    out.push(seg_owned);
    proof {
        lemma_vec_push_deep_view(pre, out, seg_owned);
        assert(out.deep_view() =~= spec_split(s@, sep));
    }
    out
}

/// How many whitespace characters `s` begins with.
pub open spec fn leading_spaces(s: Seq<char>) -> nat
    decreases s.len(),
{
    if s.len() == 0 {
        0
    } else if is_space_char(s[0]) {
        1 + leading_spaces(s.skip(1))
    } else {
        0
    }
}

/// How many whitespace characters `s` ends with.
pub open spec fn trailing_spaces(s: Seq<char>) -> nat
    decreases s.len(),
{
    if s.len() == 0 {
        0
    } else if is_space_char(s.last()) {
        1 + trailing_spaces(s.drop_last())
    } else {
        0
    }
}

/// `s` without leading and trailing whitespace.
pub open spec fn spec_trim(s: Seq<char>) -> Seq<char> {
    let a = leading_spaces(s);
    let b = trailing_spaces(s);
    if a + b >= s.len() {
        Seq::empty()
    } else {
        s.subrange(a as int, s.len() - b)
    }
}

/// The leading-space count is where the first non-space stands.
proof fn lemma_leading_spaces(s: Seq<char>, a: int)
    requires
        0 <= a <= s.len(),
        forall|x: int| 0 <= x < a ==> is_space_char(s[x]),
        a == s.len() || !is_space_char(s[a]),
    ensures
        leading_spaces(s) == a,
    decreases a,
{
    if a > 0 {
        assert(forall|x: int| 0 <= x < s.skip(1).len() ==> s.skip(1)[x] == s[x + 1]);
        lemma_leading_spaces(s.skip(1), a - 1);
    }
}

/// The trailing-space count is what stands after the last non-space.
proof fn lemma_trailing_spaces(s: Seq<char>, b: int)
    requires
        0 <= b <= s.len(),
        forall|x: int| b <= x < s.len() ==> is_space_char(s[x]),
        b == 0 || !is_space_char(s[b - 1]),
    ensures
        trailing_spaces(s) == s.len() - b,
    decreases s.len(),
{
    if b < s.len() {
        assert(is_space_char(s.last()));
        assert(forall|x: int| b <= x < s.drop_last().len() ==> s.drop_last()[x] == s[x]);
        lemma_trailing_spaces(s.drop_last(), b);
    }
}

/// `s` with leading and trailing whitespace removed.
pub fn trim_str<'a>(s: &'a str) -> (r: &'a str)
    ensures
        r@ == spec_trim(s@),
{
    let n = s.unicode_len();
    let mut a: usize = 0;
    while a < n && char_is_space(s.get_char(a))
        invariant
            a <= n,
            n == s@.len(),
            forall|x: int| 0 <= x < a ==> is_space_char(s@[x]),
        decreases n - a,
    {
        a += 1;
    }
    proof {
        lemma_leading_spaces(s@, a as int);
    }
    if a == n {
        proof {
            reveal_strlit("");
        }
        return "";
    }
    let mut b: usize = n;
    while b > a && char_is_space(s.get_char(b - 1))
        invariant
            a <= b <= n,
            n == s@.len(),
            forall|x: int| b <= x < n ==> is_space_char(s@[x]),
        decreases b,
    {
        b -= 1;
    }
    proof {
        assert(!is_space_char(s@[a as int]));
        assert(b > a);
        assert(!is_space_char(s@[b - 1]));
        lemma_trailing_spaces(s@, b as int);
    }
    s.substring_char(a, b)
}

/// `n` occurs somewhere in `s`.
pub open spec fn spec_contains(s: Seq<char>, n: Seq<char>) -> bool {
    exists|i: int| 0 <= i <= s.len() - n.len() && #[trigger] s.subrange(i, i + n.len()) == n
}

/// Whether `needle` occurs somewhere in `s`.
pub fn contains_str(s: &str, needle: &str) -> (r: bool)
    ensures
        r == spec_contains(s@, needle@),
{
    let n = s.unicode_len();
    let m = needle.unicode_len();
    if m > n {
        return false;
    }
    if m == 0 {
        proof {
            assert(s@.subrange(0, 0 + needle@.len() as int) =~= needle@);
        }
        return true;
    }
    let mut i: usize = 0;
    while i <= n - m
        invariant
            1 <= m <= n,
            n == s@.len(),
            m == needle@.len(),
            i <= n - m + 1,
            forall|x: int| 0 <= x < i ==> #[trigger] s@.subrange(x, x + needle@.len()) != needle@,
        decreases n - m + 1 - i,
    {
        if str_eq(s.substring_char(i, i + m), needle) {
            return true;
        }
        i += 1;
    }
    false
}


/// Owned copies of borrowed strings, in order.
pub fn owned_strings(v: Vec<&str>) -> (r: Vec<String>)
    ensures
        r.deep_view() == v.deep_view(),
{
    let mut out: Vec<String> = Vec::new();
    let mut i: usize = 0;
    proof {
        assert(out.deep_view() =~= v.deep_view().take(0));
    }
    while i < v.len()
        invariant
            i <= v.len(),
            out.deep_view() =~= v.deep_view().take(i as int),
        decreases v.len() - i,
    {
        let e = String::from_str(v[i]);
        let ghost pre = out;
        out.push(e);
        proof {
            lemma_vec_push_deep_view(pre, out, e);
            assert(out.deep_view() =~= v.deep_view().take(i + 1));
        }
        i += 1;
    }
    proof {
        assert(v.deep_view().take(v.len() as int) =~= v.deep_view());
    }
    out
}


/// `p` is a suffix of `s`.
pub open spec fn spec_ends_with(s: Seq<char>, p: Seq<char>) -> bool {
    p.len() <= s.len() && s.subrange(s.len() - p.len(), s.len() as int) == p
}

/// Whether `s` ends with `p`.
pub fn ends_with(s: &str, p: &str) -> (r: bool)
    ensures
        r == spec_ends_with(s@, p@),
{
    let n = s.unicode_len();
    let m = p.unicode_len();
    if m > n {
        return false;
    }
    let r = str_eq(s.substring_char(n - m, n), p);
    proof {
        assert(s@.subrange(n - m, n as int) == s@.subrange(s@.len() - p@.len(), s@.len() as int));
    }
    r
}

/// `s` without trailing whitespace.
pub open spec fn spec_trim_end(s: Seq<char>) -> Seq<char> {
    s.take(s.len() - trailing_spaces(s))
}

/// Strip trailing whitespace from `s`.
pub fn trim_end_str<'a>(s: &'a str) -> (r: &'a str)
    ensures
        r@ == spec_trim_end(s@),
{
    let n = s.unicode_len();
    let mut b: usize = n;
    while b > 0 && char_is_space(s.get_char(b - 1))
        invariant
            b <= n,
            n == s@.len(),
            forall|x: int| b <= x < n ==> is_space_char(s@[x]),
        decreases b,
    {
        b -= 1;
    }
    proof {
        lemma_trailing_spaces(s@, b as int);
    }
    s.substring_char(0, b)
}

/// The first of `lines` in which `needle` occurs, if any.
pub open spec fn first_line_with(lines: Seq<Seq<char>>, needle: Seq<char>) -> Option<Seq<char>>
    decreases lines.len(),
{
    if lines.len() == 0 {
        None
    } else if spec_contains(lines[0], needle) {
        Some(lines[0])
    } else {
        first_line_with(lines.skip(1), needle)
    }
}

/// Lines that do not hold the needle do not change the search.
pub proof fn lemma_first_line_skip(lines: Seq<Seq<char>>, needle: Seq<char>, i: int)
    requires
        0 <= i <= lines.len(),
        forall|j: int| 0 <= j < i ==> !spec_contains(#[trigger] lines[j], needle),
    ensures
        first_line_with(lines, needle) == first_line_with(lines.skip(i), needle),
    decreases i,
{
    if i > 0 {
        assert(forall|j: int|
            0 <= j < i - 1 ==> !spec_contains(#[trigger] lines.skip(1)[j], needle)) by {
            assert(forall|j: int| 0 <= j < i - 1 ==> lines.skip(1)[j] == lines[j + 1]);
        }
        lemma_first_line_skip(lines.skip(1), needle, i - 1);
        assert(lines.skip(1).skip(i - 1) =~= lines.skip(i));
    } else {
        assert(lines.skip(0) =~= lines);
    }
}


/// Where the first whitespace character of `s` stands, or -1.
pub open spec fn find_space(s: Seq<char>) -> int
    decreases s.len(),
{
    if s.len() == 0 {
        -1
    } else if is_space_char(s[0]) {
        0
    } else {
        let r = find_space(s.skip(1));
        if r == -1 {
            -1
        } else {
            r + 1
        }
    }
}

/// A sequence without whitespace finds nothing.
proof fn lemma_find_space_none(s: Seq<char>)
    requires
        forall|x: int| 0 <= x < s.len() ==> !is_space_char(s[x]),
    ensures
        find_space(s) == -1,
    decreases s.len(),
{
    if s.len() > 0 {
        assert(forall|x: int| 0 <= x < s.skip(1).len() ==> s.skip(1)[x] == s[x + 1]);
        lemma_find_space_none(s.skip(1));
    }
}

/// The first whitespace character is found.
proof fn lemma_find_space_at(s: Seq<char>, m: int)
    requires
        0 <= m < s.len(),
        is_space_char(s[m]),
        forall|x: int| 0 <= x < m ==> !is_space_char(s[x]),
    ensures
        find_space(s) == m,
    decreases m,
{
    if m > 0 {
        assert(forall|x: int| 0 <= x < s.skip(1).len() ==> s.skip(1)[x] == s[x + 1]);
        lemma_find_space_at(s.skip(1), m - 1);
    }
}

/// The whitespace-separated tokens of `s`, in order, separators dropped.
pub open spec fn spec_tokens(s: Seq<char>) -> Seq<Seq<char>>
    decreases s.len(),
{
    if s.len() == 0 {
        Seq::empty()
    } else if is_space_char(s[0]) {
        spec_tokens(s.skip(1))
    } else {
        let t = find_space(s);
        if t < 1 || t > s.len() {
            seq![s]
        } else {
            seq![s.take(t)] + spec_tokens(s.skip(t))
        }
    }
}

/// Split `s` into its whitespace-separated tokens.
pub fn tokens(s: &str) -> (r: Vec<String>)
    ensures
        r.deep_view() == spec_tokens(s@),
{
    let n = s.unicode_len();
    let mut out: Vec<String> = Vec::new();
    let mut i: usize = 0;
    proof {
        assert(s@.skip(0) =~= s@);
        assert(out.deep_view() =~= Seq::<Seq<char>>::empty());
    }
    while i < n
        invariant
            i <= n,
            n == s@.len(),
            out.deep_view() + spec_tokens(s@.skip(i as int)) =~= spec_tokens(s@),
        decreases n - i,
    {
        if char_is_space(s.get_char(i)) {
            proof {
                assert(s@.skip(i as int)[0] == s@[i as int]);
                assert(s@.skip(i as int).skip(1) =~= s@.skip(i + 1));
            }
            i += 1;
        } else {
            let start = i;
            let mut j = i + 1;
            while j < n && !char_is_space(s.get_char(j))
                invariant
                    start < j <= n,
                    n == s@.len(),
                    forall|x: int| start <= x < j ==> !is_space_char(s@[x]),
                decreases n - j,
            {
                j += 1;
            }
            let seg = s.substring_char(start, j);
            let seg_owned = String::from_str(seg);
            proof {
                let rest = s@.skip(start as int);
                assert(forall|x: int| 0 <= x < rest.len() ==> rest[x] == s@[x + start]);
                if j < n {
                    lemma_find_space_at(rest, j - start);
                } else {
                    lemma_find_space_none(rest);
                    assert(rest.take(rest.len() as int) =~= rest);
                }
                assert(rest.take(j - start) =~= s@.subrange(start as int, j as int));
                assert(rest.skip(j - start) =~= s@.skip(j as int));
            }
            let ghost pre = out;
            out.push(seg_owned);
            proof {
                lemma_vec_push_deep_view(pre, out, seg_owned);
                assert(out.deep_view() + spec_tokens(s@.skip(j as int)) =~= spec_tokens(s@));
            }
            i = j;
        }
    }
    proof {
        assert(s@.skip(n as int).len() == 0);
        assert(out.deep_view() =~= spec_tokens(s@));
    }
    out
}

/// How many copies of `c` the sequence begins with.
pub open spec fn leading_char(s: Seq<char>, c: char) -> nat
    decreases s.len(),
{
    if s.len() == 0 {
        0
    } else if s[0] == c {
        1 + leading_char(s.skip(1), c)
    } else {
        0
    }
}

/// How many copies of `c` the sequence ends with.
pub open spec fn trailing_char(s: Seq<char>, c: char) -> nat
    decreases s.len(),
{
    if s.len() == 0 {
        0
    } else if s.last() == c {
        1 + trailing_char(s.drop_last(), c)
    } else {
        0
    }
}

/// `s` without leading and trailing copies of `c`.
pub open spec fn spec_trim_char(s: Seq<char>, c: char) -> Seq<char> {
    let a = leading_char(s, c);
    let b = trailing_char(s, c);
    if a + b >= s.len() {
        Seq::empty()
    } else {
        s.subrange(a as int, s.len() - b)
    }
}

/// The leading count of `c` is where the first other character stands.
proof fn lemma_leading_char(s: Seq<char>, c: char, a: int)
    requires
        0 <= a <= s.len(),
        forall|x: int| 0 <= x < a ==> s[x] == c,
        a == s.len() || s[a] != c,
    ensures
        leading_char(s, c) == a,
    decreases a,
{
    if a > 0 {
        assert(forall|x: int| 0 <= x < s.skip(1).len() ==> s.skip(1)[x] == s[x + 1]);
        lemma_leading_char(s.skip(1), c, a - 1);
    }
}

/// The trailing count of `c` is what stands after the last other character.
proof fn lemma_trailing_char(s: Seq<char>, c: char, b: int)
    requires
        0 <= b <= s.len(),
        forall|x: int| b <= x < s.len() ==> s[x] == c,
        b == 0 || s[b - 1] != c,
    ensures
        trailing_char(s, c) == s.len() - b,
    decreases s.len(),
{
    if b < s.len() {
        assert(s.last() == c);
        assert(forall|x: int| b <= x < s.drop_last().len() ==> s.drop_last()[x] == s[x]);
        lemma_trailing_char(s.drop_last(), c, b);
    }
}

/// `s` with leading and trailing copies of `c` removed.
pub fn trim_char_str<'a>(s: &'a str, c: char) -> (r: &'a str)
    ensures
        r@ == spec_trim_char(s@, c),
{
    let n = s.unicode_len();
    let mut a: usize = 0;
    while a < n && s.get_char(a) == c
        invariant
            a <= n,
            n == s@.len(),
            forall|x: int| 0 <= x < a ==> s@[x] == c,
        decreases n - a,
    {
        a += 1;
    }
    proof {
        lemma_leading_char(s@, c, a as int);
    }
    if a == n {
        proof {
            reveal_strlit("");
        }
        return "";
    }
    let mut b: usize = n;
    while b > a && s.get_char(b - 1) == c
        invariant
            a <= b <= n,
            n == s@.len(),
            forall|x: int| b <= x < n ==> s@[x] == c,
        decreases b,
    {
        b -= 1;
    }
    proof {
        assert(s@[a as int] != c);
        assert(b > a);
        assert(s@[b - 1] != c);
        lemma_trailing_char(s@, c, b as int);
    }
    s.substring_char(a, b)
}

} // verus!
