//! Byte-string helpers shared by the ingestion pipeline and the orchestrators.
//!
//! Content, filenames, branch names and tool output are all modelled as byte
//! strings (`Vec<u8>` with a `Seq<u8>` view).

use vstd::prelude::*;

verus! {

/// First index `i >= from` with `s[i] == b`, if any.
pub open spec fn spec_find_byte(s: Seq<u8>, from: int, b: u8) -> Option<int>
    decreases s.len() - from,
{
    if from < 0 || from >= s.len() {
        None
    } else if s[from] == b {
        Some(from)
    } else {
        spec_find_byte(s, from + 1, b)
    }
}

pub proof fn lemma_find_byte_in_range(s: Seq<u8>, from: int, b: u8)
    ensures
        spec_find_byte(s, from, b) matches Some(i) ==> from <= i < s.len() && s[i] == b,
    decreases s.len() - from,
{
    if 0 <= from < s.len() && s[from] != b {
        lemma_find_byte_in_range(s, from + 1, b);
    }
}

pub fn find_byte(s: &[u8], from: usize, b: u8) -> (r: Option<usize>)
    ensures
        match r {
            Some(i) => spec_find_byte(s@, from as int, b) == Some(i as int) && from <= i < s@.len()
                && s@[i as int] == b,
            None => spec_find_byte(s@, from as int, b) is None,
        },
{
    let mut i = from;
    while i < s.len()
        invariant
            from <= i,
            spec_find_byte(s@, from as int, b) == spec_find_byte(s@, i as int, b),
        decreases s@.len() - i,
    {
        if s[i] == b {
            return Some(i);
        }
        i = i + 1;
    }
    None
}

/// `p` is a prefix of `s`.
pub open spec fn is_prefix_of(p: Seq<u8>, s: Seq<u8>) -> bool {
    p.len() <= s.len() && s.subrange(0, p.len() as int) == p
}

pub fn starts_with(s: &[u8], p: &[u8]) -> (r: bool)
    ensures
        r == is_prefix_of(p@, s@),
{
    if p.len() > s.len() {
        return false;
    }
    let mut i: usize = 0;
    while i < p.len()
        invariant
            0 <= i <= p@.len() <= s@.len(),
            forall|j: int| 0 <= j < i ==> s@[j] == p@[j],
        decreases p@.len() - i,
    {
        if s[i] != p[i] {
            assert(s@.subrange(0, p@.len() as int) != p@) by {
                assert(s@.subrange(0, p@.len() as int)[i as int] != p@[i as int]);
            }
            return false;
        }
        i = i + 1;
    }
    assert(s@.subrange(0, p@.len() as int) =~= p@);
    true
}

pub fn bytes_eq(a: &[u8], b: &[u8]) -> (r: bool)
    ensures
        r == (a@ == b@),
{
    if a.len() != b.len() {
        return false;
    }
    let mut i: usize = 0;
    while i < a.len()
        invariant
            0 <= i <= a@.len(),
            a@.len() == b@.len(),
            forall|j: int| 0 <= j < i ==> a@[j] == b@[j],
        decreases a@.len() - i,
    {
        if a[i] != b[i] {
            return false;
        }
        i = i + 1;
    }
    assert(a@ =~= b@);
    true
}

/// `p` occurs in `s` starting at `at`.
pub open spec fn occurs_at(s: Seq<u8>, p: Seq<u8>, at: int) -> bool {
    0 <= at && at + p.len() <= s.len() && s.subrange(at, at + p.len()) == p
}

pub fn matches_at(s: &[u8], p: &[u8], at: usize) -> (r: bool)
    ensures
        r == occurs_at(s@, p@, at as int),
{
    if at > s.len() || p.len() > s.len() - at {
        return false;
    }
    let mut i: usize = 0;
    while i < p.len()
        invariant
            0 <= i <= p@.len(),
            at + p@.len() <= s@.len() <= usize::MAX,
            forall|j: int| 0 <= j < i ==> s@[at + j] == p@[j],
        decreases p@.len() - i,
    {
        if s[at + i] != p[i] {
            assert(s@.subrange(at as int, at + p@.len()) != p@) by {
                assert(s@.subrange(at as int, at + p@.len())[i as int] != p@[i as int]);
            }
            return false;
        }
        i = i + 1;
    }
    assert(s@.subrange(at as int, at + p@.len()) =~= p@);
    true
}

/// `needle` occurs somewhere in `haystack`.
pub open spec fn contains_seq(haystack: Seq<u8>, needle: Seq<u8>) -> bool {
    exists|i: int| occurs_at(haystack, needle, i)
}

pub fn contains_bytes(haystack: &[u8], needle: &[u8]) -> (r: bool)
    ensures
        r == contains_seq(haystack@, needle@),
{
    if needle.len() > haystack.len() {
        assert(forall|i: int| !occurs_at(haystack@, needle@, i));
        return false;
    }
    if needle.len() == 0 {
        assert(occurs_at(haystack@, needle@, 0)) by {
            assert(haystack@.subrange(0, 0) =~= needle@);
        }
        return true;
    }
    let mut i: usize = 0;
    while i <= haystack.len() - needle.len()
        invariant
            1 <= needle@.len() <= haystack@.len(),
            0 <= i <= haystack@.len() - needle@.len() + 1,
            forall|j: int| 0 <= j < i ==> !occurs_at(haystack@, needle@, j),
        decreases haystack@.len() - i,
    {
        if matches_at(haystack, needle, i) {
            return true;
        }
        i = i + 1;
    }
    assert(forall|j: int| !occurs_at(haystack@, needle@, j));
    false
}

/// ASCII whitespace, as `git` output is trimmed by the orchestrators.
pub open spec fn is_ws(b: u8) -> bool {
    b == 32 || b == 9 || b == 10 || b == 13
}

pub fn byte_is_ws(b: u8) -> (r: bool)
    ensures
        r == is_ws(b),
{
    b == 32 || b == 9 || b == 10 || b == 13
}

/// Every byte of `s` is whitespace (in particular, `s` may be empty).
pub open spec fn is_blank(s: Seq<u8>) -> bool {
    forall|i: int| 0 <= i < s.len() ==> is_ws(s[i])
}

pub fn all_blank(s: &[u8]) -> (r: bool)
    ensures
        r == is_blank(s@),
{
    let mut i: usize = 0;
    while i < s.len()
        invariant
            0 <= i <= s@.len(),
            forall|j: int| 0 <= j < i ==> is_ws(s@[j]),
        decreases s@.len() - i,
    {
        if !byte_is_ws(s[i]) {
            return false;
        }
        i = i + 1;
    }
    true
}

/// Index of the first non-whitespace byte at or after `from`, or `s.len()`.
pub open spec fn first_non_ws(s: Seq<u8>, from: int) -> int
    decreases s.len() - from,
{
    if from < 0 || from >= s.len() {
        s.len() as int
    } else if is_ws(s[from]) {
        first_non_ws(s, from + 1)
    } else {
        from
    }
}

/// One past the last non-whitespace byte of `s.subrange(0, upto)`, or `0`.
pub open spec fn last_non_ws_end(s: Seq<u8>, upto: int) -> int
    decreases upto,
{
    if upto <= 0 || upto > s.len() {
        0
    } else if is_ws(s[upto - 1]) {
        last_non_ws_end(s, upto - 1)
    } else {
        upto
    }
}

/// `s` with leading and trailing ASCII whitespace removed.
pub open spec fn trim_spec(s: Seq<u8>) -> Seq<u8> {
    let b = first_non_ws(s, 0);
    let e = last_non_ws_end(s, s.len() as int);
    if b >= e {
        Seq::empty()
    } else {
        s.subrange(b, e)
    }
}

proof fn lemma_last_non_ws_end_bounds(s: Seq<u8>, upto: int)
    requires
        0 <= upto <= s.len(),
    ensures
        0 <= last_non_ws_end(s, upto) <= upto,
    decreases upto,
{
    if 0 < upto <= s.len() && is_ws(s[upto - 1]) {
        lemma_last_non_ws_end_bounds(s, upto - 1);
    }
}

pub fn trim_ascii(s: &[u8]) -> (r: Vec<u8>)
    ensures
        r@ == trim_spec(s@),
{
    let mut b: usize = 0;
    while b < s.len() && byte_is_ws(s[b])
        invariant
            0 <= b <= s@.len(),
            first_non_ws(s@, 0) == first_non_ws(s@, b as int),
        decreases s@.len() - b,
    {
        b = b + 1;
    }
    assert(first_non_ws(s@, 0) == b as int);
    let mut e: usize = s.len();
    while e > b && byte_is_ws(s[e - 1])
        invariant
            b <= e <= s@.len(),
            first_non_ws(s@, 0) == b as int,
            last_non_ws_end(s@, s@.len() as int) == last_non_ws_end(s@, e as int),
        decreases e,
    {
        e = e - 1;
    }
    proof {
        lemma_last_non_ws_end_bounds(s@, e as int);
        if e > b {
            assert(!is_ws(s@[e - 1]));
            assert(last_non_ws_end(s@, e as int) == e as int);
        }
    }
    let mut out: Vec<u8> = Vec::new();
    let mut i: usize = b;
    while i < e
        invariant
            b <= i <= e <= s@.len(),
            out@ == s@.subrange(b as int, i as int),
        decreases e - i,
    {
        let x = s[i];
        out.push(x);
        assert(out@ =~= s@.subrange(b as int, i + 1 as int));
        i = i + 1;
    }
    proof {
        if b >= e {
            assert(last_non_ws_end(s@, s@.len() as int) <= first_non_ws(s@, 0));
            assert(out@ =~= trim_spec(s@));
        } else {
            assert(last_non_ws_end(s@, s@.len() as int) == e as int);
            assert(out@ =~= trim_spec(s@));
        }
    }
    out
}

/// ASCII lower-casing of a single byte.
pub open spec fn lower_byte(b: u8) -> u8 {
    if 65 <= b <= 90 {
        (b + 32) as u8
    } else {
        b
    }
}

/// ASCII lower-casing of a byte string.
pub open spec fn lower_bytes(s: Seq<u8>) -> Seq<u8> {
    Seq::new(s.len(), |i: int| lower_byte(s[i]))
}

pub fn to_lower_ascii(s: &[u8]) -> (r: Vec<u8>)
    ensures
        r@ == lower_bytes(s@),
{
    let mut out: Vec<u8> = Vec::new();
    let mut i: usize = 0;
    while i < s.len()
        invariant
            0 <= i <= s@.len(),
            out@.len() == i,
            forall|j: int| 0 <= j < i ==> out@[j] == lower_byte(s@[j]),
        decreases s@.len() - i,
    {
        let c = s[i];
        if 65 <= c && c <= 90 {
            out.push(c + 32);
        } else {
            out.push(c);
        }
        i = i + 1;
    }
    assert(out@ =~= lower_bytes(s@));
    out
}

/// Decimal digit for `n % 10`.
pub open spec fn dec_digit(n: nat) -> u8 {
    (48 + (n % 10)) as u8
}

/// Decimal representation of `n`, most significant digit first.
pub open spec fn dec_rep(n: nat) -> Seq<u8>
    decreases n,
{
    if n < 10 {
        seq![dec_digit(n)]
    } else {
        dec_rep(n / 10).push(dec_digit(n))
    }
}

pub fn usize_to_dec(n: usize) -> (r: Vec<u8>)
    ensures
        r@ == dec_rep(n as nat),
    decreases n,
{
    if n < 10 {
        let mut out: Vec<u8> = Vec::new();
        out.push(48 + (n as u8));
        assert(out@ =~= dec_rep(n as nat));
        out
    } else {
        let mut out = usize_to_dec(n / 10);
        out.push(48 + ((n % 10) as u8));
        assert(out@ =~= dec_rep(n as nat));
        out
    }
}

/// Copy of `s` as a fresh vector.
pub fn copy_bytes(s: &[u8]) -> (r: Vec<u8>)
    ensures
        r@ == s@,
{
    let r = sub_bytes(s, 0, s.len());
    proof {
        assert(s@.subrange(0, s@.len() as int) =~= s@);
    }
    r
}

/// Copy of `s.subrange(a, b)` as a fresh vector.
pub fn sub_bytes(s: &[u8], a: usize, b: usize) -> (r: Vec<u8>)
    requires
        a <= b <= s@.len(),
    ensures
        r@ == s@.subrange(a as int, b as int),
{
    let mut out: Vec<u8> = Vec::new();
    let mut i: usize = a;
    while i < b
        invariant
            a <= i <= b <= s@.len(),
            out@ == s@.subrange(a as int, i as int),
        decreases b - i,
    {
        let x = s[i];
        out.push(x);
        assert(out@ =~= s@.subrange(a as int, i + 1 as int));
        i = i + 1;
    }
    out
}

} // verus!
