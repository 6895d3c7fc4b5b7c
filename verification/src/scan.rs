//! Recognition of image references inside rich content.
//!
//! Two shapes are recognized: Markdown image syntax `![alt](url)` and raw
//! HTML `<img ... src="url" ...>`, where the URL is either an embedded
//! `data:image` payload or an `http(s)` URL. The grammar is defined by spec
//! functions; the executable matcher is verified to decide it exactly, so
//! text outside matched spans is provably never altered.

use vstd::prelude::*;
use vstd::string::*;

use crate::bytes::{
    is_prefix_of, occurs_at, spec_find_byte, find_byte, starts_with, matches_at, sub_bytes,
};

verus! {

/// The bytes of `<img`, the opening of an HTML image tag.
pub open spec fn img_tag() -> Seq<u8> {
    seq![60u8, 105u8, 109u8, 103u8]
}

fn img_tag_bytes() -> (r: Vec<u8>)
    ensures
        r@ == img_tag(),
{
    let mut v: Vec<u8> = Vec::new();
    v.push(60u8);
    v.push(105u8);
    v.push(109u8);
    v.push(103u8);
    assert(v@ =~= img_tag());
    v
}

/// The bytes of `src="`, the opening of the attribute holding the URL.
pub open spec fn src_attr() -> Seq<u8> {
    seq![115u8, 114u8, 99u8, 61u8, 34u8]
}

fn src_attr_bytes() -> (r: Vec<u8>)
    ensures
        r@ == src_attr(),
{
    let mut v: Vec<u8> = Vec::new();
    v.push(115u8);
    v.push(114u8);
    v.push(99u8);
    v.push(61u8);
    v.push(34u8);
    assert(v@ =~= src_attr());
    v
}

/// The two reference shapes.
#[derive(Clone, Copy, PartialEq, Eq, Structural)]
pub enum RefKind {
    Markdown,
    Html,
}

/// Spec-level parse of one image reference: its span `[start, end)` in the
/// content, and the parts needed to rewrite it. `alt` is used by Markdown
/// references; `before` and `after` (the attribute text around the `src`
/// value) by HTML references.
pub struct RefParts {
    pub start: int,
    pub end: int,
    pub kind: RefKind,
    pub alt: Seq<u8>,
    pub before: Seq<u8>,
    pub after: Seq<u8>,
    pub url: Seq<u8>,
}

/// A URL that counts as an image reference: an embedded `data:image` payload
/// or an `http(s)` URL, with at least one byte after the prefix.
pub open spec fn is_image_url(u: Seq<u8>) -> bool {
    ||| (is_prefix_of(("data:image").spec_bytes(), u) && u.len() > ("data:image").spec_bytes().len())
    ||| (is_prefix_of(("http://").spec_bytes(), u) && u.len() > ("http://").spec_bytes().len())
    ||| (is_prefix_of(("https://").spec_bytes(), u) && u.len() > ("https://").spec_bytes().len())
}

pub fn is_image_url_bytes(u: &[u8]) -> (r: bool)
    ensures
        r == is_image_url(u@),
{
    let d = "data:image".as_bytes_vec();
    let h = "http://".as_bytes_vec();
    let hs = "https://".as_bytes_vec();
    (starts_with(u, d.as_slice()) && u.len() > d.len()) || (starts_with(u, h.as_slice()) && u.len()
        > h.len()) || (starts_with(u, hs.as_slice()) && u.len() > hs.len())
}

/// A reference URL that is fetched from the network rather than embedded.
pub open spec fn is_remote_url(u: Seq<u8>) -> bool {
    is_prefix_of(("http").spec_bytes(), u)
}

pub fn is_remote_url_bytes(u: &[u8]) -> (r: bool)
    ensures
        r == is_remote_url(u@),
{
    let h = "http".as_bytes_vec();
    starts_with(u, h.as_slice())
}

/// Parse of a Markdown image reference starting at `i`: `![`, the alt text
/// up to the first `]`, then `(`, then an image URL up to the first `)`.
pub open spec fn md_at(s: Seq<u8>, i: int) -> Option<RefParts> {
    if !(0 <= i && i + 2 <= s.len() && s[i] == 33u8 && s[i + 1] == 91u8) {
        None
    } else {
        match spec_find_byte(s, i + 2, 93u8) {
            None => None,
            Some(j) => if !(j + 1 < s.len() && s[j + 1] == 40u8) {
                None
            } else {
                match spec_find_byte(s, j + 2, 41u8) {
                    None => None,
                    Some(e) => {
                        let url = s.subrange(j + 2, e);
                        if is_image_url(url) {
                            Some(
                                RefParts {
                                    start: i,
                                    end: e + 1,
                                    kind: RefKind::Markdown,
                                    alt: s.subrange(i + 2, j),
                                    before: Seq::empty(),
                                    after: Seq::empty(),
                                    url,
                                },
                            )
                        } else {
                            None
                        }
                    },
                }
            },
        }
    }
}

/// First position `p >= from` where `src="` occurs with no `>` in between,
/// if any: the `src` attribute of the tag being parsed.
pub open spec fn find_src(s: Seq<u8>, from: int) -> Option<int>
    decreases s.len() - from,
{
    if from < 0 || from + 5 > s.len() {
        None
    } else if occurs_at(s, src_attr(), from) {
        Some(from)
    } else if s[from] == 62u8 {
        None
    } else {
        find_src(s, from + 1)
    }
}

pub proof fn lemma_find_src_in_range(s: Seq<u8>, from: int)
    ensures
        find_src(s, from) matches Some(p) ==> from <= p && p + 5 <= s.len(),
    decreases s.len() - from,
{
    if 0 <= from && from + 5 <= s.len() && !occurs_at(s, src_attr(), from) && s[from] != 62u8 {
        lemma_find_src_in_range(s, from + 1);
    }
}

/// Parse of an HTML image reference starting at `i`: `<img`, attribute text
/// without `>` up to `src="`, an image URL up to the closing quote, then the
/// rest of the tag up to the first `>`.
pub open spec fn html_at(s: Seq<u8>, i: int) -> Option<RefParts> {
    if !(0 <= i && i + 4 <= s.len() && s.subrange(i, i + 4) == img_tag()) {
        None
    } else {
        match find_src(s, i + 4) {
            None => None,
            Some(p) => {
                match spec_find_byte(s, p + 5, 34u8) {
                    None => None,
                    Some(q) => {
                        let url = s.subrange(p + 5, q);
                        if !is_image_url(url) {
                            None
                        } else {
                            match spec_find_byte(s, q + 1, 62u8) {
                                None => None,
                                Some(t) => Some(
                                    RefParts {
                                        start: i,
                                        end: t + 1,
                                        kind: RefKind::Html,
                                        alt: Seq::empty(),
                                        before: s.subrange(i + 4, p),
                                        after: s.subrange(q + 1, t),
                                        url,
                                    },
                                ),
                            }
                        }
                    },
                }
            },
        }
    }
}

/// Parse of an image reference starting at `i`, of either shape. The shapes
/// cannot both apply, as one starts with `!` and the other with `<`.
pub open spec fn match_at(s: Seq<u8>, i: int) -> Option<RefParts> {
    if md_at(s, i) is Some {
        md_at(s, i)
    } else {
        html_at(s, i)
    }
}

pub proof fn lemma_match_at_bounds(s: Seq<u8>, i: int)
    ensures
        match_at(s, i) matches Some(m) ==> m.start == i && i < m.end <= s.len(),
{
    if md_at(s, i) is Some {
        crate::bytes::lemma_find_byte_in_range(s, i + 2, 93u8);
        let j = spec_find_byte(s, i + 2, 93u8)->Some_0;
        crate::bytes::lemma_find_byte_in_range(s, j + 2, 41u8);
    } else if html_at(s, i) is Some {
        lemma_find_src_in_range(s, i + 4);
        let p = find_src(s, i + 4)->Some_0;
        crate::bytes::lemma_find_byte_in_range(s, p + 5, 34u8);
        let q = spec_find_byte(s, p + 5, 34u8)->Some_0;
        crate::bytes::lemma_find_byte_in_range(s, q + 1, 62u8);
    }
}

/// Executable parse of one image reference, with its span and parts copied
/// out of the content.
pub struct InlineRef {
    pub start: usize,
    pub end: usize,
    pub kind: RefKind,
    pub alt: Vec<u8>,
    pub before: Vec<u8>,
    pub after: Vec<u8>,
    pub url: Vec<u8>,
}

impl View for InlineRef {
    type V = RefParts;

    open spec fn view(&self) -> RefParts {
        RefParts {
            start: self.start as int,
            end: self.end as int,
            kind: self.kind,
            alt: self.alt@,
            before: self.before@,
            after: self.after@,
            url: self.url@,
        }
    }
}

fn find_src_bytes(s: &[u8], from: usize) -> (r: Option<usize>)
    ensures
        match r {
            Some(p) => find_src(s@, from as int) == Some(p as int) && from <= p && p + 5
                <= s@.len(),
            None => find_src(s@, from as int) is None,
        },
{
    let pat = src_attr_bytes();
    let mut p = from;
    loop
        invariant
            from <= p,
            pat@ == src_attr(),
            find_src(s@, from as int) == find_src(s@, p as int),
        decreases s@.len() + 5 - p,
    {
        if s.len() < 5 || p > s.len() - 5 {
            return None;
        }
        if matches_at(s, pat.as_slice(), p) {
            return Some(p);
        }
        if s[p] == 62u8 {
            return None;
        }
        p = p + 1;
    }
}

fn try_md_at(s: &[u8], i: usize) -> (r: Option<InlineRef>)
    requires
        i < s@.len(),
    ensures
        match r {
            Some(m) => md_at(s@, i as int) == Some(m@),
            None => md_at(s@, i as int) is None,
        },
{
    let n = s.len();
    if !(n - i >= 2 && s[i] == 33u8 && s[i + 1] == 91u8) {
        return None;
    }
    let j = match find_byte(s, i + 2, 93u8) {
        None => {
            return None;
        },
        Some(j) => j,
    };
    if !(j + 1 < n && s[j + 1] == 40u8) {
        return None;
    }
    let e = match find_byte(s, j + 2, 41u8) {
        None => {
            return None;
        },
        Some(e) => e,
    };
    let url = sub_bytes(s, j + 2, e);
    if !is_image_url_bytes(url.as_slice()) {
        return None;
    }
    let alt = sub_bytes(s, i + 2, j);
    Some(
        InlineRef {
            start: i,
            end: e + 1,
            kind: RefKind::Markdown,
            alt,
            before: Vec::new(),
            after: Vec::new(),
            url,
        },
    )
}

fn try_html_at(s: &[u8], i: usize) -> (r: Option<InlineRef>)
    requires
        i < s@.len(),
    ensures
        match r {
            Some(m) => html_at(s@, i as int) == Some(m@),
            None => html_at(s@, i as int) is None,
        },
{
    let n = s.len();
    let tag = img_tag_bytes();
    if !matches_at(s, tag.as_slice(), i) {
        return None;
    }
    assert(i + 4 <= n);
    let p = match find_src_bytes(s, i + 4) {
        None => {
            return None;
        },
        Some(p) => p,
    };
    let q = match find_byte(s, p + 5, 34u8) {
        None => {
            return None;
        },
        Some(q) => q,
    };
    let url = sub_bytes(s, p + 5, q);
    if !is_image_url_bytes(url.as_slice()) {
        return None;
    }
    let t = match find_byte(s, q + 1, 62u8) {
        None => {
            return None;
        },
        Some(t) => t,
    };
    let before = sub_bytes(s, i + 4, p);
    let after = sub_bytes(s, q + 1, t);
    Some(
        InlineRef {
            start: i,
            end: t + 1,
            kind: RefKind::Html,
            alt: Vec::new(),
            before,
            url,
            after,
        },
    )
}

/// Executable decision of the reference grammar at one position: returns
/// exactly what the spec-level `match_at` denotes.
pub fn try_match_at(s: &[u8], i: usize) -> (r: Option<InlineRef>)
    requires
        i < s@.len(),
    ensures
        match r {
            Some(m) => match_at(s@, i as int) == Some(m@) && m.start == i && i < m.end
                && m.end <= s@.len(),
            None => match_at(s@, i as int) is None,
        },
{
    let r = match try_md_at(s, i) {
        Some(m) => Some(m),
        None => try_html_at(s, i),
    };
    proof {
        lemma_match_at_bounds(s@, i as int);
    }
    r
}

} // verus!
