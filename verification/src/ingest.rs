//! The image ingestion pass: walks content left to right, resolves each
//! image reference to a stored file, rewrites the matched span to point at
//! the stored filename, and leaves everything else — including references
//! that fail to resolve — byte-for-byte unchanged.
//!
//! Remote references are fetched by the caller beforehand (the library does
//! no I/O); the outcomes are handed in, aligned with the remote references
//! in document order, and each remote reference consumes one outcome.

use vstd::prelude::*;
use vstd::string::*;

use crate::bytes::sub_bytes;
use crate::media::{
    FetchResponse, FetchResponseSpec, ImageRole, StoredImage, StoredImageSpec,
    store_data_url_spec, store_remote_spec, store_data_url_image, store_remote_image,
    image_filename,
};
use crate::scan::{
    RefKind, RefParts, match_at, try_match_at, is_remote_url, is_remote_url_bytes, img_tag,
    src_attr, lemma_match_at_bounds,
};

verus! {

/// View of a list of stored images.
pub open spec fn images_view(v: Seq<StoredImage>) -> Seq<StoredImageSpec> {
    Seq::new(v.len(), |i: int| v[i]@)
}

/// View of a list of optional fetch outcomes.
pub open spec fn fetches_view(v: Seq<Option<FetchResponse>>) -> Seq<Option<FetchResponseSpec>> {
    Seq::new(
        v.len(),
        |i: int|
            match v[i] {
                Some(r) => Some(r@),
                None => None,
            },
    )
}

/// `p` without its trailing `/` bytes.
pub open spec fn trim_trailing_slashes(p: Seq<u8>) -> Seq<u8>
    decreases p.len(),
{
    if p.len() > 0 && p.last() == 47u8 {
        trim_trailing_slashes(p.drop_last())
    } else {
        p
    }
}

pub fn trim_slashes(p: &[u8]) -> (r: Vec<u8>)
    ensures
        r@ == trim_trailing_slashes(p@),
{
    let mut e = p.len();
    proof {
        assert(p@.subrange(0, p@.len() as int) =~= p@);
    }
    while e > 0 && p[e - 1] == 47u8
        invariant
            e <= p@.len(),
            trim_trailing_slashes(p@) == trim_trailing_slashes(p@.subrange(0, e as int)),
        decreases e,
    {
        proof {
            assert(p@.subrange(0, e as int).drop_last() =~= p@.subrange(0, e - 1));
        }
        e = e - 1;
    }
    proof {
        if e > 0 {
            assert(trim_trailing_slashes(p@.subrange(0, e as int)) == p@.subrange(0, e as int));
        } else {
            assert(p@.subrange(0, 0) =~= Seq::<u8>::empty());
        }
    }
    sub_bytes(p, 0, e)
}

/// The rewritten reference path: `<prefix>/<filename>`.
pub open spec fn path_ref(prefix: Seq<u8>, filename: Seq<u8>) -> Seq<u8> {
    prefix + seq![47u8] + filename
}

/// The span that replaces a resolved reference, preserving the alt text of a
/// Markdown reference and the surrounding attribute text of an HTML one.
pub open spec fn rewritten_span(m: RefParts, pref: Seq<u8>) -> Seq<u8> {
    match m.kind {
        RefKind::Markdown => seq![33u8, 91u8] + m.alt + seq![93u8, 40u8] + pref + seq![41u8],
        RefKind::Html => img_tag() + m.before + src_attr() + pref + seq![34u8] + m.after + seq![
            62u8,
        ],
    }
}

/// The fetch outcome the reference consuming index `k` sees; an index past
/// the supplied outcomes is a failed fetch.
pub open spec fn fetch_at(fetches: Seq<Option<FetchResponseSpec>>, k: int) -> Option<
    FetchResponseSpec,
> {
    if 0 <= k < fetches.len() {
        fetches[k]
    } else {
        None
    }
}

/// Resolution of one reference: an embedded payload is stored directly; a
/// remote reference consumes the next fetch outcome. `None` is a
/// per-reference failure.
pub open spec fn resolve_ref_spec(
    m: RefParts,
    slug: Seq<u8>,
    ord: int,
    fetches: Seq<Option<FetchResponseSpec>>,
    fidx: int,
) -> Option<StoredImageSpec> {
    if is_remote_url(m.url) {
        store_remote_spec(fetch_at(fetches, fidx), m.url, slug, ImageRole::Inline(ord as usize))
    } else {
        store_data_url_spec(m.url, slug, ImageRole::Inline(ord as usize))
    }
}

/// The result of an ingestion pass: the rewritten text and the images to
/// write, in document order.
pub struct IngestOutSpec {
    pub text: Seq<u8>,
    pub images: Seq<StoredImageSpec>,
}

/// The ingestion pass over `s` from position `i`, with `ord` the next
/// ordinal and `fidx` the next fetch outcome. Unmatched text is copied;
/// a resolved reference contributes its rewritten span and its stored image
/// and advances the ordinal; a failed reference contributes its original
/// span unchanged and does not advance the ordinal.
pub open spec fn ingest_from(
    s: Seq<u8>,
    i: int,
    ord: int,
    fetches: Seq<Option<FetchResponseSpec>>,
    fidx: int,
    slug: Seq<u8>,
    pfx: Seq<u8>,
) -> IngestOutSpec
    decreases s.len() - i,
    via ingest_from_decreases
{
    if i < 0 || i >= s.len() {
        IngestOutSpec { text: Seq::empty(), images: Seq::empty() }
    } else {
        match match_at(s, i) {
            None => {
                let rest = ingest_from(s, i + 1, ord, fetches, fidx, slug, pfx);
                IngestOutSpec { text: seq![s[i]] + rest.text, images: rest.images }
            },
            Some(m) => {
                let fidx2 = if is_remote_url(m.url) {
                    fidx + 1
                } else {
                    fidx
                };
                match resolve_ref_spec(m, slug, ord, fetches, fidx) {
                    Some(img) => {
                        let rest = ingest_from(s, m.end, ord + 1, fetches, fidx2, slug, pfx);
                        IngestOutSpec {
                            text: rewritten_span(m, path_ref(pfx, img.filename)) + rest.text,
                            images: seq![img] + rest.images,
                        }
                    },
                    None => {
                        let rest = ingest_from(s, m.end, ord, fetches, fidx2, slug, pfx);
                        IngestOutSpec {
                            text: s.subrange(i, m.end) + rest.text,
                            images: rest.images,
                        }
                    },
                }
            },
        }
    }
}

#[via_fn]
proof fn ingest_from_decreases(
    s: Seq<u8>,
    i: int,
    ord: int,
    fetches: Seq<Option<FetchResponseSpec>>,
    fidx: int,
    slug: Seq<u8>,
    pfx: Seq<u8>,
) {
    lemma_match_at_bounds(s, i);
}

/// The remote URLs among the references of `s` from position `i`, in
/// document order: the fetches the caller must perform, one outcome each.
pub open spec fn remote_urls_from(s: Seq<u8>, i: int) -> Seq<Seq<u8>>
    decreases s.len() - i,
    via remote_urls_from_decreases
{
    if i < 0 || i >= s.len() {
        Seq::empty()
    } else {
        match match_at(s, i) {
            None => remote_urls_from(s, i + 1),
            Some(m) => if is_remote_url(m.url) {
                seq![m.url] + remote_urls_from(s, m.end)
            } else {
                remote_urls_from(s, m.end)
            },
        }
    }
}

#[via_fn]
proof fn remote_urls_from_decreases(s: Seq<u8>, i: int) {
    lemma_match_at_bounds(s, i);
}

/// View of a list of URLs.
pub open spec fn urls_view(v: Seq<Vec<u8>>) -> Seq<Seq<u8>> {
    Seq::new(v.len(), |i: int| v[i]@)
}

/// Lists the remote image URLs of `content` in document order, so the caller
/// can fetch them and hand the outcomes to `ingest_content`.
pub fn scan_remote_urls(content: &[u8]) -> (urls: Vec<Vec<u8>>)
    ensures
        urls_view(urls@) == remote_urls_from(content@, 0),
{
    let mut urls: Vec<Vec<u8>> = Vec::new();
    let mut i: usize = 0;
    while i < content.len()
        invariant
            i <= content@.len(),
            remote_urls_from(content@, 0) == urls_view(urls@) + remote_urls_from(
                content@,
                i as int,
            ),
        decreases content@.len() - i,
    {
        match try_match_at(content, i) {
            None => {
                i = i + 1;
            },
            Some(m) => {
                if is_remote_url_bytes(m.url.as_slice()) {
                    let e = m.end;
                    urls.push(m.url);
                    proof {
                        assert(urls_view(urls@) =~= urls_view(urls@.drop_last()) + seq![
                            urls@.last()@,
                        ]);
                        assert((urls_view(urls@.drop_last()) + seq![urls@.last()@])
                            + remote_urls_from(content@, e as int) =~= urls_view(urls@.drop_last())
                            + (seq![urls@.last()@] + remote_urls_from(content@, e as int)));
                    }
                    i = e;
                } else {
                    i = m.end;
                }
            },
        }
    }
    proof {
        assert(urls_view(urls@) + remote_urls_from(content@, i as int) =~= urls_view(urls@));
    }
    urls
}

/// One ingestion pass over `content`: resolves every image reference, using
/// `fetches` (one outcome per remote reference, in document order), assigns
/// ordinals starting at 1 in document order, and returns the rewritten text
/// together with the images to write. References that fail to resolve keep
/// their original markup and do not consume an ordinal.
#[verifier::rlimit(60)]
pub fn ingest_content(
    content: &[u8],
    slug: &[u8],
    path_prefix: &[u8],
    fetches: &Vec<Option<FetchResponse>>,
) -> (r: (Vec<u8>, Vec<StoredImage>))
    requires
        content@.len() < usize::MAX,
    ensures
        ({
            let full = ingest_from(
                content@,
                0,
                1,
                fetches_view(fetches@),
                0,
                slug@,
                trim_trailing_slashes(path_prefix@),
            );
            r.0@ == full.text && images_view(r.1@) == full.images
        }),
{
    let pfx = trim_slashes(path_prefix);
    let ghost fv = fetches_view(fetches@);
    let mut out: Vec<u8> = Vec::new();
    let mut imgs: Vec<StoredImage> = Vec::new();
    let mut i: usize = 0;
    let mut ord: usize = 1;
    let mut fidx: usize = 0;
    let ghost full = ingest_from(content@, 0, 1, fv, 0, slug@, pfx@);
    while i < content.len()
        invariant
            content@.len() < usize::MAX,
            i <= content@.len(),
            1 <= ord <= i + 1,
            fidx <= i,
            pfx@ == trim_trailing_slashes(path_prefix@),
            fv == fetches_view(fetches@),
            full == ingest_from(content@, 0, 1, fv, 0, slug@, pfx@),
            full.text == out@ + ingest_from(
                content@,
                i as int,
                ord as int,
                fv,
                fidx as int,
                slug@,
                pfx@,
            ).text,
            full.images == images_view(imgs@) + ingest_from(
                content@,
                i as int,
                ord as int,
                fv,
                fidx as int,
                slug@,
                pfx@,
            ).images,
        decreases content@.len() - i,
    {
        let ghost rest = ingest_from(content@, i as int, ord as int, fv, fidx as int, slug@, pfx@);
        match try_match_at(content, i) {
            None => {
                let b = content[i];
                out.push(b);
                proof {
                    let rest2 = ingest_from(
                        content@,
                        i + 1,
                        ord as int,
                        fv,
                        fidx as int,
                        slug@,
                        pfx@,
                    );
                    assert(rest.text =~= seq![content@[i as int]] + rest2.text);
                    assert(out@ + rest2.text =~= (out@.drop_last() + seq![b]) + rest2.text);
                    assert((out@.drop_last() + seq![b]) + rest2.text =~= out@.drop_last() + (seq![
                        content@[i as int],
                    ] + rest2.text));
                }
                i = i + 1;
            },
            Some(m) => {
                let ghost mm = m@;
                let is_rem = is_remote_url_bytes(m.url.as_slice());
                let stored: Option<StoredImage> = if is_rem {
                    if fidx < fetches.len() {
                        store_remote_image(
                            &fetches[fidx],
                            m.url.as_slice(),
                            slug,
                            ImageRole::Inline(ord),
                        )
                    } else {
                        None
                    }
                } else {
                    store_data_url_image(m.url.as_slice(), slug, ImageRole::Inline(ord))
                };
                proof {
                    if is_rem && (fidx as int) < fv.len() {
                        assert(fv[fidx as int] == crate::media::resp_opt_view(
                            &fetches@[fidx as int],
                        ));
                    }
                    assert(crate::media::stored_opt_view(stored) == resolve_ref_spec(
                        mm,
                        slug@,
                        ord as int,
                        fv,
                        fidx as int,
                    ));
                }
                if is_rem {
                    fidx = fidx + 1;
                }
                let e = m.end;
                match stored {
                    Some(img) => {
                        let ghost out0 = out@;
                        // rewritten span: markup around the new path
                        let mut pref: Vec<u8> = Vec::new();
                        pref.extend_from_slice(pfx.as_slice());
                        pref.push(47u8);
                        pref.extend_from_slice(img.filename.as_slice());
                        proof {
                            assert(pref@ =~= path_ref(pfx@, img.filename@));
                        }
                        match m.kind {
                            RefKind::Markdown => {
                                out.push(33u8);
                                out.push(91u8);
                                out.extend_from_slice(m.alt.as_slice());
                                out.push(93u8);
                                out.push(40u8);
                                out.extend_from_slice(pref.as_slice());
                                out.push(41u8);
                            },
                            RefKind::Html => {
                                out.push(60u8);
                                out.push(105u8);
                                out.push(109u8);
                                out.push(103u8);
                                out.extend_from_slice(m.before.as_slice());
                                out.push(115u8);
                                out.push(114u8);
                                out.push(99u8);
                                out.push(61u8);
                                out.push(34u8);
                                out.extend_from_slice(pref.as_slice());
                                out.push(34u8);
                                out.extend_from_slice(m.after.as_slice());
                                out.push(62u8);
                            },
                        }
                        proof {
                            assert(out@ =~= out0 + rewritten_span(
                                mm,
                                path_ref(pfx@, img.filename@),
                            ));
                        }
                        let ghost imgs0 = imgs@;
                        let ghost imgv = img@;
                        imgs.push(img);
                        proof {
                            assert(images_view(imgs@) =~= images_view(imgs0) + seq![imgv]);
                            let rest2 = ingest_from(
                                content@,
                                e as int,
                                ord + 1,
                                fv,
                                fidx as int,
                                slug@,
                                pfx@,
                            );
                            assert(rest.text =~= rewritten_span(mm, path_ref(pfx@, imgv.filename))
                                + rest2.text);
                            assert(full.text =~= out@ + rest2.text);
                            assert(rest.images =~= seq![imgv] + rest2.images);
                            assert(full.images =~= images_view(imgs@) + rest2.images);
                        }
                        ord = ord + 1;
                        i = e;
                    },
                    None => {
                        let ghost out0 = out@;
                        let span = sub_bytes(content, i, e);
                        out.extend_from_slice(span.as_slice());
                        proof {
                            let rest2 = ingest_from(
                                content@,
                                e as int,
                                ord as int,
                                fv,
                                fidx as int,
                                slug@,
                                pfx@,
                            );
                            assert(rest.text =~= content@.subrange(i as int, e as int)
                                + rest2.text);
                            assert(full.text =~= out@ + rest2.text);
                        }
                        i = e;
                    },
                }
            },
        }
    }
    proof {
        assert(full.text =~= out@);
        assert(full.images =~= images_view(imgs@));
    }
    (out, imgs)
}

} // verus!

verus! {

proof fn lemma_ingest_no_refs_from(
    s: Seq<u8>,
    i: int,
    ord: int,
    fetches: Seq<Option<FetchResponseSpec>>,
    fidx: int,
    slug: Seq<u8>,
    pfx: Seq<u8>,
)
    requires
        0 <= i <= s.len(),
        forall|j: int| i <= j < s.len() ==> match_at(s, j) is None,
    ensures
        ingest_from(s, i, ord, fetches, fidx, slug, pfx).text == s.subrange(i, s.len() as int),
        ingest_from(s, i, ord, fetches, fidx, slug, pfx).images == Seq::<StoredImageSpec>::empty(),
    decreases s.len() - i,
{
    if i < s.len() {
        lemma_ingest_no_refs_from(s, i + 1, ord, fetches, fidx, slug, pfx);
        assert(seq![s[i]] + s.subrange(i + 1, s.len() as int) =~= s.subrange(i, s.len() as int));
    } else {
        assert(s.subrange(i, s.len() as int) =~= Seq::<u8>::empty());
    }
}

/// Ingestion is a no-op on content without image references: the text comes
/// back byte-for-byte unchanged and no images are produced, so nothing is
/// written.
pub proof fn lemma_ingest_no_refs(
    s: Seq<u8>,
    fetches: Seq<Option<FetchResponseSpec>>,
    slug: Seq<u8>,
    pfx: Seq<u8>,
)
    requires
        forall|j: int| 0 <= j < s.len() ==> match_at(s, j) is None,
    ensures
        ingest_from(s, 0, 1, fetches, 0, slug, pfx).text == s,
        ingest_from(s, 0, 1, fetches, 0, slug, pfx).images == Seq::<StoredImageSpec>::empty(),
{
    lemma_ingest_no_refs_from(s, 0, 1, fetches, 0, slug, pfx);
    assert(s.subrange(0, s.len() as int) =~= s);
}

/// The fixed beginning of an inline image's filename: `img_<slug>_<n>.`,
/// which pins the ordinal `n` the image was stored under.
pub open spec fn inline_stem(slug: Seq<u8>, n: usize) -> Seq<u8> {
    ("img_").spec_bytes() + slug + ("_").spec_bytes() + crate::bytes::dec_rep(n as nat) + (
    ".").spec_bytes()
}

proof fn lemma_prefix_of_concat(a: Seq<u8>, b: Seq<u8>)
    ensures
        crate::bytes::is_prefix_of(a, a + b),
{
    assert((a + b).subrange(0, a.len() as int) =~= a);
}

proof fn lemma_resolve_filename(
    m: RefParts,
    slug: Seq<u8>,
    ord: int,
    fetches: Seq<Option<FetchResponseSpec>>,
    fidx: int,
)
    requires
        resolve_ref_spec(m, slug, ord, fetches, fidx) is Some,
    ensures
        crate::bytes::is_prefix_of(
            inline_stem(slug, ord as usize),
            resolve_ref_spec(m, slug, ord, fetches, fidx)->Some_0.filename,
        ),
{
    let role = ImageRole::Inline(ord as usize);
    let img = resolve_ref_spec(m, slug, ord, fetches, fidx)->Some_0;
    let stem = inline_stem(slug, ord as usize);
    if is_remote_url(m.url) {
        let rsp = fetches[fidx]->Some_0;
        if crate::media::image_decodable(rsp.body) {
            assert(img.filename == image_filename(slug, role, ("webp").spec_bytes()));
            assert(img.filename =~= stem + ("webp").spec_bytes());
            lemma_prefix_of_concat(stem, ("webp").spec_bytes());
        } else {
            let ext = crate::media::content_type_ext(rsp.content_type, m.url);
            assert(img.filename == image_filename(slug, role, ext));
            assert(img.filename =~= stem + ext);
            lemma_prefix_of_concat(stem, ext);
        }
    } else {
        let c = crate::bytes::spec_find_byte(m.url, 0, 44u8)->Some_0;
        let header = m.url.subrange(0, c);
        let body = m.url.subrange(c + 1, m.url.len() as int);
        let data = crate::media::base64_decoding(body)->Some_0;
        if crate::media::image_decodable(data) {
            assert(img.filename == image_filename(slug, role, ("webp").spec_bytes()));
            assert(img.filename =~= stem + ("webp").spec_bytes());
            lemma_prefix_of_concat(stem, ("webp").spec_bytes());
        } else {
            let ext = crate::media::data_header_ext(header);
            assert(img.filename == image_filename(slug, role, ext));
            assert(img.filename =~= stem + ext);
            lemma_prefix_of_concat(stem, ext);
        }
    }
}

/// The `k`-th image of `imgs` carries ordinal `ord + k`: its filename
/// begins with `img_<slug>_<ord + k>.`.
pub open spec fn ordinals_from(imgs: Seq<StoredImageSpec>, slug: Seq<u8>, ord: int) -> bool {
    forall|k: int|
        #![trigger imgs[k]]
        0 <= k < imgs.len() ==> crate::bytes::is_prefix_of(
            inline_stem(slug, (ord + k) as usize),
            imgs[k].filename,
        )
}

/// Ordinals are assigned in document order, starting at `ord` and counting
/// only resolved references: the `k`-th stored inline image carries the
/// ordinal `ord + k` in its filename. The fetch outcomes are inputs here,
/// so the order in which fetches completed cannot disturb the assignment.
#[verifier::rlimit(100)]
pub proof fn lemma_ingest_assigns_ordinals(
    s: Seq<u8>,
    i: int,
    ord: int,
    fetches: Seq<Option<FetchResponseSpec>>,
    fidx: int,
    slug: Seq<u8>,
    pfx: Seq<u8>,
)
    ensures
        ordinals_from(ingest_from(s, i, ord, fetches, fidx, slug, pfx).images, slug, ord),
    decreases s.len() - i,
{
    let out = ingest_from(s, i, ord, fetches, fidx, slug, pfx);
    if i < 0 || i >= s.len() {
    } else {
        match match_at(s, i) {
            None => {
                lemma_ingest_assigns_ordinals(s, i + 1, ord, fetches, fidx, slug, pfx);
                assert(out.images == ingest_from(s, i + 1, ord, fetches, fidx, slug, pfx).images);
                assert(ordinals_from(out.images, slug, ord));
            },
            Some(m) => {
                lemma_match_at_bounds(s, i);
                let fidx2 = if is_remote_url(m.url) {
                    fidx + 1
                } else {
                    fidx
                };
                match resolve_ref_spec(m, slug, ord, fetches, fidx) {
                    Some(img) => {
                        lemma_resolve_filename(m, slug, ord, fetches, fidx);
                        lemma_ingest_assigns_ordinals(s, m.end, ord + 1, fetches, fidx2, slug, pfx);
                        let rest = ingest_from(s, m.end, ord + 1, fetches, fidx2, slug, pfx);
                        assert forall|k: int|
                            #![trigger out.images[k]]
                            0 <= k < out.images.len() implies crate::bytes::is_prefix_of(
                            inline_stem(slug, (ord + k) as usize),
                            out.images[k].filename,
                        ) by {
                            if k == 0 {
                                assert(out.images[0] == img);
                            } else {
                                assert(out.images[k] == rest.images[k - 1]);
                                assert(ordinals_from(rest.images, slug, ord + 1));
                                assert(crate::bytes::is_prefix_of(
                                    inline_stem(slug, ((ord + 1) + (k - 1)) as usize),
                                    rest.images[k - 1].filename,
                                ));
                                assert(((ord + 1) + (k - 1)) as usize == (ord + k) as usize);
                            }
                        }
                        assert(ordinals_from(out.images, slug, ord));
                    },
                    None => {
                        lemma_ingest_assigns_ordinals(s, m.end, ord, fetches, fidx2, slug, pfx);
                        assert(out.images == ingest_from(
                            s,
                            m.end,
                            ord,
                            fetches,
                            fidx2,
                            slug,
                            pfx,
                        ).images);
                        assert(ordinals_from(out.images, slug, ord));
                    },
                }
            },
        }
    }
}

/// The images produced by ingestion do not depend on the rewrite path
/// prefix: the same content, slug and fetch outcomes yield the same stored
/// files (names and bytes) under any prefix. Together with the ingestion
/// contract this makes re-running a flow idempotent in filenames: a second
/// run reproduces the first run's names and overwrites rather than
/// duplicates.
#[verifier::rlimit(100)]
pub proof fn lemma_ingest_images_prefix_independent(
    s: Seq<u8>,
    i: int,
    ord: int,
    fetches: Seq<Option<FetchResponseSpec>>,
    fidx: int,
    slug: Seq<u8>,
    p1: Seq<u8>,
    p2: Seq<u8>,
)
    ensures
        ingest_from(s, i, ord, fetches, fidx, slug, p1).images == ingest_from(
            s,
            i,
            ord,
            fetches,
            fidx,
            slug,
            p2,
        ).images,
    decreases s.len() - i,
{
    if i < 0 || i >= s.len() {
    } else {
        match match_at(s, i) {
            None => {
                lemma_ingest_images_prefix_independent(s, i + 1, ord, fetches, fidx, slug, p1, p2);
            },
            Some(m) => {
                lemma_match_at_bounds(s, i);
                let fidx2 = if is_remote_url(m.url) {
                    fidx + 1
                } else {
                    fidx
                };
                match resolve_ref_spec(m, slug, ord, fetches, fidx) {
                    Some(img) => {
                        lemma_ingest_images_prefix_independent(
                            s,
                            m.end,
                            ord + 1,
                            fetches,
                            fidx2,
                            slug,
                            p1,
                            p2,
                        );
                    },
                    None => {
                        lemma_ingest_images_prefix_independent(
                            s,
                            m.end,
                            ord,
                            fetches,
                            fidx2,
                            slug,
                            p1,
                            p2,
                        );
                    },
                }
            },
        }
    }
}

/// Ingestion consumes exactly one fetch outcome per remote reference, in
/// document order: the result depends only on the window of outcomes the
/// remote references read, wherever that window sits in the list.
pub proof fn lemma_ingest_fetch_window(
    s: Seq<u8>,
    i: int,
    ord: int,
    f1: Seq<Option<FetchResponseSpec>>,
    fidx1: int,
    f2: Seq<Option<FetchResponseSpec>>,
    fidx2: int,
    slug: Seq<u8>,
    pfx: Seq<u8>,
)
    requires
        forall|j: int|
            0 <= j < remote_urls_from(s, i).len() ==> fetch_at(f1, fidx1 + j) == fetch_at(
                f2,
                #[trigger] (fidx2 + j),
            ),
    ensures
        ingest_from(s, i, ord, f1, fidx1, slug, pfx) == ingest_from(s, i, ord, f2, fidx2, slug, pfx),
    decreases s.len() - i,
{
    if i < 0 || i >= s.len() {
    } else {
        match match_at(s, i) {
            None => {
                assert(remote_urls_from(s, i) == remote_urls_from(s, i + 1));
                lemma_ingest_fetch_window(s, i + 1, ord, f1, fidx1, f2, fidx2, slug, pfx);
            },
            Some(m) => {
                lemma_match_at_bounds(s, i);
                if is_remote_url(m.url) {
                    let urls = remote_urls_from(s, i);
                    let rest_urls = remote_urls_from(s, m.end);
                    assert(urls == seq![m.url] + rest_urls);
                    assert(urls.len() == 1 + rest_urls.len());
                    assert(fetch_at(f1, fidx1 + 0) == fetch_at(f2, fidx2 + 0));
                    assert(resolve_ref_spec(m, slug, ord, f1, fidx1) == resolve_ref_spec(
                        m,
                        slug,
                        ord,
                        f2,
                        fidx2,
                    ));
                    assert forall|j: int| 0 <= j < rest_urls.len() implies fetch_at(
                        f1,
                        (fidx1 + 1) + j,
                    ) == fetch_at(f2, #[trigger] ((fidx2 + 1) + j)) by {
                        assert(fetch_at(f1, fidx1 + (j + 1)) == fetch_at(f2, fidx2 + (j + 1)));
                        assert(fidx1 + (j + 1) == (fidx1 + 1) + j);
                        assert(fidx2 + (j + 1) == (fidx2 + 1) + j);
                    }
                    match resolve_ref_spec(m, slug, ord, f1, fidx1) {
                        Some(img) => {
                            lemma_ingest_fetch_window(
                                s,
                                m.end,
                                ord + 1,
                                f1,
                                fidx1 + 1,
                                f2,
                                fidx2 + 1,
                                slug,
                                pfx,
                            );
                        },
                        None => {
                            lemma_ingest_fetch_window(
                                s,
                                m.end,
                                ord,
                                f1,
                                fidx1 + 1,
                                f2,
                                fidx2 + 1,
                                slug,
                                pfx,
                            );
                        },
                    }
                } else {
                    assert(remote_urls_from(s, i) == remote_urls_from(s, m.end));
                    assert(resolve_ref_spec(m, slug, ord, f1, fidx1) == resolve_ref_spec(
                        m,
                        slug,
                        ord,
                        f2,
                        fidx2,
                    ));
                    match resolve_ref_spec(m, slug, ord, f1, fidx1) {
                        Some(img) => {
                            lemma_ingest_fetch_window(
                                s,
                                m.end,
                                ord + 1,
                                f1,
                                fidx1,
                                f2,
                                fidx2,
                                slug,
                                pfx,
                            );
                        },
                        None => {
                            lemma_ingest_fetch_window(
                                s,
                                m.end,
                                ord,
                                f1,
                                fidx1,
                                f2,
                                fidx2,
                                slug,
                                pfx,
                            );
                        },
                    }
                }
            },
        }
    }
}

/// A reference that fails to resolve is left byte-for-byte in place, and
/// ingestion of everything after it is unaffected: one bad image never
/// aborts the rest of the document.
pub proof fn lemma_failed_ref_preserves_span(
    s: Seq<u8>,
    i: int,
    ord: int,
    fetches: Seq<Option<FetchResponseSpec>>,
    fidx: int,
    slug: Seq<u8>,
    pfx: Seq<u8>,
)
    requires
        0 <= i < s.len(),
        match_at(s, i) is Some,
        resolve_ref_spec(match_at(s, i)->Some_0, slug, ord, fetches, fidx) is None,
    ensures
        ({
            let m = match_at(s, i)->Some_0;
            let fidx2 = if is_remote_url(m.url) {
                fidx + 1
            } else {
                fidx
            };
            &&& ingest_from(s, i, ord, fetches, fidx, slug, pfx).text == s.subrange(i, m.end)
                + ingest_from(s, m.end, ord, fetches, fidx2, slug, pfx).text
            &&& ingest_from(s, i, ord, fetches, fidx, slug, pfx).images == ingest_from(
                s,
                m.end,
                ord,
                fetches,
                fidx2,
                slug,
                pfx,
            ).images
        }),
{
}

} // verus!
