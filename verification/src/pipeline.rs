//! Rendering of an article file: cover resolution, YAML-like frontmatter,
//! and the complete file plans for the sync and publish flows.
//!
//! A plan is pure data — the rewritten article bytes, the images to write
//! and the cover action — which the surrounding application carries out on
//! the filesystem.

use vstd::prelude::*;
use vstd::string::*;

use crate::bytes::{dec_rep, usize_to_dec, starts_with, sub_bytes, copy_bytes};
use crate::media::{
    FetchResponse, FetchResponseSpec, ImageRole, StoredImage, StoredImageSpec,
    store_data_url_spec, store_remote_spec, store_data_url_image, store_remote_image,
    resp_opt_view,
};
use crate::ingest::{
    ingest_from, ingest_content, fetches_view, images_view, trim_trailing_slashes,
};

verus! {

/// The escaping applied to quoted frontmatter values: `"` becomes `\"`.
pub open spec fn esc_byte(b: u8) -> Seq<u8> {
    if b == 34u8 {
        seq![92u8, 34u8]
    } else {
        seq![b]
    }
}

/// A byte string with every `"` escaped.
pub open spec fn escaped(s: Seq<u8>) -> Seq<u8>
    decreases s.len(),
{
    if s.len() == 0 {
        Seq::empty()
    } else {
        esc_byte(s[0]) + escaped(s.skip(1))
    }
}

proof fn lemma_escaped_push(s: Seq<u8>, b: u8)
    ensures
        escaped(s.push(b)) == escaped(s) + esc_byte(b),
    decreases s.len(),
{
    if s.len() == 0 {
        assert(s.push(b)[0] == b);
        assert(s.push(b).skip(1) =~= Seq::<u8>::empty());
        assert(escaped(s.push(b)) == esc_byte(b) + escaped(Seq::<u8>::empty()));
        assert(escaped(Seq::<u8>::empty()) =~= Seq::<u8>::empty());
        assert(escaped(s.push(b)) =~= escaped(s) + esc_byte(b));
    } else {
        lemma_escaped_push(s.skip(1), b);
        assert(s.push(b).skip(1) =~= s.skip(1).push(b));
        assert(s.push(b)[0] == s[0]);
        assert(escaped(s.push(b)) =~= escaped(s) + esc_byte(b));
    }
}

/// Appends `s` with every `"` escaped to `out`.
fn append_escaped(out: &mut Vec<u8>, s: &[u8])
    ensures
        final(out)@ == old(out)@ + escaped(s@),
{
    let mut i: usize = 0;
    while i < s.len()
        invariant
            i <= s@.len(),
            out@ == old(out)@ + escaped(s@.subrange(0, i as int)),
        decreases s@.len() - i,
    {
        let b = s[i];
        if b == 34u8 {
            out.push(92u8);
            out.push(34u8);
        } else {
            out.push(b);
        }
        proof {
            lemma_escaped_push(s@.subrange(0, i as int), b);
            assert(s@.subrange(0, i as int).push(b) =~= s@.subrange(0, i + 1 as int));
            assert(old(out)@ + escaped(s@.subrange(0, i as int)) + esc_byte(b) =~= old(out)@
                + escaped(s@.subrange(0, i + 1 as int)));
        }
        i = i + 1;
    }
    proof {
        assert(s@.subrange(0, s@.len() as int) =~= s@);
    }
}

/// A tag as it appears in the frontmatter list: quoted, with quotes escaped.
pub open spec fn quoted(t: Seq<u8>) -> Seq<u8> {
    seq![34u8] + escaped(t) + seq![34u8]
}

/// The bracketed tag list body: quoted tags joined by `, `.
pub open spec fn tags_yaml(tags: Seq<Seq<u8>>) -> Seq<u8>
    decreases tags.len(),
{
    if tags.len() == 0 {
        Seq::empty()
    } else if tags.len() == 1 {
        quoted(tags[0])
    } else {
        quoted(tags[0]) + (", ").spec_bytes() + tags_yaml(tags.skip(1))
    }
}

proof fn lemma_tags_yaml_push(tags: Seq<Seq<u8>>, t: Seq<u8>)
    ensures
        tags.len() == 0 ==> tags_yaml(tags.push(t)) == quoted(t),
        tags.len() > 0 ==> tags_yaml(tags.push(t)) == tags_yaml(tags) + (", ").spec_bytes()
            + quoted(t),
    decreases tags.len(),
{
    if tags.len() == 0 {
        assert(tags.push(t)[0] == t);
        assert(tags_yaml(tags.push(t)) =~= quoted(t));
    } else {
        lemma_tags_yaml_push(tags.skip(1), t);
        assert(tags.push(t).skip(1) =~= tags.skip(1).push(t));
        if tags.len() == 1 {
            assert(tags_yaml(tags.push(t)) =~= tags_yaml(tags) + (", ").spec_bytes() + quoted(t));
        } else {
            assert(tags_yaml(tags) =~= quoted(tags[0]) + (", ").spec_bytes() + tags_yaml(
                tags.skip(1),
            ));
            assert(tags_yaml(tags.push(t)) =~= tags_yaml(tags) + (", ").spec_bytes() + quoted(t));
        }
    }
}

/// View of a list of tags.
pub open spec fn tags_view(v: Seq<Vec<u8>>) -> Seq<Seq<u8>> {
    Seq::new(v.len(), |i: int| v[i]@)
}

/// Appends the bracketed tag list body to `out`.
fn append_tags_yaml(out: &mut Vec<u8>, tags: &Vec<Vec<u8>>)
    ensures
        final(out)@ == old(out)@ + tags_yaml(tags_view(tags@)),
{
    let mut i: usize = 0;
    while i < tags.len()
        invariant
            i <= tags@.len(),
            out@ == old(out)@ + tags_yaml(tags_view(tags@).subrange(0, i as int)),
        decreases tags@.len() - i,
    {
        let ghost done = tags_view(tags@).subrange(0, i as int);
        if i > 0 {
            let sep = ", ".as_bytes_vec();
            out.extend_from_slice(sep.as_slice());
        }
        out.push(34u8);
        append_escaped(out, tags[i].as_slice());
        out.push(34u8);
        proof {
            lemma_tags_yaml_push(done, tags@[i as int]@);
            assert(done.push(tags@[i as int]@) =~= tags_view(tags@).subrange(0, i + 1 as int));
            assert(out@ =~= old(out)@ + tags_yaml(tags_view(tags@).subrange(0, i + 1 as int)));
        }
        i = i + 1;
    }
    proof {
        assert(tags_view(tags@).subrange(0, tags@.len() as int) =~= tags_view(tags@));
    }
}

/// The frontmatter block: `---`-delimited, with the document fields; the
/// title, description and tags are escaped, and `draft_id` appears only in
/// the sync flow.
pub open spec fn frontmatter_spec(
    title: Seq<u8>,
    date: Seq<u8>,
    tags: Seq<Seq<u8>>,
    description: Seq<u8>,
    cover_path: Seq<u8>,
    cover_position: int,
    last_updated: Seq<u8>,
    draft_id: Option<Seq<u8>>,
) -> Seq<u8> {
    ("---\ntitle: \"").spec_bytes() + escaped(title) + ("\"\ndate: \"").spec_bytes() + date + (
    "\"\ntags: [").spec_bytes() + tags_yaml(tags) + ("]\ndescription: \"").spec_bytes() + escaped(
        description,
    ) + ("\"\ncover: \"").spec_bytes() + cover_path + ("\"\ncover_position: ").spec_bytes()
        + dec_rep(cover_position as nat) + ("\nlast_updated: \"").spec_bytes() + last_updated + (
    "\"\n").spec_bytes() + (match draft_id {
        Some(d) => ("draft_id: \"").spec_bytes() + d + ("\"\n").spec_bytes(),
        None => Seq::empty(),
    }) + ("---\n\n").spec_bytes()
}

/// Renders the frontmatter block.
fn render_frontmatter(
    title: &[u8],
    date: &[u8],
    tags: &Vec<Vec<u8>>,
    description: &[u8],
    cover_path: &[u8],
    cover_position: usize,
    last_updated: &[u8],
    draft_id: &Option<Vec<u8>>,
) -> (r: Vec<u8>)
    ensures
        r@ == frontmatter_spec(
            title@,
            date@,
            tags_view(tags@),
            description@,
            cover_path@,
            cover_position as int,
            last_updated@,
            match draft_id {
                Some(d) => Some(d@),
                None => None,
            },
        ),
{
    let mut out: Vec<u8> = Vec::new();
    let part = "---\ntitle: \"".as_bytes_vec();
    out.extend_from_slice(part.as_slice());
    append_escaped(&mut out, title);
    let part = "\"\ndate: \"".as_bytes_vec();
    out.extend_from_slice(part.as_slice());
    out.extend_from_slice(date);
    let part = "\"\ntags: [".as_bytes_vec();
    out.extend_from_slice(part.as_slice());
    append_tags_yaml(&mut out, tags);
    let part = "]\ndescription: \"".as_bytes_vec();
    out.extend_from_slice(part.as_slice());
    append_escaped(&mut out, description);
    let part = "\"\ncover: \"".as_bytes_vec();
    out.extend_from_slice(part.as_slice());
    out.extend_from_slice(cover_path);
    let part = "\"\ncover_position: ".as_bytes_vec();
    out.extend_from_slice(part.as_slice());
    let digits = usize_to_dec(cover_position);
    out.extend_from_slice(digits.as_slice());
    let part = "\nlast_updated: \"".as_bytes_vec();
    out.extend_from_slice(part.as_slice());
    out.extend_from_slice(last_updated);
    let part = "\"\n".as_bytes_vec();
    out.extend_from_slice(part.as_slice());
    match draft_id {
        Some(d) => {
            let part = "draft_id: \"".as_bytes_vec();
            out.extend_from_slice(part.as_slice());
            out.extend_from_slice(d.as_slice());
            let part = "\"\n".as_bytes_vec();
            out.extend_from_slice(part.as_slice());
        },
        None => {},
    }
    let part = "---\n\n".as_bytes_vec();
    out.extend_from_slice(part.as_slice());
    proof {
        assert(out@ =~= frontmatter_spec(
            title@,
            date@,
            tags_view(tags@),
            description@,
            cover_path@,
            cover_position as int,
            last_updated@,
            match draft_id {
                Some(d) => Some(d@),
                None => None,
            },
        ));
    }
    out
}

/// What is to be done about the cover image.
pub enum CoverAction {
    /// Nothing to write: the cover is absent, already a path, or failed.
    Keep,
    /// Write this image to the images directory (and its mirror, when the
    /// flow mirrors).
    Store(StoredImage),
    /// Copy this already-ingested file from the drafts images directory into
    /// the publish images directory (and its mirror).
    Promote(Vec<u8>),
}

/// Spec-level cover action.
pub enum CoverActionSpec {
    Keep,
    Store(StoredImageSpec),
    Promote(Seq<u8>),
}

/// View of a cover action.
pub open spec fn cover_action_view(a: &CoverAction) -> CoverActionSpec {
    match a {
        CoverAction::Keep => CoverActionSpec::Keep,
        CoverAction::Store(img) => CoverActionSpec::Store(img@),
        CoverAction::Promote(f) => CoverActionSpec::Promote(f@),
    }
}

/// The resolved cover: the path written into the frontmatter, and the file
/// action to carry out.
pub struct CoverPlan {
    pub path: Vec<u8>,
    pub action: CoverAction,
}

/// Spec-level cover plan.
pub struct CoverPlanSpec {
    pub path: Seq<u8>,
    pub action: CoverActionSpec,
}

impl View for CoverPlan {
    type V = CoverPlanSpec;

    open spec fn view(&self) -> CoverPlanSpec {
        CoverPlanSpec { path: self.path@, action: cover_action_view(&self.action) }
    }
}

/// Cover resolution for the publish flow: an embedded payload is stored
/// (empty path on failure); a remote URL uses the supplied fetch outcome
/// (the URL itself is kept on failure); a cover already under the drafts
/// images prefix is promoted by copying if its file exists; anything else is
/// kept as it is.
pub open spec fn publish_cover_spec(
    cover: Seq<u8>,
    fetch: Option<FetchResponseSpec>,
    drafts_cover_exists: bool,
    slug: Seq<u8>,
) -> CoverPlanSpec {
    if cover.len() == 0 {
        CoverPlanSpec { path: Seq::empty(), action: CoverActionSpec::Keep }
    } else if crate::bytes::is_prefix_of(("data:image").spec_bytes(), cover) {
        match store_data_url_spec(cover, slug, ImageRole::Cover) {
            Some(img) => CoverPlanSpec {
                path: ("/images/").spec_bytes() + img.filename,
                action: CoverActionSpec::Store(img),
            },
            None => CoverPlanSpec { path: Seq::empty(), action: CoverActionSpec::Keep },
        }
    } else if crate::bytes::is_prefix_of(("http").spec_bytes(), cover) {
        match store_remote_spec(fetch, cover, slug, ImageRole::Cover) {
            Some(img) => CoverPlanSpec {
                path: ("/images/").spec_bytes() + img.filename,
                action: CoverActionSpec::Store(img),
            },
            None => CoverPlanSpec { path: cover, action: CoverActionSpec::Keep },
        }
    } else if crate::bytes::is_prefix_of(("/drafts/images/").spec_bytes(), cover) {
        let fname = cover.skip(("/drafts/images/").spec_bytes().len() as int);
        if drafts_cover_exists {
            CoverPlanSpec {
                path: ("/images/").spec_bytes() + fname,
                action: CoverActionSpec::Promote(fname),
            }
        } else {
            CoverPlanSpec { path: cover, action: CoverActionSpec::Keep }
        }
    } else {
        CoverPlanSpec { path: cover, action: CoverActionSpec::Keep }
    }
}

/// Cover resolution for the sync flow: only an embedded payload is stored
/// (empty path on failure); anything else is kept as it is.
pub open spec fn sync_cover_spec(cover: Seq<u8>, slug: Seq<u8>) -> CoverPlanSpec {
    if cover.len() == 0 {
        CoverPlanSpec { path: Seq::empty(), action: CoverActionSpec::Keep }
    } else if crate::bytes::is_prefix_of(("data:image").spec_bytes(), cover) {
        match store_data_url_spec(cover, slug, ImageRole::Cover) {
            Some(img) => CoverPlanSpec {
                path: ("/drafts/images/").spec_bytes() + img.filename,
                action: CoverActionSpec::Store(img),
            },
            None => CoverPlanSpec { path: Seq::empty(), action: CoverActionSpec::Keep },
        }
    } else {
        CoverPlanSpec { path: cover, action: CoverActionSpec::Keep }
    }
}

/// The remote URL the publish flow needs fetched for the cover, if any.
pub fn cover_remote_url(cover: &[u8]) -> (r: Option<Vec<u8>>)
    ensures
        (r is Some) == (cover@.len() > 0 && !crate::bytes::is_prefix_of(
            ("data:image").spec_bytes(),
            cover@,
        ) && crate::bytes::is_prefix_of(("http").spec_bytes(), cover@)),
        r matches Some(u) ==> u@ == cover@,
{
    let d = "data:image".as_bytes_vec();
    let h = "http".as_bytes_vec();
    if cover.len() > 0 && !starts_with(cover, d.as_slice()) && starts_with(cover, h.as_slice()) {
        Some(copy_bytes(cover))
    } else {
        None
    }
}

/// The drafts-images filename the publish flow would promote the cover
/// from, if the cover points there.
pub fn cover_promote_candidate(cover: &[u8]) -> (r: Option<Vec<u8>>)
    ensures
        (r is Some) == (cover@.len() > 0 && !crate::bytes::is_prefix_of(
            ("data:image").spec_bytes(),
            cover@,
        ) && !crate::bytes::is_prefix_of(("http").spec_bytes(), cover@)
            && crate::bytes::is_prefix_of(("/drafts/images/").spec_bytes(), cover@)),
        r matches Some(f) ==> f@ == cover@.skip(("/drafts/images/").spec_bytes().len() as int),
{
    let d = "data:image".as_bytes_vec();
    let h = "http".as_bytes_vec();
    let p = "/drafts/images/".as_bytes_vec();
    if cover.len() > 0 && !starts_with(cover, d.as_slice()) && !starts_with(cover, h.as_slice())
        && starts_with(cover, p.as_slice()) {
        let f = sub_bytes(cover, p.len(), cover.len());
        proof {
            assert(cover@.subrange(p@.len() as int, cover@.len() as int) =~= cover@.skip(
                p@.len() as int,
            ));
        }
        Some(f)
    } else {
        None
    }
}

#[verifier::rlimit(80)]
fn resolve_publish_cover(
    cover: &[u8],
    fetch: &Option<FetchResponse>,
    drafts_cover_exists: bool,
    slug: &[u8],
) -> (r: CoverPlan)
    ensures
        r@ == publish_cover_spec(cover@, resp_opt_view(fetch), drafts_cover_exists, slug@),
{
    let d = "data:image".as_bytes_vec();
    let h = "http".as_bytes_vec();
    let p = "/drafts/images/".as_bytes_vec();
    let ghost cspec = publish_cover_spec(cover@, resp_opt_view(fetch), drafts_cover_exists, slug@);
    if cover.len() == 0 {
        let r = CoverPlan { path: Vec::new(), action: CoverAction::Keep };
        assert(r@.path == cspec.path);
        r
    } else if starts_with(cover, d.as_slice()) {
        match store_data_url_image(cover, slug, ImageRole::Cover) {
            Some(img) => {
                let mut path = "/images/".as_bytes_vec();
                path.extend_from_slice(img.filename.as_slice());
                let r = CoverPlan { path, action: CoverAction::Store(img) };
                assert(r@.path == cspec.path);
                r
            },
            None => {
                let r = CoverPlan { path: Vec::new(), action: CoverAction::Keep };
                assert(r@.path == cspec.path);
                r
            },
        }
    } else if starts_with(cover, h.as_slice()) {
        match store_remote_image(fetch, cover, slug, ImageRole::Cover) {
            Some(img) => {
                let mut path = "/images/".as_bytes_vec();
                path.extend_from_slice(img.filename.as_slice());
                let r = CoverPlan { path, action: CoverAction::Store(img) };
                assert(r@.path == cspec.path);
                r
            },
            None => {
                let r = CoverPlan { path: copy_bytes(cover), action: CoverAction::Keep };
                assert(r@.path == cspec.path);
                r
            },
        }
    } else if starts_with(cover, p.as_slice()) {
        let fname = sub_bytes(cover, p.len(), cover.len());
        proof {
            assert(cover@.subrange(p@.len() as int, cover@.len() as int) =~= cover@.skip(
                p@.len() as int,
            ));
        }
        if drafts_cover_exists {
            let mut path = "/images/".as_bytes_vec();
            path.extend_from_slice(fname.as_slice());
            let r = CoverPlan { path, action: CoverAction::Promote(fname) };
            assert(r@.path == cspec.path);
            r
        } else {
            let r = CoverPlan { path: copy_bytes(cover), action: CoverAction::Keep };
            assert(r@.path == cspec.path);
            r
        }
    } else {
        let r = CoverPlan { path: copy_bytes(cover), action: CoverAction::Keep };
        assert(r@.path == cspec.path);
        r
    }
}

#[verifier::rlimit(80)]
fn resolve_sync_cover(cover: &[u8], slug: &[u8]) -> (r: CoverPlan)
    ensures
        r@ == sync_cover_spec(cover@, slug@),
{
    let d = "data:image".as_bytes_vec();
    if cover.len() == 0 {
        let r = CoverPlan { path: Vec::new(), action: CoverAction::Keep };
        assert(r@.path == sync_cover_spec(cover@, slug@).path);
        r
    } else if starts_with(cover, d.as_slice()) {
        match store_data_url_image(cover, slug, ImageRole::Cover) {
            Some(img) => {
                let mut path = "/drafts/images/".as_bytes_vec();
                path.extend_from_slice(img.filename.as_slice());
                let r = CoverPlan { path, action: CoverAction::Store(img) };
                assert(r@.path == sync_cover_spec(cover@, slug@).path);
                r
            },
            None => {
                let r = CoverPlan { path: Vec::new(), action: CoverAction::Keep };
                assert(r@.path == sync_cover_spec(cover@, slug@).path);
                r
            },
        }
    } else {
        let r = CoverPlan { path: copy_bytes(cover), action: CoverAction::Keep };
        assert(r@.path == sync_cover_spec(cover@, slug@).path);
        r
    }
}

/// Relative path of the synced draft file: `drafts/<slug>.md`.
pub open spec fn sync_article_path(slug: Seq<u8>) -> Seq<u8> {
    ("drafts/").spec_bytes() + slug + (".md").spec_bytes()
}

/// Relative path of the published article file: `content/articles/<slug>.md`.
pub open spec fn publish_article_path(slug: Seq<u8>) -> Seq<u8> {
    ("content/articles/").spec_bytes() + slug + (".md").spec_bytes()
}

/// The cover focal point written to the frontmatter: the supplied offset, or
/// 50 by default.
pub open spec fn cover_position_spec(p: Option<u32>) -> int {
    match p {
        Some(v) => v as int,
        None => 50,
    }
}

/// The `last_updated` value: the supplied timestamp, or the document date.
pub open spec fn last_updated_spec(updated_at: Option<Seq<u8>>, date: Seq<u8>) -> Seq<u8> {
    match updated_at {
        Some(u) => u,
        None => date,
    }
}

/// Everything the sync flow writes for one document: the draft file path and
/// bytes, the images to store under `drafts/images`, and the cover action.
pub struct SyncPlan {
    pub article_path: Vec<u8>,
    pub article: Vec<u8>,
    pub cover: CoverPlan,
    pub images: Vec<StoredImage>,
}

/// Builds the complete sync plan: resolves the cover, ingests the inline
/// images rooted at `/drafts/images`, and renders the frontmatter (with the
/// draft id) followed by the rewritten content.
#[verifier::rlimit(30)]
pub fn build_sync_plan(
    slug: &Vec<u8>,
    title: &Vec<u8>,
    date: &Vec<u8>,
    tags: &Vec<Vec<u8>>,
    description: &Vec<u8>,
    cover: &Vec<u8>,
    cover_position: Option<u32>,
    updated_at: &Option<Vec<u8>>,
    content: &Vec<u8>,
    draft_id: &Vec<u8>,
    fetches: &Vec<Option<FetchResponse>>,
) -> (r: SyncPlan)
    requires
        content@.len() < usize::MAX,
    ensures
        ({
            let cov = sync_cover_spec(cover@, slug@);
            let ing = ingest_from(
                content@,
                0,
                1,
                fetches_view(fetches@),
                0,
                slug@,
                trim_trailing_slashes(("/drafts/images").spec_bytes()),
            );
            &&& r.article_path@ == sync_article_path(slug@)
            &&& r.article@ == frontmatter_spec(
                title@,
                date@,
                tags_view(tags@),
                description@,
                cov.path,
                cover_position_spec(cover_position),
                last_updated_spec(
                    match updated_at {
                        Some(u) => Some(u@),
                        None => None,
                    },
                    date@,
                ),
                Some(draft_id@),
            ) + ing.text
            &&& r.cover@ == cov
            &&& images_view(r.images@) == ing.images
        }),
{
    let cover_plan = resolve_sync_cover(cover.as_slice(), slug.as_slice());
    let prefix = "/drafts/images".as_bytes_vec();
    let (text, images) = ingest_content(
        content.as_slice(),
        slug.as_slice(),
        prefix.as_slice(),
        fetches,
    );
    let pos: usize = match cover_position {
        Some(v) => v as usize,
        None => 50,
    };
    let did: Option<Vec<u8>> = Some(draft_id.clone());
    let lu: Vec<u8> = match updated_at {
        Some(u) => u.clone(),
        None => date.clone(),
    };
    let mut article = render_frontmatter(
        title.as_slice(),
        date.as_slice(),
        tags,
        description.as_slice(),
        cover_plan.path.as_slice(),
        pos,
        lu.as_slice(),
        &did,
    );
    article.extend_from_slice(text.as_slice());
    let mut article_path = "drafts/".as_bytes_vec();
    article_path.extend_from_slice(slug.as_slice());
    let md = ".md".as_bytes_vec();
    article_path.extend_from_slice(md.as_slice());
    SyncPlan { article_path, article, cover: cover_plan, images }
}

/// Everything the publish flow writes for one document: the article file
/// path and bytes, the images to store under `content/images` (all of them
/// mirrored to `public/images`), and the cover action.
pub struct PublishPlan {
    pub article_path: Vec<u8>,
    pub article: Vec<u8>,
    pub cover: CoverPlan,
    pub images: Vec<StoredImage>,
}

/// Builds the complete publish plan: resolves the cover (with its fetch
/// outcome and promote probe), ingests the inline images rooted at
/// `/images`, and renders the frontmatter followed by the rewritten content.
#[verifier::rlimit(30)]
pub fn build_publish_plan(
    slug: &Vec<u8>,
    title: &Vec<u8>,
    date: &Vec<u8>,
    tags: &Vec<Vec<u8>>,
    description: &Vec<u8>,
    cover: &Vec<u8>,
    cover_position: Option<u32>,
    updated_at: &Option<Vec<u8>>,
    content: &Vec<u8>,
    cover_fetch: &Option<FetchResponse>,
    drafts_cover_exists: bool,
    fetches: &Vec<Option<FetchResponse>>,
) -> (r: PublishPlan)
    requires
        content@.len() < usize::MAX,
    ensures
        ({
            let cov = publish_cover_spec(
                cover@,
                resp_opt_view(cover_fetch),
                drafts_cover_exists,
                slug@,
            );
            let ing = ingest_from(
                content@,
                0,
                1,
                fetches_view(fetches@),
                0,
                slug@,
                trim_trailing_slashes(("/images").spec_bytes()),
            );
            &&& r.article_path@ == publish_article_path(slug@)
            &&& r.article@ == frontmatter_spec(
                title@,
                date@,
                tags_view(tags@),
                description@,
                cov.path,
                cover_position_spec(cover_position),
                last_updated_spec(
                    match updated_at {
                        Some(u) => Some(u@),
                        None => None,
                    },
                    date@,
                ),
                None,
            ) + ing.text
            &&& r.cover@ == cov
            &&& images_view(r.images@) == ing.images
        }),
{
    let cover_plan = resolve_publish_cover(
        cover.as_slice(),
        cover_fetch,
        drafts_cover_exists,
        slug.as_slice(),
    );
    let prefix = "/images".as_bytes_vec();
    let (text, images) = ingest_content(
        content.as_slice(),
        slug.as_slice(),
        prefix.as_slice(),
        fetches,
    );
    let pos: usize = match cover_position {
        Some(v) => v as usize,
        None => 50,
    };
    let did: Option<Vec<u8>> = None;
    let lu: Vec<u8> = match updated_at {
        Some(u) => u.clone(),
        None => date.clone(),
    };
    let mut article = render_frontmatter(
        title.as_slice(),
        date.as_slice(),
        tags,
        description.as_slice(),
        cover_plan.path.as_slice(),
        pos,
        lu.as_slice(),
        &did,
    );
    article.extend_from_slice(text.as_slice());
    let mut article_path = "content/articles/".as_bytes_vec();
    article_path.extend_from_slice(slug.as_slice());
    let md = ".md".as_bytes_vec();
    article_path.extend_from_slice(md.as_slice());
    PublishPlan { article_path, article, cover: cover_plan, images }
}

} // verus!
