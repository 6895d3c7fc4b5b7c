//! Draft records and their workflow status.
//!
//! The draft store itself (a key-value database) is an unverified
//! collaborator; this module holds the records it exchanges and the rules
//! applied to them before saving.

use vstd::prelude::*;

verus! {

/// Workflow status of a draft.
#[derive(Clone, Copy, Debug, PartialEq, Eq, Structural)]
pub enum DraftStatus {
    /// Local only, not synced.
    Draft,
    /// Pushed to the drafts branch.
    Synced,
    /// Published to the main branch.
    Published,
}

impl Default for DraftStatus {
    fn default() -> (s: DraftStatus)
        ensures
            s == DraftStatus::Draft,
    {
        DraftStatus::Draft
    }
}

/// The status encoded by a stored status string: unrecognized strings fall
/// back to `Draft`.
pub open spec fn status_of_chars(s: Seq<char>) -> DraftStatus {
    if s == "synced"@ {
        DraftStatus::Synced
    } else if s == "published"@ {
        DraftStatus::Published
    } else {
        DraftStatus::Draft
    }
}

/// The string a status is stored as.
pub open spec fn chars_of_status(s: DraftStatus) -> Seq<char> {
    match s {
        DraftStatus::Draft => "draft"@,
        DraftStatus::Synced => "synced"@,
        DraftStatus::Published => "published"@,
    }
}

impl From<String> for DraftStatus {
    fn from(s: String) -> (r: DraftStatus) {
        if s == "synced".to_owned() {
            DraftStatus::Synced
        } else if s == "published".to_owned() {
            DraftStatus::Published
        } else {
            DraftStatus::Draft
        }
    }
}

impl vstd::std_specs::convert::FromSpecImpl<String> for DraftStatus {
    open spec fn obeys_from_spec() -> bool {
        true
    }

    open spec fn from_spec(v: String) -> DraftStatus {
        status_of_chars(v@)
    }
}

impl DraftStatus {
    /// The string this status is stored as.
    pub fn to_status_string(&self) -> (r: String)
        ensures
            r@ == chars_of_status(*self),
    {
        match self {
            DraftStatus::Draft => "draft".to_owned(),
            DraftStatus::Synced => "synced".to_owned(),
            DraftStatus::Published => "published".to_owned(),
        }
    }
}

/// Full draft data for save/load operations.
///
/// The cover focal point is an offset in percent (0 to 100); callers using a
/// fractional offset round it before handing the record to the library.
pub struct Draft {
    pub id: String,
    pub slug: String,
    pub title: String,
    pub date: String,
    pub tags: Vec<String>,
    pub description: String,
    pub cover: String,
    pub cover_position: Option<u32>,
    /// Serialized rich content.
    pub content: String,
    /// Plain text, for word counts.
    pub text_content: String,
    pub created_at: String,
    pub updated_at: String,
    pub synced_at: Option<String>,
    pub published_at: Option<String>,
    pub status: DraftStatus,
}

/// Summary for the draft list (lighter weight than `Draft`).
pub struct DraftSummary {
    pub id: String,
    pub title: String,
    pub status: DraftStatus,
    pub updated_at: String,
}

/// Applies the bookkeeping rules for saving a draft: a draft without an id is
/// a new record and receives the fresh id and `now` as its creation time; the
/// update time always becomes `now`. All content fields are kept as they are.
pub fn prepare_draft_for_save(draft: Draft, now: &String, fresh_id: String) -> (r: Draft)
    ensures
        draft.id@.len() == 0 ==> r.id@ == fresh_id@ && r.created_at@ == now@,
        draft.id@.len() != 0 ==> r.id@ == draft.id@ && r.created_at@ == draft.created_at@,
        r.updated_at@ == now@,
        r.slug == draft.slug,
        r.title == draft.title,
        r.date == draft.date,
        r.tags == draft.tags,
        r.description == draft.description,
        r.cover == draft.cover,
        r.cover_position == draft.cover_position,
        r.content == draft.content,
        r.text_content == draft.text_content,
        r.synced_at == draft.synced_at,
        r.published_at == draft.published_at,
        r.status == draft.status,
{
    let mut r = draft;
    if r.id.as_str().is_empty() {
        r.id = fresh_id;
        r.created_at = now.clone();
    }
    r.updated_at = now.clone();
    r
}

} // verus!
