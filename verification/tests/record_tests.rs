//! Tests for the settings, repository validation and draft records.

use nibandh::draft::{prepare_draft_for_save, Draft, DraftStatus};
use nibandh::settings::{default_editor_width, evaluate_repo_path, Settings};

fn sample_draft() -> Draft {
    Draft {
        id: String::new(),
        slug: "post".to_string(),
        title: "Post".to_string(),
        date: "2024-02-02".to_string(),
        tags: vec!["a".to_string()],
        description: "d".to_string(),
        cover: String::new(),
        cover_position: Some(40),
        content: "{}".to_string(),
        text_content: "".to_string(),
        created_at: String::new(),
        updated_at: String::new(),
        synced_at: None,
        published_at: None,
        status: DraftStatus::Draft,
    }
}

#[test]
fn settings_default_values() {
    let s = Settings::default();
    assert_eq!(s.repo_path, "");
    assert_eq!(s.theme, "dark");
    assert_eq!(s.editor_width, "medium");
    assert_eq!(default_editor_width(), "medium");
}

#[test]
fn repo_path_missing_is_invalid() {
    let v = evaluate_repo_path(false, false, false);
    assert!(!v.is_valid);
    assert!(!v.is_git_repo);
    assert!(!v.has_content_dir);
    assert_eq!(v.error.as_deref(), Some("Path does not exist"));
}

#[test]
fn repo_path_without_git_dir_is_invalid() {
    let v = evaluate_repo_path(true, false, true);
    assert!(!v.is_valid);
    assert!(!v.is_git_repo);
    assert!(v.has_content_dir);
    assert_eq!(
        v.error.as_deref(),
        Some("Not a git repository (no .git directory)")
    );
}

#[test]
fn repo_path_with_git_dir_is_valid() {
    let v = evaluate_repo_path(true, true, false);
    assert!(v.is_valid);
    assert!(v.is_git_repo);
    assert!(!v.has_content_dir);
    assert!(v.error.is_none());
}

#[test]
fn draft_status_round_trips_through_strings() {
    assert_eq!(DraftStatus::from("synced".to_string()), DraftStatus::Synced);
    assert_eq!(
        DraftStatus::from("published".to_string()),
        DraftStatus::Published
    );
    assert_eq!(DraftStatus::from("draft".to_string()), DraftStatus::Draft);
    assert_eq!(DraftStatus::from("garbage".to_string()), DraftStatus::Draft);
    assert_eq!(DraftStatus::default(), DraftStatus::Draft);
    assert_eq!(DraftStatus::Draft.to_status_string(), "draft");
    assert_eq!(DraftStatus::Synced.to_status_string(), "synced");
    assert_eq!(DraftStatus::Published.to_status_string(), "published");
}

#[test]
fn saving_a_new_draft_assigns_id_and_times() {
    let d = sample_draft();
    let now = "2024-03-03T00:00:00Z".to_string();
    let saved = prepare_draft_for_save(d, &now, "fresh-id".to_string());
    assert_eq!(saved.id, "fresh-id");
    assert_eq!(saved.created_at, now);
    assert_eq!(saved.updated_at, now);
    assert_eq!(saved.slug, "post");
    assert_eq!(saved.cover_position, Some(40));
}

#[test]
fn saving_an_existing_draft_keeps_id_and_creation_time() {
    let mut d = sample_draft();
    d.id = "old-id".to_string();
    d.created_at = "2024-01-01T00:00:00Z".to_string();
    let now = "2024-03-03T00:00:00Z".to_string();
    let saved = prepare_draft_for_save(d, &now, "fresh-id".to_string());
    assert_eq!(saved.id, "old-id");
    assert_eq!(saved.created_at, "2024-01-01T00:00:00Z");
    assert_eq!(saved.updated_at, now);
}
