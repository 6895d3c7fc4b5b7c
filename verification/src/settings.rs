//! Application settings and repository-path validation.
//!
//! Loading and saving the settings file, and probing the filesystem, are I/O
//! done by the surrounding application; this module holds the settings record
//! itself and the rule that turns probe results into a validation verdict.

use vstd::prelude::*;

verus! {

/// User-configurable settings for the authoring tool.
pub struct Settings {
    /// Path of the git repository acting as the content store.
    pub repo_path: String,
    /// UI colour theme.
    pub theme: String,
    /// Width of the editor pane.
    pub editor_width: String,
}

/// Default width of the editor pane.
pub fn default_editor_width() -> (r: String)
    ensures
        r@ == "medium"@,
{
    "medium".to_owned()
}

impl Default for Settings {
    /// Fresh settings: no repository configured, dark theme, medium editor.
    fn default() -> (s: Settings)
        ensures
            s.repo_path@ == Seq::<char>::empty(),
            s.theme@ == "dark"@,
            s.editor_width@ == "medium"@,
    {
        Settings { repo_path: String::new(), theme: "dark".to_owned(), editor_width: default_editor_width() }
    }
}

/// Verdict on a configured repository path.
pub struct RepoValidation {
    pub is_valid: bool,
    pub is_git_repo: bool,
    pub has_content_dir: bool,
    pub error: Option<String>,
}

/// Turns the filesystem probes for a repository path into a verdict.
///
/// `path_exists`, `has_git_dir` and `has_content_dir` report whether the path
/// itself, its `.git` subdirectory and its `content` subdirectory exist. A
/// path is valid exactly when it exists and is a git repository.
pub fn evaluate_repo_path(path_exists: bool, has_git_dir: bool, has_content_dir: bool) -> (r:
    RepoValidation)
    ensures
        r.is_valid == (path_exists && has_git_dir),
        r.is_git_repo == (path_exists && has_git_dir),
        r.has_content_dir == (path_exists && has_content_dir),
        !path_exists ==> (r.error matches Some(e) && e@ == "Path does not exist"@),
        path_exists && !has_git_dir ==> (r.error matches Some(e) && e@
            == "Not a git repository (no .git directory)"@),
        path_exists && has_git_dir ==> r.error is None,
{
    if !path_exists {
        return RepoValidation {
            is_valid: false,
            is_git_repo: false,
            has_content_dir: false,
            error: Some("Path does not exist".to_owned()),
        };
    }
    let error: Option<String> = if !has_git_dir {
        Some("Not a git repository (no .git directory)".to_owned())
    } else {
        None
    };
    RepoValidation { is_valid: has_git_dir, is_git_repo: has_git_dir, has_content_dir, error }
}

} // verus!
