//! The commands the orchestrators issue to the external `git`/PR tools, and
//! the outcome every such command reports back.
//!
//! The orchestrators never spawn processes themselves: they hand one of
//! these commands to the surrounding application, which runs it and feeds
//! the exit status and captured output back into the machine.

use vstd::prelude::*;
use vstd::string::*;

use crate::bytes::contains_seq;

verus! {

/// What one external command reported: exit success, captured standard
/// output and captured standard error.
pub struct CmdOutcome {
    pub success: bool,
    pub stdout: Vec<u8>,
    pub stderr: Vec<u8>,
}

/// Spec-level command outcome.
pub struct CmdOutcomeSpec {
    pub success: bool,
    pub stdout: Seq<u8>,
    pub stderr: Seq<u8>,
}

impl View for CmdOutcome {
    type V = CmdOutcomeSpec;

    open spec fn view(&self) -> CmdOutcomeSpec {
        CmdOutcomeSpec { success: self.success, stdout: self.stdout@, stderr: self.stderr@ }
    }
}

/// A command for the external tools, with its arguments.
pub enum GitCmd {
    /// `git status --porcelain`
    Status,
    /// `git stash push -u -m <auto-stash message>`
    StashPush,
    /// `git stash pop`
    StashPop,
    /// `git rev-parse --abbrev-ref HEAD`
    RevParseHead,
    /// `git fetch origin <name>`
    FetchOrigin(Vec<u8>),
    /// `git show-ref --verify --quiet refs/heads/<branch>`
    ShowRefBranch(Vec<u8>),
    /// `git checkout <branch>`
    Checkout(Vec<u8>),
    /// `git checkout -b <branch> <start-point>`
    CheckoutNewFrom(Vec<u8>, Vec<u8>),
    /// `git checkout -b <branch>`
    CheckoutNew(Vec<u8>),
    /// `git pull origin <branch>`
    Pull(Vec<u8>),
    /// `git add drafts/`
    AddDrafts,
    /// `git add content/ public/images/`
    AddContent,
    /// `git commit -m <message>`
    Commit(Vec<u8>),
    /// `git push -u origin <branch>`
    Push(Vec<u8>),
    /// `gh pr list --head <branch> --json number --jq .[0].number`
    PrList(Vec<u8>),
    /// `gh pr create --title <title> --body ... --head <branch> --base main`
    PrCreate(Vec<u8>, Vec<u8>),
    /// `gh pr merge <number> --merge --delete-branch`
    PrMerge(Vec<u8>),
}

/// Spec-level command.
pub enum GitCmdSpec {
    Status,
    StashPush,
    StashPop,
    RevParseHead,
    FetchOrigin(Seq<u8>),
    ShowRefBranch(Seq<u8>),
    Checkout(Seq<u8>),
    CheckoutNewFrom(Seq<u8>, Seq<u8>),
    CheckoutNew(Seq<u8>),
    Pull(Seq<u8>),
    AddDrafts,
    AddContent,
    Commit(Seq<u8>),
    Push(Seq<u8>),
    PrList(Seq<u8>),
    PrCreate(Seq<u8>, Seq<u8>),
    PrMerge(Seq<u8>),
}

impl View for GitCmd {
    type V = GitCmdSpec;

    open spec fn view(&self) -> GitCmdSpec {
        match self {
            GitCmd::Status => GitCmdSpec::Status,
            GitCmd::StashPush => GitCmdSpec::StashPush,
            GitCmd::StashPop => GitCmdSpec::StashPop,
            GitCmd::RevParseHead => GitCmdSpec::RevParseHead,
            GitCmd::FetchOrigin(b) => GitCmdSpec::FetchOrigin(b@),
            GitCmd::ShowRefBranch(b) => GitCmdSpec::ShowRefBranch(b@),
            GitCmd::Checkout(b) => GitCmdSpec::Checkout(b@),
            GitCmd::CheckoutNewFrom(b, f) => GitCmdSpec::CheckoutNewFrom(b@, f@),
            GitCmd::CheckoutNew(b) => GitCmdSpec::CheckoutNew(b@),
            GitCmd::Pull(b) => GitCmdSpec::Pull(b@),
            GitCmd::AddDrafts => GitCmdSpec::AddDrafts,
            GitCmd::AddContent => GitCmdSpec::AddContent,
            GitCmd::Commit(m) => GitCmdSpec::Commit(m@),
            GitCmd::Push(b) => GitCmdSpec::Push(b@),
            GitCmd::PrList(b) => GitCmdSpec::PrList(b@),
            GitCmd::PrCreate(t, b) => GitCmdSpec::PrCreate(t@, b@),
            GitCmd::PrMerge(n) => GitCmdSpec::PrMerge(n@),
        }
    }
}

/// The per-document branch both flows work on: `drafts/<slug>`.
pub open spec fn drafts_branch_spec(slug: Seq<u8>) -> Seq<u8> {
    ("drafts/").spec_bytes() + slug
}

pub fn drafts_branch(slug: &[u8]) -> (r: Vec<u8>)
    ensures
        r@ == drafts_branch_spec(slug@),
{
    let mut b = "drafts/".as_bytes_vec();
    b.extend_from_slice(slug);
    b
}

/// The remote-tracking name of a branch: `origin/<branch>`.
pub open spec fn origin_of_spec(branch: Seq<u8>) -> Seq<u8> {
    ("origin/").spec_bytes() + branch
}

pub fn origin_of(branch: &[u8]) -> (r: Vec<u8>)
    ensures
        r@ == origin_of_spec(branch@),
{
    let mut b = "origin/".as_bytes_vec();
    b.extend_from_slice(branch);
    b
}

/// A failed `git commit` that is not really an error: its stderr reports
/// that there was nothing to commit.
pub open spec fn commit_benign(stderr: Seq<u8>) -> bool {
    contains_seq(stderr, ("nothing to commit").spec_bytes())
}

pub fn is_commit_benign(stderr: &[u8]) -> (r: bool)
    ensures
        r == commit_benign(stderr@),
{
    let needle = "nothing to commit".as_bytes_vec();
    crate::bytes::contains_bytes(stderr, needle.as_slice())
}

/// A byte string built from a fixed prefix and a payload: diagnostics with
/// the tool's raw stderr appended, commit messages, PR titles.
pub open spec fn msg_spec(prefix: Seq<u8>, tail: Seq<u8>) -> Seq<u8> {
    prefix + tail
}

pub fn prefixed_bytes(prefix: &str, tail: &[u8]) -> (r: Vec<u8>)
    ensures
        r@ == msg_spec(prefix.spec_bytes(), tail@),
{
    let mut m = prefix.as_bytes_vec();
    m.extend_from_slice(tail);
    m
}

} // verus!
