//! The publish orchestrator: a state machine that drives the external
//! git/PR tools to publish one document — commit and push it on its
//! `drafts/<slug>` branch, open a pull request against `main` if none
//! exists, and try to merge it.
//!
//! Publishing the article and opening the pull request are the guaranteed
//! outcomes: a failed auto-merge downgrades to success with a message that
//! a manual merge is required. The machine embodies the same work-tree
//! guard as the sync flow; here the final stash pop is best-effort even on
//! success.

use vstd::prelude::*;
use vstd::string::*;

use crate::bytes::{is_blank, all_blank, trim_spec, trim_ascii, copy_bytes};
use crate::gitops::{
    CmdOutcome, CmdOutcomeSpec, GitCmd, GitCmdSpec, drafts_branch_spec, drafts_branch,
    commit_benign, is_commit_benign, msg_spec, prefixed_bytes,
};
use crate::pipeline::publish_article_path;

verus! {

/// Where the publish machine stands: which command it awaits the outcome
/// of.
#[derive(Clone, Copy, PartialEq, Eq, Structural, Debug)]
pub enum PublishState {
    /// Created, nothing issued yet.
    Start,
    AwaitStatus,
    AwaitStash,
    AwaitRevParse,
    AwaitFetchMain,
    AwaitShowRef,
    AwaitCheckout,
    AwaitCreate,
    AwaitCreateFallback,
    AwaitStage,
    AwaitAdd,
    AwaitCommit,
    AwaitPush,
    AwaitPrList,
    AwaitPrCreate,
    AwaitPrListAgain,
    AwaitMerge,
    AwaitFinalCheckout,
    AwaitFinalPop,
    /// Failing; restoring the original branch first.
    AwaitAbortCheckout,
    /// Failing; popping the stash first.
    AwaitAbortPop,
    Done,
}

/// The terminal value of a publish run.
pub struct PublishResult {
    pub success: bool,
    pub message: Vec<u8>,
    /// Repository-relative path of the written article.
    pub file_path: Option<Vec<u8>>,
}

/// Spec-level publish result.
pub struct PublishResultSpec {
    pub success: bool,
    pub message: Seq<u8>,
    pub file_path: Option<Seq<u8>>,
}

impl View for PublishResult {
    type V = PublishResultSpec;

    open spec fn view(&self) -> PublishResultSpec {
        PublishResultSpec {
            success: self.success,
            message: self.message@,
            file_path: match &self.file_path {
                Some(p) => Some(p@),
                None => None,
            },
        }
    }
}

/// What the machine asks the application to do next.
pub enum PublishAction {
    /// Run this command and feed back its outcome.
    Run(GitCmd),
    /// Build and write the publish files (directories, cover, images,
    /// article); feed back success, with any error text in the outcome's
    /// stderr.
    Stage,
    /// Terminal: read the machine's outcome.
    Finished,
}

/// Spec-level publish action.
pub enum PublishActionSpec {
    Run(GitCmdSpec),
    Stage,
    Finished,
}

impl View for PublishAction {
    type V = PublishActionSpec;

    open spec fn view(&self) -> PublishActionSpec {
        match self {
            PublishAction::Run(c) => PublishActionSpec::Run(c@),
            PublishAction::Stage => PublishActionSpec::Stage,
            PublishAction::Finished => PublishActionSpec::Finished,
        }
    }
}

/// The publish machine: the awaited state, the document identity, what the
/// guard has observed and issued, the resolved PR number and the final
/// message.
pub struct PublishMachine {
    pub state: PublishState,
    pub slug: Vec<u8>,
    pub title: Vec<u8>,
    pub commit_message: Vec<u8>,
    /// `drafts/<slug>`, the PR source branch.
    pub branch: Vec<u8>,
    /// The branch to restore, from `rev-parse --abbrev-ref HEAD`.
    pub original_branch: Vec<u8>,
    /// The PR number from the listing, once resolved.
    pub pr_number: Vec<u8>,
    /// The result message, decided at the merge step.
    pub message: Vec<u8>,
    /// A stash was created at entry.
    pub stashed: bool,
    /// The work tree left the original branch.
    pub switched: bool,
    /// The machine has issued `checkout <original>`.
    pub issued_restore_checkout: bool,
    /// The machine has issued `stash pop`.
    pub issued_stash_pop: bool,
    /// The primary error, kept while restoration commands run.
    pub pending_error: Vec<u8>,
    /// Set exactly when `state` is `Done`.
    pub outcome: Option<Result<PublishResult, Vec<u8>>>,
}

/// Spec-level publish machine.
pub struct PublishMachineSpec {
    pub state: PublishState,
    pub slug: Seq<u8>,
    pub title: Seq<u8>,
    pub commit_message: Seq<u8>,
    pub branch: Seq<u8>,
    pub original_branch: Seq<u8>,
    pub pr_number: Seq<u8>,
    pub message: Seq<u8>,
    pub stashed: bool,
    pub switched: bool,
    pub issued_restore_checkout: bool,
    pub issued_stash_pop: bool,
    pub pending_error: Seq<u8>,
    pub outcome: Option<Result<PublishResultSpec, Seq<u8>>>,
}

impl View for PublishMachine {
    type V = PublishMachineSpec;

    open spec fn view(&self) -> PublishMachineSpec {
        PublishMachineSpec {
            state: self.state,
            slug: self.slug@,
            title: self.title@,
            commit_message: self.commit_message@,
            branch: self.branch@,
            original_branch: self.original_branch@,
            pr_number: self.pr_number@,
            message: self.message@,
            stashed: self.stashed,
            switched: self.switched,
            issued_restore_checkout: self.issued_restore_checkout,
            issued_stash_pop: self.issued_stash_pop,
            pending_error: self.pending_error@,
            outcome: match &self.outcome {
                Some(Ok(r)) => Some(Ok(r@)),
                Some(Err(e)) => Some(Err(e@)),
                None => None,
            },
        }
    }
}

/// The message when the PR merged.
pub open spec fn merged_message() -> Seq<u8> {
    ("PR created and merged successfully.").spec_bytes()
}

/// The message when the PR exists but could not be merged automatically:
/// publishing still succeeded, a manual merge is required.
pub open spec fn manual_merge_message(title: Seq<u8>, stderr: Seq<u8>) -> Seq<u8> {
    ("PR created for '").spec_bytes() + title + ("' but could not be merged automatically: ").spec_bytes()
        + stderr
}

/// The successful terminal value.
pub open spec fn publish_ok_spec(m: PublishMachineSpec) -> PublishResultSpec {
    PublishResultSpec {
        success: true,
        message: m.message,
        file_path: Some(publish_article_path(m.slug)),
    }
}

/// Failing while nothing needs restoring: terminal at once.
pub open spec fn publish_fail_now(m: PublishMachineSpec, e: Seq<u8>) -> (
    PublishMachineSpec,
    PublishActionSpec,
) {
    (
        PublishMachineSpec { state: PublishState::Done, outcome: Some(Err(e)), ..m },
        PublishActionSpec::Finished,
    )
}

/// Failing before any branch switch: pop the stash first if one was made,
/// then fail.
pub open spec fn publish_fail_pop_first(m: PublishMachineSpec, e: Seq<u8>) -> (
    PublishMachineSpec,
    PublishActionSpec,
) {
    if m.stashed {
        (
            PublishMachineSpec {
                state: PublishState::AwaitAbortPop,
                pending_error: e,
                issued_stash_pop: true,
                ..m
            },
            PublishActionSpec::Run(GitCmdSpec::StashPop),
        )
    } else {
        publish_fail_now(m, e)
    }
}

/// Failing after the branch switch: check out the original branch first,
/// then pop if needed, then fail.
pub open spec fn publish_fail_restore_first(m: PublishMachineSpec, e: Seq<u8>) -> (
    PublishMachineSpec,
    PublishActionSpec,
) {
    (
        PublishMachineSpec {
            state: PublishState::AwaitAbortCheckout,
            pending_error: e,
            issued_restore_checkout: true,
            ..m
        },
        PublishActionSpec::Run(GitCmdSpec::Checkout(m.original_branch)),
    )
}

/// The complete transition table of the publish machine.
pub open spec fn publish_step_spec(m: PublishMachineSpec, o: CmdOutcomeSpec) -> (
    PublishMachineSpec,
    PublishActionSpec,
) {
    match m.state {
        PublishState::Start => (
            PublishMachineSpec { state: PublishState::AwaitStatus, ..m },
            PublishActionSpec::Run(GitCmdSpec::Status),
        ),
        PublishState::AwaitStatus => {
            if !o.success {
                publish_fail_now(m, msg_spec(("git status failed: ").spec_bytes(), o.stderr))
            } else if !is_blank(o.stdout) {
                (
                    PublishMachineSpec { state: PublishState::AwaitStash, ..m },
                    PublishActionSpec::Run(GitCmdSpec::StashPush),
                )
            } else {
                (
                    PublishMachineSpec { state: PublishState::AwaitRevParse, ..m },
                    PublishActionSpec::Run(GitCmdSpec::RevParseHead),
                )
            }
        },
        PublishState::AwaitStash => {
            if !o.success {
                publish_fail_now(m, msg_spec(("git stash failed: ").spec_bytes(), o.stderr))
            } else {
                (
                    PublishMachineSpec { state: PublishState::AwaitRevParse, stashed: true, ..m },
                    PublishActionSpec::Run(GitCmdSpec::RevParseHead),
                )
            }
        },
        PublishState::AwaitRevParse => (
            PublishMachineSpec {
                state: PublishState::AwaitFetchMain,
                original_branch: trim_spec(o.stdout),
                ..m
            },
            PublishActionSpec::Run(GitCmdSpec::FetchOrigin(("main").spec_bytes())),
        ),
        PublishState::AwaitFetchMain => (
            // the fetch is best-effort: its outcome is not inspected
            PublishMachineSpec { state: PublishState::AwaitShowRef, ..m },
            PublishActionSpec::Run(GitCmdSpec::ShowRefBranch(m.branch)),
        ),
        PublishState::AwaitShowRef => {
            if o.success {
                (
                    PublishMachineSpec { state: PublishState::AwaitCheckout, ..m },
                    PublishActionSpec::Run(GitCmdSpec::Checkout(m.branch)),
                )
            } else {
                (
                    PublishMachineSpec { state: PublishState::AwaitCreate, ..m },
                    PublishActionSpec::Run(
                        GitCmdSpec::CheckoutNewFrom(m.branch, ("origin/main").spec_bytes()),
                    ),
                )
            }
        },
        PublishState::AwaitCheckout => {
            if o.success {
                (
                    PublishMachineSpec { state: PublishState::AwaitStage, switched: true, ..m },
                    PublishActionSpec::Stage,
                )
            } else {
                publish_fail_pop_first(
                    m,
                    msg_spec(("Failed to checkout publish branch: ").spec_bytes(), o.stderr),
                )
            }
        },
        PublishState::AwaitCreate => {
            if o.success {
                (
                    PublishMachineSpec { state: PublishState::AwaitStage, switched: true, ..m },
                    PublishActionSpec::Stage,
                )
            } else {
                (
                    PublishMachineSpec { state: PublishState::AwaitCreateFallback, ..m },
                    PublishActionSpec::Run(
                        GitCmdSpec::CheckoutNewFrom(m.branch, ("main").spec_bytes()),
                    ),
                )
            }
        },
        PublishState::AwaitCreateFallback => {
            if o.success {
                (
                    PublishMachineSpec { state: PublishState::AwaitStage, switched: true, ..m },
                    PublishActionSpec::Stage,
                )
            } else {
                publish_fail_pop_first(
                    m,
                    msg_spec(("Failed to create publish branch: ").spec_bytes(), o.stderr),
                )
            }
        },
        PublishState::AwaitStage => {
            if o.success {
                (
                    PublishMachineSpec { state: PublishState::AwaitAdd, ..m },
                    PublishActionSpec::Run(GitCmdSpec::AddContent),
                )
            } else {
                publish_fail_restore_first(m, o.stderr)
            }
        },
        PublishState::AwaitAdd => {
            if o.success {
                (
                    PublishMachineSpec { state: PublishState::AwaitCommit, ..m },
                    PublishActionSpec::Run(GitCmdSpec::Commit(m.commit_message)),
                )
            } else {
                publish_fail_restore_first(
                    m,
                    msg_spec(("git add failed: ").spec_bytes(), o.stderr),
                )
            }
        },
        PublishState::AwaitCommit => {
            if o.success || commit_benign(o.stderr) {
                (
                    PublishMachineSpec { state: PublishState::AwaitPush, ..m },
                    PublishActionSpec::Run(GitCmdSpec::Push(m.branch)),
                )
            } else {
                publish_fail_restore_first(
                    m,
                    msg_spec(("git commit failed: ").spec_bytes(), o.stderr),
                )
            }
        },
        PublishState::AwaitPush => {
            if o.success {
                (
                    PublishMachineSpec { state: PublishState::AwaitPrList, ..m },
                    PublishActionSpec::Run(GitCmdSpec::PrList(m.branch)),
                )
            } else {
                publish_fail_restore_first(
                    m,
                    msg_spec(("git push failed: ").spec_bytes(), o.stderr),
                )
            }
        },
        PublishState::AwaitPrList => {
            // the listing's stdout is the PR number, if one exists
            if trim_spec(o.stdout).len() > 0 {
                (
                    PublishMachineSpec {
                        state: PublishState::AwaitMerge,
                        pr_number: trim_spec(o.stdout),
                        ..m
                    },
                    PublishActionSpec::Run(GitCmdSpec::PrMerge(trim_spec(o.stdout))),
                )
            } else {
                (
                    PublishMachineSpec { state: PublishState::AwaitPrCreate, ..m },
                    PublishActionSpec::Run(
                        GitCmdSpec::PrCreate(("Publish: ").spec_bytes() + m.title, m.branch),
                    ),
                )
            }
        },
        PublishState::AwaitPrCreate => {
            if o.success {
                (
                    PublishMachineSpec { state: PublishState::AwaitPrListAgain, ..m },
                    PublishActionSpec::Run(GitCmdSpec::PrList(m.branch)),
                )
            } else {
                publish_fail_restore_first(
                    m,
                    msg_spec(("Failed to create PR: ").spec_bytes(), o.stderr),
                )
            }
        },
        PublishState::AwaitPrListAgain => {
            if trim_spec(o.stdout).len() > 0 {
                (
                    PublishMachineSpec {
                        state: PublishState::AwaitMerge,
                        pr_number: trim_spec(o.stdout),
                        ..m
                    },
                    PublishActionSpec::Run(GitCmdSpec::PrMerge(trim_spec(o.stdout))),
                )
            } else {
                publish_fail_restore_first(m, ("Failed to resolve PR number").spec_bytes())
            }
        },
        PublishState::AwaitMerge => {
            // a failed merge downgrades to success with a manual-merge note
            (
                PublishMachineSpec {
                    state: PublishState::AwaitFinalCheckout,
                    message: if o.success {
                        merged_message()
                    } else {
                        manual_merge_message(m.title, o.stderr)
                    },
                    issued_restore_checkout: true,
                    ..m
                },
                PublishActionSpec::Run(GitCmdSpec::Checkout(m.original_branch)),
            )
        },
        PublishState::AwaitFinalCheckout => {
            // the checkout back is best-effort: its outcome is not inspected
            if m.stashed {
                (
                    PublishMachineSpec {
                        state: PublishState::AwaitFinalPop,
                        issued_stash_pop: true,
                        ..m
                    },
                    PublishActionSpec::Run(GitCmdSpec::StashPop),
                )
            } else {
                (
                    PublishMachineSpec {
                        state: PublishState::Done,
                        outcome: Some(Ok(publish_ok_spec(m))),
                        ..m
                    },
                    PublishActionSpec::Finished,
                )
            }
        },
        PublishState::AwaitFinalPop => (
            // the pop is best-effort here, unlike the sync flow
            PublishMachineSpec {
                state: PublishState::Done,
                outcome: Some(Ok(publish_ok_spec(m))),
                ..m
            },
            PublishActionSpec::Finished,
        ),
        PublishState::AwaitAbortCheckout => {
            // best-effort: the checkout outcome is not inspected
            if m.stashed {
                (
                    PublishMachineSpec {
                        state: PublishState::AwaitAbortPop,
                        issued_stash_pop: true,
                        ..m
                    },
                    PublishActionSpec::Run(GitCmdSpec::StashPop),
                )
            } else {
                publish_fail_now(m, m.pending_error)
            }
        },
        PublishState::AwaitAbortPop => {
            // best-effort: the pop outcome is not inspected
            publish_fail_now(m, m.pending_error)
        },
        PublishState::Done => (m, PublishActionSpec::Finished),
    }
}

impl PublishMachineSpec {
    /// The machine has reached a terminal state.
    pub open spec fn is_terminal(self) -> bool {
        self.state is Done
    }

    /// States before any branch switch can have happened.
    pub open spec fn pre_switch(self) -> bool {
        ||| self.state is Start
        ||| self.state is AwaitStatus
        ||| self.state is AwaitStash
        ||| self.state is AwaitRevParse
        ||| self.state is AwaitFetchMain
        ||| self.state is AwaitShowRef
        ||| self.state is AwaitCheckout
        ||| self.state is AwaitCreate
        ||| self.state is AwaitCreateFallback
    }

    /// States at or after the point where the original branch must have
    /// been checked out again if it was ever left.
    pub open spec fn restore_phase(self) -> bool {
        ||| self.state is AwaitFinalCheckout
        ||| self.state is AwaitFinalPop
        ||| self.state is AwaitAbortCheckout
        ||| self.state is AwaitAbortPop
        ||| self.state is Done
    }

    /// States at or after the point where the stash must have been popped
    /// if one was created.
    pub open spec fn pop_phase(self) -> bool {
        ||| self.state is AwaitFinalPop
        ||| self.state is AwaitAbortPop
        ||| self.state is Done
    }

    /// The guard invariant, as in the sync flow.
    pub open spec fn wf(self) -> bool {
        &&& (self.state is Done <==> self.outcome is Some)
        &&& (self.pre_switch() ==> !self.switched)
        &&& ((self.state is Start || self.state is AwaitStatus || self.state is AwaitStash)
            ==> !self.stashed)
        &&& (self.restore_phase() && self.switched ==> self.issued_restore_checkout)
        &&& (self.pop_phase() && self.stashed ==> self.issued_stash_pop)
    }
}

/// Every step of the publish machine preserves the guard invariant.
pub proof fn lemma_publish_step_preserves_wf(m: PublishMachineSpec, o: CmdOutcomeSpec)
    requires
        m.wf(),
        !m.is_terminal(),
    ensures
        publish_step_spec(m, o).0.wf(),
{
}

/// The work-tree guard, at the machine's level: once the machine is done,
/// it has issued `checkout <original>` if it ever switched away, and
/// `stash pop` if it ever stashed.
pub proof fn lemma_publish_guard_restores(m: PublishMachineSpec)
    requires
        m.wf(),
        m.is_terminal(),
    ensures
        m.switched ==> m.issued_restore_checkout,
        m.stashed ==> m.issued_stash_pop,
{
}

/// A commit whose stderr reports nothing to commit is benign: the machine
/// proceeds to push instead of failing.
pub proof fn lemma_publish_benign_commit_pushes(m: PublishMachineSpec, o: CmdOutcomeSpec)
    requires
        m.state is AwaitCommit,
        !o.success,
        commit_benign(o.stderr),
    ensures
        publish_step_spec(m, o).1 == PublishActionSpec::Run(GitCmdSpec::Push(m.branch)),
        publish_step_spec(m, o).0.state is AwaitPush,
{
}

/// A failed merge does not fail publishing: the machine still restores the
/// work tree and ends successfully, with a message that a manual merge is
/// required, and the article path in the result.
pub proof fn lemma_publish_merge_failure_still_succeeds(
    m: PublishMachineSpec,
    o: CmdOutcomeSpec,
    rest: PublishMachineSpec,
)
    requires
        m.wf(),
        m.state is AwaitMerge,
        !o.success,
        rest == publish_step_spec(m, o).0,
    ensures
        rest.message == manual_merge_message(m.title, o.stderr),
        rest.state is AwaitFinalCheckout,
        !rest.stashed ==> forall|o2: CmdOutcomeSpec|
            {
                let after = (#[trigger] publish_step_spec(rest, o2)).0;
                after.outcome matches Some(Ok(r)) && r.success && r.message
                    == manual_merge_message(m.title, o.stderr) && r.file_path == Some(
                    publish_article_path(m.slug),
                )
            },
        rest.stashed ==> forall|o2: CmdOutcomeSpec, o3: CmdOutcomeSpec|
            {
                let after = (#[trigger] publish_step_spec(publish_step_spec(rest, o2).0, o3)).0;
                after.outcome matches Some(Ok(r)) && r.success && r.message
                    == manual_merge_message(m.title, o.stderr) && r.file_path == Some(
                    publish_article_path(m.slug),
                )
            },
{
}

impl PublishMachine {
    /// A fresh machine for one document: nothing observed, nothing issued.
    pub fn new(slug: Vec<u8>, title: Vec<u8>, commit_message: Vec<u8>) -> (m: PublishMachine)
        ensures
            m@.state is Start,
            m@.slug == slug@,
            m@.title == title@,
            m@.commit_message == commit_message@,
            m@.branch == drafts_branch_spec(slug@),
            m@.original_branch == Seq::<u8>::empty(),
            m@.pr_number == Seq::<u8>::empty(),
            m@.message == Seq::<u8>::empty(),
            !m@.stashed,
            !m@.switched,
            !m@.issued_restore_checkout,
            !m@.issued_stash_pop,
            m@.outcome is None,
            m@.wf(),
    {
        let branch = drafts_branch(slug.as_slice());
        PublishMachine {
            state: PublishState::Start,
            slug,
            title,
            commit_message,
            branch,
            original_branch: Vec::new(),
            pr_number: Vec::new(),
            message: Vec::new(),
            stashed: false,
            switched: false,
            issued_restore_checkout: false,
            issued_stash_pop: false,
            pending_error: Vec::new(),
            outcome: None,
        }
    }

    /// One transition: feeds the outcome of the awaited command (ignored in
    /// the start state) and returns the next action, exactly as the
    /// transition table `publish_step_spec` prescribes.
    #[verifier::rlimit(100)]
    pub fn step(&mut self, o: &CmdOutcome) -> (a: PublishAction)
        requires
            !old(self)@.is_terminal(),
            old(self)@.wf(),
        ensures
            (final(self)@, a@) == publish_step_spec(old(self)@, o@),
            final(self)@.wf(),
    {
        proof {
            lemma_publish_step_preserves_wf(old(self)@, o@);
        }
        match self.state {
            PublishState::Start => {
                self.state = PublishState::AwaitStatus;
                PublishAction::Run(GitCmd::Status)
            },
            PublishState::AwaitStatus => {
                if !o.success {
                    self.state = PublishState::Done;
                    self.outcome = Some(
                        Err(prefixed_bytes("git status failed: ", o.stderr.as_slice())),
                    );
                    PublishAction::Finished
                } else if !all_blank(o.stdout.as_slice()) {
                    self.state = PublishState::AwaitStash;
                    PublishAction::Run(GitCmd::StashPush)
                } else {
                    self.state = PublishState::AwaitRevParse;
                    PublishAction::Run(GitCmd::RevParseHead)
                }
            },
            PublishState::AwaitStash => {
                if !o.success {
                    self.state = PublishState::Done;
                    self.outcome = Some(
                        Err(prefixed_bytes("git stash failed: ", o.stderr.as_slice())),
                    );
                    PublishAction::Finished
                } else {
                    self.state = PublishState::AwaitRevParse;
                    self.stashed = true;
                    PublishAction::Run(GitCmd::RevParseHead)
                }
            },
            PublishState::AwaitRevParse => {
                self.state = PublishState::AwaitFetchMain;
                self.original_branch = trim_ascii(o.stdout.as_slice());
                PublishAction::Run(GitCmd::FetchOrigin("main".as_bytes_vec()))
            },
            PublishState::AwaitFetchMain => {
                self.state = PublishState::AwaitShowRef;
                PublishAction::Run(GitCmd::ShowRefBranch(self.branch.clone()))
            },
            PublishState::AwaitShowRef => {
                if o.success {
                    self.state = PublishState::AwaitCheckout;
                    PublishAction::Run(GitCmd::Checkout(self.branch.clone()))
                } else {
                    self.state = PublishState::AwaitCreate;
                    PublishAction::Run(
                        GitCmd::CheckoutNewFrom(
                            self.branch.clone(),
                            "origin/main".as_bytes_vec(),
                        ),
                    )
                }
            },
            PublishState::AwaitCheckout => {
                if o.success {
                    self.state = PublishState::AwaitStage;
                    self.switched = true;
                    PublishAction::Stage
                } else {
                    let e = prefixed_bytes(
                        "Failed to checkout publish branch: ",
                        o.stderr.as_slice(),
                    );
                    self.fail_pop_first(e)
                }
            },
            PublishState::AwaitCreate => {
                if o.success {
                    self.state = PublishState::AwaitStage;
                    self.switched = true;
                    PublishAction::Stage
                } else {
                    self.state = PublishState::AwaitCreateFallback;
                    PublishAction::Run(
                        GitCmd::CheckoutNewFrom(self.branch.clone(), "main".as_bytes_vec()),
                    )
                }
            },
            PublishState::AwaitCreateFallback => {
                if o.success {
                    self.state = PublishState::AwaitStage;
                    self.switched = true;
                    PublishAction::Stage
                } else {
                    let e = prefixed_bytes(
                        "Failed to create publish branch: ",
                        o.stderr.as_slice(),
                    );
                    self.fail_pop_first(e)
                }
            },
            PublishState::AwaitStage => {
                if o.success {
                    self.state = PublishState::AwaitAdd;
                    PublishAction::Run(GitCmd::AddContent)
                } else {
                    let e = copy_bytes(o.stderr.as_slice());
                    self.fail_restore_first(e)
                }
            },
            PublishState::AwaitAdd => {
                if o.success {
                    self.state = PublishState::AwaitCommit;
                    PublishAction::Run(GitCmd::Commit(self.commit_message.clone()))
                } else {
                    let e = prefixed_bytes("git add failed: ", o.stderr.as_slice());
                    self.fail_restore_first(e)
                }
            },
            PublishState::AwaitCommit => {
                if o.success || is_commit_benign(o.stderr.as_slice()) {
                    self.state = PublishState::AwaitPush;
                    PublishAction::Run(GitCmd::Push(self.branch.clone()))
                } else {
                    let e = prefixed_bytes("git commit failed: ", o.stderr.as_slice());
                    self.fail_restore_first(e)
                }
            },
            PublishState::AwaitPush => {
                if o.success {
                    self.state = PublishState::AwaitPrList;
                    PublishAction::Run(GitCmd::PrList(self.branch.clone()))
                } else {
                    let e = prefixed_bytes("git push failed: ", o.stderr.as_slice());
                    self.fail_restore_first(e)
                }
            },
            PublishState::AwaitPrList => {
                let pr = trim_ascii(o.stdout.as_slice());
                if pr.len() > 0 {
                    self.state = PublishState::AwaitMerge;
                    self.pr_number = pr;
                    PublishAction::Run(GitCmd::PrMerge(self.pr_number.clone()))
                } else {
                    self.state = PublishState::AwaitPrCreate;
                    let title = prefixed_bytes("Publish: ", self.title.as_slice());
                    PublishAction::Run(GitCmd::PrCreate(title, self.branch.clone()))
                }
            },
            PublishState::AwaitPrCreate => {
                if o.success {
                    self.state = PublishState::AwaitPrListAgain;
                    PublishAction::Run(GitCmd::PrList(self.branch.clone()))
                } else {
                    let e = prefixed_bytes("Failed to create PR: ", o.stderr.as_slice());
                    self.fail_restore_first(e)
                }
            },
            PublishState::AwaitPrListAgain => {
                let pr = trim_ascii(o.stdout.as_slice());
                if pr.len() > 0 {
                    self.state = PublishState::AwaitMerge;
                    self.pr_number = pr;
                    PublishAction::Run(GitCmd::PrMerge(self.pr_number.clone()))
                } else {
                    let e = "Failed to resolve PR number".as_bytes_vec();
                    self.fail_restore_first(e)
                }
            },
            PublishState::AwaitMerge => {
                self.state = PublishState::AwaitFinalCheckout;
                if o.success {
                    self.message = "PR created and merged successfully.".as_bytes_vec();
                } else {
                    let mut msg = prefixed_bytes("PR created for '", self.title.as_slice());
                    let mid = "' but could not be merged automatically: ".as_bytes_vec();
                    msg.extend_from_slice(mid.as_slice());
                    msg.extend_from_slice(o.stderr.as_slice());
                    proof {
                        assert(msg@ =~= manual_merge_message(self@.title, o@.stderr));
                    }
                    self.message = msg;
                }
                self.issued_restore_checkout = true;
                PublishAction::Run(GitCmd::Checkout(self.original_branch.clone()))
            },
            PublishState::AwaitFinalCheckout => {
                if self.stashed {
                    self.state = PublishState::AwaitFinalPop;
                    self.issued_stash_pop = true;
                    PublishAction::Run(GitCmd::StashPop)
                } else {
                    self.state = PublishState::Done;
                    self.outcome = Some(Ok(self.ok_result()));
                    PublishAction::Finished
                }
            },
            PublishState::AwaitFinalPop => {
                self.state = PublishState::Done;
                self.outcome = Some(Ok(self.ok_result()));
                PublishAction::Finished
            },
            PublishState::AwaitAbortCheckout => {
                if self.stashed {
                    self.state = PublishState::AwaitAbortPop;
                    self.issued_stash_pop = true;
                    PublishAction::Run(GitCmd::StashPop)
                } else {
                    self.state = PublishState::Done;
                    let e = copy_bytes(self.pending_error.as_slice());
                    self.outcome = Some(Err(e));
                    PublishAction::Finished
                }
            },
            PublishState::AwaitAbortPop => {
                self.state = PublishState::Done;
                let e = copy_bytes(self.pending_error.as_slice());
                self.outcome = Some(Err(e));
                PublishAction::Finished
            },
            PublishState::Done => PublishAction::Finished,
        }
    }

    /// The successful terminal value for this machine.
    fn ok_result(&self) -> (r: PublishResult)
        ensures
            r@ == publish_ok_spec(self@),
    {
        let mut path = "content/articles/".as_bytes_vec();
        path.extend_from_slice(self.slug.as_slice());
        let md = ".md".as_bytes_vec();
        path.extend_from_slice(md.as_slice());
        proof {
            assert(path@ =~= publish_article_path(self@.slug));
        }
        PublishResult {
            success: true,
            message: self.message.clone(),
            file_path: Some(path),
        }
    }

    /// Fails, popping the stash first when one was created (used before any
    /// branch switch).
    fn fail_pop_first(&mut self, e: Vec<u8>) -> (a: PublishAction)
        ensures
            (final(self)@, a@) == publish_fail_pop_first(old(self)@, e@),
    {
        if self.stashed {
            self.state = PublishState::AwaitAbortPop;
            self.pending_error = e;
            self.issued_stash_pop = true;
            PublishAction::Run(GitCmd::StashPop)
        } else {
            self.state = PublishState::Done;
            self.outcome = Some(Err(e));
            PublishAction::Finished
        }
    }

    /// Fails, checking the original branch out first (used after the branch
    /// switch).
    fn fail_restore_first(&mut self, e: Vec<u8>) -> (a: PublishAction)
        ensures
            (final(self)@, a@) == publish_fail_restore_first(old(self)@, e@),
    {
        self.state = PublishState::AwaitAbortCheckout;
        self.pending_error = e;
        self.issued_restore_checkout = true;
        PublishAction::Run(GitCmd::Checkout(self.original_branch.clone()))
    }
}

} // verus!
