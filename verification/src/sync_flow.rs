//! The sync orchestrator: a state machine that drives the external git tool
//! to push one document onto its `drafts/<slug>` branch.
//!
//! The machine embodies the work-tree guard: if the tree was dirty a stash
//! is created first, and on every path that reaches a terminal state after
//! the branch switch, the machine has issued the checkout back to the
//! original branch, and the stash pop whenever a stash was created. On the
//! success path a failed stash pop is an error of its own (it risks losing
//! uncommitted work); on failure paths restoration is best-effort so the
//! primary error is not masked.

use vstd::prelude::*;
use vstd::string::*;

use crate::bytes::{is_blank, all_blank, trim_spec, trim_ascii};
use crate::gitops::{
    CmdOutcome, CmdOutcomeSpec, GitCmd, GitCmdSpec, drafts_branch_spec, drafts_branch,
    origin_of_spec, origin_of, commit_benign, is_commit_benign, msg_spec, prefixed_bytes,
};

verus! {

/// Where the sync machine stands: which command it awaits the outcome of.
#[derive(Clone, Copy, PartialEq, Eq, Structural, Debug)]
pub enum SyncState {
    /// Created, nothing issued yet.
    Start,
    AwaitStatus,
    AwaitStash,
    AwaitRevParse,
    AwaitShowRef,
    AwaitFetch,
    AwaitCreate,
    AwaitCreateHead,
    AwaitCheckout,
    AwaitPull,
    AwaitStage,
    AwaitAdd,
    AwaitCommit,
    AwaitPush,
    AwaitFinalCheckout,
    AwaitFinalPop,
    /// Failing; restoring the original branch first.
    AwaitAbortCheckout,
    /// Failing; popping the stash first.
    AwaitAbortPop,
    Done,
}

/// The terminal value of a successful sync.
pub struct SyncResult {
    pub success: bool,
    pub message: Vec<u8>,
    pub branch: Vec<u8>,
}

/// Spec-level sync result.
pub struct SyncResultSpec {
    pub success: bool,
    pub message: Seq<u8>,
    pub branch: Seq<u8>,
}

impl View for SyncResult {
    type V = SyncResultSpec;

    open spec fn view(&self) -> SyncResultSpec {
        SyncResultSpec { success: self.success, message: self.message@, branch: self.branch@ }
    }
}

/// What the machine asks the application to do next.
pub enum SyncAction {
    /// Run this command and feed back its outcome.
    Run(GitCmd),
    /// Build and write the draft files (directories, images, article);
    /// feed back success, with any error text in the outcome's stderr.
    Stage,
    /// Terminal: read the machine's outcome.
    Finished,
}

/// Spec-level sync action.
pub enum SyncActionSpec {
    Run(GitCmdSpec),
    Stage,
    Finished,
}

impl View for SyncAction {
    type V = SyncActionSpec;

    open spec fn view(&self) -> SyncActionSpec {
        match self {
            SyncAction::Run(c) => SyncActionSpec::Run(c@),
            SyncAction::Stage => SyncActionSpec::Stage,
            SyncAction::Finished => SyncActionSpec::Finished,
        }
    }
}

/// The sync machine: the awaited state, the document identity, what the
/// guard has observed (stash created, branch switched) and what it has
/// already issued to undo it.
pub struct SyncMachine {
    pub state: SyncState,
    pub slug: Vec<u8>,
    pub title: Vec<u8>,
    /// `drafts/<slug>`.
    pub branch: Vec<u8>,
    /// The branch to restore, from `rev-parse --abbrev-ref HEAD`.
    pub original_branch: Vec<u8>,
    /// A stash was created at entry.
    pub stashed: bool,
    /// The work tree left the original branch.
    pub switched: bool,
    /// The machine has issued `checkout <original>`.
    pub issued_restore_checkout: bool,
    /// The machine has issued `stash pop`.
    pub issued_stash_pop: bool,
    /// The primary error, kept while restoration commands run.
    pub pending_error: Vec<u8>,
    /// Set exactly when `state` is `Done`.
    pub outcome: Option<Result<SyncResult, Vec<u8>>>,
}

/// Spec-level sync machine.
pub struct SyncMachineSpec {
    pub state: SyncState,
    pub slug: Seq<u8>,
    pub title: Seq<u8>,
    pub branch: Seq<u8>,
    pub original_branch: Seq<u8>,
    pub stashed: bool,
    pub switched: bool,
    pub issued_restore_checkout: bool,
    pub issued_stash_pop: bool,
    pub pending_error: Seq<u8>,
    pub outcome: Option<Result<SyncResultSpec, Seq<u8>>>,
}

impl View for SyncMachine {
    type V = SyncMachineSpec;

    open spec fn view(&self) -> SyncMachineSpec {
        SyncMachineSpec {
            state: self.state,
            slug: self.slug@,
            title: self.title@,
            branch: self.branch@,
            original_branch: self.original_branch@,
            stashed: self.stashed,
            switched: self.switched,
            issued_restore_checkout: self.issued_restore_checkout,
            issued_stash_pop: self.issued_stash_pop,
            pending_error: self.pending_error@,
            outcome: match &self.outcome {
                Some(Ok(r)) => Some(Ok(r@)),
                Some(Err(e)) => Some(Err(e@)),
                None => None,
            },
        }
    }
}

/// The message of a successful sync.
pub open spec fn sync_ok_message(title: Seq<u8>) -> Seq<u8> {
    ("Draft '").spec_bytes() + title + ("' synced to drafts branch").spec_bytes()
}

/// The successful terminal value.
pub open spec fn sync_ok_spec(m: SyncMachineSpec) -> SyncResultSpec {
    SyncResultSpec { success: true, message: sync_ok_message(m.title), branch: m.branch }
}

/// Failing while nothing needs restoring: terminal at once.
pub open spec fn sync_fail_now(m: SyncMachineSpec, e: Seq<u8>) -> (SyncMachineSpec, SyncActionSpec) {
    (
        SyncMachineSpec { state: SyncState::Done, outcome: Some(Err(e)), ..m },
        SyncActionSpec::Finished,
    )
}

/// Failing before any branch switch: pop the stash first if one was made,
/// then fail.
pub open spec fn sync_fail_pop_first(m: SyncMachineSpec, e: Seq<u8>) -> (
    SyncMachineSpec,
    SyncActionSpec,
) {
    if m.stashed {
        (
            SyncMachineSpec {
                state: SyncState::AwaitAbortPop,
                pending_error: e,
                issued_stash_pop: true,
                ..m
            },
            SyncActionSpec::Run(GitCmdSpec::StashPop),
        )
    } else {
        sync_fail_now(m, e)
    }
}

/// Failing after the branch switch: check out the original branch first,
/// then pop if needed, then fail.
pub open spec fn sync_fail_restore_first(m: SyncMachineSpec, e: Seq<u8>) -> (
    SyncMachineSpec,
    SyncActionSpec,
) {
    (
        SyncMachineSpec {
            state: SyncState::AwaitAbortCheckout,
            pending_error: e,
            issued_restore_checkout: true,
            ..m
        },
        SyncActionSpec::Run(GitCmdSpec::Checkout(m.original_branch)),
    )
}

/// The complete transition table of the sync machine: from a non-terminal
/// state and the outcome of the awaited command, to the next machine and
/// the next action.
pub open spec fn sync_step_spec(m: SyncMachineSpec, o: CmdOutcomeSpec) -> (
    SyncMachineSpec,
    SyncActionSpec,
) {
    match m.state {
        SyncState::Start => (
            SyncMachineSpec { state: SyncState::AwaitStatus, ..m },
            SyncActionSpec::Run(GitCmdSpec::Status),
        ),
        SyncState::AwaitStatus => {
            if !o.success {
                sync_fail_now(m, msg_spec(("git status failed: ").spec_bytes(), o.stderr))
            } else if !is_blank(o.stdout) {
                (
                    SyncMachineSpec { state: SyncState::AwaitStash, ..m },
                    SyncActionSpec::Run(GitCmdSpec::StashPush),
                )
            } else {
                (
                    SyncMachineSpec { state: SyncState::AwaitRevParse, ..m },
                    SyncActionSpec::Run(GitCmdSpec::RevParseHead),
                )
            }
        },
        SyncState::AwaitStash => {
            if !o.success {
                sync_fail_now(m, msg_spec(("git stash failed: ").spec_bytes(), o.stderr))
            } else {
                (
                    SyncMachineSpec { state: SyncState::AwaitRevParse, stashed: true, ..m },
                    SyncActionSpec::Run(GitCmdSpec::RevParseHead),
                )
            }
        },
        SyncState::AwaitRevParse => (
            SyncMachineSpec {
                state: SyncState::AwaitShowRef,
                original_branch: trim_spec(o.stdout),
                ..m
            },
            SyncActionSpec::Run(GitCmdSpec::ShowRefBranch(m.branch)),
        ),
        SyncState::AwaitShowRef => {
            if o.success {
                (
                    SyncMachineSpec { state: SyncState::AwaitCheckout, ..m },
                    SyncActionSpec::Run(GitCmdSpec::Checkout(m.branch)),
                )
            } else {
                (
                    SyncMachineSpec { state: SyncState::AwaitFetch, ..m },
                    SyncActionSpec::Run(GitCmdSpec::FetchOrigin(m.branch)),
                )
            }
        },
        SyncState::AwaitFetch => {
            if o.success {
                (
                    SyncMachineSpec { state: SyncState::AwaitCreate, ..m },
                    SyncActionSpec::Run(
                        GitCmdSpec::CheckoutNewFrom(m.branch, origin_of_spec(m.branch)),
                    ),
                )
            } else {
                (
                    SyncMachineSpec { state: SyncState::AwaitCreate, ..m },
                    SyncActionSpec::Run(
                        GitCmdSpec::CheckoutNewFrom(m.branch, ("main").spec_bytes()),
                    ),
                )
            }
        },
        SyncState::AwaitCreate => {
            if o.success {
                (
                    SyncMachineSpec { state: SyncState::AwaitStage, switched: true, ..m },
                    SyncActionSpec::Stage,
                )
            } else {
                (
                    SyncMachineSpec { state: SyncState::AwaitCreateHead, ..m },
                    SyncActionSpec::Run(GitCmdSpec::CheckoutNew(m.branch)),
                )
            }
        },
        SyncState::AwaitCreateHead => {
            if o.success {
                (
                    SyncMachineSpec { state: SyncState::AwaitStage, switched: true, ..m },
                    SyncActionSpec::Stage,
                )
            } else {
                sync_fail_pop_first(
                    m,
                    msg_spec(("Failed to create drafts branch: ").spec_bytes(), o.stderr),
                )
            }
        },
        SyncState::AwaitCheckout => {
            if o.success {
                (
                    SyncMachineSpec { state: SyncState::AwaitPull, switched: true, ..m },
                    SyncActionSpec::Run(GitCmdSpec::Pull(m.branch)),
                )
            } else {
                sync_fail_pop_first(
                    m,
                    msg_spec(("Failed to checkout drafts branch: ").spec_bytes(), o.stderr),
                )
            }
        },
        SyncState::AwaitPull => (
            // the pull is best-effort: its outcome is not inspected
            SyncMachineSpec { state: SyncState::AwaitStage, ..m },
            SyncActionSpec::Stage,
        ),
        SyncState::AwaitStage => {
            if o.success {
                (
                    SyncMachineSpec { state: SyncState::AwaitAdd, ..m },
                    SyncActionSpec::Run(GitCmdSpec::AddDrafts),
                )
            } else {
                sync_fail_restore_first(m, o.stderr)
            }
        },
        SyncState::AwaitAdd => {
            if o.success {
                (
                    SyncMachineSpec { state: SyncState::AwaitCommit, ..m },
                    SyncActionSpec::Run(
                        GitCmdSpec::Commit(("Sync draft: ").spec_bytes() + m.title),
                    ),
                )
            } else {
                sync_fail_restore_first(
                    m,
                    msg_spec(("git add failed: ").spec_bytes(), o.stderr),
                )
            }
        },
        SyncState::AwaitCommit => {
            if o.success || commit_benign(o.stderr) {
                (
                    SyncMachineSpec { state: SyncState::AwaitPush, ..m },
                    SyncActionSpec::Run(GitCmdSpec::Push(m.branch)),
                )
            } else {
                sync_fail_restore_first(
                    m,
                    msg_spec(("git commit failed: ").spec_bytes(), o.stderr),
                )
            }
        },
        SyncState::AwaitPush => {
            if o.success {
                (
                    SyncMachineSpec {
                        state: SyncState::AwaitFinalCheckout,
                        issued_restore_checkout: true,
                        ..m
                    },
                    SyncActionSpec::Run(GitCmdSpec::Checkout(m.original_branch)),
                )
            } else {
                sync_fail_restore_first(
                    m,
                    msg_spec(("git push failed: ").spec_bytes(), o.stderr),
                )
            }
        },
        SyncState::AwaitFinalCheckout => {
            // the checkout back is best-effort: its outcome is not inspected
            if m.stashed {
                (
                    SyncMachineSpec {
                        state: SyncState::AwaitFinalPop,
                        issued_stash_pop: true,
                        ..m
                    },
                    SyncActionSpec::Run(GitCmdSpec::StashPop),
                )
            } else {
                (
                    SyncMachineSpec {
                        state: SyncState::Done,
                        outcome: Some(Ok(sync_ok_spec(m))),
                        ..m
                    },
                    SyncActionSpec::Finished,
                )
            }
        },
        SyncState::AwaitFinalPop => {
            // on the success path a lost stash must surface as an error
            if o.success {
                (
                    SyncMachineSpec {
                        state: SyncState::Done,
                        outcome: Some(Ok(sync_ok_spec(m))),
                        ..m
                    },
                    SyncActionSpec::Finished,
                )
            } else {
                sync_fail_now(m, msg_spec(("git stash pop failed: ").spec_bytes(), o.stderr))
            }
        },
        SyncState::AwaitAbortCheckout => {
            // best-effort: the checkout outcome is not inspected
            if m.stashed {
                (
                    SyncMachineSpec {
                        state: SyncState::AwaitAbortPop,
                        issued_stash_pop: true,
                        ..m
                    },
                    SyncActionSpec::Run(GitCmdSpec::StashPop),
                )
            } else {
                sync_fail_now(m, m.pending_error)
            }
        },
        SyncState::AwaitAbortPop => {
            // best-effort: the pop outcome is not inspected
            sync_fail_now(m, m.pending_error)
        },
        SyncState::Done => (m, SyncActionSpec::Finished),
    }
}

impl SyncMachineSpec {
    /// The machine has reached a terminal state.
    pub open spec fn is_terminal(self) -> bool {
        self.state is Done
    }

    /// States before any branch switch can have happened.
    pub open spec fn pre_switch(self) -> bool {
        ||| self.state is Start
        ||| self.state is AwaitStatus
        ||| self.state is AwaitStash
        ||| self.state is AwaitRevParse
        ||| self.state is AwaitShowRef
        ||| self.state is AwaitFetch
        ||| self.state is AwaitCreate
        ||| self.state is AwaitCreateHead
        ||| self.state is AwaitCheckout
    }

    /// States at or after the point where the original branch must have
    /// been checked out again if it was ever left.
    pub open spec fn restore_phase(self) -> bool {
        ||| self.state is AwaitFinalCheckout
        ||| self.state is AwaitFinalPop
        ||| self.state is AwaitAbortCheckout
        ||| self.state is AwaitAbortPop
        ||| self.state is Done
    }

    /// States at or after the point where the stash must have been popped
    /// if one was created.
    pub open spec fn pop_phase(self) -> bool {
        ||| self.state is AwaitFinalPop
        ||| self.state is AwaitAbortPop
        ||| self.state is Done
    }

    /// The guard invariant: an outcome is present exactly at the end; the
    /// branch cannot have been switched before the checkout steps; and by
    /// the restoring states the machine has issued the checkout back
    /// whenever it switched, and the stash pop whenever it stashed.
    pub open spec fn wf(self) -> bool {
        &&& (self.state is Done <==> self.outcome is Some)
        &&& (self.pre_switch() ==> !self.switched)
        &&& ((self.state is Start || self.state is AwaitStatus || self.state is AwaitStash)
            ==> !self.stashed)
        &&& (self.restore_phase() && self.switched ==> self.issued_restore_checkout)
        &&& (self.pop_phase() && self.stashed ==> self.issued_stash_pop)
    }
}

/// Every step of the sync machine preserves the guard invariant.
pub proof fn lemma_sync_step_preserves_wf(m: SyncMachineSpec, o: CmdOutcomeSpec)
    requires
        m.wf(),
        !m.is_terminal(),
    ensures
        sync_step_spec(m, o).0.wf(),
{
}

/// The work-tree guard, at the machine's level: once the machine is done,
/// it has issued `checkout <original>` if it ever switched away, and
/// `stash pop` if it ever stashed — on the success and the failure paths
/// alike.
pub proof fn lemma_sync_guard_restores(m: SyncMachineSpec)
    requires
        m.wf(),
        m.is_terminal(),
    ensures
        m.switched ==> m.issued_restore_checkout,
        m.stashed ==> m.issued_stash_pop,
{
}

/// A commit whose stderr reports nothing to commit is benign: the machine
/// proceeds to push instead of failing.
pub proof fn lemma_sync_benign_commit_pushes(m: SyncMachineSpec, o: CmdOutcomeSpec)
    requires
        m.state is AwaitCommit,
        !o.success,
        commit_benign(o.stderr),
    ensures
        sync_step_spec(m, o).1 == SyncActionSpec::Run(GitCmdSpec::Push(m.branch)),
        sync_step_spec(m, o).0.state is AwaitPush,
{
}

impl SyncMachine {
    /// A fresh machine for one document: nothing observed, nothing issued.
    pub fn new(slug: Vec<u8>, title: Vec<u8>) -> (m: SyncMachine)
        ensures
            m@.state is Start,
            m@.slug == slug@,
            m@.title == title@,
            m@.branch == drafts_branch_spec(slug@),
            m@.original_branch == Seq::<u8>::empty(),
            !m@.stashed,
            !m@.switched,
            !m@.issued_restore_checkout,
            !m@.issued_stash_pop,
            m@.pending_error == Seq::<u8>::empty(),
            m@.outcome is None,
            m@.wf(),
    {
        let branch = drafts_branch(slug.as_slice());
        SyncMachine {
            state: SyncState::Start,
            slug,
            title,
            branch,
            original_branch: Vec::new(),
            stashed: false,
            switched: false,
            issued_restore_checkout: false,
            issued_stash_pop: false,
            pending_error: Vec::new(),
            outcome: None,
        }
    }

    /// One transition: feeds the outcome of the awaited command (ignored in
    /// the start state) and returns the next action, exactly as the
    /// transition table `sync_step_spec` prescribes.
    #[verifier::rlimit(100)]
    pub fn step(&mut self, o: &CmdOutcome) -> (a: SyncAction)
        requires
            !old(self)@.is_terminal(),
            old(self)@.wf(),
        ensures
            (final(self)@, a@) == sync_step_spec(old(self)@, o@),
            final(self)@.wf(),
    {
        proof {
            lemma_sync_step_preserves_wf(old(self)@, o@);
        }
        match self.state {
            SyncState::Start => {
                self.state = SyncState::AwaitStatus;
                SyncAction::Run(GitCmd::Status)
            },
            SyncState::AwaitStatus => {
                if !o.success {
                    self.state = SyncState::Done;
                    self.outcome = Some(
                        Err(prefixed_bytes("git status failed: ", o.stderr.as_slice())),
                    );
                    SyncAction::Finished
                } else if !all_blank(o.stdout.as_slice()) {
                    self.state = SyncState::AwaitStash;
                    SyncAction::Run(GitCmd::StashPush)
                } else {
                    self.state = SyncState::AwaitRevParse;
                    SyncAction::Run(GitCmd::RevParseHead)
                }
            },
            SyncState::AwaitStash => {
                if !o.success {
                    self.state = SyncState::Done;
                    self.outcome = Some(
                        Err(prefixed_bytes("git stash failed: ", o.stderr.as_slice())),
                    );
                    SyncAction::Finished
                } else {
                    self.state = SyncState::AwaitRevParse;
                    self.stashed = true;
                    SyncAction::Run(GitCmd::RevParseHead)
                }
            },
            SyncState::AwaitRevParse => {
                self.state = SyncState::AwaitShowRef;
                self.original_branch = trim_ascii(o.stdout.as_slice());
                SyncAction::Run(GitCmd::ShowRefBranch(self.branch.clone()))
            },
            SyncState::AwaitShowRef => {
                if o.success {
                    self.state = SyncState::AwaitCheckout;
                    SyncAction::Run(GitCmd::Checkout(self.branch.clone()))
                } else {
                    self.state = SyncState::AwaitFetch;
                    SyncAction::Run(GitCmd::FetchOrigin(self.branch.clone()))
                }
            },
            SyncState::AwaitFetch => {
                if o.success {
                    self.state = SyncState::AwaitCreate;
                    let start_point = origin_of(self.branch.as_slice());
                    SyncAction::Run(GitCmd::CheckoutNewFrom(self.branch.clone(), start_point))
                } else {
                    self.state = SyncState::AwaitCreate;
                    SyncAction::Run(
                        GitCmd::CheckoutNewFrom(self.branch.clone(), "main".as_bytes_vec()),
                    )
                }
            },
            SyncState::AwaitCreate => {
                if o.success {
                    self.state = SyncState::AwaitStage;
                    self.switched = true;
                    SyncAction::Stage
                } else {
                    self.state = SyncState::AwaitCreateHead;
                    SyncAction::Run(GitCmd::CheckoutNew(self.branch.clone()))
                }
            },
            SyncState::AwaitCreateHead => {
                if o.success {
                    self.state = SyncState::AwaitStage;
                    self.switched = true;
                    SyncAction::Stage
                } else {
                    let e = prefixed_bytes(
                        "Failed to create drafts branch: ",
                        o.stderr.as_slice(),
                    );
                    self.fail_pop_first(e)
                }
            },
            SyncState::AwaitCheckout => {
                if o.success {
                    self.state = SyncState::AwaitPull;
                    self.switched = true;
                    SyncAction::Run(GitCmd::Pull(self.branch.clone()))
                } else {
                    let e = prefixed_bytes(
                        "Failed to checkout drafts branch: ",
                        o.stderr.as_slice(),
                    );
                    self.fail_pop_first(e)
                }
            },
            SyncState::AwaitPull => {
                self.state = SyncState::AwaitStage;
                SyncAction::Stage
            },
            SyncState::AwaitStage => {
                if o.success {
                    self.state = SyncState::AwaitAdd;
                    SyncAction::Run(GitCmd::AddDrafts)
                } else {
                    let e = crate::bytes::copy_bytes(o.stderr.as_slice());
                    self.fail_restore_first(e)
                }
            },
            SyncState::AwaitAdd => {
                if o.success {
                    self.state = SyncState::AwaitCommit;
                    let msg = prefixed_bytes("Sync draft: ", self.title.as_slice());
                    SyncAction::Run(GitCmd::Commit(msg))
                } else {
                    let e = prefixed_bytes("git add failed: ", o.stderr.as_slice());
                    self.fail_restore_first(e)
                }
            },
            SyncState::AwaitCommit => {
                if o.success || is_commit_benign(o.stderr.as_slice()) {
                    self.state = SyncState::AwaitPush;
                    SyncAction::Run(GitCmd::Push(self.branch.clone()))
                } else {
                    let e = prefixed_bytes("git commit failed: ", o.stderr.as_slice());
                    self.fail_restore_first(e)
                }
            },
            SyncState::AwaitPush => {
                if o.success {
                    self.state = SyncState::AwaitFinalCheckout;
                    self.issued_restore_checkout = true;
                    SyncAction::Run(GitCmd::Checkout(self.original_branch.clone()))
                } else {
                    let e = prefixed_bytes("git push failed: ", o.stderr.as_slice());
                    self.fail_restore_first(e)
                }
            },
            SyncState::AwaitFinalCheckout => {
                if self.stashed {
                    self.state = SyncState::AwaitFinalPop;
                    self.issued_stash_pop = true;
                    SyncAction::Run(GitCmd::StashPop)
                } else {
                    self.state = SyncState::Done;
                    self.outcome = Some(Ok(self.ok_result()));
                    SyncAction::Finished
                }
            },
            SyncState::AwaitFinalPop => {
                if o.success {
                    self.state = SyncState::Done;
                    self.outcome = Some(Ok(self.ok_result()));
                    SyncAction::Finished
                } else {
                    self.state = SyncState::Done;
                    self.outcome = Some(
                        Err(prefixed_bytes("git stash pop failed: ", o.stderr.as_slice())),
                    );
                    SyncAction::Finished
                }
            },
            SyncState::AwaitAbortCheckout => {
                if self.stashed {
                    self.state = SyncState::AwaitAbortPop;
                    self.issued_stash_pop = true;
                    SyncAction::Run(GitCmd::StashPop)
                } else {
                    self.state = SyncState::Done;
                    let e = crate::bytes::copy_bytes(self.pending_error.as_slice());
                    self.outcome = Some(Err(e));
                    SyncAction::Finished
                }
            },
            SyncState::AwaitAbortPop => {
                self.state = SyncState::Done;
                let e = crate::bytes::copy_bytes(self.pending_error.as_slice());
                self.outcome = Some(Err(e));
                SyncAction::Finished
            },
            SyncState::Done => SyncAction::Finished,
        }
    }

    /// The successful terminal value for this machine.
    fn ok_result(&self) -> (r: SyncResult)
        ensures
            r@ == sync_ok_spec(self@),
    {
        let message = prefixed_bytes("Draft '", self.title.as_slice());
        let mut message = message;
        let tail = "' synced to drafts branch".as_bytes_vec();
        message.extend_from_slice(tail.as_slice());
        proof {
            assert(message@ =~= sync_ok_message(self@.title));
        }
        SyncResult { success: true, message, branch: self.branch.clone() }
    }

    /// Fails, popping the stash first when one was created (used before any
    /// branch switch).
    fn fail_pop_first(&mut self, e: Vec<u8>) -> (a: SyncAction)
        ensures
            (final(self)@, a@) == sync_fail_pop_first(old(self)@, e@),
    {
        if self.stashed {
            self.state = SyncState::AwaitAbortPop;
            self.pending_error = e;
            self.issued_stash_pop = true;
            SyncAction::Run(GitCmd::StashPop)
        } else {
            self.state = SyncState::Done;
            self.outcome = Some(Err(e));
            SyncAction::Finished
        }
    }

    /// Fails, checking the original branch out first (used after the branch
    /// switch).
    fn fail_restore_first(&mut self, e: Vec<u8>) -> (a: SyncAction)
        ensures
            (final(self)@, a@) == sync_fail_restore_first(old(self)@, e@),
    {
        self.state = SyncState::AwaitAbortCheckout;
        self.pending_error = e;
        self.issued_restore_checkout = true;
        SyncAction::Run(GitCmd::Checkout(self.original_branch.clone()))
    }
}

} // verus!
