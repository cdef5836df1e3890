//! The work on one branch, as a state machine.
//!
//! A [`Session`] is the work on one local branch between two steps. It is
//! driven from outside: [`Session::begin`] hands out the first request, and
//! each call of [`Session::step`] takes the reply to the pending request and
//! either hands out the next one or says how the work ended. What a session
//! does is fixed by [`SessionView::begin`] and [`SessionView::step`].

use crate::command::{GitCommand, GitCommandView, Reply, ReplyView, Request, RequestView};
use crate::git::{
    checkout, completed, confirms_ancestry, delete_branch, fast_forward_merge, has_file,
    has_file_path, make_range, resolved_range, symbolic_full_name, trimmed_output, update_ref,
    GitErrorView, Range, RangeView,
};
use crate::report::{opt_report, Failure, FailureView, Report, ReportView};
use crate::status::{
    evidence, evidence_for, local_ref, local_ref_name, remote_ref, remote_ref_name, upstream_name,
    upstream_of, BranchStatus, BranchStatusView, Evidence,
};
use crate::tracking::BranchRemotes;
use vstd::prelude::*;

verus! {

/// What holds for a whole run: the remote that is synced, its default
/// branch, and which remote each local branch tracks.
#[derive(Clone, Debug)]
pub struct Context {
    pub remote: String,
    pub default_branch: String,
    pub tracking: BranchRemotes,
}

/// Mathematical value of a [`Context`].
pub struct ContextView {
    pub remote: Seq<char>,
    pub default_branch: Seq<char>,
    pub tracking: Map<Seq<char>, Seq<char>>,
}

impl View for Context {
    type V = ContextView;

    open spec fn view(&self) -> ContextView {
        ContextView {
            remote: self.remote@,
            default_branch: self.default_branch@,
            tracking: self.tracking@,
        }
    }
}

impl ContextView {
    /// The full name of the ref that tracks the remote's default branch.
    pub open spec fn default_ref(self) -> Seq<char> {
        remote_ref(self.remote, self.default_branch)
    }

    /// The ref that a branch of the given status is compared with: its
    /// remote counterpart where it has one, else the default branch.
    pub open spec fn counterpart(self, status: BranchStatusView) -> Seq<char> {
        match status {
            BranchStatusView::RemoteExists(name) => name,
            _ => self.default_ref(),
        }
    }
}

/// How the work on a branch ended.
#[derive(Clone, Copy, Debug, PartialEq, Eq, Structural)]
pub enum Outcome {
    /// The branch is at its remote counterpart already.
    Synced,
    /// The branch is checked out and was moved forward by a fast-forward
    /// merge.
    FastForwarded,
    /// The branch is not checked out and was pointed at its remote
    /// counterpart.
    Repointed,
    /// The branch holds commits that the ref it was compared with lacks.
    /// It was left as it is.
    Diverged,
    /// The branch was deleted.
    Deleted,
    /// The branch was checked out; the default branch was checked out in
    /// its place, and the branch was deleted.
    CheckedOutAndDeleted,
    /// The branch was left as it is: nothing is known of its remote, or a
    /// step failed.
    Skipped,
}

/// What a session is waiting for.
#[derive(Clone, Debug, PartialEq, Eq)]
pub enum Stage {
    /// The name that the upstream of the branch resolves to.
    Upstream,
    /// The place where the repository keeps the remote's branch.
    TrackingPath,
    /// Whether there is a file at that place.
    TrackingFile,
    /// The two ends of the range.
    Resolving { status: BranchStatus },
    /// Whether the local tip is an ancestor of the other end.
    Ancestry { status: BranchStatus, range: Range },
    /// The end of the fast-forward merge.
    Merging { range: Range },
    /// The end of the ref update.
    Repointing { range: Range },
    /// The end of the checkout of the default branch.
    CheckingOut { range: Range },
    /// The end of the deletion. `switched` tells whether the default
    /// branch was checked out first.
    Deleting { range: Range, switched: bool },
}

/// Mathematical value of a [`Stage`].
pub enum StageView {
    Upstream,
    TrackingPath,
    TrackingFile,
    Resolving { status: BranchStatusView },
    Ancestry { status: BranchStatusView, range: RangeView },
    Merging { range: RangeView },
    Repointing { range: RangeView },
    CheckingOut { range: RangeView },
    Deleting { range: RangeView, switched: bool },
}

impl View for Stage {
    type V = StageView;

    open spec fn view(&self) -> StageView {
        match *self {
            Stage::Upstream => StageView::Upstream,
            Stage::TrackingPath => StageView::TrackingPath,
            Stage::TrackingFile => StageView::TrackingFile,
            Stage::Resolving { status } => StageView::Resolving { status: status@ },
            Stage::Ancestry { status, range } => StageView::Ancestry {
                status: status@,
                range: range@,
            },
            Stage::Merging { range } => StageView::Merging { range: range@ },
            Stage::Repointing { range } => StageView::Repointing { range: range@ },
            Stage::CheckingOut { range } => StageView::CheckingOut { range: range@ },
            Stage::Deleting { range, switched } => StageView::Deleting { range: range@, switched },
        }
    }
}

impl StageView {
    /// Whether the session has not asked for any change yet: it is still
    /// finding out how the branch stands.
    pub open spec fn inquiring(self) -> bool {
        self is Upstream || self is TrackingPath || self is TrackingFile || self is Resolving
            || self is Ancestry
    }
}

/// The work on one local branch, between two steps.
#[derive(Clone, Debug, PartialEq, Eq)]
pub struct Session {
    local: String,
    current: String,
    stage: Stage,
}

/// Mathematical value of a [`Session`]: the branch that is worked on, the
/// branch that is checked out, and what the session is waiting for.
pub struct SessionView {
    pub local: Seq<char>,
    pub current: Seq<char>,
    pub stage: StageView,
}

impl View for Session {
    type V = SessionView;

    closed spec fn view(&self) -> SessionView {
        SessionView { local: self.local@, current: self.current@, stage: self.stage@ }
    }
}

/// What a step of a session leads to.
#[derive(Clone, Debug, PartialEq, Eq)]
pub enum Progress {
    /// The session goes on once `request` has been carried out.
    Ask { session: Session, request: Request },
    /// The work on the branch has ended. `report` is what to tell the user,
    /// `current` the branch that is checked out now.
    Done { outcome: Outcome, report: Option<Report>, current: String },
}

/// Mathematical value of a [`Progress`].
pub enum ProgressView {
    Ask { session: SessionView, request: RequestView },
    Done { outcome: Outcome, report: Option<ReportView>, current: Seq<char> },
}

impl View for Progress {
    type V = ProgressView;

    open spec fn view(&self) -> ProgressView {
        match *self {
            Progress::Ask { session, request } => ProgressView::Ask {
                session: session@,
                request: request@,
            },
            Progress::Done { outcome, report, current } => ProgressView::Done {
                outcome,
                report: opt_report(report),
                current: current@,
            },
        }
    }
}

/// The step that goes on with `command`, at `stage`.
pub open spec fn asks(
    local: Seq<char>,
    current: Seq<char>,
    stage: StageView,
    command: GitCommandView,
) -> ProgressView {
    ProgressView::Ask {
        session: SessionView { local, current, stage },
        request: RequestView::Run(command),
    }
}

/// The step that ends the work with `outcome` and `report`.
pub open spec fn ends(outcome: Outcome, report: ReportView, current: Seq<char>) -> ProgressView {
    ProgressView::Done { outcome, report: Some(report), current }
}

/// The step that ends the work without a word, leaving the branch alone.
pub open spec fn skips(current: Seq<char>) -> ProgressView {
    ProgressView::Done { outcome: Outcome::Skipped, report: None, current }
}

/// The step that ends the work because of `failure`, leaving the branch
/// as it is by then.
pub open spec fn fails(local: Seq<char>, current: Seq<char>, failure: FailureView) -> ProgressView {
    ProgressView::Done {
        outcome: Outcome::Skipped,
        report: Some(ReportView::Failed { branch: local, failure }),
        current,
    }
}

/// The step that follows once the status of the branch is known: a branch
/// of unknown status is skipped, any other is compared with its
/// counterpart.
pub open spec fn resolves(
    ctx: ContextView,
    local: Seq<char>,
    current: Seq<char>,
    status: BranchStatusView,
) -> ProgressView {
    match status {
        BranchStatusView::Unknown => skips(current),
        _ => asks(
            local,
            current,
            StageView::Resolving { status },
            GitCommandView::RevParse { a: local_ref(local), b: ctx.counterpart(status) },
        ),
    }
}

impl SessionView {
    /// The first step of the work on `local` while `current` is checked
    /// out. A branch without a tracking setting is compared with the ref of
    /// its name under the remote. For a branch that tracks the remote, the
    /// session asks what its upstream resolves to; for one that tracks
    /// another remote, where the remote's branch of its name would be kept.
    pub open spec fn begin(ctx: ContextView, local: Seq<char>, current: Seq<char>) -> (
        SessionView,
        RequestView,
    ) {
        match evidence_for(local, ctx.remote, ctx.tracking) {
            Evidence::Nothing => (
                SessionView {
                    local,
                    current,
                    stage: StageView::Resolving {
                        status: BranchStatusView::RemoteExists(remote_ref(ctx.remote, local)),
                    },
                },
                RequestView::Run(
                    GitCommandView::RevParse {
                        a: local_ref(local),
                        b: remote_ref(ctx.remote, local),
                    },
                ),
            ),
            Evidence::Upstream => (
                SessionView { local, current, stage: StageView::Upstream },
                RequestView::Run(GitCommandView::SymbolicFullName { name: upstream_of(local) }),
            ),
            Evidence::TrackingFile => (
                SessionView { local, current, stage: StageView::TrackingPath },
                RequestView::Run(GitCommandView::GitPath { path: remote_ref(ctx.remote, local) }),
            ),
        }
    }

    /// The step that `reply`, the reply to the pending request, leads to.
    pub open spec fn step(self, ctx: ContextView, reply: ReplyView) -> ProgressView {
        let local = self.local;
        let current = self.current;
        match self.stage {
            StageView::Upstream => match trimmed_output(reply) {
                Some(name) => resolves(ctx, local, current, BranchStatusView::RemoteExists(name)),
                None => resolves(ctx, local, current, BranchStatusView::RemoteGone),
            },
            StageView::TrackingPath => match trimmed_output(reply) {
                Some(path) => ProgressView::Ask {
                    session: SessionView { local, current, stage: StageView::TrackingFile },
                    request: RequestView::Probe { path },
                },
                None => resolves(ctx, local, current, BranchStatusView::Unknown),
            },
            StageView::TrackingFile => if reply == (ReplyView::Probed { exists: true }) {
                resolves(
                    ctx,
                    local,
                    current,
                    BranchStatusView::RemoteExists(remote_ref(ctx.remote, local)),
                )
            } else {
                resolves(ctx, local, current, BranchStatusView::Unknown)
            },
            StageView::Resolving { status } => match resolved_range(
                local_ref(local),
                ctx.counterpart(status),
                reply,
            ) {
                Err(e) => fails(local, current, FailureView::Resolve(e)),
                Ok(range) => match status {
                    BranchStatusView::RemoteExists(_) => if range.is_identical() {
                        ProgressView::Done { outcome: Outcome::Synced, report: None, current }
                    } else {
                        asks(
                            local,
                            current,
                            StageView::Ancestry { status, range },
                            range.ancestry_query(),
                        )
                    },
                    BranchStatusView::RemoteGone => asks(
                        local,
                        current,
                        StageView::Ancestry { status, range },
                        range.ancestry_query(),
                    ),
                    BranchStatusView::Unknown => skips(current),
                },
            },
            StageView::Ancestry { status, range } => match status {
                BranchStatusView::RemoteExists(target) => if !confirms_ancestry(reply) {
                    ends(Outcome::Diverged, ReportView::Unpushed { branch: local }, current)
                } else if local == current {
                    asks(
                        local,
                        current,
                        StageView::Merging { range },
                        GitCommandView::FastForwardMerge { branch: target },
                    )
                } else {
                    asks(
                        local,
                        current,
                        StageView::Repointing { range },
                        GitCommandView::UpdateRef {
                            full_branch: local_ref(local),
                            remote_branch: target,
                        },
                    )
                },
                BranchStatusView::RemoteGone => if !confirms_ancestry(reply) {
                    ends(
                        Outcome::Diverged,
                        ReportView::Unmerged {
                            branch: local,
                            remote: ctx.remote,
                            default_branch: ctx.default_branch,
                        },
                        current,
                    )
                } else if local == current {
                    asks(
                        local,
                        current,
                        StageView::CheckingOut { range },
                        GitCommandView::Checkout { branch: ctx.default_branch },
                    )
                } else {
                    asks(
                        local,
                        current,
                        StageView::Deleting { range, switched: false },
                        GitCommandView::DeleteBranch { branch: local },
                    )
                },
                BranchStatusView::Unknown => skips(current),
            },
            StageView::Merging { range } => match completed(
                reply,
                GitErrorView::FastForwardMerge,
            ) {
                Ok(_) => ends(
                    Outcome::FastForwarded,
                    ReportView::Updated { branch: local, was: range.short_id() },
                    current,
                ),
                Err(e) => fails(local, current, FailureView::FastForward(e)),
            },
            StageView::Repointing { range } => match completed(reply, GitErrorView::UpdateRef) {
                Ok(_) => ends(
                    Outcome::Repointed,
                    ReportView::Updated { branch: local, was: range.short_id() },
                    current,
                ),
                Err(e) => fails(local, current, FailureView::UpdateRef(e)),
            },
            StageView::CheckingOut { range } => match completed(reply, GitErrorView::Checkout) {
                Ok(_) => asks(
                    local,
                    ctx.default_branch,
                    StageView::Deleting { range, switched: true },
                    GitCommandView::DeleteBranch { branch: local },
                ),
                Err(e) => fails(local, current, FailureView::Checkout(e)),
            },
            StageView::Deleting { range, switched } => match completed(
                reply,
                GitErrorView::DeleteBranch,
            ) {
                Ok(_) => ends(
                    if switched {
                        Outcome::CheckedOutAndDeleted
                    } else {
                        Outcome::Deleted
                    },
                    ReportView::Deleted { branch: local, was: range.short_id() },
                    current,
                ),
                Err(e) => fails(local, current, FailureView::Delete(e)),
            },
        }
    }
}

impl Context {
    /// The full name of the ref that tracks the remote's default branch.
    pub fn default_ref(&self) -> (r: String)
        ensures
            r@ == self@.default_ref(),
    {
        remote_ref_name(self.remote.as_str(), self.default_branch.as_str())
    }

    /// The ref that a branch of the given status is compared with.
    pub fn counterpart(&self, status: &BranchStatus) -> (r: String)
        ensures
            r@ == self@.counterpart(status@),
    {
        match status {
            BranchStatus::RemoteExists(name) => name.clone(),
            _ => self.default_ref(),
        }
    }
}

impl Session {
    /// The branch that is worked on.
    pub fn local(&self) -> (r: &String)
        ensures
            r@ == self@.local,
    {
        &self.local
    }

    /// The branch that is checked out.
    pub fn current(&self) -> (r: &String)
        ensures
            r@ == self@.current,
    {
        &self.current
    }

    /// What the session is waiting for.
    pub fn stage(&self) -> (r: &Stage)
        ensures
            r@ == self@.stage,
    {
        &self.stage
    }

    /// Goes on with `command`, at `stage`.
    fn ask(local: String, current: String, stage: Stage, command: GitCommand) -> (r: Progress)
        ensures
            r@ == asks(local@, current@, stage@, command@),
    {
        Progress::Ask { session: Session { local, current, stage }, request: Request::Run(command) }
    }

    /// Ends the work with `outcome` and `report`.
    fn end(outcome: Outcome, report: Report, current: String) -> (r: Progress)
        ensures
            r@ == ends(outcome, report@, current@),
    {
        Progress::Done { outcome, report: Some(report), current }
    }

    /// Ends the work without a word.
    fn skip(current: String) -> (r: Progress)
        ensures
            r@ == skips(current@),
    {
        Progress::Done { outcome: Outcome::Skipped, report: None, current }
    }

    /// Ends the work because of `failure`.
    fn fail(local: String, current: String, failure: Failure) -> (r: Progress)
        ensures
            r@ == fails(local@, current@, failure@),
    {
        Progress::Done {
            outcome: Outcome::Skipped,
            report: Some(Report::Failed { branch: local, failure }),
            current,
        }
    }

    /// Goes on with a branch whose status is known.
    fn resolve(
        ctx: &Context,
        local: String,
        current: String,
        status: BranchStatus,
    ) -> (r: Progress)
        ensures
            r@ == resolves(ctx@, local@, current@, status@),
    {
        match status {
            BranchStatus::Unknown => Session::skip(current),
            status => {
                let a = local_ref_name(local.as_str());
                let b = ctx.counterpart(&status);
                Session::ask(
                    local,
                    current,
                    Stage::Resolving { status },
                    GitCommand::RevParse { a, b },
                )
            },
        }
    }

    /// Begins the work on `local` while `current` is checked out, and
    /// hands out the first request.
    pub fn begin(ctx: &Context, local: String, current: String) -> (r: (Session, Request))
        ensures
            (r.0@, r.1@) == SessionView::begin(ctx@, local@, current@),
    {
        match evidence(local.as_str(), ctx.remote.as_str(), &ctx.tracking) {
            Evidence::Nothing => {
                let a = local_ref_name(local.as_str());
                let b = remote_ref_name(ctx.remote.as_str(), local.as_str());
                let status = BranchStatus::RemoteExists(b.clone());
                (
                    Session { local, current, stage: Stage::Resolving { status } },
                    Request::Run(GitCommand::RevParse { a, b }),
                )
            },
            Evidence::Upstream => {
                let name = upstream_name(local.as_str());
                (
                    Session { local, current, stage: Stage::Upstream },
                    Request::Run(GitCommand::SymbolicFullName { name }),
                )
            },
            Evidence::TrackingFile => {
                let path = remote_ref_name(ctx.remote.as_str(), local.as_str());
                (
                    Session { local, current, stage: Stage::TrackingPath },
                    Request::Run(GitCommand::GitPath { path }),
                )
            },
        }
    }

    /// Takes the reply to the pending request and either hands out the
    /// next request or says how the work on the branch ended.
    pub fn step(self, ctx: &Context, reply: &Reply) -> (r: Progress)
        ensures
            r@ == self@.step(ctx@, reply@),
    {
        let Session { local, current, stage } = self;
        match stage {
            Stage::Upstream => match symbolic_full_name(reply) {
                Some(name) => Session::resolve(
                    ctx,
                    local,
                    current,
                    BranchStatus::RemoteExists(name),
                ),
                None => Session::resolve(ctx, local, current, BranchStatus::RemoteGone),
            },
            Stage::TrackingPath => match has_file_path(reply) {
                Some(path) => Progress::Ask {
                    session: Session { local, current, stage: Stage::TrackingFile },
                    request: Request::Probe { path },
                },
                None => Session::resolve(ctx, local, current, BranchStatus::Unknown),
            },
            Stage::TrackingFile => if has_file(reply) {
                let name = remote_ref_name(ctx.remote.as_str(), local.as_str());
                Session::resolve(ctx, local, current, BranchStatus::RemoteExists(name))
            } else {
                Session::resolve(ctx, local, current, BranchStatus::Unknown)
            },
            Stage::Resolving { status } => {
                let a = local_ref_name(local.as_str());
                let b = ctx.counterpart(&status);
                match make_range(a.as_str(), b.as_str(), reply) {
                    Err(e) => Session::fail(local, current, Failure::Resolve(e)),
                    Ok(range) => match status {
                        BranchStatus::RemoteExists(name) => if range.is_identical() {
                            Progress::Done { outcome: Outcome::Synced, report: None, current }
                        } else {
                            let query = range.ancestry_query();
                            Session::ask(
                                local,
                                current,
                                Stage::Ancestry {
                                    status: BranchStatus::RemoteExists(name),
                                    range,
                                },
                                query,
                            )
                        },
                        BranchStatus::RemoteGone => {
                            let query = range.ancestry_query();
                            Session::ask(
                                local,
                                current,
                                Stage::Ancestry { status: BranchStatus::RemoteGone, range },
                                query,
                            )
                        },
                        BranchStatus::Unknown => Session::skip(current),
                    },
                }
            },
            Stage::Ancestry { status, range } => match status {
                BranchStatus::RemoteExists(target) => if !range.is_ancestor(reply) {
                    let report = Report::Unpushed { branch: local };
                    Session::end(Outcome::Diverged, report, current)
                } else if local == current {
                    Session::ask(
                        local,
                        current,
                        Stage::Merging { range },
                        GitCommand::FastForwardMerge { branch: target },
                    )
                } else {
                    let full_branch = local_ref_name(local.as_str());
                    Session::ask(
                        local,
                        current,
                        Stage::Repointing { range },
                        GitCommand::UpdateRef { full_branch, remote_branch: target },
                    )
                },
                BranchStatus::RemoteGone => if !range.is_ancestor(reply) {
                    let report = Report::Unmerged {
                        branch: local,
                        remote: ctx.remote.clone(),
                        default_branch: ctx.default_branch.clone(),
                    };
                    Session::end(Outcome::Diverged, report, current)
                } else if local == current {
                    Session::ask(
                        local,
                        current,
                        Stage::CheckingOut { range },
                        GitCommand::Checkout { branch: ctx.default_branch.clone() },
                    )
                } else {
                    let branch = local.clone();
                    Session::ask(
                        local,
                        current,
                        Stage::Deleting { range, switched: false },
                        GitCommand::DeleteBranch { branch },
                    )
                },
                BranchStatus::Unknown => Session::skip(current),
            },
            Stage::Merging { range } => match fast_forward_merge(reply) {
                Ok(_) => {
                    let report = Report::Updated { branch: local, was: range.short_id() };
                    Session::end(Outcome::FastForwarded, report, current)
                },
                Err(e) => Session::fail(local, current, Failure::FastForward(e)),
            },
            Stage::Repointing { range } => match update_ref(reply) {
                Ok(_) => {
                    let report = Report::Updated { branch: local, was: range.short_id() };
                    Session::end(Outcome::Repointed, report, current)
                },
                Err(e) => Session::fail(local, current, Failure::UpdateRef(e)),
            },
            Stage::CheckingOut { range } => match checkout(reply) {
                Ok(_) => {
                    let branch = local.clone();
                    Session::ask(
                        local,
                        ctx.default_branch.clone(),
                        Stage::Deleting { range, switched: true },
                        GitCommand::DeleteBranch { branch },
                    )
                },
                Err(e) => Session::fail(local, current, Failure::Checkout(e)),
            },
            Stage::Deleting { range, switched } => match delete_branch(reply) {
                Ok(_) => {
                    let report = Report::Deleted { branch: local, was: range.short_id() };
                    let outcome = if switched {
                        Outcome::CheckedOutAndDeleted
                    } else {
                        Outcome::Deleted
                    };
                    Session::end(outcome, report, current)
                },
                Err(e) => Session::fail(local, current, Failure::Delete(e)),
            },
        }
    }
}

} // verus!
