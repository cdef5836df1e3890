//! What holds of every session and every run, whatever the replies.
//!
//! The laws speak of the course that a session or a run takes when it is
//! fed replies, where `replies(i)` is the reply to the request that was
//! pending after `i` steps: [`after`] and [`run_after`] say what it has
//! come to after `n` of them.

use crate::command::{GitCommandView, ReplyView, RequestView};
use crate::git::{
    completed, confirms_ancestry, resolved_range, trimmed_output, GitErrorView, RangeView,
};
use crate::report::ReportView;
use crate::run::{AdvanceView, RunView, VerdictView};
use crate::session::{ContextView, Outcome, ProgressView, SessionView, StageView};
use crate::setup::{PreparedView, SetupStageView};
use crate::status::{evidence_for, local_ref, status_of, BranchStatusView, Evidence};
use crate::text::{is_space, lemma_lines_of_two, lemma_trimmed_line};
use vstd::prelude::*;

verus! {

/// What the work on `local`, begun while `current` was checked out, has
/// come to after `n` replies. Once the work has ended, further replies
/// change nothing.
pub open spec fn after(
    ctx: ContextView,
    local: Seq<char>,
    current: Seq<char>,
    replies: spec_fn(nat) -> ReplyView,
    n: nat,
) -> ProgressView
    decreases n,
{
    if n == 0 {
        let first = SessionView::begin(ctx, local, current);
        ProgressView::Ask { session: first.0, request: first.1 }
    } else {
        match after(ctx, local, current, replies, (n - 1) as nat) {
            ProgressView::Ask { session, .. } => session.step(ctx, replies((n - 1) as nat)),
            done => done,
        }
    }
}

/// What a run over `branches`, begun while `current` was checked out, has
/// come to after `n` replies.
pub open spec fn run_after(
    ctx: ContextView,
    branches: Seq<Seq<char>>,
    current: Seq<char>,
    replies: spec_fn(nat) -> ReplyView,
    n: nat,
) -> AdvanceView
    decreases n,
{
    if n == 0 {
        RunView::begin(ctx, branches, current)
    } else {
        match run_after(ctx, branches, current, replies, (n - 1) as nat) {
            AdvanceView::Ask { run, .. } => run.step(replies((n - 1) as nat)),
            done => done,
        }
    }
}

/// Whether a session has asked for nothing that changes the repository,
/// and still works on `local` with `current` checked out.
pub open spec fn untouched(p: ProgressView, local: Seq<char>, current: Seq<char>) -> bool {
    p matches ProgressView::Ask { session, request } && !request.mutates() && session.local
        == local && session.current == current
}

/// Whether the request that is pending in `p` asks to delete a branch.
pub open spec fn asks_deletion(p: ProgressView) -> bool {
    p matches ProgressView::Ask {
        request: RequestView::Run(GitCommandView::DeleteBranch { .. }),
        ..
    }
}

/// Whether the request that is pending in `p` asks for a fast-forward merge.
pub open spec fn asks_merge(p: ProgressView) -> bool {
    p matches ProgressView::Ask {
        request: RequestView::Run(GitCommandView::FastForwardMerge { .. }),
        ..
    }
}

/// Whether the request that is pending in `p` asks for a ref update.
pub open spec fn asks_update_ref(p: ProgressView) -> bool {
    p matches ProgressView::Ask { request: RequestView::Run(GitCommandView::UpdateRef { .. }), .. }
}

/// Whether the request that is pending in `p` changes the repository.
pub open spec fn asks_change(p: ProgressView) -> bool {
    p matches ProgressView::Ask { request, .. } && request.mutates()
}

/// Whether `reply` resolves the range from `a` to `b` to `range`.
pub open spec fn resolves_to(a: Seq<char>, b: Seq<char>, reply: ReplyView, range: RangeView) -> bool {
    resolved_range(a, b, reply) == Ok::<RangeView, GitErrorView>(range)
}

/// Whether the work has ended with the branch at its remote counterpart:
/// it was found there, or it was moved there.
pub open spec fn brought_up_to_date(p: ProgressView) -> bool {
    p matches ProgressView::Done { outcome, .. } && (outcome == Outcome::Synced || outcome
        == Outcome::FastForwarded || outcome == Outcome::Repointed)
}

/// A session that has ended stays as it ended.
pub proof fn law_end_is_final(
    ctx: ContextView,
    local: Seq<char>,
    current: Seq<char>,
    replies: spec_fn(nat) -> ReplyView,
    n: nat,
    m: nat,
)
    requires
        after(ctx, local, current, replies, n) is Done,
        n <= m,
    ensures
        after(ctx, local, current, replies, m) == after(ctx, local, current, replies, n),
    decreases m,
{
    if n < m {
        law_end_is_final(ctx, local, current, replies, n, (m - 1) as nat);
    }
}

/// While a session is finding out how its branch stands, it has asked for
/// nothing that changes the repository: every request up to then was a
/// query, and the branch that is checked out is the one it began with.
pub proof fn law_inquiry_changes_nothing(
    ctx: ContextView,
    local: Seq<char>,
    current: Seq<char>,
    replies: spec_fn(nat) -> ReplyView,
    n: nat,
)
    requires
        after(ctx, local, current, replies, n) matches ProgressView::Ask { session, .. }
            && session.stage.inquiring(),
    ensures
        forall|m: nat|
            m <= n ==> untouched(
                #[trigger] after(ctx, local, current, replies, m),
                local,
                current,
            ),
    decreases n,
{
    if n > 0 {
        let before = after(ctx, local, current, replies, (n - 1) as nat);
        assert(before is Ask);
        law_inquiry_changes_nothing(ctx, local, current, replies, (n - 1) as nat);
        assert(untouched(before, local, current));
    }
    assert forall|m: nat| m <= n implies untouched(
        #[trigger] after(ctx, local, current, replies, m),
        local,
        current,
    ) by {
        if m == n {
        }
    }
}

/// Whether, at step `n`, a session asked whether the local tip is an
/// ancestor of the other end of the range, and the reply confirmed it.
pub open spec fn ancestry_confirmed(
    ctx: ContextView,
    local: Seq<char>,
    current: Seq<char>,
    replies: spec_fn(nat) -> ReplyView,
    n: nat,
) -> bool {
    after(ctx, local, current, replies, n) matches ProgressView::Ask { session, .. }
        && session.stage is Ancestry && confirms_ancestry(replies(n))
}

/// A session asks for no change before it has been confirmed that the
/// local tip is an ancestor of the other end of the range: without that
/// confirmation, nothing is merged, repointed, checked out or deleted.
pub proof fn law_no_change_without_ancestry(
    ctx: ContextView,
    local: Seq<char>,
    current: Seq<char>,
    replies: spec_fn(nat) -> ReplyView,
    m: nat,
)
    requires
        asks_change(after(ctx, local, current, replies, m)),
    ensures
        exists|n: nat| n < m && ancestry_confirmed(ctx, local, current, replies, n),
{
    assert(m >= 1);
    let before = after(ctx, local, current, replies, (m - 1) as nat);
    assert(before is Ask);
    if before->session.stage is Ancestry {
        assert(ancestry_confirmed(ctx, local, current, replies, (m - 1) as nat));
    } else {
        assert(before->session.stage is CheckingOut);
        assert(m >= 2);
        let earlier = after(ctx, local, current, replies, (m - 2) as nat);
        assert(earlier is Ask);
        assert(ancestry_confirmed(ctx, local, current, replies, (m - 2) as nat));
    }
}

/// Whether the request that is pending in `p` is the one that belongs to
/// the stage of its session, where the stage alone tells it: the two ends
/// of the range, and then the ancestry of what they resolved to.
pub open spec fn in_step(ctx: ContextView, p: ProgressView) -> bool {
    p matches ProgressView::Ask { session, request } ==> match session.stage {
        StageView::Resolving { status } => request == RequestView::Run(
            GitCommandView::RevParse {
                a: local_ref(session.local),
                b: ctx.counterpart(status),
            },
        ),
        StageView::Ancestry { range, .. } => request == RequestView::Run(range.ancestry_query()),
        _ => true,
    }
}

/// A session always waits for the reply to the request of its stage.
proof fn lemma_in_step(
    ctx: ContextView,
    local: Seq<char>,
    current: Seq<char>,
    replies: spec_fn(nat) -> ReplyView,
    n: nat,
)
    ensures
        in_step(ctx, after(ctx, local, current, replies, n)),
    decreases n,
{
    if n > 0 {
        lemma_in_step(ctx, local, current, replies, (n - 1) as nat);
    }
}

/// Whether `request` is a change that fits a branch whose tip is an
/// ancestor of `other`: where `other` is the remote counterpart of the
/// branch, to move the branch forward to it; where it is the default
/// branch, to delete the branch, after leaving it if it is checked out.
pub open spec fn fits_comparison(
    ctx: ContextView,
    local: Seq<char>,
    current: Seq<char>,
    other: Seq<char>,
    status: BranchStatusView,
    request: RequestView,
) -> bool {
    match status {
        BranchStatusView::RemoteExists(target) => other == target && request == RequestView::Run(
            if local == current {
                GitCommandView::FastForwardMerge { branch: target }
            } else {
                GitCommandView::UpdateRef { full_branch: local_ref(local), remote_branch: target }
            },
        ),
        BranchStatusView::RemoteGone => other == ctx.default_ref() && request == RequestView::Run(
            if local == current {
                GitCommandView::Checkout { branch: ctx.default_branch }
            } else {
                GitCommandView::DeleteBranch { branch: local }
            },
        ),
        BranchStatusView::Unknown => false,
    }
}

/// The first change that a session asks for follows a comparison, and is
/// about what was compared. Two steps before, the session asked for the
/// two ends of the range from the branch to another ref, and they
/// resolved; one step before, it asked whether the first of the two
/// commits is an ancestor of the second, and that was confirmed. The
/// change then fits: a branch is moved forward to the ref that its tip is
/// an ancestor of, and deleted only where its tip is an ancestor of the
/// default branch.
pub proof fn law_change_follows_comparison(
    ctx: ContextView,
    local: Seq<char>,
    current: Seq<char>,
    replies: spec_fn(nat) -> ReplyView,
    m: nat,
)
    requires
        asks_change(after(ctx, local, current, replies, m)),
        m >= 1 ==> !asks_change(after(ctx, local, current, replies, (m - 1) as nat)),
    ensures
        m >= 2,
        exists|other: Seq<char>, status: BranchStatusView, range: RangeView|
            {
                &&& #[trigger] fits_comparison(
                    ctx,
                    local,
                    current,
                    other,
                    status,
                    after(ctx, local, current, replies, m)->request,
                )
                &&& after(ctx, local, current, replies, (m - 2) as nat) matches ProgressView::Ask {
                    request,
                    ..
                } && request == RequestView::Run(
                    GitCommandView::RevParse { a: local_ref(local), b: other },
                )
                &&& #[trigger] resolves_to(local_ref(local), other, replies((m - 2) as nat), range)
                &&& after(ctx, local, current, replies, (m - 1) as nat) matches ProgressView::Ask {
                    request,
                    ..
                } && request == RequestView::Run(range.ancestry_query())
                &&& confirms_ancestry(replies((m - 1) as nat))
            },
{
    assert(m >= 1);
    let asked = after(ctx, local, current, replies, (m - 1) as nat);
    assert(asked is Ask);
    assert(asked->session.stage is Ancestry);
    law_inquiry_changes_nothing(ctx, local, current, replies, (m - 1) as nat);
    assert(untouched(asked, local, current));
    lemma_in_step(ctx, local, current, replies, (m - 1) as nat);
    assert(m >= 2);
    let compared = after(ctx, local, current, replies, (m - 2) as nat);
    assert(compared is Ask);
    assert(compared->session.stage is Resolving);
    assert(untouched(compared, local, current));
    lemma_in_step(ctx, local, current, replies, (m - 2) as nat);
    let status = compared->session.stage->Resolving_status;
    let other = ctx.counterpart(status);
    let range = asked->session.stage->Ancestry_range;
    assert(resolves_to(local_ref(local), other, replies((m - 2) as nat), range));
    assert(fits_comparison(
        ctx,
        local,
        current,
        other,
        status,
        after(ctx, local, current, replies, m)->request,
    ));
}

/// A branch that has a remote counterpart with the same tip is left
/// alone, and nothing is said about it: the work ends as synced without a
/// report, and no request, before or after, changes the repository.
pub proof fn law_synced_is_silent(
    ctx: ContextView,
    local: Seq<char>,
    current: Seq<char>,
    replies: spec_fn(nat) -> ReplyView,
    n: nat,
    target: Seq<char>,
    range: RangeView,
)
    requires
        after(ctx, local, current, replies, n) matches ProgressView::Ask { session, .. }
            && session.stage == (StageView::Resolving {
            status: BranchStatusView::RemoteExists(target),
        }),
        resolves_to(local_ref(local), target, replies(n), range),
        range.is_identical(),
    ensures
        forall|m: nat|
            m > n ==> #[trigger] after(ctx, local, current, replies, m) == (ProgressView::Done {
                outcome: Outcome::Synced,
                report: None,
                current,
            }),
        forall|m: nat| !asks_change(#[trigger] after(ctx, local, current, replies, m)),
{
    law_inquiry_changes_nothing(ctx, local, current, replies, n);
    assert(untouched(after(ctx, local, current, replies, n), local, current));
    let end = after(ctx, local, current, replies, n + 1);
    assert(end == (ProgressView::Done { outcome: Outcome::Synced, report: None, current }));
    assert forall|m: nat| m > n implies #[trigger] after(ctx, local, current, replies, m)
        == end by {
        law_end_is_final(ctx, local, current, replies, n + 1, m);
    }
    assert forall|m: nat| !asks_change(#[trigger] after(ctx, local, current, replies, m)) by {
        if m <= n {
            assert(untouched(after(ctx, local, current, replies, m), local, current));
        } else {
            assert(after(ctx, local, current, replies, m) == end);
        }
    }
}

/// A branch that is behind its remote counterpart is moved forward by a
/// ref update when it is not checked out, and by a fast-forward merge when
/// it is.
pub proof fn law_update_by_ref_or_merge(
    ctx: ContextView,
    local: Seq<char>,
    current: Seq<char>,
    replies: spec_fn(nat) -> ReplyView,
    n: nat,
    target: Seq<char>,
    range: RangeView,
)
    requires
        after(ctx, local, current, replies, n) matches ProgressView::Ask { session, .. }
            && session.stage == (StageView::Ancestry {
            status: BranchStatusView::RemoteExists(target),
            range,
        }),
        confirms_ancestry(replies(n)),
    ensures
        after(ctx, local, current, replies, n + 1) matches ProgressView::Ask { request, .. }
            && request == RequestView::Run(
            if local == current {
                GitCommandView::FastForwardMerge { branch: target }
            } else {
                GitCommandView::UpdateRef { full_branch: local_ref(local), remote_branch: target }
            },
        ),
{
    law_inquiry_changes_nothing(ctx, local, current, replies, n);
    assert(untouched(after(ctx, local, current, replies, n), local, current));
}

/// A session never asks for a fast-forward merge of a branch that is not
/// checked out, and never for a ref update of the branch that is.
pub proof fn law_merge_only_when_checked_out(
    ctx: ContextView,
    local: Seq<char>,
    current: Seq<char>,
    replies: spec_fn(nat) -> ReplyView,
    m: nat,
)
    ensures
        asks_merge(after(ctx, local, current, replies, m)) ==> local == current,
        asks_update_ref(after(ctx, local, current, replies, m)) ==> local != current,
{
    let now = after(ctx, local, current, replies, m);
    if asks_merge(now) || asks_update_ref(now) {
        assert(m > 0);
        let before = after(ctx, local, current, replies, (m - 1) as nat);
        assert(before matches ProgressView::Ask { session, .. } && session.stage is Ancestry);
        law_inquiry_changes_nothing(ctx, local, current, replies, (m - 1) as nat);
        assert(untouched(before, local, current));
    }
}

/// A branch whose remote counterpart is gone and whose tip is not known
/// to be an ancestor of the default branch is kept: the work ends with a
/// warning, and no request, before or after, changes the repository. In
/// particular the branch is never deleted.
pub proof fn law_unmerged_is_kept(
    ctx: ContextView,
    local: Seq<char>,
    current: Seq<char>,
    replies: spec_fn(nat) -> ReplyView,
    n: nat,
    range: RangeView,
)
    requires
        after(ctx, local, current, replies, n) matches ProgressView::Ask { session, .. }
            && session.stage == (StageView::Ancestry {
            status: BranchStatusView::RemoteGone,
            range,
        }),
        !confirms_ancestry(replies(n)),
    ensures
        forall|m: nat|
            m > n ==> #[trigger] after(ctx, local, current, replies, m) == (ProgressView::Done {
                outcome: Outcome::Diverged,
                report: Some(
                    ReportView::Unmerged {
                        branch: local,
                        remote: ctx.remote,
                        default_branch: ctx.default_branch,
                    },
                ),
                current,
            }),
        forall|m: nat| !asks_change(#[trigger] after(ctx, local, current, replies, m)),
        forall|m: nat| !asks_deletion(#[trigger] after(ctx, local, current, replies, m)),
{
    law_inquiry_changes_nothing(ctx, local, current, replies, n);
    assert(untouched(after(ctx, local, current, replies, n), local, current));
    let end = after(ctx, local, current, replies, n + 1);
    assert(end is Done);
    assert forall|m: nat| m > n implies #[trigger] after(ctx, local, current, replies, m)
        == end by {
        law_end_is_final(ctx, local, current, replies, n + 1, m);
    }
    assert forall|m: nat| !asks_change(#[trigger] after(ctx, local, current, replies, m)) by {
        if m <= n {
            assert(untouched(after(ctx, local, current, replies, m), local, current));
        } else {
            assert(after(ctx, local, current, replies, m) == end);
        }
    }
    assert forall|m: nat| !asks_deletion(#[trigger] after(ctx, local, current, replies, m)) by {
        assert(!asks_change(after(ctx, local, current, replies, m)));
    }
}

/// A session deletes no branch but its own, and the branch that is checked
/// out only after the default branch has been checked out in its place:
/// the request before the deletion was that checkout, it succeeded, and
/// the session has taken note of it.
pub proof fn law_checkout_precedes_deletion(
    ctx: ContextView,
    local: Seq<char>,
    current: Seq<char>,
    replies: spec_fn(nat) -> ReplyView,
    m: nat,
)
    requires
        asks_deletion(after(ctx, local, current, replies, m)),
    ensures
        after(ctx, local, current, replies, m) matches ProgressView::Ask { session, request }
            && request == RequestView::Run(GitCommandView::DeleteBranch { branch: local }) && (
        local == current ==> m >= 1 && session.current == ctx.default_branch && completed(
            replies((m - 1) as nat),
            GitErrorView::Checkout,
        ) is Ok && (after(ctx, local, current, replies, (m - 1) as nat) matches ProgressView::Ask {
            request: asked,
            ..
        } && asked == RequestView::Run(GitCommandView::Checkout { branch: ctx.default_branch }))),
{
    assert(m >= 1);
    let before = after(ctx, local, current, replies, (m - 1) as nat);
    assert(before is Ask);
    let held = before->session;
    if held.stage is Ancestry {
        law_inquiry_changes_nothing(ctx, local, current, replies, (m - 1) as nat);
        assert(untouched(before, local, current));
    } else {
        assert(held.stage is CheckingOut);
        assert(m >= 2);
        let earlier = after(ctx, local, current, replies, (m - 2) as nat);
        assert(earlier is Ask);
        assert(earlier->session.stage is Ancestry);
        law_inquiry_changes_nothing(ctx, local, current, replies, (m - 2) as nat);
        assert(untouched(earlier, local, current));
    }
}

/// What the first replies say of the upstream of the branch.
pub open spec fn upstream_answer(replies: spec_fn(nat) -> ReplyView) -> Option<Seq<char>> {
    trimmed_output(replies(0))
}

/// What the first replies say of whether the remote has a branch of the
/// same name: its place in the repository was found, and there is a file.
pub open spec fn file_answer(replies: spec_fn(nat) -> ReplyView) -> bool {
    trimmed_output(replies(0)) is Some && replies(1) == (ReplyView::Probed { exists: true })
}

/// The number of replies that a session needs to learn the status of its
/// branch.
pub open spec fn inquiries(
    ctx: ContextView,
    local: Seq<char>,
    replies: spec_fn(nat) -> ReplyView,
) -> nat {
    match evidence_for(local, ctx.remote, ctx.tracking) {
        Evidence::Nothing => 0,
        Evidence::Upstream => 1,
        Evidence::TrackingFile => if trimmed_output(replies(0)) is Some {
            2
        } else {
            1
        },
    }
}

/// A session takes the status of its branch to be what the classification
/// says, given the answers to its queries. With a status of unknown the
/// work ends at once, silently; with any other the ends of the range are
/// asked for next.
pub proof fn law_status_is_classified(
    ctx: ContextView,
    local: Seq<char>,
    current: Seq<char>,
    replies: spec_fn(nat) -> ReplyView,
)
    ensures
        ({
            let status = status_of(
                local,
                ctx.remote,
                ctx.tracking,
                upstream_answer(replies),
                file_answer(replies),
            );
            let reached = after(ctx, local, current, replies, inquiries(ctx, local, replies));
            if status is Unknown {
                reached == (ProgressView::Done {
                    outcome: Outcome::Skipped,
                    report: None,
                    current,
                })
            } else {
                reached == (ProgressView::Ask {
                    session: SessionView {
                        local,
                        current,
                        stage: StageView::Resolving { status },
                    },
                    request: RequestView::Run(
                        GitCommandView::RevParse {
                            a: local_ref(local),
                            b: ctx.counterpart(status),
                        },
                    ),
                })
            }
        }),
{
    reveal_with_fuel(after, 3);
}

/// A branch that one pass found synced, or moved forward to its remote
/// counterpart, is found synced by the next pass. This holds where nothing
/// else has changed in between: the queries about the status of the branch
/// are answered as before, and both ends of the range resolve to what was
/// the remote tip. The second pass may begin with another branch checked
/// out than the first.
pub proof fn law_second_pass_is_synced(
    ctx: ContextView,
    local: Seq<char>,
    first_current: Seq<char>,
    first_replies: spec_fn(nat) -> ReplyView,
    second_current: Seq<char>,
    second_replies: spec_fn(nat) -> ReplyView,
    n: nat,
    k: nat,
    target: Seq<char>,
    range: RangeView,
)
    requires
        after(ctx, local, first_current, first_replies, n) matches ProgressView::Ask { session, .. }
            && session.stage == (StageView::Resolving {
            status: BranchStatusView::RemoteExists(target),
        }),
        resolves_to(local_ref(local), target, first_replies(n), range),
        brought_up_to_date(after(ctx, local, first_current, first_replies, k)),
        forall|i: nat| i < n ==> #[trigger] second_replies(i) == first_replies(i),
        resolves_to(
            local_ref(local),
            target,
            second_replies(n),
            RangeView { a: range.b, b: range.b },
        ),
    ensures
        forall|m: nat|
            m > n ==> #[trigger] after(ctx, local, second_current, second_replies, m) == (
            ProgressView::Done { outcome: Outcome::Synced, report: None, current: second_current }),
        forall|m: nat| !asks_change(#[trigger] after(ctx, local, second_current, second_replies, m)),
{
    law_inquiry_changes_nothing(ctx, local, first_current, first_replies, n);
    assert(untouched(after(ctx, local, first_current, first_replies, n), local, first_current));
    lemma_same_inquiry(
        ctx,
        local,
        first_current,
        first_replies,
        second_current,
        second_replies,
        n,
    );
    law_synced_is_silent(
        ctx,
        local,
        second_current,
        second_replies,
        n,
        target,
        RangeView { a: range.b, b: range.b },
    );
}

/// While two sessions on the same branch are finding out how it stands,
/// and get the same replies, they are at the same stage, whatever branch
/// is checked out.
proof fn lemma_same_inquiry(
    ctx: ContextView,
    local: Seq<char>,
    first_current: Seq<char>,
    first_replies: spec_fn(nat) -> ReplyView,
    second_current: Seq<char>,
    second_replies: spec_fn(nat) -> ReplyView,
    n: nat,
)
    requires
        after(ctx, local, first_current, first_replies, n) matches ProgressView::Ask { session, .. }
            && (session.stage is Upstream || session.stage is TrackingPath
            || session.stage is TrackingFile || session.stage is Resolving),
        forall|i: nat| i < n ==> #[trigger] second_replies(i) == first_replies(i),
    ensures
        after(ctx, local, second_current, second_replies, n) matches ProgressView::Ask {
            session,
            ..
        } && session.stage == after(ctx, local, first_current, first_replies, n)->session.stage
            && session.local == local && session.current == second_current,
    decreases n,
{
    if n > 0 {
        let before = after(ctx, local, first_current, first_replies, (n - 1) as nat);
        assert(before is Ask);
        lemma_same_inquiry(
            ctx,
            local,
            first_current,
            first_replies,
            second_current,
            second_replies,
            (n - 1) as nat,
        );
        law_inquiry_changes_nothing(ctx, local, first_current, first_replies, (n - 1) as nat);
        assert(untouched(before, local, first_current));
    }
}

/// Whether a session has taken note of every checkout that it asked for:
/// once it deletes a branch after a checkout, the branch that it holds to
/// be checked out is the default branch.
pub open spec fn aware(ctx: ContextView, session: SessionView) -> bool {
    session.stage matches StageView::Deleting { switched, .. } ==> (switched ==> session.current
        == ctx.default_branch)
}

/// Whether a run is still the run over `branches` in `ctx`, with a session
/// that has taken note of its checkouts.
pub open spec fn on_course(a: AdvanceView, ctx: ContextView, branches: Seq<Seq<char>>) -> bool {
    a matches AdvanceView::Ask { run, .. } ==> run.ctx == ctx && run.branches == branches && aware(
        ctx,
        run.session,
    )
}

/// A run stays the run it began as.
proof fn lemma_run_on_course(
    ctx: ContextView,
    branches: Seq<Seq<char>>,
    current: Seq<char>,
    replies: spec_fn(nat) -> ReplyView,
    n: nat,
)
    ensures
        on_course(run_after(ctx, branches, current, replies, n), ctx, branches),
    decreases n,
{
    if n > 0 {
        lemma_run_on_course(ctx, branches, current, replies, (n - 1) as nat);
    }
}

/// Once a run has deleted the branch that was checked out, every later
/// branch is worked on with the default branch checked out: the checkout
/// that came before the deletion is not lost between branches.
pub proof fn law_checkout_is_seen_by_later_branches(
    ctx: ContextView,
    branches: Seq<Seq<char>>,
    current: Seq<char>,
    replies: spec_fn(nat) -> ReplyView,
    n: nat,
    m: nat,
)
    requires
        run_after(ctx, branches, current, replies, n).verdict() matches Some(v) && v.outcome
            == Outcome::CheckedOutAndDeleted,
        n <= m,
    ensures
        run_after(ctx, branches, current, replies, m).current() == ctx.default_branch,
    decreases m,
{
    assert(m > 0);
    let before = run_after(ctx, branches, current, replies, (m - 1) as nat);
    lemma_run_on_course(ctx, branches, current, replies, (m - 1) as nat);
    if n < m {
        law_checkout_is_seen_by_later_branches(ctx, branches, current, replies, n, (m - 1) as nat);
    } else if before is Done {
        law_checkout_is_seen_by_later_branches(
            ctx,
            branches,
            current,
            replies,
            (n - 1) as nat,
            (m - 1) as nat,
        );
    }
}

/// Each branch of a run is worked on with the branch checked out that the
/// work on the branch before left checked out.
pub proof fn law_current_is_handed_on(run: RunView, reply: ReplyView)
    requires
        run.session.step(run.ctx, reply) is Done,
    ensures
        run.step(reply).current() == run.session.step(run.ctx, reply)->current,
        run.step(reply) matches AdvanceView::Ask { run: next, .. } ==> next.session.local
            == run.branches[run.position + 1],
{
}

/// The most replies that a session at `stage` still takes before the work
/// on its branch ends.
pub open spec fn steps_left(stage: StageView) -> nat {
    match stage {
        StageView::Upstream => 5,
        StageView::TrackingPath => 5,
        StageView::TrackingFile => 4,
        StageView::Resolving { status } => if status is RemoteGone {
            4
        } else {
            3
        },
        StageView::Ancestry { status, .. } => if status is RemoteGone {
            3
        } else {
            2
        },
        StageView::CheckingOut { .. } => 2,
        StageView::Merging { .. } => 1,
        StageView::Repointing { .. } => 1,
        StageView::Deleting { .. } => 1,
    }
}

/// Each reply brings a session nearer to its end.
proof fn lemma_session_nears_end(
    ctx: ContextView,
    local: Seq<char>,
    current: Seq<char>,
    replies: spec_fn(nat) -> ReplyView,
    n: nat,
)
    ensures
        after(ctx, local, current, replies, n) matches ProgressView::Ask { session, .. } ==> n
            + steps_left(session.stage) <= 5,
    decreases n,
{
    if n > 0 {
        lemma_session_nears_end(ctx, local, current, replies, (n - 1) as nat);
    }
}

/// The work on a branch ends, whatever the replies: five of them are
/// enough.
pub proof fn law_session_ends(
    ctx: ContextView,
    local: Seq<char>,
    current: Seq<char>,
    replies: spec_fn(nat) -> ReplyView,
)
    ensures
        after(ctx, local, current, replies, 5) is Done,
{
    lemma_session_nears_end(ctx, local, current, replies, 5);
}

/// Each reply brings a run nearer to its end.
proof fn lemma_run_nears_end(
    ctx: ContextView,
    branches: Seq<Seq<char>>,
    current: Seq<char>,
    replies: spec_fn(nat) -> ReplyView,
    n: nat,
)
    ensures
        run_after(ctx, branches, current, replies, n) matches AdvanceView::Ask { run, .. }
            ==> run.branches == branches && 0 <= run.position < branches.len() && n + steps_left(
            run.session.stage,
        ) + 5 * (branches.len() - run.position - 1) <= 5 * branches.len(),
    decreases n,
{
    if n > 0 {
        lemma_run_nears_end(ctx, branches, current, replies, (n - 1) as nat);
    }
}

/// A run ends, whatever the replies: no branch takes more than five of
/// them, whether the work on it succeeds or fails.
pub proof fn law_run_ends(
    ctx: ContextView,
    branches: Seq<Seq<char>>,
    current: Seq<char>,
    replies: spec_fn(nat) -> ReplyView,
)
    ensures
        run_after(ctx, branches, current, replies, 5 * branches.len()) is Done,
{
    lemma_run_nears_end(ctx, branches, current, replies, 5 * branches.len());
}

/// The verdicts that a run has given in its first `n` steps, in order.
pub open spec fn verdicts(
    ctx: ContextView,
    branches: Seq<Seq<char>>,
    current: Seq<char>,
    replies: spec_fn(nat) -> ReplyView,
    n: nat,
) -> Seq<VerdictView>
    decreases n,
{
    if n == 0 {
        Seq::empty()
    } else {
        let so_far = verdicts(ctx, branches, current, replies, (n - 1) as nat);
        let before = run_after(ctx, branches, current, replies, (n - 1) as nat);
        match run_after(ctx, branches, current, replies, n).verdict() {
            Some(v) => if before is Ask {
                so_far.push(v)
            } else {
                so_far
            },
            None => so_far,
        }
    }
}

/// A run gives one verdict for each branch, in the order of the branches,
/// and no verdict keeps it from the branches that follow. While the run
/// goes on, the branch at hand is the one after those that have their
/// verdict; when the run is done, every branch has one. A failure on one
/// branch is the verdict on that branch and nothing more.
pub proof fn law_every_branch_in_order(
    ctx: ContextView,
    branches: Seq<Seq<char>>,
    current: Seq<char>,
    replies: spec_fn(nat) -> ReplyView,
    n: nat,
)
    ensures
        ({
            let given = verdicts(ctx, branches, current, replies, n);
            &&& given.len() <= branches.len()
            &&& forall|k: int| 0 <= k < given.len() ==> (#[trigger] given[k]).branch == branches[k]
            &&& match run_after(ctx, branches, current, replies, n) {
                AdvanceView::Ask { run, .. } => given.len() == run.position && run.position
                    < branches.len() && run.session.local == branches[run.position],
                AdvanceView::Done { .. } => given.len() == branches.len(),
            }
        }),
    decreases n,
{
    if n > 0 {
        law_every_branch_in_order(ctx, branches, current, replies, (n - 1) as nat);
        lemma_run_on_course(ctx, branches, current, replies, (n - 1) as nat);
        lemma_session_keeps_branch(ctx, branches, current, replies, (n - 1) as nat);
    }
}

/// A session of a run works on one branch from its first step to its last.
proof fn lemma_session_keeps_branch(
    ctx: ContextView,
    branches: Seq<Seq<char>>,
    current: Seq<char>,
    replies: spec_fn(nat) -> ReplyView,
    n: nat,
)
    ensures
        run_after(ctx, branches, current, replies, n) matches AdvanceView::Ask { run, .. }
            ==> 0 <= run.position < branches.len() && run.session.local
            == branches[run.position],
    decreases n,
{
    if n > 0 {
        lemma_session_keeps_branch(ctx, branches, current, replies, (n - 1) as nat);
        lemma_run_on_course(ctx, branches, current, replies, (n - 1) as nat);
    }
}

/// The setup changes nothing in the repository: none of its commands is
/// one of those that change a branch or the working tree. When it fails,
/// no branch has been touched.
pub proof fn law_setup_changes_nothing(stage: SetupStageView, reply: ReplyView)
    ensures
        !SetupStageView::begin().1.mutates(),
        stage.step(reply) matches PreparedView::Ask { command, .. } ==> !command.mutates(),
{
}

/// What `git` prints for two names that resolve is read as the range of
/// the two commits: two identifiers, one on each line, give the range from
/// the first to the second.
pub proof fn law_range_of_two_lines(a: Seq<char>, b: Seq<char>, x: Seq<char>, y: Seq<char>)
    requires
        !x.contains('\n'),
        !y.contains('\n'),
        x.len() > 0 ==> x.last() != '\r',
        y.len() > 0 ==> y.last() != '\r',
    ensures
        resolves_to(
            a,
            b,
            ReplyView::Exited { success: true, stdout: x + seq!['\n'] + y + seq!['\n'] },
            RangeView { a: x, b: y },
        ),
{
    lemma_lines_of_two(x, y);
}

/// What `git` prints for a name that resolves is read as that name: a
/// line that neither begins nor ends with white space, with its line feed.
pub proof fn law_name_of_one_line(name: Seq<char>)
    requires
        name.len() > 0,
        !is_space(name[0]),
        !is_space(name.last()),
    ensures
        trimmed_output(ReplyView::Exited { success: true, stdout: name + seq!['\n'] }) == Some(
            name,
        ),
{
    lemma_trimmed_line(name);
}

} // verus!
