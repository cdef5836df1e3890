//! How a local branch stands towards the remote that is being synced.

use crate::git::remote_prefix;
use crate::text::append;
use crate::tracking::BranchRemotes;
use vstd::prelude::*;

verus! {

/// The full name of the local branch `branch`.
pub open spec fn local_ref(branch: Seq<char>) -> Seq<char> {
    "refs/heads/"@ + branch
}

/// The full name of the ref under which `branch` of `remote` is tracked,
/// by the usual convention.
pub open spec fn remote_ref(remote: Seq<char>, branch: Seq<char>) -> Seq<char> {
    remote_prefix(remote) + branch
}

/// The name that resolves to the upstream of `branch`.
pub open spec fn upstream_of(branch: Seq<char>) -> Seq<char> {
    branch + "@{upstream}"@
}

/// The full name of the local branch `branch`.
pub fn local_ref_name(branch: &str) -> (r: String)
    ensures
        r@ == local_ref(branch@),
{
    append("refs/heads/", branch)
}

/// The full name of the ref under which `branch` of `remote` is tracked.
pub fn remote_ref_name(remote: &str, branch: &str) -> (r: String)
    ensures
        r@ == remote_ref(remote@, branch@),
{
    let mut r = append("refs/remotes/", remote);
    r.append("/");
    r.append(branch);
    r
}

/// The name that resolves to the upstream of `branch`.
pub fn upstream_name(branch: &str) -> (r: String)
    ensures
        r@ == upstream_of(branch@),
{
    append(branch, "@{upstream}")
}

/// How a local branch stands towards the remote that is being synced.
#[derive(Clone, Debug, PartialEq, Eq)]
pub enum BranchStatus {
    /// There is a ref to compare the branch with.
    RemoteExists(String),
    /// The branch tracks the remote, and its upstream no longer resolves:
    /// the branch was deleted on the remote.
    RemoteGone,
    /// The branch tracks another remote, and this remote has no branch of
    /// its name: nothing is known about it.
    Unknown,
}

/// Mathematical value of a [`BranchStatus`].
pub enum BranchStatusView {
    RemoteExists(Seq<char>),
    RemoteGone,
    Unknown,
}

impl View for BranchStatus {
    type V = BranchStatusView;

    open spec fn view(&self) -> BranchStatusView {
        match *self {
            BranchStatus::RemoteExists(name) => BranchStatusView::RemoteExists(name@),
            BranchStatus::RemoteGone => BranchStatusView::RemoteGone,
            BranchStatus::Unknown => BranchStatusView::Unknown,
        }
    }
}

/// What has to be found out before the status of a branch is known.
#[derive(Clone, Copy, Debug, PartialEq, Eq, Structural)]
pub enum Evidence {
    /// Nothing: the branch has no tracking setting.
    Nothing,
    /// Whether the upstream of the branch resolves: the branch tracks the
    /// remote that is being synced.
    Upstream,
    /// Whether the remote has a branch of that name: the branch tracks
    /// another remote.
    TrackingFile,
}

/// What has to be found out about `branch` when syncing `remote`.
pub open spec fn evidence_for(
    branch: Seq<char>,
    remote: Seq<char>,
    tracking: Map<Seq<char>, Seq<char>>,
) -> Evidence {
    if !tracking.dom().contains(branch) {
        Evidence::Nothing
    } else if tracking[branch] == remote {
        Evidence::Upstream
    } else {
        Evidence::TrackingFile
    }
}

/// The status of `branch` when syncing `remote`, given what its upstream
/// resolves to and whether the remote has a branch of its name. Only the
/// answer that [`evidence_for`] asks for is looked at.
pub open spec fn status_of(
    branch: Seq<char>,
    remote: Seq<char>,
    tracking: Map<Seq<char>, Seq<char>>,
    upstream: Option<Seq<char>>,
    has_file: bool,
) -> BranchStatusView {
    match evidence_for(branch, remote, tracking) {
        Evidence::Nothing => BranchStatusView::RemoteExists(remote_ref(remote, branch)),
        Evidence::Upstream => match upstream {
            Some(name) => BranchStatusView::RemoteExists(name),
            None => BranchStatusView::RemoteGone,
        },
        Evidence::TrackingFile => if has_file {
            BranchStatusView::RemoteExists(remote_ref(remote, branch))
        } else {
            BranchStatusView::Unknown
        },
    }
}

/// What has to be found out about `branch` when syncing `remote`.
pub fn evidence(branch: &str, remote: &str, tracking: &BranchRemotes) -> (r: Evidence)
    ensures
        r == evidence_for(branch@, remote@, tracking@),
{
    match tracking.get(branch) {
        None => Evidence::Nothing,
        Some(configured) => if crate::text::same(configured.as_str(), remote) {
            Evidence::Upstream
        } else {
            Evidence::TrackingFile
        },
    }
}

/// The status of `branch` when syncing `remote`. `upstream` is what the
/// upstream of the branch resolves to, and `has_file` tells whether the
/// remote has a branch of its name; a caller passes `None` and `false`
/// for what [`evidence`] does not ask for.
pub fn classify(
    branch: &str,
    remote: &str,
    tracking: &BranchRemotes,
    upstream: Option<String>,
    has_file: bool,
) -> (r: BranchStatus)
    ensures
        r@ == status_of(branch@, remote@, tracking@, crate::text::opt_view(upstream), has_file),
{
    match evidence(branch, remote, tracking) {
        Evidence::Nothing => BranchStatus::RemoteExists(remote_ref_name(remote, branch)),
        Evidence::Upstream => match upstream {
            Some(name) => BranchStatus::RemoteExists(name),
            None => BranchStatus::RemoteGone,
        },
        Evidence::TrackingFile => if has_file {
            BranchStatus::RemoteExists(remote_ref_name(remote, branch))
        } else {
            BranchStatus::Unknown
        },
    }
}

} // verus!
