//! Reading the replies to `git` commands.
//!
//! Each function here takes the [`Reply`] to one command and says what it
//! means: a name, a list of lines, a pair of commit identifiers, or an
//! error. The commands themselves are described by
//! [`GitCommand`](crate::command::GitCommand).

use crate::command::{GitCommand, GitCommandView, Reply, ReplyView};
use crate::text::{
    append, decimal, decimal_digits, first_word, leading_word, lines, lines_of, opt_view, prefix,
    strip_prefix, trim, trimmed, views, without_prefix,
};
use vstd::prelude::*;

verus! {

/// Why the reply to a command could not be used.
#[derive(Clone, Debug, PartialEq, Eq)]
pub enum GitError {
    /// The command could not be run.
    NotRun,
    /// `git branch -D` exited with a failure.
    DeleteBranch,
    /// `git checkout` exited with a failure.
    Checkout,
    /// `git update-ref` exited with a failure.
    UpdateRef,
    /// `git merge --ff-only` exited with a failure.
    FastForwardMerge,
    /// `git rev-parse <a> <b>` did not print two lines.
    RangeLines { a: String, b: String, got: usize },
    /// `git rev-parse <a> <b>` printed two lines but reported that one of
    /// the names does not resolve.
    Unresolved { a: String, b: String },
    /// No remote is configured.
    NoRemotes,
    /// The remote's `HEAD` does not name one of the remote's branches.
    DefaultBranch,
    /// The fetch did not run or did not succeed.
    Fetch,
    /// `git config` exited with a failure.
    Config,
    /// `git branch --list --format` exited with a failure.
    Branches,
    /// The branch-to-remote settings could not be listed.
    BranchRemotes,
    /// A line of the branch-to-remote settings has no value.
    ConfigLine { line: String },
    /// The local branches could not be listed.
    BranchList,
    /// No branch is checked out.
    CurrentBranch,
}

/// Mathematical value of a [`GitError`].
pub enum GitErrorView {
    NotRun,
    DeleteBranch,
    Checkout,
    UpdateRef,
    FastForwardMerge,
    RangeLines { a: Seq<char>, b: Seq<char>, got: nat },
    Unresolved { a: Seq<char>, b: Seq<char> },
    NoRemotes,
    DefaultBranch,
    Fetch,
    Config,
    Branches,
    BranchRemotes,
    ConfigLine { line: Seq<char> },
    BranchList,
    CurrentBranch,
}

impl View for GitError {
    type V = GitErrorView;

    open spec fn view(&self) -> GitErrorView {
        match *self {
            GitError::NotRun => GitErrorView::NotRun,
            GitError::DeleteBranch => GitErrorView::DeleteBranch,
            GitError::Checkout => GitErrorView::Checkout,
            GitError::UpdateRef => GitErrorView::UpdateRef,
            GitError::FastForwardMerge => GitErrorView::FastForwardMerge,
            GitError::RangeLines { a, b, got } => GitErrorView::RangeLines {
                a: a@,
                b: b@,
                got: got as nat,
            },
            GitError::Unresolved { a, b } => GitErrorView::Unresolved { a: a@, b: b@ },
            GitError::NoRemotes => GitErrorView::NoRemotes,
            GitError::DefaultBranch => GitErrorView::DefaultBranch,
            GitError::Fetch => GitErrorView::Fetch,
            GitError::Config => GitErrorView::Config,
            GitError::Branches => GitErrorView::Branches,
            GitError::BranchRemotes => GitErrorView::BranchRemotes,
            GitError::ConfigLine { line } => GitErrorView::ConfigLine { line: line@ },
            GitError::BranchList => GitErrorView::BranchList,
            GitError::CurrentBranch => GitErrorView::CurrentBranch,
        }
    }
}

impl GitErrorView {
    /// The error in words.
    pub open spec fn message(self) -> Seq<char> {
        match self {
            GitErrorView::NotRun => "Failed to execute command"@,
            GitErrorView::DeleteBranch => "Failed to delete branch"@,
            GitErrorView::Checkout => "Failed to checkout branch"@,
            GitErrorView::UpdateRef => "Failed to update ref"@,
            GitErrorView::FastForwardMerge => "Failed to fast forward merge ref"@,
            GitErrorView::RangeLines { a, b, got } => "Can't parse range "@ + a + ".."@ + b
                + "; Expected 2 lines, got "@ + decimal_digits(got),
            GitErrorView::Unresolved { a, b } => "Can't resolve range "@ + a + ".."@ + b,
            GitErrorView::NoRemotes => "No remotes found"@,
            GitErrorView::DefaultBranch => "Failed to get default branch"@,
            GitErrorView::Fetch => "Failed to execute git fetch command"@,
            GitErrorView::Config => "Failed to get config"@,
            GitErrorView::Branches => "Failed to get branches"@,
            GitErrorView::BranchRemotes => "Failed to execute git config command"@,
            GitErrorView::ConfigLine { line } => "Can't parse configuration line "@ + line,
            GitErrorView::BranchList => "Failed to execute git branch command"@,
            GitErrorView::CurrentBranch => "Failed to get current branch"@,
        }
    }
}

impl GitError {
    /// The error in words.
    pub fn message(&self) -> (r: String)
        ensures
            r@ == self@.message(),
    {
        match self {
            GitError::NotRun => "Failed to execute command".to_owned(),
            GitError::DeleteBranch => "Failed to delete branch".to_owned(),
            GitError::Checkout => "Failed to checkout branch".to_owned(),
            GitError::UpdateRef => "Failed to update ref".to_owned(),
            GitError::FastForwardMerge => "Failed to fast forward merge ref".to_owned(),
            GitError::RangeLines { a, b, got } => {
                let mut r = append("Can't parse range ", a.as_str());
                r.append("..");
                r.append(b.as_str());
                r.append("; Expected 2 lines, got ");
                r.append(decimal(*got).as_str());
                r
            },
            GitError::Unresolved { a, b } => {
                let mut r = append("Can't resolve range ", a.as_str());
                r.append("..");
                r.append(b.as_str());
                r
            },
            GitError::NoRemotes => "No remotes found".to_owned(),
            GitError::DefaultBranch => "Failed to get default branch".to_owned(),
            GitError::Fetch => "Failed to execute git fetch command".to_owned(),
            GitError::Config => "Failed to get config".to_owned(),
            GitError::Branches => "Failed to get branches".to_owned(),
            GitError::BranchRemotes => "Failed to execute git config command".to_owned(),
            GitError::ConfigLine { line } => append(
                "Can't parse configuration line ",
                line.as_str(),
            ),
            GitError::BranchList => "Failed to execute git branch command".to_owned(),
            GitError::CurrentBranch => "Failed to get current branch".to_owned(),
        }
    }
}

/// The tips of a local branch and of the ref it is compared with, as
/// resolved commit identifiers: `a` is the local tip, `b` the other one.
#[derive(Clone, Debug, PartialEq, Eq)]
pub struct Range {
    pub a: String,
    pub b: String,
}

/// Mathematical value of a [`Range`].
pub struct RangeView {
    pub a: Seq<char>,
    pub b: Seq<char>,
}

impl View for Range {
    type V = RangeView;

    open spec fn view(&self) -> RangeView {
        RangeView { a: self.a@, b: self.b@ }
    }
}

impl RangeView {
    /// Whether both ends are the same commit.
    pub open spec fn is_identical(self) -> bool {
        self.a == self.b
    }

    /// The first seven characters of the local tip, or all of it when it
    /// has fewer.
    pub open spec fn short_id(self) -> Seq<char> {
        self.a.take(if self.a.len() >= 7 { 7 } else { self.a.len() as int })
    }

    /// The command that tells whether `a` is an ancestor of `b`.
    pub open spec fn ancestry_query(self) -> GitCommandView {
        GitCommandView::IsAncestor { a: self.a, b: self.b }
    }
}

impl Range {
    /// The range from the commit `a` to the commit `b`.
    pub fn new(a: String, b: String) -> (r: Self)
        ensures
            r.a == a,
            r.b == b,
    {
        Self { a, b }
    }

    /// Whether both ends are the same commit, so that the local branch is
    /// up to date.
    pub fn is_identical(&self) -> (r: bool)
        ensures
            r == self@.is_identical(),
    {
        self.a == self.b
    }

    /// The command that tells whether `a` is an ancestor of `b`.
    pub fn ancestry_query(&self) -> (r: GitCommand)
        ensures
            r@ == self@.ancestry_query(),
    {
        GitCommand::IsAncestor { a: self.a.clone(), b: self.b.clone() }
    }

    /// Whether `reply`, the reply to [`Range::ancestry_query`], confirms
    /// that `a` is an ancestor of `b` or `b` itself. Anything but a
    /// confirmation counts as "no": a command that did not run confirms
    /// nothing.
    pub fn is_ancestor(&self, reply: &Reply) -> (r: bool)
        ensures
            r == confirms_ancestry(reply@),
    {
        is_ancestor(reply)
    }

    /// The first seven characters of the local tip.
    pub fn short_id(&self) -> (r: String)
        ensures
            r@ == self@.short_id(),
    {
        prefix(self.a.as_str(), 7)
    }
}

/// The view of the result of a command that yields nothing but its success.
pub open spec fn unit_result(r: Result<(), GitError>) -> Result<(), GitErrorView> {
    match r {
        Ok(_) => Ok(()),
        Err(e) => Err(e@),
    }
}

/// The view of the result of a command that yields a name.
pub open spec fn text_result(r: Result<String, GitError>) -> Result<Seq<char>, GitErrorView> {
    match r {
        Ok(s) => Ok(s@),
        Err(e) => Err(e@),
    }
}

/// The view of the result of a command that yields lines.
pub open spec fn lines_result(r: Result<Vec<String>, GitError>) -> Result<
    Seq<Seq<char>>,
    GitErrorView,
> {
    match r {
        Ok(v) => Ok(views(v@)),
        Err(e) => Err(e@),
    }
}

/// The view of the result of resolving a range.
pub open spec fn range_result(r: Result<Range, GitError>) -> Result<RangeView, GitErrorView> {
    match r {
        Ok(range) => Ok(range@),
        Err(e) => Err(e@),
    }
}

/// What the reply to a command that only acts amounts to: success when the
/// command ran and exited with status zero, `failure` when it exited
/// otherwise, and `NotRun` when it did not run.
pub open spec fn completed(reply: ReplyView, failure: GitErrorView) -> Result<(), GitErrorView> {
    match reply {
        ReplyView::Exited { success, .. } => if success {
            Ok(())
        } else {
            Err(failure)
        },
        _ => Err(GitErrorView::NotRun),
    }
}

/// The trimmed output of a command that ran and succeeded.
pub open spec fn trimmed_output(reply: ReplyView) -> Option<Seq<char>> {
    match reply {
        ReplyView::Exited { success, stdout } => if success {
            Some(trimmed(stdout))
        } else {
            None
        },
        _ => None,
    }
}

/// The lines that a command printed, when it ran and succeeded; `failure`
/// when it exited otherwise.
pub open spec fn listed(reply: ReplyView, failure: GitErrorView) -> Result<
    Seq<Seq<char>>,
    GitErrorView,
> {
    match reply {
        ReplyView::Exited { success, stdout } => if success {
            Ok(lines_of(stdout))
        } else {
            Err(failure)
        },
        _ => Err(GitErrorView::NotRun),
    }
}

/// Whether the reply to an ancestry query is a confirmation.
pub open spec fn confirms_ancestry(reply: ReplyView) -> bool {
    reply.succeeded()
}

/// The range that the reply to `git rev-parse --quiet <a> <b>` resolves to.
/// Both names resolve exactly when the command printed two lines and exited
/// with status zero; the lines are then the two commit identifiers.
pub open spec fn resolved_range(a: Seq<char>, b: Seq<char>, reply: ReplyView) -> Result<
    RangeView,
    GitErrorView,
> {
    match reply {
        ReplyView::Exited { success, stdout } => {
            let ls = lines_of(stdout);
            if ls.len() != 2 {
                Err(GitErrorView::RangeLines { a, b, got: ls.len() })
            } else if !success {
                Err(GitErrorView::Unresolved { a, b })
            } else {
                Ok(RangeView { a: ls[0], b: ls[1] })
            }
        },
        _ => Err(GitErrorView::NotRun),
    }
}

/// The name of the first remote that `git remote --verbose` lists: the
/// first word of the first line.
pub open spec fn main_remote(reply: ReplyView) -> Result<Seq<char>, GitErrorView> {
    match reply {
        ReplyView::Exited { success, stdout } => {
            let ls = lines_of(stdout);
            if success && ls.len() > 0 && leading_word(ls[0]) is Some {
                Ok(leading_word(ls[0])->0)
            } else {
                Err(GitErrorView::NoRemotes)
            }
        },
        _ => Err(GitErrorView::NotRun),
    }
}

/// The prefix that the remote-tracking refs of `remote` share.
pub open spec fn remote_prefix(remote: Seq<char>) -> Seq<char> {
    "refs/remotes/"@ + remote + "/"@
}

/// The default branch of `remote`, given the reply to the query for the
/// remote's `HEAD`. Where that query names nothing, the default branch is
/// taken to be `main`.
pub open spec fn default_branch(remote: Seq<char>, reply: ReplyView) -> Result<
    Seq<char>,
    GitErrorView,
> {
    let head = match trimmed_output(reply) {
        Some(name) => name,
        None => remote_prefix(remote) + "main"@,
    };
    match without_prefix(head, remote_prefix(remote)) {
        Some(branch) => Ok(branch),
        None => Err(GitErrorView::DefaultBranch),
    }
}

/// Reads the reply to a command that only acts.
fn complete(reply: &Reply, failure: GitError) -> (r: Result<(), GitError>)
    ensures
        unit_result(r) == completed(reply@, failure@),
{
    match reply {
        Reply::Exited { success, .. } => if *success {
            Ok(())
        } else {
            Err(failure)
        },
        _ => Err(GitError::NotRun),
    }
}

/// Reads the trimmed output of a command that ran and succeeded.
fn output_name(reply: &Reply) -> (r: Option<String>)
    ensures
        opt_view(r) == trimmed_output(reply@),
{
    match reply {
        Reply::Exited { success, stdout } => if *success {
            Some(trim(stdout.as_str()))
        } else {
            None
        },
        _ => None,
    }
}

/// Reads the lines of a command that ran and succeeded.
fn list(reply: &Reply, failure: GitError) -> (r: Result<Vec<String>, GitError>)
    ensures
        lines_result(r) == listed(reply@, failure@),
{
    match reply {
        Reply::Exited { success, stdout } => if *success {
            Ok(output_lines(stdout.as_str()))
        } else {
            Err(failure)
        },
        _ => Err(GitError::NotRun),
    }
}

/// Reads the reply to `git branch -D --quiet <branch>`.
pub fn delete_branch(reply: &Reply) -> (r: Result<(), GitError>)
    ensures
        unit_result(r) == completed(reply@, GitErrorView::DeleteBranch),
{
    complete(reply, GitError::DeleteBranch)
}

/// Reads the reply to `git checkout --quiet <branch>`.
pub fn checkout(reply: &Reply) -> (r: Result<(), GitError>)
    ensures
        unit_result(r) == completed(reply@, GitErrorView::Checkout),
{
    complete(reply, GitError::Checkout)
}

/// Reads the reply to `git update-ref <full_branch> <remote_branch>`.
pub fn update_ref(reply: &Reply) -> (r: Result<(), GitError>)
    ensures
        unit_result(r) == completed(reply@, GitErrorView::UpdateRef),
{
    complete(reply, GitError::UpdateRef)
}

/// Reads the reply to `git merge --ff-only --quiet <branch>`.
pub fn fast_forward_merge(reply: &Reply) -> (r: Result<(), GitError>)
    ensures
        unit_result(r) == completed(reply@, GitErrorView::FastForwardMerge),
{
    complete(reply, GitError::FastForwardMerge)
}

/// Reads the reply to `git merge-base --is-ancestor <a> <b>`.
pub fn is_ancestor(reply: &Reply) -> (r: bool)
    ensures
        r == confirms_ancestry(reply@),
{
    reply.succeeded()
}

/// Reads the reply to `git rev-parse --quiet <a> <b>` as the range from
/// `a` to `b`.
pub fn make_range(a: &str, b: &str, reply: &Reply) -> (r: Result<Range, GitError>)
    ensures
        range_result(r) == resolved_range(a@, b@, reply@),
{
    match reply {
        Reply::Exited { success, stdout } => {
            let mut found = output_lines(stdout.as_str());
            assert(views(found@).len() == found@.len());
            if found.len() != 2 {
                Err(GitError::RangeLines { a: a.to_owned(), b: b.to_owned(), got: found.len() })
            } else if !*success {
                Err(GitError::Unresolved { a: a.to_owned(), b: b.to_owned() })
            } else {
                assert(views(found@)[0] == found@[0]@);
                assert(views(found@)[1] == found@[1]@);
                let second = found.pop().unwrap();
                let first = found.pop().unwrap();
                Ok(Range::new(first, second))
            }
        },
        _ => Err(GitError::NotRun),
    }
}

/// The lines of a command's output.
pub fn output_lines(stdout: &str) -> (r: Vec<String>)
    ensures
        views(r@) == lines_of(stdout@),
{
    lines(stdout)
}

/// Reads the reply to `git rev-parse --quiet --git-path <path>`: where in
/// the file system the repository keeps `path`.
pub fn has_file_path(reply: &Reply) -> (r: Option<String>)
    ensures
        opt_view(r) == trimmed_output(reply@),
{
    output_name(reply)
}

/// Reads the reply to the probe for the path that [`has_file_path`] gave:
/// whether the repository has the file.
pub fn has_file(reply: &Reply) -> (r: bool)
    ensures
        r == (reply@ == ReplyView::Probed { exists: true }),
{
    match reply {
        Reply::Probed { exists } => *exists,
        _ => false,
    }
}

/// Reads the reply to `git rev-parse --symbolic-full-name <name>`.
pub fn symbolic_full_name(reply: &Reply) -> (r: Option<String>)
    ensures
        opt_view(r) == trimmed_output(reply@),
{
    output_name(reply)
}

/// Reads the reply to `git symbolic-ref --quiet [--short] <name>`.
pub fn symbolic_ref(reply: &Reply) -> (r: Option<String>)
    ensures
        opt_view(r) == trimmed_output(reply@),
{
    output_name(reply)
}

/// Reads the reply to `git remote --verbose`.
pub fn get_main_remote(reply: &Reply) -> (r: Result<String, GitError>)
    ensures
        text_result(r) == main_remote(reply@),
{
    match reply {
        Reply::Exited { success, stdout } => {
            if !*success {
                return Err(GitError::NoRemotes);
            }
            let found = output_lines(stdout.as_str());
            assert(views(found@).len() == found@.len());
            if found.len() == 0 {
                return Err(GitError::NoRemotes);
            }
            assert(views(found@)[0] == found@[0]@);
            match first_word(found[0].as_str()) {
                Some(name) => Ok(name),
                None => Err(GitError::NoRemotes),
            }
        },
        _ => Err(GitError::NotRun),
    }
}

/// Reads the reply to the query for `remote`'s `HEAD`
/// ([`default_branch_query`](crate::command::default_branch_query)) as the
/// name of the remote's default branch.
pub fn get_default_branch(remote: &str, reply: &Reply) -> (r: Result<String, GitError>)
    ensures
        text_result(r) == default_branch(remote@, reply@),
{
    let start = append(append("refs/remotes/", remote).as_str(), "/");
    let head = match symbolic_ref(reply) {
        Some(name) => name,
        None => append(start.as_str(), "main"),
    };
    match strip_prefix(head.as_str(), start.as_str()) {
        Some(branch) => Ok(branch),
        None => Err(GitError::DefaultBranch),
    }
}

/// Reads the reply to `git fetch --prune --quiet --progress <remote>`.
pub fn fetch(reply: &Reply) -> (r: Result<(), GitError>)
    ensures
        r is Ok <==> reply@.succeeded(),
        r matches Err(e) ==> e@ == GitErrorView::Fetch,
{
    if reply.succeeded() {
        Ok(())
    } else {
        Err(GitError::Fetch)
    }
}

/// Reads the reply to `git config <args...>`.
pub fn get_config(reply: &Reply) -> (r: Result<Vec<String>, GitError>)
    ensures
        lines_result(r) == listed(reply@, GitErrorView::Config),
{
    list(reply, GitError::Config)
}

/// Reads the reply to `git branch --list --format %(refname:short)`.
pub fn get_branches(reply: &Reply) -> (r: Result<Vec<String>, GitError>)
    ensures
        lines_result(r) == listed(reply@, GitErrorView::Branches),
{
    list(reply, GitError::Branches)
}

} // verus!
