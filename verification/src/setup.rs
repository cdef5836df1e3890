//! What a run needs to know before it looks at any branch, and the steps
//! that find it out: the remote to sync with and its default branch, a
//! fetch from that remote, the remote that each branch tracks, the local
//! branches, and which of them is checked out.
//!
//! A [`Setup`] takes these steps in that order. It is driven from outside,
//! as a session is; a step that fails ends it, before any branch has been
//! looked at.

use crate::command::{
    branch_remotes_query, current_branch_query, default_branch_query, GitCommand, GitCommandView,
    Reply, ReplyView,
};
use crate::git::{
    default_branch, fetch, get_default_branch, get_main_remote, main_remote, output_lines,
    symbolic_ref, text_result, trimmed_output, GitError, GitErrorView,
};
use crate::session::{Context, ContextView};
use crate::text::{lemma_pieces_nonempty, lines_of, pieces, split, trim, trimmed, views};
use crate::tracking::BranchRemotes;
use vstd::prelude::*;

verus! {

/// The branch and the remote that one line of `git config --get-regexp`
/// names. The line holds a key and, after a space, a value. The branch is
/// the second of the parts that dots divide the key into (empty when the
/// key has no dot); the remote is what stands between the first space and
/// the next. A line without a space names nothing.
pub open spec fn setting_of(line: Seq<char>) -> Option<(Seq<char>, Seq<char>)> {
    let fields = pieces(line, ' ');
    let key = pieces(fields[0], '.');
    if fields.len() < 2 {
        None
    } else if key.len() < 2 {
        Some((Seq::empty(), fields[1]))
    } else {
        Some((key[1], fields[1]))
    }
}

/// The table that the lines of `git config --get-regexp` amount to, or the
/// first line that names nothing.
pub open spec fn settings_of(lines: Seq<Seq<char>>) -> Result<
    Map<Seq<char>, Seq<char>>,
    GitErrorView,
>
    decreases lines.len(),
{
    if lines.len() == 0 {
        Ok(Map::empty())
    } else {
        match settings_of(lines.drop_last()) {
            Err(e) => Err(e),
            Ok(m) => match setting_of(lines.last()) {
                None => Err(GitErrorView::ConfigLine { line: lines.last() }),
                Some(setting) => Ok(m.insert(setting.0, setting.1)),
            },
        }
    }
}

/// What the reply to the query for the branch-to-remote settings says.
/// The exit status does not matter: `git config` fails when no branch
/// tracks anything, and then prints nothing.
pub open spec fn branch_remotes_of(reply: ReplyView) -> Result<
    Map<Seq<char>, Seq<char>>,
    GitErrorView,
> {
    match reply {
        ReplyView::Exited { stdout, .. } => settings_of(lines_of(stdout)),
        _ => Err(GitErrorView::BranchRemotes),
    }
}

/// The branch that one line of `git branch --list` names: what follows the
/// last space of the trimmed line.
pub open spec fn branch_of(line: Seq<char>) -> Seq<char> {
    pieces(trimmed(line), ' ').last()
}

/// What the reply to `git branch --list` says: the branch of each line.
pub open spec fn local_branches_of(reply: ReplyView) -> Result<Seq<Seq<char>>, GitErrorView> {
    match reply {
        ReplyView::Exited { stdout, .. } => Ok(
            Seq::new(lines_of(stdout).len(), |i: int| branch_of(lines_of(stdout)[i])),
        ),
        _ => Err(GitErrorView::BranchList),
    }
}

/// What the reply to the query for the checked-out branch says. Without a
/// checked-out branch there is nothing to compare the branches with.
pub open spec fn current_branch_of(reply: ReplyView) -> Result<Seq<char>, GitErrorView> {
    match trimmed_output(reply) {
        Some(name) => Ok(name),
        None => Err(GitErrorView::CurrentBranch),
    }
}

/// The view of a table or an error.
pub open spec fn table_result(r: Result<BranchRemotes, GitError>) -> Result<
    Map<Seq<char>, Seq<char>>,
    GitErrorView,
> {
    match r {
        Ok(t) => Ok(t@),
        Err(e) => Err(e@),
    }
}

/// The view of a list of names or an error.
pub open spec fn names_result(r: Result<Vec<String>, GitError>) -> Result<
    Seq<Seq<char>>,
    GitErrorView,
> {
    match r {
        Ok(v) => Ok(views(v@)),
        Err(e) => Err(e@),
    }
}

/// Reads one line of `git config --get-regexp`.
fn setting(line: &str) -> (r: Option<(String, String)>)
    ensures
        r is Some <==> setting_of(line@) is Some,
        r matches Some(s) ==> (s.0@, s.1@) == setting_of(line@)->0,
{
    let mut fields = split(line, ' ');
    assert(views(fields@).len() == fields@.len());
    if fields.len() < 2 {
        return None;
    }
    assert(views(fields@)[0] == fields@[0]@);
    assert(views(fields@)[1] == fields@[1]@);
    let mut key = split(fields[0].as_str(), '.');
    assert(views(key@).len() == key@.len());
    let remote = fields.swap_remove(1);
    if key.len() < 2 {
        Some((String::new(), remote))
    } else {
        assert(views(key@)[1] == key@[1]@);
        let branch = key.swap_remove(1);
        Some((branch, remote))
    }
}

/// Reads the reply to the query for the branch-to-remote settings
/// ([`branch_remotes_query`](crate::command::branch_remotes_query)).
pub fn branch_remotes(reply: &Reply) -> (r: Result<BranchRemotes, GitError>)
    ensures
        table_result(r) == branch_remotes_of(reply@),
{
    match reply {
        Reply::Exited { stdout, .. } => {
            let found = output_lines(stdout.as_str());
            let ghost all = views(found@);
            let mut t = BranchRemotes::new();
            let mut i: usize = 0;
            assert(all.take(0) =~= Seq::empty());
            while i < found.len()
                invariant
                    i <= found.len(),
                    all == views(found@),
                    branch_remotes_of(reply@) == settings_of(all),
                    settings_of(all.take(i as int)) == Ok::<_, GitErrorView>(t@),
                decreases found.len() - i,
            {
                proof {
                    assert(all.take(i + 1).drop_last() =~= all.take(i as int));
                    assert(all.take(i + 1).last() == found@[i as int]@);
                }
                match setting(found[i].as_str()) {
                    Some(s) => {
                        t.insert(s.0, s.1);
                    },
                    None => {
                        proof {
                            assert(settings_of(all.take(i + 1)) == Err::<
                                Map<Seq<char>, Seq<char>>,
                                GitErrorView,
                            >(GitErrorView::ConfigLine { line: found@[i as int]@ }));
                            lemma_settings_fail(all, i as int);
                        }
                        return Err(GitError::ConfigLine { line: found[i].clone() });
                    },
                }
                i += 1;
            }
            assert(all.take(i as int) =~= all);
            Ok(t)
        },
        _ => Err(GitError::BranchRemotes),
    }
}

/// Once the lines up to some line fail to make a table, so do all lines.
proof fn lemma_settings_fail(lines: Seq<Seq<char>>, n: int)
    requires
        0 <= n < lines.len(),
        settings_of(lines.take(n + 1)) is Err,
    ensures
        settings_of(lines) == settings_of(lines.take(n + 1)),
    decreases lines.len(),
{
    if n + 1 == lines.len() {
        assert(lines.take(n + 1) =~= lines);
    } else {
        let front = lines.drop_last();
        assert(front.take(n + 1) =~= lines.take(n + 1));
        lemma_settings_fail(front, n);
    }
}

/// Reads the reply to `git branch --list`.
pub fn local_branches(reply: &Reply) -> (r: Result<Vec<String>, GitError>)
    ensures
        names_result(r) == local_branches_of(reply@),
{
    match reply {
        Reply::Exited { stdout, .. } => {
            let found = output_lines(stdout.as_str());
            let mut names: Vec<String> = Vec::new();
            let mut i: usize = 0;
            assert(views(found@).len() == found@.len());
            while i < found.len()
                invariant
                    i <= found.len(),
                    names.len() == i,
                    views(found@) == lines_of(stdout@),
                    forall|j: int| 0 <= j < i ==> names@[j]@ == branch_of(lines_of(stdout@)[j]),
                decreases found.len() - i,
            {
                assert(views(found@)[i as int] == found@[i as int]@);
                let line = trim(found[i].as_str());
                let mut fields = split(line.as_str(), ' ');
                proof {
                    lemma_pieces_nonempty(line@, ' ');
                    assert(views(fields@).len() == fields@.len());
                    assert(views(fields@).last() == fields@.last()@);
                }
                let name = fields.pop().unwrap();
                names.push(name);
                i += 1;
            }
            assert(views(names@) =~= local_branches_of(reply@)->Ok_0);
            Ok(names)
        },
        _ => Err(GitError::BranchList),
    }
}

/// Reads the reply to the query for the checked-out branch
/// ([`current_branch_query`](crate::command::current_branch_query)).
pub fn current_branch(reply: &Reply) -> (r: Result<String, GitError>)
    ensures
        text_result(r) == current_branch_of(reply@),
{
    match symbolic_ref(reply) {
        Some(name) => Ok(name),
        None => Err(GitError::CurrentBranch),
    }
}

/// What a setup is waiting for, with what it has found out so far.
#[derive(Debug)]
pub enum SetupStage {
    /// The list of remotes.
    Remote,
    /// The branch that the remote's `HEAD` names.
    DefaultBranch { remote: String },
    /// The end of the fetch.
    Fetch { remote: String, default_branch: String },
    /// The branch-to-remote settings.
    Tracking { remote: String, default_branch: String },
    /// The list of local branches.
    Branches { ctx: Context },
    /// The name of the branch that is checked out.
    Current { ctx: Context, branches: Vec<String> },
}

/// Mathematical value of a [`SetupStage`].
pub enum SetupStageView {
    Remote,
    DefaultBranch { remote: Seq<char> },
    Fetch { remote: Seq<char>, default_branch: Seq<char> },
    Tracking { remote: Seq<char>, default_branch: Seq<char> },
    Branches { ctx: ContextView },
    Current { ctx: ContextView, branches: Seq<Seq<char>> },
}

impl View for SetupStage {
    type V = SetupStageView;

    open spec fn view(&self) -> SetupStageView {
        match *self {
            SetupStage::Remote => SetupStageView::Remote,
            SetupStage::DefaultBranch { remote } => SetupStageView::DefaultBranch {
                remote: remote@,
            },
            SetupStage::Fetch { remote, default_branch } => SetupStageView::Fetch {
                remote: remote@,
                default_branch: default_branch@,
            },
            SetupStage::Tracking { remote, default_branch } => SetupStageView::Tracking {
                remote: remote@,
                default_branch: default_branch@,
            },
            SetupStage::Branches { ctx } => SetupStageView::Branches { ctx: ctx@ },
            SetupStage::Current { ctx, branches } => SetupStageView::Current {
                ctx: ctx@,
                branches: views(branches@),
            },
        }
    }
}

/// The steps before a run, between two of them.
#[derive(Debug)]
pub struct Setup {
    stage: SetupStage,
}

impl View for Setup {
    type V = SetupStageView;

    closed spec fn view(&self) -> SetupStageView {
        self.stage@
    }
}

/// What a step of a setup leads to.
#[derive(Debug)]
pub enum Prepared {
    /// The setup goes on once `command` has been run.
    Ask { setup: Setup, command: GitCommand },
    /// All is known: a run over `branches` can begin, with `current`
    /// checked out.
    Ready { ctx: Context, branches: Vec<String>, current: String },
    /// A step failed, and there will be no run.
    Failed { error: GitError },
}

/// Mathematical value of a [`Prepared`].
pub enum PreparedView {
    Ask { setup: SetupStageView, command: GitCommandView },
    Ready { ctx: ContextView, branches: Seq<Seq<char>>, current: Seq<char> },
    Failed { error: GitErrorView },
}

impl View for Prepared {
    type V = PreparedView;

    open spec fn view(&self) -> PreparedView {
        match *self {
            Prepared::Ask { setup, command } => PreparedView::Ask {
                setup: setup@,
                command: command@,
            },
            Prepared::Ready { ctx, branches, current } => PreparedView::Ready {
                ctx: ctx@,
                branches: views(branches@),
                current: current@,
            },
            Prepared::Failed { error } => PreparedView::Failed { error: error@ },
        }
    }
}

impl SetupStageView {
    /// The first step: to list the remotes.
    pub open spec fn begin() -> (SetupStageView, GitCommandView) {
        (SetupStageView::Remote, GitCommandView::Remotes)
    }

    /// The step that `reply`, the reply to the pending command, leads to.
    /// Each reply is read as the function for its command says, and an
    /// error there ends the setup.
    pub open spec fn step(self, reply: ReplyView) -> PreparedView {
        match self {
            SetupStageView::Remote => match main_remote(reply) {
                Ok(remote) => PreparedView::Ask {
                    setup: SetupStageView::DefaultBranch { remote },
                    command: GitCommandView::SymbolicRef {
                        name: "refs/remotes/"@ + remote + "/HEAD"@,
                        short: false,
                    },
                },
                Err(error) => PreparedView::Failed { error },
            },
            SetupStageView::DefaultBranch { remote } => match default_branch(remote, reply) {
                Ok(default_branch) => PreparedView::Ask {
                    setup: SetupStageView::Fetch { remote, default_branch },
                    command: GitCommandView::Fetch { remote },
                },
                Err(error) => PreparedView::Failed { error },
            },
            SetupStageView::Fetch { remote, default_branch } => if reply.succeeded() {
                PreparedView::Ask {
                    setup: SetupStageView::Tracking { remote, default_branch },
                    command: GitCommandView::Config {
                        args: seq!["--local"@, "--get-regexp"@, "branch.*.remote"@],
                    },
                }
            } else {
                PreparedView::Failed { error: GitErrorView::Fetch }
            },
            SetupStageView::Tracking { remote, default_branch } => match branch_remotes_of(reply) {
                Ok(tracking) => PreparedView::Ask {
                    setup: SetupStageView::Branches {
                        ctx: ContextView { remote, default_branch, tracking },
                    },
                    command: GitCommandView::BranchList,
                },
                Err(error) => PreparedView::Failed { error },
            },
            SetupStageView::Branches { ctx } => match local_branches_of(reply) {
                Ok(branches) => PreparedView::Ask {
                    setup: SetupStageView::Current { ctx, branches },
                    command: GitCommandView::SymbolicRef { name: "HEAD"@, short: true },
                },
                Err(error) => PreparedView::Failed { error },
            },
            SetupStageView::Current { ctx, branches } => match current_branch_of(reply) {
                Ok(current) => PreparedView::Ready { ctx, branches, current },
                Err(error) => PreparedView::Failed { error },
            },
        }
    }
}

impl Setup {
    /// Begins the setup, and hands out the first command.
    pub fn begin() -> (r: (Setup, GitCommand))
        ensures
            (r.0@, r.1@) == SetupStageView::begin(),
    {
        (Setup { stage: SetupStage::Remote }, GitCommand::Remotes)
    }

    /// Takes the reply to the pending command and hands out the next
    /// command, or ends the setup.
    pub fn step(self, reply: &Reply) -> (r: Prepared)
        ensures
            r@ == self@.step(reply@),
    {
        match self.stage {
            SetupStage::Remote => match get_main_remote(reply) {
                Ok(remote) => {
                    let command = default_branch_query(remote.as_str());
                    Prepared::Ask {
                        setup: Setup { stage: SetupStage::DefaultBranch { remote } },
                        command,
                    }
                },
                Err(error) => Prepared::Failed { error },
            },
            SetupStage::DefaultBranch { remote } => match get_default_branch(
                remote.as_str(),
                reply,
            ) {
                Ok(default_branch) => {
                    let command = GitCommand::Fetch { remote: remote.clone() };
                    Prepared::Ask {
                        setup: Setup { stage: SetupStage::Fetch { remote, default_branch } },
                        command,
                    }
                },
                Err(error) => Prepared::Failed { error },
            },
            SetupStage::Fetch { remote, default_branch } => match fetch(reply) {
                Ok(_) => Prepared::Ask {
                    setup: Setup { stage: SetupStage::Tracking { remote, default_branch } },
                    command: branch_remotes_query(),
                },
                Err(error) => Prepared::Failed { error },
            },
            SetupStage::Tracking { remote, default_branch } => match branch_remotes(reply) {
                Ok(tracking) => Prepared::Ask {
                    setup: Setup {
                        stage: SetupStage::Branches {
                            ctx: Context { remote, default_branch, tracking },
                        },
                    },
                    command: GitCommand::BranchList,
                },
                Err(error) => Prepared::Failed { error },
            },
            SetupStage::Branches { ctx } => match local_branches(reply) {
                Ok(branches) => Prepared::Ask {
                    setup: Setup { stage: SetupStage::Current { ctx, branches } },
                    command: current_branch_query(),
                },
                Err(error) => Prepared::Failed { error },
            },
            SetupStage::Current { ctx, branches } => match current_branch(reply) {
                Ok(current) => Prepared::Ready { ctx, branches, current },
                Err(error) => Prepared::Failed { error },
            },
        }
    }
}

} // verus!
