//! What the library asks of its surroundings, and what it gets back.
//!
//! The library never touches a repository itself. It hands out a
//! [`Request`], which says which `git` command to run or which path to look
//! for, and is handed a [`Reply`], which says how that went.

use crate::text::{append, views};
use vstd::prelude::*;

verus! {

/// One invocation of `git`.
#[derive(Clone, Debug, PartialEq, Eq)]
pub enum GitCommand {
    /// `git branch -D --quiet <branch>`
    DeleteBranch { branch: String },
    /// `git checkout --quiet <branch>`
    Checkout { branch: String },
    /// `git update-ref <full_branch> <remote_branch>`
    UpdateRef { full_branch: String, remote_branch: String },
    /// `git merge --ff-only --quiet <branch>`
    FastForwardMerge { branch: String },
    /// `git merge-base --is-ancestor <a> <b>`
    IsAncestor { a: String, b: String },
    /// `git rev-parse --quiet <a> <b>`
    RevParse { a: String, b: String },
    /// `git rev-parse --quiet --git-path <path>`
    GitPath { path: String },
    /// `git rev-parse --symbolic-full-name <name>`
    SymbolicFullName { name: String },
    /// `git symbolic-ref --quiet [--short] <name>`
    SymbolicRef { name: String, short: bool },
    /// `git remote --verbose`
    Remotes,
    /// `git fetch --prune --quiet --progress <remote>`
    Fetch { remote: String },
    /// `git config <args...>`
    Config { args: Vec<String> },
    /// `git branch --list --format %(refname:short)`
    Branches,
    /// `git branch --list`
    BranchList,
}

/// Mathematical value of a [`GitCommand`].
pub enum GitCommandView {
    DeleteBranch { branch: Seq<char> },
    Checkout { branch: Seq<char> },
    UpdateRef { full_branch: Seq<char>, remote_branch: Seq<char> },
    FastForwardMerge { branch: Seq<char> },
    IsAncestor { a: Seq<char>, b: Seq<char> },
    RevParse { a: Seq<char>, b: Seq<char> },
    GitPath { path: Seq<char> },
    SymbolicFullName { name: Seq<char> },
    SymbolicRef { name: Seq<char>, short: bool },
    Remotes,
    Fetch { remote: Seq<char> },
    Config { args: Seq<Seq<char>> },
    Branches,
    BranchList,
}

impl View for GitCommand {
    type V = GitCommandView;

    open spec fn view(&self) -> GitCommandView {
        match *self {
            GitCommand::DeleteBranch { branch } => GitCommandView::DeleteBranch { branch: branch@ },
            GitCommand::Checkout { branch } => GitCommandView::Checkout { branch: branch@ },
            GitCommand::UpdateRef { full_branch, remote_branch } => GitCommandView::UpdateRef {
                full_branch: full_branch@,
                remote_branch: remote_branch@,
            },
            GitCommand::FastForwardMerge { branch } => GitCommandView::FastForwardMerge {
                branch: branch@,
            },
            GitCommand::IsAncestor { a, b } => GitCommandView::IsAncestor { a: a@, b: b@ },
            GitCommand::RevParse { a, b } => GitCommandView::RevParse { a: a@, b: b@ },
            GitCommand::GitPath { path } => GitCommandView::GitPath { path: path@ },
            GitCommand::SymbolicFullName { name } => GitCommandView::SymbolicFullName {
                name: name@,
            },
            GitCommand::SymbolicRef { name, short } => GitCommandView::SymbolicRef {
                name: name@,
                short,
            },
            GitCommand::Remotes => GitCommandView::Remotes,
            GitCommand::Fetch { remote } => GitCommandView::Fetch { remote: remote@ },
            GitCommand::Config { args } => GitCommandView::Config { args: views(args@) },
            GitCommand::Branches => GitCommandView::Branches,
            GitCommand::BranchList => GitCommandView::BranchList,
        }
    }
}

impl GitCommandView {
    /// The arguments that follow `git` on the command line.
    pub open spec fn args(self) -> Seq<Seq<char>> {
        match self {
            GitCommandView::DeleteBranch { branch } => seq![
                "branch"@,
                "-D"@,
                "--quiet"@,
                branch,
            ],
            GitCommandView::Checkout { branch } => seq!["checkout"@, "--quiet"@, branch],
            GitCommandView::UpdateRef { full_branch, remote_branch } => seq![
                "update-ref"@,
                full_branch,
                remote_branch,
            ],
            GitCommandView::FastForwardMerge { branch } => seq![
                "merge"@,
                "--ff-only"@,
                "--quiet"@,
                branch,
            ],
            GitCommandView::IsAncestor { a, b } => seq!["merge-base"@, "--is-ancestor"@, a, b],
            GitCommandView::RevParse { a, b } => seq!["rev-parse"@, "--quiet"@, a, b],
            GitCommandView::GitPath { path } => seq![
                "rev-parse"@,
                "--quiet"@,
                "--git-path"@,
                path,
            ],
            GitCommandView::SymbolicFullName { name } => seq![
                "rev-parse"@,
                "--symbolic-full-name"@,
                name,
            ],
            GitCommandView::SymbolicRef { name, short } => if short {
                seq!["symbolic-ref"@, "--quiet"@, "--short"@, name]
            } else {
                seq!["symbolic-ref"@, "--quiet"@, name]
            },
            GitCommandView::Remotes => seq!["remote"@, "--verbose"@],
            GitCommandView::Fetch { remote } => seq![
                "fetch"@,
                "--prune"@,
                "--quiet"@,
                "--progress"@,
                remote,
            ],
            GitCommandView::Config { args } => seq!["config"@] + args,
            GitCommandView::Branches => seq![
                "branch"@,
                "--list"@,
                "--format"@,
                "%(refname:short)"@,
            ],
            GitCommandView::BranchList => seq!["branch"@, "--list"@],
        }
    }

    /// Whether the command changes a local branch or the working tree:
    /// a fast-forward merge, a ref update, a checkout or a branch deletion.
    pub open spec fn mutates(self) -> bool {
        self is DeleteBranch || self is Checkout || self is UpdateRef || self is FastForwardMerge
    }

    /// Whether the command's output is collected for the library to read.
    /// A fetch is left to write its progress to the terminal.
    pub open spec fn captured(self) -> bool {
        !(self is Fetch)
    }
}

impl GitCommand {
    /// The arguments that follow `git` on the command line.
    pub fn args(&self) -> (r: Vec<String>)
        ensures
            views(r@) == self@.args(),
    {
        let r = match self {
            GitCommand::DeleteBranch { branch } => vec![
                "branch".to_owned(),
                "-D".to_owned(),
                "--quiet".to_owned(),
                branch.clone(),
            ],
            GitCommand::Checkout { branch } => vec![
                "checkout".to_owned(),
                "--quiet".to_owned(),
                branch.clone(),
            ],
            GitCommand::UpdateRef { full_branch, remote_branch } => vec![
                "update-ref".to_owned(),
                full_branch.clone(),
                remote_branch.clone(),
            ],
            GitCommand::FastForwardMerge { branch } => vec![
                "merge".to_owned(),
                "--ff-only".to_owned(),
                "--quiet".to_owned(),
                branch.clone(),
            ],
            GitCommand::IsAncestor { a, b } => vec![
                "merge-base".to_owned(),
                "--is-ancestor".to_owned(),
                a.clone(),
                b.clone(),
            ],
            GitCommand::RevParse { a, b } => vec![
                "rev-parse".to_owned(),
                "--quiet".to_owned(),
                a.clone(),
                b.clone(),
            ],
            GitCommand::GitPath { path } => vec![
                "rev-parse".to_owned(),
                "--quiet".to_owned(),
                "--git-path".to_owned(),
                path.clone(),
            ],
            GitCommand::SymbolicFullName { name } => vec![
                "rev-parse".to_owned(),
                "--symbolic-full-name".to_owned(),
                name.clone(),
            ],
            GitCommand::SymbolicRef { name, short } => {
                let mut v = vec!["symbolic-ref".to_owned(), "--quiet".to_owned()];
                if *short {
                    v.push("--short".to_owned());
                }
                v.push(name.clone());
                v
            },
            GitCommand::Remotes => vec!["remote".to_owned(), "--verbose".to_owned()],
            GitCommand::Fetch { remote } => vec![
                "fetch".to_owned(),
                "--prune".to_owned(),
                "--quiet".to_owned(),
                "--progress".to_owned(),
                remote.clone(),
            ],
            GitCommand::Config { args } => {
                let mut v = vec!["config".to_owned()];
                let mut i: usize = 0;
                while i < args.len()
                    invariant
                        i <= args.len(),
                        v.len() == i + 1,
                        v@[0]@ == "config"@,
                        forall|j: int| 0 <= j < i ==> v@[j + 1]@ == args@[j]@,
                    decreases args.len() - i,
                {
                    v.push(args[i].clone());
                    i += 1;
                }
                v
            },
            GitCommand::Branches => vec![
                "branch".to_owned(),
                "--list".to_owned(),
                "--format".to_owned(),
                "%(refname:short)".to_owned(),
            ],
            GitCommand::BranchList => vec!["branch".to_owned(), "--list".to_owned()],
        };
        assert(views(r@) =~= self@.args());
        r
    }

    /// Whether the command changes a local branch or the working tree.
    pub fn mutates(&self) -> (r: bool)
        ensures
            r == self@.mutates(),
    {
        match self {
            GitCommand::DeleteBranch { .. } => true,
            GitCommand::Checkout { .. } => true,
            GitCommand::UpdateRef { .. } => true,
            GitCommand::FastForwardMerge { .. } => true,
            _ => false,
        }
    }

    /// Whether the command's output is to be collected.
    pub fn captured(&self) -> (r: bool)
        ensures
            r == self@.captured(),
    {
        match self {
            GitCommand::Fetch { .. } => false,
            _ => true,
        }
    }
}

/// The command that lists, for every local branch that tracks a remote,
/// the configuration key of that setting and the remote's name.
pub fn branch_remotes_query() -> (r: GitCommand)
    ensures
        r@ == (GitCommandView::Config {
            args: seq!["--local"@, "--get-regexp"@, "branch.*.remote"@],
        }),
{
    let args = vec!["--local".to_owned(), "--get-regexp".to_owned(), "branch.*.remote".to_owned()];
    assert(views(args@) =~= seq!["--local"@, "--get-regexp"@, "branch.*.remote"@]);
    GitCommand::Config { args }
}

/// The command that names the checked-out branch.
pub fn current_branch_query() -> (r: GitCommand)
    ensures
        r@ == (GitCommandView::SymbolicRef { name: "HEAD"@, short: true }),
{
    GitCommand::SymbolicRef { name: "HEAD".to_owned(), short: true }
}

/// The command that names the branch that `remote`'s `HEAD` points to.
pub fn default_branch_query(remote: &str) -> (r: GitCommand)
    ensures
        r@ == (GitCommandView::SymbolicRef {
            name: "refs/remotes/"@ + remote@ + "/HEAD"@,
            short: false,
        }),
{
    let name = append(append("refs/remotes/", remote).as_str(), "/HEAD");
    GitCommand::SymbolicRef { name, short: false }
}

/// Something for the caller to do on the library's behalf.
#[derive(Clone, Debug, PartialEq, Eq)]
pub enum Request {
    /// Run `git` with the command's arguments.
    Run(GitCommand),
    /// Find out whether a file or directory exists at `path`.
    Probe { path: String },
}

/// Mathematical value of a [`Request`].
pub enum RequestView {
    Run(GitCommandView),
    Probe { path: Seq<char> },
}

impl View for Request {
    type V = RequestView;

    open spec fn view(&self) -> RequestView {
        match *self {
            Request::Run(command) => RequestView::Run(command@),
            Request::Probe { path } => RequestView::Probe { path: path@ },
        }
    }
}

impl RequestView {
    /// Whether carrying out the request changes a local branch or the
    /// working tree.
    pub open spec fn mutates(self) -> bool {
        self matches RequestView::Run(command) && command.mutates()
    }
}

impl Request {
    /// Whether carrying out the request changes a local branch or the
    /// working tree.
    pub fn mutates(&self) -> (r: bool)
        ensures
            r == self@.mutates(),
    {
        match self {
            Request::Run(command) => command.mutates(),
            Request::Probe { .. } => false,
        }
    }
}

/// How a [`Request`] went.
#[derive(Clone, Debug, PartialEq, Eq)]
pub enum Reply {
    /// The command could not be run, or did not run to its end.
    NotRun,
    /// The command ran. `success` tells whether it exited with status zero,
    /// `stdout` is what it wrote to its standard output.
    Exited { success: bool, stdout: String },
    /// The path was looked for.
    Probed { exists: bool },
}

/// Mathematical value of a [`Reply`].
pub enum ReplyView {
    NotRun,
    Exited { success: bool, stdout: Seq<char> },
    Probed { exists: bool },
}

impl View for Reply {
    type V = ReplyView;

    open spec fn view(&self) -> ReplyView {
        match *self {
            Reply::NotRun => ReplyView::NotRun,
            Reply::Exited { success, stdout } => ReplyView::Exited { success, stdout: stdout@ },
            Reply::Probed { exists } => ReplyView::Probed { exists },
        }
    }
}

impl ReplyView {
    /// Whether a command ran and exited with status zero.
    pub open spec fn succeeded(self) -> bool {
        self matches ReplyView::Exited { success, .. } && success
    }
}

impl Reply {
    /// Whether a command ran and exited with status zero.
    pub fn succeeded(&self) -> (r: bool)
        ensures
            r == self@.succeeded(),
    {
        match self {
            Reply::Exited { success, .. } => *success,
            _ => false,
        }
    }
}

} // verus!
