use git_up::command::{GitCommand, Reply, Request};
use git_up::report::Report;
use git_up::run::{Advance, Run, Verdict};
use git_up::session::{Context, Outcome};
use git_up::tracking::BranchRemotes;

/// A repository that lives in memory and answers requests as `git` would.
#[derive(Clone, Debug)]
struct Repo {
    /// Full ref names and the commits they point to.
    refs: Vec<(String, String)>,
    /// Local branches and the full names of their upstreams.
    upstreams: Vec<(String, String)>,
    /// Pairs of commits of which the first is an ancestor of the second.
    ancestors: Vec<(String, String)>,
    /// Branches and the remotes they track.
    tracking: Vec<(String, String)>,
    /// The branch that is checked out.
    head: String,
    /// Every request that was carried out, in order.
    log: Vec<Request>,
}

impl Repo {
    fn new(head: &str) -> Repo {
        Repo {
            refs: Vec::new(),
            upstreams: Vec::new(),
            ancestors: Vec::new(),
            tracking: Vec::new(),
            head: head.to_string(),
            log: Vec::new(),
        }
    }

    fn set(&mut self, name: &str, commit: &str) {
        self.refs.retain(|(n, _)| n != name);
        self.refs.push((name.to_string(), commit.to_string()));
    }

    /// A local branch that tracks the branch of the same name on `origin`.
    fn tracking_branch(&mut self, branch: &str, commit: &str) {
        self.set(&format!("refs/heads/{}", branch), commit);
        self.upstreams.push((branch.to_string(), format!("refs/remotes/origin/{}", branch)));
        self.tracking.push((branch.to_string(), "origin".to_string()));
    }

    fn ancestor(&mut self, a: &str, b: &str) {
        self.ancestors.push((a.to_string(), b.to_string()));
    }

    fn resolve(&self, name: &str) -> Option<String> {
        self.refs.iter().find(|(n, _)| n == name).map(|(_, c)| c.clone())
    }

    fn branches(&self) -> Vec<String> {
        let mut names: Vec<String> = self
            .refs
            .iter()
            .filter_map(|(n, _)| n.strip_prefix("refs/heads/").map(String::from))
            .collect();
        names.sort();
        names
    }

    fn context(&self) -> Context {
        let mut tracking = BranchRemotes::new();
        for (branch, remote) in &self.tracking {
            tracking.insert(branch.clone(), remote.clone());
        }
        Context { remote: "origin".to_string(), default_branch: "main".to_string(), tracking }
    }

    fn exited(success: bool, stdout: String) -> Reply {
        Reply::Exited { success, stdout }
    }

    fn answer(&mut self, request: &Request) -> Reply {
        self.log.push(request.clone());
        let command = match request {
            Request::Probe { path } => {
                let name = path.strip_prefix(".git/").unwrap_or(path);
                return Reply::Probed { exists: self.resolve(name).is_some() };
            }
            Request::Run(command) => command,
        };
        match command {
            GitCommand::SymbolicFullName { name } => {
                let branch = name.strip_suffix("@{upstream}").unwrap_or(name);
                let upstream = self.upstreams.iter().find(|(b, _)| b == branch).map(|(_, u)| u);
                match upstream {
                    Some(u) if self.resolve(u).is_some() => Repo::exited(true, format!("{}\n", u)),
                    _ => Repo::exited(false, String::new()),
                }
            }
            GitCommand::GitPath { path } => Repo::exited(true, format!(".git/{}\n", path)),
            GitCommand::RevParse { a, b } => match (self.resolve(a), self.resolve(b)) {
                (Some(x), Some(y)) => Repo::exited(true, format!("{}\n{}\n", x, y)),
                (Some(x), None) => Repo::exited(false, format!("{}\n{}\n", x, b)),
                _ => Repo::exited(false, format!("{}\n", a)),
            },
            GitCommand::IsAncestor { a, b } => {
                let yes = a == b || self.ancestors.iter().any(|(x, y)| x == a && y == b);
                Repo::exited(yes, String::new())
            }
            GitCommand::FastForwardMerge { branch } => match self.resolve(branch) {
                Some(commit) => {
                    let head = format!("refs/heads/{}", self.head);
                    self.set(&head, &commit);
                    Repo::exited(true, String::new())
                }
                None => Repo::exited(false, String::new()),
            },
            GitCommand::UpdateRef { full_branch, remote_branch } => {
                match self.resolve(remote_branch) {
                    Some(commit) => {
                        self.set(full_branch, &commit);
                        Repo::exited(true, String::new())
                    }
                    None => Repo::exited(false, String::new()),
                }
            }
            GitCommand::Checkout { branch } => {
                if self.resolve(&format!("refs/heads/{}", branch)).is_some() {
                    self.head = branch.clone();
                    Repo::exited(true, String::new())
                } else {
                    Repo::exited(false, String::new())
                }
            }
            GitCommand::DeleteBranch { branch } => {
                let name = format!("refs/heads/{}", branch);
                if *branch != self.head && self.resolve(&name).is_some() {
                    self.refs.retain(|(n, _)| *n != name);
                    Repo::exited(true, String::new())
                } else {
                    Repo::exited(false, String::new())
                }
            }
            _ => Reply::NotRun,
        }
    }

    /// One whole pass over the local branches.
    fn pass(&mut self) -> (Vec<Verdict>, String) {
        let mut verdicts = Vec::new();
        let mut advance = Run::begin(self.context(), self.branches(), self.head.clone());
        loop {
            match advance {
                Advance::Ask { run, request, verdict } => {
                    assert_eq!(run.current(), &self.head, "the run lost track of the checkout");
                    verdicts.extend(verdict);
                    advance = run.step(&self.answer(&request));
                }
                Advance::Done { verdict, current } => {
                    verdicts.extend(verdict);
                    return (verdicts, current);
                }
            }
        }
    }

    fn changes(&self) -> Vec<GitCommand> {
        self.log
            .iter()
            .filter(|r| r.mutates())
            .map(|r| match r {
                Request::Run(command) => command.clone(),
                Request::Probe { .. } => panic!("a probe changes nothing"),
            })
            .collect()
    }
}

const M0: &str = "a000000000000000000000000000000000000000";
const M1: &str = "a111111111111111111111111111111111111111";
const F0: &str = "f000000000000000000000000000000000000000";
const F1: &str = "f111111111111111111111111111111111111111";
const W0: &str = "c000000000000000000000000000000000000000";
const W1: &str = "c111111111111111111111111111111111111111";

/// `main` is checked out and behind; `feature-x` is behind; `old-feature`
/// is gone and merged; `wip` has a commit of its own; `synced` is at its
/// remote; `plain` tracks nothing and has no remote branch.
fn repo() -> Repo {
    let mut repo = Repo::new("main");
    repo.tracking_branch("main", M0);
    repo.set("refs/remotes/origin/main", M1);
    repo.ancestor(M0, M1);
    repo.tracking_branch("feature-x", F0);
    repo.set("refs/remotes/origin/feature-x", F1);
    repo.ancestor(F0, F1);
    repo.tracking_branch("old-feature", M0);
    repo.tracking_branch("synced", F1);
    repo.set("refs/remotes/origin/synced", F1);
    repo.tracking_branch("wip", W1);
    repo.set("refs/remotes/origin/wip", W0);
    repo.ancestor(W0, W1);
    repo.set("refs/heads/plain", W0);
    repo
}

fn verdict<'a>(verdicts: &'a [Verdict], branch: &str) -> &'a Verdict {
    verdicts.iter().find(|v| v.branch == branch).expect("no verdict for the branch")
}

#[test]
fn a_run_over_no_branches_is_done_at_once() {
    let ctx = Repo::new("main").context();
    match Run::begin(ctx, Vec::new(), "main".to_string()) {
        Advance::Done { verdict, current } => {
            assert_eq!(verdict, None);
            assert_eq!(current, "main");
        }
        other => panic!("expected the run to be done, got {:?}", other),
    }
}

#[test]
fn a_run_names_the_branch_at_hand() {
    let repo = repo();
    match Run::begin(repo.context(), repo.branches(), "main".to_string()) {
        Advance::Ask { run, verdict, .. } => {
            assert_eq!(run.branch(), "feature-x");
            assert_eq!(run.current(), "main");
            assert_eq!(verdict, None);
        }
        other => panic!("expected a request, got {:?}", other),
    }
}

#[test]
fn a_pass_gives_one_verdict_for_each_branch_in_order() {
    let mut repo = repo();
    let branches = repo.branches();
    let (verdicts, current) = repo.pass();
    let named: Vec<String> = verdicts.iter().map(|v| v.branch.clone()).collect();
    assert_eq!(named, branches);
    assert_eq!(current, "main");
}

#[test]
fn a_pass_treats_each_branch_by_its_state() {
    let mut repo = repo();
    let (verdicts, _) = repo.pass();
    assert_eq!(verdict(&verdicts, "main").outcome, Outcome::FastForwarded);
    assert_eq!(
        verdict(&verdicts, "main").report,
        Some(Report::Updated { branch: "main".to_string(), was: "a000000".to_string() })
    );
    assert_eq!(verdict(&verdicts, "feature-x").outcome, Outcome::Repointed);
    assert_eq!(
        verdict(&verdicts, "feature-x").report,
        Some(Report::Updated { branch: "feature-x".to_string(), was: "f000000".to_string() })
    );
    assert_eq!(verdict(&verdicts, "old-feature").outcome, Outcome::Deleted);
    assert_eq!(verdict(&verdicts, "synced").outcome, Outcome::Synced);
    assert_eq!(verdict(&verdicts, "synced").report, None);
    assert_eq!(verdict(&verdicts, "wip").outcome, Outcome::Diverged);
    assert_eq!(
        verdict(&verdicts, "wip").report,
        Some(Report::Unpushed { branch: "wip".to_string() })
    );
    assert_eq!(verdict(&verdicts, "plain").outcome, Outcome::Skipped);
    assert_eq!(
        verdict(&verdicts, "plain").report.as_ref().map(|r| r.message()),
        Some(
            "Error: plain failed to process branch: Can't resolve range \
             refs/heads/plain..refs/remotes/origin/plain"
                .to_string()
        )
    );
}

#[test]
fn a_pass_changes_what_it_reports_and_nothing_else() {
    let mut repo = repo();
    repo.pass();
    assert_eq!(
        repo.changes(),
        vec![
            GitCommand::UpdateRef {
                full_branch: "refs/heads/feature-x".to_string(),
                remote_branch: "refs/remotes/origin/feature-x".to_string(),
            },
            GitCommand::FastForwardMerge { branch: "refs/remotes/origin/main".to_string() },
            GitCommand::DeleteBranch { branch: "old-feature".to_string() },
        ]
    );
    assert_eq!(repo.resolve("refs/heads/main"), Some(M1.to_string()));
    assert_eq!(repo.resolve("refs/heads/feature-x"), Some(F1.to_string()));
    assert_eq!(repo.resolve("refs/heads/old-feature"), None);
    assert_eq!(repo.resolve("refs/heads/wip"), Some(W1.to_string()));
    assert_eq!(repo.resolve("refs/heads/plain"), Some(W0.to_string()));
}

#[test]
fn a_synced_branch_causes_no_change_and_no_report() {
    let mut repo = Repo::new("main");
    repo.tracking_branch("feature-x", F1);
    repo.set("refs/remotes/origin/feature-x", F1);
    let (verdicts, _) = repo.pass();
    assert_eq!(
        verdicts,
        vec![Verdict { branch: "feature-x".to_string(), outcome: Outcome::Synced, report: None }]
    );
    assert_eq!(repo.changes(), Vec::new());
}

#[test]
fn a_branch_that_is_not_checked_out_is_never_merged() {
    let mut repo = Repo::new("main");
    repo.tracking_branch("feature-x", F0);
    repo.set("refs/remotes/origin/feature-x", F1);
    repo.ancestor(F0, F1);
    repo.pass();
    assert_eq!(
        repo.changes(),
        vec![GitCommand::UpdateRef {
            full_branch: "refs/heads/feature-x".to_string(),
            remote_branch: "refs/remotes/origin/feature-x".to_string(),
        }]
    );
}

#[test]
fn the_checked_out_branch_is_never_repointed() {
    let mut repo = Repo::new("feature-x");
    repo.tracking_branch("feature-x", F0);
    repo.set("refs/remotes/origin/feature-x", F1);
    repo.ancestor(F0, F1);
    repo.pass();
    assert_eq!(
        repo.changes(),
        vec![GitCommand::FastForwardMerge { branch: "refs/remotes/origin/feature-x".to_string() }]
    );
    assert_eq!(repo.resolve("refs/heads/feature-x"), Some(F1.to_string()));
}

#[test]
fn a_gone_branch_that_is_not_merged_is_never_deleted() {
    let mut repo = Repo::new("main");
    repo.tracking_branch("main", M1);
    repo.set("refs/remotes/origin/main", M1);
    repo.tracking_branch("wip", W1);
    let (verdicts, _) = repo.pass();
    assert_eq!(verdict(&verdicts, "wip").outcome, Outcome::Diverged);
    assert_eq!(
        verdict(&verdicts, "wip").report,
        Some(Report::Unmerged {
            branch: "wip".to_string(),
            remote: "origin".to_string(),
            default_branch: "main".to_string(),
        })
    );
    assert_eq!(repo.changes(), Vec::new());
    assert_eq!(repo.resolve("refs/heads/wip"), Some(W1.to_string()));
}

#[test]
fn the_checked_out_branch_is_left_before_it_is_deleted() {
    let mut repo = Repo::new("old-feature");
    repo.tracking_branch("main", M1);
    repo.set("refs/remotes/origin/main", M1);
    repo.tracking_branch("old-feature", M0);
    repo.ancestor(M0, M1);
    let (verdicts, current) = repo.pass();
    assert_eq!(verdict(&verdicts, "old-feature").outcome, Outcome::CheckedOutAndDeleted);
    assert_eq!(
        verdict(&verdicts, "old-feature").report.as_ref().map(|r| r.message()),
        Some("Deleted branch old-feature (was a000000).".to_string())
    );
    assert_eq!(
        repo.changes(),
        vec![
            GitCommand::Checkout { branch: "main".to_string() },
            GitCommand::DeleteBranch { branch: "old-feature".to_string() },
        ]
    );
    assert_eq!(current, "main");
    assert_eq!(repo.head, "main");
    assert_eq!(repo.resolve("refs/heads/old-feature"), None);
}

#[test]
fn later_branches_see_the_checkout() {
    let mut repo = Repo::new("a-gone");
    repo.tracking_branch("a-gone", M0);
    repo.tracking_branch("main", M0);
    repo.set("refs/remotes/origin/main", M1);
    repo.ancestor(M0, M1);
    repo.tracking_branch("z-behind", F0);
    repo.set("refs/remotes/origin/z-behind", F1);
    repo.ancestor(F0, F1);
    let (verdicts, current) = repo.pass();
    assert_eq!(verdict(&verdicts, "a-gone").outcome, Outcome::CheckedOutAndDeleted);
    assert_eq!(verdict(&verdicts, "main").outcome, Outcome::FastForwarded);
    assert_eq!(verdict(&verdicts, "z-behind").outcome, Outcome::Repointed);
    assert_eq!(
        repo.changes(),
        vec![
            GitCommand::Checkout { branch: "main".to_string() },
            GitCommand::DeleteBranch { branch: "a-gone".to_string() },
            GitCommand::FastForwardMerge { branch: "refs/remotes/origin/main".to_string() },
            GitCommand::UpdateRef {
                full_branch: "refs/heads/z-behind".to_string(),
                remote_branch: "refs/remotes/origin/z-behind".to_string(),
            },
        ]
    );
    assert_eq!(current, "main");
    assert_eq!(repo.resolve("refs/heads/main"), Some(M1.to_string()));
}

#[test]
fn a_failure_on_one_branch_does_not_stop_the_run() {
    let mut repo = Repo::new("main");
    repo.set("refs/heads/a-plain", W0);
    repo.tracking_branch("b-behind", F0);
    repo.set("refs/remotes/origin/b-behind", F1);
    repo.ancestor(F0, F1);
    repo.set("refs/heads/main", M0);
    let (verdicts, _) = repo.pass();
    assert_eq!(verdicts.len(), 3);
    assert_eq!(verdict(&verdicts, "a-plain").outcome, Outcome::Skipped);
    assert!(matches!(verdict(&verdicts, "a-plain").report, Some(Report::Failed { .. })));
    assert_eq!(verdict(&verdicts, "b-behind").outcome, Outcome::Repointed);
}

#[test]
fn a_second_pass_finds_updated_branches_synced() {
    let mut repo = repo();
    let (first, _) = repo.pass();
    let before = repo.changes().len();
    let (second, _) = repo.pass();
    for v in &first {
        match v.outcome {
            Outcome::Synced | Outcome::FastForwarded | Outcome::Repointed => {
                assert_eq!(
                    verdict(&second, &v.branch),
                    &Verdict { branch: v.branch.clone(), outcome: Outcome::Synced, report: None }
                );
            }
            Outcome::Deleted | Outcome::CheckedOutAndDeleted => {
                assert!(second.iter().all(|s| s.branch != v.branch));
            }
            Outcome::Diverged | Outcome::Skipped => {
                assert_eq!(verdict(&second, &v.branch), v);
            }
        }
    }
    assert_eq!(repo.changes().len(), before, "the second pass changed something");
}

#[test]
fn a_branch_of_another_remote_is_left_alone() {
    let mut repo = Repo::new("main");
    repo.set("refs/heads/theirs", W0);
    repo.tracking.push(("theirs".to_string(), "fork".to_string()));
    let (verdicts, _) = repo.pass();
    assert_eq!(
        verdicts,
        vec![Verdict { branch: "theirs".to_string(), outcome: Outcome::Skipped, report: None }]
    );
    assert_eq!(repo.changes(), Vec::new());
    assert_eq!(
        repo.log,
        vec![
            Request::Run(GitCommand::GitPath { path: "refs/remotes/origin/theirs".to_string() }),
            Request::Probe { path: ".git/refs/remotes/origin/theirs".to_string() },
        ]
    );
}

#[test]
fn a_branch_of_another_remote_with_a_branch_here_is_compared() {
    let mut repo = Repo::new("main");
    repo.set("refs/heads/theirs", F0);
    repo.set("refs/remotes/origin/theirs", F1);
    repo.ancestor(F0, F1);
    repo.tracking.push(("theirs".to_string(), "fork".to_string()));
    let (verdicts, _) = repo.pass();
    assert_eq!(verdict(&verdicts, "theirs").outcome, Outcome::Repointed);
}
