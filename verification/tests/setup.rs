use git_up::command::{GitCommand, Reply};
use git_up::git::GitError;
use git_up::setup::{branch_remotes, current_branch, local_branches, Prepared, Setup};

fn ok(stdout: &str) -> Reply {
    Reply::Exited { success: true, stdout: stdout.to_string() }
}

fn failed(stdout: &str) -> Reply {
    Reply::Exited { success: false, stdout: stdout.to_string() }
}

fn strings(items: &[&str]) -> Vec<String> {
    items.iter().map(|s| s.to_string()).collect()
}

#[test]
fn branch_remotes_reads_key_and_value() {
    let t = branch_remotes(&ok("branch.main.remote origin\nbranch.feature-x.remote fork\n")).unwrap();
    assert_eq!(t.get("main"), Some(&"origin".to_string()));
    assert_eq!(t.get("feature-x"), Some(&"fork".to_string()));
    assert_eq!(t.get("other"), None);
}

#[test]
fn branch_remotes_ignores_the_exit_status() {
    let t = branch_remotes(&failed("")).unwrap();
    assert_eq!(t.get("main"), None);
    let t = branch_remotes(&failed("branch.main.remote origin\n")).unwrap();
    assert_eq!(t.get("main"), Some(&"origin".to_string()));
}

#[test]
fn branch_remotes_takes_the_second_part_of_the_key() {
    let t = branch_remotes(&ok("branch.release.1.remote origin\n")).unwrap();
    assert_eq!(t.get("release"), Some(&"origin".to_string()));
    assert_eq!(t.get("release.1"), None);
    let t = branch_remotes(&ok("nodots origin\n")).unwrap();
    assert_eq!(t.get(""), Some(&"origin".to_string()));
}

#[test]
fn branch_remotes_takes_the_value_up_to_the_next_space() {
    let t = branch_remotes(&ok("branch.main.remote origin extra\n")).unwrap();
    assert_eq!(t.get("main"), Some(&"origin".to_string()));
    let t = branch_remotes(&ok("branch.main.remote  origin\n")).unwrap();
    assert_eq!(t.get("main"), Some(&String::new()));
}

#[test]
fn branch_remotes_lets_the_last_line_win() {
    let t =
        branch_remotes(&ok("branch.main.remote origin\nbranch.main.pushremote fork\n")).unwrap();
    assert_eq!(t.get("main"), Some(&"fork".to_string()));
}

#[test]
fn branch_remotes_rejects_a_line_without_value() {
    match branch_remotes(&ok("branch.main.remote origin\nbranch.x.remote\nalso-bad\n")) {
        Err(e) => assert_eq!(e, GitError::ConfigLine { line: "branch.x.remote".to_string() }),
        Ok(_) => panic!("a line without a value was accepted"),
    }
}

#[test]
fn branch_remotes_needs_the_command_to_run() {
    match branch_remotes(&Reply::NotRun) {
        Err(e) => assert_eq!(e, GitError::BranchRemotes),
        Ok(_) => panic!("a command that did not run gave a table"),
    }
}

#[test]
fn local_branches_takes_the_last_word_of_each_line() {
    assert_eq!(
        local_branches(&ok("  feature-x\n* main\n  old-feature\n")),
        Ok(strings(&["feature-x", "main", "old-feature"]))
    );
    assert_eq!(local_branches(&ok("")), Ok(Vec::new()));
    assert_eq!(local_branches(&ok("\n")), Ok(strings(&[""])));
    assert_eq!(
        local_branches(&ok("* (HEAD detached at 0123456)\n  main\n")),
        Ok(strings(&["0123456)", "main"]))
    );
}

#[test]
fn local_branches_ignores_the_exit_status() {
    assert_eq!(local_branches(&failed("  main\n")), Ok(strings(&["main"])));
    assert_eq!(local_branches(&Reply::NotRun), Err(GitError::BranchList));
}

#[test]
fn current_branch_is_the_trimmed_output() {
    assert_eq!(current_branch(&ok("main\n")), Ok("main".to_string()));
    assert_eq!(current_branch(&failed("")), Err(GitError::CurrentBranch));
    assert_eq!(current_branch(&Reply::NotRun), Err(GitError::CurrentBranch));
}

fn expect_ask(step: Prepared, command: GitCommand) -> Setup {
    match step {
        Prepared::Ask { setup, command: asked } => {
            assert_eq!(asked, command);
            setup
        }
        other => panic!("expected a command, got {:?}", other),
    }
}

fn expect_failure(step: Prepared, error: GitError) {
    match step {
        Prepared::Failed { error: got } => assert_eq!(got, error),
        other => panic!("expected a failure, got {:?}", other),
    }
}

#[test]
fn a_setup_asks_in_order_and_ends_ready() {
    let (setup, first) = Setup::begin();
    assert_eq!(first, GitCommand::Remotes);
    let setup = expect_ask(
        setup.step(&ok("origin\tgit@example.com:a/b.git (fetch)\n")),
        GitCommand::SymbolicRef { name: "refs/remotes/origin/HEAD".to_string(), short: false },
    );
    let setup = expect_ask(
        setup.step(&ok("refs/remotes/origin/trunk\n")),
        GitCommand::Fetch { remote: "origin".to_string() },
    );
    let setup = expect_ask(
        setup.step(&ok("")),
        GitCommand::Config {
            args: strings(&["--local", "--get-regexp", "branch.*.remote"]),
        },
    );
    let setup = expect_ask(
        setup.step(&ok("branch.trunk.remote origin\nbranch.x.remote origin\n")),
        GitCommand::BranchList,
    );
    let setup = expect_ask(
        setup.step(&ok("* trunk\n  x\n  y\n")),
        GitCommand::SymbolicRef { name: "HEAD".to_string(), short: true },
    );
    match setup.step(&ok("trunk\n")) {
        Prepared::Ready { ctx, branches, current } => {
            assert_eq!(ctx.remote, "origin");
            assert_eq!(ctx.default_branch, "trunk");
            assert_eq!(ctx.tracking.get("x"), Some(&"origin".to_string()));
            assert_eq!(ctx.tracking.get("y"), None);
            assert_eq!(branches, strings(&["trunk", "x", "y"]));
            assert_eq!(current, "trunk");
        }
        other => panic!("expected the setup to be ready, got {:?}", other),
    }
}

#[test]
fn a_setup_fails_without_a_remote() {
    let (setup, _) = Setup::begin();
    expect_failure(setup.step(&ok("")), GitError::NoRemotes);
    let (setup, _) = Setup::begin();
    expect_failure(setup.step(&Reply::NotRun), GitError::NotRun);
}

#[test]
fn a_setup_fails_on_a_foreign_default_branch() {
    let (setup, _) = Setup::begin();
    let setup = expect_ask(
        setup.step(&ok("origin x (fetch)\n")),
        GitCommand::SymbolicRef { name: "refs/remotes/origin/HEAD".to_string(), short: false },
    );
    expect_failure(setup.step(&ok("refs/heads/main\n")), GitError::DefaultBranch);
}

fn fetched() -> Setup {
    let (setup, _) = Setup::begin();
    let setup = expect_ask(
        setup.step(&ok("origin x (fetch)\n")),
        GitCommand::SymbolicRef { name: "refs/remotes/origin/HEAD".to_string(), short: false },
    );
    expect_ask(setup.step(&failed("")), GitCommand::Fetch { remote: "origin".to_string() })
}

#[test]
fn a_setup_fails_when_the_fetch_fails() {
    expect_failure(fetched().step(&failed("")), GitError::Fetch);
    expect_failure(fetched().step(&Reply::NotRun), GitError::Fetch);
}

#[test]
fn a_setup_fails_on_a_bad_setting() {
    let setup = expect_ask(fetched().step(&ok("")), GitCommand::Config {
        args: strings(&["--local", "--get-regexp", "branch.*.remote"]),
    });
    expect_failure(
        setup.step(&ok("branch.x.remote\n")),
        GitError::ConfigLine { line: "branch.x.remote".to_string() },
    );
}

#[test]
fn a_setup_fails_without_a_checked_out_branch() {
    let setup = expect_ask(fetched().step(&ok("")), GitCommand::Config {
        args: strings(&["--local", "--get-regexp", "branch.*.remote"]),
    });
    let setup = expect_ask(setup.step(&failed("")), GitCommand::BranchList);
    let setup = expect_ask(
        setup.step(&ok("* (HEAD detached at 0123456)\n  main\n")),
        GitCommand::SymbolicRef { name: "HEAD".to_string(), short: true },
    );
    expect_failure(setup.step(&failed("")), GitError::CurrentBranch);
}

#[test]
fn a_setup_fails_when_the_branches_cannot_be_listed() {
    let setup = expect_ask(fetched().step(&ok("")), GitCommand::Config {
        args: strings(&["--local", "--get-regexp", "branch.*.remote"]),
    });
    let setup = expect_ask(setup.step(&ok("")), GitCommand::BranchList);
    expect_failure(setup.step(&Reply::NotRun), GitError::BranchList);
}

#[test]
fn branch_remotes_agrees_with_splitting_by_hand() {
    let lines = [
        "branch.main.remote origin",
        "branch.feature/x.remote fork",
        "branch.a.b.remote origin",
        "key value more",
        ". x",
        "branch..remote origin",
        "nodot value",
        " leading",
    ];
    for line in lines {
        let parts: Vec<String> = line.split(' ').map(String::from).collect();
        let branch: String = parts[0].split('.').skip(1).take(1).collect();
        let remote = parts[1].clone();
        let t = branch_remotes(&ok(&format!("{}\n", line))).unwrap();
        assert_eq!(t.get(&branch), Some(&remote), "{:?}", line);
    }
}

#[test]
fn local_branches_agrees_with_splitting_by_hand() {
    let listing = "* main\n  feature-x\n\n   \n  a b c  \n+ worktree-branch\nplain";
    let expected: Vec<String> = listing
        .lines()
        .map(|line| String::from(line.trim().split(' ').last().unwrap()))
        .collect();
    assert_eq!(local_branches(&ok(listing)), Ok(expected));
}
