use git_up::status::{
    classify, evidence, local_ref_name, remote_ref_name, upstream_name, BranchStatus, Evidence,
};
use git_up::tracking::BranchRemotes;

fn table(settings: &[(&str, &str)]) -> BranchRemotes {
    let mut t = BranchRemotes::new();
    for (branch, remote) in settings {
        t.insert(branch.to_string(), remote.to_string());
    }
    t
}

#[test]
fn an_empty_table_knows_no_branch() {
    let t = BranchRemotes::new();
    assert_eq!(t.get("main"), None);
    assert_eq!(t.get(""), None);
}

#[test]
fn a_table_gives_the_remote_of_a_branch() {
    let t = table(&[("main", "origin"), ("topic", "fork")]);
    assert_eq!(t.get("main"), Some(&"origin".to_string()));
    assert_eq!(t.get("topic"), Some(&"fork".to_string()));
    assert_eq!(t.get("other"), None);
    assert_eq!(t.get("mai"), None);
}

#[test]
fn a_later_setting_replaces_an_earlier_one() {
    let t = table(&[("main", "origin"), ("topic", "fork"), ("main", "upstream")]);
    assert_eq!(t.get("main"), Some(&"upstream".to_string()));
    assert_eq!(t.get("topic"), Some(&"fork".to_string()));
}

#[test]
fn names_of_refs() {
    assert_eq!(local_ref_name("feature-x"), "refs/heads/feature-x");
    assert_eq!(remote_ref_name("origin", "feature-x"), "refs/remotes/origin/feature-x");
    assert_eq!(remote_ref_name("origin", "a/b"), "refs/remotes/origin/a/b");
    assert_eq!(upstream_name("feature-x"), "feature-x@{upstream}");
}

#[test]
fn evidence_depends_on_the_tracking_setting() {
    let t = table(&[("mine", "origin"), ("theirs", "fork")]);
    assert_eq!(evidence("plain", "origin", &t), Evidence::Nothing);
    assert_eq!(evidence("mine", "origin", &t), Evidence::Upstream);
    assert_eq!(evidence("theirs", "origin", &t), Evidence::TrackingFile);
    assert_eq!(evidence("theirs", "fork", &t), Evidence::Upstream);
}

#[test]
fn a_branch_without_setting_is_compared_by_convention() {
    let t = table(&[("mine", "origin")]);
    assert_eq!(
        classify("plain", "origin", &t, None, false),
        BranchStatus::RemoteExists("refs/remotes/origin/plain".to_string())
    );
    assert_eq!(
        classify("plain", "origin", &t, Some("refs/remotes/origin/other".to_string()), true),
        BranchStatus::RemoteExists("refs/remotes/origin/plain".to_string())
    );
}

#[test]
fn a_branch_of_the_remote_is_compared_with_its_upstream() {
    let t = table(&[("mine", "origin")]);
    assert_eq!(
        classify("mine", "origin", &t, Some("refs/remotes/origin/renamed".to_string()), false),
        BranchStatus::RemoteExists("refs/remotes/origin/renamed".to_string())
    );
}

#[test]
fn a_branch_of_the_remote_without_upstream_is_gone() {
    let t = table(&[("mine", "origin")]);
    assert_eq!(classify("mine", "origin", &t, None, false), BranchStatus::RemoteGone);
    assert_eq!(classify("mine", "origin", &t, None, true), BranchStatus::RemoteGone);
}

#[test]
fn a_branch_of_another_remote_needs_a_file() {
    let t = table(&[("theirs", "fork")]);
    assert_eq!(classify("theirs", "origin", &t, None, false), BranchStatus::Unknown);
    assert_eq!(
        classify("theirs", "origin", &t, None, true),
        BranchStatus::RemoteExists("refs/remotes/origin/theirs".to_string())
    );
    assert_eq!(
        classify("theirs", "origin", &t, Some("refs/remotes/fork/theirs".to_string()), false),
        BranchStatus::Unknown
    );
}
