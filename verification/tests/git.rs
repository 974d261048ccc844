use gitp::git::{
    classify_status, count_changes, find_repos, parse_branch, parse_sync_counts, porcelain_is_readable, read_statuses,
    update_status, DirEntryInfo, GitOutputs,
};
use gitp::types::{GitRepo, RepoStatus};

fn entry(name: &str, is_repo: bool) -> DirEntryInfo {
    DirEntryInfo { name: Some(name.to_string()), path: format!("/base/{name}"), is_repo }
}

fn repo(name: &str) -> GitRepo {
    GitRepo {
        name: name.to_string(),
        path: format!("/base/{name}"),
        status: RepoStatus::Clean,
        branch: "unknown".to_string(),
        ahead: 0,
        behind: 0,
        modified: 0,
        staged: 0,
        untracked: 0,
    }
}

#[test]
fn find_repos_keeps_repositories_sorted_by_name() {
    let repos = find_repos(vec![entry("beta", true), entry("not_a_repo", false), entry("alpha", true)]);
    let names: Vec<&str> = repos.iter().map(|r| r.name.as_str()).collect();
    assert_eq!(names, vec!["alpha", "beta"]);
    assert_eq!(repos[0].path, "/base/alpha");
    assert_eq!(repos[0].branch, "unknown");
    assert_eq!(repos[0].status, RepoStatus::Clean);
}

#[test]
fn find_repos_empty_listing() {
    assert!(find_repos(vec![]).is_empty());
    assert!(find_repos(vec![entry("docs", false)]).is_empty());
}

#[test]
fn find_repos_names_unreadable_entries_unknown() {
    let repos = find_repos(vec![DirEntryInfo { name: None, path: "/base/x".to_string(), is_repo: true }, entry("Zed", true), entry("a", true)]);
    let names: Vec<&str> = repos.iter().map(|r| r.name.as_str()).collect();
    // byte order: upper case before lower case
    assert_eq!(names, vec!["Zed", "a", "unknown"]);
}

#[test]
fn porcelain_counts() {
    let out = " M src/lib.rs\nM  staged.rs\nMM both.rs\n?? new.txt\n D gone.rs\nA  added.rs\n";
    // (staged, modified, untracked)
    assert_eq!(count_changes(out), (3, 3, 1));
    assert_eq!(count_changes(""), (0, 0, 0));
    assert_eq!(count_changes("x\n?\n"), (0, 0, 0));
}

#[test]
fn sync_counts_parsing() {
    assert_eq!(parse_sync_counts("3\t5\n"), (3, 5));
    assert_eq!(parse_sync_counts("0\t0\n"), (0, 0));
    assert_eq!(parse_sync_counts("x\t2\n"), (0, 2));
    assert_eq!(parse_sync_counts("1 2 3"), (0, 0));
    assert_eq!(parse_sync_counts(""), (0, 0));
}

#[test]
fn branch_is_trimmed() {
    assert_eq!(parse_branch("main\n"), "main");
    assert_eq!(parse_branch("  feature/x \r\n"), "feature/x");
}

#[test]
fn status_classification() {
    assert_eq!(classify_status(0, 0, 0, 0, 0), RepoStatus::Clean);
    assert_eq!(classify_status(2, 3, 1, 0, 0), RepoStatus::Dirty);
    assert_eq!(classify_status(0, 0, 0, 0, 1), RepoStatus::Dirty);
    assert_eq!(classify_status(1, 1, 0, 0, 0), RepoStatus::Diverged);
    assert_eq!(classify_status(1, 0, 0, 0, 0), RepoStatus::Ahead);
    assert_eq!(classify_status(0, 4, 0, 0, 0), RepoStatus::Behind);
}

#[test]
fn update_status_from_outputs() {
    let mut r = repo("alpha");
    update_status(
        &mut r,
        Some("develop\n".to_string()),
        Some("2\t0\n".to_string()),
        Some("?? a\n".to_string()),
    );
    assert_eq!(r.branch, "develop");
    assert_eq!((r.ahead, r.behind), (2, 0));
    assert_eq!((r.staged, r.modified, r.untracked), (0, 0, 1));
    assert_eq!(r.status, RepoStatus::Dirty);

    let mut r2 = repo("beta");
    r2.ahead = 9;
    r2.modified = 4;
    update_status(&mut r2, None, None, None);
    assert_eq!(r2.branch, "unknown");
    assert_eq!((r2.ahead, r2.behind, r2.modified), (0, 0, 0));
    assert_eq!(r2.status, RepoStatus::Clean);
}

#[test]
fn find_repos_discovers_git_dirs() {
    let repos = find_repos(vec![entry("alpha", true), entry("beta", true), entry("not_a_repo", false)]);
    let names: Vec<&str> = repos.iter().map(|r| r.name.as_str()).collect();
    assert_eq!(names, vec!["alpha", "beta"]); // sorted
    assert!(!names.contains(&"not_a_repo"));
}

#[test]
fn find_repos_empty_dir() {
    let repos = find_repos(vec![]);
    assert!(repos.is_empty());
}

#[test]
fn porcelain_readability() {
    assert!(porcelain_is_readable(" M a.rs\n?? b\n"));
    assert!(porcelain_is_readable("x\n"));
    assert!(!porcelain_is_readable(" M a\né\n"));
}

#[test]
fn statuses_read_in_order_dropping_unreadable() {
    let out = |b: &str, s: &str, p: &str| GitOutputs {
        branch: Some(b.to_string()),
        sync: Some(s.to_string()),
        porcelain: Some(p.to_string()),
    };
    let repos = vec![repo("a"), repo("b"), repo("c"), repo("d")];
    let outs = vec![
        Some(out("main\n", "2\t0\n", "")),
        None,
        Some(out("dev\n", "0\t0\n", "é\n")),
        Some(GitOutputs { branch: None, sync: None, porcelain: Some("?? x\nM  y\n".to_string()) }),
    ];
    let r = read_statuses(repos, outs);
    let names: Vec<&str> = r.iter().map(|x| x.name.as_str()).collect();
    assert_eq!(names, vec!["a", "d"]);
    assert_eq!(r[0].branch, "main");
    assert_eq!((r[0].ahead, r[0].behind), (2, 0));
    assert_eq!(r[0].status, RepoStatus::Ahead);
    assert_eq!(r[1].branch, "unknown");
    assert_eq!((r[1].staged, r[1].untracked), (1, 1));
    assert_eq!(r[1].status, RepoStatus::Dirty);
}
