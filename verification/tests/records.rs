use gitp::records::{
    ci_run_from, code_alert_from, dependency_alert_from, is_workflow_file, pr_item_from, secret_alert_from,
    take_chars, workflow_files, CodeAlertFields, DependencyAlertFields, PrFields, RunFields, SecretAlertFields,
};
use gitp::types::{GitRepo, RepoStatus};

fn repo() -> GitRepo {
    GitRepo {
        name: "alpha".to_string(),
        path: "/base/alpha".to_string(),
        status: RepoStatus::Clean,
        branch: "main".to_string(),
        ahead: 0,
        behind: 0,
        modified: 0,
        staged: 0,
        untracked: 0,
    }
}

fn s(x: &str) -> Option<String> {
    Some(x.to_string())
}

#[test]
fn ci_run_fields_and_defaults() {
    let run = ci_run_from(
        &repo(),
        "ci.yml",
        RunFields {
            database_id: Some(77),
            workflow_name: None,
            status: s("completed"),
            conclusion: s("success"),
            head_branch: s("main"),
            event: None,
            created_at: s("2024-05-01T10:20:30Z"),
        },
    )
    .unwrap();
    assert_eq!(run.id, 77);
    assert_eq!(run.workflow, "ci.yml");
    assert_eq!(run.event, "");
    assert_eq!(run.created_at, "2024-05-01T10:20");
    assert_eq!(run.repo_path, "/base/alpha");
    let none = ci_run_from(&repo(), "ci.yml", RunFields { database_id: None, workflow_name: None, status: None, conclusion: None, head_branch: None, event: None, created_at: None });
    assert!(none.is_none());
}

#[test]
fn pr_needs_number_title_branch_url() {
    let pr = pr_item_from("alpha", PrFields { number: Some(5), title: s("Fix"), author_login: None, head_ref_name: s("fix"), url: s("https://x/5"), created_at: None }).unwrap();
    assert_eq!(pr.author, "unknown");
    assert_eq!(pr.created_at, "");
    assert_eq!(pr.repo, "alpha");
    assert!(pr_item_from("alpha", PrFields { number: Some(5), title: None, author_login: s("me"), head_ref_name: s("fix"), url: s("u"), created_at: None }).is_none());
}

#[test]
fn alerts_of_each_kind() {
    let dep = dependency_alert_from(&repo(), DependencyAlertFields { number: Some(1), package_name: None, severity: s("high"), summary: s("bad"), cve_id: s("CVE-1"), html_url: s("u") }).unwrap();
    assert_eq!((dep.kind.as_str(), dep.package.as_str()), ("dep", "unknown"));
    let code = code_alert_from(&repo(), CodeAlertFields { number: Some(2), security_severity_level: s(""), rule_severity: s("warning"), rule_id: s("r1"), rule_description: None, html_url: None }).unwrap();
    assert_eq!(code.severity, "medium");
    let code2 = code_alert_from(&repo(), CodeAlertFields { number: Some(3), security_severity_level: s("critical"), rule_severity: s("note"), rule_id: None, rule_description: None, html_url: None }).unwrap();
    assert_eq!((code2.severity.as_str(), code2.package.as_str()), ("critical", "unknown"));
    let secret = secret_alert_from(&repo(), SecretAlertFields { number: Some(4), secret_type: None, html_url: s("u") }).unwrap();
    assert_eq!((secret.package.as_str(), secret.summary.as_str(), secret.severity.as_str()), ("secret", "secret", "critical"));
    assert!(secret_alert_from(&repo(), SecretAlertFields { number: None, secret_type: None, html_url: None }).is_none());
}

#[test]
fn workflow_file_names() {
    assert!(is_workflow_file("ci.yml"));
    assert!(is_workflow_file("cd.YAML"));
    assert!(!is_workflow_file("notes.md"));
    assert!(!is_workflow_file(".yml"));
    assert!(!is_workflow_file("yml"));
    assert!(is_workflow_file("a.b.yml"));
    let names = vec!["ci.yml".to_string(), "cd.yaml".to_string(), "notes.md".to_string()];
    assert_eq!(workflow_files(names), vec!["ci.yml".to_string(), "cd.yaml".to_string()]);
}

#[test]
fn first_chars() {
    assert_eq!(take_chars("héllo", 2), "hé");
    assert_eq!(take_chars("ab", 16), "ab");
}

#[test]
fn workflow_files_filters_correctly() {
    let names = vec!["ci.yml".to_string(), "cd.yaml".to_string(), "notes.md".to_string()];
    let mut files = workflow_files(names);
    files.sort();
    assert_eq!(files, vec!["cd.yaml", "ci.yml"]);
}

#[test]
fn workflow_files_of_no_names_is_empty() {
    assert!(workflow_files(vec![]).is_empty());
}
