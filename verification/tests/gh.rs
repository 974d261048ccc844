use gitp::gh::{code_alerts_from, dependency_alerts_from, prs_from_output, run_from_output, secret_alerts_from};
use gitp::types::{GitRepo, RepoStatus};

fn repo() -> GitRepo {
    GitRepo {
        name: "alpha".to_string(),
        path: "/base/alpha".to_string(),
        status: RepoStatus::Clean,
        branch: "main".to_string(),
        ahead: 0,
        behind: 0,
        modified: 0,
        staged: 0,
        untracked: 0,
    }
}

#[test]
fn first_run_of_a_run_list() {
    let out = r#"[{"databaseId": 42, "workflowName": "CI", "status": "completed", "conclusion": "success",
        "headBranch": "main", "event": "push", "createdAt": "2024-05-01T10:20:30Z"},
        {"databaseId": 41}]"#;
    let run = run_from_output(&repo(), "ci.yml", out).unwrap();
    assert_eq!(run.id, 42);
    assert_eq!(run.workflow, "CI");
    assert_eq!(run.conclusion, "success");
    assert_eq!(run.created_at, "2024-05-01T10:20");
    assert_eq!(run.repo_path, "/base/alpha");
    let bare = run_from_output(&repo(), "ci.yml", r#"[{"databaseId": 7, "status": null}]"#).unwrap();
    assert_eq!(bare.workflow, "ci.yml");
    assert_eq!(bare.status, "");
    assert!(run_from_output(&repo(), "ci.yml", "[]").is_none());
    assert!(run_from_output(&repo(), "ci.yml", r#"[{"workflowName": "CI"}]"#).is_none());
    assert!(run_from_output(&repo(), "ci.yml", "not json").is_none());
}

#[test]
fn pull_requests_of_a_pr_list() {
    let out = r#"[
        {"number": 1, "title": "Fix", "author": {"login": "alice"}, "headRefName": "fix", "url": "u1", "createdAt": "2024-01-01"},
        {"number": 2, "title": "No branch", "url": "u2"},
        {"number": 3, "title": "Anon", "headRefName": "b3", "url": "u3"}
    ]"#;
    let prs = prs_from_output("alpha", out);
    let nums: Vec<u64> = prs.iter().map(|p| p.number).collect();
    assert_eq!(nums, vec![1, 3]);
    assert_eq!(prs[0].author, "alice");
    assert_eq!(prs[1].author, "unknown");
    assert_eq!(prs[1].created_at, "");
    assert_eq!(prs[0].repo, "alpha");
    assert!(prs_from_output("alpha", "{oops").is_empty());
}

#[test]
fn dependency_alerts_one_per_line() {
    let out = [
        r#"{"number": 5, "dependency": {"package": {"name": "serde"}}, "security_advisory": {"severity": "high", "summary": "bad", "cve_id": "CVE-1"}, "html_url": "h5"}"#,
        "garbage",
        r#"{"dependency": {}}"#,
        r#"{"number": 6}"#,
    ]
    .join("\n");
    let out = out.as_str();
    let alerts = dependency_alerts_from(&repo(), out);
    let nums: Vec<u64> = alerts.iter().map(|a| a.number).collect();
    assert_eq!(nums, vec![5, 6]);
    assert_eq!(alerts[0].package, "serde");
    assert_eq!(alerts[0].severity, "high");
    assert_eq!(alerts[0].cve_id, "CVE-1");
    assert_eq!(alerts[0].kind, "dep");
    assert_eq!(alerts[1].package, "unknown");
}

#[test]
fn code_alerts_take_rule_level_when_no_security_level() {
    let out = [
        r#"{"number": 1, "rule": {"id": "r1", "severity": "error", "security_severity_level": "", "description": "d"}, "html_url": "h"}"#,
        r#"{"number": 2, "rule": {"id": "r2", "severity": "note", "security_severity_level": "critical"}}"#,
    ]
    .join("\n");
    let out = out.as_str();
    let alerts = code_alerts_from(&repo(), out);
    assert_eq!(alerts.len(), 2);
    assert_eq!(alerts[0].severity, "high");
    assert_eq!(alerts[0].package, "r1");
    assert_eq!(alerts[1].severity, "critical");
    assert_eq!(alerts[1].cve_id, "");
}

#[test]
fn secret_alerts_are_critical() {
    let out = "{\"number\": 9, \"secret_type_display_name\": \"AWS key\"}\n{\"number\": 10}\n";
    let alerts = secret_alerts_from(&repo(), out);
    assert_eq!(alerts.len(), 2);
    assert_eq!(alerts[0].package, "AWS key");
    assert_eq!(alerts[0].summary, "AWS key");
    assert_eq!(alerts[0].severity, "critical");
    assert_eq!(alerts[1].package, "secret");
    assert!(secret_alerts_from(&repo(), "").is_empty());
}
