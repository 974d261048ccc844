use gitp::screen::{pane_scroll, pane_title, pr_date, repo_line, spinner_char};
use gitp::style::Color;
use gitp::types::{GitRepo, RepoStatus};

#[test]
fn pr_dates() {
    assert_eq!(pr_date("2024-05-01T10:20:30Z"), "2024-05-01");
    assert_eq!(pr_date("2024"), "2024");
    // a multi-byte character across the tenth byte: the whole text
    assert_eq!(pr_date("2024-05-0é1"), "2024-05-0é1");
    assert_eq!(pr_date("2024-05é1"), "2024-05é1");
}

#[test]
fn scroll_keeps_last_lines_visible() {
    assert_eq!(pane_scroll(3, 10), 0);
    assert_eq!(pane_scroll(20, 10), 12);
    assert_eq!(pane_scroll(8, 10), 0);
    assert_eq!(pane_scroll(9, 10), 1);
}

#[test]
fn spinner_and_titles() {
    assert_eq!(spinner_char(0), '⠋');
    assert_eq!(spinner_char(3), '⠙');
    assert_eq!(spinner_char(20), '⠋');
    assert_eq!(pane_title("alpha", true, true, 2), " alpha ⠙ ");
    assert_eq!(pane_title("alpha", true, false, 2), " alpha ");
}

#[test]
fn repo_list_line() {
    let r = GitRepo {
        name: "alpha".to_string(),
        path: "/a".to_string(),
        status: RepoStatus::Diverged,
        branch: "main".to_string(),
        ahead: 1,
        behind: 2,
        modified: 0,
        staged: 0,
        untracked: 0,
    };
    let l = repo_line(&r, true);
    assert_eq!((l.prefix, l.symbol, l.color), ("▶ ", "⇅", Color::Red));
    assert_eq!(l.branch, "  main");
    assert_eq!(l.sync.as_deref(), Some("  ↑1↓2"));
    assert!(l.changes.is_none());
}
