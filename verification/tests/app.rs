use gitp::app::input::{Effect, Key};
use gitp::app::App;
use gitp::app::pr::author_passes;
use gitp::layout::Rect;
use gitp::types::{CiRun, GitRepo, PrItem, RepoStatus, SecurityAlert};

fn repo(name: &str, modified: usize) -> GitRepo {
    GitRepo {
        name: name.to_string(),
        path: format!("/base/{name}"),
        status: if modified > 0 { RepoStatus::Dirty } else { RepoStatus::Clean },
        branch: "main".to_string(),
        ahead: 0,
        behind: 0,
        modified,
        staged: 0,
        untracked: 0,
    }
}

fn app() -> App {
    App::new("/home/u/code", Some("code".to_string()), vec![repo("alpha", 0), repo("beta", 2), repo("gamma", 0)])
}

fn launch(e: Effect) -> (Vec<(String, String)>, String, Vec<String>) {
    match e {
        Effect::Launch(l) => (
            l.targets.into_iter().map(|t| (t.label, t.workdir)).collect(),
            l.program,
            l.args,
        ),
        _ => panic!("expected a launch"),
    }
}

fn run(status: &str, conclusion: &str, id: u64) -> CiRun {
    CiRun {
        repo: "alpha".to_string(),
        repo_path: "/base/alpha".to_string(),
        id,
        workflow: "ci".to_string(),
        status: status.to_string(),
        conclusion: conclusion.to_string(),
        branch: "main".to_string(),
        event: "push".to_string(),
        created_at: String::new(),
    }
}

fn pr(number: u64, author: &str, created: &str) -> PrItem {
    PrItem {
        repo: "alpha".to_string(),
        number,
        title: format!("PR {number}"),
        author: author.to_string(),
        branch: format!("b{number}"),
        url: format!("https://example/{number}"),
        created_at: created.to_string(),
    }
}

#[test]
fn new_app_defaults() {
    let a = app();
    assert_eq!(a.base_path, "code");
    assert_eq!(a.status_line, "Loading...");
    assert!(a.auto_refresh);
    assert_eq!(a.current_index, 0);
    let b = App::new("/", None, vec![]);
    assert_eq!(b.base_path, "/");
}

#[test]
fn navigation_wraps_and_returns() {
    let mut a = app();
    a.previous();
    assert_eq!(a.current_index, 2);
    a.next();
    assert_eq!(a.current_index, 0);
    a.next();
    a.next();
    a.next();
    assert_eq!(a.current_index, 0);
}

#[test]
fn refresh_clamps_selection_and_counts() {
    let mut a = app();
    a.current_index = 2;
    a.refresh(vec![repo("alpha", 0)]);
    assert_eq!(a.current_index, 0);
    assert_eq!(a.status_line, "1 repos  ·  press h for help");
}

#[test]
fn run_on_several_repos() {
    let mut a = app();
    let (targets, program, args) = launch(a.handle_key(Key::Char('U')));
    assert_eq!(targets.len(), 3);
    assert_eq!(targets[1], ("beta".to_string(), "/base/beta".to_string()));
    assert_eq!(program, "git");
    assert_eq!(args, vec!["pull", "--rebase"]);
    assert_eq!(a.status_line, "⟳ git pull --rebase → 3 repos...");
    assert!(a.is_running);
    assert_eq!(a.repo_output.len(), 3);
    // one command at a time
    assert!(matches!(a.handle_key(Key::Char('u')), Effect::Nothing));
}

#[test]
fn lowercase_acts_on_selected_repo() {
    let mut a = app();
    a.next();
    let (targets, _, args) = launch(a.handle_key(Key::Char('f')));
    assert_eq!(targets, vec![("beta".to_string(), "/base/beta".to_string())]);
    assert_eq!(args, vec!["fetch", "--all"]);
    assert_eq!(a.status_line, "⟳ git fetch --all → beta...");
}

#[test]
fn no_repositories_message() {
    let mut a = App::new("/x", None, vec![]);
    assert!(matches!(a.handle_key(Key::Char('u')), Effect::Nothing));
    assert_eq!(a.repo_output, vec![("gitp".to_string(), vec!["⚠ No repositories available".to_string()])]);
}

#[test]
fn checkout_prompt_then_git_and_shell() {
    let mut a = app();
    assert!(matches!(a.handle_key(Key::Char('c')), Effect::Nothing));
    assert!(a.input_mode);
    assert!(!a.input_all);
    assert_eq!(a.input_buffer, "checkout ");
    assert_eq!(a.status_bar().0, " [current] git > checkout ▌");
    for c in "main ".chars() {
        a.handle_key(Key::Char(c));
    }
    let (targets, program, args) = launch(a.handle_key(Key::Enter));
    assert_eq!(program, "git");
    assert_eq!(args, vec!["checkout", "main"]);
    assert_eq!(targets, vec![("alpha".to_string(), "/base/alpha".to_string())]);
    assert!(!a.input_mode);
    assert_eq!(a.input_buffer, "");

    let mut b = app();
    b.handle_key(Key::Char('C'));
    assert!(b.input_all);
    let (targets, _, args) = launch({
        for c in "dev".chars() {
            b.handle_key(Key::Char(c));
        }
        b.handle_key(Key::Enter)
    });
    assert_eq!(args, vec!["checkout", "dev"]);
    assert_eq!(targets.len(), 3);

    let mut c = app();
    c.handle_key(Key::Char('C'));
    for _ in 0..9 {
        c.handle_key(Key::Backspace);
    }
    for ch in "!make test".chars() {
        c.handle_key(Key::Char(ch));
    }
    c.handle_key(Key::Backspace);
    let (targets, program, args) = launch(c.handle_key(Key::Enter));
    assert_eq!(program, "make");
    assert_eq!(args, vec!["tes"]);
    assert_eq!(targets.len(), 3);
}

#[test]
fn prompt_escape_cancels() {
    let mut a = app();
    a.handle_key(Key::Char('c'));
    a.handle_key(Key::Char('x'));
    a.handle_key(Key::Esc);
    assert!(!a.input_mode);
    assert_eq!(a.input_buffer, "");
    assert_eq!(a.status_line, "Cancelled.");
    // empty command: nothing runs
    a.handle_key(Key::Char('c'));
    for _ in 0..9 {
        a.handle_key(Key::Backspace);
    }
    assert!(matches!(a.handle_key(Key::Enter), Effect::Nothing));
}

#[test]
fn diff_current_and_all() {
    let mut a = app();
    a.next();
    let (targets, program, args) = launch(a.handle_key(Key::Char('d')));
    assert_eq!(targets, vec![("beta".to_string(), "/base/beta".to_string())]);
    assert_eq!(program, "git");
    assert_eq!(args, vec!["diff"]);
    assert!(!a.confirm_mode);
    let mut b = app();
    let (targets, _, args) = launch(b.handle_key(Key::Char('D')));
    assert_eq!(targets.len(), 3);
    assert_eq!(args, vec!["diff"]);
}

#[test]
fn discard_asks_first() {
    let mut a = app();
    a.confirm_mode = true;
    a.confirm_all = false;
    assert!(matches!(a.handle_key(Key::Char('n')), Effect::Nothing));
    assert!(!a.confirm_mode);
    assert_eq!(a.status_line, "Discard cancelled.");
    // the selected repository is clean: nothing to discard
    a.confirm_mode = true;
    assert!(matches!(a.handle_key(Key::Char('y')), Effect::Nothing));
    assert_eq!(a.status_line, "Nothing to discard.");
    // all repositories: only the changed one
    a.confirm_mode = true;
    a.confirm_all = true;
    let (targets, program, args) = launch(a.handle_key(Key::Char('Y')));
    assert_eq!(targets, vec![("beta".to_string(), "/base/beta".to_string())]);
    assert_eq!(program, "sh");
    assert_eq!(args, vec!["-c", "git reset --hard HEAD && git clean -fd"]);
}

#[test]
fn details_then_status() {
    let mut a = app();
    a.repos[0].ahead = 2;
    a.repos[0].behind = 1;
    a.repos[0].untracked = 4;
    let (_, program, args) = launch(a.handle_key(Key::Enter));
    assert_eq!(program, "git");
    assert_eq!(args, vec!["status", "-sb"]);
    // the launch replaces the details pane with a fresh one
    assert_eq!(a.repo_output, vec![("alpha".to_string(), vec![])]);
}

#[test]
fn details_header_lines() {
    let mut r = repo("alpha", 1);
    r.ahead = 2;
    r.behind = 1;
    assert_eq!(
        gitp::app::details_lines(&r),
        vec![
            "Branch : main".to_string(),
            "Path   : /base/alpha".to_string(),
            "Sync   : ↑2 ↓1".to_string(),
            "Changes: +0 ~1 ?0".to_string(),
            String::new(),
        ]
    );
}

#[test]
fn quit_help_and_refresh_keys() {
    let mut a = app();
    assert!(matches!(a.handle_key(Key::Char('q')), Effect::Quit));
    a.handle_key(Key::Char('h'));
    assert!(a.show_help);
    assert!(matches!(a.handle_key(Key::Char('r')), Effect::Refresh));
    a.note_refreshed();
    assert_eq!(a.status_line, "Refreshed.");
}

#[test]
fn drain_merges_batches_by_label() {
    let mut a = app();
    a.handle_key(Key::Char('U'));
    let done = a.drain(
        vec![
            ("beta".to_string(), vec!["b1".to_string()]),
            ("alpha".to_string(), vec!["a1".to_string()]),
            ("beta".to_string(), vec!["b2".to_string()]),
            ("other".to_string(), vec!["o".to_string()]),
        ],
        false,
    );
    assert!(!done);
    assert_eq!(a.repo_output[1], ("beta".to_string(), vec!["b1".to_string(), "b2".to_string()]));
    assert_eq!(a.repo_output[3].0, "other");
    assert!(a.is_running);
    assert!(a.drain(vec![], true));
    assert!(!a.is_running);
    assert_eq!(a.status_line, "Done.");
}

#[test]
fn ci_runs_listed_by_rank_stably() {
    let mut a = app();
    let repos = match a.handle_key(Key::Char('A')) {
        Effect::FetchRuns(r) => r,
        _ => panic!("expected a query"),
    };
    assert_eq!(repos.len(), 3);
    assert!(a.ci_mode);
    assert!(!a.drain_ci(vec![run("completed", "success", 1), run("completed", "failure", 2)], false));
    assert!(a.drain_ci(vec![run("in_progress", "", 3), run("completed", "failure", 4)], true));
    let ids: Vec<u64> = a.ci_list.iter().map(|r| r.id).collect();
    assert_eq!(ids, vec![3, 2, 4, 1]);
    assert_eq!(a.status_line, "4 run(s)  ·  Enter open  ·  l details  ·  R re-run  ·  Esc close");
    let web = a.ci_open_web().unwrap();
    assert_eq!(web.args, vec!["run", "view", "3", "--web"]);
    assert_eq!(web.dir, Some("/base/alpha".to_string()));
    a.handle_key(Key::Down);
    let re = a.ci_rerun().unwrap();
    assert_eq!(re.args, vec!["run", "rerun", "2"]);
    let (targets, program, args) = launch(a.handle_key(Key::Char('l')));
    assert_eq!(targets, vec![("ci".to_string(), "/base/alpha".to_string())]);
    assert_eq!((program.as_str(), args), ("gh", vec!["run".to_string(), "view".to_string(), "2".to_string()]));
    assert!(!a.ci_mode);
}

#[test]
fn no_ci_runs_found() {
    let mut a = app();
    a.fetch_runs(false);
    a.drain_ci(vec![], true);
    assert_eq!(a.status_line, "No CI runs found.");
}

#[test]
fn prs_filtered_by_author_newest_first() {
    let mut a = app();
    assert!(matches!(a.handle_key(Key::Char('p')), Effect::FetchPrs(_)));
    a.drain_prs(vec![pr(1, "Alice", "2024-01-01"), pr(2, "bob", "2024-03-01"), pr(3, "ALICE2", "2024-02-01")], true);
    let nums: Vec<u64> = a.pr_filtered.iter().map(|p| p.number).collect();
    assert_eq!(nums, vec![2, 3, 1]);
    assert_eq!(a.status_line, "3 open PR(s)  ·  Enter/o open  ·  c checkout  ·  / filter by author  ·  Esc close");
    a.pr_filter = "alice".to_string();
    a.apply_pr_filter();
    let nums: Vec<u64> = a.pr_filtered.iter().map(|p| p.number).collect();
    assert_eq!(nums, vec![3, 1]);
    let web = a.pr_open_web().unwrap();
    assert_eq!((web.program.as_str(), web.args), ("open", vec!["https://example/3".to_string()]));
    let (targets, program, args) = launch(a.handle_key(Key::Char('c')));
    assert_eq!(targets, vec![("alpha".to_string(), "/base/alpha".to_string())]);
    assert_eq!(program, "git");
    assert_eq!(args, vec!["checkout", "b3"]);
    assert!(!a.pr_mode);
}

#[test]
fn alerts_listed_by_severity_then_kind() {
    let mk = |n: u64, kind: &str, sev: &str| SecurityAlert {
        repo: "alpha".to_string(),
        repo_path: "/base/alpha".to_string(),
        number: n,
        kind: kind.to_string(),
        package: String::new(),
        severity: sev.to_string(),
        summary: String::new(),
        cve_id: String::new(),
        url: format!("u{n}"),
    };
    let mut a = app();
    assert!(a.fetch_alerts(true).is_some());
    assert!(a.security_mode);
    a.drain_alerts(vec![mk(1, "secret", "low"), mk(2, "code", "critical"), mk(3, "dep", "critical"), mk(4, "dep", "bogus")], true);
    let nums: Vec<u64> = a.alert_list.iter().map(|x| x.number).collect();
    assert_eq!(nums, vec![3, 2, 1, 4]);
    assert_eq!(a.status_line, "4 alert(s)  ·  Enter open  ·  Esc close");
    assert_eq!(a.alert_open_web().unwrap().args, vec!["u3".to_string()]);
    assert_eq!(gitp::screen::alert_title(&a.alert_list), " Security Alerts (4)  C:2 H:0 M:0 L:1 ");
}

#[test]
fn clicks_focus_then_open_prompt() {
    let mut a = app();
    a.handle_key(Key::Char('U'));
    a.drain(vec![], true);
    let rects = vec![
        Rect { x: 0, y: 0, width: 10, height: 5 },
        Rect { x: 10, y: 0, width: 10, height: 5 },
        Rect { x: 0, y: 5, width: 10, height: 5 },
    ];
    a.click_panes(12, 1, &rects);
    assert_eq!(a.focused_pane, Some(1));
    assert_eq!(a.status_line, "focused: beta  ·  Enter cmd  ·  Esc unfocus");
    a.click_panes(12, 1, &rects);
    assert!(a.input_mode);
    assert_eq!(a.input_target, Some("beta".to_string()));
    a.handle_key(Key::Esc);
    a.click_panes(50, 50, &rects);
    assert_eq!(a.focused_pane, None);
}

#[test]
fn auto_refresh_after_thirty_seconds() {
    let mut a = app();
    assert!(!a.wants_auto_refresh(30_000_000_000));
    assert!(a.wants_auto_refresh(30_000_000_001));
    a.auto_refresh = false;
    assert!(!a.wants_auto_refresh(60_000_000_000));
    a.tick = u64::MAX;
    a.advance_tick();
    assert_eq!(a.tick, 0);
}

#[test]
fn vim_keys_move_the_selection() {
    let mut a = app();
    assert!(matches!(a.handle_key(Key::Char('j')), Effect::Nothing));
    assert_eq!(a.current_index, 1);
    a.handle_key(Key::Char('k'));
    a.handle_key(Key::Char('k'));
    assert_eq!(a.current_index, 2);
    a.handle_key(Key::Char('c'));
    a.handle_key(Key::Char('j'));
    assert_eq!(a.input_buffer, "checkout j");
    assert_eq!(a.current_index, 2);
}

#[test]
fn author_filter_on_lowered_values() {
    assert!(author_passes("", "anyone"));
    assert!(author_passes("ali", "alice"));
    assert!(!author_passes("bob", "alice"));
    assert!(!author_passes("alice", "ali"));
}

#[test]
fn refresh_reads_every_repository() {
    let mut a = app();
    a.current_index = 2;
    let clean = || {
        Some(gitp::git::GitOutputs {
            branch: Some("main\n".to_string()),
            sync: Some("0\t3\n".to_string()),
            porcelain: Some(String::new()),
        })
    };
    a.refresh_with(vec![clean(), clean(), None]);
    assert_eq!(a.repos.len(), 2);
    assert_eq!(a.current_index, 1);
    assert_eq!(a.repos[1].status, RepoStatus::Behind);
    assert_eq!(a.status_line, "2 repos  ·  press h for help");
}

#[test]
fn pr_selection_stays_while_nothing_arrives() {
    let mut a = app();
    a.handle_key(Key::Char('p'));
    a.drain_prs(vec![pr(1, "alice", "2024-01-01"), pr(2, "bob", "2024-03-01"), pr(3, "al", "2024-02-01")], false);
    a.handle_key(Key::Down);
    assert_eq!(a.pr_index, 1);
    a.drain_prs(vec![], false);
    assert_eq!(a.pr_index, 1);
    a.drain_prs(vec![], true);
    assert_eq!(a.pr_index, 1);
    assert_eq!(a.status_line, "3 open PR(s)  ·  Enter/o open  ·  c checkout  ·  / filter by author  ·  Esc close");
    // new arrivals show the list again from the top
    a.drain_prs(vec![pr(4, "carol", "2024-04-01")], false);
    assert_eq!(a.pr_index, 0);
}

#[test]
fn pr_down_stops_at_the_last_shown() {
    let mut a = app();
    a.handle_key(Key::Char('p'));
    a.drain_prs(vec![pr(1, "alice", "2024-01-01"), pr(2, "bob", "2024-03-01")], true);
    a.pr_filter = "bob".to_string();
    a.apply_pr_filter();
    assert_eq!(a.pr_filtered.len(), 1);
    a.handle_key(Key::Down);
    assert_eq!(a.pr_index, 0);
}
