use gitp::style::{alert_sym, ci_sym, colorize_output_line, kind_sym, repo_sym, Color, StyledLine};
use gitp::types::RepoStatus;

fn fg(line: &StyledLine) -> Option<Color> {
    Some(line.color)
}

#[test]
fn colorize_check_ok() {
    assert_eq!(fg(&colorize_output_line("✓ done")), Some(Color::Green));
    assert_eq!(fg(&colorize_output_line("✗ error")), Some(Color::Red));
    assert_eq!(fg(&colorize_output_line("⚠ warn")), Some(Color::Yellow));
    assert_eq!(fg(&colorize_output_line("Already up to date")), Some(Color::DarkGray));
    assert_eq!(fg(&colorize_output_line("Successfully rebased")), Some(Color::Green));
    assert_eq!(fg(&colorize_output_line("Fast-forward")), Some(Color::Green));
    assert_eq!(fg(&colorize_output_line("normal text")), Some(Color::White));
    assert_eq!(fg(&colorize_output_line("=== header")), Some(Color::Cyan));
}

#[test]
fn colorize_header_is_trimmed_and_bold() {
    let l = colorize_output_line("\n=== repo");
    assert_eq!(l.text, "=== repo");
    assert!(l.bold);
    assert_eq!(l.color, Color::Cyan);
    let plain = colorize_output_line("  indented");
    assert_eq!(plain.text, "  indented");
    assert!(!plain.bold);
}

#[test]
fn ci_sym_mapping() {
    assert_eq!(ci_sym("in_progress", ""), ("⟳", Color::Yellow));
    assert_eq!(ci_sym("queued", ""), ("◌", Color::Yellow));
    assert_eq!(ci_sym("completed", "success"), ("✓", Color::Green));
    assert_eq!(ci_sym("completed", "failure"), ("✗", Color::Red));
    assert_eq!(ci_sym("completed", "cancelled"), ("○", Color::DarkGray));
}

#[test]
fn ci_sym_skipped_and_unknown() {
    assert_eq!(ci_sym("completed", "skipped"), ("–", Color::DarkGray));
    assert_eq!(ci_sym("completed", "neutral"), ("?", Color::DarkGray));
}

#[test]
fn alert_sym_mapping() {
    assert_eq!(alert_sym("critical"), ("!!", Color::Red));
    assert_eq!(alert_sym("high"), ("! ", Color::LightRed));
    assert_eq!(alert_sym("medium"), ("~ ", Color::Yellow));
    assert_eq!(alert_sym("low"), ("· ", Color::DarkGray));
    assert_eq!(alert_sym("unknown"), ("? ", Color::DarkGray));
}

#[test]
fn kind_sym_mapping() {
    assert_eq!(kind_sym("dep"), ("DEP", Color::Magenta));
    assert_eq!(kind_sym("code"), ("CODE", Color::Blue));
    assert_eq!(kind_sym("secret"), ("SECRET", Color::Red));
    assert_eq!(kind_sym("other"), ("?", Color::DarkGray));
}

#[test]
fn repo_sym_mapping() {
    assert_eq!(repo_sym(RepoStatus::Clean), ("✓", Color::Green));
    assert_eq!(repo_sym(RepoStatus::Dirty), ("●", Color::Yellow));
    assert_eq!(repo_sym(RepoStatus::Ahead), ("↑", Color::Blue));
    assert_eq!(repo_sym(RepoStatus::Behind), ("↓", Color::Magenta));
    assert_eq!(repo_sym(RepoStatus::Diverged), ("⇅", Color::Red));
}
