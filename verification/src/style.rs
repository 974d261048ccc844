//! How things look: the symbol and colour of a CI run, an alert, an alert
//! kind and a repository status, and the colour of a line of command output.

use vstd::prelude::*;

use crate::text::{has_infix, has_prefix, same_text, str_contains, str_starts_with, trim_start};
use crate::types::RepoStatus;

verus! {

/// The terminal colours the dashboard uses.
#[derive(Clone, Copy, Debug, PartialEq, Eq, Structural)]
pub enum Color {
    Black,
    Red,
    LightRed,
    Green,
    Yellow,
    Blue,
    Magenta,
    Cyan,
    White,
    DarkGray,
}

/// Symbol and colour of a CI run by status and conclusion.
pub open spec fn ci_look(status: Seq<char>, conclusion: Seq<char>) -> (Seq<char>, Color) {
    if status == "in_progress"@ {
        ("⟳"@, Color::Yellow)
    } else if status == "queued"@ {
        ("◌"@, Color::Yellow)
    } else if conclusion == "success"@ {
        ("✓"@, Color::Green)
    } else if conclusion == "failure"@ {
        ("✗"@, Color::Red)
    } else if conclusion == "cancelled"@ {
        ("○"@, Color::DarkGray)
    } else if conclusion == "skipped"@ {
        ("–"@, Color::DarkGray)
    } else {
        ("?"@, Color::DarkGray)
    }
}

/// Symbol and colour of a CI run by status and conclusion.
pub fn ci_sym(status: &str, conclusion: &str) -> (r: (&'static str, Color))
    ensures
        (r.0@, r.1) == ci_look(status@, conclusion@),
{
    if same_text(status, "in_progress") {
        ("⟳", Color::Yellow)
    } else if same_text(status, "queued") {
        ("◌", Color::Yellow)
    } else if same_text(conclusion, "success") {
        ("✓", Color::Green)
    } else if same_text(conclusion, "failure") {
        ("✗", Color::Red)
    } else if same_text(conclusion, "cancelled") {
        ("○", Color::DarkGray)
    } else if same_text(conclusion, "skipped") {
        ("–", Color::DarkGray)
    } else {
        ("?", Color::DarkGray)
    }
}

/// Symbol and colour of an alert severity.
pub open spec fn alert_look(severity: Seq<char>) -> (Seq<char>, Color) {
    if severity == "critical"@ {
        ("!!"@, Color::Red)
    } else if severity == "high"@ {
        ("! "@, Color::LightRed)
    } else if severity == "medium"@ {
        ("~ "@, Color::Yellow)
    } else if severity == "low"@ {
        ("· "@, Color::DarkGray)
    } else {
        ("? "@, Color::DarkGray)
    }
}

/// Symbol and colour of an alert severity.
pub fn alert_sym(severity: &str) -> (r: (&'static str, Color))
    ensures
        (r.0@, r.1) == alert_look(severity@),
{
    if same_text(severity, "critical") {
        ("!!", Color::Red)
    } else if same_text(severity, "high") {
        ("! ", Color::LightRed)
    } else if same_text(severity, "medium") {
        ("~ ", Color::Yellow)
    } else if same_text(severity, "low") {
        ("· ", Color::DarkGray)
    } else {
        ("? ", Color::DarkGray)
    }
}

/// Label and colour of an alert kind.
pub open spec fn kind_look(kind: Seq<char>) -> (Seq<char>, Color) {
    if kind == "dep"@ {
        ("DEP"@, Color::Magenta)
    } else if kind == "code"@ {
        ("CODE"@, Color::Blue)
    } else if kind == "secret"@ {
        ("SECRET"@, Color::Red)
    } else {
        ("?"@, Color::DarkGray)
    }
}

/// Label and colour of an alert kind.
pub fn kind_sym(kind: &str) -> (r: (&'static str, Color))
    ensures
        (r.0@, r.1) == kind_look(kind@),
{
    if same_text(kind, "dep") {
        ("DEP", Color::Magenta)
    } else if same_text(kind, "code") {
        ("CODE", Color::Blue)
    } else if same_text(kind, "secret") {
        ("SECRET", Color::Red)
    } else {
        ("?", Color::DarkGray)
    }
}

/// Symbol and colour of a repository status.
pub open spec fn repo_look(status: RepoStatus) -> (Seq<char>, Color) {
    match status {
        RepoStatus::Clean => ("✓"@, Color::Green),
        RepoStatus::Dirty => ("●"@, Color::Yellow),
        RepoStatus::Ahead => ("↑"@, Color::Blue),
        RepoStatus::Behind => ("↓"@, Color::Magenta),
        RepoStatus::Diverged => ("⇅"@, Color::Red),
    }
}

/// Symbol and colour of a repository status.
pub fn repo_sym(status: RepoStatus) -> (r: (&'static str, Color))
    ensures
        (r.0@, r.1) == repo_look(status),
{
    match status {
        RepoStatus::Clean => ("✓", Color::Green),
        RepoStatus::Dirty => ("●", Color::Yellow),
        RepoStatus::Ahead => ("↑", Color::Blue),
        RepoStatus::Behind => ("↓", Color::Magenta),
        RepoStatus::Diverged => ("⇅", Color::Red),
    }
}

/// A line of text with the colour it is shown in.
pub struct StyledLine {
    pub text: String,
    pub color: Color,
    pub bold: bool,
}

/// Whether a line of command output is a section header.
pub open spec fn is_header_line(line: Seq<char>) -> bool {
    has_prefix(line, "\n=== "@) || has_prefix(line, "=== "@)
}

/// The colour of a line of command output: headers cyan and bold (shown
/// without leading whitespace), warnings yellow, errors red, successes and
/// fast-forwards green, "already up to date" dark gray, anything else white.
pub open spec fn output_color(line: Seq<char>) -> Color {
    if is_header_line(line) {
        Color::Cyan
    } else if has_prefix(line, "⚠"@) {
        Color::Yellow
    } else if has_prefix(line, "✗"@) {
        Color::Red
    } else if has_prefix(line, "✓"@) {
        Color::Green
    } else if has_infix(line, "Already up to date"@) {
        Color::DarkGray
    } else if has_infix(line, "Successfully rebased"@) || has_infix(line, "Fast-forward"@) {
        Color::Green
    } else {
        Color::White
    }
}

/// A line of command output as it is shown.
pub fn colorize_output_line(line: &str) -> (r: StyledLine)
    ensures
        r.color == output_color(line@),
        r.bold == is_header_line(line@),
        r.text@ == if is_header_line(line@) {
            trim_start(line@)
        } else {
            line@
        },
{
    if str_starts_with(line, "\n=== ") || str_starts_with(line, "=== ") {
        let cs = crate::text::chars_of(line);
        let t = crate::text::trim_start_chars(&cs);
        StyledLine { text: crate::text::string_of(&t), color: Color::Cyan, bold: true }
    } else {
        let color = if str_starts_with(line, "⚠") {
            Color::Yellow
        } else if str_starts_with(line, "✗") {
            Color::Red
        } else if str_starts_with(line, "✓") {
            Color::Green
        } else if str_contains(line, "Already up to date") {
            Color::DarkGray
        } else if str_contains(line, "Successfully rebased") || str_contains(line, "Fast-forward") {
            Color::Green
        } else {
            Color::White
        };
        StyledLine { text: line.to_owned(), color, bold: false }
    }
}

} // verus!
