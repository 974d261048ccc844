//! What the screen shows as text: the status bar, the table titles, the
//! lines of the repository list, the spinner, and how far a pane scrolls.

use vstd::prelude::*;

use crate::app::{App, AppView};
use crate::style::{repo_look, repo_sym, Color};
use crate::text::{decimal, has_prefix, push_char, push_decimal, push_str};
use crate::types::{GitRepo, SecurityAlert};

verus! {

/// The frames of the busy spinner.
pub open spec fn spinner_frames() -> Seq<char> {
    seq!['⠋', '⠙', '⠹', '⠸', '⠼', '⠴', '⠦', '⠧', '⠇', '⠏']
}

/// The spinner frame shown at animation step `tick`: one frame every two
/// steps.
pub open spec fn spinner_frame(tick: u64) -> char {
    spinner_frames()[(((tick as usize) / 2) % 10) as int]
}

/// The spinner frame shown at animation step `tick`.
pub fn spinner_char(tick: u64) -> (c: char)
    ensures
        c == spinner_frame(tick),
{
    let frames = ['⠋', '⠙', '⠹', '⠸', '⠼', '⠴', '⠦', '⠧', '⠇', '⠏'];
    let i = ((tick as usize) / 2) % 10;
    assert(frames@ =~= spinner_frames());
    frames[i]
}

/// Where the command prompt sends a command: the pane's repository, all
/// repositories, or the selected one.
pub open spec fn prompt_scope(s: AppView) -> Seq<char> {
    match s.input_target {
        Some(t) => t,
        None => if s.input_all {
            "ALL"@
        } else {
            "current"@
        },
    }
}

/// The status bar's text and colour: the discard question in red, the
/// command prompt (green for git, magenta for a shell command after `!`),
/// the status line in yellow while a command runs, else in cyan.
pub open spec fn status_bar_view(s: AppView) -> (Seq<char>, Color) {
    if s.confirm_mode {
        (" "@ + s.status_line, Color::Red)
    } else if s.input_mode {
        let shell = has_prefix(s.input_buffer, "!"@);
        (
            " ["@ + prompt_scope(s) + "] "@ + (if shell {
                "sh"@
            } else {
                "git"@
            }) + " > "@ + s.input_buffer + "▌"@,
            if shell {
                Color::Magenta
            } else {
                Color::Green
            },
        )
    } else if s.is_running {
        (" "@ + s.status_line, Color::Yellow)
    } else {
        (" "@ + s.status_line, Color::Cyan)
    }
}

/// The status bar's border colour.
pub open spec fn status_border_view(s: AppView) -> Color {
    if s.confirm_mode {
        Color::Red
    } else if s.input_mode {
        if has_prefix(s.input_buffer, "!"@) {
            Color::Magenta
        } else {
            Color::Green
        }
    } else {
        Color::DarkGray
    }
}

/// A line of text where the screen shows it.
fn line_of(prefix: &str, body: &String) -> (s: String)
    ensures
        s@ == prefix@ + body@,
{
    let mut s = String::new();
    push_str(&mut s, prefix);
    push_str(&mut s, body.as_str());
    assert(Seq::<char>::empty() + prefix@ + body@ =~= prefix@ + body@);
    s
}

impl App {
    /// The status bar's text and colour.
    pub fn status_bar(&self) -> (r: (String, Color))
        ensures
            (r.0@, r.1) == status_bar_view(self@),
    {
        if self.confirm_mode {
            (line_of(" ", &self.status_line), Color::Red)
        } else if self.input_mode {
            let shell = crate::text::str_starts_with(self.input_buffer.as_str(), "!");
            let mut s = String::new();
            push_str(&mut s, " [");
            match &self.input_target {
                Some(t) => push_str(&mut s, t.as_str()),
                None => if self.input_all {
                    push_str(&mut s, "ALL")
                } else {
                    push_str(&mut s, "current")
                },
            }
            push_str(&mut s, "] ");
            if shell {
                push_str(&mut s, "sh");
            } else {
                push_str(&mut s, "git");
            }
            push_str(&mut s, " > ");
            push_str(&mut s, self.input_buffer.as_str());
            push_str(&mut s, "▌");
            assert(s@ =~= status_bar_view(self@).0);
            (
                s,
                if shell {
                    Color::Magenta
                } else {
                    Color::Green
                },
            )
        } else if self.is_running {
            (line_of(" ", &self.status_line), Color::Yellow)
        } else {
            (line_of(" ", &self.status_line), Color::Cyan)
        }
    }

    /// The status bar's border colour.
    pub fn status_border(&self) -> (c: Color)
        ensures
            c == status_border_view(self@),
    {
        if self.confirm_mode {
            Color::Red
        } else if self.input_mode {
            if crate::text::str_starts_with(self.input_buffer.as_str(), "!") {
                Color::Magenta
            } else {
                Color::Green
            }
        } else {
            Color::DarkGray
        }
    }

    /// The title bar's spinner: a frame between spaces while a command
    /// runs, else blank.
    pub fn title_spinner(&self) -> (s: String)
        ensures
            s@ == if self.is_running {
                seq![' ', spinner_frame(self.tick), ' ']
            } else {
                "   "@
            },
    {
        if self.is_running {
            let mut s = String::new();
            push_char(&mut s, ' ');
            push_char(&mut s, spinner_char(self.tick));
            push_char(&mut s, ' ');
            assert(s@ =~= seq![' ', spinner_frame(self.tick), ' ']);
            s
        } else {
            String::from_str("   ")
        }
    }
}

/// Width in bytes of `c` in UTF-8.
pub open spec fn utf8_width(c: char) -> nat {
    let u = c as u32;
    if u < 0x80 {
        1
    } else if u < 0x800 {
        2
    } else if u < 0x10000 {
        3
    } else {
        4
    }
}

/// Width in bytes of `s` in UTF-8.
pub open spec fn utf8_len(s: Seq<char>) -> nat
    decreases s.len(),
{
    if s.len() == 0 {
        0
    } else {
        utf8_len(s.drop_last()) + utf8_width(s.last())
    }
}

/// The date of a pull request's creation time: its first ten bytes where
/// they end on a character boundary (`str::get(..10)`), else all of it.
pub open spec fn date_part(s: Seq<char>) -> Seq<char> {
    if exists|k: int| 0 <= k <= s.len() && utf8_len(s.take(k)) == 10 {
        s.take(choose|k: int| 0 <= k <= s.len() && utf8_len(s.take(k)) == 10)
    } else {
        s
    }
}

proof fn lemma_utf8_len_grows(s: Seq<char>, k: int)
    requires
        0 <= k < s.len(),
    ensures
        utf8_len(s.take(k + 1)) == utf8_len(s.take(k)) + utf8_width(s[k]),
        utf8_len(s.take(k + 1)) > utf8_len(s.take(k)),
{
    assert(s.take(k + 1).drop_last() =~= s.take(k));
}

proof fn lemma_utf8_len_mono(s: Seq<char>, a: int, b: int)
    requires
        0 <= a <= b <= s.len(),
    ensures
        utf8_len(s.take(a)) + (b - a) <= utf8_len(s.take(b)),
    decreases b - a,
{
    if a < b {
        lemma_utf8_len_mono(s, a, b - 1);
        lemma_utf8_len_grows(s, b - 1);
    }
}

/// The date of a pull request's creation time.
pub fn pr_date(created_at: &str) -> (r: String)
    ensures
        r@ == date_part(created_at@),
{
    let cs = crate::text::chars_of(created_at);
    let ghost s = created_at@;
    let mut k: usize = 0;
    let mut bytes: u64 = 0;
    assert(s.take(0) =~= Seq::<char>::empty());
    while k < cs.len() && bytes < 10
        invariant
            k <= cs.len(),
            cs@ == s,
            bytes == utf8_len(s.take(k as int)),
            bytes <= 13,
            forall|j: int| 0 <= j < k ==> utf8_len(#[trigger] s.take(j)) < 10,
        decreases cs.len() - k,
    {
        let u = cs[k] as u32;
        let w: u64 = if u < 0x80 {
            1
        } else if u < 0x800 {
            2
        } else if u < 0x10000 {
            3
        } else {
            4
        };
        proof {
            lemma_utf8_len_grows(s, k as int);
        }
        bytes = bytes + w;
        k += 1;
    }
    if bytes == 10 {
        proof {
            let w = choose|j: int| 0 <= j <= s.len() && utf8_len(s.take(j)) == 10;
            if w < k {
                lemma_utf8_len_mono(s, w, k as int);
                assert(utf8_len(s.take(w)) < 10);
            } else if w > k {
                lemma_utf8_len_mono(s, k as int, w);
            }
        }
        let t = crate::text::copy_range(&cs, 0, k);
        crate::text::string_of(&t)
    } else {
        proof {
            assert forall|j: int| 0 <= j <= s.len() implies utf8_len(s.take(j)) != 10 by {
                if j < k {
                } else if j == k {
                } else {
                    lemma_utf8_len_mono(s, k as int, j);
                    if bytes < 10 {
                        assert(k == cs.len());
                    }
                }
            }
        }
        created_at.to_owned()
    }
}

/// How many alerts of `list` have each severity: critical, high, medium,
/// low.
pub open spec fn severity_counts(list: Seq<Seq<char>>) -> (nat, nat, nat, nat)
    decreases list.len(),
{
    if list.len() == 0 {
        (0, 0, 0, 0)
    } else {
        let c = severity_counts(list.drop_last());
        let s = list.last();
        (
            c.0 + if s == "critical"@ {
                1nat
            } else {
                0nat
            },
            c.1 + if s == "high"@ {
                1nat
            } else {
                0nat
            },
            c.2 + if s == "medium"@ {
                1nat
            } else {
                0nat
            },
            c.3 + if s == "low"@ {
                1nat
            } else {
                0nat
            },
        )
    }
}

/// The severities of a list of alerts.
pub open spec fn severities(list: Seq<SecurityAlert>) -> Seq<Seq<char>> {
    list.map_values(|a: SecurityAlert| a.severity@)
}

/// The title of the alert table: the number of alerts and how many are
/// critical, high, medium and low.
pub open spec fn alert_title_view(list: Seq<SecurityAlert>) -> Seq<char> {
    if list.len() == 0 {
        " Security Alerts "@
    } else {
        let c = severity_counts(severities(list));
        " Security Alerts ("@ + decimal(list.len()) + ")  C:"@ + decimal(c.0) + " H:"@ + decimal(
            c.1,
        ) + " M:"@ + decimal(c.2) + " L:"@ + decimal(c.3) + " "@
    }
}

/// The title of the alert table.
pub fn alert_title(list: &Vec<SecurityAlert>) -> (s: String)
    ensures
        s@ == alert_title_view(list@),
{
    if list.len() == 0 {
        return String::from_str(" Security Alerts ");
    }
    let ghost sv = severities(list@);
    let mut c0: usize = 0;
    let mut c1: usize = 0;
    let mut c2: usize = 0;
    let mut c3: usize = 0;
    let mut i: usize = 0;
    assert(sv.take(0) =~= Seq::<Seq<char>>::empty());
    while i < list.len()
        invariant
            i <= list.len(),
            sv == severities(list@),
            (c0 as nat, c1 as nat, c2 as nat, c3 as nat) == severity_counts(sv.take(i as int)),
            c0 <= i,
            c1 <= i,
            c2 <= i,
            c3 <= i,
        decreases list.len() - i,
    {
        let s = list[i].severity.as_str();
        proof {
            reveal_strlit("critical");
            reveal_strlit("high");
            reveal_strlit("medium");
            reveal_strlit("low");
        }
        assert(sv.take(i + 1).drop_last() =~= sv.take(i as int));
        assert(sv.take(i + 1).last() == list@[i as int].severity@);
        if crate::text::same_text(s, "critical") {
            c0 += 1;
        } else if crate::text::same_text(s, "high") {
            c1 += 1;
        } else if crate::text::same_text(s, "medium") {
            c2 += 1;
        } else if crate::text::same_text(s, "low") {
            c3 += 1;
        }
        i += 1;
    }
    assert(sv.take(list.len() as int) =~= sv);
    let mut t = String::new();
    push_str(&mut t, " Security Alerts (");
    push_decimal(&mut t, list.len() as u64);
    push_str(&mut t, ")  C:");
    push_decimal(&mut t, c0 as u64);
    push_str(&mut t, " H:");
    push_decimal(&mut t, c1 as u64);
    push_str(&mut t, " M:");
    push_decimal(&mut t, c2 as u64);
    push_str(&mut t, " L:");
    push_decimal(&mut t, c3 as u64);
    push_str(&mut t, " ");
    assert(t@ =~= alert_title_view(list@));
    t
}

/// How far a pane scrolls so that its last lines show: the lines beyond
/// what fits inside its border (two rows), as a `u16` (taken modulo 2^16).
pub open spec fn pane_scroll_view(lines: nat, height: u16) -> u16 {
    (if lines > height - 2 {
        lines - (height - 2)
    } else {
        0
    }) as u16
}

/// How far a pane of `height` rows with `lines` lines scrolls.  A pane
/// shorter than its border fails.
pub fn pane_scroll(lines: usize, height: u16) -> (r: u16)
    requires
        height >= 2,
    ensures
        r == pane_scroll_view(lines as nat, height),
{
    let inner = height as usize - 2;
    let over = if lines > inner {
        lines - inner
    } else {
        0
    };
    over as u16
}

/// The title of the pull request table: the count shown, with the whole
/// count and the filter while a filter is set.
pub open spec fn pr_title_view(s: AppView) -> Seq<char> {
    if s.pr_filtered.len() == 0 {
        " Pull Requests "@
    } else if s.pr_filter.len() > 0 {
        " Pull Requests  ("@ + decimal(s.pr_filtered.len()) + "/"@ + decimal(s.pr_list.len())
            + ")  filter: "@ + s.pr_filter + " "@
    } else {
        " Pull Requests  ("@ + decimal(s.pr_filtered.len()) + ") "@
    }
}

/// The line under the pull request table: the filter being typed, or the
/// keys.
pub open spec fn pr_hint_view(s: AppView) -> Seq<char> {
    if s.pr_filter_mode {
        " filter: "@ + s.pr_filter + "█ "@
    } else {
        " Enter/o open  ·  c checkout  ·  / filter by author  ·  Esc close "@
    }
}

impl App {
    /// The title of the pull request table.
    pub fn pr_title(&self) -> (s: String)
        ensures
            s@ == pr_title_view(self@),
    {
        if self.pr_filtered.len() == 0 {
            String::from_str(" Pull Requests ")
        } else if self.pr_filter.as_str().unicode_len() > 0 {
            let mut t = String::new();
            push_str(&mut t, " Pull Requests  (");
            push_decimal(&mut t, self.pr_filtered.len() as u64);
            push_str(&mut t, "/");
            push_decimal(&mut t, self.pr_list.len() as u64);
            push_str(&mut t, ")  filter: ");
            push_str(&mut t, self.pr_filter.as_str());
            push_str(&mut t, " ");
            assert(t@ =~= pr_title_view(self@));
            t
        } else {
            let mut t = String::new();
            push_str(&mut t, " Pull Requests  (");
            push_decimal(&mut t, self.pr_filtered.len() as u64);
            push_str(&mut t, ") ");
            assert(t@ =~= pr_title_view(self@));
            t
        }
    }

    /// The line under the pull request table.
    pub fn pr_hint(&self) -> (s: String)
        ensures
            s@ == pr_hint_view(self@),
    {
        if self.pr_filter_mode {
            let mut t = String::new();
            push_str(&mut t, " filter: ");
            push_str(&mut t, self.pr_filter.as_str());
            push_str(&mut t, "█ ");
            assert(t@ =~= pr_hint_view(self@));
            t
        } else {
            String::from_str(" Enter/o open  ·  c checkout  ·  / filter by author  ·  Esc close ")
        }
    }

    /// The title of the CI table: how many runs.
    pub fn ci_title(&self) -> (s: String)
        ensures
            s@ == " CI Runs ("@ + decimal(self.ci_list@.len()) + ") "@,
    {
        let mut t = String::new();
        push_str(&mut t, " CI Runs (");
        push_decimal(&mut t, self.ci_list.len() as u64);
        push_str(&mut t, ") ");
        assert(t@ =~= " CI Runs ("@ + decimal(self.ci_list@.len()) + ") "@);
        t
    }
}

/// How a repository is listed.
pub struct RepoLine {
    pub prefix: &'static str,
    pub symbol: &'static str,
    pub color: Color,
    pub name: String,
    pub branch: String,
    pub sync: Option<String>,
    pub changes: Option<String>,
}

/// How a repository is listed: a marker on the selected one, the status
/// symbol and colour, the name, the branch, the commits ahead and behind
/// when there are any, and the change counts when anything changed.
pub fn repo_line(r: &GitRepo, selected: bool) -> (l: RepoLine)
    ensures
        l.prefix@ == if selected {
            "▶ "@
        } else {
            "  "@
        },
        (l.symbol@, l.color) == repo_look(r.status),
        l.name@ == r.name@,
        l.branch@ == "  "@ + r.branch@,
        l.sync matches Some(t) ==> t@ == "  ↑"@ + decimal(r.ahead as nat) + "↓"@ + decimal(
            r.behind as nat,
        ),
        l.sync is Some <==> (r.ahead > 0 || r.behind > 0),
        l.changes matches Some(t) ==> t@ == "  +"@ + decimal(r.staged as nat) + " ~"@ + decimal(
            r.modified as nat,
        ) + " ?"@ + decimal(r.untracked as nat),
        l.changes is Some <==> (r.modified + r.staged + r.untracked > 0),
{
    let (symbol, color) = repo_sym(r.status);
    let sync = if r.ahead > 0 || r.behind > 0 {
        let mut t = String::new();
        push_str(&mut t, "  ↑");
        push_decimal(&mut t, r.ahead as u64);
        push_str(&mut t, "↓");
        push_decimal(&mut t, r.behind as u64);
        assert(t@ =~= "  ↑"@ + decimal(r.ahead as nat) + "↓"@ + decimal(r.behind as nat));
        Some(t)
    } else {
        None
    };
    let changes = if r.modified > 0 || r.staged > 0 || r.untracked > 0 {
        let mut t = String::new();
        push_str(&mut t, "  +");
        push_decimal(&mut t, r.staged as u64);
        push_str(&mut t, " ~");
        push_decimal(&mut t, r.modified as u64);
        push_str(&mut t, " ?");
        push_decimal(&mut t, r.untracked as u64);
        assert(t@ =~= "  +"@ + decimal(r.staged as nat) + " ~"@ + decimal(r.modified as nat) + " ?"@
            + decimal(r.untracked as nat));
        Some(t)
    } else {
        None
    };
    RepoLine {
        prefix: if selected {
            "▶ "
        } else {
            "  "
        },
        symbol,
        color,
        name: r.name.clone(),
        branch: line_of("  ", &r.branch),
        sync,
        changes,
    }
}

/// The colour of an output pane's border: cyan when focused, yellow while a
/// command runs, else dark gray.
pub fn pane_border(focused: bool, running: bool) -> (c: Color)
    ensures
        c == if focused {
            Color::Cyan
        } else if running {
            Color::Yellow
        } else {
            Color::DarkGray
        },
{
    if focused {
        Color::Cyan
    } else if running {
        Color::Yellow
    } else {
        Color::DarkGray
    }
}

/// The title of an output pane: its label, with a spinner frame while a
/// command runs and the pane is still empty.
pub fn pane_title(label: &str, running: bool, empty: bool, tick: u64) -> (s: String)
    ensures
        s@ == " "@ + label@ + (if running && empty {
            seq![' ', spinner_frame(tick)]
        } else {
            Seq::empty()
        }) + " "@,
{
    let mut t = String::new();
    push_str(&mut t, " ");
    push_str(&mut t, label);
    if running && empty {
        push_char(&mut t, ' ');
        push_char(&mut t, spinner_char(tick));
    }
    push_str(&mut t, " ");
    assert(t@ =~= " "@ + label@ + (if running && empty {
        seq![' ', spinner_frame(tick)]
    } else {
        Seq::empty()
    }) + " "@);
    t
}

} // verus!
