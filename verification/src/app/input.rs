//! Keys and clicks: what every key does in every mode, and how a click
//! selects or opens an output pane.

use vstd::prelude::*;

use super::ci::repos_view;
use super::commands::repo_target;
use super::pr::{lemma_repo_index, repo_index};
use super::{
    launch_view, pane_views, process_view, target_views, App, AppView, Launch, LaunchView,
    ProcessSpec, ProcessView,
};
use crate::engine::Target;
use crate::layout::{pane_layout, pane_rects, panes_fit, Rect};
use crate::text::{
    chars_of, is_ws, push_char, push_str, split_words, string_of, string_views, trim, trim_chars,
    trim_end, trim_start, views, words,
};
use crate::text::{lemma_words_append, lemma_words_single};
use crate::types::{GitRepo, RepoView};

verus! {

/// A key press.
#[derive(Clone, Copy, Debug, PartialEq, Eq, Structural)]
pub enum Key {
    Up,
    Down,
    Enter,
    Esc,
    Backspace,
    Char(char),
    Other,
}

/// Work the caller carries out after a key press.
pub enum Effect {
    Nothing,
    Quit,
    /// Run a command in some repositories and show its output.
    Launch(Launch),
    /// Start a process and leave it to itself.
    Spawn(ProcessSpec),
    /// Ask for the latest CI runs of these repositories.
    FetchRuns(Vec<GitRepo>),
    /// Ask for the open pull requests of these repositories.
    FetchPrs(Vec<GitRepo>),
    /// Read every repository's status again, then say it was refreshed.
    Refresh,
}

/// What an [`Effect`] holds.
pub enum EffectView {
    Nothing,
    Quit,
    Launch(LaunchView),
    Spawn(ProcessView),
    FetchRuns(Seq<RepoView>),
    FetchPrs(Seq<RepoView>),
    Refresh,
}

impl View for Effect {
    type V = EffectView;

    open spec fn view(&self) -> EffectView {
        match self {
            Effect::Nothing => EffectView::Nothing,
            Effect::Quit => EffectView::Quit,
            Effect::Launch(l) => EffectView::Launch(l@),
            Effect::Spawn(p) => EffectView::Spawn(p@),
            Effect::FetchRuns(v) => EffectView::FetchRuns(crate::git::repo_views(v@)),
            Effect::FetchPrs(v) => EffectView::FetchPrs(crate::git::repo_views(v@)),
            Effect::Refresh => EffectView::Refresh,
        }
    }
}

/// A launch as an effect (nothing where there is none).
pub open spec fn launch_effect(r: (AppView, Option<LaunchView>)) -> (AppView, EffectView) {
    (
        r.0,
        match r.1 {
            Some(l) => EffectView::Launch(l),
            None => EffectView::Nothing,
        },
    )
}

/// A process as an effect (nothing where there is none).
pub open spec fn spawn_effect(p: Option<ProcessView>) -> EffectView {
    match p {
        Some(x) => EffectView::Spawn(x),
        None => EffectView::Nothing,
    }
}

/// Program and arguments of a typed command line `raw` (already trimmed):
/// after `!`, the first word is the program and the rest its arguments;
/// otherwise every word is an argument of `git`.
pub open spec fn command_of(raw: Seq<char>) -> (Seq<char>, Seq<Seq<char>>) {
    if raw.len() > 0 && raw[0] == '!' {
        let w = words(raw.drop_first());
        if w.len() > 0 {
            (w[0], w.drop_first())
        } else {
            (Seq::empty(), Seq::empty())
        }
    } else {
        ("git"@, words(raw))
    }
}

/// Whether a key works in the plain mode (no list, prompt or question open).
pub open spec fn plain_mode(s: AppView) -> bool {
    !s.ci_mode && !s.pr_mode && !s.confirm_mode && !s.input_mode
}

/// A key press that is handled: all but opening the prompt of a focused
/// pane that no longer exists, which fails.
pub open spec fn key_ok(s: AppView, key: Key) -> bool {
    plain_mode(s) && s.focused_pane is Some && (key == Key::Enter || key == Key::Char('c'))
        ==> s.focused_pane->0 < s.repo_output.len()
}

impl AppView {
    /// Opens the command prompt for the repository of pane `i`.
    pub open spec fn open_pane_input(self, i: nat) -> AppView {
        AppView {
            focused_pane: None,
            input_target: Some(self.repo_output[i as int].0),
            input_mode: true,
            input_buffer: Seq::empty(),
            ..self
        }
    }

    /// A key in the CI list.
    pub open spec fn ci_key(self, key: Key) -> (AppView, EffectView) {
        match key {
            Key::Esc | Key::Char('q') => (AppView { ci_mode: false, ..self }, EffectView::Nothing),
            Key::Up => (
                if self.ci_index > 0 {
                    AppView { ci_index: (self.ci_index - 1) as nat, ..self }
                } else {
                    self
                },
                EffectView::Nothing,
            ),
            Key::Down => (
                if self.ci_index + 1 < self.ci_list.len() {
                    AppView { ci_index: self.ci_index + 1, ..self }
                } else {
                    self
                },
                EffectView::Nothing,
            ),
            Key::Enter | Key::Char('o') => (self, spawn_effect(self.ci_web())),
            Key::Char('l') => launch_effect(self.ci_show_logs()),
            Key::Char('R') => (self, spawn_effect(self.ci_again())),
            _ => (self, EffectView::Nothing),
        }
    }

    /// A key in the pull request list.
    pub open spec fn pr_key(self, key: Key) -> (AppView, EffectView) {
        match key {
            Key::Esc | Key::Char('q') => (AppView { pr_mode: false, ..self }, EffectView::Nothing),
            Key::Up => (
                if self.pr_index > 0 {
                    AppView { pr_index: (self.pr_index - 1) as nat, ..self }
                } else {
                    self
                },
                EffectView::Nothing,
            ),
            Key::Down => (
                if self.pr_index + 1 < self.pr_filtered.len() {
                    AppView { pr_index: self.pr_index + 1, ..self }
                } else {
                    self
                },
                EffectView::Nothing,
            ),
            Key::Enter | Key::Char('o') => (self, spawn_effect(self.pr_web())),
            Key::Char('c') => launch_effect(self.pr_checkout()),
            _ => (self, EffectView::Nothing),
        }
    }

    /// A key while the discard question is open: `y` discards, anything
    /// else cancels.
    pub open spec fn confirm_key(self, key: Key) -> (AppView, EffectView) {
        if key == Key::Char('y') || key == Key::Char('Y') {
            launch_effect(AppView { confirm_mode: false, ..self }.discard_dirty(self.confirm_all))
        } else {
            (
                AppView { confirm_mode: false, status_line: "Discard cancelled."@, ..self },
                EffectView::Nothing,
            )
        }
    }

    /// Runs a typed command line: in the prompt's repository where it was
    /// opened for one (if a repository of that name is still there), else
    /// as a plain command.
    pub open spec fn submit(self, raw: Seq<char>, target: Option<Seq<char>>, all: bool) -> (
        AppView,
        EffectView,
    ) {
        if raw.len() == 0 {
            (self, EffectView::Nothing)
        } else {
            let (program, args) = command_of(raw);
            match target {
                Some(name) => {
                    let i = repo_index(self.repos, name);
                    if i >= 0 {
                        launch_effect(self.run_on(seq![repo_target(self.repos[i])], program, args))
                    } else {
                        (self, EffectView::Nothing)
                    }
                },
                None => launch_effect(self.run_cmd(program, args, all)),
            }
        }
    }

    /// A key while the command prompt is open.
    pub open spec fn input_key(self, key: Key) -> (AppView, EffectView) {
        match key {
            Key::Esc => (
                AppView {
                    input_mode: false,
                    input_target: None,
                    input_buffer: Seq::empty(),
                    status_line: "Cancelled."@,
                    ..self
                },
                EffectView::Nothing,
            ),
            Key::Enter => AppView {
                input_target: None,
                input_mode: false,
                input_buffer: Seq::empty(),
                ..self
            }.submit(trim(self.input_buffer), self.input_target, self.input_all),
            Key::Backspace => (
                AppView {
                    input_buffer: if self.input_buffer.len() > 0 {
                        self.input_buffer.drop_last()
                    } else {
                        self.input_buffer
                    },
                    ..self
                },
                EffectView::Nothing,
            ),
            Key::Char(c) => (
                AppView { input_buffer: self.input_buffer.push(c), ..self },
                EffectView::Nothing,
            ),
            _ => (self, EffectView::Nothing),
        }
    }

    /// A repository query as an effect.
    pub open spec fn fetch_effect(r: (AppView, Option<Seq<RepoView>>), runs: bool) -> (
        AppView,
        EffectView,
    ) {
        (
            r.0,
            match r.1 {
                Some(rs) => if runs {
                    EffectView::FetchRuns(rs)
                } else {
                    EffectView::FetchPrs(rs)
                },
                None => EffectView::Nothing,
            },
        )
    }

    /// The text a checkout prompt starts with.
    pub open spec fn checkout_text() -> Seq<char> {
        "checkout "@
    }

    /// Opens the command prompt for a checkout in every repository (`all`)
    /// or in the selected one: it starts with `checkout ` and the branch is
    /// typed after it.
    pub open spec fn checkout_prompt(self, all: bool) -> AppView {
        AppView {
            input_mode: true,
            input_all: all,
            input_target: None,
            input_buffer: AppView::checkout_text(),
            ..self
        }
    }

    /// A key in the plain mode.
    pub open spec fn plain_key(self, key: Key) -> (AppView, EffectView) {
        if self.focused_pane is Some && key == Key::Esc {
            (AppView { focused_pane: None, ..self }, EffectView::Nothing)
        } else if self.focused_pane is Some && (key == Key::Enter || key == Key::Char('c')) {
            (self.open_pane_input(self.focused_pane->0), EffectView::Nothing)
        } else {
            match key {
                Key::Char('q') => (self, EffectView::Quit),
                Key::Char('h') => (AppView { show_help: !self.show_help, ..self }, EffectView::Nothing),
                Key::Esc => (AppView { focused_pane: None, ..self }, EffectView::Nothing),
                Key::Up | Key::Char('k') => (self.previous(), EffectView::Nothing),
                Key::Down | Key::Char('j') => (self.next(), EffectView::Nothing),
                Key::Enter | Key::Char('s') => launch_effect(self.show_details()),
                Key::Char('u') => launch_effect(self.run_cmd("git"@, seq!["pull"@, "--rebase"@], false)),
                Key::Char('U') => launch_effect(self.run_cmd("git"@, seq!["pull"@, "--rebase"@], true)),
                Key::Char('f') => launch_effect(self.run_cmd("git"@, seq!["fetch"@, "--all"@], false)),
                Key::Char('F') => launch_effect(self.run_cmd("git"@, seq!["fetch"@, "--all"@], true)),
                Key::Char('l') => launch_effect(
                    self.run_cmd("git"@, seq!["log"@, "--oneline"@, "-10"@], false),
                ),
                Key::Char('L') => launch_effect(
                    self.run_cmd("git"@, seq!["log"@, "--oneline"@, "-10"@], true),
                ),
                Key::Char('d') => launch_effect(self.run_cmd("git"@, seq!["diff"@], false)),
                Key::Char('D') => launch_effect(self.run_cmd("git"@, seq!["diff"@], true)),
                Key::Char('S') => launch_effect(self.run_cmd("git"@, seq!["status"@, "-sb"@], true)),
                Key::Char('a') => AppView::fetch_effect(self.fetch_runs(false), true),
                Key::Char('A') => AppView::fetch_effect(self.fetch_runs(true), true),
                Key::Char('p') => AppView::fetch_effect(self.fetch_prs(false), false),
                Key::Char('P') => AppView::fetch_effect(self.fetch_prs(true), false),
                Key::Char('o') => launch_effect(
                    self.run_cmd("gh"@, seq!["repo"@, "view"@, "--web"@], false),
                ),
                Key::Char('n') => launch_effect(
                    self.run_cmd("gh"@, seq!["pr"@, "create"@, "--fill"@, "--web"@], false),
                ),
                Key::Char('c') => if !self.is_running {
                    (self.checkout_prompt(false), EffectView::Nothing)
                } else {
                    (self, EffectView::Nothing)
                },
                Key::Char('C') => if !self.is_running {
                    (self.checkout_prompt(true), EffectView::Nothing)
                } else {
                    (self, EffectView::Nothing)
                },
                Key::Char('r') => if !self.is_running {
                    (self, EffectView::Refresh)
                } else {
                    (self, EffectView::Nothing)
                },
                _ => (self, EffectView::Nothing),
            }
        }
    }

    /// What a key does: in the CI list, the pull request list, the discard
    /// question, the command prompt, or else the plain mode.
    pub open spec fn key(self, key: Key) -> (AppView, EffectView) {
        if self.ci_mode {
            self.ci_key(key)
        } else if self.pr_mode {
            self.pr_key(key)
        } else if self.confirm_mode {
            self.confirm_key(key)
        } else if self.input_mode {
            self.input_key(key)
        } else {
            self.plain_key(key)
        }
    }

    /// The status line after a refresh asked for with a key.
    pub open spec fn refreshed_by_key(self) -> AppView {
        AppView { status_line: "Refreshed."@, ..self }
    }
}

/// Lower case keys act on the selected repository, upper case keys on all
/// of them: pull, fetch, log, the command prompt, discarding, CI runs and
/// pull requests.
pub proof fn law_case_selects_scope(s: AppView)
    requires
        plain_mode(s),
        s.focused_pane is None,
    ensures
        s.key(Key::Char('u')) == launch_effect(s.run_cmd("git"@, seq!["pull"@, "--rebase"@], false)),
        s.key(Key::Char('U')) == launch_effect(s.run_cmd("git"@, seq!["pull"@, "--rebase"@], true)),
        s.key(Key::Char('f')) == launch_effect(s.run_cmd("git"@, seq!["fetch"@, "--all"@], false)),
        s.key(Key::Char('F')) == launch_effect(s.run_cmd("git"@, seq!["fetch"@, "--all"@], true)),
        s.key(Key::Char('l')) == launch_effect(
            s.run_cmd("git"@, seq!["log"@, "--oneline"@, "-10"@], false),
        ),
        s.key(Key::Char('L')) == launch_effect(
            s.run_cmd("git"@, seq!["log"@, "--oneline"@, "-10"@], true),
        ),
        s.key(Key::Char('a')) == AppView::fetch_effect(s.fetch_runs(false), true),
        s.key(Key::Char('A')) == AppView::fetch_effect(s.fetch_runs(true), true),
        s.key(Key::Char('p')) == AppView::fetch_effect(s.fetch_prs(false), false),
        s.key(Key::Char('P')) == AppView::fetch_effect(s.fetch_prs(true), false),
        s.key(Key::Char('d')) == launch_effect(s.run_cmd("git"@, seq!["diff"@], false)),
        s.key(Key::Char('D')) == launch_effect(s.run_cmd("git"@, seq!["diff"@], true)),
        !s.is_running ==> s.key(Key::Char('c')) == (s.checkout_prompt(false), EffectView::Nothing),
        !s.is_running ==> s.key(Key::Char('C')) == (s.checkout_prompt(true), EffectView::Nothing),
{
}

/// Changes are thrown away only after the question is answered with `y`:
/// any other answer cancels and starts nothing.
pub proof fn law_discard_needs_yes(s: AppView, key: Key)
    ensures
        !s.ci_mode && !s.pr_mode && s.confirm_mode && key != Key::Char('y') && key != Key::Char(
            'Y',
        ) ==> s.key(key) == (AppView {
            confirm_mode: false,
            status_line: "Discard cancelled."@,
            ..s
        }, EffectView::Nothing),
{
}

/// One command at a time: while a command runs, starting another changes
/// nothing and starts nothing.
pub proof fn law_one_command_at_a_time(
    s: AppView,
    targets: Seq<(Seq<char>, Seq<char>)>,
    program: Seq<char>,
    args: Seq<Seq<char>>,
    all: bool,
)
    requires
        s.is_running,
    ensures
        s.run_on(targets, program, args) == (s, None::<LaunchView>),
        s.run_cmd(program, args, all) == (s, None::<LaunchView>),
        s.discard_dirty(all) == (s, None::<LaunchView>),
{
}

/// `c` or `C`, a branch name, then Enter checks the branch out in the
/// selected repository or in all of them.
pub proof fn law_checkout_runs_in_scope(s: AppView, b: Seq<char>, all: bool)
    requires
        !s.ci_mode && !s.pr_mode && !s.confirm_mode,
        b.len() > 0,
        forall|i: int| 0 <= i < b.len() ==> !is_ws(#[trigger] b[i]),
    ensures
        ({
            let typed = AppView { input_buffer: AppView::checkout_text() + b, ..s.checkout_prompt(all) };
            typed.key(Key::Enter) == launch_effect(
                AppView {
                    input_mode: false,
                    input_target: None,
                    input_buffer: Seq::empty(),
                    ..typed
                }.run_cmd("git"@, seq!["checkout"@, b], all),
            )
        }),
{
    let p = AppView::checkout_text();
    reveal_strlit("checkout ");
    reveal_strlit("checkout");
    let w = "checkout"@;
    assert(p =~= w.push(' '));
    assert(forall|i: int| 0 <= i < w.len() ==> !is_ws(#[trigger] w[i]));
    lemma_words_single(w);
    assert(p.drop_last() =~= w);
    assert(words(p) == words(w));
    lemma_words_append(p, b);
    let raw = p + b;
    assert(raw[0] == 'c');
    assert(trim_start(raw) == raw);
    assert(raw.last() == b.last());
    assert(trim_end(raw) == raw);
    assert(trim(raw) == raw);
    assert(command_of(raw) == ("git"@, seq![w, b]));
}

/// `k` and `j` move the selection as the arrow keys do, up and down.
pub proof fn law_vim_keys_navigate(s: AppView)
    requires
        plain_mode(s),
        s.focused_pane is None,
    ensures
        s.key(Key::Char('k')) == s.key(Key::Up),
        s.key(Key::Char('j')) == s.key(Key::Down),
        s.key(Key::Up) == (s.previous(), EffectView::Nothing),
        s.key(Key::Down) == (s.next(), EffectView::Nothing),
{
}

/// Every key keeps the selection within the repository list: no mode and
/// no key moves it out of range.
pub proof fn law_key_keeps_selection(s: AppView, key: Key)
    requires
        s.wf(),
    ensures
        s.key(key).0.wf(),
{
    super::law_next_previous_roundtrip(s);
}

/// Whether the cell at `col`, `row` lies in `r`.
pub open spec fn hit(r: Rect, col: u16, row: u16) -> bool {
    r.x <= col < r.x + r.width && r.y <= row < r.y + r.height
}

/// Position of the first rectangle holding the cell, or -1.
pub open spec fn hit_index(rects: Seq<Rect>, col: u16, row: u16) -> int
    decreases rects.len(),
{
    if rects.len() == 0 {
        -1
    } else {
        let i = hit_index(rects.drop_last(), col, row);
        if i >= 0 {
            i
        } else if hit(rects.last(), col, row) {
            rects.len() - 1
        } else {
            -1
        }
    }
}

proof fn lemma_hit_index(rects: Seq<Rect>, col: u16, row: u16)
    ensures
        -1 <= hit_index(rects, col, row) < rects.len(),
        hit_index(rects, col, row) >= 0 ==> hit(rects[hit_index(rects, col, row)], col, row),
        hit_index(rects, col, row) >= 0 ==> forall|j: int|
            0 <= j < hit_index(rects, col, row) ==> !hit(rects[j], col, row),
        hit_index(rects, col, row) < 0 ==> forall|j: int|
            0 <= j < rects.len() ==> !hit(rects[j], col, row),
    decreases rects.len(),
{
    if rects.len() > 0 {
        let p = rects.drop_last();
        lemma_hit_index(p, col, row);
        assert forall|j: int| 0 <= j < p.len() implies p[j] == rects[j] by {}
    }
}

impl AppView {
    /// A click at `col`, `row` with the panes at `rects`: a click on the
    /// focused pane opens its prompt, a click on another pane focuses it,
    /// a click elsewhere drops the focus.
    pub open spec fn click_panes(self, col: u16, row: u16, rects: Seq<Rect>) -> AppView {
        let i = hit_index(rects, col, row);
        if i >= 0 {
            if self.focused_pane == Some(i as nat) {
                self.open_pane_input(i as nat)
            } else {
                AppView {
                    focused_pane: Some(i as nat),
                    status_line: "focused: "@ + self.repo_output[i].0 + "  ·  Enter cmd  ·  Esc unfocus"@,
                    ..self
                }
            }
        } else {
            AppView { focused_pane: None, ..self }
        }
    }
}

/// Whether a key moves the selection.
pub fn is_navigation(key: Key) -> (r: bool)
    ensures
        r == (key == Key::Up || key == Key::Down),
{
    match key {
        Key::Up | Key::Down => true,
        _ => false,
    }
}

/// The program and arguments of a typed command line.
pub fn parse_command(raw: &Vec<char>) -> (r: (String, Vec<String>))
    ensures
        (r.0@, string_views(r.1@)) == command_of(raw@),
{
    if raw.len() > 0 && raw[0] == '!' {
        let rest = crate::text::copy_range(raw, 1, raw.len());
        assert(rest@ =~= raw@.drop_first());
        let ws = split_words(&rest);
        let mut args: Vec<String> = Vec::new();
        if ws.len() == 0 {
            assert(string_views(args@) =~= Seq::<Seq<char>>::empty());
            return (String::new(), args);
        }
        let program = string_of(&ws[0]);
        let mut i: usize = 1;
        while i < ws.len()
            invariant
                1 <= i <= ws.len(),
                string_views(args@) == views(ws@).subrange(1, i as int),
            decreases ws.len() - i,
        {
            let s = string_of(&ws[i]);
            let ghost old_a = args@;
            args.push(s);
            assert(string_views(args@) =~= string_views(old_a).push(ws@[i as int]@));
            assert(views(ws@).subrange(1, i + 1) =~= views(ws@).subrange(1, i as int).push(
                ws@[i as int]@,
            ));
            i += 1;
        }
        assert(views(ws@).subrange(1, ws.len() as int) =~= views(ws@).drop_first());
        (program, args)
    } else {
        let ws = split_words(raw);
        let mut args: Vec<String> = Vec::new();
        let mut i: usize = 0;
        while i < ws.len()
            invariant
                i <= ws.len(),
                string_views(args@) == views(ws@).take(i as int),
            decreases ws.len() - i,
        {
            let s = string_of(&ws[i]);
            let ghost old_a = args@;
            args.push(s);
            assert(string_views(args@) =~= string_views(old_a).push(ws@[i as int]@));
            assert(views(ws@).take(i + 1) =~= views(ws@).take(i as int).push(ws@[i as int]@));
            i += 1;
        }
        assert(views(ws@).take(ws.len() as int) =~= views(ws@));
        (String::from_str("git"), args)
    }
}

/// A launch as an effect.
fn launch_into(l: Option<Launch>) -> (e: Effect)
    ensures
        e@ == match launch_view(l) {
            Some(x) => EffectView::Launch(x),
            None => EffectView::Nothing,
        },
{
    match l {
        Some(x) => Effect::Launch(x),
        None => Effect::Nothing,
    }
}

/// A process as an effect.
fn spawn_into(p: Option<ProcessSpec>) -> (e: Effect)
    ensures
        e@ == spawn_effect(process_view(p)),
{
    match p {
        Some(x) => Effect::Spawn(x),
        None => Effect::Nothing,
    }
}

/// A repository query as an effect.
fn fetch_into(r: Option<Vec<GitRepo>>, runs: bool) -> (e: Effect)
    ensures
        e@ == match repos_view(r) {
            Some(rs) => if runs {
                EffectView::FetchRuns(rs)
            } else {
                EffectView::FetchPrs(rs)
            },
            None => EffectView::Nothing,
        },
{
    match r {
        Some(v) => if runs {
            Effect::FetchRuns(v)
        } else {
            Effect::FetchPrs(v)
        },
        None => Effect::Nothing,
    }
}


/// The arguments of a command, from their texts.
fn args_of(items: &[&str]) -> (r: Vec<String>)
    ensures
        string_views(r@) == items@.map_values(|s: &str| s@),
{
    crate::text::strings_of(items)
}

impl App {
    /// Opens the command prompt for the repository of pane `i`.
    pub fn open_pane_input(&mut self, i: usize)
        requires
            i < old(self).repo_output.len(),
        ensures
            final(self)@ == old(self)@.open_pane_input(i as nat),
    {
        let name = self.repo_output[i].0.clone();
        self.focused_pane = None;
        self.input_target = Some(name);
        self.input_mode = true;
        self.input_buffer = String::new();
    }

    #[verifier::rlimit(40)]
    fn ci_key(&mut self, key: Key) -> (e: Effect)
        ensures
            (final(self)@, e@) == old(self)@.ci_key(key),
    {
        match key {
            Key::Esc | Key::Char('q') => {
                self.ci_mode = false;
                Effect::Nothing
            },
            Key::Up => {
                if self.ci_index > 0 {
                    self.ci_index -= 1;
                }
                Effect::Nothing
            },
            Key::Down => {
                if self.ci_index < self.ci_list.len() && self.ci_index + 1 < self.ci_list.len() {
                    self.ci_index += 1;
                }
                Effect::Nothing
            },
            Key::Enter | Key::Char('o') => spawn_into(self.ci_open_web()),
            Key::Char('l') => launch_into(self.ci_show_logs()),
            Key::Char('R') => spawn_into(self.ci_rerun()),
            _ => Effect::Nothing,
        }
    }

    #[verifier::rlimit(40)]
    fn pr_key(&mut self, key: Key) -> (e: Effect)
        ensures
            (final(self)@, e@) == old(self)@.pr_key(key),
    {
        match key {
            Key::Esc | Key::Char('q') => {
                self.pr_mode = false;
                Effect::Nothing
            },
            Key::Up => {
                if self.pr_index > 0 {
                    self.pr_index -= 1;
                }
                Effect::Nothing
            },
            Key::Down => {
                if self.pr_index < self.pr_filtered.len() && self.pr_index + 1 < self.pr_filtered.len() {
                    self.pr_index += 1;
                }
                Effect::Nothing
            },
            Key::Enter | Key::Char('o') => spawn_into(self.pr_open_web()),
            Key::Char('c') => launch_into(self.pr_checkout()),
            _ => Effect::Nothing,
        }
    }

    fn confirm_key(&mut self, key: Key) -> (e: Effect)
        requires
            old(self)@.wf(),
        ensures
            (final(self)@, e@) == old(self)@.confirm_key(key),
    {
        if key == Key::Char('y') || key == Key::Char('Y') {
            let all = self.confirm_all;
            self.confirm_mode = false;
            launch_into(self.discard_dirty(all))
        } else {
            self.confirm_mode = false;
            self.status_line = String::from_str("Discard cancelled.");
            Effect::Nothing
        }
    }

    /// Runs a typed command line.
    fn submit(&mut self, raw: &Vec<char>, target: Option<String>, all: bool) -> (e: Effect)
        requires
            old(self)@.wf(),
        ensures
            (final(self)@, e@) == old(self)@.submit(raw@, super::opt_view(target), all),
    {
        if raw.len() == 0 {
            return Effect::Nothing;
        }
        let (program, args) = parse_command(raw);
        match target {
            Some(name) => {
                proof {
                    lemma_repo_index(self@.repos, name@);
                }
                match self.find_repo(&name) {
                    Some(i) => {
                        let mut targets: Vec<Target> = Vec::new();
                        targets.push(
                            Target {
                                label: self.repos[i].name.clone(),
                                workdir: self.repos[i].path.clone(),
                            },
                        );
                        assert(target_views(targets@) =~= seq![
                            repo_target(self@.repos[i as int]),
                        ]);
                        launch_into(self.run_on(targets, program.as_str(), &args))
                    },
                    None => Effect::Nothing,
                }
            },
            None => launch_into(self.run_cmd(program.as_str(), &args, all)),
        }
    }

    fn input_key(&mut self, key: Key) -> (e: Effect)
        requires
            old(self)@.wf(),
        ensures
            (final(self)@, e@) == old(self)@.input_key(key),
    {
        match key {
            Key::Esc => {
                self.input_mode = false;
                self.input_target = None;
                self.input_buffer = String::new();
                self.status_line = String::from_str("Cancelled.");
                Effect::Nothing
            },
            Key::Enter => {
                let all = self.input_all;
                let mut target: Option<String> = None;
                std::mem::swap(&mut target, &mut self.input_target);
                self.input_mode = false;
                let cs = chars_of(self.input_buffer.as_str());
                let raw = trim_chars(&cs);
                self.input_buffer = String::new();
                self.submit(&raw, target, all)
            },
            Key::Backspace => {
                let mut cs = chars_of(self.input_buffer.as_str());
                if cs.len() > 0 {
                    cs.pop();
                }
                self.input_buffer = string_of(&cs);
                Effect::Nothing
            },
            Key::Char(c) => {
                push_char(&mut self.input_buffer, c);
                Effect::Nothing
            },
            _ => Effect::Nothing,
        }
    }

    /// Starts `program args` in every repository (`all`) or the selected
    /// one, as an effect.
    fn command_key(&mut self, program: &str, items: &[&str], all: bool) -> (e: Effect)
        requires
            old(self)@.wf(),
        ensures
            (final(self)@, e@) == launch_effect(
                old(self)@.run_cmd(program@, items@.map_values(|s: &str| s@), all),
            ),
    {
        let args = args_of(items);
        launch_into(self.run_cmd(program, &args, all))
    }

    #[verifier::rlimit(60)]
    fn plain_key(&mut self, key: Key) -> (e: Effect)
        requires
            old(self)@.wf(),
            key_ok(old(self)@, key),
            plain_mode(old(self)@),
        ensures
            (final(self)@, e@) == old(self)@.plain_key(key),
    {
        if self.focused_pane.is_some() && key == Key::Esc {
            self.focused_pane = None;
            return Effect::Nothing;
        }
        if let Some(i) = self.focused_pane {
            if key == Key::Enter || key == Key::Char('c') {
                self.open_pane_input(i);
                return Effect::Nothing;
            }
        }
        match key {
            Key::Char('q') => Effect::Quit,
            Key::Char('h') => {
                self.show_help = !self.show_help;
                Effect::Nothing
            },
            Key::Esc => {
                self.focused_pane = None;
                Effect::Nothing
            },
            Key::Up | Key::Char('k') => {
                self.previous();
                Effect::Nothing
            },
            Key::Down | Key::Char('j') => {
                self.next();
                Effect::Nothing
            },
            Key::Enter | Key::Char('s') => launch_into(self.show_details()),
            Key::Char('u') => {
                let e = self.command_key("git", &["pull", "--rebase"], false);
                assert(seq!["pull", "--rebase"].map_values(|s: &str| s@) =~= seq!["pull"@, "--rebase"@]);
                e
            },
            Key::Char('U') => {
                let e = self.command_key("git", &["pull", "--rebase"], true);
                assert(seq!["pull", "--rebase"].map_values(|s: &str| s@) =~= seq!["pull"@, "--rebase"@]);
                e
            },
            Key::Char('f') => {
                let e = self.command_key("git", &["fetch", "--all"], false);
                assert(seq!["fetch", "--all"].map_values(|s: &str| s@) =~= seq!["fetch"@, "--all"@]);
                e
            },
            Key::Char('F') => {
                let e = self.command_key("git", &["fetch", "--all"], true);
                assert(seq!["fetch", "--all"].map_values(|s: &str| s@) =~= seq!["fetch"@, "--all"@]);
                e
            },
            Key::Char('l') => {
                let e = self.command_key("git", &["log", "--oneline", "-10"], false);
                assert(seq!["log", "--oneline", "-10"].map_values(|s: &str| s@) =~= seq![
                    "log"@,
                    "--oneline"@,
                    "-10"@,
                ]);
                e
            },
            Key::Char('L') => {
                let e = self.command_key("git", &["log", "--oneline", "-10"], true);
                assert(seq!["log", "--oneline", "-10"].map_values(|s: &str| s@) =~= seq![
                    "log"@,
                    "--oneline"@,
                    "-10"@,
                ]);
                e
            },
            Key::Char('d') => {
                let mut args: Vec<String> = Vec::new();
                args.push(String::from_str("diff"));
                assert(string_views(args@) =~= seq!["diff"@]);
                launch_into(self.run_cmd("git", &args, false))
            },
            Key::Char('D') => {
                let mut args: Vec<String> = Vec::new();
                args.push(String::from_str("diff"));
                assert(string_views(args@) =~= seq!["diff"@]);
                launch_into(self.run_cmd("git", &args, true))
            },
            Key::Char('S') => {
                let e = self.command_key("git", &["status", "-sb"], true);
                assert(seq!["status", "-sb"].map_values(|s: &str| s@) =~= seq!["status"@, "-sb"@]);
                e
            },
            Key::Char('a') => fetch_into(self.fetch_runs(false), true),
            Key::Char('A') => fetch_into(self.fetch_runs(true), true),
            Key::Char('p') => fetch_into(self.fetch_prs(false), false),
            Key::Char('P') => fetch_into(self.fetch_prs(true), false),
            Key::Char('o') => {
                let e = self.command_key("gh", &["repo", "view", "--web"], false);
                assert(seq!["repo", "view", "--web"].map_values(|s: &str| s@) =~= seq![
                    "repo"@,
                    "view"@,
                    "--web"@,
                ]);
                e
            },
            Key::Char('n') => {
                let e = self.command_key("gh", &["pr", "create", "--fill", "--web"], false);
                assert(seq!["pr", "create", "--fill", "--web"].map_values(|s: &str| s@) =~= seq![
                    "pr"@,
                    "create"@,
                    "--fill"@,
                    "--web"@,
                ]);
                e
            },
            Key::Char('c') => {
                if !self.is_running {
                    self.open_checkout_prompt(false);
                }
                Effect::Nothing
            },
            Key::Char('C') => {
                if !self.is_running {
                    self.open_checkout_prompt(true);
                }
                Effect::Nothing
            },
            Key::Char('r') => {
                if !self.is_running {
                    Effect::Refresh
                } else {
                    Effect::Nothing
                }
            },
            _ => Effect::Nothing,
        }
    }

    /// Opens the command prompt for a checkout in every repository (`all`)
    /// or in the selected one.
    fn open_checkout_prompt(&mut self, all: bool)
        ensures
            final(self)@ == old(self)@.checkout_prompt(all),
    {
        self.input_mode = true;
        self.input_all = all;
        self.input_target = None;
        self.input_buffer = String::from_str("checkout ");
    }

    /// Handles a key press and returns the work it asks for.
    pub fn handle_key(&mut self, key: Key) -> (e: Effect)
        requires
            old(self)@.wf(),
            key_ok(old(self)@, key),
        ensures
            (final(self)@, e@) == old(self)@.key(key),
            final(self)@.wf(),
    {
        proof {
            law_key_keeps_selection(old(self)@, key);
        }
        if self.ci_mode {
            self.ci_key(key)
        } else if self.pr_mode {
            self.pr_key(key)
        } else if self.confirm_mode {
            self.confirm_key(key)
        } else if self.input_mode {
            self.input_key(key)
        } else {
            self.plain_key(key)
        }
    }

    /// Notes that a refresh asked for with a key has finished.
    pub fn note_refreshed(&mut self)
        ensures
            final(self)@ == old(self)@.refreshed_by_key(),
    {
        self.status_line = String::from_str("Refreshed.");
    }

    /// A click at `col`, `row` with the panes at `rects`.
    pub fn click_panes(&mut self, col: u16, row: u16, rects: &Vec<Rect>)
        requires
            rects@.len() <= old(self).repo_output@.len(),
        ensures
            final(self)@ == old(self)@.click_panes(col, row, rects@),
    {
        proof {
            lemma_hit_index(rects@, col, row);
        }
        let mut i: usize = 0;
        while i < rects.len()
            invariant
                i <= rects.len(),
                rects@.len() <= self.repo_output@.len(),
                self@ == old(self)@,
                self.repo_output@.len() == old(self).repo_output@.len(),
                forall|j: int| 0 <= j < i ==> !hit(rects@[j], col, row),
            decreases rects.len() - i,
        {
            let r = rects[i];
            if col >= r.x && (col as u32) < (r.x as u32) + (r.width as u32) && row >= r.y
                && (row as u32) < (r.y as u32) + (r.height as u32) {
                proof {
                    lemma_hit_index(rects@, col, row);
                }
                if self.focused_pane == Some(i) {
                    self.open_pane_input(i);
                } else {
                    let mut line = String::new();
                    push_str(&mut line, "focused: ");
                    push_str(&mut line, self.repo_output[i].0.as_str());
                    push_str(&mut line, "  ·  Enter cmd  ·  Esc unfocus");
                    self.focused_pane = Some(i);
                    self.status_line = line;
                }
                return;
            }
            i += 1;
        }
        self.focused_pane = None;
    }

    /// A mouse click at `col`, `row` on a terminal of size `area`: outside
    /// the pull request list and with panes to click, the panes are laid
    /// out as the output grid draws them and [`App::click_panes`] decides
    /// over those rectangles, which are returned (none otherwise).
    pub fn handle_click(&mut self, col: u16, row: u16, area: Rect) -> (rects: Vec<Rect>)
        requires
            !old(self).pr_mode && old(self).repo_output@.len() > 0 ==> panes_fit(
                old(self).repo_output@.len(),
            ),
        ensures
            old(self)@.wf() ==> final(self)@.wf(),
            old(self).pr_mode || old(self).repo_output@.len() == 0 ==> final(self)@ == old(self)@
                && rects@.len() == 0,
            !old(self).pr_mode && old(self).repo_output@.len() > 0 ==> pane_layout(
                rects@,
                area,
                old(self).repo_output@.len(),
            ) && final(self)@ == old(self)@.click_panes(col, row, rects@),
    {
        if self.pr_mode || self.repo_output.len() == 0 {
            return Vec::new();
        }
        let rects = pane_rects(area, self.repo_output.len());
        self.click_panes(col, row, &rects);
        rects
    }

    /// Whether to read every repository's status again of itself: no
    /// command runs, automatic refresh is on, and more than 30 seconds
    /// passed since the last refresh.
    pub fn wants_auto_refresh(&self, elapsed_nanos: u128) -> (r: bool)
        ensures
            r == (!self.is_running && self.auto_refresh && elapsed_nanos > 30_000_000_000),
    {
        !self.is_running && self.auto_refresh && elapsed_nanos > 30_000_000_000
    }

    /// Advances the animation counter, wrapping around at its end.
    pub fn advance_tick(&mut self)
        ensures
            final(self)@ == (AppView {
                tick: if old(self).tick == u64::MAX {
                    0
                } else {
                    (old(self).tick + 1) as u64
                },
                ..old(self)@
            }),
    {
        self.tick = if self.tick == u64::MAX {
            0
        } else {
            self.tick + 1
        };
    }
}

} // verus!
