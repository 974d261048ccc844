//! The dashboard's state and how every operation changes it.  Work that
//! leaves the process (running commands, asking GitHub, opening a browser)
//! is returned as an effect for the caller to carry out; what comes back is
//! handed in again.

use vstd::prelude::*;

use crate::engine::Target;
use crate::git::{read_statuses, refreshed_repos, repo_views, GitOutputs};
use crate::text::{decimal, push_decimal, push_str, string_views};
use crate::types::{AlertView, CiRun, CiRunView, GitRepo, PrItem, PrView, RepoView, SecurityAlert};

pub mod ci;
pub mod commands;
pub mod input;
pub mod pr;
pub mod security;


verus! {

/// The state of the dashboard.
pub struct App {
    pub base_path: String,
    pub repos: Vec<GitRepo>,
    pub current_index: usize,
    pub repo_output: Vec<(String, Vec<String>)>,
    pub status_line: String,
    pub auto_refresh: bool,
    pub is_running: bool,
    pub input_mode: bool,
    pub input_all: bool,
    pub input_target: Option<String>,
    pub input_buffer: String,
    pub confirm_mode: bool,
    pub confirm_all: bool,
    pub focused_pane: Option<usize>,
    pub tick: u64,
    pub show_help: bool,
    pub pr_mode: bool,
    pub pr_list: Vec<PrItem>,
    pub pr_filtered: Vec<PrItem>,
    pub pr_filter: String,
    pub pr_filter_mode: bool,
    pub pr_index: usize,
    pub ci_mode: bool,
    pub ci_list: Vec<CiRun>,
    pub ci_index: usize,
    pub security_mode: bool,
    pub alert_list: Vec<SecurityAlert>,
    pub alert_index: usize,
}

/// An output pane: its label and its lines.
pub type PaneView = (Seq<char>, Seq<Seq<char>>);

/// What an [`App`] holds, as plain values.
pub struct AppView {
    pub base_path: Seq<char>,
    pub repos: Seq<RepoView>,
    pub current_index: nat,
    pub repo_output: Seq<PaneView>,
    pub status_line: Seq<char>,
    pub auto_refresh: bool,
    pub is_running: bool,
    pub input_mode: bool,
    pub input_all: bool,
    pub input_target: Option<Seq<char>>,
    pub input_buffer: Seq<char>,
    pub confirm_mode: bool,
    pub confirm_all: bool,
    pub focused_pane: Option<nat>,
    pub tick: u64,
    pub show_help: bool,
    pub pr_mode: bool,
    pub pr_list: Seq<PrView>,
    pub pr_filtered: Seq<PrView>,
    pub pr_filter: Seq<char>,
    pub pr_filter_mode: bool,
    pub pr_index: nat,
    pub ci_mode: bool,
    pub ci_list: Seq<CiRunView>,
    pub ci_index: nat,
    pub security_mode: bool,
    pub alert_list: Seq<AlertView>,
    pub alert_index: nat,
}

/// The views of output panes.
pub open spec fn pane_views(v: Seq<(String, Vec<String>)>) -> Seq<PaneView> {
    v.map_values(|p: (String, Vec<String>)| (p.0@, string_views(p.1@)))
}

/// The views of CI runs.
pub open spec fn ci_views(v: Seq<CiRun>) -> Seq<CiRunView> {
    v.map_values(|r: CiRun| r@)
}

/// The views of pull requests.
pub open spec fn pr_views(v: Seq<PrItem>) -> Seq<PrView> {
    v.map_values(|r: PrItem| r@)
}

/// The views of security alerts.
pub open spec fn alert_views(v: Seq<SecurityAlert>) -> Seq<AlertView> {
    v.map_values(|r: SecurityAlert| r@)
}

/// The text of an optional string.
pub open spec fn opt_view(o: Option<String>) -> Option<Seq<char>> {
    match o {
        Some(s) => Some(s@),
        None => None,
    }
}

/// An optional index as a natural number.
pub open spec fn opt_nat(o: Option<usize>) -> Option<nat> {
    match o {
        Some(i) => Some(i as nat),
        None => None,
    }
}

impl View for App {
    type V = AppView;

    open spec fn view(&self) -> AppView {
        AppView {
            base_path: self.base_path@,
            repos: repo_views(self.repos@),
            current_index: self.current_index as nat,
            repo_output: pane_views(self.repo_output@),
            status_line: self.status_line@,
            auto_refresh: self.auto_refresh,
            is_running: self.is_running,
            input_mode: self.input_mode,
            input_all: self.input_all,
            input_target: opt_view(self.input_target),
            input_buffer: self.input_buffer@,
            confirm_mode: self.confirm_mode,
            confirm_all: self.confirm_all,
            focused_pane: opt_nat(self.focused_pane),
            tick: self.tick,
            show_help: self.show_help,
            pr_mode: self.pr_mode,
            pr_list: pr_views(self.pr_list@),
            pr_filtered: pr_views(self.pr_filtered@),
            pr_filter: self.pr_filter@,
            pr_filter_mode: self.pr_filter_mode,
            pr_index: self.pr_index as nat,
            ci_mode: self.ci_mode,
            ci_list: ci_views(self.ci_list@),
            ci_index: self.ci_index as nat,
            security_mode: self.security_mode,
            alert_list: alert_views(self.alert_list@),
            alert_index: self.alert_index as nat,
        }
    }
}

/// A command to run in some repositories, its output shown pane by pane.
pub struct Launch {
    pub targets: Vec<Target>,
    pub program: String,
    pub args: Vec<String>,
}

/// What a [`Launch`] holds: (label, working directory) per target, the
/// program and its arguments.
pub struct LaunchView {
    pub targets: Seq<(Seq<char>, Seq<char>)>,
    pub program: Seq<char>,
    pub args: Seq<Seq<char>>,
}

/// The views of targets.
pub open spec fn target_views(v: Seq<Target>) -> Seq<(Seq<char>, Seq<char>)> {
    v.map_values(|t: Target| (t.label@, t.workdir@))
}

impl View for Launch {
    type V = LaunchView;

    open spec fn view(&self) -> LaunchView {
        LaunchView {
            targets: target_views(self.targets@),
            program: self.program@,
            args: string_views(self.args@),
        }
    }
}

/// A process started and left to itself, such as a browser.
pub struct ProcessSpec {
    pub program: String,
    pub args: Vec<String>,
    pub dir: Option<String>,
}

/// What a [`ProcessSpec`] holds.
pub struct ProcessView {
    pub program: Seq<char>,
    pub args: Seq<Seq<char>>,
    pub dir: Option<Seq<char>>,
}

impl View for ProcessSpec {
    type V = ProcessView;

    open spec fn view(&self) -> ProcessView {
        ProcessView { program: self.program@, args: string_views(self.args@), dir: opt_view(self.dir) }
    }
}

/// The view of an optional launch.
pub open spec fn launch_view(l: Option<Launch>) -> Option<LaunchView> {
    match l {
        Some(x) => Some(x@),
        None => None,
    }
}

/// The view of an optional process.
pub open spec fn process_view(p: Option<ProcessSpec>) -> Option<ProcessView> {
    match p {
        Some(x) => Some(x@),
        None => None,
    }
}

/// `n` followed by `suffix`.
pub open spec fn count_text(n: nat, suffix: Seq<char>) -> Seq<char> {
    decimal(n) + suffix
}

/// A string holding `n` followed by `suffix`.
pub fn count_string(n: usize, suffix: &str) -> (s: String)
    ensures
        s@ == count_text(n as nat, suffix@),
{
    let mut s = String::new();
    push_decimal(&mut s, n as u64);
    push_str(&mut s, suffix);
    assert(Seq::<char>::empty() + decimal(n as nat) + suffix@ =~= count_text(n as nat, suffix@));
    s
}

/// The header of a repository's details: branch and path, the commits
/// ahead and behind upstream when there are any, the change counts when
/// anything changed, and a blank line.
pub open spec fn details_header(r: RepoView) -> Seq<Seq<char>> {
    let base = seq!["Branch : "@ + r.branch, "Path   : "@ + r.path];
    let sync = if r.ahead > 0 || r.behind > 0 {
        seq!["Sync   : ↑"@ + decimal(r.ahead) + " ↓"@ + decimal(r.behind)]
    } else {
        Seq::empty()
    };
    let changes = if r.modified + r.staged + r.untracked > 0 {
        seq![
            "Changes: +"@ + decimal(r.staged) + " ~"@ + decimal(r.modified) + " ?"@ + decimal(
                r.untracked,
            ),
        ]
    } else {
        Seq::empty()
    };
    base + sync + changes + seq![Seq::<char>::empty()]
}

/// A repository's details: the branch, then the path; then a sync line with
/// the commits ahead and behind exactly when it is ahead or behind (or
/// both); then a changes line with the staged, modified and untracked
/// counts exactly when anything changed; then a blank line.
pub proof fn law_details_lines(r: RepoView)
    ensures
        details_header(r).len() == 3 + (if r.ahead > 0 || r.behind > 0 {
            1int
        } else {
            0int
        }) + (if r.modified > 0 || r.staged > 0 || r.untracked > 0 {
            1int
        } else {
            0int
        }),
        details_header(r)[0] == "Branch : "@ + r.branch,
        details_header(r)[1] == "Path   : "@ + r.path,
        r.ahead > 0 || r.behind > 0 ==> details_header(r)[2] == "Sync   : ↑"@ + decimal(r.ahead)
            + " ↓"@ + decimal(r.behind),
        r.modified > 0 || r.staged > 0 || r.untracked > 0 ==> details_header(r)[details_header(
            r,
        ).len() - 2] == "Changes: +"@ + decimal(r.staged) + " ~"@ + decimal(r.modified) + " ?"@
            + decimal(r.untracked),
        details_header(r)[details_header(r).len() - 1] == Seq::<char>::empty(),
{
}

impl AppView {
    /// Shows the selected repository's details in one pane, then runs
    /// `git status -sb` there.
    pub open spec fn show_details(self) -> (AppView, Option<LaunchView>) {
        if self.repos.len() == 0 {
            (self, None)
        } else {
            let r = self.repos[self.current_index as int];
            AppView { repo_output: seq![(r.name, details_header(r))], ..self }.run_cmd(
                "git"@,
                seq!["status"@, "-sb"@],
                false,
            )
        }
    }

    /// The index of the selected repository is in range while there are
    /// repositories.
    pub open spec fn wf(self) -> bool {
        self.repos.len() > 0 ==> self.current_index < self.repos.len()
    }

    /// Selects the next repository, wrapping around after the last.
    pub open spec fn next(self) -> AppView {
        if self.repos.len() > 0 {
            AppView { current_index: ((self.current_index + 1) % self.repos.len()) as nat, ..self }
        } else {
            self
        }
    }

    /// Selects the previous repository, wrapping around before the first.
    pub open spec fn previous(self) -> AppView {
        if self.repos.len() > 0 {
            AppView {
                current_index: if self.current_index == 0 {
                    (self.repos.len() - 1) as nat
                } else {
                    (self.current_index - 1) as nat
                },
                ..self
            }
        } else {
            self
        }
    }

    /// Takes batches of command output, and notes the end of the command
    /// when it is `done`.
    pub open spec fn drained(self, batches: Seq<PaneView>, done: bool) -> AppView {
        let s = AppView { repo_output: merge_batches(self.repo_output, batches), ..self };
        if done {
            AppView { is_running: false, status_line: "Done."@, ..s }
        } else {
            s
        }
    }

    /// Takes the repositories after a refresh: the selection moves onto the
    /// last repository where it would be past the end, and the status line
    /// counts the repositories.
    pub open spec fn refreshed(self, repos: Seq<RepoView>) -> AppView {
        AppView {
            repos,
            current_index: if self.current_index >= repos.len() && repos.len() > 0 {
                (repos.len() - 1) as nat
            } else {
                self.current_index
            },
            status_line: count_text(repos.len(), " repos  ·  press h for help"@),
            ..self
        }
    }
}

/// Position of the first pane labelled `label`, or -1.
pub open spec fn pane_index(panes: Seq<PaneView>, label: Seq<char>) -> int
    decreases panes.len(),
{
    if panes.len() == 0 {
        -1
    } else {
        let i = pane_index(panes.drop_last(), label);
        if i >= 0 {
            i
        } else if panes.last().0 == label {
            panes.len() - 1
        } else {
            -1
        }
    }
}

proof fn lemma_pane_index(panes: Seq<PaneView>, label: Seq<char>)
    ensures
        -1 <= pane_index(panes, label) < panes.len(),
        pane_index(panes, label) >= 0 ==> panes[pane_index(panes, label)].0 == label,
        pane_index(panes, label) >= 0 ==> forall|j: int|
            0 <= j < pane_index(panes, label) ==> panes[j].0 != label,
        pane_index(panes, label) < 0 ==> forall|j: int| 0 <= j < panes.len() ==> panes[j].0 != label,
    decreases panes.len(),
{
    if panes.len() > 0 {
        let p = panes.drop_last();
        lemma_pane_index(p, label);
        assert forall|j: int| 0 <= j < p.len() implies p[j] == panes[j] by {}
    }
}

/// A batch of output joins the first pane with its label, or opens a new
/// pane at the end.
pub open spec fn merge_batch(panes: Seq<PaneView>, batch: PaneView) -> Seq<PaneView> {
    let i = pane_index(panes, batch.0);
    if i >= 0 {
        panes.update(i, (panes[i].0, panes[i].1 + batch.1))
    } else {
        panes.push(batch)
    }
}

/// Batches of output joined to the panes, in the order they arrived.
pub open spec fn merge_batches(panes: Seq<PaneView>, batches: Seq<PaneView>) -> Seq<PaneView>
    decreases batches.len(),
{
    if batches.len() == 0 {
        panes
    } else {
        merge_batch(merge_batches(panes, batches.drop_last()), batches.last())
    }
}

/// Output from a batch never leaves another pane: each pane keeps its label
/// and what it showed, and only the pane with the batch's label grows.
pub proof fn law_merge_keeps_panes(panes: Seq<PaneView>, batch: PaneView)
    ensures
        merge_batch(panes, batch).len() >= panes.len(),
        forall|j: int|
            0 <= j < panes.len() ==> (#[trigger] merge_batch(panes, batch)[j]).0 == panes[j].0
                && panes[j].1.is_prefix_of(merge_batch(panes, batch)[j].1),
        forall|j: int|
            0 <= j < panes.len() && panes[j].0 != batch.0 ==> #[trigger] merge_batch(panes, batch)[j]
                == panes[j],
{
    lemma_pane_index(panes, batch.0);
    let i = pane_index(panes, batch.0);
    let m = merge_batch(panes, batch);
    assert forall|j: int| 0 <= j < panes.len() implies (#[trigger] m[j]).0 == panes[j].0
        && panes[j].1.is_prefix_of(m[j].1) by {
        if j == i {
            assert(m[j].1 == panes[j].1 + batch.1);
            assert(panes[j].1.is_prefix_of(panes[j].1 + batch.1)) by {
                assert((panes[j].1 + batch.1).subrange(0, panes[j].1.len() as int) =~= panes[j].1);
            }
        } else {
            assert(m[j] == panes[j]);
            assert(panes[j].1.subrange(0, panes[j].1.len() as int) =~= panes[j].1);
        }
    }
}

/// Position of the first pane labelled `label`.
fn find_pane(panes: &Vec<(String, Vec<String>)>, label: &String) -> (r: Option<usize>)
    ensures
        match r {
            Some(i) => i as int == pane_index(pane_views(panes@), label@),
            None => pane_index(pane_views(panes@), label@) == -1,
        },
{
    let ghost pv = pane_views(panes@);
    proof {
        lemma_pane_index(pv, label@);
    }
    let mut i: usize = 0;
    while i < panes.len()
        invariant
            i <= panes.len(),
            pv == pane_views(panes@),
            forall|j: int| 0 <= j < i ==> pv[j].0 != label@,
        decreases panes.len() - i,
    {
        if crate::text::same_text(panes[i].0.as_str(), label.as_str()) {
            assert(pv[i as int].0 == label@);
            proof {
                lemma_pane_index(pv, label@);
            }
            return Some(i);
        }
        i += 1;
    }
    None
}

/// The panes after batches of output joined them.
pub fn merge_output(panes: Vec<(String, Vec<String>)>, batches: Vec<(String, Vec<String>)>) -> (r:
    Vec<(String, Vec<String>)>)
    ensures
        pane_views(r@) == merge_batches(pane_views(panes@), pane_views(batches@)),
{
    let ghost bs = pane_views(batches@);
    let ghost start = pane_views(panes@);
    let mut out = panes;
    let mut rest = batches;
    let n = rest.len();
    let mut k: usize = 0;
    assert(bs.take(0) =~= Seq::<PaneView>::empty());
    while k < n
        invariant
            k <= n == bs.len(),
            rest@.len() == n - k,
            pane_views(rest@) == bs.skip(k as int),
            pane_views(out@) == merge_batches(start, bs.take(k as int)),
        decreases n - k,
    {
        let ghost old_rest = rest@;
        let (label, mut lines) = rest.remove(0);
        let ghost b = (label@, string_views(lines@));
        assert(rest@ == old_rest.remove(0));
        assert(b == pane_views(old_rest)[0]);
        assert forall|j: int| 0 <= j < rest@.len() implies pane_views(rest@)[j] == bs.skip(
            k + 1,
        )[j] by {
            assert(rest@[j] == old_rest[j + 1]);
            assert(pane_views(old_rest)[j + 1] == bs.skip(k as int)[j + 1]);
        }
        assert(pane_views(rest@) =~= bs.skip(k + 1));
        assert(bs.take(k + 1).drop_last() =~= bs.take(k as int));
        assert(bs.take(k + 1).last() == b);
        let ghost before = pane_views(out@);
        proof {
            lemma_pane_index(before, label@);
        }
        match find_pane(&out, &label) {
            Some(i) => {
                let ghost old_out = out@;
                let mut pane = out.remove(i);
                let ghost pv = (pane.0@, string_views(pane.1@));
                assert(pv == before[i as int]);
                let ghost more = string_views(lines@);
                pane.1.append(&mut lines);
                assert(string_views(pane.1@) =~= pv.1 + more);
                out.insert(i, pane);
                assert(out@ =~= old_out.update(i as int, pane));
                assert(pane_views(out@) =~= before.update(i as int, (pv.0, pv.1 + more)));
            },
            None => {
                out.push((label, lines));
                assert(pane_views(out@) =~= before.push(b));
            },
        }
        k += 1;
    }
    assert(bs.take(n as int) =~= bs);
    out
}

/// Moving to the next repository and back, or back and then on, returns to
/// the repository one started from.
pub proof fn law_next_previous_roundtrip(s: AppView)
    requires
        s.wf(),
    ensures
        s.next().previous() == s,
        s.previous().next() == s,
        s.next().wf(),
        s.previous().wf(),
{
    if s.repos.len() > 0 {
        let n = s.repos.len();
        let i = s.current_index;
        if i + 1 < n {
            assert((i + 1) % n == i + 1) by (nonlinear_arith)
                requires
                    i + 1 < n,
            ;
        } else {
            assert((i + 1) % n == 0) by (nonlinear_arith)
                requires
                    i + 1 == n,
                    n > 0,
            ;
        }
        if i > 0 {
            assert(i % n == i) by (nonlinear_arith)
                requires
                    i < n,
            ;
        } else {
            assert(n % n == 0) by (nonlinear_arith)
                requires
                    n > 0,
            ;
        }
    }
}

fn labelled(label: &str, value: &String) -> (s: String)
    ensures
        s@ == label@ + value@,
{
    let mut s = String::new();
    push_str(&mut s, label);
    push_str(&mut s, value.as_str());
    assert(Seq::<char>::empty() + label@ + value@ =~= label@ + value@);
    s
}

/// The header lines of a repository's details.
pub fn details_lines(r: &GitRepo) -> (lines: Vec<String>)
    ensures
        string_views(lines@) == details_header(r@),
{
    let mut lines: Vec<String> = Vec::new();
    lines.push(labelled("Branch : ", &r.branch));
    lines.push(labelled("Path   : ", &r.path));
    let ghost base = seq!["Branch : "@ + r.branch@, "Path   : "@ + r.path@];
    assert(string_views(lines@) =~= base);
    let ghost sync: Seq<Seq<char>> = Seq::empty();
    if r.ahead > 0 || r.behind > 0 {
        let mut s = String::new();
        push_str(&mut s, "Sync   : ↑");
        push_decimal(&mut s, r.ahead as u64);
        push_str(&mut s, " ↓");
        push_decimal(&mut s, r.behind as u64);
        proof {
            sync = seq![s@];
        }
        assert(s@ =~= "Sync   : ↑"@ + decimal(r.ahead as nat) + " ↓"@ + decimal(r.behind as nat));
        let ghost old_l = lines@;
        lines.push(s);
        assert(string_views(lines@) =~= string_views(old_l).push(s@));
    }
    assert(string_views(lines@) =~= base + sync);
    let ghost changes: Seq<Seq<char>> = Seq::empty();
    if r.modified > 0 || r.staged > 0 || r.untracked > 0 {
        let mut s = String::new();
        push_str(&mut s, "Changes: +");
        push_decimal(&mut s, r.staged as u64);
        push_str(&mut s, " ~");
        push_decimal(&mut s, r.modified as u64);
        push_str(&mut s, " ?");
        push_decimal(&mut s, r.untracked as u64);
        proof {
            changes = seq![s@];
        }
        assert(s@ =~= "Changes: +"@ + decimal(r.staged as nat) + " ~"@ + decimal(r.modified as nat)
            + " ?"@ + decimal(r.untracked as nat));
        let ghost old_l = lines@;
        lines.push(s);
        assert(string_views(lines@) =~= string_views(old_l).push(s@));
    }
    assert(string_views(lines@) =~= base + sync + changes);
    let ghost old_l = lines@;
    lines.push(String::new());
    assert(string_views(lines@) =~= string_views(old_l).push(Seq::<char>::empty()));
    assert(string_views(lines@) =~= details_header(r@));
    lines
}

impl App {
    /// A dashboard over `repos` found in `base_path`, titled with the
    /// directory's name (`dir_name`, where it has one that is valid Unicode,
    /// else the whole path).
    pub fn new(base_path: &str, dir_name: Option<String>, repos: Vec<GitRepo>) -> (app: App)
        ensures
            app@ == (AppView {
                base_path: match dir_name {
                    Some(n) => n@,
                    None => base_path@,
                },
                repos: repo_views(repos@),
                current_index: 0,
                repo_output: Seq::empty(),
                status_line: "Loading..."@,
                auto_refresh: true,
                is_running: false,
                input_mode: false,
                input_all: false,
                input_target: None,
                input_buffer: Seq::empty(),
                confirm_mode: false,
                confirm_all: false,
                focused_pane: None,
                tick: 0,
                show_help: false,
                pr_mode: false,
                pr_list: Seq::empty(),
                pr_filtered: Seq::empty(),
                pr_filter: Seq::empty(),
                pr_filter_mode: false,
                pr_index: 0,
                ci_mode: false,
                ci_list: Seq::empty(),
                ci_index: 0,
                security_mode: false,
                alert_list: Seq::empty(),
                alert_index: 0,
            }),
            app@.wf(),
    {
        let name = match dir_name {
            Some(n) => n,
            None => String::from_str(base_path),
        };
        let app = App {
            base_path: name,
            repos,
            current_index: 0,
            repo_output: Vec::new(),
            status_line: String::from_str("Loading..."),
            auto_refresh: true,
            is_running: false,
            input_mode: false,
            input_all: false,
            input_target: None,
            input_buffer: String::new(),
            confirm_mode: false,
            confirm_all: false,
            focused_pane: None,
            tick: 0,
            show_help: false,
            pr_mode: false,
            pr_list: Vec::new(),
            pr_filtered: Vec::new(),
            pr_filter: String::new(),
            pr_filter_mode: false,
            pr_index: 0,
            ci_mode: false,
            ci_list: Vec::new(),
            ci_index: 0,
            security_mode: false,
            alert_list: Vec::new(),
            alert_index: 0,
        };
        assert(pane_views(app.repo_output@) =~= Seq::empty());
        assert(pr_views(app.pr_list@) =~= Seq::empty());
        assert(pr_views(app.pr_filtered@) =~= Seq::empty());
        assert(ci_views(app.ci_list@) =~= Seq::empty());
        assert(alert_views(app.alert_list@) =~= Seq::empty());
        app
    }

    /// Selects the next repository, wrapping around after the last.
    pub fn next(&mut self)
        requires
            old(self)@.wf(),
        ensures
            final(self)@ == old(self)@.next(),
    {
        if self.repos.len() > 0 {
            self.current_index = (self.current_index + 1) % self.repos.len();
        }
    }

    /// Selects the previous repository, wrapping around before the first.
    pub fn previous(&mut self)
        requires
            old(self)@.wf(),
        ensures
            final(self)@ == old(self)@.previous(),
    {
        if self.repos.len() > 0 {
            self.current_index = if self.current_index == 0 {
                self.repos.len() - 1
            } else {
                self.current_index - 1
            };
        }
    }

    /// Takes the batches of command output that arrived, each the lines of
    /// one repository, and, when the command has `done` in every repository,
    /// marks it finished.  Returns `done`.
    pub fn drain(&mut self, batches: Vec<(String, Vec<String>)>, done: bool) -> (r: bool)
        ensures
            r == done,
            final(self)@ == old(self)@.drained(pane_views(batches@), done),
    {
        let ghost target = old(self)@.drained(pane_views(batches@), done);
        let mut panes: Vec<(String, Vec<String>)> = Vec::new();
        std::mem::swap(&mut panes, &mut self.repo_output);
        let merged = merge_output(panes, batches);
        self.repo_output = merged;
        if done {
            self.is_running = false;
            self.status_line = String::from_str("Done.");
        }
        assert(self@ == target);
        done
    }

    /// Shows the selected repository's details and starts `git status -sb`
    /// there.
    pub fn show_details(&mut self) -> (l: Option<Launch>)
        requires
            old(self)@.wf(),
        ensures
            (final(self)@, launch_view(l)) == old(self)@.show_details(),
    {
        if self.repos.len() == 0 {
            return None;
        }
        let header = details_lines(&self.repos[self.current_index]);
        let name = self.repos[self.current_index].name.clone();
        let mut out: Vec<(String, Vec<String>)> = Vec::new();
        out.push((name, header));
        let ghost r = self@.repos[self.current_index as int];
        assert(pane_views(out@) =~= seq![(r.name, details_header(r))]);
        self.repo_output = out;
        let args = crate::text::strings_of(&["status", "-sb"]);
        assert(string_views(args@) =~= seq!["status"@, "-sb"@]);
        self.run_cmd("git", &args, false)
    }

    /// Takes the repositories whose status was just read.
    pub fn refresh(&mut self, repos: Vec<GitRepo>)
        ensures
            final(self)@ == old(self)@.refreshed(repo_views(repos@)),
            final(self)@.wf(),
    {
        let ghost target = old(self)@.refreshed(repo_views(repos@));
        let n = repos.len();
        let idx = if self.current_index >= n && n > 0 {
            n - 1
        } else {
            self.current_index
        };
        let line = count_string(n, " repos  ·  press h for help");
        self.repos = repos;
        self.current_index = idx;
        self.status_line = line;
        assert(self@ == target);
    }

    /// Refreshes every repository from the outputs of its git commands
    /// (`outs[i]` for the `i`-th repository, `None` where reading them
    /// failed): each repository with readable outputs gets its status read
    /// from them, in order, the others are left out; then the selection is
    /// clamped and the status line counts the repositories.
    pub fn refresh_with(&mut self, outs: Vec<Option<GitOutputs>>)
        requires
            old(self).repos.len() == outs.len(),
        ensures
            final(self)@ == old(self)@.refreshed(refreshed_repos(old(self)@.repos, outs@)),
            final(self)@.wf(),
    {
        let mut repos: Vec<GitRepo> = Vec::new();
        std::mem::swap(&mut repos, &mut self.repos);
        let updated = read_statuses(repos, outs);
        self.refresh(updated);
    }
}

} // verus!
