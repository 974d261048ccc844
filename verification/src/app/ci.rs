//! CI runs: asking for the latest run of every workflow, listing what comes
//! back, and acting on the selected run.

use vstd::prelude::*;

use super::{
    ci_views, count_string, count_text, launch_view, process_view, App, AppView, Launch,
    LaunchView, ProcessSpec, ProcessView,
};
use crate::engine::Target;
use crate::git::repo_views;
use crate::order::{is_stable_sort, stable_sort};
use crate::text::{decimal, push_decimal, string_views};
use crate::types::{CiRun, GitRepo, RepoView};

verus! {

impl AppView {
    /// The repositories a query covers: all of them (`all`), or the selected
    /// one; none without repositories.
    pub open spec fn selection(self, all: bool) -> Option<Seq<RepoView>> {
        if all {
            Some(self.repos)
        } else if self.repos.len() > 0 {
            Some(seq![self.repos[self.current_index as int]])
        } else {
            None
        }
    }

    /// Opens the CI list, empty until runs arrive, for the repositories
    /// returned.
    pub open spec fn fetch_runs(self, all: bool) -> (AppView, Option<Seq<RepoView>>) {
        match self.selection(all) {
            None => (self, None),
            Some(rs) => (
                AppView {
                    ci_list: Seq::empty(),
                    ci_index: 0,
                    ci_mode: true,
                    status_line: "⟳ fetching CI runs..."@,
                    ..self
                },
                Some(rs),
            ),
        }
    }

    /// The status line once every CI query has answered.
    pub open spec fn ci_done_status(n: nat) -> Seq<char> {
        if n == 0 {
            "No CI runs found."@
        } else {
            count_text(n, " run(s)  ·  Enter open  ·  l details  ·  R re-run  ·  Esc close"@)
        }
    }

    /// The browser view of the selected run.
    pub open spec fn ci_web(self) -> Option<ProcessView> {
        if self.ci_index < self.ci_list.len() {
            let r = self.ci_list[self.ci_index as int];
            Some(
                ProcessView {
                    program: "gh"@,
                    args: seq!["run"@, "view"@, decimal(r.id as nat), "--web"@],
                    dir: Some(r.repo_path),
                },
            )
        } else {
            None
        }
    }

    /// Starting the selected run again.
    pub open spec fn ci_again(self) -> Option<ProcessView> {
        if self.ci_index < self.ci_list.len() {
            let r = self.ci_list[self.ci_index as int];
            Some(
                ProcessView {
                    program: "gh"@,
                    args: seq!["run"@, "rerun"@, decimal(r.id as nat)],
                    dir: Some(r.repo_path),
                },
            )
        } else {
            None
        }
    }

    /// Closes the CI list and shows the selected run's details in a pane.
    pub open spec fn ci_show_logs(self) -> (AppView, Option<LaunchView>) {
        if self.ci_index < self.ci_list.len() {
            let r = self.ci_list[self.ci_index as int];
            AppView { ci_mode: false, ..self }.run_on(
                seq![(r.workflow, r.repo_path)],
                "gh"@,
                seq!["run"@, "view"@, decimal(r.id as nat)],
            )
        } else {
            (self, None)
        }
    }
}

/// The views of an optional list of repositories.
pub open spec fn repos_view(o: Option<Vec<GitRepo>>) -> Option<Seq<RepoView>> {
    match o {
        Some(v) => Some(repo_views(v@)),
        None => None,
    }
}

/// The decimal text of `n`.
fn decimal_string(n: u64) -> (s: String)
    ensures
        s@ == decimal(n as nat),
{
    let mut s = String::new();
    push_decimal(&mut s, n);
    assert(Seq::<char>::empty() + decimal(n as nat) =~= decimal(n as nat));
    s
}

/// The runs listed after `received` arrived: all of them ordered by rank
/// where any arrived.
fn merge_runs(list: Vec<CiRun>, received: Vec<CiRun>) -> (r: Vec<CiRun>)
    ensures
        received@.len() > 0 ==> is_stable_sort(r@, list@ + received@),
        received@.len() == 0 ==> r@ == list@,
        r@.len() == list@.len() + received@.len(),
{
    if received.len() == 0 {
        return list;
    }
    let ghost all = list@ + received@;
    let mut l = list;
    let mut more = received;
    l.append(&mut more);
    assert(l@ == all);
    stable_sort(l)
}

impl App {
    /// Copies of the repositories a query covers.
    pub fn selected_repos(&self, all: bool) -> (r: Option<Vec<GitRepo>>)
        requires
            self@.wf(),
        ensures
            repos_view(r) == self@.selection(all),
    {
        if all {
            let mut v: Vec<GitRepo> = Vec::new();
            let mut i: usize = 0;
            while i < self.repos.len()
                invariant
                    i <= self.repos.len(),
                    repo_views(v@) == repo_views(self.repos@).take(i as int),
                decreases self.repos.len() - i,
            {
                let ghost old_v = v@;
                v.push(self.repos[i].duplicate());
                assert(repo_views(v@) =~= repo_views(old_v).push(self.repos@[i as int]@));
                assert(repo_views(self.repos@).take(i + 1) =~= repo_views(self.repos@).take(
                    i as int,
                ).push(self.repos@[i as int]@));
                i += 1;
            }
            assert(repo_views(self.repos@).take(self.repos.len() as int) =~= repo_views(
                self.repos@,
            ));
            Some(v)
        } else if self.repos.len() > 0 {
            let mut v: Vec<GitRepo> = Vec::new();
            v.push(self.repos[self.current_index].duplicate());
            assert(repo_views(v@) =~= seq![self@.repos[self.current_index as int]]);
            Some(v)
        } else {
            None
        }
    }

    /// Opens the CI list and returns the repositories whose workflows to
    /// ask about.
    pub fn fetch_runs(&mut self, all: bool) -> (r: Option<Vec<GitRepo>>)
        requires
            old(self)@.wf(),
        ensures
            (final(self)@, repos_view(r)) == old(self)@.fetch_runs(all),
    {
        let repos = self.selected_repos(all);
        if repos.is_none() {
            return None;
        }
        let ghost target = old(self)@.fetch_runs(all).0;
        self.ci_list = Vec::new();
        self.ci_index = 0;
        self.ci_mode = true;
        self.status_line = String::from_str("⟳ fetching CI runs...");
        assert(ci_views(self.ci_list@) =~= Seq::empty());
        assert(self@ == target);
        repos
    }

    /// Takes the CI runs that arrived, keeping the list ordered by rank
    /// (running, queued, failed, succeeded, other; arrival order among
    /// equals), and, when every query has answered (`done`), reports how
    /// many runs there are.  Returns `done`.
    pub fn drain_ci(&mut self, received: Vec<CiRun>, done: bool) -> (r: bool)
        ensures
            r == done,
            received@.len() > 0 ==> is_stable_sort(final(self).ci_list@, old(self).ci_list@ + received@),
            received@.len() == 0 ==> final(self).ci_list@ == old(self).ci_list@,
            final(self)@ == (AppView {
                ci_list: final(self)@.ci_list,
                is_running: if done {
                    false
                } else {
                    old(self)@.is_running
                },
                status_line: if done {
                    AppView::ci_done_status(final(self)@.ci_list.len())
                } else {
                    old(self)@.status_line
                },
                ..old(self)@
            }),
    {
        let ghost old_v = old(self)@;
        let mut list: Vec<CiRun> = Vec::new();
        std::mem::swap(&mut list, &mut self.ci_list);
        let merged = merge_runs(list, received);
        let n = merged.len();
        self.ci_list = merged;
        if done {
            let line = if n == 0 {
                String::from_str("No CI runs found.")
            } else {
                count_string(n, " run(s)  ·  Enter open  ·  l details  ·  R re-run  ·  Esc close")
            };
            self.is_running = false;
            self.status_line = line;
        }
        done
    }

    /// Opens the selected run in the browser.
    pub fn ci_open_web(&self) -> (p: Option<ProcessSpec>)
        ensures
            process_view(p) == self@.ci_web(),
    {
        if self.ci_index < self.ci_list.len() {
            let run = &self.ci_list[self.ci_index];
            let mut args: Vec<String> = Vec::new();
            args.push(String::from_str("run"));
            args.push(String::from_str("view"));
            args.push(decimal_string(run.id));
            args.push(String::from_str("--web"));
            assert(string_views(args@) =~= seq!["run"@, "view"@, decimal(run.id as nat), "--web"@]);
            Some(
                ProcessSpec {
                    program: String::from_str("gh"),
                    args,
                    dir: Some(run.repo_path.clone()),
                },
            )
        } else {
            None
        }
    }

    /// Starts the selected run again.
    pub fn ci_rerun(&self) -> (p: Option<ProcessSpec>)
        ensures
            process_view(p) == self@.ci_again(),
    {
        if self.ci_index < self.ci_list.len() {
            let run = &self.ci_list[self.ci_index];
            let mut args: Vec<String> = Vec::new();
            args.push(String::from_str("run"));
            args.push(String::from_str("rerun"));
            args.push(decimal_string(run.id));
            assert(string_views(args@) =~= seq!["run"@, "rerun"@, decimal(run.id as nat)]);
            Some(
                ProcessSpec {
                    program: String::from_str("gh"),
                    args,
                    dir: Some(run.repo_path.clone()),
                },
            )
        } else {
            None
        }
    }

    /// Closes the CI list and shows the selected run's details.
    pub fn ci_show_logs(&mut self) -> (l: Option<Launch>)
        ensures
            (final(self)@, launch_view(l)) == old(self)@.ci_show_logs(),
    {
        if self.ci_index >= self.ci_list.len() {
            return None;
        }
        let run = &self.ci_list[self.ci_index];
        let id = decimal_string(run.id);
        let target = Target { label: run.workflow.clone(), workdir: run.repo_path.clone() };
        let mut targets: Vec<Target> = Vec::new();
        targets.push(target);
        let mut args: Vec<String> = Vec::new();
        args.push(String::from_str("run"));
        args.push(String::from_str("view"));
        args.push(id);
        let ghost r = self@.ci_list[self.ci_index as int];
        assert(string_views(args@) =~= seq!["run"@, "view"@, decimal(r.id as nat)]);
        assert(crate::app::target_views(targets@) =~= seq![(r.workflow, r.repo_path)]);
        self.ci_mode = false;
        self.run_on(targets, "gh", &args)
    }
}

} // verus!
