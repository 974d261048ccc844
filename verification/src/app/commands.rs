//! Starting commands: in the selected repository, in all of them, in a
//! chosen set; and discarding uncommitted changes.

use vstd::prelude::*;

use super::{count_string, count_text, pane_views, target_views, App, AppView, Launch, LaunchView, PaneView, launch_view};
use crate::engine::Target;
use crate::text::{copy_strings, join_strings, push_str, seq_join, string_views, strings_of};
use crate::types::RepoView;

verus! {

/// The pane label of a run: the repository's name when there is one target,
/// else how many repositories.
pub open spec fn run_label(targets: Seq<(Seq<char>, Seq<char>)>) -> Seq<char> {
    if targets.len() == 1 {
        targets[0].0
    } else {
        count_text(targets.len(), " repos"@)
    }
}

/// The status line while a command runs.
pub open spec fn run_status(program: Seq<char>, args: Seq<Seq<char>>, label: Seq<char>) -> Seq<char> {
    "⟳ "@ + program + " "@ + seq_join(args, " "@) + " → "@ + label + "..."@
}

/// A repository as the target of a command: labelled with its name, run in
/// its directory.
pub open spec fn repo_target(r: RepoView) -> (Seq<char>, Seq<char>) {
    (r.name, r.path)
}

/// Fresh, empty output panes, one per target.
pub open spec fn empty_panes(targets: Seq<(Seq<char>, Seq<char>)>) -> Seq<PaneView> {
    targets.map_values(|t: (Seq<char>, Seq<char>)| (t.0, Seq::<Seq<char>>::empty()))
}

/// The repositories with uncommitted or untracked changes.
pub open spec fn changed_repos(rs: Seq<RepoView>) -> Seq<RepoView>
    decreases rs.len(),
{
    if rs.len() == 0 {
        Seq::empty()
    } else {
        let c = changed_repos(rs.drop_last());
        let r = rs.last();
        if r.modified > 0 || r.staged > 0 || r.untracked > 0 {
            c.push(r)
        } else {
            c
        }
    }
}

/// The repositories whose changes are thrown away are exactly those with
/// any change, in order: a modified, a staged or an untracked file.  Every
/// repository (`all`), or the selected one.
pub proof fn law_discard_every_changed(s: AppView)
    requires
        s.wf(),
    ensures
        s.discard_candidates(true) == s.repos.filter(
            |r: RepoView| r.modified > 0 || r.staged > 0 || r.untracked > 0,
        ),
        s.repos.len() > 0 ==> s.discard_candidates(false) == seq![s.repos[s.current_index as int]].filter(
            |r: RepoView| r.modified > 0 || r.staged > 0 || r.untracked > 0,
        ),
        forall|all: bool|
            !s.is_running && #[trigger] s.discard_candidates(all).len() > 0 ==> s.discard_dirty(all)
                == (
                AppView {
                    focused_pane: None,
                    repo_output: s.discard_candidates(all).map_values(
                        |r: RepoView| (r.name, Seq::<Seq<char>>::empty()),
                    ),
                    status_line: s.discard_dirty(all).0.status_line,
                    is_running: true,
                    ..s
                },
                Some(
                    LaunchView {
                        targets: s.discard_candidates(all).map_values(|r: RepoView| (r.name, r.path)),
                        program: "sh"@,
                        args: seq!["-c"@, "git reset --hard HEAD && git clean -fd"@],
                    },
                ),
            ),
        forall|all: bool|
            !s.is_running && #[trigger] s.discard_candidates(all).len() == 0 ==> s.discard_dirty(all)
                == (
                AppView {
                    repo_output: seq![("gitp"@, seq!["✓ Nothing to discard — all repos clean."@])],
                    status_line: "Nothing to discard."@,
                    ..s
                },
                None::<LaunchView>,
            ),
{
    assert forall|all: bool| !s.is_running && #[trigger] s.discard_candidates(all).len() > 0 implies
        s.discard_dirty(all).0.repo_output == s.discard_candidates(all).map_values(
            |r: RepoView| (r.name, Seq::<Seq<char>>::empty()),
        ) && s.discard_dirty(all).1 == Some(
            LaunchView {
                targets: s.discard_candidates(all).map_values(|r: RepoView| (r.name, r.path)),
                program: "sh"@,
                args: seq!["-c"@, "git reset --hard HEAD && git clean -fd"@],
            },
        ) by {
        let c = s.discard_candidates(all);
        assert(empty_panes(c.map_values(|r: RepoView| repo_target(r))) =~= c.map_values(
            |r: RepoView| (r.name, Seq::<Seq<char>>::empty()),
        ));
        assert(c.map_values(|r: RepoView| repo_target(r)) =~= c.map_values(
            |r: RepoView| (r.name, r.path),
        ));
    }
    lemma_changed_repos(s.repos);
    if s.repos.len() > 0 {
        lemma_changed_repos(seq![s.repos[s.current_index as int]]);
    }
}

proof fn lemma_changed_repos(rs: Seq<RepoView>)
    ensures
        changed_repos(rs) == rs.filter(
            |r: RepoView| r.modified > 0 || r.staged > 0 || r.untracked > 0,
        ),
    decreases rs.len(),
{
    reveal(Seq::filter);
    if rs.len() > 0 {
        lemma_changed_repos(rs.drop_last());
    }
}

/// The command that throws away uncommitted changes and untracked files.
pub open spec fn discard_args() -> Seq<Seq<char>> {
    seq!["-c"@, "git reset --hard HEAD && git clean -fd"@]
}

impl AppView {
    /// Starts `program args` in `targets` unless a command is running or
    /// there is no target: fresh panes, no focus, and a status line naming
    /// the command and where it runs.
    pub open spec fn run_on(
        self,
        targets: Seq<(Seq<char>, Seq<char>)>,
        program: Seq<char>,
        args: Seq<Seq<char>>,
    ) -> (AppView, Option<LaunchView>) {
        if self.is_running || targets.len() == 0 {
            (self, None)
        } else {
            (
                AppView {
                    focused_pane: None,
                    repo_output: empty_panes(targets),
                    status_line: run_status(program, args, run_label(targets)),
                    is_running: true,
                    ..self
                },
                Some(LaunchView { targets, program, args }),
            )
        }
    }

    /// Starts `program args` in every repository (`all`) or in the
    /// selected one; with no repository to run in, says so in a pane.
    pub open spec fn run_cmd(self, program: Seq<char>, args: Seq<Seq<char>>, all: bool) -> (
        AppView,
        Option<LaunchView>,
    ) {
        if self.is_running {
            (self, None)
        } else if all {
            self.run_on(self.repos.map_values(|r: RepoView| repo_target(r)), program, args)
        } else if self.repos.len() > 0 {
            self.run_on(seq![repo_target(self.repos[self.current_index as int])], program, args)
        } else {
            (
                AppView {
                    repo_output: seq![("gitp"@, seq!["⚠ No repositories available"@])],
                    ..self
                },
                None,
            )
        }
    }

    /// The repositories whose changes would be thrown away: every changed
    /// one (`all`), or the selected one if it changed.
    pub open spec fn discard_candidates(self, all: bool) -> Seq<RepoView> {
        if all {
            changed_repos(self.repos)
        } else if self.repos.len() > 0 {
            changed_repos(seq![self.repos[self.current_index as int]])
        } else {
            Seq::empty()
        }
    }

    /// Throws away uncommitted changes and untracked files in every changed
    /// repository (`all`) or in the selected one if it changed; says so
    /// where nothing changed.
    pub open spec fn discard_dirty(self, all: bool) -> (AppView, Option<LaunchView>) {
        if self.is_running {
            (self, None)
        } else {
            let candidates = self.discard_candidates(all);
            if candidates.len() == 0 {
                (
                    AppView {
                        repo_output: seq![
                            ("gitp"@, seq!["✓ Nothing to discard — all repos clean."@]),
                        ],
                        status_line: "Nothing to discard."@,
                        ..self
                    },
                    None,
                )
            } else {
                self.run_on(
                    candidates.map_values(|r: RepoView| repo_target(r)),
                    "sh"@,
                    discard_args(),
                )
            }
        }
    }
}

/// A target for a repository.
fn target_of(name: &String, path: &String) -> (t: Target)
    ensures
        t.label@ == name@,
        t.workdir@ == path@,
{
    Target { label: name.clone(), workdir: path.clone() }
}

impl App {
    /// Starts `program args` in `targets` unless a command is running or
    /// there is no target; returns the command to start.
    pub fn run_on(&mut self, targets: Vec<Target>, program: &str, args: &Vec<String>) -> (l: Option<
        Launch,
    >)
        ensures
            (final(self)@, launch_view(l)) == old(self)@.run_on(
                target_views(targets@),
                program@,
                string_views(args@),
            ),
    {
        let ghost tv = target_views(targets@);
        if self.is_running || targets.len() == 0 {
            return None;
        }
        let ghost target = old(self)@.run_on(tv, program@, string_views(args@));
        let label = if targets.len() == 1 {
            targets[0].label.clone()
        } else {
            count_string(targets.len(), " repos")
        };
        let mut panes: Vec<(String, Vec<String>)> = Vec::new();
        let mut i: usize = 0;
        while i < targets.len()
            invariant
                i <= targets.len(),
                tv == target_views(targets@),
                pane_views(panes@) == empty_panes(tv).take(i as int),
            decreases targets.len() - i,
        {
            let ghost old_p = panes@;
            let empty: Vec<String> = Vec::new();
            assert(string_views(empty@) =~= Seq::<Seq<char>>::empty());
            panes.push((targets[i].label.clone(), empty));
            assert(pane_views(panes@) =~= pane_views(old_p).push((tv[i as int].0, Seq::empty())));
            assert(empty_panes(tv).take(i + 1) =~= empty_panes(tv).take(i as int).push(
                (tv[i as int].0, Seq::empty()),
            ));
            i += 1;
        }
        assert(empty_panes(tv).take(targets.len() as int) =~= empty_panes(tv));
        let mut status = String::new();
        push_str(&mut status, "⟳ ");
        push_str(&mut status, program);
        push_str(&mut status, " ");
        let joined = join_strings(args, " ");
        push_str(&mut status, joined.as_str());
        push_str(&mut status, " → ");
        push_str(&mut status, label.as_str());
        push_str(&mut status, "...");
        assert(status@ =~= run_status(program@, string_views(args@), run_label(tv)));
        self.focused_pane = None;
        self.repo_output = panes;
        self.status_line = status;
        self.is_running = true;
        assert(self@ == target.0);
        Some(Launch { targets, program: String::from_str(program), args: copy_strings(args) })
    }

    /// Starts `program args` in every repository (`all`) or in the selected
    /// one.
    pub fn run_cmd(&mut self, program: &str, args: &Vec<String>, all: bool) -> (l: Option<Launch>)
        requires
            old(self)@.wf(),
        ensures
            (final(self)@, launch_view(l)) == old(self)@.run_cmd(program@, string_views(args@), all),
    {
        if self.is_running {
            return None;
        }
        let ghost rv = self@.repos;
        let mut targets: Vec<Target> = Vec::new();
        if all {
            let mut i: usize = 0;
            while i < self.repos.len()
                invariant
                    i <= self.repos.len(),
                    rv == self@.repos,
                    target_views(targets@) == rv.map_values(|r: RepoView| repo_target(r)).take(
                        i as int,
                    ),
                decreases self.repos.len() - i,
            {
                let t = target_of(&self.repos[i].name, &self.repos[i].path);
                let ghost old_t = targets@;
                targets.push(t);
                assert(target_views(targets@) =~= target_views(old_t).push(repo_target(rv[i as int])));
                assert(rv.map_values(|r: RepoView| repo_target(r)).take(i + 1) =~= rv.map_values(
                    |r: RepoView| repo_target(r),
                ).take(i as int).push(repo_target(rv[i as int])));
                i += 1;
            }
            assert(rv.map_values(|r: RepoView| repo_target(r)).take(self.repos.len() as int)
                =~= rv.map_values(|r: RepoView| repo_target(r)));
        } else if self.repos.len() > 0 {
            let c = self.current_index;
            let t = target_of(&self.repos[c].name, &self.repos[c].path);
            targets.push(t);
            assert(target_views(targets@) =~= seq![repo_target(rv[c as int])]);
        } else {
            let mut lines: Vec<String> = Vec::new();
            lines.push(String::from_str("⚠ No repositories available"));
            assert(string_views(lines@) =~= seq!["⚠ No repositories available"@]);
            let mut out: Vec<(String, Vec<String>)> = Vec::new();
            out.push((String::from_str("gitp"), lines));
            assert(pane_views(out@) =~= seq![("gitp"@, seq!["⚠ No repositories available"@])]);
            self.repo_output = out;
            return None;
        }
        self.run_on(targets, program, args)
    }

    /// Starts `git args` in every repository (`all`) or in the selected one.
    pub fn run_git(&mut self, args: &Vec<String>, all: bool) -> (l: Option<Launch>)
        requires
            old(self)@.wf(),
        ensures
            (final(self)@, launch_view(l)) == old(self)@.run_cmd("git"@, string_views(args@), all),
    {
        self.run_cmd("git", args, all)
    }

    /// Targets for the repositories whose changes would be thrown away.
    fn discard_targets(&self, all: bool) -> (targets: Vec<Target>)
        requires
            self@.wf(),
        ensures
            target_views(targets@) == self@.discard_candidates(all).map_values(
                |r: RepoView| repo_target(r),
            ),
    {
        let ghost rv = self@.repos;
        let ghost cands = self@.discard_candidates(all);
        let mut targets: Vec<Target> = Vec::new();
        if all {
            let mut i: usize = 0;
            assert(rv.take(0) =~= Seq::<RepoView>::empty());
            while i < self.repos.len()
                invariant
                    i <= self.repos.len(),
                    rv == self@.repos,
                    target_views(targets@) == changed_repos(rv.take(i as int)).map_values(
                        |r: RepoView| repo_target(r),
                    ),
                decreases self.repos.len() - i,
            {
                let r = &self.repos[i];
                assert(rv.take(i + 1).drop_last() =~= rv.take(i as int));
                assert(rv.take(i + 1).last() == rv[i as int]);
                if r.modified > 0 || r.staged > 0 || r.untracked > 0 {
                    let t = target_of(&r.name, &r.path);
                    let ghost old_t = targets@;
                    targets.push(t);
                    assert(target_views(targets@) =~= target_views(old_t).push(
                        repo_target(rv[i as int]),
                    ));
                    assert(changed_repos(rv.take(i + 1)) == changed_repos(rv.take(i as int)).push(
                        rv[i as int],
                    ));
                    assert(changed_repos(rv.take(i + 1)).map_values(|r: RepoView| repo_target(r))
                        =~= changed_repos(rv.take(i as int)).map_values(
                        |r: RepoView| repo_target(r),
                    ).push(repo_target(rv[i as int])));
                }
                i += 1;
            }
            assert(rv.take(self.repos.len() as int) =~= rv);
        } else if self.repos.len() > 0 {
            let r = &self.repos[self.current_index];
            let ghost one = seq![rv[self.current_index as int]];
            assert(one.drop_last() =~= Seq::<RepoView>::empty());
            assert(one.last() == rv[self.current_index as int]);
            assert(rv[self.current_index as int] == self.repos@[self.current_index as int]@);
            assert(changed_repos(one.drop_last()) =~= Seq::<RepoView>::empty());
            assert(cands == changed_repos(one));
            if r.modified > 0 || r.staged > 0 || r.untracked > 0 {
                let t = target_of(&r.name, &r.path);
                targets.push(t);
                assert(cands =~= seq![rv[self.current_index as int]]);
                assert(target_views(targets@) =~= cands.map_values(|r: RepoView| repo_target(r)));
            } else {
                assert(target_views(targets@) =~= cands.map_values(|r: RepoView| repo_target(r)));
            }
        } else {
            assert(target_views(targets@) =~= cands.map_values(|r: RepoView| repo_target(r)));
        }
        targets
    }

    /// Throws away uncommitted changes and untracked files in every changed
    /// repository (`all`) or in the selected one.
    pub fn discard_dirty(&mut self, all: bool) -> (l: Option<Launch>)
        requires
            old(self)@.wf(),
        ensures
            (final(self)@, launch_view(l)) == old(self)@.discard_dirty(all),
    {
        if self.is_running {
            return None;
        }
        let ghost cands = self@.discard_candidates(all);
        let targets = self.discard_targets(all);
        assert(target_views(targets@).len() == cands.len());
        if targets.len() == 0 {
            let mut lines: Vec<String> = Vec::new();
            lines.push(String::from_str("✓ Nothing to discard — all repos clean."));
            assert(string_views(lines@) =~= seq!["✓ Nothing to discard — all repos clean."@]);
            let mut out: Vec<(String, Vec<String>)> = Vec::new();
            out.push((String::from_str("gitp"), lines));
            assert(pane_views(out@) =~= seq![
                ("gitp"@, seq!["✓ Nothing to discard — all repos clean."@]),
            ]);
            self.repo_output = out;
            self.status_line = String::from_str("Nothing to discard.");
            return None;
        }
        let args = strings_of(&["-c", "git reset --hard HEAD && git clean -fd"]);
        assert(string_views(args@) =~= discard_args());
        self.run_on(targets, "sh", &args)
    }
}

} // verus!
