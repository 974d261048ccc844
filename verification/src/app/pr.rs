//! Pull requests: asking for the open ones, filtering them by author,
//! ordering them newest first, and acting on the selected one.

use vstd::prelude::*;

use super::ci::repos_view;
use super::{count_string, count_text, launch_view, pr_views, process_view, App, AppView, Launch, LaunchView, ProcessSpec, ProcessView};
use crate::engine::Target;
use crate::order::{is_stable_sort, lemma_lex_total, lemma_lex_trans, lex_le, stable_sort, str_le, Ranked};
use crate::text::{has_infix, str_contains, string_views};
use crate::types::{GitRepo, PrItem, PrView, RepoView};

verus! {

/// Lower case of a text as `str::to_lowercase` gives it: Unicode's lower
/// case mapping, character by character, with the final-sigma rule.
pub uninterp spec fn lowercase(s: Seq<char>) -> Seq<char>;

/// The lower case of `s` (`str::to_lowercase`), as [`lowercase`] names it.
#[verifier::external_body]
fn to_lowercase(s: &str) -> (r: String)
    ensures
        r@ == lowercase(s@),
{
    s.to_lowercase()
}

impl Ranked for PrItem {
    /// Newest first: `self` comes no later than `other` when it was created
    /// no earlier.
    open spec fn rank_le(&self, other: &Self) -> bool {
        lex_le(other.created_at@, self.created_at@)
    }

    proof fn rank_total(a: &Self, b: &Self) {
        lemma_lex_total(a.created_at@, b.created_at@);
    }

    proof fn rank_trans(a: &Self, b: &Self, c: &Self) {
        lemma_lex_trans(c.created_at@, b.created_at@, a.created_at@);
    }

    fn le(&self, other: &Self) -> (r: bool) {
        str_le(other.created_at.as_str(), self.created_at.as_str())
    }
}

/// Whether a pull request passes the author filter `f` (already in lower
/// case): an empty filter passes all, else the author's lower-cased login
/// must contain it.
pub open spec fn author_matches(f: Seq<char>, pr: PrView) -> bool {
    f.len() == 0 || has_infix(lowercase(pr.author), f)
}

/// The pull requests of `prs` that pass the filter `f`, in order.
pub open spec fn matching_prs(f: Seq<char>, prs: Seq<PrView>) -> Seq<PrView>
    decreases prs.len(),
{
    if prs.len() == 0 {
        Seq::empty()
    } else {
        let m = matching_prs(f, prs.drop_last());
        if author_matches(f, prs.last()) {
            m.push(prs.last())
        } else {
            m
        }
    }
}

/// The author filter keeps, in order, exactly the pull requests whose
/// lower-cased author login holds the (lower-cased) filter `f` somewhere,
/// at any position; an empty filter keeps them all.
pub proof fn law_author_filter(f: Seq<char>, prs: Seq<PrView>)
    ensures
        matching_prs(f, prs) == prs.filter(
            |p: PrView|
                f.len() == 0 || exists|i: int|
                    0 <= i && i + f.len() <= lowercase(p.author).len() && #[trigger] lowercase(
                        p.author,
                    ).subrange(i, i + f.len()) == f,
        ),
    decreases prs.len(),
{
    reveal(Seq::filter);
    if prs.len() > 0 {
        law_author_filter(f, prs.drop_last());
        let p = prs.last();
        let a = lowercase(p.author);
        if f.len() > 0 && has_infix(a, f) {
            let i = choose|i: int| crate::text::occurs_at(a, f, i);
            assert(0 <= i && i + f.len() <= a.len() && a.subrange(i, i + f.len()) == f);
        }
        if f.len() > 0 && (exists|i: int|
            0 <= i && i + f.len() <= a.len() && #[trigger] a.subrange(i, i + f.len()) == f) {
            let i = choose|i: int|
                0 <= i && i + f.len() <= a.len() && #[trigger] a.subrange(i, i + f.len()) == f;
            assert(crate::text::occurs_at(a, f, i));
        }
    }
}

/// `shown` is what the list shows of `list` under the author filter
/// `filter`: the matching pull requests, newest first, and among those
/// created at the same time in their order in `list`.
pub open spec fn filtered_view(shown: Seq<PrItem>, list: Seq<PrView>, filter: Seq<char>) -> bool {
    exists|c: Seq<PrItem>|
        pr_views(c) == matching_prs(lowercase(filter), list) && is_stable_sort(shown, c)
}

/// Position of the first repository named `name`, or -1.
pub open spec fn repo_index(rs: Seq<RepoView>, name: Seq<char>) -> int
    decreases rs.len(),
{
    if rs.len() == 0 {
        -1
    } else {
        let i = repo_index(rs.drop_last(), name);
        if i >= 0 {
            i
        } else if rs.last().name == name {
            rs.len() - 1
        } else {
            -1
        }
    }
}

pub(crate) proof fn lemma_repo_index(rs: Seq<RepoView>, name: Seq<char>)
    ensures
        -1 <= repo_index(rs, name) < rs.len(),
        repo_index(rs, name) >= 0 ==> rs[repo_index(rs, name)].name == name,
        repo_index(rs, name) >= 0 ==> forall|j: int|
            0 <= j < repo_index(rs, name) ==> rs[j].name != name,
        repo_index(rs, name) < 0 ==> forall|j: int| 0 <= j < rs.len() ==> rs[j].name != name,
    decreases rs.len(),
{
    if rs.len() > 0 {
        let p = rs.drop_last();
        lemma_repo_index(p, name);
        assert forall|j: int| 0 <= j < p.len() implies p[j] == rs[j] by {}
    }
}

impl AppView {
    /// Opens the pull request list, empty until pull requests arrive, for
    /// the repositories returned.
    pub open spec fn fetch_prs(self, all: bool) -> (AppView, Option<Seq<RepoView>>) {
        match self.selection(all) {
            None => (self, None),
            Some(rs) => (
                AppView {
                    pr_list: Seq::empty(),
                    pr_filtered: Seq::empty(),
                    pr_filter: Seq::empty(),
                    pr_filter_mode: false,
                    pr_index: 0,
                    pr_mode: true,
                    status_line: "⟳ fetching PRs..."@,
                    ..self
                },
                Some(rs),
            ),
        }
    }

    /// The status line once every pull request query has answered.
    pub open spec fn pr_done_status(n: nat) -> Seq<char> {
        if n == 0 {
            "No open PRs found."@
        } else {
            count_text(
                n,
                " open PR(s)  ·  Enter/o open  ·  c checkout  ·  / filter by author  ·  Esc close"@,
            )
        }
    }

    /// The browser view of the selected pull request.
    pub open spec fn pr_web(self) -> Option<ProcessView> {
        if self.pr_index < self.pr_filtered.len() {
            Some(
                ProcessView {
                    program: "open"@,
                    args: seq![self.pr_filtered[self.pr_index as int].url],
                    dir: None,
                },
            )
        } else {
            None
        }
    }

    /// Closes the pull request list and checks out the selected pull
    /// request's branch in its repository (the first of that name); nothing
    /// without a selection or without such a repository.
    pub open spec fn pr_checkout(self) -> (AppView, Option<LaunchView>) {
        if self.pr_index < self.pr_filtered.len() {
            let pr = self.pr_filtered[self.pr_index as int];
            let i = repo_index(self.repos, pr.repo);
            if i >= 0 {
                let r = self.repos[i];
                AppView { pr_mode: false, ..self }.run_on(
                    seq![(r.name, r.path)],
                    "git"@,
                    seq!["checkout"@, pr.branch],
                )
            } else {
                (self, None)
            }
        } else {
            (self, None)
        }
    }
}

/// Whether a pull request passes the author filter, given the filter and
/// the author's login both in lower case: an empty filter passes all, else
/// the login must contain it.
pub fn author_passes(filter_lower: &str, author_lower: &str) -> (r: bool)
    ensures
        r == (filter_lower@.len() == 0 || has_infix(author_lower@, filter_lower@)),
{
    filter_lower.unicode_len() == 0 || str_contains(author_lower, filter_lower)
}

/// The pull requests of `list` that pass the author filter, newest first.
fn filter_prs(list: &Vec<PrItem>, filter: &String) -> (r: Vec<PrItem>)
    ensures
        filtered_view(r@, pr_views(list@), filter@),
{
    let f = to_lowercase(filter.as_str());
    let ghost lf = lowercase(filter@);
    let ghost lv = pr_views(list@);
    let mut picked: Vec<PrItem> = Vec::new();
    let mut i: usize = 0;
    assert(lv.take(0) =~= Seq::<PrView>::empty());
    assert(pr_views(picked@) =~= Seq::<PrView>::empty());
    while i < list.len()
        invariant
            i <= list.len(),
            lv == pr_views(list@),
            f@ == lf,
            pr_views(picked@) == matching_prs(lf, lv.take(i as int)),
        decreases list.len() - i,
    {
        let pr = &list[i];
        assert(lv.take(i + 1).drop_last() =~= lv.take(i as int));
        assert(lv.take(i + 1).last() == pr@);
        let a = to_lowercase(pr.author.as_str());
        let keep = author_passes(f.as_str(), a.as_str());
        if keep {
            let ghost old_p = picked@;
            picked.push(pr.duplicate());
            assert(pr_views(picked@) =~= pr_views(old_p).push(pr@));
        }
        i += 1;
    }
    assert(lv.take(list.len() as int) =~= lv);
    let ghost c = picked@;
    let r = stable_sort(picked);
    assert(pr_views(c) == matching_prs(lf, lv) && is_stable_sort(r@, c));
    r
}

impl App {
    /// Opens the pull request list and returns the repositories to ask
    /// about.
    pub fn fetch_prs(&mut self, all: bool) -> (r: Option<Vec<GitRepo>>)
        requires
            old(self)@.wf(),
        ensures
            (final(self)@, repos_view(r)) == old(self)@.fetch_prs(all),
    {
        let repos = self.selected_repos(all);
        if repos.is_none() {
            return None;
        }
        let ghost target = old(self)@.fetch_prs(all).0;
        self.pr_list = Vec::new();
        self.pr_filtered = Vec::new();
        self.pr_filter = String::new();
        self.pr_filter_mode = false;
        self.pr_index = 0;
        self.pr_mode = true;
        self.status_line = String::from_str("⟳ fetching PRs...");
        assert(pr_views(self.pr_list@) =~= Seq::empty());
        assert(pr_views(self.pr_filtered@) =~= Seq::empty());
        assert(self@ == target);
        repos
    }

    /// Shows the pull requests that pass the author filter, newest first,
    /// and selects the first.
    pub fn apply_pr_filter(&mut self)
        ensures
            filtered_view(final(self).pr_filtered@, old(self)@.pr_list, old(self)@.pr_filter),
            final(self)@ == (AppView {
                pr_filtered: final(self)@.pr_filtered,
                pr_index: 0,
                ..old(self)@
            }),
    {
        let shown = filter_prs(&self.pr_list, &self.pr_filter);
        self.pr_filtered = shown;
        self.pr_index = 0;
    }

    /// Takes the pull requests that arrived and, where any did, shows the
    /// list again through the filter from its first entry; where none did,
    /// the shown list and the selection stay.  When every query has answered
    /// (`done`), reports how many are shown.
    #[verifier::rlimit(40)]
    pub fn drain_prs(&mut self, received: Vec<PrItem>, done: bool)
        ensures
            final(self)@.pr_list == old(self)@.pr_list + pr_views(received@),
            received@.len() > 0 ==> filtered_view(
                final(self).pr_filtered@,
                final(self)@.pr_list,
                old(self)@.pr_filter,
            ) && final(self)@.pr_index == 0,
            received@.len() == 0 ==> final(self)@.pr_filtered == old(self)@.pr_filtered
                && final(self)@.pr_index == old(self)@.pr_index,
            final(self)@ == (AppView {
                pr_list: final(self)@.pr_list,
                pr_filtered: final(self)@.pr_filtered,
                pr_index: final(self)@.pr_index,
                status_line: if done {
                    AppView::pr_done_status(final(self)@.pr_filtered.len())
                } else {
                    old(self)@.status_line
                },
                ..old(self)@
            }),
    {
        let arrived = received.len() > 0;
        let ghost old_list = self.pr_list@;
        let mut more = received;
        self.pr_list.append(&mut more);
        assert(pr_views(self.pr_list@) =~= pr_views(old_list) + pr_views(received@));
        if arrived {
            self.apply_pr_filter();
        }
        if done {
            let n = self.pr_filtered.len();
            self.status_line = if n == 0 {
                String::from_str("No open PRs found.")
            } else {
                count_string(
                    n,
                    " open PR(s)  ·  Enter/o open  ·  c checkout  ·  / filter by author  ·  Esc close",
                )
            };
        }
    }

    /// Opens the selected pull request in the browser.
    pub fn pr_open_web(&self) -> (p: Option<ProcessSpec>)
        ensures
            process_view(p) == self@.pr_web(),
    {
        if self.pr_index < self.pr_filtered.len() {
            let mut args: Vec<String> = Vec::new();
            args.push(self.pr_filtered[self.pr_index].url.clone());
            assert(string_views(args@) =~= seq![self@.pr_filtered[self.pr_index as int].url]);
            Some(ProcessSpec { program: String::from_str("open"), args, dir: None })
        } else {
            None
        }
    }

    /// Position of the first repository named `name`.
    pub(crate) fn find_repo(&self, name: &String) -> (r: Option<usize>)
        ensures
            match r {
                Some(i) => i as int == repo_index(self@.repos, name@),
                None => repo_index(self@.repos, name@) == -1,
            },
    {
        let ghost rv = self@.repos;
        proof {
            lemma_repo_index(rv, name@);
        }
        let mut i: usize = 0;
        while i < self.repos.len()
            invariant
                i <= self.repos.len(),
                rv == self@.repos,
                forall|j: int| 0 <= j < i ==> rv[j].name != name@,
            decreases self.repos.len() - i,
        {
            if crate::text::same_text(self.repos[i].name.as_str(), name.as_str()) {
                assert(rv[i as int].name == name@);
                proof {
                    lemma_repo_index(rv, name@);
                }
                return Some(i);
            }
            i += 1;
        }
        None
    }

    /// Closes the pull request list and checks out the selected pull
    /// request's branch.
    pub fn pr_checkout(&mut self) -> (l: Option<Launch>)
        ensures
            (final(self)@, launch_view(l)) == old(self)@.pr_checkout(),
    {
        if self.pr_index >= self.pr_filtered.len() {
            return None;
        }
        let ghost pr = self@.pr_filtered[self.pr_index as int];
        let found = self.find_repo(&self.pr_filtered[self.pr_index].repo);
        let i = match found {
            Some(i) => i,
            None => return None,
        };
        proof {
            lemma_repo_index(self@.repos, pr.repo);
        }
        let ghost r = self@.repos[i as int];
        let mut targets: Vec<Target> = Vec::new();
        targets.push(Target { label: self.repos[i].name.clone(), workdir: self.repos[i].path.clone() });
        let mut args: Vec<String> = Vec::new();
        args.push(String::from_str("checkout"));
        args.push(self.pr_filtered[self.pr_index].branch.clone());
        assert(string_views(args@) =~= seq!["checkout"@, pr.branch]);
        assert(crate::app::target_views(targets@) =~= seq![(r.name, r.path)]);
        self.pr_mode = false;
        self.run_on(targets, "git", &args)
    }
}

} // verus!
