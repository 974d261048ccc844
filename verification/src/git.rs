//! Repository discovery and status: which directory entries are
//! repositories, and what the output of `git rev-parse`, `git rev-list` and
//! `git status --porcelain` says about each one.

use vstd::prelude::*;

use crate::order::{is_stable_sort, lemma_lex_total, lemma_lex_trans, lex_le, str_le, Ranked};
use crate::text::{
    chars_of, lines, parse_usize, parse_usize_chars, split_lines, split_words, string_of,
    trim, trim_chars, views, words,
};
use crate::app::opt_view;
use crate::types::{GitRepo, RepoStatus, RepoView};

verus! {

/// One entry of the base directory, as the directory listing reports it.
pub struct DirEntryInfo {
    /// The entry's file name, where it is valid Unicode.
    pub name: Option<String>,
    /// The entry's full path.
    pub path: String,
    /// Whether the entry is a directory holding a `.git` entry.
    pub is_repo: bool,
}

/// The name a repository is listed under.
pub open spec fn entry_name(e: DirEntryInfo) -> Seq<char> {
    match e.name {
        Some(n) => n@,
        None => "unknown"@,
    }
}

/// The record of a freshly found repository, before its status is read.
pub open spec fn fresh_repo(e: DirEntryInfo) -> RepoView {
    RepoView {
        name: entry_name(e),
        path: e.path@,
        status: RepoStatus::Clean,
        branch: "unknown"@,
        ahead: 0,
        behind: 0,
        modified: 0,
        staged: 0,
        untracked: 0,
    }
}

/// The repositories among `es`, in listing order.
pub open spec fn repos_among(es: Seq<DirEntryInfo>) -> Seq<RepoView>
    decreases es.len(),
{
    if es.len() == 0 {
        Seq::empty()
    } else {
        let r = repos_among(es.drop_last());
        if es.last().is_repo {
            r.push(fresh_repo(es.last()))
        } else {
            r
        }
    }
}

/// The views of a list of repositories.
pub open spec fn repo_views(rs: Seq<GitRepo>) -> Seq<RepoView> {
    rs.map_values(|r: GitRepo| r@)
}

impl Ranked for GitRepo {
    open spec fn rank_le(&self, other: &Self) -> bool {
        lex_le(self.name@, other.name@)
    }

    proof fn rank_total(a: &Self, b: &Self) {
        lemma_lex_total(a.name@, b.name@);
    }

    proof fn rank_trans(a: &Self, b: &Self, c: &Self) {
        lemma_lex_trans(a.name@, b.name@, c.name@);
    }

    fn le(&self, other: &Self) -> (r: bool) {
        str_le(self.name.as_str(), other.name.as_str())
    }
}

/// The repositories of a directory listing, sorted by name: every entry that
/// is a directory with a `.git` entry, listed under its file name (`unknown`
/// where that is not valid Unicode), with a clean status and an `unknown`
/// branch until its status is read.
pub fn find_repos(entries: Vec<DirEntryInfo>) -> (repos: Vec<GitRepo>)
    ensures
        exists|found: Seq<GitRepo>|
            repo_views(found) == repos_among(entries@) && is_stable_sort(repos@, found),
{
    let ghost es = entries@;
    let mut found: Vec<GitRepo> = Vec::new();
    let mut rest = entries;
    let n = rest.len();
    let mut i: usize = 0;
    assert(es.take(0) =~= Seq::<DirEntryInfo>::empty());
    assert(repo_views(found@) =~= Seq::<RepoView>::empty());
    while i < n
        invariant
            n == es.len(),
            i <= n,
            rest@ == es.skip(i as int),
            repo_views(found@) == repos_among(es.take(i as int)),
        decreases n - i,
    {
        let e = rest.remove(0);
        assert(e == es[i as int]);
        assert(rest@ =~= es.skip(i + 1));
        let ghost pre = es.take(i as int);
        assert(es.take(i + 1).drop_last() =~= pre);
        if e.is_repo {
            let name = match e.name {
                Some(n) => n,
                None => String::from_str("unknown"),
            };
            let repo = GitRepo {
                name,
                path: e.path,
                status: RepoStatus::Clean,
                branch: String::from_str("unknown"),
                ahead: 0,
                behind: 0,
                modified: 0,
                staged: 0,
                untracked: 0,
            };
            let ghost old_found = found@;
            found.push(repo);
            assert(repo_views(found@) =~= repo_views(old_found).push(repo@));
        }
        i += 1;
    }
    assert(es.take(n as int) =~= es);
    crate::order::stable_sort(found)
}

/// How `git status --porcelain` output is read: a line shorter than two
/// bytes is skipped.  A line of one non-ASCII character is at least two
/// bytes long but has no second character; reading such output fails.
pub open spec fn porcelain_readable(out: Seq<char>) -> bool {
    forall|k: int|
        0 <= k < lines(out).len() ==> !(#[trigger] lines(out)[k].len() == 1 && lines(out)[k][0]
            as u32 >= 0x80)
}

/// A porcelain line that records a staged change: its index column is
/// neither blank nor `?`.
pub open spec fn line_staged(l: Seq<char>) -> bool {
    l.len() >= 2 && l[0] != ' ' && l[0] != '?'
}

/// A porcelain line that records a modification or deletion in the work
/// tree.
pub open spec fn line_modified(l: Seq<char>) -> bool {
    l.len() >= 2 && (l[1] == 'M' || l[1] == 'D')
}

/// A porcelain line that records an untracked file (`??`).
pub open spec fn line_untracked(l: Seq<char>) -> bool {
    l.len() >= 2 && l[0] == '?' && l[1] == '?'
}

/// How many of `ls` are staged, modified and untracked lines.
pub open spec fn tally(ls: Seq<Seq<char>>) -> (nat, nat, nat)
    decreases ls.len(),
{
    if ls.len() == 0 {
        (0, 0, 0)
    } else {
        let t = tally(ls.drop_last());
        let l = ls.last();
        (
            t.0 + if line_staged(l) {
                1nat
            } else {
                0nat
            },
            t.1 + if line_modified(l) {
                1nat
            } else {
                0nat
            },
            t.2 + if line_untracked(l) {
                1nat
            } else {
                0nat
            },
        )
    }
}

/// What `git status --porcelain` reports, line by line: a line of at least
/// two characters is a staged change when its first (index) column is
/// neither blank nor `?`, a modified or deleted file when its second
/// (work-tree) column is `M` or `D`, and an untracked file when both columns
/// are `?`; the counts are how many lines are of each kind.
pub proof fn law_change_counts(ls: Seq<Seq<char>>)
    ensures
        tally(ls).0 == ls.filter(|l: Seq<char>| l.len() >= 2 && l[0] != ' ' && l[0] != '?').len(),
        tally(ls).1 == ls.filter(|l: Seq<char>| l.len() >= 2 && (l[1] == 'M' || l[1] == 'D')).len(),
        tally(ls).2 == ls.filter(|l: Seq<char>| l.len() >= 2 && l[0] == '?' && l[1] == '?').len(),
    decreases ls.len(),
{
    reveal(Seq::filter);
    if ls.len() > 0 {
        law_change_counts(ls.drop_last());
    }
}

/// A repository whose porcelain output has a line of a staged change (index
/// column neither blank nor `?`), of a modified or deleted file (work-tree
/// column `M` or `D`) or of an untracked file (`??`) is dirty, whatever its
/// upstream says.
pub proof fn law_any_change_is_dirty(out: Seq<char>, ahead: nat, behind: nat, k: int)
    requires
        0 <= k < lines(out).len(),
        lines(out)[k].len() >= 2,
        (lines(out)[k][0] != ' ' && lines(out)[k][0] != '?') || lines(out)[k][1] == 'M'
            || lines(out)[k][1] == 'D' || (lines(out)[k][0] == '?' && lines(out)[k][1] == '?'),
    ensures
        tally(lines(out)).0 + tally(lines(out)).1 + tally(lines(out)).2 > 0,
        classify(ahead, behind, tally(lines(out)).1, tally(lines(out)).0, tally(lines(out)).2)
            == RepoStatus::Dirty,
{
    broadcast use vstd::seq_lib::group_filter_ensures;

    let ls = lines(out);
    let l = ls[k];
    law_change_counts(ls);
    let ps = |l: Seq<char>| l.len() >= 2 && l[0] != ' ' && l[0] != '?';
    let pm = |l: Seq<char>| l.len() >= 2 && (l[1] == 'M' || l[1] == 'D');
    let pu = |l: Seq<char>| l.len() >= 2 && l[0] == '?' && l[1] == '?';
    if ps(l) {
        assert(ls.filter(ps).contains(l));
    } else if pm(l) {
        assert(ls.filter(pm).contains(l));
    } else {
        assert(ls.filter(pu).contains(l));
    }
}

/// Change counts of a repository from `git status --porcelain` output:
/// (staged, modified, untracked).
pub fn count_changes(out: &str) -> (r: (usize, usize, usize))
    requires
        porcelain_readable(out@),
    ensures
        r.0 == tally(lines(out@)).0,
        r.1 == tally(lines(out@)).1,
        r.2 == tally(lines(out@)).2,
        r.0 == lines(out@).filter(|l: Seq<char>| l.len() >= 2 && l[0] != ' ' && l[0] != '?').len(),
        r.1 == lines(out@).filter(|l: Seq<char>| l.len() >= 2 && (l[1] == 'M' || l[1] == 'D')).len(),
        r.2 == lines(out@).filter(|l: Seq<char>| l.len() >= 2 && l[0] == '?' && l[1] == '?').len(),
{
    proof {
        law_change_counts(lines(out@));
    }
    let cs = chars_of(out);
    let ls = split_lines(&cs);
    let ghost lv = views(ls@);
    let mut staged: usize = 0;
    let mut modified: usize = 0;
    let mut untracked: usize = 0;
    let mut i: usize = 0;
    while i < ls.len()
        invariant
            i <= ls.len(),
            lv == views(ls@),
            lv == lines(out@),
            staged == tally(lv.take(i as int)).0,
            modified == tally(lv.take(i as int)).1,
            untracked == tally(lv.take(i as int)).2,
            staged <= i,
            modified <= i,
            untracked <= i,
        decreases ls.len() - i,
    {
        let l = &ls[i];
        assert(lv[i as int] == l@);
        assert(lv.take(i + 1).drop_last() =~= lv.take(i as int));
        if l.len() >= 2 {
            let c0 = l[0];
            let c1 = l[1];
            if c0 != ' ' && c0 != '?' {
                staged += 1;
            }
            if c1 == 'M' || c1 == 'D' {
                modified += 1;
            }
            if c0 == '?' && c1 == '?' {
                untracked += 1;
            }
        }
        i += 1;
    }
    assert(lv.take(ls.len() as int) =~= lv);
    (staged, modified, untracked)
}

/// Commits ahead of and behind upstream, from the output of
/// `git rev-list --left-right --count HEAD...@{upstream}`: two numbers, each
/// read as 0 where it is no number; (0, 0) unless there are exactly two
/// words.
pub open spec fn sync_counts(out: Seq<char>) -> (usize, usize) {
    let w = words(out);
    if w.len() == 2 {
        (
            match parse_usize(w[0]) {
                Some(v) => v,
                None => 0,
            },
            match parse_usize(w[1]) {
                Some(v) => v,
                None => 0,
            },
        )
    } else {
        (0, 0)
    }
}

/// Commits ahead of and behind upstream, read from `git rev-list` output.
pub fn parse_sync_counts(out: &str) -> (r: (usize, usize))
    ensures
        r == sync_counts(out@),
{
    let cs = chars_of(out);
    let ws = split_words(&cs);
    if ws.len() == 2 {
        assert(views(ws@)[0] == ws@[0]@);
        assert(views(ws@)[1] == ws@[1]@);
        let a = match parse_usize_chars(&ws[0]) {
            Some(v) => v,
            None => 0,
        };
        let b = match parse_usize_chars(&ws[1]) {
            Some(v) => v,
            None => 0,
        };
        (a, b)
    } else {
        (0, 0)
    }
}

/// Branch name from `git rev-parse --abbrev-ref HEAD` output: the output
/// without surrounding whitespace.
pub fn parse_branch(out: &str) -> (r: String)
    ensures
        r@ == trim(out@),
{
    let cs = chars_of(out);
    let t = trim_chars(&cs);
    string_of(&t)
}

/// The status a repository is shown with: dirty when anything changed in the
/// working tree, else diverged, ahead or behind relative to upstream, else
/// clean.
pub open spec fn classify(ahead: nat, behind: nat, modified: nat, staged: nat, untracked: nat) -> RepoStatus {
    if modified + staged + untracked > 0 {
        RepoStatus::Dirty
    } else if ahead > 0 && behind > 0 {
        RepoStatus::Diverged
    } else if ahead > 0 {
        RepoStatus::Ahead
    } else if behind > 0 {
        RepoStatus::Behind
    } else {
        RepoStatus::Clean
    }
}

/// The status a repository is shown with.
pub fn classify_status(
    ahead: usize,
    behind: usize,
    modified: usize,
    staged: usize,
    untracked: usize,
) -> (r: RepoStatus)
    ensures
        r == classify(ahead as nat, behind as nat, modified as nat, staged as nat, untracked as nat),
{
    if modified > 0 || staged > 0 || untracked > 0 {
        RepoStatus::Dirty
    } else if ahead > 0 && behind > 0 {
        RepoStatus::Diverged
    } else if ahead > 0 {
        RepoStatus::Ahead
    } else if behind > 0 {
        RepoStatus::Behind
    } else {
        RepoStatus::Clean
    }
}

/// A status is clean exactly when nothing changed and the branch is level
/// with its upstream; a repository with any change is dirty, whatever its
/// upstream says.
pub proof fn law_status_clean_iff_settled(
    ahead: nat,
    behind: nat,
    modified: nat,
    staged: nat,
    untracked: nat,
)
    ensures
        (classify(ahead, behind, modified, staged, untracked) == RepoStatus::Clean) <==> (ahead
            == 0 && behind == 0 && modified == 0 && staged == 0 && untracked == 0),
        modified + staged + untracked > 0 ==> classify(ahead, behind, modified, staged, untracked)
            == RepoStatus::Dirty,
{
}

/// Reads a repository's status from the output of its three git commands,
/// each `None` where the command could not be run: the branch where
/// `rev-parse` ran (else it stays), the upstream counts where `rev-list`
/// ran (else 0), the change counts where `status` ran (else 0), and the
/// status these give.
pub fn update_status(
    repo: &mut GitRepo,
    branch_out: Option<String>,
    sync_out: Option<String>,
    porcelain_out: Option<String>,
)
    requires
        porcelain_out matches Some(p) ==> porcelain_readable(p@),
    ensures
        final(repo).name@ == old(repo).name@,
        final(repo).path@ == old(repo).path@,
        final(repo).branch@ == match branch_out {
            Some(b) => trim(b@),
            None => old(repo).branch@,
        },
        (final(repo).ahead, final(repo).behind) == match sync_out {
            Some(s) => sync_counts(s@),
            None => (0usize, 0usize),
        },
        final(repo).staged == match porcelain_out {
            Some(p) => tally(lines(p@)).0,
            None => 0,
        },
        final(repo).modified == match porcelain_out {
            Some(p) => tally(lines(p@)).1,
            None => 0,
        },
        final(repo).untracked == match porcelain_out {
            Some(p) => tally(lines(p@)).2,
            None => 0,
        },
        final(repo).status == classify(
            final(repo).ahead as nat,
            final(repo).behind as nat,
            final(repo).modified as nat,
            final(repo).staged as nat,
            final(repo).untracked as nat,
        ),
{
    if let Some(b) = branch_out {
        repo.branch = parse_branch(b.as_str());
    }
    repo.ahead = 0;
    repo.behind = 0;
    if let Some(s) = sync_out {
        let (a, b) = parse_sync_counts(s.as_str());
        repo.ahead = a;
        repo.behind = b;
    }
    repo.modified = 0;
    repo.staged = 0;
    repo.untracked = 0;
    if let Some(p) = porcelain_out {
        let (s, m, u) = count_changes(p.as_str());
        repo.staged = s;
        repo.modified = m;
        repo.untracked = u;
    }
    repo.status = classify_status(
        repo.ahead,
        repo.behind,
        repo.modified,
        repo.staged,
        repo.untracked,
    );
}

/// A repository's record after its status was read from the outputs of its
/// three git commands (`None` where a command could not be run).
pub open spec fn status_read(
    r: RepoView,
    branch: Option<Seq<char>>,
    sync: Option<Seq<char>>,
    porcelain: Option<Seq<char>>,
) -> RepoView {
    let (ahead, behind) = match sync {
        Some(s) => sync_counts(s),
        None => (0usize, 0usize),
    };
    let t = match porcelain {
        Some(p) => tally(lines(p)),
        None => (0nat, 0nat, 0nat),
    };
    RepoView {
        branch: match branch {
            Some(b) => trim(b),
            None => r.branch,
        },
        ahead: ahead as nat,
        behind: behind as nat,
        staged: t.0,
        modified: t.1,
        untracked: t.2,
        status: classify(ahead as nat, behind as nat, t.1, t.0, t.2),
        ..r
    }
}

/// The outputs of a repository's three git commands: `rev-parse`,
/// `rev-list` and `status --porcelain`, each `None` where it could not be
/// run.
pub struct GitOutputs {
    pub branch: Option<String>,
    pub sync: Option<String>,
    pub porcelain: Option<String>,
}

/// Whether a repository's status can be read from `o`: its porcelain
/// output, where there is one, is readable.
pub open spec fn outputs_readable(o: GitOutputs) -> bool {
    o.porcelain matches Some(p) ==> porcelain_readable(p@)
}

/// The repositories after a refresh: each repository whose outputs were
/// read (`Some`) and are readable, with its status read from them, in
/// order; the others are left out.
pub open spec fn refreshed_repos(rs: Seq<RepoView>, os: Seq<Option<GitOutputs>>) -> Seq<RepoView>
    decreases rs.len(),
{
    if rs.len() == 0 || os.len() == 0 {
        Seq::empty()
    } else {
        let k = refreshed_repos(rs.drop_last(), os.drop_last());
        match os.last() {
            Some(o) => if outputs_readable(o) {
                k.push(status_read(rs.last(), opt_view(o.branch), opt_view(o.sync), opt_view(o.porcelain)))
            } else {
                k
            },
            None => k,
        }
    }
}

/// Whether `git status --porcelain` output can be read: no line is a
/// single non-ASCII character.
pub fn porcelain_is_readable(out: &str) -> (r: bool)
    ensures
        r == porcelain_readable(out@),
{
    let cs = chars_of(out);
    let ls = split_lines(&cs);
    let ghost lv = views(ls@);
    let mut i: usize = 0;
    while i < ls.len()
        invariant
            i <= ls.len(),
            lv == views(ls@),
            lv == lines(out@),
            forall|k: int| 0 <= k < i ==> !(#[trigger] lv[k].len() == 1 && lv[k][0] as u32 >= 0x80),
        decreases ls.len() - i,
    {
        assert(lv[i as int] == ls@[i as int]@);
        if ls[i].len() == 1 && ls[i][0] as u32 >= 0x80 {
            assert(lv[i as int].len() == 1 && lv[i as int][0] as u32 >= 0x80);
            return false;
        }
        i += 1;
    }
    true
}

/// Reads the status of every repository of `repos` from its outputs
/// (`outs[i]` for `repos[i]`; `None` where reading them failed): a
/// repository whose outputs are missing or unreadable is left out, the
/// others keep their order.
pub fn read_statuses(repos: Vec<GitRepo>, outs: Vec<Option<GitOutputs>>) -> (r: Vec<GitRepo>)
    requires
        repos.len() == outs.len(),
    ensures
        repo_views(r@) == refreshed_repos(repo_views(repos@), outs@),
{
    let ghost rv = repo_views(repos@);
    let ghost ov = outs@;
    let n = repos.len();
    let mut rest = repos;
    let mut orest = outs;
    let mut r: Vec<GitRepo> = Vec::new();
    let mut i: usize = 0;
    assert(rv.take(0) =~= Seq::<RepoView>::empty());
    assert(repo_views(r@) =~= Seq::<RepoView>::empty());
    while i < n
        invariant
            i <= n == rv.len() == ov.len(),
            rest@.len() == n - i,
            orest@.len() == n - i,
            forall|j: int| 0 <= j < rest@.len() ==> (#[trigger] rest@[j])@ == rv[i + j],
            forall|j: int| 0 <= j < orest@.len() ==> #[trigger] orest@[j] == ov[i + j],
            repo_views(r@) == refreshed_repos(rv.take(i as int), ov.take(i as int)),
        decreases n - i,
    {
        let ghost old_rest = rest@;
        let ghost old_orest = orest@;
        let mut repo = rest.remove(0);
        let o = orest.remove(0);
        assert(repo@ == rv[i as int]);
        assert(o == ov[i as int]);
        assert forall|j: int| 0 <= j < rest@.len() implies (#[trigger] rest@[j])@ == rv[i + 1 + j] by {
            assert(rest@[j] == old_rest[j + 1]);
        }
        assert forall|j: int| 0 <= j < orest@.len() implies #[trigger] orest@[j] == ov[i + 1 + j] by {
            assert(orest@[j] == old_orest[j + 1]);
        }
        assert(rv.take(i + 1).drop_last() =~= rv.take(i as int));
        assert(ov.take(i + 1).drop_last() =~= ov.take(i as int));
        assert(rv.take(i + 1).last() == repo@);
        assert(ov.take(i + 1).last() == o);
        let ghost old_r = r@;
        match o {
            Some(g) => {
                let readable = match &g.porcelain {
                    Some(p) => porcelain_is_readable(p.as_str()),
                    None => true,
                };
                if readable {
                    let ghost before = repo@;
                    update_status(&mut repo, g.branch, g.sync, g.porcelain);
                    assert(repo@ == status_read(before, opt_view(g.branch), opt_view(g.sync), opt_view(g.porcelain)));
                    r.push(repo);
                    assert(repo_views(r@) =~= repo_views(old_r).push(repo@));
                }
            },
            None => {},
        }
        i += 1;
    }
    assert(rv.take(n as int) =~= rv);
    assert(ov.take(n as int) =~= ov);
    r
}

} // verus!
