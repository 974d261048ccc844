//! The records the dashboard shows: repositories, CI runs, pull requests and
//! security alerts, each with a mathematical view.

use vstd::prelude::*;

verus! {

/// Summary state of a repository's working tree and upstream.
#[derive(Clone, Copy, Debug, PartialEq, Eq, Structural)]
pub enum RepoStatus {
    Clean,
    Dirty,
    Ahead,
    Behind,
    Diverged,
}

/// A git repository found under the base directory.
#[derive(Debug)]
pub struct GitRepo {
    pub name: String,
    pub path: String,
    pub status: RepoStatus,
    pub branch: String,
    pub ahead: usize,
    pub behind: usize,
    pub modified: usize,
    pub staged: usize,
    pub untracked: usize,
}

/// What a [`GitRepo`] holds, as plain values.
pub struct RepoView {
    pub name: Seq<char>,
    pub path: Seq<char>,
    pub status: RepoStatus,
    pub branch: Seq<char>,
    pub ahead: nat,
    pub behind: nat,
    pub modified: nat,
    pub staged: nat,
    pub untracked: nat,
}

impl View for GitRepo {
    type V = RepoView;

    open spec fn view(&self) -> RepoView {
        RepoView {
            name: self.name@,
            path: self.path@,
            status: self.status,
            branch: self.branch@,
            ahead: self.ahead as nat,
            behind: self.behind as nat,
            modified: self.modified as nat,
            staged: self.staged as nat,
            untracked: self.untracked as nat,
        }
    }
}

impl GitRepo {
    /// A copy of this repository record.
    pub fn duplicate(&self) -> (r: GitRepo)
        ensures
            r@ == self@,
    {
        GitRepo {
            name: self.name.clone(),
            path: self.path.clone(),
            status: self.status,
            branch: self.branch.clone(),
            ahead: self.ahead,
            behind: self.behind,
            modified: self.modified,
            staged: self.staged,
            untracked: self.untracked,
        }
    }

    /// Whether the working tree has any modified, staged or untracked file.
    pub open spec fn has_changes(self) -> bool {
        self.modified > 0 || self.staged > 0 || self.untracked > 0
    }
}

/// The latest run of one CI workflow of a repository.
#[derive(Debug)]
pub struct CiRun {
    pub repo: String,
    pub repo_path: String,
    pub id: u64,
    pub workflow: String,
    pub status: String,
    pub conclusion: String,
    pub branch: String,
    pub event: String,
    pub created_at: String,
}

/// What a [`CiRun`] holds, as plain values.
pub struct CiRunView {
    pub repo: Seq<char>,
    pub repo_path: Seq<char>,
    pub id: u64,
    pub workflow: Seq<char>,
    pub status: Seq<char>,
    pub conclusion: Seq<char>,
    pub branch: Seq<char>,
    pub event: Seq<char>,
    pub created_at: Seq<char>,
}

impl View for CiRun {
    type V = CiRunView;

    open spec fn view(&self) -> CiRunView {
        CiRunView {
            repo: self.repo@,
            repo_path: self.repo_path@,
            id: self.id,
            workflow: self.workflow@,
            status: self.status@,
            conclusion: self.conclusion@,
            branch: self.branch@,
            event: self.event@,
            created_at: self.created_at@,
        }
    }
}

/// An open pull request of a repository.
#[derive(Debug)]
pub struct PrItem {
    pub repo: String,
    pub number: u64,
    pub title: String,
    pub author: String,
    pub branch: String,
    pub url: String,
    pub created_at: String,
}

/// What a [`PrItem`] holds, as plain values.
pub struct PrView {
    pub repo: Seq<char>,
    pub number: u64,
    pub title: Seq<char>,
    pub author: Seq<char>,
    pub branch: Seq<char>,
    pub url: Seq<char>,
    pub created_at: Seq<char>,
}

impl View for PrItem {
    type V = PrView;

    open spec fn view(&self) -> PrView {
        PrView {
            repo: self.repo@,
            number: self.number,
            title: self.title@,
            author: self.author@,
            branch: self.branch@,
            url: self.url@,
            created_at: self.created_at@,
        }
    }
}

impl PrItem {
    /// A copy of this pull request record.
    pub fn duplicate(&self) -> (r: PrItem)
        ensures
            r@ == self@,
    {
        PrItem {
            repo: self.repo.clone(),
            number: self.number,
            title: self.title.clone(),
            author: self.author.clone(),
            branch: self.branch.clone(),
            url: self.url.clone(),
            created_at: self.created_at.clone(),
        }
    }
}

/// An open security alert of a repository: a vulnerable dependency, a code
/// scanning finding or a leaked secret.
#[derive(Debug)]
pub struct SecurityAlert {
    pub repo: String,
    pub repo_path: String,
    pub number: u64,
    pub kind: String,
    pub package: String,
    pub severity: String,
    pub summary: String,
    pub cve_id: String,
    pub url: String,
}

/// What a [`SecurityAlert`] holds, as plain values.
pub struct AlertView {
    pub repo: Seq<char>,
    pub repo_path: Seq<char>,
    pub number: u64,
    pub kind: Seq<char>,
    pub package: Seq<char>,
    pub severity: Seq<char>,
    pub summary: Seq<char>,
    pub cve_id: Seq<char>,
    pub url: Seq<char>,
}

impl View for SecurityAlert {
    type V = AlertView;

    open spec fn view(&self) -> AlertView {
        AlertView {
            repo: self.repo@,
            repo_path: self.repo_path@,
            number: self.number,
            kind: self.kind@,
            package: self.package@,
            severity: self.severity@,
            summary: self.summary@,
            cve_id: self.cve_id@,
            url: self.url@,
        }
    }
}

} // verus!
