//! Building CI runs, pull requests and security alerts from the fields that
//! the GitHub CLI reports for them.

use vstd::prelude::*;

use crate::ranking::{code_severity, map_code_severity};
use crate::text::{chars_of, copy_range, string_of};
use crate::types::{CiRun, GitRepo, PrItem, SecurityAlert};

verus! {

/// The text of an optional field, or `default` where it is absent.
pub open spec fn or_default(o: Option<String>, default: Seq<char>) -> Seq<char> {
    match o {
        Some(s) => s@,
        None => default,
    }
}

/// The text of an optional field, or `default` where it is absent.
pub fn text_or(o: Option<String>, default: &str) -> (r: String)
    ensures
        r@ == or_default(o, default@),
{
    match o {
        Some(s) => s,
        None => String::from_str(default),
    }
}

/// The first `n` characters of `s` (all of it where it is shorter).
pub open spec fn first_chars(s: Seq<char>, n: nat) -> Seq<char> {
    if s.len() <= n {
        s
    } else {
        s.take(n as int)
    }
}

/// The first `n` characters of `s`.
pub fn take_chars(s: &str, n: usize) -> (r: String)
    ensures
        r@ == first_chars(s@, n as nat),
{
    let cs = chars_of(s);
    let end = if cs.len() <= n {
        cs.len()
    } else {
        n
    };
    let t = copy_range(&cs, 0, end);
    assert(s@.subrange(0, end as int) =~= first_chars(s@, n as nat));
    string_of(&t)
}

/// The fields of the latest run of a workflow, as `gh run list --json`
/// reports them; a field is `None` where it is missing or not of its type.
pub struct RunFields {
    pub database_id: Option<u64>,
    pub workflow_name: Option<String>,
    pub status: Option<String>,
    pub conclusion: Option<String>,
    pub head_branch: Option<String>,
    pub event: Option<String>,
    pub created_at: Option<String>,
}

/// Builds the CI run of workflow file `workflow_file` of `repo`: none
/// without a run id; the workflow's name (else its file name); status,
/// conclusion, branch and event (else empty); the first 16 characters of
/// the start time (date and minute).
pub fn ci_run_from(repo: &GitRepo, workflow_file: &str, f: RunFields) -> (r: Option<CiRun>)
    ensures
        r is Some <==> f.database_id is Some,
        r matches Some(run) ==> {
            &&& run.repo@ == repo.name@
            &&& run.repo_path@ == repo.path@
            &&& run.id == f.database_id->0
            &&& run.workflow@ == or_default(f.workflow_name, workflow_file@)
            &&& run.status@ == or_default(f.status, ""@)
            &&& run.conclusion@ == or_default(f.conclusion, ""@)
            &&& run.branch@ == or_default(f.head_branch, ""@)
            &&& run.event@ == or_default(f.event, ""@)
            &&& run.created_at@ == first_chars(or_default(f.created_at, ""@), 16)
        },
{
    let id = match f.database_id {
        Some(id) => id,
        None => return None,
    };
    let created = text_or(f.created_at, "");
    Some(
        CiRun {
            repo: repo.name.clone(),
            repo_path: repo.path.clone(),
            id,
            workflow: text_or(f.workflow_name, workflow_file),
            status: text_or(f.status, ""),
            conclusion: text_or(f.conclusion, ""),
            branch: text_or(f.head_branch, ""),
            event: text_or(f.event, ""),
            created_at: take_chars(created.as_str(), 16),
        },
    )
}

/// The fields of one pull request, as `gh pr list --json` reports them.
pub struct PrFields {
    pub number: Option<u64>,
    pub title: Option<String>,
    pub author_login: Option<String>,
    pub head_ref_name: Option<String>,
    pub url: Option<String>,
    pub created_at: Option<String>,
}

/// Builds a pull request of the repository named `repo_name`: none unless
/// number, title, branch and URL are all there; the author's login (else
/// `unknown`) and creation time (else empty).
pub fn pr_item_from(repo_name: &str, f: PrFields) -> (r: Option<PrItem>)
    ensures
        r is Some <==> (f.number is Some && f.title is Some && f.head_ref_name is Some
            && f.url is Some),
        r matches Some(pr) ==> {
            &&& pr.repo@ == repo_name@
            &&& pr.number == f.number->0
            &&& pr.title@ == f.title->0@
            &&& pr.author@ == or_default(f.author_login, "unknown"@)
            &&& pr.branch@ == f.head_ref_name->0@
            &&& pr.url@ == f.url->0@
            &&& pr.created_at@ == or_default(f.created_at, ""@)
        },
{
    let number = match f.number {
        Some(n) => n,
        None => return None,
    };
    let title = match f.title {
        Some(t) => t,
        None => return None,
    };
    let branch = match f.head_ref_name {
        Some(b) => b,
        None => return None,
    };
    let url = match f.url {
        Some(u) => u,
        None => return None,
    };
    Some(
        PrItem {
            repo: String::from_str(repo_name),
            number,
            title,
            author: text_or(f.author_login, "unknown"),
            branch,
            url,
            created_at: text_or(f.created_at, ""),
        },
    )
}

/// The fields of one open Dependabot alert.
pub struct DependencyAlertFields {
    pub number: Option<u64>,
    pub package_name: Option<String>,
    pub severity: Option<String>,
    pub summary: Option<String>,
    pub cve_id: Option<String>,
    pub html_url: Option<String>,
}

/// Builds a vulnerable-dependency alert (`dep`) of `repo`: none without a
/// number; the package (else `unknown`), severity, summary, CVE and URL
/// (else empty).
pub fn dependency_alert_from(repo: &GitRepo, f: DependencyAlertFields) -> (r: Option<SecurityAlert>)
    ensures
        r is Some <==> f.number is Some,
        r matches Some(a) ==> {
            &&& a.repo@ == repo.name@
            &&& a.repo_path@ == repo.path@
            &&& a.number == f.number->0
            &&& a.kind@ == "dep"@
            &&& a.package@ == or_default(f.package_name, "unknown"@)
            &&& a.severity@ == or_default(f.severity, ""@)
            &&& a.summary@ == or_default(f.summary, ""@)
            &&& a.cve_id@ == or_default(f.cve_id, ""@)
            &&& a.url@ == or_default(f.html_url, ""@)
        },
{
    let number = match f.number {
        Some(n) => n,
        None => return None,
    };
    Some(
        SecurityAlert {
            repo: repo.name.clone(),
            repo_path: repo.path.clone(),
            number,
            kind: String::from_str("dep"),
            package: text_or(f.package_name, "unknown"),
            severity: text_or(f.severity, ""),
            summary: text_or(f.summary, ""),
            cve_id: text_or(f.cve_id, ""),
            url: text_or(f.html_url, ""),
        },
    )
}

/// The fields of one open code scanning alert.
pub struct CodeAlertFields {
    pub number: Option<u64>,
    pub security_severity_level: Option<String>,
    pub rule_severity: Option<String>,
    pub rule_id: Option<String>,
    pub rule_description: Option<String>,
    pub html_url: Option<String>,
}

/// Severity of a code scanning alert: its security severity level where
/// that is given and not empty, else what the rule's level stands for.
pub open spec fn code_alert_severity(level: Option<String>, rule_severity: Option<String>) -> Seq<
    char,
> {
    match level {
        Some(l) => if l@.len() > 0 {
            l@
        } else {
            code_severity(or_default(rule_severity, ""@))
        },
        None => code_severity(or_default(rule_severity, ""@)),
    }
}

/// Builds a code scanning alert (`code`) of `repo`: none without a number;
/// the rule id (else `unknown`) as package, the severity, the rule's
/// description (else empty) as summary, no CVE, and the URL (else empty).
pub fn code_alert_from(repo: &GitRepo, f: CodeAlertFields) -> (r: Option<SecurityAlert>)
    ensures
        r is Some <==> f.number is Some,
        r matches Some(a) ==> {
            &&& a.repo@ == repo.name@
            &&& a.repo_path@ == repo.path@
            &&& a.number == f.number->0
            &&& a.kind@ == "code"@
            &&& a.package@ == or_default(f.rule_id, "unknown"@)
            &&& a.severity@ == code_alert_severity(f.security_severity_level, f.rule_severity)
            &&& a.summary@ == or_default(f.rule_description, ""@)
            &&& a.cve_id@ == Seq::<char>::empty()
            &&& a.url@ == or_default(f.html_url, ""@)
        },
{
    let number = match f.number {
        Some(n) => n,
        None => return None,
    };
    let rule_level = text_or(f.rule_severity, "");
    let severity = match f.security_severity_level {
        Some(l) => if l.as_str().unicode_len() > 0 {
            l
        } else {
            String::from_str(map_code_severity(rule_level.as_str()))
        },
        None => String::from_str(map_code_severity(rule_level.as_str())),
    };
    Some(
        SecurityAlert {
            repo: repo.name.clone(),
            repo_path: repo.path.clone(),
            number,
            kind: String::from_str("code"),
            package: text_or(f.rule_id, "unknown"),
            severity,
            summary: text_or(f.rule_description, ""),
            cve_id: String::new(),
            url: text_or(f.html_url, ""),
        },
    )
}

/// The fields of one open secret scanning alert.
pub struct SecretAlertFields {
    pub number: Option<u64>,
    pub secret_type: Option<String>,
    pub html_url: Option<String>,
}

/// Builds a leaked-secret alert (`secret`) of `repo`: none without a
/// number; the secret's type (else `secret`) as package and summary,
/// critical severity, no CVE, and the URL (else empty).
pub fn secret_alert_from(repo: &GitRepo, f: SecretAlertFields) -> (r: Option<SecurityAlert>)
    ensures
        r is Some <==> f.number is Some,
        r matches Some(a) ==> {
            &&& a.repo@ == repo.name@
            &&& a.repo_path@ == repo.path@
            &&& a.number == f.number->0
            &&& a.kind@ == "secret"@
            &&& a.package@ == or_default(f.secret_type, "secret"@)
            &&& a.severity@ == "critical"@
            &&& a.summary@ == or_default(f.secret_type, "secret"@)
            &&& a.cve_id@ == Seq::<char>::empty()
            &&& a.url@ == or_default(f.html_url, ""@)
        },
{
    let number = match f.number {
        Some(n) => n,
        None => return None,
    };
    let secret_type = text_or(f.secret_type, "secret");
    Some(
        SecurityAlert {
            repo: repo.name.clone(),
            repo_path: repo.path.clone(),
            number,
            kind: String::from_str("secret"),
            package: secret_type.clone(),
            severity: String::from_str("critical"),
            summary: secret_type,
            cve_id: String::new(),
            url: text_or(f.html_url, ""),
        },
    )
}


/// Position of the last `c` in `s`, or -1.
pub open spec fn last_index_of(s: Seq<char>, c: char) -> int
    decreases s.len(),
{
    if s.len() == 0 {
        -1
    } else if s.last() == c {
        s.len() - 1
    } else {
        last_index_of(s.drop_last(), c)
    }
}

/// The extension of a file name as `Path::extension` reads it: what follows
/// the last dot, where that dot is not the name's first character.
pub open spec fn extension(name: Seq<char>) -> Option<Seq<char>> {
    let i = last_index_of(name, '.');
    if i > 0 {
        Some(name.skip(i + 1))
    } else {
        None
    }
}

/// `c` with ASCII upper case letters made lower case.
pub open spec fn ascii_lower(c: char) -> char {
    if 'A' as u32 <= c as u32 <= 'Z' as u32 {
        ((c as u32) + 32) as char
    } else {
        c
    }
}

/// Whether a file name is that of a workflow: its extension is `yml` or
/// `yaml`, in any ASCII case.
pub open spec fn is_workflow_name(name: Seq<char>) -> bool {
    match extension(name) {
        Some(e) => e.map_values(|c: char| ascii_lower(c)) == "yml"@ || e.map_values(
            |c: char| ascii_lower(c),
        ) == "yaml"@,
        None => false,
    }
}

fn lower_ascii_char(c: char) -> (r: char)
    ensures
        r == ascii_lower(c),
{
    if 'A' <= c && c <= 'Z' {
        let b = (c as u8) + 32;
        b as char
    } else {
        c
    }
}

/// Whether `name` is a workflow file name.
pub fn is_workflow_file(name: &str) -> (r: bool)
    ensures
        r == is_workflow_name(name@),
{
    let cs = chars_of(name);
    let n = cs.len();
    let mut i = n;
    assert(name@.take(n as int) =~= name@);
    while i > 0 && cs[i - 1] != '.'
        invariant
            i <= n == cs.len(),
            cs@ == name@,
            last_index_of(name@, '.') == last_index_of(name@.take(i as int), '.'),
        decreases i,
    {
        assert(name@.take(i as int).drop_last() =~= name@.take(i - 1));
        i -= 1;
    }
    assert(name@.take(n as int) =~= name@);
    if i == 0 {
        assert(name@.take(0) =~= Seq::<char>::empty());
        return false;
    }
    let dot = i - 1;
    assert(name@.take(i as int).last() == '.');
    if dot == 0 {
        return false;
    }
    let ext = copy_range(&cs, dot + 1, n);
    assert(ext@ =~= name@.skip(dot + 1));
    let mut lowered: Vec<char> = Vec::new();
    let mut k: usize = 0;
    while k < ext.len()
        invariant
            k <= ext.len(),
            lowered@ == ext@.take(k as int).map_values(|c: char| ascii_lower(c)),
        decreases ext.len() - k,
    {
        let c = lower_ascii_char(ext[k]);
        let ghost old_l = lowered@;
        lowered.push(c);
        assert(ext@.take(k + 1).map_values(|c: char| ascii_lower(c)) =~= old_l.push(c));
        k += 1;
    }
    assert(ext@.take(ext.len() as int) =~= ext@);
    let l = string_of(&lowered);
    crate::text::same_text(l.as_str(), "yml") || crate::text::same_text(l.as_str(), "yaml")
}

/// The workflow files among the file names of a workflows directory, in
/// listing order.
pub open spec fn workflow_names(names: Seq<Seq<char>>) -> Seq<Seq<char>>
    decreases names.len(),
{
    if names.len() == 0 {
        Seq::empty()
    } else {
        let w = workflow_names(names.drop_last());
        if is_workflow_name(names.last()) {
            w.push(names.last())
        } else {
            w
        }
    }
}

/// The workflow files among the file names of a workflows directory.
pub fn workflow_files(names: Vec<String>) -> (r: Vec<String>)
    ensures
        crate::text::string_views(r@) == workflow_names(crate::text::string_views(names@)),
{
    let ghost all = crate::text::string_views(names@);
    let mut rest = names;
    let n = rest.len();
    let mut r: Vec<String> = Vec::new();
    let mut i: usize = 0;
    assert(all.take(0) =~= Seq::<Seq<char>>::empty());
    assert(crate::text::string_views(r@) =~= Seq::<Seq<char>>::empty());
    while i < n
        invariant
            i <= n == all.len(),
            rest@.len() == n - i,
            crate::text::string_views(rest@) == all.skip(i as int),
            crate::text::string_views(r@) == workflow_names(all.take(i as int)),
        decreases n - i,
    {
        let ghost old_rest = rest@;
        let name = rest.remove(0);
        assert(rest@ == old_rest.remove(0));
        assert(name@ == crate::text::string_views(old_rest)[0]);
        assert forall|k: int| 0 <= k < rest@.len() implies crate::text::string_views(rest@)[k]
            == all.skip(i + 1)[k] by {
            assert(rest@[k] == old_rest[k + 1]);
            assert(crate::text::string_views(old_rest)[k + 1] == all.skip(i as int)[k + 1]);
        }
        assert(crate::text::string_views(rest@) =~= all.skip(i + 1));
        assert(all.take(i + 1).drop_last() =~= all.take(i as int));
        assert(all.take(i + 1).last() == name@);
        if is_workflow_file(name.as_str()) {
            let ghost old_r = r@;
            r.push(name);
            assert(crate::text::string_views(r@) =~= crate::text::string_views(old_r).push(
                all[i as int],
            ));
        }
        i += 1;
    }
    assert(all.take(n as int) =~= all);
    r
}

} // verus!
