//! What the GitHub CLI prints: the JSON it answers with, read into the
//! fields the dashboard uses, and the CI runs, pull requests and security
//! alerts built from them.

use serde_json::Value;
use vstd::prelude::*;

use crate::app::{alert_views, opt_view, pr_views};
use crate::ranking::code_severity;
use crate::records::{
    ci_run_from, code_alert_from, dependency_alert_from, first_chars, pr_item_from,
    secret_alert_from, CodeAlertFields, DependencyAlertFields, PrFields, RunFields,
    SecretAlertFields,
};
use crate::text::{chars_of, lines, split_lines, string_of, views};
use crate::types::{AlertView, CiRun, CiRunView, GitRepo, PrItem, PrView, RepoView, SecurityAlert};

verus! {

/// The text of an optional field, or `default` where it is absent.
pub open spec fn text_default(o: Option<Seq<char>>, default: Seq<char>) -> Seq<char> {
    match o {
        Some(s) => s,
        None => default,
    }
}

/// What a [`RunFields`] holds.
pub struct RunFieldsView {
    pub database_id: Option<u64>,
    pub workflow_name: Option<Seq<char>>,
    pub status: Option<Seq<char>>,
    pub conclusion: Option<Seq<char>>,
    pub head_branch: Option<Seq<char>>,
    pub event: Option<Seq<char>>,
    pub created_at: Option<Seq<char>>,
}

impl View for RunFields {
    type V = RunFieldsView;

    open spec fn view(&self) -> RunFieldsView {
        RunFieldsView {
            database_id: self.database_id,
            workflow_name: opt_view(self.workflow_name),
            status: opt_view(self.status),
            conclusion: opt_view(self.conclusion),
            head_branch: opt_view(self.head_branch),
            event: opt_view(self.event),
            created_at: opt_view(self.created_at),
        }
    }
}

/// What a [`PrFields`] holds.
pub struct PrFieldsView {
    pub number: Option<u64>,
    pub title: Option<Seq<char>>,
    pub author_login: Option<Seq<char>>,
    pub head_ref_name: Option<Seq<char>>,
    pub url: Option<Seq<char>>,
    pub created_at: Option<Seq<char>>,
}

impl View for PrFields {
    type V = PrFieldsView;

    open spec fn view(&self) -> PrFieldsView {
        PrFieldsView {
            number: self.number,
            title: opt_view(self.title),
            author_login: opt_view(self.author_login),
            head_ref_name: opt_view(self.head_ref_name),
            url: opt_view(self.url),
            created_at: opt_view(self.created_at),
        }
    }
}

/// What a [`DependencyAlertFields`] holds.
pub struct DependencyAlertFieldsView {
    pub number: Option<u64>,
    pub package_name: Option<Seq<char>>,
    pub severity: Option<Seq<char>>,
    pub summary: Option<Seq<char>>,
    pub cve_id: Option<Seq<char>>,
    pub html_url: Option<Seq<char>>,
}

impl View for DependencyAlertFields {
    type V = DependencyAlertFieldsView;

    open spec fn view(&self) -> DependencyAlertFieldsView {
        DependencyAlertFieldsView {
            number: self.number,
            package_name: opt_view(self.package_name),
            severity: opt_view(self.severity),
            summary: opt_view(self.summary),
            cve_id: opt_view(self.cve_id),
            html_url: opt_view(self.html_url),
        }
    }
}

/// What a [`CodeAlertFields`] holds.
pub struct CodeAlertFieldsView {
    pub number: Option<u64>,
    pub security_severity_level: Option<Seq<char>>,
    pub rule_severity: Option<Seq<char>>,
    pub rule_id: Option<Seq<char>>,
    pub rule_description: Option<Seq<char>>,
    pub html_url: Option<Seq<char>>,
}

impl View for CodeAlertFields {
    type V = CodeAlertFieldsView;

    open spec fn view(&self) -> CodeAlertFieldsView {
        CodeAlertFieldsView {
            number: self.number,
            security_severity_level: opt_view(self.security_severity_level),
            rule_severity: opt_view(self.rule_severity),
            rule_id: opt_view(self.rule_id),
            rule_description: opt_view(self.rule_description),
            html_url: opt_view(self.html_url),
        }
    }
}

/// What a [`SecretAlertFields`] holds.
pub struct SecretAlertFieldsView {
    pub number: Option<u64>,
    pub secret_type: Option<Seq<char>>,
    pub html_url: Option<Seq<char>>,
}

impl View for SecretAlertFields {
    type V = SecretAlertFieldsView;

    open spec fn view(&self) -> SecretAlertFieldsView {
        SecretAlertFieldsView {
            number: self.number,
            secret_type: opt_view(self.secret_type),
            html_url: opt_view(self.html_url),
        }
    }
}

/// The run of workflow file `wf` of `repo` built from its fields: none
/// without a run id; the workflow's name (else the file name); status,
/// conclusion, branch and event (else empty); the first 16 characters of the
/// start time.
pub open spec fn run_record(repo: RepoView, wf: Seq<char>, f: RunFieldsView) -> Option<CiRunView> {
    match f.database_id {
        None => None,
        Some(id) => Some(
            CiRunView {
                repo: repo.name,
                repo_path: repo.path,
                id,
                workflow: text_default(f.workflow_name, wf),
                status: text_default(f.status, ""@),
                conclusion: text_default(f.conclusion, ""@),
                branch: text_default(f.head_branch, ""@),
                event: text_default(f.event, ""@),
                created_at: first_chars(text_default(f.created_at, ""@), 16),
            },
        ),
    }
}

/// The pull request of the repository named `repo_name` built from its
/// fields: none unless number, title, branch and URL are there.
pub open spec fn pr_record(repo_name: Seq<char>, f: PrFieldsView) -> Option<PrView> {
    if f.number is Some && f.title is Some && f.head_ref_name is Some && f.url is Some {
        Some(
            PrView {
                repo: repo_name,
                number: f.number->0,
                title: f.title->0,
                author: text_default(f.author_login, "unknown"@),
                branch: f.head_ref_name->0,
                url: f.url->0,
                created_at: text_default(f.created_at, ""@),
            },
        )
    } else {
        None
    }
}

/// The vulnerable-dependency alert of `repo` built from its fields.
pub open spec fn dependency_record(repo: RepoView, f: DependencyAlertFieldsView) -> Option<AlertView> {
    match f.number {
        None => None,
        Some(n) => Some(
            AlertView {
                repo: repo.name,
                repo_path: repo.path,
                number: n,
                kind: "dep"@,
                package: text_default(f.package_name, "unknown"@),
                severity: text_default(f.severity, ""@),
                summary: text_default(f.summary, ""@),
                cve_id: text_default(f.cve_id, ""@),
                url: text_default(f.html_url, ""@),
            },
        ),
    }
}

/// Severity of a code scanning alert: its security severity level where
/// that is given and not empty, else what the rule's level stands for.
pub open spec fn code_severity_of(level: Option<Seq<char>>, rule: Option<Seq<char>>) -> Seq<char> {
    match level {
        Some(l) => if l.len() > 0 {
            l
        } else {
            code_severity(text_default(rule, ""@))
        },
        None => code_severity(text_default(rule, ""@)),
    }
}

/// The code scanning alert of `repo` built from its fields.
pub open spec fn code_record(repo: RepoView, f: CodeAlertFieldsView) -> Option<AlertView> {
    match f.number {
        None => None,
        Some(n) => Some(
            AlertView {
                repo: repo.name,
                repo_path: repo.path,
                number: n,
                kind: "code"@,
                package: text_default(f.rule_id, "unknown"@),
                severity: code_severity_of(f.security_severity_level, f.rule_severity),
                summary: text_default(f.rule_description, ""@),
                cve_id: Seq::empty(),
                url: text_default(f.html_url, ""@),
            },
        ),
    }
}

/// The leaked-secret alert of `repo` built from its fields.
pub open spec fn secret_record(repo: RepoView, f: SecretAlertFieldsView) -> Option<AlertView> {
    match f.number {
        None => None,
        Some(n) => Some(
            AlertView {
                repo: repo.name,
                repo_path: repo.path,
                number: n,
                kind: "secret"@,
                package: text_default(f.secret_type, "secret"@),
                severity: "critical"@,
                summary: text_default(f.secret_type, "secret"@),
                cve_id: Seq::empty(),
                url: text_default(f.html_url, ""@),
            },
        ),
    }
}

/// The fields of the runs in `gh run list --json` output (a JSON array of
/// objects), as `serde_json` reads them; none where the output is no such
/// array.
pub uninterp spec fn json_run_list(out: Seq<char>) -> Option<Seq<RunFieldsView>>;

/// The fields of the pull requests in `gh pr list --json` output (a JSON
/// array of objects), as `serde_json` reads them; none where the output is
/// no such array.
pub uninterp spec fn json_pr_list(out: Seq<char>) -> Option<Seq<PrFieldsView>>;

/// The fields of one Dependabot alert, a line of JSON, as `serde_json`
/// reads them; none where the line is no JSON value.
pub uninterp spec fn json_dependency_alert(line: Seq<char>) -> Option<DependencyAlertFieldsView>;

/// The fields of one code scanning alert, a line of JSON, as `serde_json`
/// reads them; none where the line is no JSON value.
pub uninterp spec fn json_code_alert(line: Seq<char>) -> Option<CodeAlertFieldsView>;

/// The fields of one secret scanning alert, a line of JSON, as `serde_json`
/// reads them; none where the line is no JSON value.
pub uninterp spec fn json_secret_alert(line: Seq<char>) -> Option<SecretAlertFieldsView>;

/// The views of an optional list of run fields.
pub open spec fn run_fields_views(r: Option<Vec<RunFields>>) -> Option<Seq<RunFieldsView>> {
    match r {
        Some(v) => Some(v@.map_values(|f: RunFields| f@)),
        None => None,
    }
}

/// The views of an optional list of pull request fields.
pub open spec fn pr_fields_views(r: Option<Vec<PrFields>>) -> Option<Seq<PrFieldsView>> {
    match r {
        Some(v) => Some(v@.map_values(|f: PrFields| f@)),
        None => None,
    }
}

/// Reads `gh run list --json` output with `serde_json::from_str` into a
/// list of JSON values and picks each run's fields (a field is `None` where
/// it is missing or not of its type); the result is what
/// [`json_run_list`] names.
#[verifier::external_body]
fn parse_run_list(out: &str) -> (r: Option<Vec<RunFields>>)
    ensures
        run_fields_views(r) == json_run_list(out@),
{
    let vals: Vec<Value> = serde_json::from_str(out).ok()?;
    Some(vals.iter().map(|v| RunFields {
        database_id: v["databaseId"].as_u64(),
        workflow_name: v["workflowName"].as_str().map(String::from),
        status: v["status"].as_str().map(String::from),
        conclusion: v["conclusion"].as_str().map(String::from),
        head_branch: v["headBranch"].as_str().map(String::from),
        event: v["event"].as_str().map(String::from),
        created_at: v["createdAt"].as_str().map(String::from),
    }).collect())
}

/// Reads `gh pr list --json` output with `serde_json::from_str` into a list
/// of JSON values and picks each pull request's fields; the result is what
/// [`json_pr_list`] names.
#[verifier::external_body]
fn parse_pr_list(out: &str) -> (r: Option<Vec<PrFields>>)
    ensures
        pr_fields_views(r) == json_pr_list(out@),
{
    let vals: Vec<Value> = serde_json::from_str(out).ok()?;
    Some(vals.iter().map(|v| PrFields {
        number: v["number"].as_u64(),
        title: v["title"].as_str().map(String::from),
        author_login: v["author"]["login"].as_str().map(String::from),
        head_ref_name: v["headRefName"].as_str().map(String::from),
        url: v["url"].as_str().map(String::from),
        created_at: v["createdAt"].as_str().map(String::from),
    }).collect())
}

/// Reads one line of Dependabot alert JSON with `serde_json::from_str` and
/// picks its fields; the result is what [`json_dependency_alert`] names.
#[verifier::external_body]
fn parse_dependency_alert(line: &str) -> (r: Option<DependencyAlertFields>)
    ensures
        r matches Some(f) ==> json_dependency_alert(line@) == Some(f@),
        r is None ==> json_dependency_alert(line@) is None,
{
    let v: Value = serde_json::from_str(line).ok()?;
    let adv = &v["security_advisory"];
    Some(DependencyAlertFields {
        number: v["number"].as_u64(),
        package_name: v["dependency"]["package"]["name"].as_str().map(String::from),
        severity: adv["severity"].as_str().map(String::from),
        summary: adv["summary"].as_str().map(String::from),
        cve_id: adv["cve_id"].as_str().map(String::from),
        html_url: v["html_url"].as_str().map(String::from),
    })
}

/// Reads one line of code scanning alert JSON with `serde_json::from_str`
/// and picks its fields; the result is what [`json_code_alert`] names.
#[verifier::external_body]
fn parse_code_alert(line: &str) -> (r: Option<CodeAlertFields>)
    ensures
        r matches Some(f) ==> json_code_alert(line@) == Some(f@),
        r is None ==> json_code_alert(line@) is None,
{
    let v: Value = serde_json::from_str(line).ok()?;
    let rule = &v["rule"];
    Some(CodeAlertFields {
        number: v["number"].as_u64(),
        security_severity_level: rule["security_severity_level"].as_str().map(String::from),
        rule_severity: rule["severity"].as_str().map(String::from),
        rule_id: rule["id"].as_str().map(String::from),
        rule_description: rule["description"].as_str().map(String::from),
        html_url: v["html_url"].as_str().map(String::from),
    })
}

/// Reads one line of secret scanning alert JSON with `serde_json::from_str`
/// and picks its fields; the result is what [`json_secret_alert`] names.
#[verifier::external_body]
fn parse_secret_alert(line: &str) -> (r: Option<SecretAlertFields>)
    ensures
        r matches Some(f) ==> json_secret_alert(line@) == Some(f@),
        r is None ==> json_secret_alert(line@) is None,
{
    let v: Value = serde_json::from_str(line).ok()?;
    Some(SecretAlertFields {
        number: v["number"].as_u64(),
        secret_type: v["secret_type_display_name"].as_str().map(String::from),
        html_url: v["html_url"].as_str().map(String::from),
    })
}

/// The view of an optional CI run.
pub open spec fn run_view_opt(r: Option<CiRun>) -> Option<CiRunView> {
    match r {
        Some(x) => Some(x@),
        None => None,
    }
}

/// The run kept from `gh run list` output: the first listed, where there
/// is one and it has a run id.
pub open spec fn first_run(repo: RepoView, wf: Seq<char>, j: Option<Seq<RunFieldsView>>) -> Option<CiRunView> {
    match j {
        Some(fs) => if fs.len() > 0 {
            run_record(repo, wf, fs[0])
        } else {
            None
        },
        None => None,
    }
}

/// The latest run of workflow file `workflow_file` of `repo`, from the
/// output of `gh run list --workflow .. --json .. --limit 1`: the first run
/// listed, where the output is a JSON array whose first entry has a run id.
pub fn run_from_output(repo: &GitRepo, workflow_file: &str, out: &str) -> (r: Option<CiRun>)
    ensures
        run_view_opt(r) == first_run(repo@, workflow_file@, json_run_list(out@)),
{
    match parse_run_list(out) {
        None => None,
        Some(fs) => {
            if fs.len() == 0 {
                return None;
            }
            let mut fs = fs;
            let ghost f0 = fs@[0]@;
            let f = fs.remove(0);
            ci_run_from(repo, workflow_file, f)
        },
    }
}

/// The pull requests kept from a list of fields, in order: those with a
/// number, title, branch and URL.
pub open spec fn kept_prs(repo_name: Seq<char>, fs: Seq<PrFieldsView>) -> Seq<PrView>
    decreases fs.len(),
{
    if fs.len() == 0 {
        Seq::empty()
    } else {
        let k = kept_prs(repo_name, fs.drop_last());
        match pr_record(repo_name, fs.last()) {
            Some(p) => k.push(p),
            None => k,
        }
    }
}

/// The open pull requests of the repository named `repo_name`, from the
/// output of `gh pr list --json ..`: every listed one that has a number,
/// title, branch and URL, in order; none where the output is no JSON array.
pub fn prs_from_output(repo_name: &str, out: &str) -> (r: Vec<PrItem>)
    ensures
        pr_views(r@) == match json_pr_list(out@) {
            Some(fs) => kept_prs(repo_name@, fs),
            None => Seq::empty(),
        },
{
    let mut r: Vec<PrItem> = Vec::new();
    let fs = match parse_pr_list(out) {
        None => {
            assert(pr_views(r@) =~= Seq::empty());
            return r;
        },
        Some(fs) => fs,
    };
    let ghost fv = fs@.map_values(|f: PrFields| f@);
    let n = fs.len();
    let mut rest = fs;
    let mut i: usize = 0;
    assert(fv.take(0) =~= Seq::<PrFieldsView>::empty());
    assert(pr_views(r@) =~= Seq::empty());
    while i < n
        invariant
            i <= n == fv.len(),
            rest@.len() == n - i,
            forall|j: int| 0 <= j < rest@.len() ==> (#[trigger] rest@[j])@ == fv[i + j],
            pr_views(r@) == kept_prs(repo_name@, fv.take(i as int)),
        decreases n - i,
    {
        let ghost old_rest = rest@;
        let f = rest.remove(0);
        assert(f@ == fv[i as int]);
        assert forall|j: int| 0 <= j < rest@.len() implies (#[trigger] rest@[j])@ == fv[i + 1 + j] by {
            assert(rest@[j] == old_rest[j + 1]);
        }
        assert(fv.take(i + 1).drop_last() =~= fv.take(i as int));
        assert(fv.take(i + 1).last() == f@);
        let ghost old_r = r@;
        match pr_item_from(repo_name, f) {
            Some(p) => {
                r.push(p);
                assert(pr_views(r@) =~= pr_views(old_r).push(p@));
            },
            None => {},
        }
        i += 1;
    }
    assert(fv.take(n as int) =~= fv);
    r
}

/// The alerts kept from the lines of an alert listing, in order: each line
/// that `pick` reads into an alert.
pub open spec fn kept_alerts(ls: Seq<Seq<char>>, pick: spec_fn(Seq<char>) -> Option<AlertView>) -> Seq<AlertView>
    decreases ls.len(),
{
    if ls.len() == 0 {
        Seq::empty()
    } else {
        let k = kept_alerts(ls.drop_last(), pick);
        match pick(ls.last()) {
            Some(a) => k.push(a),
            None => k,
        }
    }
}

/// How a line of Dependabot output is read into an alert of `repo`: a line of
/// JSON whose fields have a number.
pub open spec fn dependency_pick(repo: RepoView) -> spec_fn(Seq<char>) -> Option<AlertView> {
    |l: Seq<char>|
        match json_dependency_alert(l) {
            Some(f) => dependency_record(repo, f),
            None => None,
        }
}

/// The open vulnerable-dependency alerts of `repo`, from the output of the
/// `gh api` Dependabot query, one JSON object per line: each line that reads as
/// JSON and has a number, in order; the other lines are skipped.
pub fn dependency_alerts_from(repo: &GitRepo, out: &str) -> (r: Vec<SecurityAlert>)
    ensures
        alert_views(r@) == kept_alerts(lines(out@), dependency_pick(repo@)),
{
    let cs = chars_of(out);
    let ls = split_lines(&cs);
    let ghost lv = views(ls@);
    let ghost pick = dependency_pick(repo@);
    let mut r: Vec<SecurityAlert> = Vec::new();
    let mut i: usize = 0;
    assert(lv.take(0) =~= Seq::<Seq<char>>::empty());
    assert(alert_views(r@) =~= Seq::empty());
    while i < ls.len()
        invariant
            i <= ls.len(),
            lv == views(ls@),
            pick == dependency_pick(repo@),
            alert_views(r@) == kept_alerts(lv.take(i as int), pick),
        decreases ls.len() - i,
    {
        let line = string_of(&ls[i]);
        assert(lv.take(i + 1).drop_last() =~= lv.take(i as int));
        assert(lv.take(i + 1).last() == line@);
        let ghost old_r = r@;
        match parse_dependency_alert(line.as_str()) {
            Some(f) => {
                match dependency_alert_from(repo, f) {
                    Some(a) => {
                        r.push(a);
                        assert(alert_views(r@) =~= alert_views(old_r).push(a@));
                    },
                    None => {},
                }
            },
            None => {},
        }
        i += 1;
    }
    assert(lv.take(ls.len() as int) =~= lv);
    r
}

/// How a line of code scanning output is read into an alert of `repo`: a line of
/// JSON whose fields have a number.
pub open spec fn code_pick(repo: RepoView) -> spec_fn(Seq<char>) -> Option<AlertView> {
    |l: Seq<char>|
        match json_code_alert(l) {
            Some(f) => code_record(repo, f),
            None => None,
        }
}

/// The open code scanning alerts of `repo`, from the output of the
/// `gh api` code scanning query, one JSON object per line: each line that reads as
/// JSON and has a number, in order; the other lines are skipped.
pub fn code_alerts_from(repo: &GitRepo, out: &str) -> (r: Vec<SecurityAlert>)
    ensures
        alert_views(r@) == kept_alerts(lines(out@), code_pick(repo@)),
{
    let cs = chars_of(out);
    let ls = split_lines(&cs);
    let ghost lv = views(ls@);
    let ghost pick = code_pick(repo@);
    let mut r: Vec<SecurityAlert> = Vec::new();
    let mut i: usize = 0;
    assert(lv.take(0) =~= Seq::<Seq<char>>::empty());
    assert(alert_views(r@) =~= Seq::empty());
    while i < ls.len()
        invariant
            i <= ls.len(),
            lv == views(ls@),
            pick == code_pick(repo@),
            alert_views(r@) == kept_alerts(lv.take(i as int), pick),
        decreases ls.len() - i,
    {
        let line = string_of(&ls[i]);
        assert(lv.take(i + 1).drop_last() =~= lv.take(i as int));
        assert(lv.take(i + 1).last() == line@);
        let ghost old_r = r@;
        match parse_code_alert(line.as_str()) {
            Some(f) => {
                match code_alert_from(repo, f) {
                    Some(a) => {
                        r.push(a);
                        assert(alert_views(r@) =~= alert_views(old_r).push(a@));
                    },
                    None => {},
                }
            },
            None => {},
        }
        i += 1;
    }
    assert(lv.take(ls.len() as int) =~= lv);
    r
}

/// How a line of secret scanning output is read into an alert of `repo`: a line of
/// JSON whose fields have a number.
pub open spec fn secret_pick(repo: RepoView) -> spec_fn(Seq<char>) -> Option<AlertView> {
    |l: Seq<char>|
        match json_secret_alert(l) {
            Some(f) => secret_record(repo, f),
            None => None,
        }
}

/// The open leaked-secret alerts of `repo`, from the output of the
/// `gh api` secret scanning query, one JSON object per line: each line that reads as
/// JSON and has a number, in order; the other lines are skipped.
pub fn secret_alerts_from(repo: &GitRepo, out: &str) -> (r: Vec<SecurityAlert>)
    ensures
        alert_views(r@) == kept_alerts(lines(out@), secret_pick(repo@)),
{
    let cs = chars_of(out);
    let ls = split_lines(&cs);
    let ghost lv = views(ls@);
    let ghost pick = secret_pick(repo@);
    let mut r: Vec<SecurityAlert> = Vec::new();
    let mut i: usize = 0;
    assert(lv.take(0) =~= Seq::<Seq<char>>::empty());
    assert(alert_views(r@) =~= Seq::empty());
    while i < ls.len()
        invariant
            i <= ls.len(),
            lv == views(ls@),
            pick == secret_pick(repo@),
            alert_views(r@) == kept_alerts(lv.take(i as int), pick),
        decreases ls.len() - i,
    {
        let line = string_of(&ls[i]);
        assert(lv.take(i + 1).drop_last() =~= lv.take(i as int));
        assert(lv.take(i + 1).last() == line@);
        let ghost old_r = r@;
        match parse_secret_alert(line.as_str()) {
            Some(f) => {
                match secret_alert_from(repo, f) {
                    Some(a) => {
                        r.push(a);
                        assert(alert_views(r@) =~= alert_views(old_r).push(a@));
                    },
                    None => {},
                }
            },
            None => {},
        }
        i += 1;
    }
    assert(lv.take(ls.len() as int) =~= lv);
    r
}

} // verus!
