//! The orders in which CI runs and security alerts are listed.

use vstd::prelude::*;

use crate::order::Ranked;
use crate::text::same_text;
use crate::types::{CiRun, SecurityAlert};

verus! {

/// Rank of a CI run by its status and conclusion: running first, then
/// queued, failed, succeeded, and anything else last.
pub open spec fn ci_rank(status: Seq<char>, conclusion: Seq<char>) -> u8 {
    if status == "in_progress"@ {
        0
    } else if status == "queued"@ {
        1
    } else if conclusion == "failure"@ {
        2
    } else if conclusion == "success"@ {
        3
    } else {
        4
    }
}

/// Sort key of a CI run by its status and conclusion.
pub fn ci_sort_key(status: &str, conclusion: &str) -> (k: u8)
    ensures
        k == ci_rank(status@, conclusion@),
{
    if same_text(status, "in_progress") {
        0
    } else if same_text(status, "queued") {
        1
    } else if same_text(conclusion, "failure") {
        2
    } else if same_text(conclusion, "success") {
        3
    } else {
        4
    }
}

/// Rank of an alert severity: critical, high, medium, low, then anything
/// else.
pub open spec fn severity_rank(severity: Seq<char>) -> u8 {
    if severity == "critical"@ {
        0
    } else if severity == "high"@ {
        1
    } else if severity == "medium"@ {
        2
    } else if severity == "low"@ {
        3
    } else {
        4
    }
}

/// Sort key of an alert severity.
pub fn alert_severity_key(severity: &str) -> (k: u8)
    ensures
        k == severity_rank(severity@),
{
    if same_text(severity, "critical") {
        0
    } else if same_text(severity, "high") {
        1
    } else if same_text(severity, "medium") {
        2
    } else if same_text(severity, "low") {
        3
    } else {
        4
    }
}

/// Rank of an alert kind: dependency, code scanning, secret, then anything
/// else.
pub open spec fn kind_rank(kind: Seq<char>) -> u8 {
    if kind == "dep"@ {
        0
    } else if kind == "code"@ {
        1
    } else if kind == "secret"@ {
        2
    } else {
        3
    }
}

/// Sort key of an alert kind.
pub fn kind_key(kind: &str) -> (k: u8)
    ensures
        k == kind_rank(kind@),
{
    if same_text(kind, "dep") {
        0
    } else if same_text(kind, "code") {
        1
    } else if same_text(kind, "secret") {
        2
    } else {
        3
    }
}

/// The severity a code scanning rule's level stands for: `error` is high,
/// `warning` medium, anything else low.
pub open spec fn code_severity(level: Seq<char>) -> Seq<char> {
    if level == "error"@ {
        "high"@
    } else if level == "warning"@ {
        "medium"@
    } else {
        "low"@
    }
}

/// The severity a code scanning rule's level stands for.
pub fn map_code_severity(level: &str) -> (r: &'static str)
    ensures
        r@ == code_severity(level@),
{
    if same_text(level, "error") {
        "high"
    } else if same_text(level, "warning") {
        "medium"
    } else {
        "low"
    }
}

impl Ranked for CiRun {
    open spec fn rank_le(&self, other: &Self) -> bool {
        ci_rank(self.status@, self.conclusion@) <= ci_rank(other.status@, other.conclusion@)
    }

    proof fn rank_total(a: &Self, b: &Self) {
    }

    proof fn rank_trans(a: &Self, b: &Self, c: &Self) {
    }

    fn le(&self, other: &Self) -> (r: bool) {
        ci_sort_key(self.status.as_str(), self.conclusion.as_str()) <= ci_sort_key(
            other.status.as_str(),
            other.conclusion.as_str(),
        )
    }
}

/// Rank of an alert: by severity, then by kind.
pub open spec fn alert_rank(severity: Seq<char>, kind: Seq<char>) -> (u8, u8) {
    (severity_rank(severity), kind_rank(kind))
}

impl Ranked for SecurityAlert {
    open spec fn rank_le(&self, other: &Self) -> bool {
        let a = alert_rank(self.severity@, self.kind@);
        let b = alert_rank(other.severity@, other.kind@);
        a.0 < b.0 || (a.0 == b.0 && a.1 <= b.1)
    }

    proof fn rank_total(a: &Self, b: &Self) {
    }

    proof fn rank_trans(a: &Self, b: &Self, c: &Self) {
    }

    fn le(&self, other: &Self) -> (r: bool) {
        let a0 = alert_severity_key(self.severity.as_str());
        let a1 = kind_key(self.kind.as_str());
        let b0 = alert_severity_key(other.severity.as_str());
        let b1 = kind_key(other.kind.as_str());
        a0 < b0 || (a0 == b0 && a1 <= b1)
    }
}

} // verus!
