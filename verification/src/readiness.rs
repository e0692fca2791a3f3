//! Metrics, the release decision and score, the summary, and the normalisation of
//! requests.

use vstd::prelude::*;
use crate::checks::{blockers, is_failing, lemma_select_step, lemma_select_whole, select, successful_run, issue_is_blocker, failing_conclusion, plural, plural_suffix};
use crate::github::{GitHubActionsWorkflowRun, GitHubIssue};
use crate::models::{CheckView, ReleaseCheck, ReleaseReadinessMetrics, check_views};
use crate::text::{decimal, same_text, texts, trim, trim_text, push_decimal};

verus! {

// ---------------------------------------------------------------------------
// Metrics
// ---------------------------------------------------------------------------

/// A check with the given status.
pub open spec fn with_status(status: Seq<char>) -> spec_fn(CheckView) -> bool {
    |c: CheckView| c.status == status
}

/// A run counted as pending in the metrics: not a success, and blank after trimming.
pub open spec fn metric_pending_run() -> spec_fn(GitHubActionsWorkflowRun) -> bool {
    |r: GitHubActionsWorkflowRun| r.conclusion@ != "success"@ && trim(r.conclusion@).len() == 0
}

/// A run counted as failed in the metrics: not a success, not pending, and a failing
/// conclusion.
pub open spec fn metric_failed_run() -> spec_fn(GitHubActionsWorkflowRun) -> bool {
    |r: GitHubActionsWorkflowRun|
        r.conclusion@ != "success"@ && trim(r.conclusion@).len() != 0 && is_failing(r.conclusion@)
}

/// The metrics of a run over its checks and its GitHub evidence.
pub open spec fn spec_build_metrics(
    checks: Seq<CheckView>,
    runs: Seq<GitHubActionsWorkflowRun>,
    issues: Seq<GitHubIssue>,
    labels: Seq<Seq<char>>,
    tags_seen: nat,
    releases_seen: nat,
) -> ReleaseReadinessMetrics {
    ReleaseReadinessMetrics {
        checks: checks.len() as u32,
        passed: select(checks, with_status("pass"@)).len() as u32,
        warned: select(checks, with_status("warn"@)).len() as u32,
        blocked: select(checks, with_status("block"@)).len() as u32,
        workflow_runs: runs.len() as u32,
        workflow_successes: select(runs, successful_run()).len() as u32,
        workflow_failures: select(runs, metric_failed_run()).len() as u32,
        workflow_pending: select(runs, metric_pending_run()).len() as u32,
        release_blockers: blockers(issues, labels).len() as u32,
        tags_seen: tags_seen as u32,
        releases_seen: releases_seen as u32,
    }
}

/// Counts the checks by status, the workflow runs by outcome and the release blockers.
pub fn build_metrics(
    checks: &Vec<ReleaseCheck>,
    runs: &Vec<GitHubActionsWorkflowRun>,
    issues: &Vec<GitHubIssue>,
    blocker_labels: &Vec<String>,
    tags_seen: usize,
    releases_seen: usize,
) -> (m: ReleaseReadinessMetrics)
    requires
        checks@.len() <= u32::MAX,
        runs@.len() <= u32::MAX,
    ensures
        m == spec_build_metrics(
            check_views(checks@),
            runs@,
            issues@,
            texts(blocker_labels@),
            tags_seen as nat,
            releases_seen as nat,
        ),
{
    let ghost cv = check_views(checks@);
    let mut passed: u32 = 0;
    let mut warned: u32 = 0;
    let mut blocked: u32 = 0;
    let mut i: usize = 0;
    while i < checks.len()
        invariant
            checks@.len() <= u32::MAX,
            cv == check_views(checks@),
            i <= checks@.len(),
            passed == select(cv.take(i as int), with_status("pass"@)).len(),
            warned == select(cv.take(i as int), with_status("warn"@)).len(),
            blocked == select(cv.take(i as int), with_status("block"@)).len(),
            passed + warned + blocked <= i,
        decreases checks@.len() - i,
    {
        proof {
            lemma_select_step(cv, with_status("pass"@), i as int);
            lemma_select_step(cv, with_status("warn"@), i as int);
            lemma_select_step(cv, with_status("block"@), i as int);
            lemma_status_exclusive(cv[i as int].status);
        }
        let status = checks[i].status.as_str();
        if same_text(status, "block") {
            blocked = blocked + 1;
        } else if same_text(status, "warn") {
            warned = warned + 1;
        } else if same_text(status, "pass") {
            passed = passed + 1;
        }
        i = i + 1;
    }
    let mut successes: u32 = 0;
    let mut pending: u32 = 0;
    let mut failures: u32 = 0;
    let mut j: usize = 0;
    while j < runs.len()
        invariant
            runs@.len() <= u32::MAX,
            j <= runs@.len(),
            successes == select(runs@.take(j as int), successful_run()).len(),
            pending == select(runs@.take(j as int), metric_pending_run()).len(),
            failures == select(runs@.take(j as int), metric_failed_run()).len(),
            successes + pending + failures <= j,
        decreases runs@.len() - j,
    {
        proof {
            lemma_select_step(runs@, successful_run(), j as int);
            lemma_select_step(runs@, metric_pending_run(), j as int);
            lemma_select_step(runs@, metric_failed_run(), j as int);
        }
        let conclusion = runs[j].conclusion.as_str();
        if same_text(conclusion, "success") {
            successes = successes + 1;
        } else {
            let trimmed = trim_text(conclusion);
            if trimmed.as_str().is_empty() {
                pending = pending + 1;
            } else if failing_conclusion(conclusion) {
                failures = failures + 1;
            }
        }
        j = j + 1;
    }
    let mut release_blockers: usize = 0;
    let mut k: usize = 0;
    let ghost labels = texts(blocker_labels@);
    while k < issues.len()
        invariant
            labels == texts(blocker_labels@),
            k <= issues@.len(),
            release_blockers == blockers(issues@.take(k as int), labels).len(),
            release_blockers <= k,
        decreases issues@.len() - k,
    {
        proof {
            lemma_select_step(issues@, crate::checks::blocker_issue(labels), k as int);
        }
        if issue_is_blocker(&issues[k], blocker_labels) {
            release_blockers = release_blockers + 1;
        }
        k = k + 1;
    }
    proof {
        lemma_select_whole(cv, with_status("pass"@));
        lemma_select_whole(cv, with_status("warn"@));
        lemma_select_whole(cv, with_status("block"@));
        lemma_select_whole(runs@, successful_run());
        lemma_select_whole(runs@, metric_pending_run());
        lemma_select_whole(runs@, metric_failed_run());
        lemma_select_whole(issues@, crate::checks::blocker_issue(labels));
    }
    ReleaseReadinessMetrics {
        checks: checks.len() as u32,
        passed,
        warned,
        blocked,
        workflow_runs: runs.len() as u32,
        workflow_successes: successes,
        workflow_failures: failures,
        workflow_pending: pending,
        release_blockers: release_blockers as u32,
        tags_seen: tags_seen as u32,
        releases_seen: releases_seen as u32,
    }
}

/// The three statuses are distinct texts.
pub proof fn lemma_status_exclusive(s: Seq<char>)
    ensures
        s == "block"@ ==> s != "warn"@ && s != "pass"@,
        s == "warn"@ ==> s != "pass"@,
{
    reveal_strlit("block");
    reveal_strlit("warn");
    reveal_strlit("pass");
    assert("block"@[0] != "warn"@[0]);
    assert("block"@[0] != "pass"@[0]);
    assert("warn"@[0] != "pass"@[0]);
}

// ---------------------------------------------------------------------------
// Decision and score
// ---------------------------------------------------------------------------

/// `hold` when a check blocks, `watch` when one warns, `ready` otherwise.
pub open spec fn decision_text(m: ReleaseReadinessMetrics) -> Seq<char> {
    if m.blocked > 0 {
        "hold"@
    } else if m.warned > 0 {
        "watch"@
    } else {
        "ready"@
    }
}

/// The release decision for a set of metrics.
pub fn decision_for_metrics(metrics: &ReleaseReadinessMetrics) -> (r: String)
    ensures
        r@ == decision_text(*metrics),
{
    if metrics.blocked > 0 {
        String::from_str("hold")
    } else if metrics.warned > 0 {
        String::from_str("watch")
    } else {
        String::from_str("ready")
    }
}

/// 100, less 25 for each blocking check and 8 for each warning, and never below 1.
pub open spec fn score_value(m: ReleaseReadinessMetrics) -> u32 {
    let raw = 100 - 25 * m.blocked - 8 * m.warned;
    if raw >= 1 { raw as u32 } else { 1 }
}

/// `x.saturating_mul(y)`.
fn saturating_mul_u32(x: u32, y: u32) -> (r: u32)
    ensures
        r == (if x * y > u32::MAX { u32::MAX as int } else { x * y }),
{
    match x.checked_mul(y) {
        Some(p) => p,
        None => u32::MAX,
    }
}

/// The readiness score for a set of metrics.
pub fn score_for_metrics(metrics: &ReleaseReadinessMetrics) -> (r: u32)
    ensures
        r == score_value(*metrics),
{
    let b = saturating_mul_u32(metrics.blocked, 25);
    let w = saturating_mul_u32(metrics.warned, 8);
    let s = 100u32.saturating_sub(b).saturating_sub(w);
    if s < 1 {
        1
    } else {
        s
    }
}

// ---------------------------------------------------------------------------
// Summary
// ---------------------------------------------------------------------------

/// How the summary names the target: the tag in backticks, or the next release.
pub open spec fn target_phrase(tag: Seq<char>) -> Seq<char> {
    if tag.len() == 0 {
        "the next release"@
    } else {
        "`"@ + tag + "`"@
    }
}

/// The one-line summary of a run.
pub open spec fn summary_text(
    repo: Seq<char>,
    branch: Seq<char>,
    decision: Seq<char>,
    m: ReleaseReadinessMetrics,
    tag: Seq<char>,
) -> Seq<char> {
    if decision == "ready"@ {
        "ReleaseSentry says "@ + repo + " is ready to ship "@ + target_phrase(tag) + ": "@
            + decimal(m.passed as nat) + " checks passed on `"@ + branch + "`."@
    } else if decision == "hold"@ {
        "ReleaseSentry says hold "@ + target_phrase(tag) + " for "@ + repo + ": "@ + decimal(
            m.blocked as nat,
        ) + " blocking check"@ + plural_suffix(m.blocked) + " need attention."@
    } else {
        "ReleaseSentry says watch "@ + target_phrase(tag) + " for "@ + repo + ": "@ + decimal(
            m.passed as nat,
        ) + " passed, "@ + decimal(m.warned as nat) + " warned, 0 blocked."@
    }
}

/// The one-line summary of a run.
pub fn build_summary(
    repo: &str,
    branch: &str,
    decision: &str,
    metrics: &ReleaseReadinessMetrics,
    target_tag: &str,
) -> (r: String)
    ensures
        r@ == summary_text(repo@, branch@, decision@, *metrics, target_tag@),
{
    let target = if target_tag.is_empty() {
        String::from_str("the next release")
    } else {
        let mut t = String::from_str("`");
        t.append(target_tag);
        t.append("`");
        t
    };
    assert(target@ == target_phrase(target_tag@));
    assert((metrics.passed as u64) as nat == metrics.passed as nat);
    assert((metrics.blocked as u64) as nat == metrics.blocked as nat);
    assert((metrics.warned as u64) as nat == metrics.warned as nat);
    let mut s;
    if same_text(decision, "ready") {
        s = String::from_str("ReleaseSentry says ");
        s.append(repo);
        s.append(" is ready to ship ");
        s.append(target.as_str());
        s.append(": ");
        push_decimal(&mut s, metrics.passed as u64);
        s.append(" checks passed on `");
        s.append(branch);
        s.append("`.");
    } else if same_text(decision, "hold") {
        s = String::from_str("ReleaseSentry says hold ");
        s.append(target.as_str());
        s.append(" for ");
        s.append(repo);
        s.append(": ");
        push_decimal(&mut s, metrics.blocked as u64);
        s.append(" blocking check");
        s.append(plural(metrics.blocked));
        s.append(" need attention.");
    } else {
        s = String::from_str("ReleaseSentry says watch ");
        s.append(target.as_str());
        s.append(" for ");
        s.append(repo);
        s.append(": ");
        push_decimal(&mut s, metrics.passed as u64);
        s.append(" passed, ");
        push_decimal(&mut s, metrics.warned as u64);
        s.append(" warned, 0 blocked.");
    }
    s
}

} // verus!
