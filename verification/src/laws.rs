//! Properties that hold across the functions of the library.

use vstd::prelude::*;
use crate::checks::{
    failing_run, is_failing, lemma_select_empty, lemma_select_len, pending_run, select,
    spec_check_blockers, spec_check_workflows, spec_check_tags,
};
use crate::github::{GitHubActionsWorkflowRun, GitHubIssue, GitHubRepositoryDetail, GitHubTag};
use crate::models::{CheckView, ReleaseCheckRequest, ReleaseReadinessMetrics};
use crate::readiness::{
    decision_text, metric_failed_run, metric_pending_run, score_value, spec_build_metrics,
    with_status,
};
use crate::request::{branch_text, label_form, label_forms, non_empty, normalized_labels, target_tag_text};
use crate::models::default_blocker_label_texts;
use crate::run::{GatheredEvidence, spec_checks};
use crate::store::{HistoryRow, history_items};
use crate::text::{ascii_lower, lower_char, is_ws, lemma_trim_empty, lemma_trim_end_prefix, lemma_trim_idempotent, lemma_trim_start_empty, trim, trim_end, trim_start, has_visible};

verus! {

/// The decision texts differ from one another.
pub proof fn lemma_decisions_distinct()
    ensures
        "hold"@ != "watch"@,
        "hold"@ != "ready"@,
        "watch"@ != "ready"@,
{
    reveal_strlit("hold");
    reveal_strlit("watch");
    reveal_strlit("ready");
    assert("hold"@[0] != "watch"@[0]);
    assert("hold"@[0] != "ready"@[0]);
    assert("watch"@[0] != "ready"@[0]);
}

/// The decision is always `ready`, `watch` or `hold`.
pub proof fn law_decision_is_ready_watch_or_hold(m: ReleaseReadinessMetrics)
    ensures
        decision_text(m) == "ready"@ || decision_text(m) == "watch"@ || decision_text(m) == "hold"@,
{
}

/// Some check has the given status exactly when the count of that status is non-zero.
proof fn lemma_status_count(checks: Seq<CheckView>, status: Seq<char>)
    requires
        checks.len() <= u32::MAX,
    ensures
        (select(checks, with_status(status)).len() as u32 > 0) <==> (exists|i: int|
            0 <= i < checks.len() && #[trigger] checks[i].status == status),
{
    lemma_select_empty(checks, with_status(status));
    lemma_select_len(checks, with_status(status));
    if exists|i: int| 0 <= i < checks.len() && #[trigger] checks[i].status == status {
        let i = choose|i: int| 0 <= i < checks.len() && #[trigger] checks[i].status == status;
        assert(with_status(status)(checks[i]));
    }
}

/// A run is put on hold exactly when one of its checks blocks.
pub proof fn law_hold_iff_a_check_blocks(
    checks: Seq<CheckView>,
    runs: Seq<GitHubActionsWorkflowRun>,
    issues: Seq<GitHubIssue>,
    labels: Seq<Seq<char>>,
    tags_seen: nat,
    releases_seen: nat,
)
    requires
        checks.len() <= u32::MAX,
    ensures
        (decision_text(spec_build_metrics(checks, runs, issues, labels, tags_seen, releases_seen))
            == "hold"@) <==> (exists|i: int| 0 <= i < checks.len() && #[trigger] checks[i].status == "block"@),
{
    lemma_decisions_distinct();
    lemma_status_count(checks, "block"@);
}

/// A run is on watch exactly when no check blocks and some check warns.
pub proof fn law_watch_iff_warnings_only(
    checks: Seq<CheckView>,
    runs: Seq<GitHubActionsWorkflowRun>,
    issues: Seq<GitHubIssue>,
    labels: Seq<Seq<char>>,
    tags_seen: nat,
    releases_seen: nat,
)
    requires
        checks.len() <= u32::MAX,
    ensures
        (decision_text(spec_build_metrics(checks, runs, issues, labels, tags_seen, releases_seen))
            == "watch"@) <==> (
            !(exists|i: int| 0 <= i < checks.len() && #[trigger] checks[i].status == "block"@)
            && (exists|i: int| 0 <= i < checks.len() && #[trigger] checks[i].status == "warn"@)),
{
    lemma_decisions_distinct();
    lemma_status_count(checks, "block"@);
    lemma_status_count(checks, "warn"@);
}

/// A run is ready exactly when no check blocks or warns.
pub proof fn law_ready_iff_no_block_or_warning(
    checks: Seq<CheckView>,
    runs: Seq<GitHubActionsWorkflowRun>,
    issues: Seq<GitHubIssue>,
    labels: Seq<Seq<char>>,
    tags_seen: nat,
    releases_seen: nat,
)
    requires
        checks.len() <= u32::MAX,
    ensures
        (decision_text(spec_build_metrics(checks, runs, issues, labels, tags_seen, releases_seen))
            == "ready"@) <==> (forall|i: int|
            0 <= i < checks.len() ==> #[trigger] checks[i].status != "block"@ && checks[i].status
                != "warn"@),
{
    lemma_decisions_distinct();
    lemma_status_count(checks, "block"@);
    lemma_status_count(checks, "warn"@);
}

/// The score lies between 1 and 100.
pub proof fn law_score_in_range(m: ReleaseReadinessMetrics)
    ensures
        1 <= score_value(m) <= 100,
{
}

/// The score is 100 exactly when the decision is `ready`.
pub proof fn law_full_score_iff_ready(m: ReleaseReadinessMetrics)
    ensures
        (score_value(m) == 100) <==> (decision_text(m) == "ready"@),
{
    lemma_decisions_distinct();
}

/// A run on hold scores at most 75.
pub proof fn law_hold_scores_at_most_75(m: ReleaseReadinessMetrics)
    ensures
        decision_text(m) == "hold"@ ==> score_value(m) <= 75,
{
    lemma_decisions_distinct();
}

/// More blocking checks or more warnings never raise the score.
pub proof fn law_score_monotone(m1: ReleaseReadinessMetrics, m2: ReleaseReadinessMetrics)
    requires
        m1.blocked <= m2.blocked,
        m1.warned <= m2.warned,
    ensures
        score_value(m2) <= score_value(m1),
{
}

/// Every check of a run reports `pass`, `warn` or `block`.
pub proof fn law_checks_pass_warn_or_block(
    request: ReleaseCheckRequest,
    repository: GitHubRepositoryDetail,
    ev: GatheredEvidence,
)
    ensures
        spec_checks(request, repository, ev).len() == 7,
        forall|i: int|
            0 <= i < 7 ==> {
                let s = #[trigger] spec_checks(request, repository, ev)[i].status;
                s == "pass"@ || s == "warn"@ || s == "block"@
            },
{
    let c = spec_checks(request, repository, ev);
    assert(c.len() == 7);
    assert forall|i: int| 0 <= i < 7 implies {
        let s = #[trigger] spec_checks(request, repository, ev)[i].status;
        s == "pass"@ || s == "warn"@ || s == "block"@
    } by {
        if i == 5 {
            let path = trim(request.changelog_path@);
            if path.len() != 0 {
                match ev.changelog {
                    Ok(_) => {},
                    Err(_) => {},
                }
            }
        }
    }
}

/// Pointwise-equivalent predicates select the same number of items.
proof fn lemma_select_same_len<A>(s: Seq<A>, p: spec_fn(A) -> bool, q: spec_fn(A) -> bool)
    requires
        forall|i: int| 0 <= i < s.len() ==> (p(#[trigger] s[i]) <==> q(s[i])),
    ensures
        select(s, p).len() == select(s, q).len(),
    decreases s.len(),
{
    if s.len() > 0 {
        assert forall|i: int| 0 <= i < s.drop_last().len() implies (p(#[trigger] s.drop_last()[i])
            <==> q(s.drop_last()[i])) by {
            assert(s.drop_last()[i] == s[i]);
        }
        lemma_select_same_len(s.drop_last(), p, q);
        assert(p(s.last()) <==> q(s[s.len() - 1]));
    }
}

/// A failing conclusion is neither `success` nor blank.
proof fn lemma_failing_is_visible(c: Seq<char>)
    requires
        is_failing(c),
    ensures
        c != "success"@,
        trim(c).len() != 0,
{
    reveal_strlit("success");
    reveal_strlit("failure");
    reveal_strlit("cancelled");
    reveal_strlit("timed_out");
    reveal_strlit("action_required");
    reveal_strlit("startup_failure");
    assert(!is_ws(c[0]));
    assert(c[0] != "success"@[0] || c[1] != "success"@[1]);
    assert(has_visible(c));
    lemma_trim_empty(c);
}

/// A blank conclusion is not `success`.
proof fn lemma_blank_is_not_success(c: Seq<char>)
    requires
        trim(c).len() == 0,
    ensures
        c != "success"@,
{
    reveal_strlit("success");
    lemma_trim_empty(c);
    if c == "success"@ {
        assert(!is_ws(c[0]));
        assert(has_visible(c));
    }
}

/// The workflow counters of the metrics agree with the CI-health check's: the same
/// failures and the same pending runs.
pub proof fn law_workflow_metrics_match_ci_check(runs: Seq<GitHubActionsWorkflowRun>)
    ensures
        select(runs, metric_failed_run()).len() == select(runs, failing_run()).len(),
        select(runs, metric_pending_run()).len() == select(runs, pending_run()).len(),
{
    assert forall|i: int| 0 <= i < runs.len() implies (metric_failed_run()(#[trigger] runs[i])
        <==> failing_run()(runs[i])) by {
        if is_failing(runs[i].conclusion@) {
            lemma_failing_is_visible(runs[i].conclusion@);
        }
    }
    lemma_select_same_len(runs, metric_failed_run(), failing_run());
    assert forall|i: int| 0 <= i < runs.len() implies (metric_pending_run()(#[trigger] runs[i])
        <==> pending_run()(runs[i])) by {
        if trim(runs[i].conclusion@).len() == 0 {
            lemma_blank_is_not_success(runs[i].conclusion@);
        }
    }
    lemma_select_same_len(runs, metric_pending_run(), pending_run());
}

/// The CI-health check blocks exactly when the metrics count a failed workflow run.
pub proof fn law_ci_blocks_iff_failed_runs(
    checks: Seq<CheckView>,
    runs: Seq<GitHubActionsWorkflowRun>,
    issues: Seq<GitHubIssue>,
    labels: Seq<Seq<char>>,
    tags_seen: nat,
    releases_seen: nat,
    branch: Seq<char>,
)
    requires
        0 < runs.len() <= u32::MAX,
    ensures
        (spec_check_workflows(runs, branch).status == "block"@) <==> (spec_build_metrics(
            checks,
            runs,
            issues,
            labels,
            tags_seen,
            releases_seen,
        ).workflow_failures > 0),
{
    reveal_strlit("block");
    reveal_strlit("warn");
    reveal_strlit("pass");
    assert("block"@[0] != "warn"@[0]);
    assert("block"@[0] != "pass"@[0]);
    law_workflow_metrics_match_ci_check(runs);
    lemma_select_len(runs, failing_run());
}

/// The release-blocker check blocks exactly when the metrics count a release blocker.
pub proof fn law_blocker_check_matches_metric(
    checks: Seq<CheckView>,
    runs: Seq<GitHubActionsWorkflowRun>,
    issues: Seq<GitHubIssue>,
    labels: Seq<Seq<char>>,
    tags_seen: nat,
    releases_seen: nat,
)
    requires
        issues.len() <= u32::MAX,
    ensures
        (spec_check_blockers(issues, labels).status == "block"@) <==> (spec_build_metrics(
            checks,
            runs,
            issues,
            labels,
            tags_seen,
            releases_seen,
        ).release_blockers > 0),
{
    reveal_strlit("block");
    reveal_strlit("pass");
    assert("block"@[0] != "pass"@[0]);
    lemma_select_len(issues, crate::checks::blocker_issue(labels));
}

/// The tag check shows at most five tags, the CI-health check at most six runs, and the
/// release-blocker check at most five issues.
pub proof fn law_evidence_is_capped(
    tags: Seq<GitHubTag>,
    target: Seq<char>,
    runs: Seq<GitHubActionsWorkflowRun>,
    branch: Seq<char>,
    issues: Seq<GitHubIssue>,
    labels: Seq<Seq<char>>,
)
    ensures
        spec_check_tags(tags, target).evidence.len() <= 5,
        spec_check_workflows(runs, branch).evidence.len() <= 6,
        spec_check_blockers(issues, labels).evidence.len() <= 5,
{
}

/// Normalising a branch twice is normalising it once.
pub proof fn law_normalize_branch_idempotent(requested: Seq<char>, default_branch: Seq<char>)
    ensures
        branch_text(branch_text(requested, default_branch), default_branch) == branch_text(
            requested,
            default_branch,
        ),
{
    lemma_trim_idempotent(requested);
    lemma_trim_idempotent(default_branch);
}

/// Prepending `v` to a trimmed, non-empty text gives a text that is its own trim.
proof fn lemma_v_prefixed_is_trimmed(v: Seq<char>)
    requires
        v.len() > 0,
        trim(v) == v,
    ensures
        trim("v"@ + v) == "v"@ + v,
{
    reveal_strlit("v");
    let t = "v"@ + v;
    lemma_trim_start_empty(v);
    lemma_trim_end_prefix(trim_start(v));
    // `v` is its own trim, so it ends with a visible character, and so does `t`.
    assert(!is_ws(v.last()));
    assert(t.last() == v.last());
    assert(!is_ws(t[0]));
}

/// Deriving the target tag twice is deriving it once.
pub proof fn law_normalize_target_tag_idempotent(requested: Seq<char>, version: Seq<char>)
    ensures
        target_tag_text(target_tag_text(requested, version), version) == target_tag_text(
            requested,
            version,
        ),
{
    lemma_trim_idempotent(requested);
    lemma_trim_idempotent(version);
    let r = trim(requested);
    let v = trim(version);
    if r.len() == 0 && v.len() > 0 && v[0] != 'v' {
        lemma_v_prefixed_is_trimmed(v);
    }
}

/// A tag derived from a version starts with `v`.
pub proof fn law_derived_tag_starts_with_v(requested: Seq<char>, version: Seq<char>)
    requires
        trim(requested).len() == 0,
        trim(version).len() > 0,
    ensures
        target_tag_text(requested, version).len() > 0,
        target_tag_text(requested, version)[0] == 'v',
{
    reveal_strlit("v");
}

/// Lower-casing keeps whether a character is whitespace.
proof fn lemma_lower_keeps_ws(c: char)
    ensures
        is_ws(lower_char(c)) == is_ws(c),
        lower_char(lower_char(c)) == lower_char(c),
{
}

/// Lower-casing twice is lower-casing once.
proof fn lemma_ascii_lower_idempotent(s: Seq<char>)
    ensures
        ascii_lower(ascii_lower(s)) == ascii_lower(s),
{
    assert forall|i: int| 0 <= i < s.len() implies #[trigger] ascii_lower(ascii_lower(s))[i] == ascii_lower(s)[i] by {
        lemma_lower_keeps_ws(s[i]);
    }
    assert(ascii_lower(ascii_lower(s)) =~= ascii_lower(s));
}

/// A label in matching form is its own matching form.
pub proof fn lemma_label_form_idempotent(s: Seq<char>)
    ensures
        label_form(label_form(s)) == label_form(s),
{
    let a = trim_start(s);
    let t = trim(s);
    lemma_trim_start_empty(s);
    lemma_trim_end_prefix(a);
    let l = ascii_lower(t);
    if t.len() > 0 {
        assert(t[0] == a[0]);
        lemma_lower_keeps_ws(t[0]);
        lemma_lower_keeps_ws(t.last());
        assert(l[0] == lower_char(t[0]));
        assert(l.last() == lower_char(t.last()));
        assert(trim_start(l) == l);
        assert(trim_end(l) == l);
    } else {
        assert(l.len() == 0);
    }
    assert(trim(l) == l);
    lemma_ascii_lower_idempotent(t);
}

/// Selecting by a predicate that every item satisfies keeps everything.
proof fn lemma_select_all<A>(s: Seq<A>, p: spec_fn(A) -> bool)
    requires
        forall|i: int| 0 <= i < s.len() ==> p(#[trigger] s[i]),
    ensures
        select(s, p) == s,
    decreases s.len(),
{
    if s.len() > 0 {
        assert forall|i: int| 0 <= i < s.drop_last().len() implies p(#[trigger] s.drop_last()[i]) by {
            assert(s.drop_last()[i] == s[i]);
        }
        lemma_select_all(s.drop_last(), p);
        assert(p(s[s.len() - 1]));
        assert(s.drop_last().push(s.last()) =~= s);
    }
}

/// Every selected item satisfies the predicate and is the image of an item of `s`.
proof fn lemma_select_items<A>(s: Seq<A>, p: spec_fn(A) -> bool)
    ensures
        forall|i: int| 0 <= i < select(s, p).len() ==> p(#[trigger] select(s, p)[i]),
        forall|i: int| 0 <= i < select(s, p).len() ==> exists|j: int| 0 <= j < s.len() && #[trigger] select(s, p)[i] == s[j],
    decreases s.len(),
{
    if s.len() > 0 {
        lemma_select_items(s.drop_last(), p);
        let r = select(s.drop_last(), p);
        assert forall|i: int| 0 <= i < select(s, p).len() implies exists|j: int| 0 <= j < s.len() && #[trigger] select(s, p)[i] == s[j] by {
            if i < r.len() {
                let j = choose|j: int| 0 <= j < s.drop_last().len() && r[i] == s.drop_last()[j];
                assert(select(s, p)[i] == s[j]);
            } else {
                assert(select(s, p)[i] == s[s.len() - 1]);
            }
        }
    }
}

/// The default blocker labels are in matching form.
proof fn lemma_default_labels_are_forms()
    ensures
        forall|i: int| 0 <= i < 4 ==> label_form(#[trigger] default_blocker_label_texts()[i])
            == default_blocker_label_texts()[i] && default_blocker_label_texts()[i].len() > 0,
{
    reveal_strlit("release-blocker");
    reveal_strlit("blocker");
    reveal_strlit("critical");
    reveal_strlit("regression");
    let d = default_blocker_label_texts();
    assert forall|i: int| 0 <= i < 4 implies label_form(#[trigger] d[i]) == d[i] && d[i].len() > 0 by {
        let w = d[i];
        assert(!is_ws(w[0]));
        assert(!is_ws(w.last()));
        assert(trim(w) == w);
        assert(ascii_lower(w) =~= w);
    }
}

/// Normalising blocker labels twice is normalising them once.
pub proof fn law_normalize_blocker_labels_idempotent(labels: Seq<Seq<char>>)
    ensures
        normalized_labels(normalized_labels(labels)) == normalized_labels(labels),
{
    let n = normalized_labels(labels);
    let forms = labels.map_values(|s: Seq<char>| label_form(s));
    if label_forms(labels).len() == 0 {
        lemma_default_labels_are_forms();
    } else {
        lemma_select_items(forms, non_empty());
        assert forall|i: int| 0 <= i < n.len() implies label_form(#[trigger] n[i]) == n[i] && n[i].len() > 0 by {
            let j = choose|j: int| 0 <= j < forms.len() && n[i] == forms[j];
            lemma_label_form_idempotent(labels[j]);
            assert(non_empty()(n[i]));
        }
    }
    let again = n.map_values(|s: Seq<char>| label_form(s));
    assert(again =~= n);
    lemma_select_all(n, non_empty());
}

/// Every history item has its decision as its status.
pub proof fn law_history_status_is_decision(rows: Seq<Option<HistoryRow>>)
    ensures
        forall|i: int| 0 <= i < history_items(rows).len() ==> #[trigger] history_items(rows)[i].status
            == history_items(rows)[i].decision,
    decreases rows.len(),
{
    if rows.len() > 0 {
        law_history_status_is_decision(rows.drop_last());
        let prev = history_items(rows.drop_last());
        assert forall|i: int| 0 <= i < history_items(rows).len() implies #[trigger] history_items(
            rows,
        )[i].status == history_items(rows)[i].decision by {
            if i < prev.len() {
                assert(history_items(rows)[i] == prev[i]);
            }
        }
    }
}

} // verus!
