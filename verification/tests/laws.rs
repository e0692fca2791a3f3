use release_sentry::checks::{check_blockers, check_workflows};
use release_sentry::github::{GitHubActionsWorkflowRun, GitHubIssue, GitHubLabel};
use release_sentry::models::{ReleaseCheck, ReleaseReadinessMetrics};
use release_sentry::readiness::{build_metrics, decision_for_metrics, score_for_metrics};
use release_sentry::store::{history, HistoryRow};

fn check(status: &str) -> ReleaseCheck {
    ReleaseCheck { status: status.into(), ..Default::default() }
}

fn run(conclusion: &str) -> GitHubActionsWorkflowRun {
    GitHubActionsWorkflowRun { name: "CI".into(), run_number: 1, conclusion: conclusion.into(), html_url: "u".into() }
}

#[test]
fn decision_is_always_ready_watch_or_hold() {
    for blocked in 0..3 {
        for warned in 0..3 {
            let m = ReleaseReadinessMetrics { blocked, warned, ..Default::default() };
            let d = decision_for_metrics(&m);
            assert!(d == "ready" || d == "watch" || d == "hold");
            let s = score_for_metrics(&m);
            assert!((1..=100).contains(&s));
            assert_eq!(s == 100, d == "ready");
            if d == "hold" {
                assert!(s <= 75);
            }
        }
    }
}

#[test]
fn score_never_rises_with_more_problems() {
    let base = ReleaseReadinessMetrics { blocked: 1, warned: 1, ..Default::default() };
    let worse = ReleaseReadinessMetrics { blocked: 1, warned: 2, ..Default::default() };
    let worst = ReleaseReadinessMetrics { blocked: 2, warned: 2, ..Default::default() };
    assert!(score_for_metrics(&worse) <= score_for_metrics(&base));
    assert!(score_for_metrics(&worst) <= score_for_metrics(&worse));
}

#[test]
fn watch_only_when_warnings_and_no_block() {
    let m = build_metrics(&vec![check("pass"), check("warn")], &vec![], &vec![], &vec![], 0, 0);
    assert_eq!(decision_for_metrics(&m), "watch");
    let m = build_metrics(&vec![check("warn"), check("block")], &vec![], &vec![], &vec![], 0, 0);
    assert_eq!(decision_for_metrics(&m), "hold");
}

#[test]
fn ci_check_and_metrics_agree_on_failures() {
    for runs in [vec![run("success"), run("cancelled")], vec![run("success"), run(" ")], vec![run("timed_out")]] {
        let c = check_workflows(&runs, "main");
        let m = build_metrics(&vec![], &runs, &vec![], &vec![], 0, 0);
        assert_eq!(c.status == "block", m.workflow_failures > 0);
    }
}

#[test]
fn blocker_check_and_metrics_agree() {
    let labels = vec!["blocker".to_string()];
    let blocked = vec![GitHubIssue {
        number: 1,
        title: "t".into(),
        html_url: "u".into(),
        is_pull_request: false,
        labels: vec![GitHubLabel { name: "blocker".into() }],
    }];
    for issues in [blocked, vec![]] {
        let c = check_blockers(&issues, &labels);
        let m = build_metrics(&vec![], &vec![], &issues, &labels, 0, 0);
        assert_eq!(c.status == "block", m.release_blockers > 0);
    }
}

#[test]
fn history_status_is_the_decision() {
    let row = HistoryRow { decision: "watch".into(), score: 92, ..Default::default() };
    for item in history(&Some(vec![Some(row.clone()), Some(row)])) {
        assert_eq!(item.status, item.decision);
    }
}
