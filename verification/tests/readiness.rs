use release_sentry::checks::{check_blockers, check_repository};
use release_sentry::github::{
    contents_endpoint, decode_content, github_page_size, text_from_decoded, GitHubActionsWorkflowRun,
    GitHubContentFile, GitHubIssue, GitHubLabel, GitHubRelease, GitHubRepositoryDetail, GitHubTag,
    GitHubTagCommit,
};
use release_sentry::models::{
    default_blocker_labels, default_changelog_path, default_run_limit, ReleaseCheck,
    ReleaseCheckRequest, ReleaseReadinessMetrics,
};
use release_sentry::readiness::{build_metrics, build_summary, decision_for_metrics, score_for_metrics};
use release_sentry::request::{
    normalize_blocker_labels, normalize_branch, normalize_target_tag, valid_repo, validated_repo,
};
use release_sentry::run::{build_release_readiness, release_plan, GatheredEvidence};

fn strings(v: &[&str]) -> Vec<String> {
    v.iter().map(|s| s.to_string()).collect()
}

fn check(status: &str) -> ReleaseCheck {
    ReleaseCheck { key: "k".into(), label: "K".into(), status: status.into(), ..Default::default() }
}

fn run(conclusion: &str) -> GitHubActionsWorkflowRun {
    GitHubActionsWorkflowRun {
        name: "CI".into(),
        run_number: 1,
        conclusion: conclusion.into(),
        html_url: "u".into(),
    }
}

fn request() -> ReleaseCheckRequest {
    ReleaseCheckRequest {
        repo: "  acme/widget ".into(),
        branch: " ".into(),
        target_version: " 1.2.3 ".into(),
        target_tag: "".into(),
        changelog_path: "CHANGELOG.md".into(),
        workflow_run_limit: 3,
        blocker_labels: strings(&[" Blocker ", ""]),
    }
}

fn repository() -> GitHubRepositoryDetail {
    GitHubRepositoryDetail {
        full_name: "acme/widget".into(),
        html_url: "https://github.com/acme/widget".into(),
        default_branch: "main".into(),
        archived: false,
        disabled: false,
        open_issues_count: 0,
        pushed_at: None,
    }
}

#[test]
fn metrics_count_statuses_runs_and_blockers() {
    let checks = vec![check("pass"), check("warn"), check("block"), check("warn"), check("other")];
    let runs = vec![run("success"), run(""), run("failure"), run("neutral")];
    let issues = vec![GitHubIssue {
        number: 1,
        title: "t".into(),
        html_url: "u".into(),
        is_pull_request: false,
        labels: vec![GitHubLabel { name: "Blocker".into() }],
    }];
    let m = build_metrics(&checks, &runs, &issues, &strings(&["blocker"]), 7, 2);
    assert_eq!(
        m,
        ReleaseReadinessMetrics {
            checks: 5,
            passed: 1,
            warned: 2,
            blocked: 1,
            workflow_runs: 4,
            workflow_successes: 1,
            workflow_failures: 1,
            workflow_pending: 1,
            release_blockers: 1,
            tags_seen: 7,
            releases_seen: 2,
        }
    );
}

#[test]
fn decision_and_score_follow_the_metrics() {
    let ready = ReleaseReadinessMetrics { passed: 7, ..Default::default() };
    assert_eq!(decision_for_metrics(&ready), "ready");
    assert_eq!(score_for_metrics(&ready), 100);
    let watch = ReleaseReadinessMetrics { warned: 2, ..Default::default() };
    assert_eq!(score_for_metrics(&watch), 84);
    let hold = ReleaseReadinessMetrics { blocked: 1, warned: 4, ..Default::default() };
    assert_eq!(score_for_metrics(&hold), 43);
    let floor = ReleaseReadinessMetrics { blocked: 4, ..Default::default() };
    assert_eq!(score_for_metrics(&floor), 1);
    let huge = ReleaseReadinessMetrics { blocked: u32::MAX, warned: u32::MAX, ..Default::default() };
    assert_eq!(score_for_metrics(&huge), 1);
    let many_warnings = ReleaseReadinessMetrics { warned: 13, ..Default::default() };
    assert_eq!(score_for_metrics(&many_warnings), 1);
}

#[test]
fn summaries_name_repo_target_and_counts() {
    let m = ReleaseReadinessMetrics { passed: 5, warned: 2, blocked: 1, ..Default::default() };
    assert_eq!(
        build_summary("acme/widget", "main", "ready", &m, ""),
        "ReleaseSentry says acme/widget is ready to ship the next release: 5 checks passed on `main`."
    );
    assert_eq!(
        build_summary("acme/widget", "main", "hold", &m, "v1.2.3"),
        "ReleaseSentry says hold `v1.2.3` for acme/widget: 1 blocking check need attention."
    );
    let m2 = ReleaseReadinessMetrics { blocked: 2, ..m };
    assert_eq!(
        build_summary("acme/widget", "main", "hold", &m2, ""),
        "ReleaseSentry says hold the next release for acme/widget: 2 blocking checks need attention."
    );
    assert_eq!(
        build_summary("acme/widget", "main", "watch", &m, "v1"),
        "ReleaseSentry says watch `v1` for acme/widget: 5 passed, 2 warned, 0 blocked."
    );
}

#[test]
fn requests_are_normalised() {
    assert_eq!(normalize_branch("  dev ", "main"), "dev");
    assert_eq!(normalize_branch("   ", " main "), "main");
    assert_eq!(normalize_target_tag("  ", "  "), "");
    assert_eq!(normalize_target_tag(" v3 ", "1"), "v3");
    assert_eq!(normalize_target_tag("", " 1.0 "), "v1.0");
    assert_eq!(normalize_blocker_labels(&strings(&[" Release-Blocker ", "  "])), strings(&["release-blocker"]));
    assert_eq!(normalize_blocker_labels(&strings(&[" ", ""])), default_blocker_labels());
    assert_eq!(
        default_blocker_labels(),
        strings(&["release-blocker", "blocker", "critical", "regression"])
    );
    assert_eq!(default_run_limit(), 20);
    assert_eq!(default_changelog_path(), "CHANGELOG.md");
}

#[test]
fn normalisation_is_idempotent() {
    for (r, v) in [("", "1.2.3"), ("", "v2"), (" x ", "1"), ("", ""), ("", " 7 ")] {
        let once = normalize_target_tag(r, v);
        assert_eq!(normalize_target_tag(&once, v), once);
    }
    for (r, d) in [(" dev ", "main"), ("", " main "), ("", "")] {
        let once = normalize_branch(r, d);
        assert_eq!(normalize_branch(&once, d), once);
    }
    for labels in [strings(&[" A ", "b"]), strings(&[]), strings(&["  "])] {
        let once = normalize_blocker_labels(&labels);
        assert_eq!(normalize_blocker_labels(&once), once);
    }
}

#[test]
fn repositories_must_be_owner_slash_name() {
    assert!(valid_repo("acme/widget"));
    assert!(valid_repo(" acme / widget "));
    assert!(!valid_repo("acme"));
    assert!(!valid_repo("acme/"));
    assert!(!valid_repo(" /widget"));
    assert!(!valid_repo("a/b/c"));
    assert!(!valid_repo(""));
    let mut req = request();
    assert_eq!(validated_repo(&req), Some("acme/widget".to_string()));
    req.repo = "nope".into();
    assert_eq!(validated_repo(&req), None);
}

#[test]
fn content_files_decode_base64_only() {
    let mut file = GitHubContentFile {
        name: "f".into(),
        path: "f".into(),
        html_url: "u".into(),
        download_url: None,
        encoding: "base64".into(),
        content: "aGVs\nbG8=\n".into(),
    };
    assert_eq!(decode_content(&file), Some("hello".to_string()));
    file.content = "!!!".into();
    assert_eq!(decode_content(&file), None);
    file.content = "//4=".into();
    assert_eq!(decode_content(&file), None);
    file.encoding = "none".into();
    file.content = "aGVsbG8=".into();
    assert_eq!(decode_content(&file), None);
    assert_eq!(text_from_decoded(Some(vec![104, 105])), Some("hi".to_string()));
    assert_eq!(text_from_decoded(Some(vec![0xff])), None);
    assert_eq!(text_from_decoded(None), None);
}

#[test]
fn endpoints_and_page_sizes() {
    assert_eq!(
        contents_endpoint("acme/widget", "//docs/CHANGELOG.md"),
        "/repos/acme/widget/contents/docs/CHANGELOG.md"
    );
    assert_eq!(contents_endpoint("a/b", "x"), "/repos/a/b/contents/x");
    assert_eq!(github_page_size(0), 1);
    assert_eq!(github_page_size(50), 50);
    assert_eq!(github_page_size(500), 100);
}

#[test]
fn plan_follows_the_request() {
    let plan = release_plan(&request(), &repository());
    assert_eq!(plan.repo, "acme/widget");
    assert_eq!(plan.branch, "main");
    assert_eq!(plan.target_version, "1.2.3");
    assert_eq!(plan.target_tag, "v1.2.3");
    assert_eq!(plan.workflow_run_limit, 5);
    assert_eq!(plan.release_limit, 20);
    assert_eq!(plan.tag_limit, 50);
    assert_eq!(plan.issue_limit, 100);
    assert_eq!(plan.blocker_labels, strings(&["blocker"]));
    assert_eq!(plan.changelog_path, "CHANGELOG.md");
}

fn changelog() -> GitHubContentFile {
    GitHubContentFile {
        name: "CHANGELOG.md".into(),
        path: "CHANGELOG.md".into(),
        html_url: "c".into(),
        download_url: None,
        encoding: "base64".into(),
        content: "IyBDaGFuZ2Vsb2cKCiMjIHYxLjIuMwotIGZpeGVzCg==".into(),
    }
}

#[test]
fn a_clean_run_is_ready() {
    let evidence = GatheredEvidence {
        releases: Ok(vec![GitHubRelease {
            tag_name: "v1.2.3".into(),
            name: "1.2.3".into(),
            html_url: "r".into(),
            draft: false,
            prerelease: false,
            published_at: Some("2024".into()),
            target_commitish: "main".into(),
        }]),
        tags: Ok(vec![GitHubTag {
            name: "v1.2.3".into(),
            zipball_url: "".into(),
            tarball_url: "".into(),
            commit: GitHubTagCommit { sha: "abcdef123".into() },
        }]),
        runs: Ok(vec![run("success")]),
        issues: Ok(vec![]),
        changelog: Ok(changelog()),
        release_surface: [true, false, true, false, false],
    };
    let r = build_release_readiness(&request(), &repository(), &evidence, "id-1".into(), "now".into());
    assert_eq!(r.decision, "ready");
    assert_eq!(r.status, "ready");
    assert_eq!(r.score, 100);
    assert_eq!(r.checks.len(), 7);
    let keys: Vec<&str> = r.checks.iter().map(|c| c.key.as_str()).collect();
    assert_eq!(
        keys,
        vec!["repository", "release-history", "tags", "ci-health", "release-blockers", "changelog", "release-surface"]
    );
    assert!(r.checks.iter().all(|c| c.status == "pass"));
    assert_eq!(r.metrics.checks, 7);
    assert_eq!(r.metrics.passed, 7);
    assert_eq!(r.title, "acme/widget release readiness");
    assert_eq!(
        r.summary,
        "ReleaseSentry says acme/widget is ready to ship `v1.2.3`: 7 checks passed on `main`."
    );
    assert_eq!(r.id, "id-1");
    assert_eq!(r.created_at, "now");
    assert_eq!(r.updated_at, "now");
    assert!(r.warnings.is_empty());
}

#[test]
fn failed_reads_warn_and_a_blocker_holds() {
    let mut req = request();
    req.changelog_path = "  ".into();
    let evidence = GatheredEvidence {
        releases: Err("boom".into()),
        tags: Err("no tags".into()),
        runs: Err("x".into()),
        issues: Ok(vec![GitHubIssue {
            number: 5,
            title: "Crash".into(),
            html_url: "i".into(),
            is_pull_request: false,
            labels: vec![GitHubLabel { name: "BLOCKER".into() }],
        }]),
        changelog: Err(String::new()),
        release_surface: [false; 5],
    };
    let r = build_release_readiness(&req, &repository(), &evidence, "id".into(), "t".into());
    assert_eq!(
        r.warnings,
        strings(&[
            "Could not read GitHub releases for acme/widget: boom",
            "Could not read GitHub tags for acme/widget: no tags",
            "Could not read GitHub Actions runs for acme/widget: x",
        ])
    );
    assert_eq!(r.decision, "hold");
    assert_eq!(r.metrics.blocked, 1);
    assert_eq!(r.metrics.warned, 5);
    assert_eq!(r.metrics.release_blockers, 1);
    assert_eq!(r.score, 35);
    assert_eq!(r.checks[5].detail, "No changelog path was provided, so ReleaseSentry could not verify release notes.");
    assert_eq!(
        r.summary,
        "ReleaseSentry says hold `v1.2.3` for acme/widget: 1 blocking check need attention."
    );
}

#[test]
fn hold_whenever_a_check_blocks() {
    // The decision is `hold` exactly when some check blocks, whatever the others say.
    let blocked = check_repository(
        &GitHubRepositoryDetail { archived: true, ..repository() },
        "main",
    );
    let fine = check_blockers(&vec![], &strings(&["blocker"]));
    let m = build_metrics(&vec![fine, blocked], &vec![], &vec![], &vec![], 0, 0);
    assert_eq!(decision_for_metrics(&m), "hold");
    assert!(score_for_metrics(&m) <= 75);
    let m = build_metrics(&vec![check("pass"), check("pass")], &vec![], &vec![], &vec![], 0, 0);
    assert_eq!(decision_for_metrics(&m), "ready");
    assert_eq!(score_for_metrics(&m), 100);
}
