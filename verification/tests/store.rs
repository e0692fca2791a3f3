use release_sentry::models::{HistoryItem, OverviewCounts};
use release_sentry::service::{
    gen_key, gen_service_token, health, login, rotate_service_token, validate_config,
    BootstrapRefusal, LoginRefusal, StartupLevel,
};
use release_sentry::store::{health_check, history, overview, overview_counts, HistoryRow};

fn row(id: &str, decision: &str, score: i64) -> HistoryRow {
    HistoryRow {
        id: id.into(),
        repo: "acme/widget".into(),
        branch: "main".into(),
        target_version: "1".into(),
        target_tag: "v1".into(),
        decision: decision.into(),
        score,
        summary: "s".into(),
        created_at: "c".into(),
        updated_at: "u".into(),
    }
}

#[test]
fn history_keeps_readable_rows_in_order() {
    assert!(history(&None).is_empty());
    let items = history(&Some(vec![Some(row("a", "ready", 100)), None, Some(row("b", "hold", -1))]));
    assert_eq!(items.len(), 2);
    assert_eq!(items[0].id, "a");
    assert_eq!(items[0].status, "ready");
    assert_eq!(items[0].decision, "ready");
    assert_eq!(items[0].score, 100);
    assert_eq!(items[1].id, "b");
    assert_eq!(items[1].status, "hold");
    assert_eq!(items[1].score, u32::MAX);
}

#[test]
fn overview_counts_default_to_zero() {
    assert_eq!(overview_counts(None), OverviewCounts::default());
    assert_eq!(
        overview_counts(Some((5, 2, 3, 1, 1))),
        OverviewCounts { runs: 5, repos: 2, ready: 3, watch: 1, hold: 1 }
    );
}

#[test]
fn overview_names_the_product() {
    let counts = OverviewCounts { runs: 1, ..Default::default() };
    let p = overview(counts, vec![HistoryItem::default()]);
    assert_eq!(p.product, "ReleaseSentry by PatchHive");
    assert_eq!(
        p.tagline,
        "Check release readiness with CI, tags, changelog, blocker, and release evidence."
    );
    assert_eq!(p.counts, counts);
    assert_eq!(p.recent_runs.len(), 1);
}

#[test]
fn health_is_degraded_by_config_errors_or_store() {
    assert!(health_check(Some(1)));
    assert!(!health_check(None));
    let counts = OverviewCounts { runs: 4, repos: 2, ready: 1, watch: 2, hold: 1 };
    let h = health(0, true, true, "db".into(), false, counts);
    assert_eq!(h.status, "ok");
    assert_eq!(h.version, "0.1.0");
    assert_eq!(h.mode, "release-readiness");
    assert_eq!(h.run_count, 4);
    assert_eq!(h.hold_count, 1);
    assert_eq!(health(1, true, true, "db".into(), false, counts).status, "degraded");
    assert_eq!(health(0, false, true, "db".into(), false, counts).status, "degraded");
}

#[test]
fn auth_decisions() {
    assert_eq!(login(false, true), Err(LoginRefusal::AuthNotEnabled));
    assert_eq!(login(true, false), Err(LoginRefusal::InvalidKey));
    assert_eq!(login(true, true), Ok(()));
    assert_eq!(LoginRefusal::AuthNotEnabled.status_code(), 503);
    assert_eq!(LoginRefusal::InvalidKey.status_code(), 401);
    assert_eq!(gen_key(true, true), Err(BootstrapRefusal::AlreadyConfigured));
    assert_eq!(gen_key(false, false), Err(BootstrapRefusal::Forbidden));
    assert_eq!(gen_key(false, true), Ok(()));
    assert_eq!(gen_service_token(true, true), Err(BootstrapRefusal::AlreadyConfigured));
    assert_eq!(gen_service_token(false, false), Err(BootstrapRefusal::Forbidden));
    assert_eq!(gen_service_token(false, true), Ok(()));
    assert_eq!(rotate_service_token(false, true), Err(BootstrapRefusal::NotConfigured));
    assert_eq!(rotate_service_token(true, false), Err(BootstrapRefusal::Forbidden));
    assert_eq!(rotate_service_token(true, true), Ok(()));
}

#[test]
fn startup_checks_report_path_and_auth() {
    let checks = validate_config("release-sentry.db", false);
    assert_eq!(checks.len(), 3);
    assert_eq!(checks[0].message, "ReleaseSentry DB path: release-sentry.db");
    assert_eq!(checks[1].level, StartupLevel::Warn);
    assert_eq!(validate_config("x", true)[1].level, StartupLevel::Info);
    assert_eq!(validate_config("x", true)[1].message, "API-key auth is enabled for ReleaseSentry.");
}
