use release_sentry::models::ReleaseReadinessMetrics;
use release_sentry::readiness::{decision_for_metrics, score_for_metrics};
use release_sentry::request::normalize_target_tag;

#[test]
fn derives_target_tag_from_version() {
    assert_eq!(normalize_target_tag("", "1.2.3"), "v1.2.3");
    assert_eq!(normalize_target_tag("", "v2.0.0"), "v2.0.0");
    assert_eq!(normalize_target_tag("release-7", "1.2.3"), "release-7");
}

#[test]
fn holds_when_any_check_blocks() {
    let metrics = ReleaseReadinessMetrics {
        blocked: 1,
        warned: 4,
        ..ReleaseReadinessMetrics::default()
    };
    assert_eq!(decision_for_metrics(&metrics), "hold");
    assert!(score_for_metrics(&metrics) < 75);
}

#[test]
fn watches_when_only_warnings_remain() {
    let metrics = ReleaseReadinessMetrics {
        passed: 5,
        warned: 1,
        ..ReleaseReadinessMetrics::default()
    };
    assert_eq!(decision_for_metrics(&metrics), "watch");
    assert_eq!(score_for_metrics(&metrics), 92);
}
