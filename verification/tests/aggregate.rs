use daemon_desktop::diagnostics::{
    count_checks, overall_status, status_from_label, CheckStatus, DiagnosticCheck,
    DiagnosticsReport, OverallStatus,
};

fn check(id: &str, status: CheckStatus) -> DiagnosticCheck {
    DiagnosticCheck {
        id: id.to_string(),
        name: id.to_string(),
        status,
        message: String::new(),
        metric: None,
        detail: None,
        action: None,
    }
}

#[test]
fn no_checks_are_healthy() {
    assert_eq!(overall_status(&Vec::new()), OverallStatus::Healthy);
}

#[test]
fn all_passes_are_healthy() {
    let checks = vec![check("a", CheckStatus::Pass), check("b", CheckStatus::Pass)];
    assert_eq!(overall_status(&checks), OverallStatus::Healthy);
}

#[test]
fn one_warning_degrades() {
    let checks = vec![
        check("a", CheckStatus::Pass),
        check("b", CheckStatus::Warn),
        check("c", CheckStatus::Pass),
    ];
    assert_eq!(overall_status(&checks), OverallStatus::Degraded);
}

#[test]
fn one_failure_outweighs_warnings() {
    let checks = vec![
        check("a", CheckStatus::Warn),
        check("b", CheckStatus::Warn),
        check("c", CheckStatus::Fail),
        check("d", CheckStatus::Pass),
    ];
    assert_eq!(overall_status(&checks), OverallStatus::Unhealthy);
    assert_eq!(count_checks(&checks, CheckStatus::Warn), 2);
    assert_eq!(count_checks(&checks, CheckStatus::Fail), 1);
    assert_eq!(count_checks(&checks, CheckStatus::Pass), 1);
}

#[test]
fn failure_in_first_place_is_seen() {
    let checks = vec![check("a", CheckStatus::Fail), check("b", CheckStatus::Pass)];
    assert_eq!(overall_status(&checks), OverallStatus::Unhealthy);
}

#[test]
fn report_carries_the_verdict_of_its_checks() {
    let report = DiagnosticsReport::new(
        1_700_000_000_000,
        vec![check("a", CheckStatus::Pass), check("b", CheckStatus::Warn)],
    );
    assert_eq!(report.timestamp, 1_700_000_000_000);
    assert_eq!(report.checks.len(), 2);
    assert_eq!(report.overall_status, OverallStatus::Degraded);
}

#[test]
fn labels_are_the_words_of_the_display() {
    assert_eq!(CheckStatus::Pass.label(), "pass");
    assert_eq!(CheckStatus::Warn.label(), "warn");
    assert_eq!(CheckStatus::Fail.label(), "fail");
    assert_eq!(OverallStatus::Healthy.label(), "healthy");
    assert_eq!(OverallStatus::Degraded.label(), "degraded");
    assert_eq!(OverallStatus::Unhealthy.label(), "unhealthy");
}

#[test]
fn status_is_read_back_from_its_label() {
    for status in [CheckStatus::Pass, CheckStatus::Warn, CheckStatus::Fail] {
        assert_eq!(status_from_label(status.label()), Some(status));
    }
    assert_eq!(status_from_label("Pass"), None);
    assert_eq!(status_from_label(""), None);
    assert_eq!(status_from_label("passed"), None);
}
