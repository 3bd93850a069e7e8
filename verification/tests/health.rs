use api_gateway::health::{
    health_check, liveness_probe, readiness_probe, SERVICE_NAME, STATUS_OK,
    STATUS_SERVICE_UNAVAILABLE,
};
use api_gateway::lifecycle::{Lifecycle, LifecycleEvent, LifecycleState, Signal};

#[test]
fn test_liveness_returns_ok() {
    let (status, _) = liveness_probe("0.1.0");
    assert_eq!(status, 200);
}

#[test]
fn test_readiness_returns_503_during_shutdown() {
    let (status, _) = readiness_probe(LifecycleState::from_flag(true), "0.1.0");
    assert_eq!(status, 503);
}

#[test]
fn liveness_report_names_the_service() {
    let (status, report) = liveness_probe("1.2.3");
    assert_eq!(status, STATUS_OK);
    assert_eq!(report.status, "ok");
    assert_eq!(report.service, "api-gateway");
    assert_eq!(report.service, SERVICE_NAME);
    assert_eq!(report.version, "1.2.3");
    assert_eq!(report.uptime_secs, None);
}

#[test]
fn readiness_is_positive_while_serving() {
    let (status, report) = readiness_probe(LifecycleState::Serving, "1.2.3");
    assert_eq!(status, 200);
    assert_eq!(report.status, "ok");
    assert_eq!(report.service, "api-gateway");
    assert_eq!(report.version, "1.2.3");
    assert_eq!(report.uptime_secs, None);
}

#[test]
fn readiness_is_negative_while_draining() {
    let (status, report) = readiness_probe(LifecycleState::Draining, "1.2.3");
    assert_eq!(status, STATUS_SERVICE_UNAVAILABLE);
    assert_eq!(report.status, "shutting_down");
    assert_eq!(report.service, "api-gateway");
    assert_eq!(report.version, "1.2.3");
    assert_eq!(report.uptime_secs, None);
}

#[test]
fn readiness_turns_with_the_first_signal() {
    let mut lifecycle = Lifecycle::new(10);
    assert_eq!(readiness_probe(lifecycle.state(), "v").0, 200);
    lifecycle.on_event(LifecycleEvent::GraceElapsed);
    assert_eq!(readiness_probe(lifecycle.state(), "v").0, 200);
    lifecycle.on_event(LifecycleEvent::SignalReceived(Signal::Terminate));
    assert_eq!(readiness_probe(lifecycle.state(), "v").0, 503);
    lifecycle.on_event(LifecycleEvent::GraceElapsed);
    assert_eq!(readiness_probe(lifecycle.state(), "v").0, 503);
    // Liveness does not care.
    assert_eq!(liveness_probe("v").0, 200);
}

#[test]
fn detailed_report_says_that_the_gateway_is_healthy() {
    let (status, report) = health_check("1.2.3");
    assert_eq!(status, 200);
    assert_eq!(report.status, "ok");
    assert_eq!(report.service, "api-gateway");
    assert_eq!(report.version, "1.2.3");
    assert_eq!(report.checks.gateway.status, "healthy");
    assert_eq!(report.checks.gateway.message, None);
}
