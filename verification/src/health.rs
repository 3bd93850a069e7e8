//! Health reports for the orchestrator's probes.
//!
//! Three reports: a detailed one, a liveness report, which is positive
//! as long as the process can answer, and a readiness report, which
//! turns negative when the process starts to drain.

use vstd::prelude::*;
use crate::lifecycle::{is_signal, drains_once_signalled, LifecycleEvent, LifecycleState};

verus! {

/// The name under which the gateway reports.
pub const SERVICE_NAME: &'static str = "api-gateway";

/// HTTP status of a positive report.
pub const STATUS_OK: u16 = 200;

/// HTTP status of a negative readiness report.
pub const STATUS_SERVICE_UNAVAILABLE: u16 = 503;

/// A short health report.
#[derive(Debug, Clone)]
pub struct HealthResponse {
    pub status: String,
    pub service: String,
    pub version: String,
    pub uptime_secs: Option<u64>,
}

/// A health report with the state of each component.
#[derive(Debug, Clone)]
pub struct DetailedHealthResponse {
    pub status: String,
    pub service: String,
    pub version: String,
    pub checks: HealthChecks,
}

/// The components that a detailed report covers.
#[derive(Debug, Clone)]
pub struct HealthChecks {
    pub gateway: ComponentHealth,
}

/// The state of one component.
#[derive(Debug, Clone)]
pub struct ComponentHealth {
    pub status: String,
    pub message: Option<String>,
}

/// A short health report as plain values.
pub ghost struct HealthView {
    pub status: Seq<char>,
    pub service: Seq<char>,
    pub version: Seq<char>,
    pub uptime_secs: Option<u64>,
}

/// The state of one component as plain values.
pub ghost struct ComponentView {
    pub status: Seq<char>,
    pub message: Option<Seq<char>>,
}

/// A detailed health report as plain values.
pub ghost struct DetailedHealthView {
    pub status: Seq<char>,
    pub service: Seq<char>,
    pub version: Seq<char>,
    pub gateway: ComponentView,
}

impl View for HealthResponse {
    type V = HealthView;

    open spec fn view(&self) -> HealthView {
        HealthView {
            status: self.status@,
            service: self.service@,
            version: self.version@,
            uptime_secs: self.uptime_secs,
        }
    }
}

impl View for ComponentHealth {
    type V = ComponentView;

    open spec fn view(&self) -> ComponentView {
        ComponentView {
            status: self.status@,
            message: match self.message {
                Some(message) => Some(message@),
                None => None,
            },
        }
    }
}

impl View for DetailedHealthResponse {
    type V = DetailedHealthView;

    open spec fn view(&self) -> DetailedHealthView {
        DetailedHealthView {
            status: self.status@,
            service: self.service@,
            version: self.version@,
            gateway: self.checks.gateway@,
        }
    }
}

/// The short report of a gateway of the given version with the given
/// status word. It does not tell the uptime.
pub open spec fn short_report(status: Seq<char>, version: Seq<char>) -> HealthView {
    HealthView { status, service: SERVICE_NAME@, version, uptime_secs: None }
}

/// The detailed report of a gateway of the given version: all is well,
/// and the gateway component is healthy.
pub open spec fn detailed_report(version: Seq<char>) -> DetailedHealthView {
    DetailedHealthView {
        status: "ok"@,
        service: SERVICE_NAME@,
        version,
        gateway: ComponentView { status: "healthy"@, message: None },
    }
}

/// The HTTP status of the readiness report: 200 while the process
/// serves, 503 while it drains.
pub open spec fn readiness_status(state: LifecycleState) -> u16 {
    match state {
        LifecycleState::Serving => STATUS_OK,
        LifecycleState::Draining => STATUS_SERVICE_UNAVAILABLE,
    }
}

/// The status word of the readiness report.
pub open spec fn readiness_word(state: LifecycleState) -> Seq<char> {
    match state {
        LifecycleState::Serving => "ok"@,
        LifecycleState::Draining => "shutting_down"@,
    }
}

fn report(status: &str, version: &str) -> (response: HealthResponse)
    ensures
        response@ == short_report(status@, version@),
{
    HealthResponse {
        status: status.to_owned(),
        service: SERVICE_NAME.to_owned(),
        version: version.to_owned(),
        uptime_secs: None,
    }
}

/// The detailed health report, with its HTTP status, which is 200.
pub fn health_check(version: &str) -> (reply: (u16, DetailedHealthResponse))
    ensures
        reply.0 == STATUS_OK,
        reply.1@ == detailed_report(version@),
{
    let response = DetailedHealthResponse {
        status: "ok".to_owned(),
        service: SERVICE_NAME.to_owned(),
        version: version.to_owned(),
        checks: HealthChecks {
            gateway: ComponentHealth { status: "healthy".to_owned(), message: None },
        },
    };
    (STATUS_OK, response)
}

/// The liveness report, with its HTTP status, which is 200: a process
/// that can answer is alive, whether it serves or drains.
pub fn liveness_probe(version: &str) -> (reply: (u16, HealthResponse))
    ensures
        reply.0 == STATUS_OK,
        reply.1@ == short_report("ok"@, version@),
{
    (STATUS_OK, report("ok", version))
}

/// The readiness report, with its HTTP status: 200 and `ok` while the
/// process serves, 503 and `shutting_down` while it drains.
pub fn readiness_probe(state: LifecycleState, version: &str) -> (reply: (u16, HealthResponse))
    ensures
        reply.0 == readiness_status(state),
        reply.1@ == short_report(readiness_word(state), version@),
{
    match state {
        LifecycleState::Draining => (STATUS_SERVICE_UNAVAILABLE, report("shutting_down", version)),
        LifecycleState::Serving => (STATUS_OK, report("ok", version)),
    }
}

/// Readiness follows the life cycle without a gap: a process that
/// started serving reports 200 as long as no termination signal has
/// arrived and 503 from the first signal on, and there is no third
/// answer.
pub proof fn readiness_follows_signals(events: Seq<LifecycleEvent>)
    ensures
        readiness_status(LifecycleState::Serving) == STATUS_OK,
        readiness_status(LifecycleState::Serving.after_all(events)) == (if exists|i: int|
            0 <= i < events.len() && is_signal(#[trigger] events[i]) {
            STATUS_SERVICE_UNAVAILABLE
        } else {
            STATUS_OK
        }),
        forall|state: LifecycleState, event: LifecycleEvent|
            is_signal(event) ==> readiness_status(#[trigger] state.after(event))
                == STATUS_SERVICE_UNAVAILABLE,
{
    drains_once_signalled(events);
}

} // verus!
