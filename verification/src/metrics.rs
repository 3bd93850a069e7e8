//! What the gateway counts and measures: the metrics it announces, and
//! the sample that each kind of event is recorded as.
//!
//! This module settles names and labels. Handing a sample to the
//! metrics registry is left to the caller, and so is the duration that
//! goes with a request.

use vstd::prelude::*;
use crate::device::DeviceType;
use crate::number::{decimal, decimal_u64};

verus! {

pub const REQUESTS_TOTAL: &'static str = "gateway_requests_total";

pub const REQUEST_DURATION_SECONDS: &'static str = "gateway_request_duration_seconds";

pub const ACTIVE_CONNECTIONS: &'static str = "gateway_active_connections";

pub const ERRORS_TOTAL: &'static str = "gateway_errors_total";

pub const UPSTREAM_REQUESTS_TOTAL: &'static str = "gateway_upstream_requests_total";

pub const UPSTREAM_DURATION_SECONDS: &'static str = "gateway_upstream_duration_seconds";

pub const REQUESTS_BY_DEVICE: &'static str = "gateway_requests_by_device";

/// A run of sixteen bytes in hexadecimal, grouped as a UUID is.
pub const UUID_PATTERN: &'static str =
    "[0-9a-f]{8}-[0-9a-f]{4}-[0-9a-f]{4}-[0-9a-f]{4}-[0-9a-f]{12}";

/// A path segment of digits only, with the slash before it and the
/// slash or the end after it.
pub const NUMERIC_PATTERN: &'static str = "/\\d+(/|$)";

/// What stands in for a UUID in a normalized path.
pub const UUID_REPLACEMENT: &'static str = ":id";

/// What stands in for a numeric segment in a normalized path: the
/// slash, the placeholder, and what followed the digits.
pub const NUMERIC_REPLACEMENT: &'static str = "/:id$1";

/// The kinds of metric.
#[derive(Debug, Clone, Copy, PartialEq, Eq, Structural)]
pub enum MetricKind {
    Counter,
    Gauge,
    Histogram,
}

/// A metric that the gateway announces: its kind, its name, and a
/// sentence on what it tells.
#[derive(Debug, Clone, Copy)]
pub struct MetricDescription {
    pub kind: MetricKind,
    pub name: &'static str,
    pub description: &'static str,
}

/// One label of a sample.
#[derive(Debug, Clone)]
pub struct Label {
    pub name: &'static str,
    pub value: String,
}

/// One event to record: the metric it counts for, and its labels.
#[derive(Debug, Clone)]
pub struct Sample {
    pub metric: &'static str,
    pub labels: Vec<Label>,
}

impl View for MetricDescription {
    type V = (MetricKind, Seq<char>, Seq<char>);

    open spec fn view(&self) -> (MetricKind, Seq<char>, Seq<char>) {
        (self.kind, self.name@, self.description@)
    }
}

impl View for Label {
    type V = (Seq<char>, Seq<char>);

    open spec fn view(&self) -> (Seq<char>, Seq<char>) {
        (self.name@, self.value@)
    }
}

impl View for Sample {
    type V = (Seq<char>, Seq<(Seq<char>, Seq<char>)>);

    open spec fn view(&self) -> (Seq<char>, Seq<(Seq<char>, Seq<char>)>) {
        (self.metric@, Seq::new(self.labels@.len(), |i: int| self.labels@[i]@))
    }
}

/// The seven metrics of the gateway, in the order in which they are
/// announced.
pub open spec fn default_metrics() -> Seq<(MetricKind, Seq<char>, Seq<char>)> {
    seq![
        (
            MetricKind::Counter,
            REQUESTS_TOTAL@,
            "Total number of requests processed by the gateway"@,
        ),
        (MetricKind::Histogram, REQUEST_DURATION_SECONDS@, "Request duration in seconds"@),
        (MetricKind::Gauge, ACTIVE_CONNECTIONS@, "Number of active connections"@),
        (MetricKind::Counter, ERRORS_TOTAL@, "Total number of errors by type"@),
        (
            MetricKind::Counter,
            UPSTREAM_REQUESTS_TOTAL@,
            "Total requests to upstream services"@,
        ),
        (
            MetricKind::Histogram,
            UPSTREAM_DURATION_SECONDS@,
            "Upstream service response time in seconds"@,
        ),
        (
            MetricKind::Counter,
            REQUESTS_BY_DEVICE@,
            "Total requests grouped by device type (desktop, mobile, tablet, bot)"@,
        ),
    ]
}

/// What `regex_lite::Regex::new` and `Regex::replace_all` make of a
/// pattern, a text and a replacement: the text with every match of the
/// pattern replaced, or nothing where the pattern is not one that the
/// crate compiles.
pub uninterp spec fn regex_replace_all(
    pattern: Seq<char>,
    haystack: Seq<char>,
    replacement: Seq<char>,
) -> Option<Seq<char>>;

/// `regex_lite::Regex::new` on the pattern, then `Regex::replace_all`
/// on the text and the replacement. The outcome depends on these three
/// alone.
#[verifier::external_body]
fn replace_all(pattern: &str, haystack: &str, replacement: &str) -> (replaced: Option<String>)
    ensures
        replaced is Some <==> regex_replace_all(pattern@, haystack@, replacement@) is Some,
        replaced matches Some(text) ==> regex_replace_all(pattern@, haystack@, replacement@)
            == Some(text@),
{
    match regex_lite::Regex::new(pattern) {
        Ok(regex) => Some(regex.replace_all(haystack, replacement).into_owned()),
        Err(_) => None,
    }
}

/// A text after one rewriting step: every match of the pattern is
/// replaced. A step whose pattern does not compile changes nothing.
pub open spec fn rewritten(pattern: Seq<char>, replacement: Seq<char>, text: Seq<char>) -> Seq<
    char,
> {
    match regex_replace_all(pattern, text, replacement) {
        Some(replaced) => replaced,
        None => text,
    }
}

/// A request path with what identifies a single resource taken out:
/// first every UUID becomes `:id`, then every numeric segment does.
pub open spec fn normalized_path(path: Seq<char>) -> Seq<char> {
    rewritten(
        NUMERIC_PATTERN@,
        NUMERIC_REPLACEMENT@,
        rewritten(UUID_PATTERN@, UUID_REPLACEMENT@, path),
    )
}

/// The outcome of a rewriting step on a text: the rewritten text, or
/// the text as it was where the step gave nothing.
pub fn rewritten_or_unchanged(replaced: Option<String>, text: &str) -> (outcome: String)
    ensures
        outcome@ == (match replaced {
            Some(replaced) => replaced@,
            None => text@,
        }),
{
    match replaced {
        Some(replaced) => replaced,
        None => text.to_owned(),
    }
}

/// Normalizes a request path for use as a label, so that requests for
/// different resources of one kind count together.
pub fn normalize_path(path: &str) -> (normalized: String)
    ensures
        normalized@ == normalized_path(path@),
{
    let without_uuids = rewritten_or_unchanged(
        replace_all(UUID_PATTERN, path, UUID_REPLACEMENT),
        path,
    );
    rewritten_or_unchanged(
        replace_all(NUMERIC_PATTERN, without_uuids.as_str(), NUMERIC_REPLACEMENT),
        without_uuids.as_str(),
    )
}

fn describe(kind: MetricKind, name: &'static str, description: &'static str) -> (metric:
    MetricDescription)
    ensures
        metric@ == (kind, name@, description@),
{
    MetricDescription { kind, name, description }
}

/// The metrics to announce when the gateway starts.
pub fn register_default_metrics() -> (metrics: Vec<MetricDescription>)
    ensures
        Seq::new(metrics@.len(), |i: int| metrics@[i]@) == default_metrics(),
{
    let mut metrics: Vec<MetricDescription> = Vec::new();
    metrics.push(
        describe(
            MetricKind::Counter,
            REQUESTS_TOTAL,
            "Total number of requests processed by the gateway",
        ),
    );
    metrics.push(
        describe(MetricKind::Histogram, REQUEST_DURATION_SECONDS, "Request duration in seconds"),
    );
    metrics.push(describe(MetricKind::Gauge, ACTIVE_CONNECTIONS, "Number of active connections"));
    metrics.push(describe(MetricKind::Counter, ERRORS_TOTAL, "Total number of errors by type"));
    metrics.push(
        describe(
            MetricKind::Counter,
            UPSTREAM_REQUESTS_TOTAL,
            "Total requests to upstream services",
        ),
    );
    metrics.push(
        describe(
            MetricKind::Histogram,
            UPSTREAM_DURATION_SECONDS,
            "Upstream service response time in seconds",
        ),
    );
    metrics.push(
        describe(
            MetricKind::Counter,
            REQUESTS_BY_DEVICE,
            "Total requests grouped by device type (desktop, mobile, tablet, bot)",
        ),
    );
    assert(Seq::new(metrics@.len(), |i: int| metrics@[i]@) =~= default_metrics());
    metrics
}

fn label(name: &'static str, value: String) -> (label: Label)
    ensures
        label@ == (name@, value@),
{
    Label { name, value }
}

/// The sample for one request that the gateway has answered: it counts
/// for `gateway_requests_total` under its method, its normalized path
/// and its status.
pub fn record_request(method: &str, path: &str, status: u16) -> (sample: Sample)
    ensures
        sample@ == (
            REQUESTS_TOTAL@,
            seq![
                ("method"@, method@),
                ("path"@, normalized_path(path@)),
                ("status"@, decimal(status as int)),
            ],
        ),
{
    let mut labels: Vec<Label> = Vec::new();
    labels.push(label("method", method.to_owned()));
    labels.push(label("path", normalize_path(path)));
    labels.push(label("status", decimal_u64(status as u64)));
    let sample = Sample { metric: REQUESTS_TOTAL, labels };
    assert(sample@.1 =~= seq![
        ("method"@, method@),
        ("path"@, normalized_path(path@)),
        ("status"@, decimal(status as int)),
    ]);
    sample
}

/// The sample for one request that an upstream service has answered:
/// it counts for `gateway_upstream_requests_total` under the service
/// and the status.
pub fn record_upstream_request(service: &str, status: u16) -> (sample: Sample)
    ensures
        sample@ == (
            UPSTREAM_REQUESTS_TOTAL@,
            seq![("service"@, service@), ("status"@, decimal(status as int))],
        ),
{
    let mut labels: Vec<Label> = Vec::new();
    labels.push(label("service", service.to_owned()));
    labels.push(label("status", decimal_u64(status as u64)));
    let sample = Sample { metric: UPSTREAM_REQUESTS_TOTAL, labels };
    assert(sample@.1 =~= seq![("service"@, service@), ("status"@, decimal(status as int))]);
    sample
}

/// The sample for one error: it counts for `gateway_errors_total`
/// under its type.
pub fn record_error(error_type: &str) -> (sample: Sample)
    ensures
        sample@ == (ERRORS_TOTAL@, seq![("type"@, error_type@)]),
{
    let mut labels: Vec<Label> = Vec::new();
    labels.push(label("type", error_type.to_owned()));
    let sample = Sample { metric: ERRORS_TOTAL, labels };
    assert(sample@.1 =~= seq![("type"@, error_type@)]);
    sample
}

/// The sample for one request by the device it came from: it counts
/// for `gateway_requests_by_device` under the name of the category.
pub fn record_device(device: DeviceType) -> (sample: Sample)
    ensures
        sample@ == (REQUESTS_BY_DEVICE@, seq![("device_type"@, device.name())]),
{
    let mut labels: Vec<Label> = Vec::new();
    labels.push(label("device_type", device.as_str().to_owned()));
    let sample = Sample { metric: REQUESTS_BY_DEVICE, labels };
    assert(sample@.1 =~= seq![("device_type"@, device.name())]);
    sample
}

/// HTTP status of a reply that could not be made.
pub const STATUS_INTERNAL_SERVER_ERROR: u16 = 500;

/// The media type of the metrics page.
pub const METRICS_CONTENT_TYPE: &'static str = "text/plain; charset=utf-8";

/// The reply to a request for the metrics page.
#[derive(Debug, Clone)]
pub struct MetricsReply {
    pub status: u16,
    pub content_type: Option<&'static str>,
    pub body: String,
}

impl View for MetricsReply {
    type V = (u16, Option<Seq<char>>, Seq<char>);

    open spec fn view(&self) -> (u16, Option<Seq<char>>, Seq<char>) {
        (
            self.status,
            match self.content_type {
                Some(content_type) => Some(content_type@),
                None => None,
            },
            self.body@,
        )
    }
}

/// The reply to a request for the metrics page: the page as plain
/// text where the metrics registry has rendered one, and an internal
/// server error where no registry was set up.
pub fn metrics_handler(rendered: Option<String>) -> (reply: MetricsReply)
    ensures
        reply@ == (match rendered {
            Some(page) => (200u16, Some(METRICS_CONTENT_TYPE@), page@),
            None => (STATUS_INTERNAL_SERVER_ERROR, None, "Metrics not initialized"@),
        }),
{
    match rendered {
        Some(page) => MetricsReply {
            status: 200,
            content_type: Some(METRICS_CONTENT_TYPE),
            body: page,
        },
        None => MetricsReply {
            status: STATUS_INTERNAL_SERVER_ERROR,
            content_type: None,
            body: "Metrics not initialized".to_owned(),
        },
    }
}

} // verus!
