//! The health probe: where it is sent, how its outcome is classified, and
//! the record kept of it. Readiness polling and steady-state watching share
//! these rules, so that "ready" and "healthy" mean the same.

use vstd::prelude::*;
use vstd::string::StringExecFns;
use crate::decimal::{decimal_digits, push_decimal};

verus! {

/// How one probe ended.
#[derive(Debug, Clone)]
pub enum ProbeOutcome {
    /// The server answered with this HTTP status.
    Responded { status: u16 },
    /// The request never reached the server, or the answer never came back.
    TransportError { description: String },
    /// No answer within the time allowed for a probe.
    TimedOut,
}

/// The record of one probe. It is built once and never changed.
#[derive(Debug, Clone)]
pub struct HealthCheckResult {
    pub success: bool,
    pub response_time_ms: u64,
    pub status_code: Option<u16>,
    pub error: Option<String>,
    pub timestamp: String,
}

/// A probe record as plain values.
pub struct HealthCheckView {
    pub success: bool,
    pub response_time_ms: u64,
    pub status_code: Option<u16>,
    pub error: Option<Seq<char>>,
    pub timestamp: Seq<char>,
}

impl View for HealthCheckResult {
    type V = HealthCheckView;

    open spec fn view(&self) -> HealthCheckView {
        HealthCheckView {
            success: self.success,
            response_time_ms: self.response_time_ms,
            status_code: self.status_code,
            error: match self.error {
                Some(e) => Some(e@),
                None => None,
            },
            timestamp: self.timestamp@,
        }
    }
}

/// A status counts as healthy exactly when it is a 2xx status.
pub open spec fn status_is_success(status: u16) -> bool {
    200 <= status <= 299
}

/// Whether a probe with this outcome found the service healthy: only an
/// answer with a 2xx status does. The three kinds of failure count alike.
pub open spec fn outcome_is_success(outcome: ProbeOutcome) -> bool {
    outcome matches ProbeOutcome::Responded { status } && status_is_success(status)
}

/// The status recorded for an outcome: the one the server sent, if it
/// answered at all.
pub open spec fn outcome_status(outcome: ProbeOutcome) -> Option<u16> {
    match outcome {
        ProbeOutcome::Responded { status } => Some(status),
        _ => None,
    }
}

/// The error text recorded for an outcome: none for a healthy answer, the
/// status for an unhealthy one, the transport's own words, or a fixed text
/// for a timeout.
pub open spec fn outcome_error(outcome: ProbeOutcome) -> Option<Seq<char>> {
    match outcome {
        ProbeOutcome::Responded { status } => if status_is_success(status) {
            None
        } else {
            Some("HTTP "@ + decimal_digits(status as nat))
        },
        ProbeOutcome::TransportError { description } => Some(description@),
        ProbeOutcome::TimedOut => Some("Request timeout"@),
    }
}

/// The record of a probe that ended with `outcome` after
/// `response_time_ms`, stamped with `timestamp`.
pub open spec fn outcome_record(
    outcome: ProbeOutcome,
    response_time_ms: u64,
    timestamp: Seq<char>,
) -> HealthCheckView {
    HealthCheckView {
        success: outcome_is_success(outcome),
        response_time_ms,
        status_code: outcome_status(outcome),
        error: outcome_error(outcome),
        timestamp,
    }
}

/// The address a probe is sent to: the health path on the local host at
/// `port`.
pub open spec fn health_url_text(port: u16, endpoint: Seq<char>) -> Seq<char> {
    "http://localhost:"@ + decimal_digits(port as nat) + endpoint
}

/// Whether an HTTP status counts as healthy.
pub fn is_success_status(status: u16) -> (ok: bool)
    ensures
        ok == status_is_success(status),
{
    200 <= status && status <= 299
}

/// Writes the address that a probe of `port` is sent to.
pub fn health_url(port: u16, endpoint: &str) -> (url: String)
    ensures
        url@ == health_url_text(port, endpoint@),
{
    let mut url = String::from_str("http://localhost:");
    push_decimal(&mut url, port as u64);
    url.append(endpoint);
    url
}

/// The RFC 3339 text, in UTC, of the instant that lies `secs` seconds and
/// `nanos` nanoseconds after the Unix epoch; none for an instant outside
/// the range of dates that chrono represents, or with a count of
/// nanoseconds that it does not take.
pub uninterp spec fn rfc3339_text(secs: i64, nanos: u32) -> Option<Seq<char>>;

/// Formats an instant, given by its distance from the Unix epoch, as an
/// RFC 3339 text in UTC. Trusted: `DateTime::from_timestamp` of chrono,
/// which gives no date where the seconds are out of its range or the
/// nanoseconds are not valid, followed by `DateTime::to_rfc3339`. The text
/// is a function of the two numbers alone: no clock, locale or time zone of
/// the machine enters it.
#[verifier::external_body]
pub(crate) fn rfc3339_utc(secs: i64, nanos: u32) -> (text: Option<String>)
    ensures
        match text {
            Some(t) => rfc3339_text(secs, nanos) == Some(t@),
            None => rfc3339_text(secs, nanos) is None,
        },
{
    match chrono::DateTime::from_timestamp(secs, nanos) {
        Some(instant) => Some(instant.to_rfc3339()),
        None => None,
    }
}

impl HealthCheckResult {
    /// Classifies the outcome of a probe and records it with the given
    /// timestamp.
    pub fn from_outcome(
        outcome: ProbeOutcome,
        response_time_ms: u64,
        timestamp: String,
    ) -> (result: HealthCheckResult)
        ensures
            result@ == outcome_record(outcome, response_time_ms, timestamp@),
    {
        match outcome {
            ProbeOutcome::Responded { status } => {
                let success = is_success_status(status);
                let error = if success {
                    None
                } else {
                    let mut text = String::from_str("HTTP ");
                    push_decimal(&mut text, status as u64);
                    Some(text)
                };
                HealthCheckResult {
                    success,
                    response_time_ms,
                    status_code: Some(status),
                    error,
                    timestamp,
                }
            },
            ProbeOutcome::TransportError { description } => HealthCheckResult {
                success: false,
                response_time_ms,
                status_code: None,
                error: Some(description),
                timestamp,
            },
            ProbeOutcome::TimedOut => HealthCheckResult {
                success: false,
                response_time_ms,
                status_code: None,
                error: Some(String::from_str("Request timeout")),
                timestamp,
            },
        }
    }
}

} // verus!
