//! Per-edge policy and observability slots, with their defaults.

pub mod humantime_serde_compat;

use vstd::prelude::*;

use crate::time::{Duration, NANOS_PER_SEC};

verus! {

/// mTLS posture across mesh edges.
#[derive(Clone, Copy, Debug, PartialEq, Eq, Structural)]
pub enum MtlsPosture {
    /// Plaintext only.
    Off,
    /// Accept either; useful during migration.
    Permissive,
    /// All edges require mTLS via SPIFFE SVIDs.
    Strict,
}

impl Default for MtlsPosture {
    /// Strict, the fail-closed posture.
    fn default() -> (p: MtlsPosture)
        ensures
            p == MtlsPosture::Strict,
    {
        MtlsPosture::Strict
    }
}

/// Circuit-breaker thresholds of an edge.
#[derive(Clone, Debug)]
pub struct CircuitBreakerSpec {
    pub max_requests: u32,
    pub max_failures: u32,
    pub reset: Duration,
}

impl Default for CircuitBreakerSpec {
    /// 100 requests, 10 failures, a 30 s reset.
    fn default() -> (cb: CircuitBreakerSpec)
        ensures
            cb.max_requests == 100,
            cb.max_failures == 10,
            cb.reset@ == 30 * NANOS_PER_SEC,
    {
        CircuitBreakerSpec {
            max_requests: default_cb_max_requests(),
            max_failures: default_cb_max_failures(),
            reset: default_cb_reset(),
        }
    }
}

/// Retry policy of an edge.
///
/// `retry_budget` is the fraction of extra load that retries may add, held
/// as the IEEE-754 bit pattern of an `f32` (`f32::to_bits`).
#[derive(Clone, Debug)]
pub struct RetrySpec {
    pub retries: u32,
    pub retry_budget: u32,
}

impl Default for RetrySpec {
    /// 3 retries within a budget of 0.2.
    fn default() -> (r: RetrySpec)
        ensures
            r.retries == 3,
            r.retry_budget == RETRY_BUDGET_ONE_FIFTH,
    {
        RetrySpec { retries: default_retries(), retry_budget: default_retry_budget() }
    }
}

/// Timeouts of an edge: the request timeout and the slow-request timeout.
#[derive(Clone, Debug)]
pub struct TimeoutSpec {
    pub timeout: Duration,
    pub slow_timeout: Duration,
}

impl Default for TimeoutSpec {
    /// 30 s, and 300 s for slow requests.
    fn default() -> (t: TimeoutSpec)
        ensures
            t.timeout@ == 30 * NANOS_PER_SEC,
            t.slow_timeout@ == 300 * NANOS_PER_SEC,
    {
        TimeoutSpec { timeout: default_timeout(), slow_timeout: default_slow_timeout() }
    }
}

/// Observability surface: traces, metrics and logs.
#[derive(Clone, Debug)]
pub struct ObservabilitySpec {
    pub traces: TraceFormat,
    pub metrics: String,
    pub logs: String,
}

impl Default for ObservabilitySpec {
    /// OTel traces, Prometheus metrics, JSON logs.
    fn default() -> (o: ObservabilitySpec)
        ensures
            o.traces == TraceFormat::Otel,
            o.metrics@ == "prometheus"@,
            o.logs@ == "json"@,
    {
        ObservabilitySpec {
            traces: TraceFormat::default(),
            metrics: default_metrics_format(),
            logs: default_logs_format(),
        }
    }
}

/// Trace propagation format.
#[derive(Clone, Copy, Debug, PartialEq, Eq, Structural)]
pub enum TraceFormat {
    /// W3C `traceparent` propagation, OTel sink.
    Otel,
    /// Zipkin-shaped headers, b3 propagation.
    Zipkin,
    /// No tracing.
    Off,
}

impl Default for TraceFormat {
    /// OTel.
    fn default() -> (t: TraceFormat)
        ensures
            t == TraceFormat::Otel,
    {
        TraceFormat::Otel
    }
}

/// The bit pattern of the `f32` value 0.2 (`0.2f32.to_bits()`).
pub const RETRY_BUDGET_ONE_FIFTH: u32 = 0x3E4C_CCCD;

/// Default number of retries: 3.
pub fn default_retries() -> (n: u32)
    ensures
        n == 3,
{
    3
}

/// Default retry budget, 0.2, as the bit pattern of an `f32`.
pub fn default_retry_budget() -> (b: u32)
    ensures
        b == RETRY_BUDGET_ONE_FIFTH,
{
    RETRY_BUDGET_ONE_FIFTH
}

/// Default request timeout: 30 s.
pub fn default_timeout() -> (d: Duration)
    ensures
        d@ == 30 * NANOS_PER_SEC,
{
    Duration::from_secs(30)
}

/// Default slow-request timeout: 300 s.
pub fn default_slow_timeout() -> (d: Duration)
    ensures
        d@ == 300 * NANOS_PER_SEC,
{
    Duration::from_secs(300)
}

/// Default circuit-breaker request threshold: 100.
pub fn default_cb_max_requests() -> (n: u32)
    ensures
        n == 100,
{
    100
}

/// Default circuit-breaker failure threshold: 10.
pub fn default_cb_max_failures() -> (n: u32)
    ensures
        n == 10,
{
    10
}

/// Default circuit-breaker reset period: 30 s.
pub fn default_cb_reset() -> (d: Duration)
    ensures
        d@ == 30 * NANOS_PER_SEC,
{
    Duration::from_secs(30)
}

/// Default metrics format: `prometheus`.
pub fn default_metrics_format() -> (f: String)
    ensures
        f@ == "prometheus"@,
{
    "prometheus".to_owned()
}

/// Default logs format: `json`.
pub fn default_logs_format() -> (f: String)
    ensures
        f@ == "json"@,
{
    "json".to_owned()
}

} // verus!
