use tatara_mesh::policy::humantime_serde_compat::{
    duration_text_is_readable, format_duration, parse_duration,
};
use tatara_mesh::policy::{
    default_cb_max_failures, default_cb_max_requests, default_cb_reset, default_logs_format,
    default_metrics_format, default_retries, default_retry_budget, default_slow_timeout,
    default_timeout, RETRY_BUDGET_ONE_FIFTH,
};
use tatara_mesh::{
    default_inherit_gateway, default_inherit_policy, CircuitBreakerSpec, DataPlaneSpec, Duration,
    GatewaySource, IdentityKind, IssuerKind, L7Kind, MtlsPosture, ObservabilitySpec,
    PolicyDefaults, PolicySource, ProxyKind, RetrySpec, SidecarMode, TimeoutSpec, TraceFormat,
};

#[test]
fn default_values() {
    assert_eq!(default_retries(), 3);
    assert_eq!(f32::from_bits(default_retry_budget()), 0.2f32);
    assert_eq!(RETRY_BUDGET_ONE_FIFTH, 0.2f32.to_bits());
    assert_eq!(default_timeout(), Duration::from_secs(30));
    assert_eq!(default_slow_timeout(), Duration::from_secs(300));
    assert_eq!(default_cb_max_requests(), 100);
    assert_eq!(default_cb_max_failures(), 10);
    assert_eq!(default_cb_reset(), Duration::from_secs(30));
    assert_eq!(default_metrics_format(), "prometheus");
    assert_eq!(default_logs_format(), "json");
    assert_eq!(default_inherit_policy(), PolicySource::Contratos);
    assert_eq!(default_inherit_gateway(), GatewaySource::Entrada);
}

#[test]
fn default_impls() {
    let d = PolicyDefaults::default();
    assert_eq!(d.retries, 3);
    assert_eq!(d.retry_budget, 0.2f32.to_bits());
    assert_eq!(d.timeout.as_secs(), 30);
    assert_eq!(d.slow_timeout.as_secs(), 300);
    assert_eq!(d.circuit_breaker.max_requests, 100);
    assert_eq!(d.circuit_breaker.max_failures, 10);
    let cb = CircuitBreakerSpec::default();
    assert_eq!(cb.reset, Duration::from_secs(30));
    let r = RetrySpec::default();
    assert_eq!((r.retries, r.retry_budget), (3, 0.2f32.to_bits()));
    let t = TimeoutSpec::default();
    assert_eq!((t.timeout.as_secs(), t.slow_timeout.as_secs()), (30, 300));
    let o = ObservabilitySpec::default();
    assert_eq!(o.traces, TraceFormat::Otel);
    assert_eq!(o.metrics, "prometheus");
    assert_eq!(o.logs, "json");
    let dp = DataPlaneSpec::default();
    assert_eq!(dp.proxy, ProxyKind::Aresta);
    assert_eq!(dp.sidecar_mode, SidecarMode::Auto);
    assert_eq!(dp.l7, L7Kind::Hanabi);
    assert_eq!(MtlsPosture::default(), MtlsPosture::Strict);
    assert_eq!(IdentityKind::default(), IdentityKind::Spiffe);
    assert_eq!(IssuerKind::default(), IssuerKind::Spire);
    assert_eq!(TraceFormat::default(), TraceFormat::Otel);
}

#[test]
fn durations() {
    assert_eq!(Duration::from_millis(2500).as_secs(), 2);
    assert!(Duration::from_millis(999).shorter_than(&Duration::from_secs(1)));
    assert!(!Duration::from_millis(1000).shorter_than(&Duration::from_secs(1)));
    assert_eq!(Duration::from_millis(3000), Duration::from_secs(3));
}

#[test]
fn format_picks_largest_whole_unit() {
    assert_eq!(format_duration(Duration::from_secs(7200)), "2h");
    assert_eq!(format_duration(Duration::from_secs(3600)), "1h");
    assert_eq!(format_duration(Duration::from_secs(300)), "5m");
    assert_eq!(format_duration(Duration::from_secs(90)), "90s");
    assert_eq!(format_duration(Duration::from_secs(0)), "0s");
    assert_eq!(format_duration(Duration::from_millis(1500)), "1s");
    assert_eq!(format_duration(Duration::from_secs(u64::MAX)), "18446744073709551615s");
}

#[test]
fn parse_units() {
    assert_eq!(parse_duration("30s"), Ok(Duration::from_secs(30)));
    assert_eq!(parse_duration("5m"), Ok(Duration::from_secs(300)));
    assert_eq!(parse_duration("2h"), Ok(Duration::from_secs(7200)));
    assert_eq!(parse_duration("250ms"), Ok(Duration::from_millis(250)));
    assert_eq!(parse_duration("  +7s \n"), Ok(Duration::from_secs(7)));
    assert_eq!(parse_duration("0ms"), Ok(Duration::from_secs(0)));
}

#[test]
fn parse_errors() {
    assert_eq!(parse_duration("5d"), Err("unknown duration unit: d".to_string()));
    assert_eq!(parse_duration("x"), Err("cannot parse integer from empty string".to_string()));
    assert_eq!(parse_duration("ms"), Err("cannot parse integer from empty string".to_string()));
    assert_eq!(parse_duration("1.5s"), Err("invalid digit found in string".to_string()));
    assert_eq!(parse_duration("-5s"), Err("invalid digit found in string".to_string()));
    assert_eq!(
        parse_duration("99999999999999999999s"),
        Err("number too large to fit in target type".to_string())
    );
    assert_eq!(
        parse_duration("abcx"),
        Err("abc".parse::<u64>().unwrap_err().to_string())
    );
    assert_eq!(
        parse_duration(" 1_0ms "),
        Err("1_0".parse::<u64>().unwrap_err().to_string())
    );
}

#[test]
fn readable_texts() {
    assert!(duration_text_is_readable("5s"));
    assert!(duration_text_is_readable("ms"));
    assert!(duration_text_is_readable("5d"));
    assert!(!duration_text_is_readable(""));
    assert!(!duration_text_is_readable("   "));
    assert!(!duration_text_is_readable("5é"));
    assert!(!duration_text_is_readable("307445734561825861m"));
    assert!(duration_text_is_readable("307445734561825860m"));
    assert!(!duration_text_is_readable("5124095576030432h"));
    assert!(duration_text_is_readable("5124095576030431h"));
}

#[test]
fn round_trip_keeps_whole_seconds() {
    for secs in [0u64, 1, 59, 60, 61, 3599, 3600, 7200, 86400, 90061, u64::MAX] {
        let d = Duration::from_secs(secs);
        assert_eq!(parse_duration(&format_duration(d)), Ok(d));
    }
    let d = Duration::from_millis(61_500);
    assert_eq!(parse_duration(&format_duration(d)), Ok(Duration::from_secs(61)));
}
