use tatara_mesh::{
    CircuitBreakerSpec, DataPlaneSpec, Duration, GatewaySource, IdentityKind, IdentitySpec,
    IssuerKind, MeshSpec, MtlsPosture, ObservabilitySpec, PolicyDefaults, PolicySource,
    ValidateError,
};

fn happy() -> MeshSpec {
    MeshSpec {
        name: "openclaw-mesh".into(),
        aplicacao: "openclaw".into(),
        identity: IdentitySpec {
            kind: IdentityKind::Spiffe,
            trust_domain: "pleme.io".into(),
            issuer: IssuerKind::Spire,
        },
        data_plane: DataPlaneSpec::default(),
        mtls: MtlsPosture::Strict,
        defaults: PolicyDefaults::default(),
        observability: ObservabilitySpec::default(),
        policy: PolicySource::Contratos,
        gateway: GatewaySource::Entrada,
        saguao: false,
    }
}

#[test]
fn happy_passes() {
    happy().validate().unwrap();
}

#[test]
fn empty_name_fails() {
    let mut s = happy();
    s.name = "".into();
    let errs = s.validate().unwrap_err();
    assert!(errs.contains(&ValidateError::EmptyName));
}

#[test]
fn slash_in_trust_domain_fails() {
    let mut s = happy();
    s.identity.trust_domain = "spiffe://pleme.io".into();
    let errs = s.validate().unwrap_err();
    assert!(errs.iter().any(|e| matches!(e, ValidateError::BadTrustDomain(_))));
}

#[test]
fn retry_budget_above_one_fails() {
    let mut s = happy();
    s.defaults.retry_budget = 1.5f32.to_bits();
    let errs = s.validate().unwrap_err();
    assert!(
        errs.iter()
            .any(|e| matches!(e, ValidateError::RetryBudgetOutOfRange(_)))
    );
}

#[test]
fn strict_mtls_without_identity_fails() {
    let mut s = happy();
    s.identity.kind = IdentityKind::Off;
    s.mtls = MtlsPosture::Strict;
    let errs = s.validate().unwrap_err();
    assert!(
        errs.iter()
            .any(|e| matches!(e, ValidateError::StrictMtlsWithoutIdentity(_)))
    );
}

#[test]
fn circuit_breaker_failures_exceeds_requests_fails() {
    let mut s = happy();
    s.defaults.circuit_breaker = CircuitBreakerSpec {
        max_requests: 5,
        max_failures: 50,
        reset: Duration::from_secs(30),
    };
    let errs = s.validate().unwrap_err();
    assert!(
        errs.iter()
            .any(|e| matches!(e, ValidateError::CbFailuresExceedRequests(50, 5)))
    );
}

#[test]
fn timeout_must_be_less_than_slow_timeout() {
    let mut s = happy();
    s.defaults.timeout = Duration::from_secs(600);
    s.defaults.slow_timeout = Duration::from_secs(300);
    let errs = s.validate().unwrap_err();
    assert!(
        errs.iter()
            .any(|e| matches!(e, ValidateError::SlowTimeoutInverted(_, _)))
    );
}

// ── beyond the original's cases ──────────────────────────────────

#[test]
fn every_violation_is_reported_in_rule_order() {
    let mut s = happy();
    s.name = "  \t".into();
    s.aplicacao = "".into();
    s.identity.trust_domain = "a/b".into();
    s.identity.kind = IdentityKind::Off;
    s.defaults.retry_budget = f32::NAN.to_bits();
    s.defaults.circuit_breaker.max_failures = 101;
    s.defaults.timeout = Duration::from_secs(300);
    let errs = s.validate().unwrap_err();
    assert_eq!(
        errs,
        vec![
            ValidateError::EmptyName,
            ValidateError::EmptyAplicacao,
            ValidateError::BadTrustDomain("a/b".into()),
            ValidateError::RetryBudgetOutOfRange(f32::NAN.to_bits()),
            ValidateError::StrictMtlsWithoutIdentity(IdentityKind::Off),
            ValidateError::CbFailuresExceedRequests(101, 100),
            ValidateError::SlowTimeoutInverted(300, 300),
        ]
    );
}

#[test]
fn blank_trust_domain_is_empty_not_bad() {
    let mut s = happy();
    s.identity.trust_domain = " \u{3000} ".into();
    assert_eq!(s.validate().unwrap_err(), vec![ValidateError::EmptyTrustDomain]);
}

#[test]
fn blank_name_with_unicode_space_fails() {
    let mut s = happy();
    s.name = "\u{2003}\n".into();
    assert_eq!(s.validate().unwrap_err(), vec![ValidateError::EmptyName]);
}

#[test]
fn name_with_inner_text_passes() {
    let mut s = happy();
    s.name = "  mesh  ".into();
    assert!(s.validate().is_ok());
}

#[test]
fn scheme_in_trust_domain_is_bad() {
    let mut s = happy();
    s.identity.trust_domain = "https://x".into();
    assert_eq!(
        s.validate().unwrap_err(),
        vec![ValidateError::BadTrustDomain("https://x".into())]
    );
}

#[test]
fn retry_budget_bounds() {
    for ok in [0.0f32, -0.0, 0.2, 0.5, 1.0] {
        let mut s = happy();
        s.defaults.retry_budget = ok.to_bits();
        assert!(s.validate().is_ok(), "{ok} should pass");
    }
    for bad in [-0.1f32, 1.0000001, 2.0, f32::INFINITY, f32::NEG_INFINITY, f32::NAN] {
        let mut s = happy();
        s.defaults.retry_budget = bad.to_bits();
        assert_eq!(
            s.validate().unwrap_err(),
            vec![ValidateError::RetryBudgetOutOfRange(bad.to_bits())]
        );
    }
}

#[test]
fn retry_budget_bits_agree_with_float_range() {
    for v in [0.0f32, -0.0, 1e-30, 0.2, 0.999, 1.0, 1.0000001, -1e-30, 3.5, f32::NAN] {
        let mut s = happy();
        s.defaults.retry_budget = v.to_bits();
        let in_range = (0.0..=1.0).contains(&v) && !v.is_nan();
        assert_eq!(s.validate().is_ok(), in_range, "{v}");
    }
}

#[test]
fn non_strict_mtls_needs_no_identity() {
    for posture in [MtlsPosture::Off, MtlsPosture::Permissive] {
        let mut s = happy();
        s.identity.kind = IdentityKind::Off;
        s.mtls = posture;
        assert!(s.validate().is_ok());
    }
}

#[test]
fn equal_breaker_thresholds_pass() {
    let mut s = happy();
    s.defaults.circuit_breaker.max_failures = 100;
    assert!(s.validate().is_ok());
}

#[test]
fn sub_second_timeouts_compare_exactly() {
    let mut s = happy();
    s.defaults.timeout = Duration::from_millis(1500);
    s.defaults.slow_timeout = Duration::from_millis(1501);
    assert!(s.validate().is_ok());
    s.defaults.slow_timeout = Duration::from_secs(1);
    assert_eq!(
        s.validate().unwrap_err(),
        vec![ValidateError::SlowTimeoutInverted(1, 1)]
    );
}

#[test]
fn other_slots_do_not_affect_validity() {
    let mut s = happy();
    s.saguao = true;
    s.policy = PolicySource::Explicit;
    s.gateway = GatewaySource::NoGateway;
    s.identity.issuer = IssuerKind::External;
    s.defaults.retries = 0;
    assert!(s.validate().is_ok());
}
