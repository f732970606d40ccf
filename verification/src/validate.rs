//! Type-level invariants: the fail-closed gate before any renderer consumes
//! a `MeshSpec`. Each rule is stated on its own, and `all` reports every
//! rule that a spec breaks, in rule order.

use vstd::prelude::*;

use vstd::arithmetic::power2::{lemma2_to64, lemma_pow2_adds, lemma_pow2_pos, lemma_pow2_strictly_increases, pow2};

use crate::identity::IdentityKind;
use crate::policy::MtlsPosture;
use crate::text::{contains_char, is_blank, lemma_trim_empty_iff_blank, trim};
use crate::time::NANOS_PER_SEC;
use crate::MeshSpec;

verus! {

/// A violated invariant of a `MeshSpec`.
///
/// `RetryBudgetOutOfRange` carries the budget as the bit pattern of its
/// `f32`; `SlowTimeoutInverted` carries whole seconds.
#[derive(Clone, Debug, PartialEq)]
pub enum ValidateError {
    EmptyName,
    EmptyAplicacao,
    EmptyTrustDomain,
    BadTrustDomain(String),
    RetryBudgetOutOfRange(u32),
    StrictMtlsWithoutIdentity(IdentityKind),
    CbFailuresExceedRequests(u32, u32),
    SlowTimeoutInverted(u64, u64),
}

/// A `ValidateError` with its text taken as a sequence of characters.
pub enum ValidateErrorView {
    EmptyName,
    EmptyAplicacao,
    EmptyTrustDomain,
    BadTrustDomain(Seq<char>),
    RetryBudgetOutOfRange(u32),
    StrictMtlsWithoutIdentity(IdentityKind),
    CbFailuresExceedRequests(u32, u32),
    SlowTimeoutInverted(u64, u64),
}

impl View for ValidateError {
    type V = ValidateErrorView;

    open spec fn view(&self) -> ValidateErrorView {
        match self {
            ValidateError::EmptyName => ValidateErrorView::EmptyName,
            ValidateError::EmptyAplicacao => ValidateErrorView::EmptyAplicacao,
            ValidateError::EmptyTrustDomain => ValidateErrorView::EmptyTrustDomain,
            ValidateError::BadTrustDomain(td) => ValidateErrorView::BadTrustDomain(td@),
            ValidateError::RetryBudgetOutOfRange(b) => ValidateErrorView::RetryBudgetOutOfRange(*b),
            ValidateError::StrictMtlsWithoutIdentity(k) => ValidateErrorView::StrictMtlsWithoutIdentity(*k),
            ValidateError::CbFailuresExceedRequests(f, r) => ValidateErrorView::CbFailuresExceedRequests(*f, *r),
            ValidateError::SlowTimeoutInverted(t, s) => ValidateErrorView::SlowTimeoutInverted(*t, *s),
        }
    }
}

/// Whether the `f32` with bit pattern `bits` lies in `[0.0, 1.0]` (and so
/// is no NaN). Non-negative `f32` values order as their bit patterns, with
/// 1.0 at `0x3F80_0000`; the only negative value in range is `-0.0`, at
/// `0x8000_0000`.
pub open spec fn retry_budget_in_range(bits: u32) -> bool {
    bits <= 0x3F80_0000 || bits == 0x8000_0000
}

/// Sign bit of the IEEE-754 binary32 number with bit pattern `b`.
pub open spec fn f32_sign_bit(b: u32) -> nat {
    (b as nat) / 0x8000_0000
}

/// Biased exponent field (8 bits) of the binary32 number `b`.
pub open spec fn f32_exponent(b: u32) -> nat {
    ((b as nat) / 0x80_0000) % 0x100
}

/// Fraction field (23 bits) of the binary32 number `b`.
pub open spec fn f32_fraction(b: u32) -> nat {
    (b as nat) % 0x80_0000
}

/// Whether `b` is a number: neither an infinity nor a NaN (exponent field
/// all ones).
pub open spec fn f32_is_number(b: u32) -> bool {
    f32_exponent(b) < 0xFF
}

/// The magnitude of the number `b`, in units of 2^-149 (the smallest
/// subnormal): `fraction` for subnormals and zero, else
/// `(2^23 + fraction) * 2^(exponent - 1)`. In these units 1.0 is 2^149.
pub open spec fn f32_magnitude(b: u32) -> nat {
    let e = f32_exponent(b);
    let f = f32_fraction(b);
    if e == 0 {
        f
    } else {
        (0x80_0000 + f) * pow2((e - 1) as nat)
    }
}

/// Whether the `f32` with bit pattern `b` is a number `x` with
/// `0.0 <= x <= 1.0`: a non-negative number of magnitude at most one, or a
/// zero of either sign.
pub open spec fn f32_within_zero_and_one(b: u32) -> bool {
    &&& f32_is_number(b)
    &&& if f32_sign_bit(b) == 0 {
        f32_magnitude(b) <= pow2(149)
    } else {
        f32_magnitude(b) == 0
    }
}

/// The bit-pattern test of the retry budget agrees with the value of the
/// `f32`: `retry_budget_in_range(b)` holds exactly when `b` is a number in
/// `[0.0, 1.0]`.
pub proof fn lemma_budget_bits_are_unit_interval(b: u32)
    ensures
        retry_budget_in_range(b) == f32_within_zero_and_one(b),
{
    let bn = b as nat;
    let sg = f32_sign_bit(b);
    let e = f32_exponent(b);
    let f = f32_fraction(b);
    assert(bn == sg * 0x8000_0000 + e * 0x80_0000 + f && sg <= 1 && e < 0x100 && f < 0x80_0000)
        by (nonlinear_arith)
        requires
            bn < 0x1_0000_0000,
            sg == bn / 0x8000_0000,
            e == (bn / 0x80_0000) % 0x100,
            f == bn % 0x80_0000,
    ;
    lemma2_to64();
    lemma_pow2_strictly_increases(23, 149);
    let m = f32_magnitude(b);
    if e == 0 {
        assert(m == f);
        assert(m < pow2(149));
    } else {
        let p = pow2((e - 1) as nat);
        lemma_pow2_pos((e - 1) as nat);
        assert(m == (0x80_0000 + f) * p);
        assert(m >= 0x80_0000 * p) by (nonlinear_arith)
            requires
                m == (0x80_0000 + f) * p,
        ;
        assert(m > 0) by (nonlinear_arith)
            requires
                m >= 0x80_0000 * p,
                p > 0,
        ;
        if e <= 126 {
            lemma_pow2_adds(24, (e - 1) as nat);
            assert(m < pow2(24) * p) by (nonlinear_arith)
                requires
                    m == (0x80_0000 + f) * p,
                    f < 0x80_0000,
                    pow2(24) == 0x100_0000,
                    p > 0,
            ;
            if e < 126 {
                lemma_pow2_strictly_increases((24 + e - 1) as nat, 149);
            }
            assert(m < pow2(149));
        } else if e == 127 {
            lemma_pow2_adds(23, 126);
            assert((m <= pow2(149)) == (f == 0)) by (nonlinear_arith)
                requires
                    m == (0x80_0000 + f) * p,
                    pow2(149) == 0x80_0000 * p,
                    p > 0,
            ;
        } else {
            lemma_pow2_adds(23, (e - 1) as nat);
            lemma_pow2_strictly_increases(149, (23 + e - 1) as nat);
            assert(m > pow2(149));
        }
    }
}

/// Whether `p` occurs in `s` as a contiguous run.
pub open spec fn has_text(s: Seq<char>, p: Seq<char>) -> bool {
    exists|i: int| 0 <= i && i + p.len() <= s.len() && #[trigger] s.subrange(i, i + p.len()) == p
}

/// A trust domain is bad when it holds a slash or a scheme separator.
pub open spec fn bad_trust_domain(td: Seq<char>) -> bool {
    td.contains('/') || has_text(td, "://"@)
}

/// `e` when `c` holds, else nothing.
pub open spec fn when(c: bool, e: ValidateErrorView) -> Seq<ValidateErrorView> {
    if c {
        seq![e]
    } else {
        seq![]
    }
}

/// The name must not be blank.
pub open spec fn name_rule(s: MeshSpec) -> Seq<ValidateErrorView> {
    when(is_blank(s.name@), ValidateErrorView::EmptyName)
}

/// The aplicacao must not be blank.
pub open spec fn aplicacao_rule(s: MeshSpec) -> Seq<ValidateErrorView> {
    when(is_blank(s.aplicacao@), ValidateErrorView::EmptyAplicacao)
}

/// The trust domain must not be blank, and must hold no slash or scheme.
pub open spec fn trust_domain_rule(s: MeshSpec) -> Seq<ValidateErrorView> {
    let td = s.identity.trust_domain@;
    when(is_blank(td), ValidateErrorView::EmptyTrustDomain) + when(
        !is_blank(td) && bad_trust_domain(td),
        ValidateErrorView::BadTrustDomain(td),
    )
}

/// The retry budget must lie in `[0.0, 1.0]`.
pub open spec fn retry_budget_rule(s: MeshSpec) -> Seq<ValidateErrorView> {
    let rb = s.defaults.retry_budget;
    when(!retry_budget_in_range(rb), ValidateErrorView::RetryBudgetOutOfRange(rb))
}

/// Strict mTLS needs a workload identity backend.
pub open spec fn mtls_rule(s: MeshSpec) -> Seq<ValidateErrorView> {
    when(
        s.mtls == MtlsPosture::Strict && s.identity.kind == IdentityKind::Off,
        ValidateErrorView::StrictMtlsWithoutIdentity(s.identity.kind),
    )
}

/// The circuit breaker's failure threshold must not exceed its request
/// threshold.
pub open spec fn circuit_breaker_rule(s: MeshSpec) -> Seq<ValidateErrorView> {
    let cb = s.defaults.circuit_breaker;
    when(
        cb.max_failures > cb.max_requests,
        ValidateErrorView::CbFailuresExceedRequests(cb.max_failures, cb.max_requests),
    )
}

/// The timeout must be strictly shorter than the slow timeout.
pub open spec fn timeout_rule(s: MeshSpec) -> Seq<ValidateErrorView> {
    let t = s.defaults.timeout@;
    let st = s.defaults.slow_timeout@;
    when(
        t >= st,
        ValidateErrorView::SlowTimeoutInverted(
            (t / (NANOS_PER_SEC as nat)) as u64,
            (st / (NANOS_PER_SEC as nat)) as u64,
        ),
    )
}

/// Every violation of `s`, in rule order.
pub open spec fn violations(s: MeshSpec) -> Seq<ValidateErrorView> {
    name_rule(s) + aplicacao_rule(s) + trust_domain_rule(s) + retry_budget_rule(s) + mtls_rule(s)
        + circuit_breaker_rule(s) + timeout_rule(s)
}

/// A scheme separator holds a slash, so the second half of the trust-domain
/// test adds nothing to the first.
pub proof fn lemma_bad_trust_domain_is_slash(td: Seq<char>)
    ensures
        bad_trust_domain(td) == td.contains('/'),
{
    reveal_strlit("://");
    if has_text(td, "://"@) {
        let i = choose|i: int|
            0 <= i && i + "://"@.len() <= td.len() && #[trigger] td.subrange(i, i + "://"@.len())
                == "://"@;
        assert(td.subrange(i, i + 3)[1] == '/');
        assert(td[i + 1] == '/');
    }
}

/// Fail-closed: a spec has no violation exactly when it keeps every
/// invariant: name, aplicacao and trust domain not blank, trust domain free
/// of slashes and schemes, retry budget within `[0.0, 1.0]`, no strict mTLS
/// without an identity backend, no more circuit-breaker failures than
/// requests, and a timeout strictly shorter than the slow timeout.
pub proof fn lemma_valid_iff_every_rule_holds(s: MeshSpec)
    ensures
        (violations(s).len() == 0) == {
            &&& !is_blank(s.name@)
            &&& !is_blank(s.aplicacao@)
            &&& !is_blank(s.identity.trust_domain@)
            &&& !s.identity.trust_domain@.contains('/')
            &&& f32_within_zero_and_one(s.defaults.retry_budget)
            &&& !(s.mtls == MtlsPosture::Strict && s.identity.kind == IdentityKind::Off)
            &&& s.defaults.circuit_breaker.max_failures <= s.defaults.circuit_breaker.max_requests
            &&& s.defaults.timeout@ < s.defaults.slow_timeout@
        },
{
    lemma_bad_trust_domain_is_slash(s.identity.trust_domain@);
    lemma_budget_bits_are_unit_interval(s.defaults.retry_budget);
}

/// Each rule is checked on its own: every rule that `s` breaks is
/// reported, whatever the other rules find, and no rule that holds is.
pub proof fn lemma_each_rule_reported(s: MeshSpec)
    ensures
        violations(s).contains(ValidateErrorView::EmptyName) == is_blank(s.name@),
        violations(s).contains(ValidateErrorView::EmptyAplicacao) == is_blank(s.aplicacao@),
        violations(s).contains(ValidateErrorView::EmptyTrustDomain) == is_blank(
            s.identity.trust_domain@,
        ),
        violations(s).contains(ValidateErrorView::BadTrustDomain(s.identity.trust_domain@)) == (
        !is_blank(s.identity.trust_domain@) && s.identity.trust_domain@.contains('/')),
        violations(s).contains(ValidateErrorView::RetryBudgetOutOfRange(s.defaults.retry_budget))
            == !f32_within_zero_and_one(s.defaults.retry_budget),
        violations(s).contains(ValidateErrorView::StrictMtlsWithoutIdentity(IdentityKind::Off)) == (
        s.mtls == MtlsPosture::Strict && s.identity.kind == IdentityKind::Off),
        violations(s).contains(
            ValidateErrorView::CbFailuresExceedRequests(
                s.defaults.circuit_breaker.max_failures,
                s.defaults.circuit_breaker.max_requests,
            ),
        ) == (s.defaults.circuit_breaker.max_failures > s.defaults.circuit_breaker.max_requests),
        violations(s).contains(
            ValidateErrorView::SlowTimeoutInverted(
                (s.defaults.timeout@ / (NANOS_PER_SEC as nat)) as u64,
                (s.defaults.slow_timeout@ / (NANOS_PER_SEC as nat)) as u64,
            ),
        ) == (s.defaults.timeout@ >= s.defaults.slow_timeout@),
        violations(s).len() <= 7,
{
    lemma_bad_trust_domain_is_slash(s.identity.trust_domain@);
    lemma_budget_bits_are_unit_interval(s.defaults.retry_budget);
    let v = violations(s);
    let a = name_rule(s);
    let b = a + aplicacao_rule(s);
    let c = b + trust_domain_rule(s);
    let d = c + retry_budget_rule(s);
    let e = d + mtls_rule(s);
    let f = e + circuit_breaker_rule(s);
    assert(v == f + timeout_rule(s));
    // Each part holds at most the one error of its own rule, so an error
    // of a given kind can only come from the part of that kind.
    lemma_contains_concat(f, timeout_rule(s));
    lemma_contains_concat(e, circuit_breaker_rule(s));
    lemma_contains_concat(d, mtls_rule(s));
    lemma_contains_concat(c, retry_budget_rule(s));
    lemma_contains_concat(b, trust_domain_rule(s));
    lemma_contains_concat(a, aplicacao_rule(s));
    let td = s.identity.trust_domain@;
    lemma_contains_concat(
        when(is_blank(td), ValidateErrorView::EmptyTrustDomain),
        when(!is_blank(td) && bad_trust_domain(td), ValidateErrorView::BadTrustDomain(td)),
    );
    lemma_when_contains();
    assert(v.contains(ValidateErrorView::EmptyName) == a.contains(ValidateErrorView::EmptyName));
}

proof fn lemma_when_contains()
    ensures
        forall|c: bool, e: ValidateErrorView, x: ValidateErrorView| #[trigger]
            when(c, e).contains(x) == (c && x == e),
        forall|c: bool, e: ValidateErrorView| #[trigger] when(c, e).len() <= 1,
{
    assert forall|c: bool, e: ValidateErrorView, x: ValidateErrorView| #[trigger]
        when(c, e).contains(x) == (c && x == e) by {
        if c && x == e {
            assert(when(c, e)[0] == x);
        }
    }
}

proof fn lemma_contains_concat(a: Seq<ValidateErrorView>, b: Seq<ValidateErrorView>)
    ensures
        forall|x: ValidateErrorView| #[trigger] (a + b).contains(x) == (a.contains(x) || b.contains(x)),
        (a + b).len() == a.len() + b.len(),
{
    assert forall|x: ValidateErrorView| #[trigger] (a + b).contains(x) == (a.contains(x) || b.contains(x)) by {
        if (a + b).contains(x) {
            let i = choose|i: int| 0 <= i < (a + b).len() && (a + b)[i] == x;
            if i < a.len() {
                assert(a[i] == x);
            } else {
                assert(b[i - a.len()] == x);
            }
        }
        if a.contains(x) {
            let i = choose|i: int| 0 <= i < a.len() && a[i] == x;
            assert((a + b)[i] == x);
        }
        if b.contains(x) {
            let i = choose|i: int| 0 <= i < b.len() && b[i] == x;
            assert((a + b)[i + a.len()] == x);
        }
    }
}

/// The default per-edge policy keeps its invariants: with the default
/// retry budget, circuit breaker and timeouts, and the default mTLS posture
/// with the default identity kind, none of those rules reports anything.
pub proof fn lemma_defaults_keep_invariants(s: MeshSpec)
    requires
        s.defaults.retry_budget == crate::policy::RETRY_BUDGET_ONE_FIFTH,
        s.defaults.timeout@ == 30 * NANOS_PER_SEC,
        s.defaults.slow_timeout@ == 300 * NANOS_PER_SEC,
        s.defaults.circuit_breaker.max_requests == 100,
        s.defaults.circuit_breaker.max_failures == 10,
        s.mtls == MtlsPosture::Strict,
        s.identity.kind == IdentityKind::Spiffe,
    ensures
        retry_budget_rule(s).len() == 0,
        mtls_rule(s).len() == 0,
        circuit_breaker_rule(s).len() == 0,
        timeout_rule(s).len() == 0,
{
}

/// Only the names, the identity backend, the mTLS posture and the per-edge
/// defaults decide validity: the data plane, observability, policy and
/// gateway sources, saguão flag, issuer and retry count never do.
pub proof fn lemma_violations_ignore_other_slots(s: MeshSpec, t: MeshSpec)
    requires
        s.name@ == t.name@,
        s.aplicacao@ == t.aplicacao@,
        s.identity.kind == t.identity.kind,
        s.identity.trust_domain@ == t.identity.trust_domain@,
        s.mtls == t.mtls,
        s.defaults.retry_budget == t.defaults.retry_budget,
        s.defaults.timeout@ == t.defaults.timeout@,
        s.defaults.slow_timeout@ == t.defaults.slow_timeout@,
        s.defaults.circuit_breaker.max_requests == t.defaults.circuit_breaker.max_requests,
        s.defaults.circuit_breaker.max_failures == t.defaults.circuit_breaker.max_failures,
    ensures
        violations(s) == violations(t),
{
}

/// The violations held in `e`: its error, or none.
pub open spec fn found(e: Option<ValidateError>) -> Seq<ValidateErrorView> {
    match e {
        Some(err) => seq![err@],
        None => seq![],
    }
}

/// Appends the error that a rule found, if any.
fn report(errors: &mut Vec<ValidateError>, e: Option<ValidateError>)
    ensures
        final(errors)@.map_values(|x: ValidateError| x@) == old(errors)@.map_values(
            |x: ValidateError| x@,
        ) + found(e),
{
    match e {
        Some(err) => {
            errors.push(err);
        },
        None => {},
    }
    assert(errors@.map_values(|x: ValidateError| x@) =~= old(errors)@.map_values(
        |x: ValidateError| x@,
    ) + found(e));
}

fn check_name(spec: &MeshSpec) -> (e: Option<ValidateError>)
    ensures
        found(e) == name_rule(*spec),
{
    proof {
        lemma_trim_empty_iff_blank(spec.name@);
    }
    if trim(spec.name.as_str()).is_empty() {
        Some(ValidateError::EmptyName)
    } else {
        None
    }
}

fn check_aplicacao(spec: &MeshSpec) -> (e: Option<ValidateError>)
    ensures
        found(e) == aplicacao_rule(*spec),
{
    proof {
        lemma_trim_empty_iff_blank(spec.aplicacao@);
    }
    if trim(spec.aplicacao.as_str()).is_empty() {
        Some(ValidateError::EmptyAplicacao)
    } else {
        None
    }
}

fn check_trust_domain(spec: &MeshSpec) -> (e: Option<ValidateError>)
    ensures
        found(e) == trust_domain_rule(*spec),
{
    let td = spec.identity.trust_domain.as_str();
    proof {
        lemma_trim_empty_iff_blank(td@);
        lemma_bad_trust_domain_is_slash(td@);
    }
    let r = if trim(td).is_empty() {
        Some(ValidateError::EmptyTrustDomain)
    } else if contains_char(td, '/') {
        Some(ValidateError::BadTrustDomain(spec.identity.trust_domain.clone()))
    } else {
        None
    };
    assert(found(r) =~= trust_domain_rule(*spec));
    r
}

fn check_retry_budget(spec: &MeshSpec) -> (e: Option<ValidateError>)
    ensures
        found(e) == retry_budget_rule(*spec),
{
    let rb = spec.defaults.retry_budget;
    if !(rb <= 0x3F80_0000 || rb == 0x8000_0000) {
        Some(ValidateError::RetryBudgetOutOfRange(rb))
    } else {
        None
    }
}

fn check_mtls(spec: &MeshSpec) -> (e: Option<ValidateError>)
    ensures
        found(e) == mtls_rule(*spec),
{
    if spec.mtls == MtlsPosture::Strict && spec.identity.kind == IdentityKind::Off {
        Some(ValidateError::StrictMtlsWithoutIdentity(spec.identity.kind))
    } else {
        None
    }
}

fn check_circuit_breaker(spec: &MeshSpec) -> (e: Option<ValidateError>)
    ensures
        found(e) == circuit_breaker_rule(*spec),
{
    let cb = &spec.defaults.circuit_breaker;
    if cb.max_failures > cb.max_requests {
        Some(ValidateError::CbFailuresExceedRequests(cb.max_failures, cb.max_requests))
    } else {
        None
    }
}

fn check_timeouts(spec: &MeshSpec) -> (e: Option<ValidateError>)
    ensures
        found(e) == timeout_rule(*spec),
{
    let t = spec.defaults.timeout;
    let st = spec.defaults.slow_timeout;
    if !t.shorter_than(&st) {
        Some(ValidateError::SlowTimeoutInverted(t.as_secs(), st.as_secs()))
    } else {
        None
    }
}

/// Runs every invariant, accumulating all violations. Returns `Ok(())`
/// only when the spec is fully valid; otherwise the violations, in rule
/// order.
pub fn all(spec: &MeshSpec) -> (r: Result<(), Vec<ValidateError>>)
    ensures
        r is Ok <==> violations(*spec).len() == 0,
        r matches Err(errs) ==> errs@.map_values(|e: ValidateError| e@) == violations(*spec),
{
    let mut errors: Vec<ValidateError> = Vec::new();
    assert(errors@.map_values(|e: ValidateError| e@) =~= Seq::<ValidateErrorView>::empty());
    report(&mut errors, check_name(spec));
    report(&mut errors, check_aplicacao(spec));
    report(&mut errors, check_trust_domain(spec));
    report(&mut errors, check_retry_budget(spec));
    report(&mut errors, check_mtls(spec));
    report(&mut errors, check_circuit_breaker(spec));
    report(&mut errors, check_timeouts(spec));
    assert(errors@.map_values(|e: ValidateError| e@) =~= violations(*spec));
    if errors.len() == 0 {
        Ok(())
    } else {
        Err(errors)
    }
}

} // verus!
