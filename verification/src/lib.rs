//! tatara-mesh: the typed `(defmesh …)` primitive.
//!
//! `MeshSpec` captures a mesh form (identity, data plane, mTLS posture,
//! per-edge retry/timeout/circuit-breaker defaults, observability, policy and
//! gateway sources) and `MeshSpec::validate` runs its fail-closed
//! invariants.

pub mod identity;
pub mod policy;
pub mod text;
pub mod time;
pub mod validate;

use vstd::prelude::*;

pub use identity::{IdentityKind, IdentitySpec, IssuerKind};
pub use policy::{
    CircuitBreakerSpec, MtlsPosture, ObservabilitySpec, RetrySpec, TimeoutSpec, TraceFormat,
};
pub use time::Duration;
pub use validate::ValidateError;

use crate::time::NANOS_PER_SEC;
use crate::validate::{all, violations};

verus! {

/// `(defmesh …)`: the typed mesh spec that renders to a concrete data and
/// control plane on any of the supported backends.
#[derive(Clone, Debug)]
pub struct MeshSpec {
    /// Logical name (slug) of this mesh.
    pub name: String,
    /// Aplicacao this mesh wraps.
    pub aplicacao: String,
    /// Identity backend: SPIFFE issuer and trust domain.
    pub identity: IdentitySpec,
    /// Data plane (proxy and L7) configuration.
    pub data_plane: DataPlaneSpec,
    /// mTLS posture across mesh edges.
    pub mtls: MtlsPosture,
    /// Per-edge defaults.
    pub defaults: PolicyDefaults,
    /// Observability surface.
    pub observability: ObservabilitySpec,
    /// Where per-edge policy comes from.
    pub policy: PolicySource,
    /// Where the gateway comes from.
    pub gateway: GatewaySource,
    /// Saguão integration: human edges entering via `:entrada` flow through
    /// passaporte.
    pub saguao: bool,
}

impl MeshSpec {
    /// Runs all type-level invariants, accumulating every violation: `Ok`
    /// exactly when there is none, else every violation in rule order.
    pub fn validate(&self) -> (r: Result<(), Vec<ValidateError>>)
        ensures
            r is Ok <==> violations(*self).len() == 0,
            r matches Err(errs) ==> errs@.map_values(|e: ValidateError| e@) == violations(*self),
    {
        all(self)
    }
}

/// Data plane: proxy, sidecar mode and L7 component.
#[derive(Clone, Debug)]
pub struct DataPlaneSpec {
    pub proxy: ProxyKind,
    pub sidecar_mode: SidecarMode,
    pub l7: L7Kind,
}

impl Default for DataPlaneSpec {
    /// Aresta proxy, automatic sidecar mode, Hanabi L7.
    fn default() -> (d: DataPlaneSpec)
        ensures
            d.proxy == ProxyKind::Aresta,
            d.sidecar_mode == SidecarMode::Auto,
            d.l7 == L7Kind::Hanabi,
    {
        DataPlaneSpec {
            proxy: ProxyKind::default(),
            sidecar_mode: SidecarMode::default(),
            l7: L7Kind::default(),
        }
    }
}

/// Proxy implementation.
#[derive(Clone, Copy, Debug, PartialEq, Eq, Structural)]
pub enum ProxyKind {
    Aresta,
    LinkerdProxy,
    Envoy,
}

impl Default for ProxyKind {
    /// Aresta.
    fn default() -> (p: ProxyKind)
        ensures
            p == ProxyKind::Aresta,
    {
        ProxyKind::Aresta
    }
}

/// Sidecar mode: auto picks eBPF when supported, else sidecar.
#[derive(Clone, Copy, Debug, PartialEq, Eq, Structural)]
pub enum SidecarMode {
    Auto,
    Sidecar,
    Ebpf,
}

impl Default for SidecarMode {
    /// Auto.
    fn default() -> (m: SidecarMode)
        ensures
            m == SidecarMode::Auto,
    {
        SidecarMode::Auto
    }
}

/// L7 sub-component.
#[derive(Clone, Copy, Debug, PartialEq, Eq, Structural)]
pub enum L7Kind {
    Hanabi,
    /// No L7 component (`none` in the mesh form).
    NoL7,
}

impl Default for L7Kind {
    /// Hanabi.
    fn default() -> (k: L7Kind)
        ensures
            k == L7Kind::Hanabi,
    {
        L7Kind::Hanabi
    }
}

/// Per-edge defaults of a mesh.
///
/// `retry_budget` is held as the IEEE-754 bit pattern of an `f32`
/// (`f32::to_bits`).
#[derive(Clone, Debug)]
pub struct PolicyDefaults {
    pub retries: u32,
    pub retry_budget: u32,
    pub timeout: Duration,
    pub slow_timeout: Duration,
    pub circuit_breaker: CircuitBreakerSpec,
}

impl Default for PolicyDefaults {
    /// 3 retries, budget 0.2, 30 s timeout, 300 s slow timeout, and the
    /// default circuit breaker.
    fn default() -> (p: PolicyDefaults)
        ensures
            p.retries == 3,
            p.retry_budget == policy::RETRY_BUDGET_ONE_FIFTH,
            p.timeout@ == 30 * NANOS_PER_SEC,
            p.slow_timeout@ == 300 * NANOS_PER_SEC,
            p.circuit_breaker.max_requests == 100,
            p.circuit_breaker.max_failures == 10,
            p.circuit_breaker.reset@ == 30 * NANOS_PER_SEC,
    {
        PolicyDefaults {
            retries: policy::default_retries(),
            retry_budget: policy::default_retry_budget(),
            timeout: policy::default_timeout(),
            slow_timeout: policy::default_slow_timeout(),
            circuit_breaker: CircuitBreakerSpec::default(),
        }
    }
}

/// Where per-edge policy comes from.
#[derive(Clone, Copy, Debug, PartialEq, Eq, Structural)]
pub enum PolicySource {
    /// Inherit from the Aplicacao `:contratos` block.
    Contratos,
    /// Explicit per-edge policy defined on the mesh spec itself.
    Explicit,
}

/// The policy source a mesh form gets when it names none.
pub fn default_inherit_policy() -> (p: PolicySource)
    ensures
        p == PolicySource::Contratos,
{
    PolicySource::Contratos
}

/// Where the gateway comes from.
#[derive(Clone, Copy, Debug, PartialEq, Eq, Structural)]
pub enum GatewaySource {
    /// Inherit from the Aplicacao `:entrada` block.
    Entrada,
    /// No public gateway (the mesh is internal-only; `none` in the mesh
    /// form).
    NoGateway,
}

/// The gateway source a mesh form gets when it names none.
pub fn default_inherit_gateway() -> (g: GatewaySource)
    ensures
        g == GatewaySource::Entrada,
{
    GatewaySource::Entrada
}

} // verus!
