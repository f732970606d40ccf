//! Identity backend: what issues and manages the workload SVIDs that the
//! data-plane proxies use for mTLS.

use vstd::prelude::*;

verus! {

/// Identity backend of a mesh.
#[derive(Clone, Debug)]
pub struct IdentitySpec {
    pub kind: IdentityKind,
    /// Trust-domain name. SPIFFE-IDs in this mesh take the form
    /// `spiffe://<trust_domain>/ns/<ns>/sa/<sa>`.
    pub trust_domain: String,
    /// Issuer driver: the concrete identity backend behind `kind: spiffe`.
    pub issuer: IssuerKind,
}

/// Kind of workload identity.
#[derive(Clone, Copy, Debug, PartialEq, Eq, Structural)]
pub enum IdentityKind {
    Spiffe,
    AuthentikMtls,
    PkiOnly,
    Off,
}

impl Default for IdentityKind {
    /// SPIFFE.
    fn default() -> (k: IdentityKind)
        ensures
            k == IdentityKind::Spiffe,
    {
        IdentityKind::Spiffe
    }
}

/// Issuer driver.
#[derive(Clone, Copy, Debug, PartialEq, Eq, Structural)]
pub enum IssuerKind {
    /// Vendor upstream SPIRE.
    Spire,
    /// Rust-from-scratch SPIRE-equivalent.
    Shikiriya,
    /// An external pre-existing trust anchor; the renderer skips SPIRE
    /// chart emission.
    External,
}

impl Default for IssuerKind {
    /// SPIRE.
    fn default() -> (k: IssuerKind)
        ensures
            k == IssuerKind::Spire,
    {
        IssuerKind::Spire
    }
}

} // verus!
