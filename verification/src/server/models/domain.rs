//! Custom domains attached to stacks.
use vstd::prelude::*;

verus! {

/// A stored domain.
#[derive(Debug, Clone, PartialEq, Eq)]
pub struct Domain {
    pub id: String,
    pub project_id: String,
    pub domain: String,
    pub ssl_enabled: bool,
    pub verified: bool,
    pub created_at: String,
}

/// A request to attach a domain.
#[derive(Debug, Clone, PartialEq, Eq)]
pub struct CreateDomain {
    pub domain: String,
}

/// A domain as the API returns it.
#[derive(Debug, Clone, PartialEq, Eq)]
pub struct DomainResponse {
    pub id: String,
    pub project_id: String,
    pub domain: String,
    pub ssl_enabled: bool,
    pub verified: bool,
    pub created_at: String,
}

impl From<Domain> for DomainResponse {
    /// The response for a stored domain: every field carried over.
    fn from(d: Domain) -> (r: DomainResponse) {
        DomainResponse {
            id: d.id,
            project_id: d.project_id,
            domain: d.domain,
            ssl_enabled: d.ssl_enabled,
            verified: d.verified,
            created_at: d.created_at,
        }
    }
}

impl vstd::std_specs::convert::FromSpecImpl<Domain> for DomainResponse {
    open spec fn obeys_from_spec() -> bool {
        true
    }

    open spec fn from_spec(d: Domain) -> DomainResponse {
        DomainResponse {
            id: d.id,
            project_id: d.project_id,
            domain: d.domain,
            ssl_enabled: d.ssl_enabled,
            verified: d.verified,
            created_at: d.created_at,
        }
    }
}

} // verus!
