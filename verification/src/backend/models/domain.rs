//! A domain routed to a container of a stack.
use vstd::prelude::*;

verus! {

/// Who manages the DNS records of a domain.
#[derive(Debug, Clone, Copy, PartialEq, Eq, Structural)]
pub enum DomainProvider {
    /// Records are managed by the user, outside the platform.
    Custom,
    Cloudflare,
    CPanel,
}

/// How traffic reaches the container: through the reverse proxy, or through a
/// Cloudflare tunnel.
#[derive(Debug, Clone, Copy, PartialEq, Eq, Structural)]
pub enum DomainType {
    Caddy,
    Tunnel,
}

/// A domain of a stack.
#[derive(Debug)]
pub struct Domain {
    pub id: String,
    pub stack_id: String,
    pub container_name: String,
    pub container_port: i32,
    pub domain: String,
    pub ssl_enabled: bool,
    pub verified: bool,
    pub provider: DomainProvider,
    pub domain_type: DomainType,
    pub tunnel_id: Option<String>,
    pub dns_record_id: Option<String>,
    pub proxied: bool,
    pub show_branding: bool,
    pub created_at: String,
}

/// A copy of an optional string.
pub fn copy_opt(o: &Option<String>) -> (r: Option<String>)
    ensures
        r == *o,
{
    match o {
        Some(s) => Some(s.clone()),
        None => None,
    }
}

impl Domain {
    /// A field-by-field copy of the record.
    pub fn duplicate(&self) -> (r: Domain)
        ensures
            r == *self,
    {
        Domain {
            id: self.id.clone(),
            stack_id: self.stack_id.clone(),
            container_name: self.container_name.clone(),
            container_port: self.container_port,
            domain: self.domain.clone(),
            ssl_enabled: self.ssl_enabled,
            verified: self.verified,
            provider: self.provider,
            domain_type: self.domain_type,
            tunnel_id: copy_opt(&self.tunnel_id),
            dns_record_id: copy_opt(&self.dns_record_id),
            proxied: self.proxied,
            show_branding: self.show_branding,
            created_at: self.created_at.clone(),
        }
    }
}

} // verus!
