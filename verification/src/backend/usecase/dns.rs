//! DNS configuration of a team: which provider manages its records, and the
//! stored configuration records.
use vstd::prelude::*;
use crate::backend::models::domain::DomainProvider;
use crate::backend::services::dns_provider::{
    provider_for,
    provider_outcome,
    CloudflareConfig,
    ProviderChoice,
};
use crate::error::AppError;
use crate::ids::{new_uuid, now_rfc3339, uuid_shaped};

verus! {

/// A team's stored configuration of a DNS provider, as JSON text.
#[derive(Debug)]
pub struct DnsConfig {
    pub id: String,
    pub team_id: String,
    pub provider: String,
    pub config: String,
    pub created_at: String,
    pub updated_at: String,
}

/// DNS configuration operations.
pub struct DnsUsecase {}

impl DnsUsecase {
    pub fn new() -> (u: DnsUsecase) {
        DnsUsecase {}
    }

    /// The provider for `provider_type`, given the team's Cloudflare
    /// configuration as read and parsed: custom domains have none, a missing
    /// or unreadable Cloudflare configuration is an error.
    pub fn get_provider(&self, provider_type: DomainProvider, config: Option<Result<CloudflareConfig, String>>) -> (r:
        Result<ProviderChoice, AppError>)
        ensures
            provider_outcome(provider_type, config, r),
    {
        provider_for(provider_type, config)
    }

    /// The record storing the configuration `config` (JSON text) of
    /// `provider` for `team_id`: a fresh id, created and updated now.
    pub fn save_config(&self, team_id: &str, provider: &str, config: &str) -> (r: DnsConfig)
        ensures
            uuid_shaped(r.id@),
            r.team_id@ == team_id@,
            r.provider@ == provider@,
            r.config@ == config@,
            r.created_at == r.updated_at,
    {
        let now = now_rfc3339();
        DnsConfig {
            id: new_uuid(),
            team_id: team_id.to_owned(),
            provider: provider.to_owned(),
            config: config.to_owned(),
            created_at: now.clone(),
            updated_at: now,
        }
    }
}

} // verus!
