//! DNS providers: which provider manages the records of a domain, from the
//! provider type and the team's stored configuration.
use vstd::prelude::*;
use crate::backend::models::domain::DomainProvider;
use crate::error::AppError;
use crate::text::{concat2, concat3};

verus! {

/// A team's Cloudflare credentials.
#[derive(Debug)]
pub struct CloudflareConfig {
    pub api_token: String,
    pub zone_id: String,
}

/// A provider that creates and deletes DNS records.
pub trait DnsProvider {
    /// Creates or updates the record of `domain` pointing to `target`, and
    /// gives its id at the provider.
    fn create_record(&self, domain: &str, target: &str) -> Result<String, AppError>;

    /// Deletes the record with id `record_id`.
    fn delete_record(&self, record_id: &str) -> Result<(), AppError>;
}

/// The message of every cPanel operation.
pub open spec fn cpanel_unsupported() -> Seq<char> {
    "cPanel provider not yet implemented"@
}

/// cPanel: no operation is available yet.
#[derive(Debug)]
pub struct CPanelProvider {}

impl DnsProvider for CPanelProvider {
    fn create_record(&self, domain: &str, target: &str) -> (r: Result<String, AppError>)
        ensures
            r matches Err(AppError::Internal(m)) && m@ == cpanel_unsupported(),
    {
        proof {
            reveal_strlit("cPanel provider not yet implemented");
        }
        Err(AppError::Internal("cPanel provider not yet implemented".to_owned()))
    }

    fn delete_record(&self, record_id: &str) -> (r: Result<(), AppError>)
        ensures
            r matches Err(AppError::Internal(m)) && m@ == cpanel_unsupported(),
    {
        proof {
            reveal_strlit("cPanel provider not yet implemented");
        }
        Err(AppError::Internal("cPanel provider not yet implemented".to_owned()))
    }
}

/// The provider that manages the records.
#[derive(Debug)]
pub enum ProviderChoice {
    Cloudflare { api_token: String, zone_id: String },
    CPanel,
}

/// The refusal of the custom provider.
pub open spec fn custom_refusal() -> Seq<char> {
    "Custom provider does not support automated DNS"@
}

/// The error when the team has no Cloudflare configuration.
pub open spec fn missing_cloudflare() -> Seq<char> {
    "Cloudflare configuration not found for team"@
}

/// The provider for `provider_type` given the team's Cloudflare
/// configuration `config` (`None`: none stored; `Some(Err(m))`: stored but
/// unreadable, `m` saying why).
pub open spec fn provider_outcome(
    provider_type: DomainProvider,
    config: Option<Result<CloudflareConfig, String>>,
    r: Result<ProviderChoice, AppError>,
) -> bool {
    match provider_type {
        DomainProvider::Custom => r matches Err(AppError::BadRequest(m)) && m@ == custom_refusal(),
        DomainProvider::CPanel => r matches Ok(ProviderChoice::CPanel),
        DomainProvider::Cloudflare => match config {
            None => r matches Err(AppError::NotFound(m)) && m@ == missing_cloudflare(),
            Some(Err(e)) => r matches Err(AppError::Internal(m)) && m@ == "Invalid Cloudflare config: "@
                + e@,
            Some(Ok(c)) => r matches Ok(ProviderChoice::Cloudflare { api_token, zone_id })
                && api_token == c.api_token && zone_id == c.zone_id,
        },
    }
}

/// The provider for `provider_type`, given the team's Cloudflare
/// configuration as read and parsed.
pub fn provider_for(provider_type: DomainProvider, config: Option<Result<CloudflareConfig, String>>) -> (r:
    Result<ProviderChoice, AppError>)
    ensures
        provider_outcome(provider_type, config, r),
{
    match provider_type {
        DomainProvider::Custom => {
            proof {
                reveal_strlit("Custom provider does not support automated DNS");
            }
            Err(AppError::BadRequest("Custom provider does not support automated DNS".to_owned()))
        },
        DomainProvider::CPanel => Ok(ProviderChoice::CPanel),
        DomainProvider::Cloudflare => match config {
            None => {
                proof {
                    reveal_strlit("Cloudflare configuration not found for team");
                }
                Err(AppError::NotFound("Cloudflare configuration not found for team".to_owned()))
            },
            Some(Err(e)) => Err(AppError::Internal(concat2("Invalid Cloudflare config: ", e.as_str()))),
            Some(Ok(c)) => Ok(ProviderChoice::Cloudflare { api_token: c.api_token, zone_id: c.zone_id }),
        },
    }
}

/// Whether records of a domain with `provider_type` are managed by a
/// provider at all: custom domains are left to their owners.
pub fn is_automated(provider_type: DomainProvider) -> (r: bool)
    ensures
        r <==> provider_type != DomainProvider::Custom,
{
    match provider_type {
        DomainProvider::Custom => false,
        _ => true,
    }
}

// ---------------------------------------------------------------- Cloudflare

/// What `serde_json::from_str::<serde_json::Value>` gives for `text`, then
/// `value["result"]["id"].as_str()`: the string there, if any, or, when the
/// text is no JSON, the message of the parser's error.
pub uninterp spec fn json_result_id(text: Seq<char>) -> Result<Option<Seq<char>>, Seq<char>>;

/// The text of an optional string.
pub open spec fn opt_str(o: Option<String>) -> Option<Seq<char>> {
    match o {
        Some(s) => Some(s@),
        None => None,
    }
}

/// `serde_json::from_str::<serde_json::Value>` on `text`, then the string at
/// `["result"]["id"]`, if any; the parser's message when it fails.
#[verifier::external_body]
fn read_result_id(text: &str) -> (r: Result<Option<String>, String>)
    ensures
        match r {
            Ok(o) => json_result_id(text@) == Ok::<Option<Seq<char>>, Seq<char>>(opt_str(o)),
            Err(m) => json_result_id(text@) == Err::<Option<Seq<char>>, Seq<char>>(m@),
        },
{
    match serde_json::from_str::<serde_json::Value>(text) {
        Ok(v) => Ok(v["result"]["id"].as_str().map(|s| s.to_owned())),
        Err(e) => Err(e.to_string()),
    }
}

/// The address of the DNS records of zone `zone_id`.
pub open spec fn records_url_of(zone_id: Seq<char>) -> Seq<char> {
    "https://api.cloudflare.com/client/v4/zones/"@ + zone_id + "/dns_records"@
}

/// The reply to a request: `Err(m)` when it could not be sent, else whether
/// its status is a success, the status as it reads, and the body.
pub type Reply = Result<(bool, String, String), String>;

/// The error of a reply that failed, if it did.
pub open spec fn reply_failure(reply: Reply, r: AppError) -> bool {
    match reply {
        Err(m) => r matches AppError::Internal(x) && x@ == "Cloudflare API error: "@ + m@,
        Ok((false, status, body)) => r matches AppError::Internal(x) && x@ == "Cloudflare API error ("@
            + status@ + "): "@ + body@,
        Ok((true, _, _)) => false,
    }
}

/// The id of the record a creation reply gives.
pub open spec fn created_outcome(reply: Reply, r: Result<String, AppError>) -> bool {
    match reply {
        Ok((true, _, body)) => match json_result_id(body@) {
            Err(msg) => r matches Err(AppError::Internal(x)) && x@ == "Failed to parse Cloudflare response: "@
                + msg,
            Ok(None) => r matches Err(AppError::Internal(x)) && x@ == "Cloudflare response missing record ID"@,
            Ok(Some(id)) => r matches Ok(v) && v@ == id,
        },
        _ => r matches Err(e) && reply_failure(reply, e),
    }
}

/// Cloudflare, for zone `zone_id` with credentials `api_token`.
#[derive(Debug)]
pub struct CloudflareProvider {
    pub api_token: String,
    pub zone_id: String,
}

impl CloudflareProvider {
    pub fn new(api_token: String, zone_id: String) -> (p: CloudflareProvider)
        ensures
            p.api_token == api_token,
            p.zone_id == zone_id,
    {
        CloudflareProvider { api_token, zone_id }
    }

    /// The address records are created at.
    pub fn records_url(&self) -> (r: String)
        ensures
            r@ == records_url_of(self.zone_id@),
    {
        concat3("https://api.cloudflare.com/client/v4/zones/", self.zone_id.as_str(), "/dns_records")
    }

    /// The address of record `record_id`.
    pub fn record_url(&self, record_id: &str) -> (r: String)
        ensures
            r@ == records_url_of(self.zone_id@) + "/"@ + record_id@,
    {
        let base = self.records_url();
        concat3(base.as_str(), "/", record_id)
    }

    /// The type of a record pointing to a target that is an IP address or
    /// not.
    pub fn record_type(target_is_ip: bool) -> (r: String)
        ensures
            r@ == if target_is_ip {
                "A"@
            } else {
                "CNAME"@
            },
    {
        proof {
            reveal_strlit("A");
            reveal_strlit("CNAME");
        }
        if target_is_ip {
            "A".to_owned()
        } else {
            "CNAME".to_owned()
        }
    }

    fn failure(reply: &Reply) -> (r: AppError)
        requires
            !(reply matches Ok((true, _, _))),
        ensures
            reply_failure(*reply, r),
    {
        match reply {
            Err(m) => AppError::Internal(concat2("Cloudflare API error: ", m.as_str())),
            Ok((_, status, body)) => {
                let head = concat3("Cloudflare API error (", status.as_str(), "): ");
                AppError::Internal(concat2(head.as_str(), body.as_str()))
            },
        }
    }

    /// The id of the record created, from the reply to the creation request.
    pub fn create_record(&self, reply: Reply) -> (r: Result<String, AppError>)
        ensures
            created_outcome(reply, r),
    {
        proof {
            reveal_strlit("Cloudflare response missing record ID");
        }
        match &reply {
            Ok((true, _, body)) => match read_result_id(body.as_str()) {
                Err(m) => Err(AppError::Internal(concat2("Failed to parse Cloudflare response: ", m.as_str()))),
                Ok(None) => Err(AppError::Internal("Cloudflare response missing record ID".to_owned())),
                Ok(Some(id)) => Ok(id),
            },
            _ => Err(Self::failure(&reply)),
        }
    }

    /// The outcome of a deletion, from the reply to its request.
    pub fn delete_record(&self, reply: Reply) -> (r: Result<(), AppError>)
        ensures
            reply matches Ok((true, _, _)) ==> r is Ok,
            !(reply matches Ok((true, _, _))) ==> (r matches Err(e) && reply_failure(reply, e)),
    {
        match &reply {
            Ok((true, _, _)) => Ok(()),
            _ => Err(Self::failure(&reply)),
        }
    }
}

} // verus!
