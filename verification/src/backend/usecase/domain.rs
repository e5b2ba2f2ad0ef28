//! Adding a domain to a stack, step by step: the lookup for an existing
//! domain, the tunnel, the DNS record and its tunnel ingress, the stored
//! record and the proxy route, with the undoing of earlier steps when a later
//! one fails. The stores, the DNS provider, the runtime and the proxy are
//! driven by the caller, which performs each action and reports its outcome.
use vstd::prelude::*;
use crate::backend::models::domain::{copy_opt, Domain, DomainProvider, DomainType};
use crate::backend::services::container::ContainerInfo;
pub use crate::dns::DnsVerificationResult;
use crate::dns::{dns_verified, verify_lookup, without_trailing_dots};
use crate::error::AppError;
use crate::labels::{find_value, lookup};
use crate::text::{
    chars_of, concat2, concat3, contains_sub, decimal, decimal_string, has_prefix, has_substring,
    push_str, starts_with, string_of,
};

verus! {

/// A request to route `domain` to `container_name:container_port`.
#[derive(Debug)]
pub struct AddDomainRequest {
    pub stack_id: String,
    pub domain: String,
    pub container_name: String,
    pub container_port: i32,
    pub provider: DomainProvider,
    pub domain_type: DomainType,
    pub tunnel_id: Option<String>,
    pub tunnel_token: Option<String>,
    pub dns_record_type: Option<String>,
    pub dns_record_content: Option<String>,
    pub proxied: bool,
}

/// Domain rules of the backend. `has_tunnel_manager` tells whether a tunnel
/// manager is configured, which brings up the tunnel of a request's token.
pub struct DomainUsecase {
    pub has_tunnel_manager: bool,
}

/// Where an addition stands.
#[derive(Debug, Clone, Copy, PartialEq, Eq, Structural)]
pub enum AddDomainStage {
    CheckingExisting,
    EnsuringTunnel,
    ExtractingTunnelId,
    OpeningProvider,
    CreatingRecord,
    SettingUpIngress,
    Allocating,
    Saving,
    RollingBackSave,
    ListingContainers,
    AddingRoute,
    RollingBackRoute,
    DeletingRecord,
    Finished,
}

/// An addition in progress: the request, the public address of the host (when
/// configured), and what the steps so far produced.
pub struct AddDomainFlow {
    pub request: AddDomainRequest,
    pub has_tunnel_manager: bool,
    pub public_ip: Option<String>,
    pub stage: AddDomainStage,
    pub tunnel_id: Option<String>,
    pub dns_record_id: Option<String>,
    pub record: Option<Domain>,
    pub error: Option<AppError>,
}

/// The outcome of the last action.
pub enum AddDomainEvent {
    /// Whether a domain of that name is stored already.
    Lookup(Result<bool, AppError>),
    /// An action that yields nothing succeeded or failed.
    Step(Result<(), AppError>),
    /// The tunnel id read from the tunnel token, if it holds one.
    TunnelId(Option<String>),
    /// The id of the created DNS record.
    RecordId(Result<String, AppError>),
    /// A fresh id and the current time for the record.
    Identity { id: String, created_at: String },
    /// The containers of the runtime.
    Containers(Result<Vec<ContainerInfo>, AppError>),
    /// A best-effort action is over; its outcome does not matter.
    Ignored,
}

/// What the caller does next.
pub enum AddDomainAction {
    /// Look up whether `domain` is stored.
    FindDomain { domain: String },
    /// Make sure the tunnel of `token` runs.
    EnsureTunnel { token: String },
    /// Read the tunnel id out of `token`.
    ExtractTunnelId { token: String },
    /// Find the team of the stack and open its DNS provider of this kind.
    OpenDnsProvider { stack_id: String, provider: DomainProvider },
    /// Create a DNS record with the opened provider.
    CreateDnsRecord { domain: String, record_type: String, content: String, proxied: bool },
    /// Route `domain` through the tunnel to `service_url`.
    SetupTunnelIngress { tunnel_id: String, domain: String, service_url: String },
    /// Produce a fresh id and the current time.
    Allocate,
    /// Store the record.
    Insert { record: Domain },
    /// Best effort: delete DNS record `record_id` of `domain` with the
    /// provider of the stack's team.
    DeleteDnsRecord { stack_id: String, provider: DomainProvider, domain: String, record_id: String },
    /// List all containers of the runtime.
    ListContainers,
    /// Route `domain` to `upstream` in the proxy.
    AddRoute { domain: String, upstream: String, show_branding: bool },
    /// Best effort: delete the stored record `id`.
    DeleteDomain { id: String },
    /// The addition is over with this result.
    Finish(Result<Domain, AppError>),
}

/// The tunnel id the request gives itself: a non-empty `tunnel_id`.
pub open spec fn given_tunnel_id(req: AddDomainRequest) -> Option<String> {
    match req.tunnel_id {
        Some(id) => if id@.len() > 0 {
            Some(id)
        } else {
            None
        },
        None => None,
    }
}

/// The address a Caddy domain's A record points to: the configured public
/// address, else the loopback address.
pub open spec fn host_address(public_ip: Option<String>) -> Seq<char> {
    match public_ip {
        Some(ip) => ip@,
        None => "127.0.0.1"@,
    }
}

/// The type and content of the DNS record to create: those of the request
/// when it gives both, else an A record to the host for a Caddy domain, or a
/// CNAME to `<tunnel id>.cfargotunnel.com` for a tunnel domain.
pub open spec fn record_target(
    req: AddDomainRequest,
    public_ip: Option<String>,
    tunnel_id: Option<String>,
) -> (Seq<char>, Seq<char>) {
    if req.dns_record_type is Some && req.dns_record_content is Some {
        (req.dns_record_type->0@, req.dns_record_content->0@)
    } else {
        match req.domain_type {
            DomainType::Caddy => ("A"@, host_address(public_ip)),
            DomainType::Tunnel => ("CNAME"@, tunnel_id->0@ + ".cfargotunnel.com"@),
        }
    }
}

/// The URL a tunnel forwards to: `http://<container>:<port>`.
pub open spec fn service_url(container: Seq<char>, port: i32) -> Seq<char> {
    "http://"@ + container + ":"@ + decimal(port as int)
}

/// The proxy upstream of a container: `<name>:<port>`.
pub open spec fn upstream_address(name: Seq<char>, port: i32) -> Seq<char> {
    name + ":"@ + decimal(port as int)
}

/// The label naming the swarm service a container belongs to.
pub open spec fn swarm_service_label() -> Seq<char> {
    "com.docker.swarm.service.name"@
}

/// Some name of `names` contains `part`.
pub open spec fn some_name_contains(names: Seq<String>, part: Seq<char>) -> bool {
    exists|i: int| 0 <= i < names.len() && has_substring((#[trigger] names[i])@, part)
}

/// The container is the one called `name`: a name of it contains `name`, or
/// its id starts with it.
pub open spec fn answers_to(c: ContainerInfo, name: Seq<char>) -> bool {
    some_name_contains(c.names@, name) || has_prefix(c.id@, name)
}

/// The swarm service label of the first container that answers to `name`,
/// if that container has one.
pub open spec fn swarm_service_of(cs: Seq<ContainerInfo>, name: Seq<char>) -> Option<Seq<char>>
    decreases cs.len(),
{
    if cs.len() == 0 {
        None
    } else if answers_to(cs[0], name) {
        lookup(cs[0].labels@, swarm_service_label())
    } else {
        swarm_service_of(cs.drop_first(), name)
    }
}

/// The host name the proxy reaches a container by: its swarm service, when
/// the container runs as one, else the container name itself.
pub open spec fn upstream_host(
    name: Seq<char>,
    containers: Result<Vec<ContainerInfo>, AppError>,
) -> Seq<char> {
    match containers {
        Ok(cs) => match swarm_service_of(cs@, name) {
            Some(service) => service,
            None => name,
        },
        Err(_) => name,
    }
}

/// The record stored for the request, with the tunnel id and DNS record id
/// the earlier steps produced: SSL on, not verified yet, branding shown.
pub open spec fn new_record(f: AddDomainFlow, id: String, created_at: String) -> Domain {
    Domain {
        id,
        stack_id: f.request.stack_id,
        container_name: f.request.container_name,
        container_port: f.request.container_port,
        domain: f.request.domain,
        ssl_enabled: true,
        verified: false,
        provider: f.request.provider,
        domain_type: f.request.domain_type,
        tunnel_id: f.tunnel_id,
        dns_record_id: f.dns_record_id,
        proxied: f.request.proxied,
        show_branding: true,
        created_at,
    }
}

/// The record matches the request and what the earlier steps produced.
pub open spec fn record_matches(f: AddDomainFlow, d: Domain) -> bool {
    d == new_record(f, d.id, d.created_at)
}

/// The tunnel id is resolved as the domain type needs: present for a
/// tunnel domain, absent for a Caddy domain.
pub open spec fn tunnel_resolved(f: AddDomainFlow) -> bool {
    match f.request.domain_type {
        DomainType::Caddy => f.tunnel_id is None,
        DomainType::Tunnel => f.tunnel_id is Some,
    }
}

/// The DNS record exists exactly when the provider is not custom.
pub open spec fn record_provisioned(f: AddDomainFlow) -> bool {
    (f.dns_record_id is Some) <==> (f.request.provider != DomainProvider::Custom)
}

/// Best-effort deletion of the DNS record `rid` created for the request.
pub open spec fn dns_cleanup(f: AddDomainFlow, rid: String) -> AddDomainAction {
    AddDomainAction::DeleteDnsRecord {
        stack_id: f.request.stack_id,
        provider: f.request.provider,
        domain: f.request.domain,
        record_id: rid,
    }
}

/// The message of a request whose domain is taken.
pub open spec fn taken_message(domain: Seq<char>) -> Seq<char> {
    "Domain '"@ + domain + "' already exists"@
}

/// The message of a tunnel request with neither tunnel id nor token.
pub open spec fn tunnel_required_message() -> Seq<char> {
    "Tunnel ID or Token is required for Tunnel type domain"@
}

/// The addition ends with result `r`.
pub open spec fn finishes(t: AddDomainFlow, a: AddDomainAction, r: Result<Domain, AppError>) -> bool {
    t.stage == AddDomainStage::Finished && a == AddDomainAction::Finish(r)
}

/// The addition ends refused for want of a tunnel id.
pub open spec fn tunnel_refused(t: AddDomainFlow, a: AddDomainAction) -> bool {
    &&& t.stage == AddDomainStage::Finished
    &&& a matches AddDomainAction::Finish(Err(AppError::BadRequest(m)))
    &&& m@ == tunnel_required_message()
}

/// With the tunnel id settled in `s`: open the DNS provider, or, for a
/// custom provider, go on to store the record.
pub open spec fn provisioning(s: AddDomainFlow, t: AddDomainFlow, a: AddDomainAction) -> bool {
    if s.request.provider == DomainProvider::Custom {
        t == (AddDomainFlow { stage: AddDomainStage::Allocating, ..s }) && a
            == AddDomainAction::Allocate
    } else {
        t == (AddDomainFlow { stage: AddDomainStage::OpeningProvider, ..s }) && a
            == (AddDomainAction::OpenDnsProvider {
            stack_id: s.request.stack_id,
            provider: s.request.provider,
        })
    }
}

/// Settling the tunnel id: none for a Caddy domain; for a tunnel domain the
/// request's own id, else the one read from its token, else a refusal.
pub open spec fn resolving_tunnel(s: AddDomainFlow, t: AddDomainFlow, a: AddDomainAction) -> bool {
    match s.request.domain_type {
        DomainType::Caddy => provisioning(s, t, a),
        DomainType::Tunnel => match given_tunnel_id(s.request) {
            Some(id) => provisioning(AddDomainFlow { tunnel_id: Some(id), ..s }, t, a),
            None => match s.request.tunnel_token {
                Some(token) => t == (AddDomainFlow {
                    stage: AddDomainStage::ExtractingTunnelId,
                    ..s
                }) && a == (AddDomainAction::ExtractTunnelId { token }),
                None => tunnel_refused(t, a),
            },
        },
    }
}

/// Once the domain is known to be free: bring up the tunnel of the request's
/// token when a tunnel manager is configured, else settle the tunnel id.
pub open spec fn after_free(s: AddDomainFlow, t: AddDomainFlow, a: AddDomainAction) -> bool {
    if s.request.tunnel_token is Some && s.has_tunnel_manager {
        t == (AddDomainFlow { stage: AddDomainStage::EnsuringTunnel, ..s }) && a
            == (AddDomainAction::EnsureTunnel { token: s.request.tunnel_token->0 })
    } else {
        resolving_tunnel(s, t, a)
    }
}

/// Which outcome each stage waits for.
pub open spec fn accepts(stage: AddDomainStage, e: AddDomainEvent) -> bool {
    match stage {
        AddDomainStage::CheckingExisting => e is Lookup,
        AddDomainStage::EnsuringTunnel => e is Step,
        AddDomainStage::ExtractingTunnelId => e is TunnelId,
        AddDomainStage::OpeningProvider => e is Step,
        AddDomainStage::CreatingRecord => e is RecordId,
        AddDomainStage::SettingUpIngress => e is Step,
        AddDomainStage::Allocating => e is Identity,
        AddDomainStage::Saving => e is Step,
        AddDomainStage::RollingBackSave => e is Ignored,
        AddDomainStage::ListingContainers => e is Containers,
        AddDomainStage::AddingRoute => e is Step,
        AddDomainStage::RollingBackRoute => e is Ignored,
        AddDomainStage::DeletingRecord => e is Ignored,
        AddDomainStage::Finished => false,
    }
}

/// One step of an addition: from flow `s` and the outcome `e` of its last
/// action to flow `t` and the next action `a`.
pub open spec fn add_domain_next(
    s: AddDomainFlow,
    e: AddDomainEvent,
    t: AddDomainFlow,
    a: AddDomainAction,
) -> bool {
    let req = s.request;
    match s.stage {
        AddDomainStage::CheckingExisting => match e {
            AddDomainEvent::Lookup(Err(err)) => finishes(t, a, Err(err)),
            AddDomainEvent::Lookup(Ok(found)) => if found {
                &&& t.stage == AddDomainStage::Finished
                &&& a matches AddDomainAction::Finish(Err(AppError::Conflict(m)))
                &&& m@ == taken_message(req.domain@)
            } else {
                after_free(s, t, a)
            },
            _ => false,
        },
        AddDomainStage::EnsuringTunnel => match e {
            AddDomainEvent::Step(Err(err)) => finishes(t, a, Err(err)),
            AddDomainEvent::Step(Ok(())) => resolving_tunnel(s, t, a),
            _ => false,
        },
        AddDomainStage::ExtractingTunnelId => match e {
            AddDomainEvent::TunnelId(Some(id)) => provisioning(
                AddDomainFlow { tunnel_id: Some(id), ..s },
                t,
                a,
            ),
            AddDomainEvent::TunnelId(None) => tunnel_refused(t, a),
            _ => false,
        },
        AddDomainStage::OpeningProvider => match e {
            AddDomainEvent::Step(Err(err)) => finishes(t, a, Err(err)),
            AddDomainEvent::Step(Ok(())) => {
                &&& t == (AddDomainFlow { stage: AddDomainStage::CreatingRecord, ..s })
                &&& a matches AddDomainAction::CreateDnsRecord {
                    domain,
                    record_type,
                    content,
                    proxied,
                }
                &&& domain == req.domain
                &&& (record_type@, content@) == record_target(req, s.public_ip, s.tunnel_id)
                &&& proxied == req.proxied
            },
            _ => false,
        },
        AddDomainStage::CreatingRecord => match e {
            AddDomainEvent::RecordId(Err(err)) => finishes(t, a, Err(err)),
            AddDomainEvent::RecordId(Ok(rid)) => match req.domain_type {
                DomainType::Tunnel => {
                    &&& t == (AddDomainFlow {
                        stage: AddDomainStage::SettingUpIngress,
                        dns_record_id: Some(rid),
                        ..s
                    })
                    &&& a matches AddDomainAction::SetupTunnelIngress {
                        tunnel_id,
                        domain,
                        service_url: url,
                    }
                    &&& tunnel_id == s.tunnel_id->0
                    &&& domain == req.domain
                    &&& url@ == service_url(req.container_name@, req.container_port)
                },
                DomainType::Caddy => t == (AddDomainFlow {
                    stage: AddDomainStage::Allocating,
                    dns_record_id: Some(rid),
                    ..s
                }) && a == AddDomainAction::Allocate,
            },
            _ => false,
        },
        AddDomainStage::SettingUpIngress => match e {
            AddDomainEvent::Step(Err(err)) => finishes(t, a, Err(err)),
            AddDomainEvent::Step(Ok(())) => t == (AddDomainFlow {
                stage: AddDomainStage::Allocating,
                ..s
            }) && a == AddDomainAction::Allocate,
            _ => false,
        },
        AddDomainStage::Allocating => match e {
            AddDomainEvent::Identity { id, created_at } => {
                let d = new_record(s, id, created_at);
                t == (AddDomainFlow { stage: AddDomainStage::Saving, record: Some(d), ..s }) && a
                    == (AddDomainAction::Insert { record: d })
            },
            _ => false,
        },
        AddDomainStage::Saving => match e {
            AddDomainEvent::Step(Err(err)) => match s.dns_record_id {
                Some(rid) => t == (AddDomainFlow {
                    stage: AddDomainStage::RollingBackSave,
                    error: Some(err),
                    ..s
                }) && a == dns_cleanup(s, rid),
                None => finishes(t, a, Err(err)),
            },
            AddDomainEvent::Step(Ok(())) => match req.domain_type {
                DomainType::Caddy => t == (AddDomainFlow {
                    stage: AddDomainStage::ListingContainers,
                    ..s
                }) && a == AddDomainAction::ListContainers,
                DomainType::Tunnel => finishes(t, a, Ok(s.record->0)),
            },
            _ => false,
        },
        AddDomainStage::RollingBackSave => match e {
            AddDomainEvent::Ignored => finishes(t, a, Err(s.error->0)),
            _ => false,
        },
        AddDomainStage::ListingContainers => match e {
            AddDomainEvent::Containers(r) => {
                &&& t == (AddDomainFlow { stage: AddDomainStage::AddingRoute, ..s })
                &&& a matches AddDomainAction::AddRoute { domain, upstream, show_branding }
                &&& domain == req.domain
                &&& upstream@ == upstream_address(
                    upstream_host(req.container_name@, r),
                    req.container_port,
                )
                &&& show_branding
            },
            _ => false,
        },
        AddDomainStage::AddingRoute => match e {
            AddDomainEvent::Step(Err(err)) => match s.dns_record_id {
                Some(rid) => t == (AddDomainFlow {
                    stage: AddDomainStage::RollingBackRoute,
                    error: Some(err),
                    ..s
                }) && a == dns_cleanup(s, rid),
                None => t == (AddDomainFlow {
                    stage: AddDomainStage::DeletingRecord,
                    error: Some(err),
                    ..s
                }) && a == (AddDomainAction::DeleteDomain { id: s.record->0.id }),
            },
            AddDomainEvent::Step(Ok(())) => finishes(t, a, Ok(s.record->0)),
            _ => false,
        },
        AddDomainStage::RollingBackRoute => match e {
            AddDomainEvent::Ignored => t == (AddDomainFlow {
                stage: AddDomainStage::DeletingRecord,
                ..s
            }) && a == (AddDomainAction::DeleteDomain { id: s.record->0.id }),
            _ => false,
        },
        AddDomainStage::DeletingRecord => match e {
            AddDomainEvent::Ignored => finishes(t, a, Err(s.error->0)),
            _ => false,
        },
        AddDomainStage::Finished => false,
    }
}

impl AddDomainFlow {
    /// What holds of an addition at each stage: the tunnel id is settled once
    /// DNS work starts, the DNS record exists exactly for managed providers
    /// once it is created, and the stored record is the one the request and
    /// the earlier steps describe.
    pub open spec fn wf(self) -> bool {
        match self.stage {
            AddDomainStage::CheckingExisting | AddDomainStage::EnsuringTunnel
            | AddDomainStage::ExtractingTunnelId => {
                &&& self.tunnel_id is None
                &&& self.dns_record_id is None
                &&& self.record is None
                &&& (self.stage == AddDomainStage::ExtractingTunnelId ==> self.request.domain_type
                    == DomainType::Tunnel)
            },
            AddDomainStage::OpeningProvider | AddDomainStage::CreatingRecord => {
                &&& self.request.provider != DomainProvider::Custom
                &&& tunnel_resolved(self)
                &&& self.dns_record_id is None
                &&& self.record is None
            },
            AddDomainStage::SettingUpIngress => {
                &&& self.request.domain_type == DomainType::Tunnel
                &&& tunnel_resolved(self)
                &&& record_provisioned(self)
                &&& self.dns_record_id is Some
                &&& self.record is None
            },
            AddDomainStage::Allocating => {
                &&& tunnel_resolved(self)
                &&& record_provisioned(self)
                &&& self.record is None
            },
            AddDomainStage::Saving | AddDomainStage::ListingContainers
            | AddDomainStage::AddingRoute => {
                &&& tunnel_resolved(self)
                &&& record_provisioned(self)
                &&& self.record is Some
                &&& record_matches(self, self.record->0)
                &&& (self.stage != AddDomainStage::Saving ==> self.request.domain_type
                    == DomainType::Caddy)
            },
            AddDomainStage::RollingBackSave => {
                &&& self.dns_record_id is Some
                &&& self.error is Some
            },
            AddDomainStage::RollingBackRoute | AddDomainStage::DeletingRecord => {
                &&& self.record is Some
                &&& record_matches(self, self.record->0)
                &&& self.error is Some
                &&& (self.stage == AddDomainStage::RollingBackRoute ==> self.dns_record_id is Some)
            },
            AddDomainStage::Finished => true,
        }
    }
}

/// Whether some name of `names` contains `part`.
pub fn any_name_contains(names: &Vec<String>, part: &Vec<char>) -> (r: bool)
    ensures
        r == some_name_contains(names@, part@),
{
    let mut i: usize = 0;
    while i < names.len()
        invariant
            i <= names.len(),
            forall|j: int| 0 <= j < i ==> !has_substring((#[trigger] names@[j])@, part@),
        decreases names.len() - i,
    {
        if contains_sub(&chars_of(names[i].as_str()), part) {
            return true;
        }
        i = i + 1;
    }
    false
}

/// The host name the proxy reaches container `container_name` by, given the
/// runtime's container list: the swarm service of the first container whose
/// name contains `container_name` or whose id starts with it, when it runs as
/// one, else `container_name`.
pub fn resolve_upstream(
    container_name: &str,
    containers: &Result<Vec<ContainerInfo>, AppError>,
) -> (r: String)
    ensures
        r@ == upstream_host(container_name@, *containers),
{
    match containers {
        Err(_) => container_name.to_owned(),
        Ok(cs) => {
            let name = chars_of(container_name);
            let mut i: usize = 0;
            proof {
                assert(cs@.subrange(0, cs@.len() as int) =~= cs@);
            }
            while i < cs.len()
                invariant
                    i <= cs.len(),
                    name@ == container_name@,
                    upstream_host(container_name@, *containers) == match swarm_service_of(
                        cs@,
                        name@,
                    ) {
                        Some(service) => service,
                        None => name@,
                    },
                    swarm_service_of(cs@, name@) == swarm_service_of(
                        cs@.subrange(i as int, cs@.len() as int),
                        name@,
                    ),
                decreases cs.len() - i,
            {
                let ghost rest = cs@.subrange(i as int, cs@.len() as int);
                proof {
                    assert(rest[0] == cs@[i as int]);
                    assert(rest.drop_first() =~= cs@.subrange(i + 1, cs@.len() as int));
                }
                let c = &cs[i];
                if any_name_contains(&c.names, &name) || starts_with(&chars_of(c.id.as_str()), &name) {
                    return match find_value(&c.labels, "com.docker.swarm.service.name") {
                        Some(service) => service,
                        None => container_name.to_owned(),
                    };
                }
                i = i + 1;
            }
            container_name.to_owned()
        },
    }
}

/// `http://<container>:<port>`.
fn service_url_of(container: &str, port: i32) -> (r: String)
    ensures
        r@ == service_url(container@, port),
{
    let mut v = chars_of("http://");
    push_str(&mut v, container);
    push_str(&mut v, ":");
    let p = decimal_string(port as i64);
    push_str(&mut v, p.as_str());
    string_of(&v)
}

/// `<name>:<port>`.
fn upstream_address_of(name: &str, port: i32) -> (r: String)
    ensures
        r@ == upstream_address(name@, port),
{
    let p = decimal_string(port as i64);
    concat3(name, ":", p.as_str())
}

impl DomainUsecase {
    /// The verification of `domain` from a lookup of its A records and CNAME
    /// targets, against the configured public address `expected_ip` (any
    /// record verifies it when none is configured). The caller stores the
    /// verdict.
    pub fn verify_domain(
        &self,
        domain: &str,
        a_records: Vec<String>,
        cname_targets: &Vec<String>,
        expected_ip: Option<&str>,
    ) -> (r: DnsVerificationResult)
        ensures
            r.domain@ == domain@,
            r.a_records@ == a_records@,
            r.cname_records@.len() == cname_targets@.len(),
            forall|i: int|
                0 <= i < r.cname_records@.len() ==> (#[trigger] r.cname_records@[i])@
                    == without_trailing_dots(cname_targets@[i]@),
            r.verified == dns_verified(a_records@, r.cname_records@, match expected_ip {
                Some(e) => Some(e@),
                None => None,
            }),
    {
        verify_lookup(domain, a_records, cname_targets, expected_ip)
    }

    pub fn new(has_tunnel_manager: bool) -> (u: DomainUsecase)
        ensures
            u.has_tunnel_manager == has_tunnel_manager,
    {
        DomainUsecase { has_tunnel_manager }
    }

    /// Starts adding the domain of `request`; `public_ip` is the configured
    /// public address of the host, if any. The first action looks the domain
    /// up.
    pub fn add_domain(&self, request: AddDomainRequest, public_ip: Option<String>) -> (r: (
        AddDomainFlow,
        AddDomainAction,
    ))
        ensures
            r.0 == (AddDomainFlow {
                request,
                has_tunnel_manager: self.has_tunnel_manager,
                public_ip,
                stage: AddDomainStage::CheckingExisting,
                tunnel_id: None,
                dns_record_id: None,
                record: None,
                error: None,
            }),
            r.1 == (AddDomainAction::FindDomain { domain: request.domain }),
            r.0.wf(),
    {
        let domain = request.domain.clone();
        (
            AddDomainFlow {
                request,
                has_tunnel_manager: self.has_tunnel_manager,
                public_ip,
                stage: AddDomainStage::CheckingExisting,
                tunnel_id: None,
                dns_record_id: None,
                record: None,
                error: None,
            },
            AddDomainAction::FindDomain { domain },
        )
    }
}

impl AddDomainFlow {
    /// Whether the flow waits for an outcome like `e`.
    pub fn accepts_event(&self, e: &AddDomainEvent) -> (r: bool)
        ensures
            r == accepts(self.stage, *e),
    {
        match self.stage {
            AddDomainStage::CheckingExisting => matches!(e, AddDomainEvent::Lookup(_)),
            AddDomainStage::EnsuringTunnel => matches!(e, AddDomainEvent::Step(_)),
            AddDomainStage::ExtractingTunnelId => matches!(e, AddDomainEvent::TunnelId(_)),
            AddDomainStage::OpeningProvider => matches!(e, AddDomainEvent::Step(_)),
            AddDomainStage::CreatingRecord => matches!(e, AddDomainEvent::RecordId(_)),
            AddDomainStage::SettingUpIngress => matches!(e, AddDomainEvent::Step(_)),
            AddDomainStage::Allocating => matches!(e, AddDomainEvent::Identity { .. }),
            AddDomainStage::Saving => matches!(e, AddDomainEvent::Step(_)),
            AddDomainStage::RollingBackSave => matches!(e, AddDomainEvent::Ignored),
            AddDomainStage::ListingContainers => matches!(e, AddDomainEvent::Containers(_)),
            AddDomainStage::AddingRoute => matches!(e, AddDomainEvent::Step(_)),
            AddDomainStage::RollingBackRoute => matches!(e, AddDomainEvent::Ignored),
            AddDomainStage::DeletingRecord => matches!(e, AddDomainEvent::Ignored),
            AddDomainStage::Finished => false,
        }
    }

    fn provision(self) -> (r: (AddDomainFlow, AddDomainAction))
        ensures
            provisioning(self, r.0, r.1),
    {
        if self.request.provider == DomainProvider::Custom {
            (AddDomainFlow { stage: AddDomainStage::Allocating, ..self }, AddDomainAction::Allocate)
        } else {
            let stack_id = self.request.stack_id.clone();
            let provider = self.request.provider;
            (
                AddDomainFlow { stage: AddDomainStage::OpeningProvider, ..self },
                AddDomainAction::OpenDnsProvider { stack_id, provider },
            )
        }
    }

    fn resolve_tunnel(self) -> (r: (AddDomainFlow, AddDomainAction))
        ensures
            resolving_tunnel(self, r.0, r.1),
    {
        match self.request.domain_type {
            DomainType::Caddy => self.provision(),
            DomainType::Tunnel => {
                let given = match &self.request.tunnel_id {
                    Some(id) => if id.as_str().is_empty() {
                        None
                    } else {
                        Some(id.clone())
                    },
                    None => None,
                };
                match given {
                    Some(id) => AddDomainFlow { tunnel_id: Some(id), ..self }.provision(),
                    None => match &self.request.tunnel_token {
                        Some(token) => {
                            let token = token.clone();
                            (
                                AddDomainFlow { stage: AddDomainStage::ExtractingTunnelId, ..self },
                                AddDomainAction::ExtractTunnelId { token },
                            )
                        },
                        None => (
                            AddDomainFlow { stage: AddDomainStage::Finished, ..self },
                            AddDomainAction::Finish(
                                Err(
                                    AppError::BadRequest(
                                        "Tunnel ID or Token is required for Tunnel type domain".to_owned(),
                                    ),
                                ),
                            ),
                        ),
                    },
                }
            },
        }
    }

    fn after_lookup_free(self) -> (r: (AddDomainFlow, AddDomainAction))
        ensures
            after_free(self, r.0, r.1),
    {
        match &self.request.tunnel_token {
            Some(token) => if self.has_tunnel_manager {
                let token = token.clone();
                return (
                    AddDomainFlow { stage: AddDomainStage::EnsuringTunnel, ..self },
                    AddDomainAction::EnsureTunnel { token },
                );
            },
            None => {},
        }
        self.resolve_tunnel()
    }

    /// The DNS record to create: type and content.
    fn dns_record_plan(&self) -> (r: (String, String))
        requires
            self.request.domain_type == DomainType::Tunnel ==> self.tunnel_id is Some,
        ensures
            (r.0@, r.1@) == record_target(self.request, self.public_ip, self.tunnel_id),
    {
        match (&self.request.dns_record_type, &self.request.dns_record_content) {
            (Some(t), Some(c)) => (t.clone(), c.clone()),
            _ => match self.request.domain_type {
                DomainType::Caddy => (
                    "A".to_owned(),
                    match &self.public_ip {
                        Some(ip) => ip.clone(),
                        None => "127.0.0.1".to_owned(),
                    },
                ),
                DomainType::Tunnel => match &self.tunnel_id {
                    Some(id) => ("CNAME".to_owned(), concat2(id.as_str(), ".cfargotunnel.com")),
                    None => ("CNAME".to_owned(), "".to_owned()),
                },
            },
        }
    }
    /// Takes the outcome `e` of the last action and gives the next flow and
    /// action.
    pub fn step(self, e: AddDomainEvent) -> (r: (AddDomainFlow, AddDomainAction))
        requires
            self.wf(),
            accepts(self.stage, e),
        ensures
            add_domain_next(self, e, r.0, r.1),
    {
        match self.stage {
            AddDomainStage::CheckingExisting => match e {
                AddDomainEvent::Lookup(Err(err)) => (
                    AddDomainFlow { stage: AddDomainStage::Finished, ..self },
                    AddDomainAction::Finish(Err(err)),
                ),
                AddDomainEvent::Lookup(Ok(found)) => {
                    if found {
                        let m = concat3("Domain '", self.request.domain.as_str(), "' already exists");
                        (
                            AddDomainFlow { stage: AddDomainStage::Finished, ..self },
                            AddDomainAction::Finish(Err(AppError::Conflict(m))),
                        )
                    } else {
                        self.after_lookup_free()
                    }
                },
                _ => {
                    proof {
                        assert(false);
                    }
                    (self, AddDomainAction::Allocate)
                },
            },
            AddDomainStage::EnsuringTunnel | AddDomainStage::OpeningProvider
            | AddDomainStage::SettingUpIngress => match e {
                AddDomainEvent::Step(Err(err)) => (
                    AddDomainFlow { stage: AddDomainStage::Finished, ..self },
                    AddDomainAction::Finish(Err(err)),
                ),
                AddDomainEvent::Step(Ok(())) => {
                    if self.stage == AddDomainStage::EnsuringTunnel {
                        self.resolve_tunnel()
                    } else if self.stage == AddDomainStage::OpeningProvider {
                        let (record_type, content) = self.dns_record_plan();
                        let domain = self.request.domain.clone();
                        let proxied = self.request.proxied;
                        (
                            AddDomainFlow { stage: AddDomainStage::CreatingRecord, ..self },
                            AddDomainAction::CreateDnsRecord { domain, record_type, content, proxied },
                        )
                    } else {
                        (
                            AddDomainFlow { stage: AddDomainStage::Allocating, ..self },
                            AddDomainAction::Allocate,
                        )
                    }
                },
                _ => {
                    proof {
                        assert(false);
                    }
                    (self, AddDomainAction::Allocate)
                },
            },
            AddDomainStage::ExtractingTunnelId => match e {
                AddDomainEvent::TunnelId(Some(id)) => AddDomainFlow {
                    tunnel_id: Some(id),
                    ..self
                }.provision(),
                AddDomainEvent::TunnelId(None) => (
                    AddDomainFlow { stage: AddDomainStage::Finished, ..self },
                    AddDomainAction::Finish(
                        Err(
                            AppError::BadRequest(
                                "Tunnel ID or Token is required for Tunnel type domain".to_owned(),
                            ),
                        ),
                    ),
                ),
                _ => {
                    proof {
                        assert(false);
                    }
                    (self, AddDomainAction::Allocate)
                },
            },
            AddDomainStage::CreatingRecord => match e {
                AddDomainEvent::RecordId(Err(err)) => (
                    AddDomainFlow { stage: AddDomainStage::Finished, ..self },
                    AddDomainAction::Finish(Err(err)),
                ),
                AddDomainEvent::RecordId(Ok(rid)) => match self.request.domain_type {
                    DomainType::Tunnel => {
                        let tunnel_id = match &self.tunnel_id {
                            Some(t) => t.clone(),
                            None => {
                                proof {
                                    assert(false);
                                }
                                "".to_owned()
                            },
                        };
                        let domain = self.request.domain.clone();
                        let url = service_url_of(
                            self.request.container_name.as_str(),
                            self.request.container_port,
                        );
                        (
                            AddDomainFlow {
                                stage: AddDomainStage::SettingUpIngress,
                                dns_record_id: Some(rid),
                                ..self
                            },
                            AddDomainAction::SetupTunnelIngress { tunnel_id, domain, service_url: url },
                        )
                    },
                    DomainType::Caddy => (
                        AddDomainFlow {
                            stage: AddDomainStage::Allocating,
                            dns_record_id: Some(rid),
                            ..self
                        },
                        AddDomainAction::Allocate,
                    ),
                },
                _ => {
                    proof {
                        assert(false);
                    }
                    (self, AddDomainAction::Allocate)
                },
            },
            AddDomainStage::Allocating => match e {
                AddDomainEvent::Identity { id, created_at } => {
                    let d = Domain {
                        id,
                        stack_id: self.request.stack_id.clone(),
                        container_name: self.request.container_name.clone(),
                        container_port: self.request.container_port,
                        domain: self.request.domain.clone(),
                        ssl_enabled: true,
                        verified: false,
                        provider: self.request.provider,
                        domain_type: self.request.domain_type,
                        tunnel_id: copy_opt(&self.tunnel_id),
                        dns_record_id: copy_opt(&self.dns_record_id),
                        proxied: self.request.proxied,
                        show_branding: true,
                        created_at,
                    };
                    let inserted = d.duplicate();
                    (
                        AddDomainFlow { stage: AddDomainStage::Saving, record: Some(d), ..self },
                        AddDomainAction::Insert { record: inserted },
                    )
                },
                _ => {
                    proof {
                        assert(false);
                    }
                    (self, AddDomainAction::Allocate)
                },
            },
            AddDomainStage::Saving => match e {
                AddDomainEvent::Step(Err(err)) => match &self.dns_record_id {
                    Some(rid) => {
                        let action = AddDomainAction::DeleteDnsRecord {
                            stack_id: self.request.stack_id.clone(),
                            provider: self.request.provider,
                            domain: self.request.domain.clone(),
                            record_id: rid.clone(),
                        };
                        (
                            AddDomainFlow {
                                stage: AddDomainStage::RollingBackSave,
                                error: Some(err),
                                ..self
                            },
                            action,
                        )
                    },
                    None => (
                        AddDomainFlow { stage: AddDomainStage::Finished, ..self },
                        AddDomainAction::Finish(Err(err)),
                    ),
                },
                AddDomainEvent::Step(Ok(())) => match self.request.domain_type {
                    DomainType::Caddy => (
                        AddDomainFlow { stage: AddDomainStage::ListingContainers, ..self },
                        AddDomainAction::ListContainers,
                    ),
                    DomainType::Tunnel => self.finish_saved(),
                },
                _ => {
                    proof {
                        assert(false);
                    }
                    (self, AddDomainAction::Allocate)
                },
            },
            AddDomainStage::RollingBackSave | AddDomainStage::DeletingRecord => {
                let mut flow = self;
                let err = match flow.error.take() {
                    Some(err) => err,
                    None => {
                        proof {
                            assert(false);
                        }
                        AppError::Hash
                    },
                };
                (
                    AddDomainFlow { stage: AddDomainStage::Finished, ..flow },
                    AddDomainAction::Finish(Err(err)),
                )
            },
            AddDomainStage::ListingContainers => match e {
                AddDomainEvent::Containers(r) => {
                    let host = resolve_upstream(self.request.container_name.as_str(), &r);
                    let upstream = upstream_address_of(host.as_str(), self.request.container_port);
                    let domain = self.request.domain.clone();
                    (
                        AddDomainFlow { stage: AddDomainStage::AddingRoute, ..self },
                        AddDomainAction::AddRoute { domain, upstream, show_branding: true },
                    )
                },
                _ => {
                    proof {
                        assert(false);
                    }
                    (self, AddDomainAction::Allocate)
                },
            },
            AddDomainStage::AddingRoute => match e {
                AddDomainEvent::Step(Err(err)) => {
                    let id = match &self.record {
                        Some(d) => d.id.clone(),
                        None => {
                            proof {
                                assert(false);
                            }
                            "".to_owned()
                        },
                    };
                    match &self.dns_record_id {
                        Some(rid) => {
                            let action = AddDomainAction::DeleteDnsRecord {
                                stack_id: self.request.stack_id.clone(),
                                provider: self.request.provider,
                                domain: self.request.domain.clone(),
                                record_id: rid.clone(),
                            };
                            (
                                AddDomainFlow {
                                    stage: AddDomainStage::RollingBackRoute,
                                    error: Some(err),
                                    ..self
                                },
                                action,
                            )
                        },
                        None => (
                            AddDomainFlow {
                                stage: AddDomainStage::DeletingRecord,
                                error: Some(err),
                                ..self
                            },
                            AddDomainAction::DeleteDomain { id },
                        ),
                    }
                },
                AddDomainEvent::Step(Ok(())) => self.finish_saved(),
                _ => {
                    proof {
                        assert(false);
                    }
                    (self, AddDomainAction::Allocate)
                },
            },
            AddDomainStage::RollingBackRoute => {
                let id = match &self.record {
                    Some(d) => d.id.clone(),
                    None => {
                        proof {
                            assert(false);
                        }
                        "".to_owned()
                    },
                };
                (
                    AddDomainFlow { stage: AddDomainStage::DeletingRecord, ..self },
                    AddDomainAction::DeleteDomain { id },
                )
            },
            AddDomainStage::Finished => {
                proof {
                    assert(false);
                }
                (self, AddDomainAction::Allocate)
            },
        }
    }

    /// Ends the addition with the stored record.
    fn finish_saved(self) -> (r: (AddDomainFlow, AddDomainAction))
        requires
            self.record is Some,
        ensures
            finishes(r.0, r.1, Ok(self.record->0)),
    {
        let mut flow = self;
        match flow.record.take() {
            Some(d) => (
                AddDomainFlow { stage: AddDomainStage::Finished, ..flow },
                AddDomainAction::Finish(Ok(d)),
            ),
            None => {
                proof {
                    assert(false);
                }
                (flow, AddDomainAction::Allocate)
            },
        }
    }
}


proof fn lemma_resolving_tunnel_keeps_wf(s: AddDomainFlow, t: AddDomainFlow, a: AddDomainAction)
    requires
        s.tunnel_id is None,
        s.dns_record_id is None,
        s.record is None,
        resolving_tunnel(s, t, a),
    ensures
        t.wf(),
{
    if s.request.domain_type == DomainType::Tunnel {
        if let Some(id) = given_tunnel_id(s.request) {
            let s2 = AddDomainFlow { tunnel_id: Some(id), ..s };
            assert(provisioning(s2, t, a));
        }
    }
}

/// Every step of an addition keeps what holds of it at each stage.
pub proof fn law_add_domain_step_keeps_wf(
    s: AddDomainFlow,
    e: AddDomainEvent,
    t: AddDomainFlow,
    a: AddDomainAction,
)
    requires
        s.wf(),
        accepts(s.stage, e),
        add_domain_next(s, e, t, a),
    ensures
        t.wf(),
{
    let req = s.request;
    match s.stage {
        AddDomainStage::CheckingExisting => {
            if e == AddDomainEvent::Lookup(Ok(false)) && !(req.tunnel_token is Some
                && s.has_tunnel_manager) {
                lemma_resolving_tunnel_keeps_wf(s, t, a);
            }
        },
        AddDomainStage::EnsuringTunnel => {
            if e == AddDomainEvent::Step(Ok(())) {
                lemma_resolving_tunnel_keeps_wf(s, t, a);
            }
        },
        AddDomainStage::Allocating => {
            if let AddDomainEvent::Identity { id, created_at } = e {
                let d = new_record(s, id, created_at);
                assert(record_matches(t, d));
            }
        },
        _ => {},
    }
}

/// A domain that is stored already is refused with a conflict naming it, and
/// nothing else is done.
pub proof fn law_taken_domain_is_refused(s: AddDomainFlow, t: AddDomainFlow, a: AddDomainAction)
    requires
        s.stage == AddDomainStage::CheckingExisting,
        add_domain_next(s, AddDomainEvent::Lookup(Ok(true)), t, a),
    ensures
        t.stage == AddDomainStage::Finished,
        a matches AddDomainAction::Finish(Err(AppError::Conflict(m))) && m@ == taken_message(
            s.request.domain@,
        ),
{
}

/// When the record cannot be stored, the DNS record created for it is
/// deleted, and the addition then fails with the store's error.
pub proof fn law_failed_save_deletes_dns_record(
    s: AddDomainFlow,
    err: AppError,
    t: AddDomainFlow,
    a: AddDomainAction,
    t2: AddDomainFlow,
    a2: AddDomainAction,
)
    requires
        s.wf(),
        s.stage == AddDomainStage::Saving,
        add_domain_next(s, AddDomainEvent::Step(Err(err)), t, a),
    ensures
        s.dns_record_id is None ==> finishes(t, a, Err(err)),
        s.dns_record_id is Some ==> a == dns_cleanup(s, s.dns_record_id->0) && (add_domain_next(
            t,
            AddDomainEvent::Ignored,
            t2,
            a2,
        ) ==> finishes(t2, a2, Err(err))),
{
}

/// When the proxy route cannot be added, the DNS record (if any) and the
/// stored record are deleted, in that order, and the addition then fails
/// with the proxy's error.
pub proof fn law_failed_route_undoes_the_addition(
    s: AddDomainFlow,
    err: AppError,
    t: AddDomainFlow,
    a: AddDomainAction,
    t2: AddDomainFlow,
    a2: AddDomainAction,
    t3: AddDomainFlow,
    a3: AddDomainAction,
)
    requires
        s.wf(),
        s.stage == AddDomainStage::AddingRoute,
        add_domain_next(s, AddDomainEvent::Step(Err(err)), t, a),
        add_domain_next(t, AddDomainEvent::Ignored, t2, a2),
    ensures
        s.dns_record_id is Some ==> {
            &&& a == dns_cleanup(s, s.dns_record_id->0)
            &&& a2 == (AddDomainAction::DeleteDomain { id: s.record->0.id })
            &&& (add_domain_next(t2, AddDomainEvent::Ignored, t3, a3) ==> finishes(
                t3,
                a3,
                Err(err),
            ))
        },
        s.dns_record_id is None ==> {
            &&& a == (AddDomainAction::DeleteDomain { id: s.record->0.id })
            &&& finishes(t2, a2, Err(err))
        },
{
}

/// An addition succeeds only with the record it stored: the request's domain,
/// container and provider, SSL on, unverified, branding shown, its tunnel id
/// settled and its DNS record created exactly for a managed provider; a Caddy
/// domain succeeds only once its proxy route is added.
pub proof fn law_success_returns_the_stored_record(
    s: AddDomainFlow,
    e: AddDomainEvent,
    t: AddDomainFlow,
    a: AddDomainAction,
    d: Domain,
)
    requires
        s.wf(),
        accepts(s.stage, e),
        add_domain_next(s, e, t, a),
        a == AddDomainAction::Finish(Ok(d)),
    ensures
        s.record == Some(d),
        record_matches(s, d),
        d.domain == s.request.domain,
        d.ssl_enabled && !d.verified && d.show_branding,
        tunnel_resolved(s),
        record_provisioned(s),
        d.domain_type == DomainType::Caddy ==> s.stage == AddDomainStage::AddingRoute,
{
}

/// A domain whose records the user manages never reaches the DNS provider.
pub proof fn law_custom_domains_leave_dns_alone(
    s: AddDomainFlow,
    e: AddDomainEvent,
    t: AddDomainFlow,
    a: AddDomainAction,
)
    requires
        s.wf(),
        accepts(s.stage, e),
        add_domain_next(s, e, t, a),
        s.request.provider == DomainProvider::Custom,
    ensures
        !(a is OpenDnsProvider),
        !(a is CreateDnsRecord),
        !(a is SetupTunnelIngress),
        !(a is DeleteDnsRecord),
{
}

} // verus!
