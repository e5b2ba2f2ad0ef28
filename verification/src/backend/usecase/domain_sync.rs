//! Bringing the proxy, DNS and tunnels in line with the stored domains: for
//! every domain, its proxy route (Caddy domains), its missing DNS record
//! (managed providers) and its tunnel ingress (tunnel domains). Failures of a
//! single domain are skipped; only the listing of the domains can fail.
use vstd::prelude::*;
use crate::backend::models::domain::{Domain, DomainProvider, DomainType};
use crate::backend::services::container::ContainerInfo;
use crate::backend::usecase::domain::{
    host_address, resolve_upstream, service_url, upstream_address, upstream_host, DomainUsecase,
};
use crate::error::AppError;
use crate::text::{chars_of, concat2, concat3, decimal_string, push_str, string_of};

verus! {

/// Where a synchronisation stands.
#[derive(Debug, Clone, Copy, PartialEq, Eq, Structural)]
pub enum SyncStage {
    ListingDomains,
    ListingContainers,
    AddingRoute,
    OpeningDns,
    CreatingRecord,
    SavingRecordId,
    OpeningIngress,
    SettingIngress,
    Finished,
}

/// A synchronisation in progress over `domains`, at domain `index`. With
/// `routes_only` only the proxy routes are synchronised.
pub struct SyncFlow {
    pub routes_only: bool,
    pub public_ip: Option<String>,
    pub domains: Vec<Domain>,
    pub index: usize,
    pub stage: SyncStage,
}

/// The outcome of the last action.
pub enum SyncEvent {
    /// The stored domains.
    Domains(Result<Vec<Domain>, AppError>),
    /// The containers of the runtime.
    Containers(Result<Vec<ContainerInfo>, AppError>),
    /// Whether the DNS provider of the domain's stack could be opened.
    Opened(Result<(), AppError>),
    /// The id of the created DNS record.
    RecordId(Result<String, AppError>),
    /// A best-effort action is over.
    Ignored,
}

/// What the caller does next.
pub enum SyncAction {
    ListDomains,
    ListContainers,
    /// Best effort: route `domain` to `upstream` in the proxy.
    AddRoute { domain: String, upstream: String, show_branding: bool },
    /// Find the team of the stack and open its DNS provider of this kind.
    OpenDnsProvider { stack_id: String, provider: DomainProvider },
    /// Create a DNS record with the opened provider.
    CreateDnsRecord { domain: String, record_type: String, content: String, proxied: bool },
    /// Best effort: store `record_id` as the DNS record of domain `id`.
    SaveDnsRecordId { id: String, record_id: String },
    /// Best effort: route `domain` through tunnel `tunnel_id` to `service_url`.
    SetupTunnelIngress { tunnel_id: String, domain: String, service_url: String },
    Finish(Result<(), AppError>),
}

/// The domain needs some work: a route for a Caddy domain; unless only
/// routes are synchronised, DNS for a managed provider or an ingress for a
/// tunnel domain with a tunnel id.
pub open spec fn needs_work(d: Domain, routes_only: bool) -> bool {
    ||| d.domain_type == DomainType::Caddy
    ||| !routes_only && d.provider != DomainProvider::Custom
    ||| !routes_only && d.domain_type == DomainType::Tunnel && d.tunnel_id is Some
}

/// The first domain from `i` on that needs work, or the length when none does.
pub open spec fn first_active(ds: Seq<Domain>, i: int, routes_only: bool) -> int
    decreases ds.len() - i,
{
    if i >= ds.len() {
        ds.len() as int
    } else if needs_work(ds[i], routes_only) {
        i
    } else {
        first_active(ds, i + 1, routes_only)
    }
}

/// Opening the DNS provider of domain `d`.
pub open spec fn open_provider(d: Domain) -> SyncAction {
    SyncAction::OpenDnsProvider { stack_id: d.stack_id, provider: d.provider }
}

/// Going on with the first domain from `i` on that needs work: its route
/// first for a Caddy domain, else its DNS for a managed provider, else its
/// ingress; or finishing when no domain is left.
pub open spec fn starting_at(f: SyncFlow, i: int, t: SyncFlow, a: SyncAction) -> bool {
    let j = first_active(f.domains@, i, f.routes_only);
    if j >= f.domains@.len() {
        t.stage == SyncStage::Finished && a == SyncAction::Finish(Ok(()))
    } else {
        let d = f.domains@[j];
        if d.domain_type == DomainType::Caddy {
            t.index == j && t == (SyncFlow {
                index: t.index,
                stage: SyncStage::ListingContainers,
                ..f
            }) && a == SyncAction::ListContainers
        } else if d.provider != DomainProvider::Custom {
            t.index == j && t == (SyncFlow {
                index: t.index,
                stage: SyncStage::OpeningDns,
                ..f
            }) && a == open_provider(d)
        } else {
            t.index == j && t == (SyncFlow {
                index: t.index,
                stage: SyncStage::OpeningIngress,
                ..f
            }) && a == open_provider(d)
        }
    }
}

/// The ingress part of the current domain: open its provider for a tunnel
/// domain with a tunnel id, else go on with the next domain.
pub open spec fn ingress_phase(f: SyncFlow, t: SyncFlow, a: SyncAction) -> bool {
    let d = f.domains@[f.index as int];
    if d.domain_type == DomainType::Tunnel && d.tunnel_id is Some {
        t == (SyncFlow { stage: SyncStage::OpeningIngress, ..f }) && a == open_provider(d)
    } else {
        starting_at(f, f.index + 1, t, a)
    }
}

/// The DNS part of the current domain, after its route: open its provider
/// for a managed provider, else its ingress part; only routes: the next domain.
pub open spec fn dns_phase(f: SyncFlow, t: SyncFlow, a: SyncAction) -> bool {
    let d = f.domains@[f.index as int];
    if f.routes_only {
        starting_at(f, f.index + 1, t, a)
    } else if d.provider != DomainProvider::Custom {
        t == (SyncFlow { stage: SyncStage::OpeningDns, ..f }) && a == open_provider(d)
    } else {
        ingress_phase(f, t, a)
    }
}

/// The record a domain without a DNS record gets: an A record to the host
/// for a Caddy domain, a CNAME to its tunnel for a tunnel domain.
pub open spec fn missing_record(d: Domain, public_ip: Option<String>) -> (Seq<char>, Seq<char>) {
    match d.domain_type {
        DomainType::Caddy => ("A"@, host_address(public_ip)),
        DomainType::Tunnel => ("CNAME"@, d.tunnel_id->0@ + ".cfargotunnel.com"@),
    }
}

/// Which outcome each stage waits for.
pub open spec fn sync_accepts(stage: SyncStage, e: SyncEvent) -> bool {
    match stage {
        SyncStage::ListingDomains => e is Domains,
        SyncStage::ListingContainers => e is Containers,
        SyncStage::AddingRoute => e is Ignored,
        SyncStage::OpeningDns => e is Opened,
        SyncStage::CreatingRecord => e is RecordId,
        SyncStage::SavingRecordId => e is Ignored,
        SyncStage::OpeningIngress => e is Opened,
        SyncStage::SettingIngress => e is Ignored,
        SyncStage::Finished => false,
    }
}

/// One step of a synchronisation.
pub open spec fn sync_next(s: SyncFlow, e: SyncEvent, t: SyncFlow, a: SyncAction) -> bool {
    let d = s.domains@[s.index as int];
    match s.stage {
        SyncStage::ListingDomains => match e {
            SyncEvent::Domains(Err(err)) => t.stage == SyncStage::Finished && a == SyncAction::Finish(
                Err(err),
            ),
            SyncEvent::Domains(Ok(ds)) => starting_at(SyncFlow { domains: ds, ..s }, 0, t, a),
            _ => false,
        },
        SyncStage::ListingContainers => match e {
            SyncEvent::Containers(r) => {
                &&& t == (SyncFlow { stage: SyncStage::AddingRoute, ..s })
                &&& a matches SyncAction::AddRoute { domain, upstream, show_branding }
                &&& domain == d.domain
                &&& upstream@ == upstream_address(
                    upstream_host(d.container_name@, r),
                    d.container_port,
                )
                &&& show_branding == d.show_branding
            },
            _ => false,
        },
        SyncStage::AddingRoute => dns_phase(s, t, a),
        SyncStage::OpeningDns => match e {
            SyncEvent::Opened(Err(_)) => ingress_phase(s, t, a),
            SyncEvent::Opened(Ok(())) => if d.dns_record_id is Some {
                ingress_phase(s, t, a)
            } else if d.domain_type == DomainType::Tunnel && d.tunnel_id is None {
                starting_at(s, s.index + 1, t, a)
            } else {
                &&& t == (SyncFlow { stage: SyncStage::CreatingRecord, ..s })
                &&& a matches SyncAction::CreateDnsRecord { domain, record_type, content, proxied }
                &&& domain == d.domain
                &&& (record_type@, content@) == missing_record(d, s.public_ip)
                &&& proxied == d.proxied
            },
            _ => false,
        },
        SyncStage::CreatingRecord => match e {
            SyncEvent::RecordId(Err(_)) => ingress_phase(s, t, a),
            SyncEvent::RecordId(Ok(rid)) => t == (SyncFlow {
                stage: SyncStage::SavingRecordId,
                ..s
            }) && a == (SyncAction::SaveDnsRecordId { id: d.id, record_id: rid }),
            _ => false,
        },
        SyncStage::SavingRecordId => ingress_phase(s, t, a),
        SyncStage::OpeningIngress => match e {
            SyncEvent::Opened(Err(_)) => starting_at(s, s.index + 1, t, a),
            SyncEvent::Opened(Ok(())) => {
                &&& t == (SyncFlow { stage: SyncStage::SettingIngress, ..s })
                &&& a matches SyncAction::SetupTunnelIngress { tunnel_id, domain, service_url: url }
                &&& tunnel_id == d.tunnel_id->0
                &&& domain == d.domain
                &&& url@ == service_url(d.container_name@, d.container_port)
            },
            _ => false,
        },
        SyncStage::SettingIngress => starting_at(s, s.index + 1, t, a),
        SyncStage::Finished => false,
    }
}

impl SyncFlow {
    /// What holds at each stage: the current domain exists and is of the
    /// kind the stage handles.
    pub open spec fn wf(self) -> bool {
        let d = self.domains@[self.index as int];
        match self.stage {
            SyncStage::ListingDomains | SyncStage::Finished => true,
            SyncStage::ListingContainers | SyncStage::AddingRoute => {
                &&& self.index < self.domains@.len()
                &&& d.domain_type == DomainType::Caddy
            },
            SyncStage::OpeningDns | SyncStage::CreatingRecord | SyncStage::SavingRecordId => {
                &&& self.index < self.domains@.len()
                &&& !self.routes_only
                &&& d.provider != DomainProvider::Custom
                &&& (self.stage != SyncStage::OpeningDns ==> d.dns_record_id is None)
                &&& (self.stage == SyncStage::CreatingRecord ==> (d.domain_type
                    == DomainType::Tunnel ==> d.tunnel_id is Some))
            },
            SyncStage::OpeningIngress | SyncStage::SettingIngress => {
                &&& self.index < self.domains@.len()
                &&& !self.routes_only
                &&& d.domain_type == DomainType::Tunnel
                &&& d.tunnel_id is Some
            },
        }
    }
}

impl SyncFlow {
    /// The first domain from `i` on that needs work.
    fn first_active_from(&self, i: usize) -> (j: usize)
        requires
            i <= self.domains@.len(),
        ensures
            j == first_active(self.domains@, i as int, self.routes_only),
    {
        let mut j = i;
        while j < self.domains.len()
            invariant
                i <= j <= self.domains@.len(),
                first_active(self.domains@, i as int, self.routes_only) == first_active(
                    self.domains@,
                    j as int,
                    self.routes_only,
                ),
            decreases self.domains@.len() - j,
        {
            let d = &self.domains[j];
            let work = match d.domain_type {
                DomainType::Caddy => true,
                DomainType::Tunnel => !self.routes_only && (d.provider != DomainProvider::Custom
                    || d.tunnel_id.is_some()),
            };
            if work {
                return j;
            }
            j = j + 1;
        }
        j
    }

    fn open_current(&self) -> (a: SyncAction)
        requires
            self.index < self.domains@.len(),
        ensures
            a == open_provider(self.domains@[self.index as int]),
    {
        let d = &self.domains[self.index];
        SyncAction::OpenDnsProvider { stack_id: d.stack_id.clone(), provider: d.provider }
    }

    fn start_at(self, i: usize) -> (r: (SyncFlow, SyncAction))
        requires
            i <= self.domains@.len(),
        ensures
            starting_at(self, i as int, r.0, r.1),
    {
        let j = self.first_active_from(i);
        if j >= self.domains.len() {
            (SyncFlow { stage: SyncStage::Finished, ..self }, SyncAction::Finish(Ok(())))
        } else {
            let d = &self.domains[j];
            if d.domain_type == DomainType::Caddy {
                (
                    SyncFlow { index: j, stage: SyncStage::ListingContainers, ..self },
                    SyncAction::ListContainers,
                )
            } else if d.provider != DomainProvider::Custom {
                let a = SyncAction::OpenDnsProvider { stack_id: d.stack_id.clone(), provider: d.provider };
                (SyncFlow { index: j, stage: SyncStage::OpeningDns, ..self }, a)
            } else {
                let a = SyncAction::OpenDnsProvider { stack_id: d.stack_id.clone(), provider: d.provider };
                (SyncFlow { index: j, stage: SyncStage::OpeningIngress, ..self }, a)
            }
        }
    }

    fn next_domain(self) -> (r: (SyncFlow, SyncAction))
        requires
            self.index < self.domains@.len(),
        ensures
            starting_at(self, self.index + 1, r.0, r.1),
    {
        let n = self.domains.len();
        assert(self.index < n);
        let i = self.index + 1;
        self.start_at(i)
    }

    fn ingress(self) -> (r: (SyncFlow, SyncAction))
        requires
            self.index < self.domains@.len(),
        ensures
            ingress_phase(self, r.0, r.1),
    {
        let d = &self.domains[self.index];
        if d.domain_type == DomainType::Tunnel && d.tunnel_id.is_some() {
            let a = self.open_current();
            (SyncFlow { stage: SyncStage::OpeningIngress, ..self }, a)
        } else {
            self.next_domain()
        }
    }

    fn dns(self) -> (r: (SyncFlow, SyncAction))
        requires
            self.index < self.domains@.len(),
        ensures
            dns_phase(self, r.0, r.1),
    {
        if self.routes_only {
            self.next_domain()
        } else if self.domains[self.index].provider != DomainProvider::Custom {
            let a = self.open_current();
            (SyncFlow { stage: SyncStage::OpeningDns, ..self }, a)
        } else {
            self.ingress()
        }
    }

    /// Whether the flow waits for an outcome like `e`.
    pub fn accepts_event(&self, e: &SyncEvent) -> (r: bool)
        ensures
            r == sync_accepts(self.stage, *e),
    {
        match self.stage {
            SyncStage::ListingDomains => matches!(e, SyncEvent::Domains(_)),
            SyncStage::ListingContainers => matches!(e, SyncEvent::Containers(_)),
            SyncStage::AddingRoute => matches!(e, SyncEvent::Ignored),
            SyncStage::OpeningDns => matches!(e, SyncEvent::Opened(_)),
            SyncStage::CreatingRecord => matches!(e, SyncEvent::RecordId(_)),
            SyncStage::SavingRecordId => matches!(e, SyncEvent::Ignored),
            SyncStage::OpeningIngress => matches!(e, SyncEvent::Opened(_)),
            SyncStage::SettingIngress => matches!(e, SyncEvent::Ignored),
            SyncStage::Finished => false,
        }
    }

    /// Takes the outcome `e` of the last action and gives the next flow and
    /// action.
    pub fn step(self, e: SyncEvent) -> (r: (SyncFlow, SyncAction))
        requires
            self.wf(),
            sync_accepts(self.stage, e),
        ensures
            sync_next(self, e, r.0, r.1),
    {
        match self.stage {
            SyncStage::ListingDomains => match e {
                SyncEvent::Domains(Err(err)) => (
                    SyncFlow { stage: SyncStage::Finished, ..self },
                    SyncAction::Finish(Err(err)),
                ),
                SyncEvent::Domains(Ok(ds)) => SyncFlow { domains: ds, ..self }.start_at(0),
                _ => {
                    proof {
                        assert(false);
                    }
                    (self, SyncAction::ListDomains)
                },
            },
            SyncStage::ListingContainers => match e {
                SyncEvent::Containers(r) => {
                    let d = &self.domains[self.index];
                    let host = resolve_upstream(d.container_name.as_str(), &r);
                    let port = decimal_string(d.container_port as i64);
                    let upstream = concat3(host.as_str(), ":", port.as_str());
                    let a = SyncAction::AddRoute {
                        domain: d.domain.clone(),
                        upstream,
                        show_branding: d.show_branding,
                    };
                    (SyncFlow { stage: SyncStage::AddingRoute, ..self }, a)
                },
                _ => {
                    proof {
                        assert(false);
                    }
                    (self, SyncAction::ListDomains)
                },
            },
            SyncStage::AddingRoute => self.dns(),
            SyncStage::OpeningDns => match e {
                SyncEvent::Opened(Err(_)) => self.ingress(),
                SyncEvent::Opened(Ok(())) => {
                    let d = &self.domains[self.index];
                    if d.dns_record_id.is_some() {
                        self.ingress()
                    } else {
                        let target = match d.domain_type {
                            DomainType::Caddy => Some(
                                (
                                    "A".to_owned(),
                                    match &self.public_ip {
                                        Some(ip) => ip.clone(),
                                        None => "127.0.0.1".to_owned(),
                                    },
                                ),
                            ),
                            DomainType::Tunnel => match &d.tunnel_id {
                                Some(tid) => Some(
                                    ("CNAME".to_owned(), concat2(tid.as_str(), ".cfargotunnel.com")),
                                ),
                                None => None,
                            },
                        };
                        match target {
                            Some((record_type, content)) => {
                                let a = SyncAction::CreateDnsRecord {
                                    domain: d.domain.clone(),
                                    record_type,
                                    content,
                                    proxied: d.proxied,
                                };
                                (SyncFlow { stage: SyncStage::CreatingRecord, ..self }, a)
                            },
                            None => self.next_domain(),
                        }
                    }
                },
                _ => {
                    proof {
                        assert(false);
                    }
                    (self, SyncAction::ListDomains)
                },
            },
            SyncStage::CreatingRecord => match e {
                SyncEvent::RecordId(Err(_)) => self.ingress(),
                SyncEvent::RecordId(Ok(rid)) => {
                    let id = self.domains[self.index].id.clone();
                    (
                        SyncFlow { stage: SyncStage::SavingRecordId, ..self },
                        SyncAction::SaveDnsRecordId { id, record_id: rid },
                    )
                },
                _ => {
                    proof {
                        assert(false);
                    }
                    (self, SyncAction::ListDomains)
                },
            },
            SyncStage::SavingRecordId => self.ingress(),
            SyncStage::OpeningIngress => match e {
                SyncEvent::Opened(Err(_)) => self.next_domain(),
                SyncEvent::Opened(Ok(())) => {
                    let d = &self.domains[self.index];
                    let tunnel_id = match &d.tunnel_id {
                        Some(t) => t.clone(),
                        None => {
                            proof {
                                assert(false);
                            }
                            "".to_owned()
                        },
                    };
                    let port = decimal_string(d.container_port as i64);
                    let mut url = chars_of("http://");
                    push_str(&mut url, d.container_name.as_str());
                    push_str(&mut url, ":");
                    push_str(&mut url, port.as_str());
                    let a = SyncAction::SetupTunnelIngress {
                        tunnel_id,
                        domain: d.domain.clone(),
                        service_url: string_of(&url),
                    };
                    (SyncFlow { stage: SyncStage::SettingIngress, ..self }, a)
                },
                _ => {
                    proof {
                        assert(false);
                    }
                    (self, SyncAction::ListDomains)
                },
            },
            SyncStage::SettingIngress => self.next_domain(),
            SyncStage::Finished => {
                proof {
                    assert(false);
                }
                (self, SyncAction::ListDomains)
            },
        }
    }
}

impl DomainUsecase {
    /// Starts re-adding the proxy route of every Caddy domain.
    pub fn sync_all_routes(&self) -> (r: (SyncFlow, SyncAction))
        ensures
            r.0.routes_only,
            r.0.stage == SyncStage::ListingDomains,
            r.1 == SyncAction::ListDomains,
    {
        (
            SyncFlow {
                routes_only: true,
                public_ip: None,
                domains: Vec::new(),
                index: 0,
                stage: SyncStage::ListingDomains,
            },
            SyncAction::ListDomains,
        )
    }

    /// Starts synchronising routes, missing DNS records and tunnel ingresses
    /// of every domain; `public_ip` is the configured public address of the
    /// host, if any.
    pub fn sync_infrastructure(&self, public_ip: Option<String>) -> (r: (SyncFlow, SyncAction))
        ensures
            !r.0.routes_only,
            r.0.public_ip == public_ip,
            r.0.stage == SyncStage::ListingDomains,
            r.1 == SyncAction::ListDomains,
    {
        (
            SyncFlow {
                routes_only: false,
                public_ip,
                domains: Vec::new(),
                index: 0,
                stage: SyncStage::ListingDomains,
            },
            SyncAction::ListDomains,
        )
    }
}

proof fn lemma_first_active_bounds(ds: Seq<Domain>, i: int, routes_only: bool)
    requires
        0 <= i <= ds.len(),
    ensures
        i <= first_active(ds, i, routes_only) <= ds.len(),
        first_active(ds, i, routes_only) < ds.len() ==> needs_work(
            ds[first_active(ds, i, routes_only)],
            routes_only,
        ),
    decreases ds.len() - i,
{
    if i < ds.len() && !needs_work(ds[i], routes_only) {
        lemma_first_active_bounds(ds, i + 1, routes_only);
    }
}

proof fn lemma_starting_at_wf(f: SyncFlow, i: int, t: SyncFlow, a: SyncAction)
    requires
        0 <= i <= f.domains@.len(),
        starting_at(f, i, t, a),
    ensures
        t.wf(),
        t.stage != SyncStage::Finished ==> t.domains == f.domains && t.routes_only
            == f.routes_only && i <= t.index,
{
    lemma_first_active_bounds(f.domains@, i, f.routes_only);
}

/// Every step of a synchronisation keeps what holds of it at each stage,
/// keeps its domains and never goes back to an earlier domain.
pub proof fn law_sync_step_keeps_wf(s: SyncFlow, e: SyncEvent, t: SyncFlow, a: SyncAction)
    requires
        s.wf(),
        sync_accepts(s.stage, e),
        sync_next(s, e, t, a),
    ensures
        t.wf(),
        s.stage != SyncStage::ListingDomains && t.stage != SyncStage::Finished ==> t.domains
            == s.domains && t.routes_only == s.routes_only && s.index <= t.index,
{
    match s.stage {
        SyncStage::ListingDomains => {
            if let SyncEvent::Domains(Ok(ds)) = e {
                lemma_starting_at_wf(SyncFlow { domains: ds, ..s }, 0, t, a);
            }
        },
        SyncStage::Finished => {},
        _ => {
            if s.index + 1 <= s.domains@.len() {
                if starting_at(s, s.index + 1, t, a) {
                    lemma_starting_at_wf(s, s.index + 1, t, a);
                }
            }
        },
    }
}

/// Synchronising only the routes never does anything but list containers
/// and add routes.
pub proof fn law_route_sync_only_routes(s: SyncFlow, e: SyncEvent, t: SyncFlow, a: SyncAction)
    requires
        s.wf(),
        s.routes_only,
        sync_accepts(s.stage, e),
        sync_next(s, e, t, a),
    ensures
        a is ListContainers || a is AddRoute || a is Finish,
{
    match s.stage {
        SyncStage::ListingDomains => {
            if let SyncEvent::Domains(Ok(ds)) = e {
                lemma_first_active_bounds(ds@, 0, s.routes_only);
            }
        },
        SyncStage::AddingRoute => {
            lemma_first_active_bounds(s.domains@, s.index + 1, s.routes_only);
        },
        _ => {},
    }
}

/// A DNS record is created only for a domain of a managed provider that has
/// none.
pub proof fn law_sync_creates_only_missing_records(
    s: SyncFlow,
    e: SyncEvent,
    t: SyncFlow,
    a: SyncAction,
)
    requires
        s.wf(),
        sync_accepts(s.stage, e),
        sync_next(s, e, t, a),
        a is CreateDnsRecord,
    ensures
        t.index == s.index,
        t.domains == s.domains,
        s.domains@[s.index as int].dns_record_id is None,
        s.domains@[s.index as int].provider != DomainProvider::Custom,
        a->CreateDnsRecord_domain == s.domains@[s.index as int].domain,
{
    match s.stage {
        SyncStage::ListingDomains => {
            if let SyncEvent::Domains(Ok(ds)) = e {
                lemma_first_active_bounds(ds@, 0, s.routes_only);
            }
        },
        SyncStage::Finished => {},
        _ => {
            if s.index + 1 <= s.domains@.len() {
                lemma_first_active_bounds(s.domains@, s.index + 1, s.routes_only);
            }
        },
    }
}

/// Once the domains are listed, the synchronisation does not fail: a
/// failing route, provider, record or ingress only skips that work.
pub proof fn law_sync_fails_only_on_listing(
    s: SyncFlow,
    e: SyncEvent,
    t: SyncFlow,
    a: SyncAction,
    err: AppError,
)
    requires
        s.wf(),
        sync_accepts(s.stage, e),
        sync_next(s, e, t, a),
        a == SyncAction::Finish(Err(err)),
    ensures
        s.stage == SyncStage::ListingDomains,
        e == SyncEvent::Domains(Err(err)),
{
    match s.stage {
        SyncStage::ListingDomains => {
            if let SyncEvent::Domains(Ok(ds)) = e {
                lemma_first_active_bounds(ds@, 0, s.routes_only);
            }
        },
        SyncStage::Finished => {},
        _ => {
            if s.index + 1 <= s.domains@.len() {
                lemma_first_active_bounds(s.domains@, s.index + 1, s.routes_only);
            }
        },
    }
}

} // verus!
