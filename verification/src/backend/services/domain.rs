//! The domain service: adding a domain to a stack with its DNS record and
//! proxy route (undoing them when a later step fails), removing one, and
//! re-adding the routes of all Caddy domains. The database, the DNS provider
//! and the proxy are driven by the caller, which performs each action and
//! reports its outcome.
use vstd::prelude::*;
use crate::backend::models::domain::{copy_opt, Domain, DomainProvider, DomainType};
use crate::backend::usecase::domain::{host_address, upstream_address};
pub use crate::dns::DnsVerificationResult;
use crate::dns::{dns_verified, verify_lookup, without_trailing_dots};
use crate::error::AppError;
use crate::text::{concat2, concat3, decimal_string};

verus! {

/// The domain service of the backend.
pub struct DomainService {}

/// The row stored for a new domain.
#[derive(Debug)]
pub struct DomainRow {
    pub id: String,
    pub stack_id: String,
    pub container_name: String,
    pub container_port: i32,
    pub domain: String,
    pub ssl_enabled: bool,
    pub verified: bool,
    pub provider: DomainProvider,
    pub domain_type: DomainType,
    pub tunnel_id: Option<String>,
    pub dns_record_id: Option<String>,
    pub created_at: String,
}

/// Where an addition stands.
#[derive(Debug, Clone, Copy, PartialEq, Eq, Structural)]
pub enum ServiceAddStage {
    CheckingExisting,
    Provisioning,
    Allocating,
    Saving,
    CleaningUpSave,
    AddingRoute,
    CleaningUpRoute,
    DeletingRow,
    Fetching,
    Finished,
}

/// An addition of `domain`, routed to `container_name:container_port`.
pub struct ServiceAddFlow {
    pub stack_id: String,
    pub domain: String,
    pub container_name: String,
    pub container_port: i32,
    pub provider: DomainProvider,
    pub domain_type: DomainType,
    pub tunnel_id: Option<String>,
    pub public_ip: Option<String>,
    pub stage: ServiceAddStage,
    pub dns_record_id: Option<String>,
    pub id: Option<String>,
    pub error: Option<AppError>,
}

/// The outcome of the last action.
pub enum ServiceAddEvent {
    /// Whether a domain of that name is stored already.
    Lookup(Result<bool, AppError>),
    /// The id of the provisioned record, if the provider made one.
    Provisioned(Result<Option<String>, AppError>),
    /// A fresh id and the current time.
    Identity { id: String, created_at: String },
    /// An action that yields nothing succeeded or failed.
    Step(Result<(), AppError>),
    /// The stored domain.
    Fetched(Result<Domain, AppError>),
    /// A best-effort action is over.
    Ignored,
}

/// What the caller does next.
pub enum ServiceAddAction {
    FindDomain { domain: String },
    /// Find the team of the stack and provision a record for `domain`
    /// pointing to `target` with its provider of this kind.
    ProvisionRecord { stack_id: String, provider: DomainProvider, domain: String, target: String },
    /// Produce a fresh id and the current time.
    Allocate,
    Insert { row: DomainRow },
    /// Best effort: find the team of the stack and deprovision the record.
    DeprovisionRecord { stack_id: String, provider: DomainProvider, record_id: String },
    /// Route `domain` to `upstream` in the proxy.
    AddRoute { domain: String, upstream: String },
    /// Delete the stored domain `id`.
    DeleteDomain { id: String },
    /// Read the stored domain `id`.
    FetchDomain { id: String },
    Finish(Result<Domain, AppError>),
}

/// The target of the DNS record of a new domain: the host for a Caddy
/// domain, `<tunnel id>.cfargotunnel.com` for a tunnel domain (`unknown` for
/// a missing tunnel id).
pub open spec fn provision_target(
    domain_type: DomainType,
    tunnel_id: Option<String>,
    public_ip: Option<String>,
) -> Seq<char> {
    match domain_type {
        DomainType::Caddy => host_address(public_ip),
        DomainType::Tunnel => match tunnel_id {
            Some(id) => id@ + ".cfargotunnel.com"@,
            None => "unknown.cfargotunnel.com"@,
        },
    }
}

/// The row stored for the addition.
pub open spec fn new_row(f: ServiceAddFlow, id: String, created_at: String) -> DomainRow {
    DomainRow {
        id,
        stack_id: f.stack_id,
        container_name: f.container_name,
        container_port: f.container_port,
        domain: f.domain,
        ssl_enabled: true,
        verified: false,
        provider: f.provider,
        domain_type: f.domain_type,
        tunnel_id: f.tunnel_id,
        dns_record_id: f.dns_record_id,
        created_at,
    }
}

/// Deprovisioning the record `rid` of the addition.
pub open spec fn deprovision(f: ServiceAddFlow, rid: String) -> ServiceAddAction {
    ServiceAddAction::DeprovisionRecord { stack_id: f.stack_id, provider: f.provider, record_id: rid }
}

/// The addition ends with result `r`.
pub open spec fn service_finishes(
    t: ServiceAddFlow,
    a: ServiceAddAction,
    r: Result<Domain, AppError>,
) -> bool {
    t.stage == ServiceAddStage::Finished && a == ServiceAddAction::Finish(r)
}

/// Which outcome each stage waits for.
pub open spec fn service_add_accepts(stage: ServiceAddStage, e: ServiceAddEvent) -> bool {
    match stage {
        ServiceAddStage::CheckingExisting => e is Lookup,
        ServiceAddStage::Provisioning => e is Provisioned,
        ServiceAddStage::Allocating => e is Identity,
        ServiceAddStage::Saving => e is Step,
        ServiceAddStage::CleaningUpSave => e is Ignored,
        ServiceAddStage::AddingRoute => e is Step,
        ServiceAddStage::CleaningUpRoute => e is Ignored,
        ServiceAddStage::DeletingRow => e is Step,
        ServiceAddStage::Fetching => e is Fetched,
        ServiceAddStage::Finished => false,
    }
}

/// One step of an addition.
pub open spec fn service_add_next(
    s: ServiceAddFlow,
    e: ServiceAddEvent,
    t: ServiceAddFlow,
    a: ServiceAddAction,
) -> bool {
    match s.stage {
        ServiceAddStage::CheckingExisting => match e {
            ServiceAddEvent::Lookup(Err(err)) => service_finishes(t, a, Err(err)),
            ServiceAddEvent::Lookup(Ok(found)) => if found {
                &&& t.stage == ServiceAddStage::Finished
                &&& a matches ServiceAddAction::Finish(Err(AppError::Conflict(m)))
                &&& m@ == "Domain '"@ + s.domain@ + "' already exists"@
            } else if s.provider != DomainProvider::Custom {
                &&& t == (ServiceAddFlow { stage: ServiceAddStage::Provisioning, ..s })
                &&& a matches ServiceAddAction::ProvisionRecord {
                    stack_id,
                    provider,
                    domain,
                    target,
                }
                &&& stack_id == s.stack_id
                &&& provider == s.provider
                &&& domain == s.domain
                &&& target@ == provision_target(s.domain_type, s.tunnel_id, s.public_ip)
            } else {
                t == (ServiceAddFlow { stage: ServiceAddStage::Allocating, ..s }) && a
                    == ServiceAddAction::Allocate
            },
            _ => false,
        },
        ServiceAddStage::Provisioning => match e {
            ServiceAddEvent::Provisioned(Err(err)) => service_finishes(t, a, Err(err)),
            ServiceAddEvent::Provisioned(Ok(rid)) => t == (ServiceAddFlow {
                stage: ServiceAddStage::Allocating,
                dns_record_id: rid,
                ..s
            }) && a == ServiceAddAction::Allocate,
            _ => false,
        },
        ServiceAddStage::Allocating => match e {
            ServiceAddEvent::Identity { id, created_at } => t == (ServiceAddFlow {
                stage: ServiceAddStage::Saving,
                id: Some(id),
                ..s
            }) && a == (ServiceAddAction::Insert { row: new_row(s, id, created_at) }),
            _ => false,
        },
        ServiceAddStage::Saving => match e {
            ServiceAddEvent::Step(Err(err)) => match s.dns_record_id {
                Some(rid) => t == (ServiceAddFlow {
                    stage: ServiceAddStage::CleaningUpSave,
                    error: Some(err),
                    ..s
                }) && a == deprovision(s, rid),
                None => service_finishes(t, a, Err(err)),
            },
            ServiceAddEvent::Step(Ok(())) => match s.domain_type {
                DomainType::Caddy => {
                    &&& t == (ServiceAddFlow { stage: ServiceAddStage::AddingRoute, ..s })
                    &&& a matches ServiceAddAction::AddRoute { domain, upstream }
                    &&& domain == s.domain
                    &&& upstream@ == upstream_address(s.container_name@, s.container_port)
                },
                DomainType::Tunnel => t == (ServiceAddFlow {
                    stage: ServiceAddStage::Fetching,
                    ..s
                }) && a == (ServiceAddAction::FetchDomain { id: s.id->0 }),
            },
            _ => false,
        },
        ServiceAddStage::CleaningUpSave => match e {
            ServiceAddEvent::Ignored => service_finishes(t, a, Err(s.error->0)),
            _ => false,
        },
        ServiceAddStage::AddingRoute => match e {
            ServiceAddEvent::Step(Err(err)) => match s.dns_record_id {
                Some(rid) => t == (ServiceAddFlow {
                    stage: ServiceAddStage::CleaningUpRoute,
                    error: Some(err),
                    ..s
                }) && a == deprovision(s, rid),
                None => t == (ServiceAddFlow {
                    stage: ServiceAddStage::DeletingRow,
                    error: Some(err),
                    ..s
                }) && a == (ServiceAddAction::DeleteDomain { id: s.id->0 }),
            },
            ServiceAddEvent::Step(Ok(())) => t == (ServiceAddFlow {
                stage: ServiceAddStage::Fetching,
                ..s
            }) && a == (ServiceAddAction::FetchDomain { id: s.id->0 }),
            _ => false,
        },
        ServiceAddStage::CleaningUpRoute => match e {
            ServiceAddEvent::Ignored => t == (ServiceAddFlow {
                stage: ServiceAddStage::DeletingRow,
                ..s
            }) && a == (ServiceAddAction::DeleteDomain { id: s.id->0 }),
            _ => false,
        },
        ServiceAddStage::DeletingRow => match e {
            ServiceAddEvent::Step(Err(err)) => service_finishes(t, a, Err(err)),
            ServiceAddEvent::Step(Ok(())) => service_finishes(t, a, Err(s.error->0)),
            _ => false,
        },
        ServiceAddStage::Fetching => match e {
            ServiceAddEvent::Fetched(r) => service_finishes(t, a, r),
            _ => false,
        },
        ServiceAddStage::Finished => false,
    }
}

impl ServiceAddFlow {
    /// What holds at each stage: a DNS record only for a managed provider,
    /// an id once allocated, a pending error while undoing.
    pub open spec fn wf(self) -> bool {
        &&& (self.stage != ServiceAddStage::Finished ==> (self.provider == DomainProvider::Custom
            ==> self.dns_record_id is None))
        &&& match self.stage {
            ServiceAddStage::CheckingExisting | ServiceAddStage::Provisioning => {
                &&& self.dns_record_id is None
                &&& self.id is None
                &&& (self.stage == ServiceAddStage::Provisioning ==> self.provider
                    != DomainProvider::Custom)
            },
            ServiceAddStage::Allocating => self.id is None,
            ServiceAddStage::Saving | ServiceAddStage::Fetching => self.id is Some,
            ServiceAddStage::AddingRoute => self.id is Some && self.domain_type == DomainType::Caddy,
            ServiceAddStage::CleaningUpSave => self.error is Some,
            ServiceAddStage::CleaningUpRoute | ServiceAddStage::DeletingRow => {
                &&& self.id is Some
                &&& self.error is Some
            },
            ServiceAddStage::Finished => true,
        }
    }
}

impl ServiceAddFlow {
    /// Whether the flow waits for an outcome like `e`.
    pub fn accepts_event(&self, e: &ServiceAddEvent) -> (r: bool)
        ensures
            r == service_add_accepts(self.stage, *e),
    {
        match self.stage {
            ServiceAddStage::CheckingExisting => matches!(e, ServiceAddEvent::Lookup(_)),
            ServiceAddStage::Provisioning => matches!(e, ServiceAddEvent::Provisioned(_)),
            ServiceAddStage::Allocating => matches!(e, ServiceAddEvent::Identity { .. }),
            ServiceAddStage::Saving => matches!(e, ServiceAddEvent::Step(_)),
            ServiceAddStage::CleaningUpSave => matches!(e, ServiceAddEvent::Ignored),
            ServiceAddStage::AddingRoute => matches!(e, ServiceAddEvent::Step(_)),
            ServiceAddStage::CleaningUpRoute => matches!(e, ServiceAddEvent::Ignored),
            ServiceAddStage::DeletingRow => matches!(e, ServiceAddEvent::Step(_)),
            ServiceAddStage::Fetching => matches!(e, ServiceAddEvent::Fetched(_)),
            ServiceAddStage::Finished => false,
        }
    }

    fn stored_id(&self) -> (r: String)
        requires
            self.id is Some,
        ensures
            r == self.id->0,
    {
        match &self.id {
            Some(id) => id.clone(),
            None => "".to_owned(),
        }
    }

    fn take_error(self) -> (r: (ServiceAddFlow, AppError))
        requires
            self.error is Some,
        ensures
            r.1 == self.error->0,
    {
        let mut flow = self;
        match flow.error.take() {
            Some(err) => (flow, err),
            None => (flow, AppError::Hash),
        }
    }

    /// Takes the outcome `e` of the last action and gives the next flow and
    /// action.
    pub fn step(self, e: ServiceAddEvent) -> (r: (ServiceAddFlow, ServiceAddAction))
        requires
            self.wf(),
            service_add_accepts(self.stage, e),
        ensures
            service_add_next(self, e, r.0, r.1),
    {
        match self.stage {
            ServiceAddStage::CheckingExisting => match e {
                ServiceAddEvent::Lookup(Err(err)) => (
                    ServiceAddFlow { stage: ServiceAddStage::Finished, ..self },
                    ServiceAddAction::Finish(Err(err)),
                ),
                ServiceAddEvent::Lookup(Ok(found)) => {
                    if found {
                        let m = concat3("Domain '", self.domain.as_str(), "' already exists");
                        (
                            ServiceAddFlow { stage: ServiceAddStage::Finished, ..self },
                            ServiceAddAction::Finish(Err(AppError::Conflict(m))),
                        )
                    } else if self.provider != DomainProvider::Custom {
                        let target = match self.domain_type {
                            DomainType::Caddy => match &self.public_ip {
                                Some(ip) => ip.clone(),
                                None => "127.0.0.1".to_owned(),
                            },
                            DomainType::Tunnel => match &self.tunnel_id {
                                Some(id) => concat2(id.as_str(), ".cfargotunnel.com"),
                                None => "unknown.cfargotunnel.com".to_owned(),
                            },
                        };
                        let a = ServiceAddAction::ProvisionRecord {
                            stack_id: self.stack_id.clone(),
                            provider: self.provider,
                            domain: self.domain.clone(),
                            target,
                        };
                        (ServiceAddFlow { stage: ServiceAddStage::Provisioning, ..self }, a)
                    } else {
                        (
                            ServiceAddFlow { stage: ServiceAddStage::Allocating, ..self },
                            ServiceAddAction::Allocate,
                        )
                    }
                },
                _ => {
                    proof {
                        assert(false);
                    }
                    (self, ServiceAddAction::Allocate)
                },
            },
            ServiceAddStage::Provisioning => match e {
                ServiceAddEvent::Provisioned(Err(err)) => (
                    ServiceAddFlow { stage: ServiceAddStage::Finished, ..self },
                    ServiceAddAction::Finish(Err(err)),
                ),
                ServiceAddEvent::Provisioned(Ok(rid)) => (
                    ServiceAddFlow {
                        stage: ServiceAddStage::Allocating,
                        dns_record_id: rid,
                        ..self
                    },
                    ServiceAddAction::Allocate,
                ),
                _ => {
                    proof {
                        assert(false);
                    }
                    (self, ServiceAddAction::Allocate)
                },
            },
            ServiceAddStage::Allocating => match e {
                ServiceAddEvent::Identity { id, created_at } => {
                    let row = DomainRow {
                        id: id.clone(),
                        stack_id: self.stack_id.clone(),
                        container_name: self.container_name.clone(),
                        container_port: self.container_port,
                        domain: self.domain.clone(),
                        ssl_enabled: true,
                        verified: false,
                        provider: self.provider,
                        domain_type: self.domain_type,
                        tunnel_id: copy_opt(&self.tunnel_id),
                        dns_record_id: copy_opt(&self.dns_record_id),
                        created_at,
                    };
                    (
                        ServiceAddFlow { stage: ServiceAddStage::Saving, id: Some(id), ..self },
                        ServiceAddAction::Insert { row },
                    )
                },
                _ => {
                    proof {
                        assert(false);
                    }
                    (self, ServiceAddAction::Allocate)
                },
            },
            ServiceAddStage::Saving => match e {
                ServiceAddEvent::Step(Err(err)) => match &self.dns_record_id {
                    Some(rid) => {
                        let a = ServiceAddAction::DeprovisionRecord {
                            stack_id: self.stack_id.clone(),
                            provider: self.provider,
                            record_id: rid.clone(),
                        };
                        (
                            ServiceAddFlow {
                                stage: ServiceAddStage::CleaningUpSave,
                                error: Some(err),
                                ..self
                            },
                            a,
                        )
                    },
                    None => (
                        ServiceAddFlow { stage: ServiceAddStage::Finished, ..self },
                        ServiceAddAction::Finish(Err(err)),
                    ),
                },
                ServiceAddEvent::Step(Ok(())) => match self.domain_type {
                    DomainType::Caddy => {
                        let port = decimal_string(self.container_port as i64);
                        let upstream = concat3(self.container_name.as_str(), ":", port.as_str());
                        let a = ServiceAddAction::AddRoute { domain: self.domain.clone(), upstream };
                        (ServiceAddFlow { stage: ServiceAddStage::AddingRoute, ..self }, a)
                    },
                    DomainType::Tunnel => {
                        let id = self.stored_id();
                        (
                            ServiceAddFlow { stage: ServiceAddStage::Fetching, ..self },
                            ServiceAddAction::FetchDomain { id },
                        )
                    },
                },
                _ => {
                    proof {
                        assert(false);
                    }
                    (self, ServiceAddAction::Allocate)
                },
            },
            ServiceAddStage::CleaningUpSave => {
                let (flow, err) = self.take_error();
                (
                    ServiceAddFlow { stage: ServiceAddStage::Finished, ..flow },
                    ServiceAddAction::Finish(Err(err)),
                )
            },
            ServiceAddStage::AddingRoute => match e {
                ServiceAddEvent::Step(Err(err)) => match &self.dns_record_id {
                    Some(rid) => {
                        let a = ServiceAddAction::DeprovisionRecord {
                            stack_id: self.stack_id.clone(),
                            provider: self.provider,
                            record_id: rid.clone(),
                        };
                        (
                            ServiceAddFlow {
                                stage: ServiceAddStage::CleaningUpRoute,
                                error: Some(err),
                                ..self
                            },
                            a,
                        )
                    },
                    None => {
                        let id = self.stored_id();
                        (
                            ServiceAddFlow {
                                stage: ServiceAddStage::DeletingRow,
                                error: Some(err),
                                ..self
                            },
                            ServiceAddAction::DeleteDomain { id },
                        )
                    },
                },
                ServiceAddEvent::Step(Ok(())) => {
                    let id = self.stored_id();
                    (
                        ServiceAddFlow { stage: ServiceAddStage::Fetching, ..self },
                        ServiceAddAction::FetchDomain { id },
                    )
                },
                _ => {
                    proof {
                        assert(false);
                    }
                    (self, ServiceAddAction::Allocate)
                },
            },
            ServiceAddStage::CleaningUpRoute => {
                let id = self.stored_id();
                (
                    ServiceAddFlow { stage: ServiceAddStage::DeletingRow, ..self },
                    ServiceAddAction::DeleteDomain { id },
                )
            },
            ServiceAddStage::DeletingRow => match e {
                ServiceAddEvent::Step(Err(err)) => (
                    ServiceAddFlow { stage: ServiceAddStage::Finished, ..self },
                    ServiceAddAction::Finish(Err(err)),
                ),
                ServiceAddEvent::Step(Ok(())) => {
                    let (flow, err) = self.take_error();
                    (
                        ServiceAddFlow { stage: ServiceAddStage::Finished, ..flow },
                        ServiceAddAction::Finish(Err(err)),
                    )
                },
                _ => {
                    proof {
                        assert(false);
                    }
                    (self, ServiceAddAction::Allocate)
                },
            },
            ServiceAddStage::Fetching => match e {
                ServiceAddEvent::Fetched(r) => (
                    ServiceAddFlow { stage: ServiceAddStage::Finished, ..self },
                    ServiceAddAction::Finish(r),
                ),
                _ => {
                    proof {
                        assert(false);
                    }
                    (self, ServiceAddAction::Allocate)
                },
            },
            ServiceAddStage::Finished => {
                proof {
                    assert(false);
                }
                (self, ServiceAddAction::Allocate)
            },
        }
    }
}

impl DomainService {
    pub fn new() -> (s: DomainService) {
        DomainService {}
    }

    /// Starts adding `domain` to stack `stack_id`, routed to
    /// `container_name:container_port`; `public_ip` is the configured public
    /// address of the host, if any. The first action looks the domain up.
    pub fn add_domain(
        &self,
        stack_id: &str,
        domain: &str,
        container_name: &str,
        container_port: i32,
        provider: DomainProvider,
        domain_type: DomainType,
        tunnel_id: Option<String>,
        public_ip: Option<String>,
    ) -> (r: (ServiceAddFlow, ServiceAddAction))
        ensures
            r.0.stack_id@ == stack_id@,
            r.0.domain@ == domain@,
            r.0.container_name@ == container_name@,
            r.0.container_port == container_port,
            r.0.provider == provider,
            r.0.domain_type == domain_type,
            r.0.tunnel_id == tunnel_id,
            r.0.public_ip == public_ip,
            r.0.stage == ServiceAddStage::CheckingExisting,
            r.0.dns_record_id is None,
            r.0.id is None,
            r.0.error is None,
            r.0.wf(),
            r.1 == (ServiceAddAction::FindDomain { domain: r.0.domain }),
    {
        let flow = ServiceAddFlow {
            stack_id: stack_id.to_owned(),
            domain: domain.to_owned(),
            container_name: container_name.to_owned(),
            container_port,
            provider,
            domain_type,
            tunnel_id,
            public_ip,
            stage: ServiceAddStage::CheckingExisting,
            dns_record_id: None,
            id: None,
            error: None,
        };
        let d = flow.domain.clone();
        (flow, ServiceAddAction::FindDomain { domain: d })
    }

    /// The verification of `domain` from a lookup of its A records and CNAME
    /// targets, against `expected_ip` (any record verifies it without one).
    /// The caller stores the verdict.
    pub fn verify_domain(
        &self,
        domain: &str,
        a_records: Vec<String>,
        cname_targets: &Vec<String>,
        expected_ip: Option<&str>,
    ) -> (r: DnsVerificationResult)
        ensures
            r.domain@ == domain@,
            r.a_records@ == a_records@,
            r.cname_records@.len() == cname_targets@.len(),
            forall|i: int|
                0 <= i < r.cname_records@.len() ==> (#[trigger] r.cname_records@[i])@
                    == without_trailing_dots(cname_targets@[i]@),
            r.verified == dns_verified(a_records@, r.cname_records@, match expected_ip {
                Some(e) => Some(e@),
                None => None,
            }),
    {
        verify_lookup(domain, a_records, cname_targets, expected_ip)
    }

    /// The routes to re-add for the stored Caddy domains: each domain to
    /// `<container>:<port>`, in order. Failures of single routes do not stop
    /// the others.
    pub fn sync_all_routes(&self, domains: &Vec<Domain>) -> (r: Vec<(String, String)>)
        ensures
            r@.len() == domains@.len(),
            forall|i: int|
                0 <= i < r@.len() ==> (#[trigger] r@[i]).0 == domains@[i].domain && r@[i].1@
                    == upstream_address(domains@[i].container_name@, domains@[i].container_port),
    {
        let mut r: Vec<(String, String)> = Vec::new();
        let mut i: usize = 0;
        while i < domains.len()
            invariant
                i <= domains.len(),
                r@.len() == i,
                forall|j: int|
                    0 <= j < i ==> (#[trigger] r@[j]).0 == domains@[j].domain && r@[j].1@
                        == upstream_address(domains@[j].container_name@, domains@[j].container_port),
            decreases domains.len() - i,
        {
            let d = &domains[i];
            let port = decimal_string(d.container_port as i64);
            r.push((d.domain.clone(), concat3(d.container_name.as_str(), ":", port.as_str())));
            i = i + 1;
        }
        r
    }
}

/// Where a removal stands.
#[derive(Debug, Clone, Copy, PartialEq, Eq, Structural)]
pub enum ServiceRemoveStage {
    Finding,
    FindingTeam,
    Deprovisioning,
    RemovingRoute,
    Deleting,
    Finished,
}

/// A removal of `domain` from stack `stack_id`.
pub struct ServiceRemoveFlow {
    pub stack_id: String,
    pub domain: String,
    pub record: Option<Domain>,
    pub stage: ServiceRemoveStage,
}

/// The outcome of the last action of a removal.
pub enum ServiceRemoveEvent {
    /// The stored domain of that name in the stack, if any.
    Found(Result<Option<Domain>, AppError>),
    /// The team of the stack.
    Team(Result<String, AppError>),
    /// An action that yields nothing succeeded or failed.
    Step(Result<(), AppError>),
    /// A best-effort action is over.
    Ignored,
}

/// What the caller does next in a removal.
pub enum ServiceRemoveAction {
    /// Look `domain` up among the domains of stack `stack_id`.
    FindDomain { domain: String, stack_id: String },
    FindStackTeam { stack_id: String },
    /// Best effort: deprovision the record with the team's provider.
    DeprovisionRecord { team_id: String, provider: DomainProvider, record_id: String },
    /// Best effort: remove the proxy route of `domain`.
    RemoveRoute { domain: String },
    /// Delete the stored domain `id`.
    DeleteDomain { id: String },
    Finish(Result<(), AppError>),
}

/// Removing the proxy route (Caddy domains), then the stored domain.
pub open spec fn service_route_phase(
    s: ServiceRemoveFlow,
    t: ServiceRemoveFlow,
    a: ServiceRemoveAction,
) -> bool {
    let d = s.record->0;
    match d.domain_type {
        DomainType::Caddy => t == (ServiceRemoveFlow { stage: ServiceRemoveStage::RemovingRoute, ..s })
            && a == (ServiceRemoveAction::RemoveRoute { domain: d.domain }),
        DomainType::Tunnel => t == (ServiceRemoveFlow { stage: ServiceRemoveStage::Deleting, ..s })
            && a == (ServiceRemoveAction::DeleteDomain { id: d.id }),
    }
}

/// Which outcome each stage of a removal waits for.
pub open spec fn service_remove_accepts(stage: ServiceRemoveStage, e: ServiceRemoveEvent) -> bool {
    match stage {
        ServiceRemoveStage::Finding => e is Found,
        ServiceRemoveStage::FindingTeam => e is Team,
        ServiceRemoveStage::Deprovisioning => e is Ignored,
        ServiceRemoveStage::RemovingRoute => e is Ignored,
        ServiceRemoveStage::Deleting => e is Step,
        ServiceRemoveStage::Finished => false,
    }
}

/// One step of a removal: a domain not in the stack is not found; its DNS
/// record goes first, then its route, then the stored domain.
pub open spec fn service_remove_next(
    s: ServiceRemoveFlow,
    e: ServiceRemoveEvent,
    t: ServiceRemoveFlow,
    a: ServiceRemoveAction,
) -> bool {
    let d = s.record->0;
    match s.stage {
        ServiceRemoveStage::Finding => match e {
            ServiceRemoveEvent::Found(Err(err)) => t.stage == ServiceRemoveStage::Finished && a
                == ServiceRemoveAction::Finish(Err(err)),
            ServiceRemoveEvent::Found(Ok(None)) => {
                &&& t.stage == ServiceRemoveStage::Finished
                &&& a matches ServiceRemoveAction::Finish(Err(AppError::NotFound(m)))
                &&& m@ == "Domain not found"@
            },
            ServiceRemoveEvent::Found(Ok(Some(found))) => {
                let s2 = ServiceRemoveFlow { record: Some(found), ..s };
                match found.dns_record_id {
                    Some(_) => t == (ServiceRemoveFlow {
                        stage: ServiceRemoveStage::FindingTeam,
                        ..s2
                    }) && a == (ServiceRemoveAction::FindStackTeam { stack_id: s.stack_id }),
                    None => service_route_phase(s2, t, a),
                }
            },
            _ => false,
        },
        ServiceRemoveStage::FindingTeam => match e {
            ServiceRemoveEvent::Team(Err(err)) => t.stage == ServiceRemoveStage::Finished && a
                == ServiceRemoveAction::Finish(Err(err)),
            ServiceRemoveEvent::Team(Ok(team)) => t == (ServiceRemoveFlow {
                stage: ServiceRemoveStage::Deprovisioning,
                ..s
            }) && a == (ServiceRemoveAction::DeprovisionRecord {
                team_id: team,
                provider: d.provider,
                record_id: d.dns_record_id->0,
            }),
            _ => false,
        },
        ServiceRemoveStage::Deprovisioning => service_route_phase(s, t, a),
        ServiceRemoveStage::RemovingRoute => t == (ServiceRemoveFlow {
            stage: ServiceRemoveStage::Deleting,
            ..s
        }) && a == (ServiceRemoveAction::DeleteDomain { id: d.id }),
        ServiceRemoveStage::Deleting => match e {
            ServiceRemoveEvent::Step(r) => t.stage == ServiceRemoveStage::Finished && a
                == ServiceRemoveAction::Finish(r),
            _ => false,
        },
        ServiceRemoveStage::Finished => false,
    }
}

impl ServiceRemoveFlow {
    /// Past the lookup, the flow holds the domain found.
    pub open spec fn wf(self) -> bool {
        match self.stage {
            ServiceRemoveStage::Finding => self.record is None,
            ServiceRemoveStage::Finished => true,
            _ => {
                &&& self.record is Some
                &&& (self.stage == ServiceRemoveStage::FindingTeam ==> self.record->0.dns_record_id is Some)
                &&& (self.stage == ServiceRemoveStage::RemovingRoute ==> self.record->0.domain_type
                    == DomainType::Caddy)
            },
        }
    }

    fn route_phase(self) -> (r: (ServiceRemoveFlow, ServiceRemoveAction))
        requires
            self.record is Some,
        ensures
            service_route_phase(self, r.0, r.1),
    {
        let (domain_type, domain, id) = match &self.record {
            Some(d) => (d.domain_type, d.domain.clone(), d.id.clone()),
            None => (DomainType::Caddy, "".to_owned(), "".to_owned()),
        };
        match domain_type {
            DomainType::Caddy => (
                ServiceRemoveFlow { stage: ServiceRemoveStage::RemovingRoute, ..self },
                ServiceRemoveAction::RemoveRoute { domain },
            ),
            DomainType::Tunnel => (
                ServiceRemoveFlow { stage: ServiceRemoveStage::Deleting, ..self },
                ServiceRemoveAction::DeleteDomain { id },
            ),
        }
    }

    /// Whether the flow waits for an outcome like `e`.
    pub fn accepts_event(&self, e: &ServiceRemoveEvent) -> (r: bool)
        ensures
            r == service_remove_accepts(self.stage, *e),
    {
        match self.stage {
            ServiceRemoveStage::Finding => matches!(e, ServiceRemoveEvent::Found(_)),
            ServiceRemoveStage::FindingTeam => matches!(e, ServiceRemoveEvent::Team(_)),
            ServiceRemoveStage::Deprovisioning => matches!(e, ServiceRemoveEvent::Ignored),
            ServiceRemoveStage::RemovingRoute => matches!(e, ServiceRemoveEvent::Ignored),
            ServiceRemoveStage::Deleting => matches!(e, ServiceRemoveEvent::Step(_)),
            ServiceRemoveStage::Finished => false,
        }
    }

    /// Takes the outcome `e` of the last action and gives the next flow and
    /// action.
    pub fn step(self, e: ServiceRemoveEvent) -> (r: (ServiceRemoveFlow, ServiceRemoveAction))
        requires
            self.wf(),
            service_remove_accepts(self.stage, e),
        ensures
            service_remove_next(self, e, r.0, r.1),
    {
        match self.stage {
            ServiceRemoveStage::Finding => match e {
                ServiceRemoveEvent::Found(Err(err)) => (
                    ServiceRemoveFlow { stage: ServiceRemoveStage::Finished, ..self },
                    ServiceRemoveAction::Finish(Err(err)),
                ),
                ServiceRemoveEvent::Found(Ok(None)) => (
                    ServiceRemoveFlow { stage: ServiceRemoveStage::Finished, ..self },
                    ServiceRemoveAction::Finish(Err(AppError::NotFound("Domain not found".to_owned()))),
                ),
                ServiceRemoveEvent::Found(Ok(Some(found))) => {
                    let has_record = found.dns_record_id.is_some();
                    let flow = ServiceRemoveFlow { record: Some(found), ..self };
                    if has_record {
                        let stack_id = flow.stack_id.clone();
                        (
                            ServiceRemoveFlow { stage: ServiceRemoveStage::FindingTeam, ..flow },
                            ServiceRemoveAction::FindStackTeam { stack_id },
                        )
                    } else {
                        flow.route_phase()
                    }
                },
                _ => {
                    proof {
                        assert(false);
                    }
                    (self, ServiceRemoveAction::Finish(Ok(())))
                },
            },
            ServiceRemoveStage::FindingTeam => match e {
                ServiceRemoveEvent::Team(Err(err)) => (
                    ServiceRemoveFlow { stage: ServiceRemoveStage::Finished, ..self },
                    ServiceRemoveAction::Finish(Err(err)),
                ),
                ServiceRemoveEvent::Team(Ok(team)) => {
                    let (provider, record_id) = match &self.record {
                        Some(d) => (
                            d.provider,
                            match &d.dns_record_id {
                                Some(rid) => rid.clone(),
                                None => "".to_owned(),
                            },
                        ),
                        None => (DomainProvider::Custom, "".to_owned()),
                    };
                    (
                        ServiceRemoveFlow { stage: ServiceRemoveStage::Deprovisioning, ..self },
                        ServiceRemoveAction::DeprovisionRecord { team_id: team, provider, record_id },
                    )
                },
                _ => {
                    proof {
                        assert(false);
                    }
                    (self, ServiceRemoveAction::Finish(Ok(())))
                },
            },
            ServiceRemoveStage::Deprovisioning => self.route_phase(),
            ServiceRemoveStage::RemovingRoute => {
                let id = match &self.record {
                    Some(d) => d.id.clone(),
                    None => "".to_owned(),
                };
                (
                    ServiceRemoveFlow { stage: ServiceRemoveStage::Deleting, ..self },
                    ServiceRemoveAction::DeleteDomain { id },
                )
            },
            ServiceRemoveStage::Deleting => match e {
                ServiceRemoveEvent::Step(r) => (
                    ServiceRemoveFlow { stage: ServiceRemoveStage::Finished, ..self },
                    ServiceRemoveAction::Finish(r),
                ),
                _ => {
                    proof {
                        assert(false);
                    }
                    (self, ServiceRemoveAction::Finish(Ok(())))
                },
            },
            ServiceRemoveStage::Finished => {
                proof {
                    assert(false);
                }
                (self, ServiceRemoveAction::Finish(Ok(())))
            },
        }
    }
}

impl DomainService {
    /// Starts removing `domain` from stack `stack_id`.
    pub fn remove_domain(&self, stack_id: &str, domain: &str) -> (r: (
        ServiceRemoveFlow,
        ServiceRemoveAction,
    ))
        ensures
            r.0.stack_id@ == stack_id@,
            r.0.domain@ == domain@,
            r.0.stage == ServiceRemoveStage::Finding,
            r.0.wf(),
            r.1 == (ServiceRemoveAction::FindDomain { domain: r.0.domain, stack_id: r.0.stack_id }),
    {
        let flow = ServiceRemoveFlow {
            stack_id: stack_id.to_owned(),
            domain: domain.to_owned(),
            record: None,
            stage: ServiceRemoveStage::Finding,
        };
        let a = ServiceRemoveAction::FindDomain {
            domain: flow.domain.clone(),
            stack_id: flow.stack_id.clone(),
        };
        (flow, a)
    }
}

/// Every step of an addition keeps what holds of it at each stage.
pub proof fn law_service_add_step_keeps_wf(
    s: ServiceAddFlow,
    e: ServiceAddEvent,
    t: ServiceAddFlow,
    a: ServiceAddAction,
)
    requires
        s.wf(),
        service_add_accepts(s.stage, e),
        service_add_next(s, e, t, a),
    ensures
        t.wf(),
{
}

/// A domain whose records the user manages is never provisioned or
/// deprovisioned.
pub proof fn law_service_custom_domains_leave_dns_alone(
    s: ServiceAddFlow,
    e: ServiceAddEvent,
    t: ServiceAddFlow,
    a: ServiceAddAction,
)
    requires
        s.wf(),
        service_add_accepts(s.stage, e),
        service_add_next(s, e, t, a),
        s.provider == DomainProvider::Custom,
    ensures
        !(a is ProvisionRecord),
        !(a is DeprovisionRecord),
{
}

/// When the row cannot be stored, the provisioned record is deprovisioned
/// and the addition fails with the store's error.
pub proof fn law_service_failed_save_deprovisions(
    s: ServiceAddFlow,
    err: AppError,
    t: ServiceAddFlow,
    a: ServiceAddAction,
    t2: ServiceAddFlow,
    a2: ServiceAddAction,
)
    requires
        s.wf(),
        s.stage == ServiceAddStage::Saving,
        service_add_next(s, ServiceAddEvent::Step(Err(err)), t, a),
    ensures
        s.dns_record_id is None ==> service_finishes(t, a, Err(err)),
        s.dns_record_id is Some ==> a == deprovision(s, s.dns_record_id->0) && (service_add_next(
            t,
            ServiceAddEvent::Ignored,
            t2,
            a2,
        ) ==> service_finishes(t2, a2, Err(err))),
{
}

/// When the route cannot be added, the record is deprovisioned and the row
/// deleted; the addition fails with the proxy's error, or with the error of
/// the deletion when that fails too.
pub proof fn law_service_failed_route_undoes_the_addition(
    s: ServiceAddFlow,
    err: AppError,
    t: ServiceAddFlow,
    a: ServiceAddAction,
    t2: ServiceAddFlow,
    a2: ServiceAddAction,
    delete: Result<(), AppError>,
    t3: ServiceAddFlow,
    a3: ServiceAddAction,
)
    requires
        s.wf(),
        s.stage == ServiceAddStage::AddingRoute,
        service_add_next(s, ServiceAddEvent::Step(Err(err)), t, a),
        s.dns_record_id is Some ==> service_add_next(t, ServiceAddEvent::Ignored, t2, a2),
        s.dns_record_id is Some ==> service_add_next(t2, ServiceAddEvent::Step(delete), t3, a3),
        s.dns_record_id is None ==> service_add_next(t, ServiceAddEvent::Step(delete), t3, a3),
    ensures
        s.dns_record_id is Some ==> a == deprovision(s, s.dns_record_id->0) && a2
            == (ServiceAddAction::DeleteDomain { id: s.id->0 }),
        s.dns_record_id is None ==> a == (ServiceAddAction::DeleteDomain { id: s.id->0 }),
        service_finishes(
            t3,
            a3,
            match delete {
                Ok(()) => Err(err),
                Err(e2) => Err(e2),
            },
        ),
{
}

/// A domain that is not in the stack is not found, and nothing is removed.
pub proof fn law_service_removes_only_stack_domains(
    s: ServiceRemoveFlow,
    e: ServiceRemoveEvent,
    t: ServiceRemoveFlow,
    a: ServiceRemoveAction,
)
    requires
        s.wf(),
        service_remove_accepts(s.stage, e),
        service_remove_next(s, e, t, a),
    ensures
        t.wf(),
        e == ServiceRemoveEvent::Found(Ok(None)) ==> (a matches ServiceRemoveAction::Finish(
            Err(AppError::NotFound(m)),
        ) && m@ == "Domain not found"@),
{
}

} // verus!
