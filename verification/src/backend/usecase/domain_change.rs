//! Changing a stored domain on behalf of a stack: removing it, updating its
//! DNS record, switching its branding. Each change first finds the domain and
//! refuses it unless the domain belongs to the stack.
use vstd::prelude::*;
use crate::backend::models::domain::{Domain, DomainProvider, DomainType};
use crate::backend::services::container::ContainerInfo;
use crate::backend::usecase::domain::{
    resolve_upstream, upstream_address, upstream_host, DomainUsecase,
};
use crate::error::AppError;
use crate::text::{concat3, decimal_string, str_eq};

verus! {

/// The outcome of the last action of a change.
pub enum DomainChangeEvent {
    /// The stored domain of that name, if any.
    Found(Result<Option<Domain>, AppError>),
    /// The team of the stack.
    Team(Result<String, AppError>),
    /// An action that yields nothing succeeded or failed.
    Step(Result<(), AppError>),
    /// The containers of the runtime.
    Containers(Result<Vec<ContainerInfo>, AppError>),
    /// A best-effort action is over.
    Ignored,
}

/// What the caller does next in a change.
pub enum DomainChangeAction {
    FindDomain { domain: String },
    FindStackTeam { stack_id: String },
    /// Open the DNS provider of this kind for the team.
    OpenDnsProvider { team_id: String, provider: DomainProvider },
    /// Best effort: delete the DNS record with the opened provider.
    DeleteDnsRecord { domain: String, record_id: String },
    /// Best effort: remove the tunnel ingress of `domain`.
    RemoveTunnelIngress { tunnel_id: String, domain: String },
    /// Best effort: remove the proxy route of `domain`.
    RemoveRoute { domain: String },
    /// Delete the stored domain `id`.
    DeleteDomain { id: String },
    /// Update the DNS record with the opened provider.
    UpdateDnsRecord {
        domain: String,
        record_id: String,
        record_type: String,
        content: String,
        proxied: bool,
    },
    /// Store the branding choice of `domain`.
    UpdateBranding { domain: String, show_branding: bool },
    ListContainers,
    /// Route `domain` to `upstream` in the proxy.
    AddRoute { domain: String, upstream: String, show_branding: bool },
    Finish(Result<(), AppError>),
}

/// The message of a change to a domain that is not stored.
pub open spec fn not_found_message() -> Seq<char> {
    "Domain not found"@
}

/// The message of a change to a domain of another stack.
pub open spec fn forbidden_message() -> Seq<char> {
    "You do not have permission to modify this domain"@
}

/// The lookup found the domain, and it belongs to stack `stack_id`.
pub open spec fn owned(found: Result<Option<Domain>, AppError>, stack_id: Seq<char>) -> bool {
    found matches Ok(Some(d)) && d.stack_id@ == stack_id
}

/// The error a change ends with when the lookup did not give a domain of the
/// stack: the lookup's own error, not found, or forbidden.
pub open spec fn access_error(
    found: Result<Option<Domain>, AppError>,
    stack_id: Seq<char>,
    err: AppError,
) -> bool {
    match found {
        Err(e) => err == e,
        Ok(None) => err matches AppError::NotFound(m) && m@ == not_found_message(),
        Ok(Some(d)) => d.stack_id@ != stack_id && (err matches AppError::Forbidden(m) && m@
            == forbidden_message()),
    }
}

/// The domain a lookup found, when it belongs to stack `stack_id`; else the
/// error the change ends with.
pub fn check_access(found: Result<Option<Domain>, AppError>, stack_id: &str) -> (r: Result<
    Domain,
    AppError,
>)
    ensures
        r is Ok <==> owned(found, stack_id@),
        r matches Ok(d) ==> found == Ok::<Option<Domain>, AppError>(Some(d)),
        r matches Err(e) ==> access_error(found, stack_id@, e),
{
    match found {
        Err(e) => Err(e),
        Ok(None) => Err(AppError::NotFound("Domain not found".to_owned())),
        Ok(Some(d)) => {
            if str_eq(d.stack_id.as_str(), stack_id) {
                Ok(d)
            } else {
                Err(
                    AppError::Forbidden(
                        "You do not have permission to modify this domain".to_owned(),
                    ),
                )
            }
        },
    }
}

/// The change ends with result `r`.
pub open spec fn ends(a: DomainChangeAction, r: Result<(), AppError>) -> bool {
    a == DomainChangeAction::Finish(r)
}

/// The change ends refused by the lookup.
pub open spec fn ends_refused(
    found: Result<Option<Domain>, AppError>,
    stack_id: Seq<char>,
    a: DomainChangeAction,
) -> bool {
    a matches DomainChangeAction::Finish(Err(e)) && access_error(found, stack_id, e)
}

// ---------------------------------------------------------------- removal

/// Where a removal stands.
#[derive(Debug, Clone, Copy, PartialEq, Eq, Structural)]
pub enum RemoveStage {
    Finding,
    FindingTeam,
    OpeningProvider,
    DeletingRecord,
    RemovingIngress,
    RemovingRoute,
    DeletingDomain,
    Finished,
}

/// A removal of `domain` on behalf of stack `stack_id`; `record` is the
/// stored domain once found.
pub struct RemoveDomainFlow {
    pub stack_id: String,
    pub domain: String,
    pub record: Option<Domain>,
    pub stage: RemoveStage,
}

/// Removing the domain's proxy route (Caddy domains), then the stored domain.
pub open spec fn remove_route_phase(
    s: RemoveDomainFlow,
    t: RemoveDomainFlow,
    a: DomainChangeAction,
) -> bool {
    let d = s.record->0;
    match d.domain_type {
        DomainType::Caddy => t == (RemoveDomainFlow { stage: RemoveStage::RemovingRoute, ..s })
            && a == (DomainChangeAction::RemoveRoute { domain: d.domain }),
        DomainType::Tunnel => t == (RemoveDomainFlow { stage: RemoveStage::DeletingDomain, ..s })
            && a == (DomainChangeAction::DeleteDomain { id: d.id }),
    }
}

/// Which outcome each stage of a removal waits for.
pub open spec fn remove_accepts(stage: RemoveStage, e: DomainChangeEvent) -> bool {
    match stage {
        RemoveStage::Finding => e is Found,
        RemoveStage::FindingTeam => e is Team,
        RemoveStage::OpeningProvider => e is Step,
        RemoveStage::DeletingRecord => e is Ignored,
        RemoveStage::RemovingIngress => e is Ignored,
        RemoveStage::RemovingRoute => e is Ignored,
        RemoveStage::DeletingDomain => e is Step,
        RemoveStage::Finished => false,
    }
}

/// One step of a removal: the DNS record goes first (with the team's
/// provider; a provider that cannot be opened is skipped), with the tunnel
/// ingress of a tunnel domain, then the proxy route, then the stored domain.
pub open spec fn remove_next(
    s: RemoveDomainFlow,
    e: DomainChangeEvent,
    t: RemoveDomainFlow,
    a: DomainChangeAction,
) -> bool {
    let d = s.record->0;
    match s.stage {
        RemoveStage::Finding => match e {
            DomainChangeEvent::Found(found) => if owned(found, s.stack_id@) {
                let s2 = RemoveDomainFlow { record: Some(found->Ok_0->0), ..s };
                match found->Ok_0->0.dns_record_id {
                    Some(_) => t == (RemoveDomainFlow { stage: RemoveStage::FindingTeam, ..s2 })
                        && a == (DomainChangeAction::FindStackTeam { stack_id: s.stack_id }),
                    None => remove_route_phase(s2, t, a),
                }
            } else {
                t.stage == RemoveStage::Finished && ends_refused(found, s.stack_id@, a)
            },
            _ => false,
        },
        RemoveStage::FindingTeam => match e {
            DomainChangeEvent::Team(Err(err)) => t.stage == RemoveStage::Finished && ends(
                a,
                Err(err),
            ),
            DomainChangeEvent::Team(Ok(team)) => t == (RemoveDomainFlow {
                stage: RemoveStage::OpeningProvider,
                ..s
            }) && a == (DomainChangeAction::OpenDnsProvider { team_id: team, provider: d.provider }),
            _ => false,
        },
        RemoveStage::OpeningProvider => match e {
            DomainChangeEvent::Step(Err(_)) => remove_route_phase(s, t, a),
            DomainChangeEvent::Step(Ok(())) => t == (RemoveDomainFlow {
                stage: RemoveStage::DeletingRecord,
                ..s
            }) && a == (DomainChangeAction::DeleteDnsRecord {
                domain: d.domain,
                record_id: d.dns_record_id->0,
            }),
            _ => false,
        },
        RemoveStage::DeletingRecord => if d.domain_type == DomainType::Tunnel
            && d.tunnel_id is Some {
            t == (RemoveDomainFlow { stage: RemoveStage::RemovingIngress, ..s }) && a == (
            DomainChangeAction::RemoveTunnelIngress { tunnel_id: d.tunnel_id->0, domain: d.domain })
        } else {
            remove_route_phase(s, t, a)
        },
        RemoveStage::RemovingIngress => remove_route_phase(s, t, a),
        RemoveStage::RemovingRoute => t == (RemoveDomainFlow {
            stage: RemoveStage::DeletingDomain,
            ..s
        }) && a == (DomainChangeAction::DeleteDomain { id: d.id }),
        RemoveStage::DeletingDomain => match e {
            DomainChangeEvent::Step(r) => t.stage == RemoveStage::Finished && ends(a, r),
            _ => false,
        },
        RemoveStage::Finished => false,
    }
}

impl RemoveDomainFlow {
    /// Past the lookup, the flow holds the domain, and it belongs to the stack.
    pub open spec fn wf(self) -> bool {
        match self.stage {
            RemoveStage::Finding => self.record is None,
            RemoveStage::Finished => true,
            _ => {
                &&& self.record is Some
                &&& self.record->0.stack_id@ == self.stack_id@
                &&& (self.stage == RemoveStage::FindingTeam || self.stage
                    == RemoveStage::OpeningProvider || self.stage == RemoveStage::DeletingRecord
                    || self.stage == RemoveStage::RemovingIngress ==> self.record->0.dns_record_id is Some)
                &&& (self.stage == RemoveStage::RemovingRoute ==> self.record->0.domain_type
                    == DomainType::Caddy)
            },
        }
    }
}

// ---------------------------------------------------------------- DNS update

/// Where a DNS update stands.
#[derive(Debug, Clone, Copy, PartialEq, Eq, Structural)]
pub enum UpdateDnsStage {
    Finding,
    FindingTeam,
    OpeningProvider,
    Updating,
    Finished,
}

/// An update of the DNS record of `domain` on behalf of stack `stack_id`.
pub struct UpdateDnsFlow {
    pub stack_id: String,
    pub domain: String,
    pub record_type: String,
    pub content: String,
    pub proxied: bool,
    pub record: Option<Domain>,
    pub stage: UpdateDnsStage,
}

/// The message of a DNS update of a domain without a managed record.
pub open spec fn unmanaged_message() -> Seq<char> {
    "Domain does not have a managed DNS record"@
}

/// Which outcome each stage of a DNS update waits for.
pub open spec fn update_dns_accepts(stage: UpdateDnsStage, e: DomainChangeEvent) -> bool {
    match stage {
        UpdateDnsStage::Finding => e is Found,
        UpdateDnsStage::FindingTeam => e is Team,
        UpdateDnsStage::OpeningProvider => e is Step,
        UpdateDnsStage::Updating => e is Step,
        UpdateDnsStage::Finished => false,
    }
}

/// One step of a DNS update: only a domain with a managed record can be
/// updated, through the provider of the stack's team; any failure ends it.
pub open spec fn update_dns_next(
    s: UpdateDnsFlow,
    e: DomainChangeEvent,
    t: UpdateDnsFlow,
    a: DomainChangeAction,
) -> bool {
    let d = s.record->0;
    match s.stage {
        UpdateDnsStage::Finding => match e {
            DomainChangeEvent::Found(found) => if owned(found, s.stack_id@) {
                match found->Ok_0->0.dns_record_id {
                    Some(_) => t == (UpdateDnsFlow {
                        stage: UpdateDnsStage::FindingTeam,
                        record: Some(found->Ok_0->0),
                        ..s
                    }) && a == (DomainChangeAction::FindStackTeam { stack_id: s.stack_id }),
                    None => t.stage == UpdateDnsStage::Finished && (a matches DomainChangeAction::Finish(
                        Err(AppError::Validation(m)),
                    ) && m@ == unmanaged_message()),
                }
            } else {
                t.stage == UpdateDnsStage::Finished && ends_refused(found, s.stack_id@, a)
            },
            _ => false,
        },
        UpdateDnsStage::FindingTeam => match e {
            DomainChangeEvent::Team(Err(err)) => t.stage == UpdateDnsStage::Finished && ends(
                a,
                Err(err),
            ),
            DomainChangeEvent::Team(Ok(team)) => t == (UpdateDnsFlow {
                stage: UpdateDnsStage::OpeningProvider,
                ..s
            }) && a == (DomainChangeAction::OpenDnsProvider { team_id: team, provider: d.provider }),
            _ => false,
        },
        UpdateDnsStage::OpeningProvider => match e {
            DomainChangeEvent::Step(Err(err)) => t.stage == UpdateDnsStage::Finished && ends(
                a,
                Err(err),
            ),
            DomainChangeEvent::Step(Ok(())) => t == (UpdateDnsFlow {
                stage: UpdateDnsStage::Updating,
                ..s
            }) && a == (DomainChangeAction::UpdateDnsRecord {
                domain: s.domain,
                record_id: d.dns_record_id->0,
                record_type: s.record_type,
                content: s.content,
                proxied: s.proxied,
            }),
            _ => false,
        },
        UpdateDnsStage::Updating => match e {
            DomainChangeEvent::Step(r) => t.stage == UpdateDnsStage::Finished && ends(a, r),
            _ => false,
        },
        UpdateDnsStage::Finished => false,
    }
}

impl UpdateDnsFlow {
    /// Past the lookup, the flow holds the domain, it belongs to the stack and
    /// it has a managed DNS record.
    pub open spec fn wf(self) -> bool {
        match self.stage {
            UpdateDnsStage::Finding => self.record is None,
            UpdateDnsStage::Finished => true,
            _ => {
                &&& self.record is Some
                &&& self.record->0.stack_id@ == self.stack_id@
                &&& self.record->0.dns_record_id is Some
            },
        }
    }
}

// ---------------------------------------------------------------- branding

/// Where a branding switch stands.
#[derive(Debug, Clone, Copy, PartialEq, Eq, Structural)]
pub enum BrandingStage {
    Finding,
    Updating,
    ListingContainers,
    AddingRoute,
    Finished,
}

/// A switch of the branding of `domain` on behalf of stack `stack_id`.
pub struct BrandingFlow {
    pub stack_id: String,
    pub domain: String,
    pub show_branding: bool,
    pub record: Option<Domain>,
    pub stage: BrandingStage,
}

/// Which outcome each stage of a branding switch waits for.
pub open spec fn branding_accepts(stage: BrandingStage, e: DomainChangeEvent) -> bool {
    match stage {
        BrandingStage::Finding => e is Found,
        BrandingStage::Updating => e is Step,
        BrandingStage::ListingContainers => e is Containers,
        BrandingStage::AddingRoute => e is Step,
        BrandingStage::Finished => false,
    }
}

/// One step of a branding switch: store the choice, then, for a Caddy
/// domain, re-add its proxy route with it; any failure ends it.
pub open spec fn branding_next(
    s: BrandingFlow,
    e: DomainChangeEvent,
    t: BrandingFlow,
    a: DomainChangeAction,
) -> bool {
    let d = s.record->0;
    match s.stage {
        BrandingStage::Finding => match e {
            DomainChangeEvent::Found(found) => if owned(found, s.stack_id@) {
                t == (BrandingFlow {
                    stage: BrandingStage::Updating,
                    record: Some(found->Ok_0->0),
                    ..s
                }) && a == (DomainChangeAction::UpdateBranding {
                    domain: s.domain,
                    show_branding: s.show_branding,
                })
            } else {
                t.stage == BrandingStage::Finished && ends_refused(found, s.stack_id@, a)
            },
            _ => false,
        },
        BrandingStage::Updating => match e {
            DomainChangeEvent::Step(Err(err)) => t.stage == BrandingStage::Finished && ends(
                a,
                Err(err),
            ),
            DomainChangeEvent::Step(Ok(())) => match d.domain_type {
                DomainType::Caddy => t == (BrandingFlow {
                    stage: BrandingStage::ListingContainers,
                    ..s
                }) && a == DomainChangeAction::ListContainers,
                DomainType::Tunnel => t.stage == BrandingStage::Finished && ends(a, Ok(())),
            },
            _ => false,
        },
        BrandingStage::ListingContainers => match e {
            DomainChangeEvent::Containers(r) => {
                &&& t == (BrandingFlow { stage: BrandingStage::AddingRoute, ..s })
                &&& a matches DomainChangeAction::AddRoute { domain, upstream, show_branding }
                &&& domain == s.domain
                &&& upstream@ == upstream_address(
                    upstream_host(d.container_name@, r),
                    d.container_port,
                )
                &&& show_branding == s.show_branding
            },
            _ => false,
        },
        BrandingStage::AddingRoute => match e {
            DomainChangeEvent::Step(r) => t.stage == BrandingStage::Finished && ends(a, r),
            _ => false,
        },
        BrandingStage::Finished => false,
    }
}

impl BrandingFlow {
    /// Past the lookup, the flow holds the domain and it belongs to the stack.
    pub open spec fn wf(self) -> bool {
        match self.stage {
            BrandingStage::Finding => self.record is None,
            BrandingStage::Finished => true,
            _ => {
                &&& self.record is Some
                &&& self.record->0.stack_id@ == self.stack_id@
            },
        }
    }
}

// ---------------------------------------------------------------- steps

impl RemoveDomainFlow {
    fn route_phase(self) -> (r: (RemoveDomainFlow, DomainChangeAction))
        requires
            self.record is Some,
        ensures
            remove_route_phase(self, r.0, r.1),
    {
        let (domain_type, domain, id) = match &self.record {
            Some(d) => (d.domain_type, d.domain.clone(), d.id.clone()),
            None => {
                proof {
                    assert(false);
                }
                (DomainType::Caddy, "".to_owned(), "".to_owned())
            },
        };
        match domain_type {
            DomainType::Caddy => (
                RemoveDomainFlow { stage: RemoveStage::RemovingRoute, ..self },
                DomainChangeAction::RemoveRoute { domain },
            ),
            DomainType::Tunnel => (
                RemoveDomainFlow { stage: RemoveStage::DeletingDomain, ..self },
                DomainChangeAction::DeleteDomain { id },
            ),
        }
    }

    /// Whether the flow waits for an outcome like `e`.
    pub fn accepts_event(&self, e: &DomainChangeEvent) -> (r: bool)
        ensures
            r == remove_accepts(self.stage, *e),
    {
        match self.stage {
            RemoveStage::Finding => matches!(e, DomainChangeEvent::Found(_)),
            RemoveStage::FindingTeam => matches!(e, DomainChangeEvent::Team(_)),
            RemoveStage::OpeningProvider => matches!(e, DomainChangeEvent::Step(_)),
            RemoveStage::DeletingRecord => matches!(e, DomainChangeEvent::Ignored),
            RemoveStage::RemovingIngress => matches!(e, DomainChangeEvent::Ignored),
            RemoveStage::RemovingRoute => matches!(e, DomainChangeEvent::Ignored),
            RemoveStage::DeletingDomain => matches!(e, DomainChangeEvent::Step(_)),
            RemoveStage::Finished => false,
        }
    }

    /// Takes the outcome `e` of the last action and gives the next flow and
    /// action.
    pub fn step(self, e: DomainChangeEvent) -> (r: (RemoveDomainFlow, DomainChangeAction))
        requires
            self.wf(),
            remove_accepts(self.stage, e),
        ensures
            remove_next(self, e, r.0, r.1),
    {
        match self.stage {
            RemoveStage::Finding => match e {
                DomainChangeEvent::Found(found) => {
                    match check_access(found, self.stack_id.as_str()) {
                        Ok(d) => {
                            let has_record = d.dns_record_id.is_some();
                            let flow = RemoveDomainFlow { record: Some(d), ..self };
                            if has_record {
                                let stack_id = flow.stack_id.clone();
                                (
                                    RemoveDomainFlow { stage: RemoveStage::FindingTeam, ..flow },
                                    DomainChangeAction::FindStackTeam { stack_id },
                                )
                            } else {
                                flow.route_phase()
                            }
                        },
                        Err(err) => (
                            RemoveDomainFlow { stage: RemoveStage::Finished, ..self },
                            DomainChangeAction::Finish(Err(err)),
                        ),
                    }
                },
                _ => {
                    proof {
                        assert(false);
                    }
                    (self, DomainChangeAction::ListContainers)
                },
            },
            RemoveStage::FindingTeam => match e {
                DomainChangeEvent::Team(Err(err)) => (
                    RemoveDomainFlow { stage: RemoveStage::Finished, ..self },
                    DomainChangeAction::Finish(Err(err)),
                ),
                DomainChangeEvent::Team(Ok(team)) => {
                    let provider = match &self.record {
                        Some(d) => d.provider,
                        None => DomainProvider::Custom,
                    };
                    (
                        RemoveDomainFlow { stage: RemoveStage::OpeningProvider, ..self },
                        DomainChangeAction::OpenDnsProvider { team_id: team, provider },
                    )
                },
                _ => {
                    proof {
                        assert(false);
                    }
                    (self, DomainChangeAction::ListContainers)
                },
            },
            RemoveStage::OpeningProvider => match e {
                DomainChangeEvent::Step(Err(_)) => self.route_phase(),
                DomainChangeEvent::Step(Ok(())) => {
                    let (domain, record_id) = match &self.record {
                        Some(d) => (
                            d.domain.clone(),
                            match &d.dns_record_id {
                                Some(rid) => rid.clone(),
                                None => "".to_owned(),
                            },
                        ),
                        None => ("".to_owned(), "".to_owned()),
                    };
                    (
                        RemoveDomainFlow { stage: RemoveStage::DeletingRecord, ..self },
                        DomainChangeAction::DeleteDnsRecord { domain, record_id },
                    )
                },
                _ => {
                    proof {
                        assert(false);
                    }
                    (self, DomainChangeAction::ListContainers)
                },
            },
            RemoveStage::DeletingRecord => {
                let ingress = match &self.record {
                    Some(d) => match (d.domain_type, &d.tunnel_id) {
                        (DomainType::Tunnel, Some(tid)) => Some((tid.clone(), d.domain.clone())),
                        _ => None,
                    },
                    None => None,
                };
                match ingress {
                    Some((tunnel_id, domain)) => (
                        RemoveDomainFlow { stage: RemoveStage::RemovingIngress, ..self },
                        DomainChangeAction::RemoveTunnelIngress { tunnel_id, domain },
                    ),
                    None => self.route_phase(),
                }
            },
            RemoveStage::RemovingIngress => self.route_phase(),
            RemoveStage::RemovingRoute => {
                let id = match &self.record {
                    Some(d) => d.id.clone(),
                    None => "".to_owned(),
                };
                (
                    RemoveDomainFlow { stage: RemoveStage::DeletingDomain, ..self },
                    DomainChangeAction::DeleteDomain { id },
                )
            },
            RemoveStage::DeletingDomain => match e {
                DomainChangeEvent::Step(r) => (
                    RemoveDomainFlow { stage: RemoveStage::Finished, ..self },
                    DomainChangeAction::Finish(r),
                ),
                _ => {
                    proof {
                        assert(false);
                    }
                    (self, DomainChangeAction::ListContainers)
                },
            },
            RemoveStage::Finished => {
                proof {
                    assert(false);
                }
                (self, DomainChangeAction::ListContainers)
            },
        }
    }
}

impl UpdateDnsFlow {
    /// Whether the flow waits for an outcome like `e`.
    pub fn accepts_event(&self, e: &DomainChangeEvent) -> (r: bool)
        ensures
            r == update_dns_accepts(self.stage, *e),
    {
        match self.stage {
            UpdateDnsStage::Finding => matches!(e, DomainChangeEvent::Found(_)),
            UpdateDnsStage::FindingTeam => matches!(e, DomainChangeEvent::Team(_)),
            UpdateDnsStage::OpeningProvider => matches!(e, DomainChangeEvent::Step(_)),
            UpdateDnsStage::Updating => matches!(e, DomainChangeEvent::Step(_)),
            UpdateDnsStage::Finished => false,
        }
    }

    /// Takes the outcome `e` of the last action and gives the next flow and
    /// action.
    pub fn step(self, e: DomainChangeEvent) -> (r: (UpdateDnsFlow, DomainChangeAction))
        requires
            self.wf(),
            update_dns_accepts(self.stage, e),
        ensures
            update_dns_next(self, e, r.0, r.1),
    {
        match self.stage {
            UpdateDnsStage::Finding => match e {
                DomainChangeEvent::Found(found) => match check_access(found, self.stack_id.as_str()) {
                    Ok(d) => {
                        if d.dns_record_id.is_some() {
                            let stack_id = self.stack_id.clone();
                            (
                                UpdateDnsFlow {
                                    stage: UpdateDnsStage::FindingTeam,
                                    record: Some(d),
                                    ..self
                                },
                                DomainChangeAction::FindStackTeam { stack_id },
                            )
                        } else {
                            (
                                UpdateDnsFlow { stage: UpdateDnsStage::Finished, ..self },
                                DomainChangeAction::Finish(
                                    Err(
                                        AppError::Validation(
                                            "Domain does not have a managed DNS record".to_owned(),
                                        ),
                                    ),
                                ),
                            )
                        }
                    },
                    Err(err) => (
                        UpdateDnsFlow { stage: UpdateDnsStage::Finished, ..self },
                        DomainChangeAction::Finish(Err(err)),
                    ),
                },
                _ => {
                    proof {
                        assert(false);
                    }
                    (self, DomainChangeAction::ListContainers)
                },
            },
            UpdateDnsStage::FindingTeam => match e {
                DomainChangeEvent::Team(Err(err)) => (
                    UpdateDnsFlow { stage: UpdateDnsStage::Finished, ..self },
                    DomainChangeAction::Finish(Err(err)),
                ),
                DomainChangeEvent::Team(Ok(team)) => {
                    let provider = match &self.record {
                        Some(d) => d.provider,
                        None => DomainProvider::Custom,
                    };
                    (
                        UpdateDnsFlow { stage: UpdateDnsStage::OpeningProvider, ..self },
                        DomainChangeAction::OpenDnsProvider { team_id: team, provider },
                    )
                },
                _ => {
                    proof {
                        assert(false);
                    }
                    (self, DomainChangeAction::ListContainers)
                },
            },
            UpdateDnsStage::OpeningProvider => match e {
                DomainChangeEvent::Step(Err(err)) => (
                    UpdateDnsFlow { stage: UpdateDnsStage::Finished, ..self },
                    DomainChangeAction::Finish(Err(err)),
                ),
                DomainChangeEvent::Step(Ok(())) => {
                    let record_id = match &self.record {
                        Some(d) => match &d.dns_record_id {
                            Some(rid) => rid.clone(),
                            None => "".to_owned(),
                        },
                        None => "".to_owned(),
                    };
                    let a = DomainChangeAction::UpdateDnsRecord {
                        domain: self.domain.clone(),
                        record_id,
                        record_type: self.record_type.clone(),
                        content: self.content.clone(),
                        proxied: self.proxied,
                    };
                    (UpdateDnsFlow { stage: UpdateDnsStage::Updating, ..self }, a)
                },
                _ => {
                    proof {
                        assert(false);
                    }
                    (self, DomainChangeAction::ListContainers)
                },
            },
            UpdateDnsStage::Updating => match e {
                DomainChangeEvent::Step(r) => (
                    UpdateDnsFlow { stage: UpdateDnsStage::Finished, ..self },
                    DomainChangeAction::Finish(r),
                ),
                _ => {
                    proof {
                        assert(false);
                    }
                    (self, DomainChangeAction::ListContainers)
                },
            },
            UpdateDnsStage::Finished => {
                proof {
                    assert(false);
                }
                (self, DomainChangeAction::ListContainers)
            },
        }
    }
}

impl BrandingFlow {
    /// Whether the flow waits for an outcome like `e`.
    pub fn accepts_event(&self, e: &DomainChangeEvent) -> (r: bool)
        ensures
            r == branding_accepts(self.stage, *e),
    {
        match self.stage {
            BrandingStage::Finding => matches!(e, DomainChangeEvent::Found(_)),
            BrandingStage::Updating => matches!(e, DomainChangeEvent::Step(_)),
            BrandingStage::ListingContainers => matches!(e, DomainChangeEvent::Containers(_)),
            BrandingStage::AddingRoute => matches!(e, DomainChangeEvent::Step(_)),
            BrandingStage::Finished => false,
        }
    }

    /// Takes the outcome `e` of the last action and gives the next flow and
    /// action.
    pub fn step(self, e: DomainChangeEvent) -> (r: (BrandingFlow, DomainChangeAction))
        requires
            self.wf(),
            branding_accepts(self.stage, e),
        ensures
            branding_next(self, e, r.0, r.1),
    {
        match self.stage {
            BrandingStage::Finding => match e {
                DomainChangeEvent::Found(found) => match check_access(found, self.stack_id.as_str()) {
                    Ok(d) => {
                        let a = DomainChangeAction::UpdateBranding {
                            domain: self.domain.clone(),
                            show_branding: self.show_branding,
                        };
                        (BrandingFlow { stage: BrandingStage::Updating, record: Some(d), ..self }, a)
                    },
                    Err(err) => (
                        BrandingFlow { stage: BrandingStage::Finished, ..self },
                        DomainChangeAction::Finish(Err(err)),
                    ),
                },
                _ => {
                    proof {
                        assert(false);
                    }
                    (self, DomainChangeAction::ListContainers)
                },
            },
            BrandingStage::Updating => match e {
                DomainChangeEvent::Step(Err(err)) => (
                    BrandingFlow { stage: BrandingStage::Finished, ..self },
                    DomainChangeAction::Finish(Err(err)),
                ),
                DomainChangeEvent::Step(Ok(())) => {
                    let caddy = match &self.record {
                        Some(d) => d.domain_type == DomainType::Caddy,
                        None => false,
                    };
                    if caddy {
                        (
                            BrandingFlow { stage: BrandingStage::ListingContainers, ..self },
                            DomainChangeAction::ListContainers,
                        )
                    } else {
                        (
                            BrandingFlow { stage: BrandingStage::Finished, ..self },
                            DomainChangeAction::Finish(Ok(())),
                        )
                    }
                },
                _ => {
                    proof {
                        assert(false);
                    }
                    (self, DomainChangeAction::ListContainers)
                },
            },
            BrandingStage::ListingContainers => match e {
                DomainChangeEvent::Containers(r) => {
                    let upstream = match &self.record {
                        Some(d) => {
                            let host = resolve_upstream(d.container_name.as_str(), &r);
                            let port = decimal_string(d.container_port as i64);
                            concat3(host.as_str(), ":", port.as_str())
                        },
                        None => "".to_owned(),
                    };
                    let a = DomainChangeAction::AddRoute {
                        domain: self.domain.clone(),
                        upstream,
                        show_branding: self.show_branding,
                    };
                    (BrandingFlow { stage: BrandingStage::AddingRoute, ..self }, a)
                },
                _ => {
                    proof {
                        assert(false);
                    }
                    (self, DomainChangeAction::ListContainers)
                },
            },
            BrandingStage::AddingRoute => match e {
                DomainChangeEvent::Step(r) => (
                    BrandingFlow { stage: BrandingStage::Finished, ..self },
                    DomainChangeAction::Finish(r),
                ),
                _ => {
                    proof {
                        assert(false);
                    }
                    (self, DomainChangeAction::ListContainers)
                },
            },
            BrandingStage::Finished => {
                proof {
                    assert(false);
                }
                (self, DomainChangeAction::ListContainers)
            },
        }
    }
}

impl DomainUsecase {
    /// Starts removing `domain` on behalf of stack `stack_id`.
    pub fn remove_domain(&self, stack_id: &str, domain: &str) -> (r: (
        RemoveDomainFlow,
        DomainChangeAction,
    ))
        ensures
            r.0.stack_id@ == stack_id@,
            r.0.domain@ == domain@,
            r.0.stage == RemoveStage::Finding,
            r.0.wf(),
            r.1 == (DomainChangeAction::FindDomain { domain: r.0.domain }),
    {
        let flow = RemoveDomainFlow {
            stack_id: stack_id.to_owned(),
            domain: domain.to_owned(),
            record: None,
            stage: RemoveStage::Finding,
        };
        let d = flow.domain.clone();
        (flow, DomainChangeAction::FindDomain { domain: d })
    }

    /// Starts updating the DNS record of `domain` on behalf of stack
    /// `stack_id` to a record of type `record_type` with `content`.
    pub fn update_domain_dns(
        &self,
        stack_id: &str,
        domain: &str,
        record_type: &str,
        content: &str,
        proxied: bool,
    ) -> (r: (UpdateDnsFlow, DomainChangeAction))
        ensures
            r.0.stack_id@ == stack_id@,
            r.0.domain@ == domain@,
            r.0.record_type@ == record_type@,
            r.0.content@ == content@,
            r.0.proxied == proxied,
            r.0.stage == UpdateDnsStage::Finding,
            r.0.wf(),
            r.1 == (DomainChangeAction::FindDomain { domain: r.0.domain }),
    {
        let flow = UpdateDnsFlow {
            stack_id: stack_id.to_owned(),
            domain: domain.to_owned(),
            record_type: record_type.to_owned(),
            content: content.to_owned(),
            proxied,
            record: None,
            stage: UpdateDnsStage::Finding,
        };
        let d = flow.domain.clone();
        (flow, DomainChangeAction::FindDomain { domain: d })
    }

    /// Starts switching the branding of `domain` on behalf of stack
    /// `stack_id`.
    pub fn toggle_branding(&self, stack_id: &str, domain: &str, show_branding: bool) -> (r: (
        BrandingFlow,
        DomainChangeAction,
    ))
        ensures
            r.0.stack_id@ == stack_id@,
            r.0.domain@ == domain@,
            r.0.show_branding == show_branding,
            r.0.stage == BrandingStage::Finding,
            r.0.wf(),
            r.1 == (DomainChangeAction::FindDomain { domain: r.0.domain }),
    {
        let flow = BrandingFlow {
            stack_id: stack_id.to_owned(),
            domain: domain.to_owned(),
            show_branding,
            record: None,
            stage: BrandingStage::Finding,
        };
        let d = flow.domain.clone();
        (flow, DomainChangeAction::FindDomain { domain: d })
    }
}

// ---------------------------------------------------------------- laws

/// Whether the action changes the domain, its DNS, its tunnel or its route.
pub open spec fn is_change(a: DomainChangeAction) -> bool {
    ||| a is DeleteDnsRecord
    ||| a is RemoveTunnelIngress
    ||| a is RemoveRoute
    ||| a is DeleteDomain
    ||| a is UpdateDnsRecord
    ||| a is UpdateBranding
    ||| a is AddRoute
}

/// Every step of a removal keeps its invariant, and a removal changes
/// nothing of a domain that does not belong to the stack.
pub proof fn law_remove_changes_only_own_domain(
    s: RemoveDomainFlow,
    e: DomainChangeEvent,
    t: RemoveDomainFlow,
    a: DomainChangeAction,
)
    requires
        s.wf(),
        remove_accepts(s.stage, e),
        remove_next(s, e, t, a),
    ensures
        t.wf(),
        is_change(a) ==> t.record is Some && t.record->0.stack_id@ == s.stack_id@,
{
}

/// Every step of a DNS update keeps its invariant, and it updates only a
/// managed record of a domain of the stack.
pub proof fn law_dns_update_changes_only_own_domain(
    s: UpdateDnsFlow,
    e: DomainChangeEvent,
    t: UpdateDnsFlow,
    a: DomainChangeAction,
)
    requires
        s.wf(),
        update_dns_accepts(s.stage, e),
        update_dns_next(s, e, t, a),
    ensures
        t.wf(),
        is_change(a) ==> t.record is Some && t.record->0.stack_id@ == s.stack_id@
            && t.record->0.dns_record_id is Some,
{
}

/// Every step of a branding switch keeps its invariant, and it changes only
/// a domain of the stack.
pub proof fn law_branding_changes_only_own_domain(
    s: BrandingFlow,
    e: DomainChangeEvent,
    t: BrandingFlow,
    a: DomainChangeAction,
)
    requires
        s.wf(),
        branding_accepts(s.stage, e),
        branding_next(s, e, t, a),
    ensures
        t.wf(),
        is_change(a) ==> t.record is Some && t.record->0.stack_id@ == s.stack_id@,
{
}

/// The answer to a change of a domain that the stack does not own: the
/// lookup's error, "Domain not found", or a permission error.
pub open spec fn refused_as_promised(found: Result<Option<Domain>, AppError>, a: DomainChangeAction) -> bool {
    match found {
        Err(e) => a == DomainChangeAction::Finish(Err(e)),
        Ok(None) => a matches DomainChangeAction::Finish(Err(AppError::NotFound(m))) && m@
            == not_found_message(),
        Ok(Some(_)) => a matches DomainChangeAction::Finish(Err(AppError::Forbidden(m))) && m@
            == forbidden_message(),
    }
}

/// A change of a domain that is not stored ends with "Domain not found", and
/// of a domain of another stack with a permission error, whatever the change.
pub proof fn law_unowned_domain_is_refused(
    found: Result<Option<Domain>, AppError>,
    remove: RemoveDomainFlow,
    update: UpdateDnsFlow,
    branding: BrandingFlow,
    tr: RemoveDomainFlow,
    ar: DomainChangeAction,
    tu: UpdateDnsFlow,
    au: DomainChangeAction,
    tb: BrandingFlow,
    ab: DomainChangeAction,
)
    requires
        remove.stage == RemoveStage::Finding,
        update.stage == UpdateDnsStage::Finding,
        branding.stage == BrandingStage::Finding,
        remove.stack_id@ == update.stack_id@,
        remove.stack_id@ == branding.stack_id@,
        !owned(found, remove.stack_id@),
        remove_next(remove, DomainChangeEvent::Found(found), tr, ar),
        update_dns_next(update, DomainChangeEvent::Found(found), tu, au),
        branding_next(branding, DomainChangeEvent::Found(found), tb, ab),
    ensures
        refused_as_promised(found, ar),
        refused_as_promised(found, au),
        refused_as_promised(found, ab),
{
}

} // verus!
