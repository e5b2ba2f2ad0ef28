//! Attaching and detaching the domains of a stack on the server: a domain is
//! stored only while the proxy routes it, and a stack's automatic subdomain
//! is created once.
use vstd::prelude::*;
use crate::error::AppError;
use crate::ids::{new_uuid, uuid_shaped};
use crate::server::models::domain::Domain;
use crate::server::services::domain::{stack_upstream_of, DomainService};
use crate::slug::slug_of;
use crate::text::concat3;

verus! {

/// Which operation runs.
#[derive(Debug, Clone, Copy, PartialEq, Eq, Structural)]
pub enum DomainOp {
    Add,
    Remove,
    Subdomain,
}

/// Where the operation stands.
#[derive(Debug, Clone, Copy, PartialEq, Eq, Structural)]
pub enum DomainStage {
    Naming,
    Listing,
    Checking,
    Inserting,
    Routing,
    RollingBack,
    Reading,
    Unrouting,
    Deleting,
    Finished,
}

/// An operation on domain `domain` of stack `stack_id`, routed to
/// `upstream`; `id` is the stored record, `failure` the routing error being
/// rolled back.
#[derive(Debug)]
pub struct DomainFlow {
    pub op: DomainOp,
    pub stack_id: String,
    pub domain: String,
    pub upstream: String,
    pub id: String,
    pub failure: Option<AppError>,
    pub stage: DomainStage,
}

/// The outcome of the last action.
#[derive(Debug)]
pub enum DomainEvent {
    /// The name of the stack (none when not stored).
    StackName(Result<Option<String>, AppError>),
    /// The domains of the stack.
    Domains(Result<Vec<Domain>, AppError>),
    /// The stored domain looked up (none when not stored).
    Found(Result<Option<Domain>, AppError>),
    /// The stored domain read back.
    Fetched(Result<Domain, AppError>),
    Step(Result<(), AppError>),
}

/// What the caller does next.
#[derive(Debug)]
pub enum DomainAction {
    GetStackName { stack_id: String },
    ListDomains { stack_id: String },
    /// Look up `domain`, within stack `stack_id` when one is named.
    FindDomain { domain: String, stack_id: Option<String> },
    /// Store domain `domain` of `stack_id` with id `id`, with TLS, not verified.
    InsertDomain { id: String, stack_id: String, domain: String },
    AddRoute { domain: String, upstream: String },
    /// Best effort.
    RemoveRoute { domain: String },
    DeleteDomain { id: String },
    ReadDomain { id: String },
    Finish(Result<Option<Domain>, AppError>),
}

/// The message when a domain is taken.
pub open spec fn domain_taken(domain: Seq<char>) -> Seq<char> {
    "Domain '"@ + domain + "' already exists"@
}

/// Which outcome each stage waits for.
pub open spec fn domain_accepts(stage: DomainStage, e: DomainEvent) -> bool {
    match stage {
        DomainStage::Naming => e is StackName,
        DomainStage::Listing => e is Domains,
        DomainStage::Checking => e is Found,
        DomainStage::Reading => e is Fetched,
        DomainStage::Finished => false,
        _ => e is Step,
    }
}

/// The flow ends with `r`.
pub open spec fn domain_ends(t: DomainFlow, a: DomainAction, r: Result<Option<Domain>, AppError>) -> bool {
    t.stage == DomainStage::Finished && a == DomainAction::Finish(r)
}

/// Adding the domain: first it is looked up.
pub open spec fn adding(s: DomainFlow, t: DomainFlow, a: DomainAction) -> bool {
    t == (DomainFlow { stage: DomainStage::Checking, ..s }) && a == (DomainAction::FindDomain {
        domain: s.domain,
        stack_id: None,
    })
}

/// One step. Adding refuses a domain stored already, stores it under a
/// fresh id, routes it, and reads it back; when routing fails the record is
/// deleted again and the routing error given. Removing finds the domain
/// within the stack (not found otherwise), unroutes it (best effort) and
/// deletes it. The automatic subdomain of a stack routes to the stack name
/// on port 80 and is given back when the stack has it already, else added.
pub open spec fn domain_next(s: DomainFlow, e: DomainEvent, t: DomainFlow, a: DomainAction) -> bool {
    match (s.stage, e) {
        (DomainStage::Naming, DomainEvent::StackName(Err(err))) => domain_ends(t, a, Err(err)),
        (DomainStage::Naming, DomainEvent::StackName(Ok(None))) => t.stage == DomainStage::Finished
            && (a matches DomainAction::Finish(Err(AppError::NotFound(m))) && m@ == "Stack not found"@),
        (DomainStage::Naming, DomainEvent::StackName(Ok(Some(name)))) => t == (DomainFlow {
            upstream: t.upstream,
            stage: DomainStage::Listing,
            ..s
        }) && t.upstream@ == stack_upstream_of(name@) && a == (DomainAction::ListDomains {
            stack_id: s.stack_id,
        }),
        (DomainStage::Listing, DomainEvent::Domains(Ok(list))) => if exists|i: int|
            0 <= i < list@.len() && list@[i].domain@ == s.domain@ {
            let i = choose|i: int|
                0 <= i < list@.len() && list@[i].domain@ == s.domain@ && forall|j: int|
                    0 <= j < i ==> list@[j].domain@ != s.domain@;
            domain_ends(t, a, Ok(Some(list@[i])))
        } else {
            adding(s, t, a)
        },
        (DomainStage::Listing, DomainEvent::Domains(Err(_))) => adding(s, t, a),
        (DomainStage::Checking, DomainEvent::Found(Err(err))) => domain_ends(t, a, Err(err)),
        (DomainStage::Checking, DomainEvent::Found(Ok(found))) => if s.op == DomainOp::Remove {
            match found {
                None => t.stage == DomainStage::Finished && (a matches DomainAction::Finish(
                    Err(AppError::NotFound(m)),
                ) && m@ == "Domain not found"@),
                Some(d) => t == (DomainFlow { id: d.id, stage: DomainStage::Unrouting, ..s }) && a == (
                DomainAction::RemoveRoute { domain: d.domain }),
            }
        } else {
            match found {
                Some(_) => t.stage == DomainStage::Finished && (a matches DomainAction::Finish(
                    Err(AppError::Conflict(m)),
                ) && m@ == domain_taken(s.domain@)),
                None => t == (DomainFlow { id: t.id, stage: DomainStage::Inserting, ..s }) && uuid_shaped(
                    t.id@,
                ) && a == (DomainAction::InsertDomain {
                    id: t.id,
                    stack_id: s.stack_id,
                    domain: s.domain,
                }),
            }
        },
        (DomainStage::Inserting, DomainEvent::Step(Err(err))) => domain_ends(t, a, Err(err)),
        (DomainStage::Inserting, DomainEvent::Step(Ok(_))) => t == (DomainFlow {
            stage: DomainStage::Routing,
            ..s
        }) && a == (DomainAction::AddRoute { domain: s.domain, upstream: s.upstream }),
        (DomainStage::Routing, DomainEvent::Step(Err(err))) => t == (DomainFlow {
            failure: Some(err),
            stage: DomainStage::RollingBack,
            ..s
        }) && a == (DomainAction::DeleteDomain { id: s.id }),
        (DomainStage::Routing, DomainEvent::Step(Ok(_))) => t == (DomainFlow {
            stage: DomainStage::Reading,
            ..s
        }) && a == (DomainAction::ReadDomain { id: s.id }),
        (DomainStage::RollingBack, DomainEvent::Step(Err(err))) => domain_ends(t, a, Err(err)),
        (DomainStage::RollingBack, DomainEvent::Step(Ok(_))) => s.failure matches Some(f) && domain_ends(
            t,
            a,
            Err(f),
        ),
        (DomainStage::Reading, DomainEvent::Fetched(Err(err))) => domain_ends(t, a, Err(err)),
        (DomainStage::Reading, DomainEvent::Fetched(Ok(d))) => domain_ends(t, a, Ok(Some(d))),
        (DomainStage::Unrouting, DomainEvent::Step(_)) => t == (DomainFlow {
            stage: DomainStage::Deleting,
            ..s
        }) && a == (DomainAction::DeleteDomain { id: s.id }),
        (DomainStage::Deleting, DomainEvent::Step(Err(err))) => domain_ends(t, a, Err(err)),
        (DomainStage::Deleting, DomainEvent::Step(Ok(_))) => domain_ends(t, a, Ok(None)),
        _ => false,
    }
}

impl DomainFlow {
    /// A routing error is kept while it is rolled back.
    pub open spec fn wf(self) -> bool {
        self.stage == DomainStage::RollingBack ==> self.failure is Some
    }

    fn finish(self, r: Result<Option<Domain>, AppError>) -> (p: (DomainFlow, DomainAction))
        ensures
            domain_ends(p.0, p.1, r),
            p.0.wf(),
    {
        (DomainFlow { stage: DomainStage::Finished, ..self }, DomainAction::Finish(r))
    }

    fn add(self) -> (p: (DomainFlow, DomainAction))
        ensures
            adding(self, p.0, p.1),
            p.0.wf(),
    {
        let domain = self.domain.clone();
        (DomainFlow { stage: DomainStage::Checking, ..self }, DomainAction::FindDomain { domain, stack_id: None })
    }

    /// Whether the flow waits for an outcome like `e`.
    pub fn accepts_event(&self, e: &DomainEvent) -> (r: bool)
        ensures
            r == domain_accepts(self.stage, *e),
    {
        match self.stage {
            DomainStage::Naming => matches!(e, DomainEvent::StackName(_)),
            DomainStage::Listing => matches!(e, DomainEvent::Domains(_)),
            DomainStage::Checking => matches!(e, DomainEvent::Found(_)),
            DomainStage::Reading => matches!(e, DomainEvent::Fetched(_)),
            DomainStage::Finished => false,
            _ => matches!(e, DomainEvent::Step(_)),
        }
    }

    /// Takes the outcome `e` of the last action and gives the next flow and
    /// action.
    pub fn step(self, e: DomainEvent) -> (r: (DomainFlow, DomainAction))
        requires
            self.wf(),
            domain_accepts(self.stage, e),
        ensures
            domain_next(self, e, r.0, r.1),
            r.0.wf(),
    {
        proof {
            reveal_strlit("Stack not found");
            reveal_strlit("Domain not found");
        }
        match e {
            DomainEvent::StackName(Err(err)) => self.finish(Err(err)),
            DomainEvent::StackName(Ok(None)) => self.finish(Err(AppError::NotFound("Stack not found".to_owned()))),
            DomainEvent::StackName(Ok(Some(name))) => {
                let upstream = DomainService::stack_upstream(name.as_str());
                let stack_id = self.stack_id.clone();
                (DomainFlow { upstream, stage: DomainStage::Listing, ..self }, DomainAction::ListDomains { stack_id })
            },
            DomainEvent::Domains(Ok(list)) => match DomainService::find_existing_subdomain(&list, self.domain.as_str()) {
                Some(i) => {
                    proof {
                        let c = choose|k: int|
                            0 <= k < list@.len() && list@[k].domain@ == self.domain@ && forall|j: int|
                                0 <= j < k ==> list@[j].domain@ != self.domain@;
                        assert(0 <= i < list@.len() && list@[i as int].domain@ == self.domain@);
                        if c < i {
                            assert(list@[c].domain@ != self.domain@);
                        }
                        if c > i {
                            assert(list@[i as int].domain@ != self.domain@);
                        }
                    }
                    let mut list = list;
                    let d = list.remove(i);
                    self.finish(Ok(Some(d)))
                },
                None => self.add(),
            },
            DomainEvent::Domains(Err(_)) => self.add(),
            DomainEvent::Found(Err(err)) => self.finish(Err(err)),
            DomainEvent::Found(Ok(found)) => if self.op == DomainOp::Remove {
                match found {
                    None => self.finish(Err(AppError::NotFound("Domain not found".to_owned()))),
                    Some(d) => (
                        DomainFlow { id: d.id, stage: DomainStage::Unrouting, ..self },
                        DomainAction::RemoveRoute { domain: d.domain },
                    ),
                }
            } else {
                match found {
                    Some(_) => {
                        let m = concat3("Domain '", self.domain.as_str(), "' already exists");
                        self.finish(Err(AppError::Conflict(m)))
                    },
                    None => {
                        let id = new_uuid();
                        let a = DomainAction::InsertDomain {
                            id: id.clone(),
                            stack_id: self.stack_id.clone(),
                            domain: self.domain.clone(),
                        };
                        (DomainFlow { id, stage: DomainStage::Inserting, ..self }, a)
                    },
                }
            },
            DomainEvent::Fetched(Err(err)) => self.finish(Err(err)),
            DomainEvent::Fetched(Ok(d)) => self.finish(Ok(Some(d))),
            DomainEvent::Step(r) => match self.stage {
                DomainStage::Unrouting => {
                    let id = self.id.clone();
                    (DomainFlow { stage: DomainStage::Deleting, ..self }, DomainAction::DeleteDomain { id })
                },
                DomainStage::Routing => match r {
                    Err(err) => {
                        let id = self.id.clone();
                        (
                            DomainFlow { failure: Some(err), stage: DomainStage::RollingBack, ..self },
                            DomainAction::DeleteDomain { id },
                        )
                    },
                    Ok(_) => {
                        let id = self.id.clone();
                        (DomainFlow { stage: DomainStage::Reading, ..self }, DomainAction::ReadDomain { id })
                    },
                },
                _ => match r {
                    Err(err) => self.finish(Err(err)),
                    Ok(_) => match self.stage {
                        DomainStage::Inserting => {
                            let domain = self.domain.clone();
                            let upstream = self.upstream.clone();
                            (DomainFlow { stage: DomainStage::Routing, ..self }, DomainAction::AddRoute { domain, upstream })
                        },
                        DomainStage::RollingBack => {
                            let f = self.failure.unwrap();
                            (
                                DomainFlow {
                                    stack_id: self.stack_id,
                                    domain: self.domain,
                                    upstream: self.upstream,
                                    id: self.id,
                                    op: self.op,
                                    failure: None,
                                    stage: DomainStage::Finished,
                                },
                                DomainAction::Finish(Err(f)),
                            )
                        },
                        _ => self.finish(Ok(None)),
                    },
                },
            },
        }
    }
}

impl DomainService {
    fn start(op: DomainOp, stack_id: &str, domain: &str, upstream: &str, stage: DomainStage) -> (r: DomainFlow)
        requires
            stage != DomainStage::RollingBack,
        ensures
            r.op == op,
            r.stack_id@ == stack_id@,
            r.domain@ == domain@,
            r.upstream@ == upstream@,
            r.failure is None,
            r.stage == stage,
            r.wf(),
    {
        DomainFlow {
            op,
            stack_id: stack_id.to_owned(),
            domain: domain.to_owned(),
            upstream: upstream.to_owned(),
            id: String::new(),
            failure: None,
            stage,
        }
    }

    /// Starts adding `domain` to stack `stack_id`, routed to
    /// `container_upstream`: it is looked up first.
    pub fn add_domain(&self, stack_id: &str, domain: &str, container_upstream: &str) -> (r: (DomainFlow, DomainAction))
        ensures
            r.0.op == DomainOp::Add,
            r.0.stack_id@ == stack_id@,
            r.0.domain@ == domain@,
            r.0.upstream@ == container_upstream@,
            r.0.stage == DomainStage::Checking,
            r.0.wf(),
            r.1 matches DomainAction::FindDomain { domain: d, stack_id: None } && d@ == domain@,
    {
        Self::start(DomainOp::Add, stack_id, domain, container_upstream, DomainStage::Checking).add()
    }

    /// Starts removing `domain` from stack `stack_id`: it is looked up within
    /// the stack first.
    pub fn remove_domain(&self, stack_id: &str, domain: &str) -> (r: (DomainFlow, DomainAction))
        ensures
            r.0.op == DomainOp::Remove,
            r.0.stack_id@ == stack_id@,
            r.0.domain@ == domain@,
            r.0.stage == DomainStage::Checking,
            r.0.wf(),
            r.1 matches DomainAction::FindDomain { domain: d, stack_id: Some(s) } && d@ == domain@ && s@
                == stack_id@,
    {
        let flow = Self::start(DomainOp::Remove, stack_id, domain, "", DomainStage::Checking);
        let a = DomainAction::FindDomain { domain: domain.to_owned(), stack_id: Some(stack_id.to_owned()) };
        (flow, a)
    }

    /// Starts creating the automatic subdomain of stack `stack_id` named
    /// `stack_name` under `base_domain`: the stack is looked up first.
    pub fn create_stack_subdomain(&self, stack_id: &str, stack_name: &str, base_domain: &str) -> (r: (
        DomainFlow,
        DomainAction,
    ))
        ensures
            r.0.op == DomainOp::Subdomain,
            r.0.stack_id@ == stack_id@,
            r.0.domain@ == slug_of(stack_name@) + "."@ + base_domain@,
            r.0.stage == DomainStage::Naming,
            r.0.wf(),
            r.1 matches DomainAction::GetStackName { stack_id: s } && s@ == stack_id@,
    {
        let subdomain = Self::generate_subdomain(stack_name, base_domain);
        let flow = Self::start(DomainOp::Subdomain, stack_id, subdomain.as_str(), "", DomainStage::Naming);
        (flow, DomainAction::GetStackName { stack_id: stack_id.to_owned() })
    }
}

/// A domain stays stored only while the proxy routes it: when routing fails,
/// the record just stored is deleted before the routing error is given.
pub proof fn law_failed_routing_is_rolled_back(s: DomainFlow, e: DomainEvent, t: DomainFlow, a: DomainAction)
    requires
        s.wf(),
        domain_accepts(s.stage, e),
        domain_next(s, e, t, a),
        s.stage == DomainStage::Routing,
        e matches DomainEvent::Step(Err(_)),
    ensures
        a == (DomainAction::DeleteDomain { id: s.id }),
        t.failure == Some(e->Step_0->Err_0),
{
}

} // verus!
