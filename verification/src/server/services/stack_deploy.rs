//! Deploying the services of a compose stack on the server: creating a
//! stack, redeploying all of it or one service, and replacing its compose
//! file. Each service gets its stored environment, its image is pulled, the
//! containers it replaces are stopped and removed, and its container created.
use vstd::prelude::*;
use crate::backend::models::stack::Stack;
use crate::env::{env_views, merge_env, merged_env};
use crate::error::AppError;
use crate::ids::{generate_token, is_ascii_alphanumeric, new_uuid, now_rfc3339, token_length, uuid_shaped};
use crate::json::views;
use crate::naming::{any_name_is, has_name, service_container, service_container_of};
use crate::server::services::container::{ContainerInfo, CreateContainerRequest};
use crate::server::services::stack::{containers_of, service_matches, StackService};
use crate::backend::usecase::stack_build::copy_strings;
use crate::text::{concat3, str_eq};

verus! {

/// A service of a compose file and the container request it gives.
#[derive(Debug)]
pub struct ServiceRequest {
    pub name: String,
    pub request: CreateContainerRequest,
}

/// Which operation runs.
#[derive(Debug, Clone, Copy, PartialEq, Eq, Structural)]
pub enum StackDeployOp {
    Create,
    Redeploy,
    RedeployService,
    /// A service redeployment that reads the stored variables of the
    /// service's own name, tolerates unreadable variables, and starts the
    /// container named after the service once created.
    RedeployNamed,
    UpdateCompose,
}

/// Where the operation stands.
#[derive(Debug, Clone, Copy, PartialEq, Eq, Structural)]
pub enum StackDeployStage {
    Loading,
    Validating,
    Updating,
    MarkingDeploying,
    Parsing,
    Inserting,
    LoadingEnv,
    Pulling,
    Listing,
    Stopping,
    Removing,
    Creating,
    Locating,
    StartingOne,
    StartingAll,
    MarkingStopped,
    Reading,
    Finished,
}

/// An operation on stack `id` (named `name`, of user `user_id`, with compose
/// file `compose`): the services left after the current one, the current
/// service and its environment, and the containers it replaces, the one at
/// `m` being handled. `target` is the service asked for by name.
#[derive(Debug)]
pub struct StackDeployFlow {
    pub op: StackDeployOp,
    pub id: String,
    pub name: String,
    pub user_id: String,
    pub compose: String,
    pub target: String,
    pub pending: Vec<ServiceRequest>,
    pub current: Option<ServiceRequest>,
    pub env: Option<Vec<String>>,
    pub olds: Vec<String>,
    pub m: usize,
    pub stage: StackDeployStage,
}

/// The outcome of the last action.
#[derive(Debug)]
pub enum StackDeployEvent {
    /// The stack read (none when not stored).
    Stack(Result<Option<Stack>, AppError>),
    /// The services of the compose file.
    Services(Result<Vec<ServiceRequest>, AppError>),
    /// The variables stored for the container.
    Env(Result<Vec<(String, String)>, AppError>),
    /// All containers, stopped ones included.
    Containers(Result<Vec<ContainerInfo>, AppError>),
    /// The id of the container created.
    Created(Result<String, AppError>),
    Step(Result<(), AppError>),
}

/// What the caller does next.
#[derive(Debug)]
pub enum StackDeployAction {
    /// Read stack `id`, of `user_id` when one is named.
    GetStack { id: String, user_id: Option<String> },
    ParseCompose { content: String },
    InsertStack(Stack),
    UpdateCompose { id: String, content: String },
    UpdateStatus { id: String, status: String },
    LoadEnv { stack_id: String, container: String },
    PullImage { image: String },
    ListContainers,
    /// Best effort.
    StopContainer { id: String },
    /// Best effort, forcibly.
    RemoveContainer { id: String },
    CreateContainer(CreateContainerRequest),
    StartContainer { id: String },
    /// Start the stack as `start_stack` does.
    StartStack { id: String, user_id: String },
    /// The operation ends: the stack created, nothing for the others.
    Finish(Result<Option<Stack>, AppError>),
}

/// The message when the stack has no compose file.
pub open spec fn no_compose() -> Seq<char> {
    "Stack has no compose content"@
}

/// The message when a requested service is not in the compose file.
pub open spec fn missing_service(requested: Seq<char>) -> Seq<char> {
    "Service "@ + requested + " not found in stack"@
}

/// The views of an optional environment.
pub open spec fn opt_env(e: Option<Vec<String>>) -> Option<Seq<Seq<char>>> {
    match e {
        Some(v) => Some(env_views(v@)),
        None => None,
    }
}

/// The container name of the current service in the stack: the requested
/// name when one service was asked for, else the service's own.
pub open spec fn container_of(s: StackDeployFlow) -> Seq<char> {
    if s.op == StackDeployOp::RedeployService || s.op == StackDeployOp::RedeployNamed {
        s.target@
    } else {
        s.current.unwrap().name@
    }
}

/// Selects the containers named `n`.
pub open spec fn named(n: Seq<char>) -> spec_fn(ContainerInfo) -> bool {
    |c: ContainerInfo| has_name(c.names@, n)
}

/// Which outcome each stage waits for.
pub open spec fn deploy_accepts(stage: StackDeployStage, e: StackDeployEvent) -> bool {
    match stage {
        StackDeployStage::Loading | StackDeployStage::Reading => e is Stack,
        StackDeployStage::Validating | StackDeployStage::Parsing => e is Services,
        StackDeployStage::LoadingEnv => e is Env,
        StackDeployStage::Listing | StackDeployStage::Locating => e is Containers,
        StackDeployStage::Creating => e is Created,
        StackDeployStage::Finished => false,
        _ => e is Step,
    }
}

/// The flow is finished with `r`.
pub open spec fn ends(t: StackDeployFlow, a: StackDeployAction, r: Result<Option<Stack>, AppError>) -> bool {
    t.stage == StackDeployStage::Finished && a == StackDeployAction::Finish(r)
}

/// Going on with the next service, or with none left: a created stack is
/// marked stopped, a redeployed one started.
pub open spec fn service_at(s: StackDeployFlow, t: StackDeployFlow, a: StackDeployAction) -> bool {
    if s.pending@.len() > 0 {
        &&& t == (StackDeployFlow {
            pending: t.pending,
            current: Some(s.pending@[0]),
            stage: StackDeployStage::LoadingEnv,
            ..s
        })
        &&& t.pending@ == s.pending@.drop_first()
        &&& a matches StackDeployAction::LoadEnv { stack_id, container } && stack_id == s.id
            && container@ == container_of(t)
    } else if s.op == StackDeployOp::Create {
        t == (StackDeployFlow { stage: StackDeployStage::MarkingStopped, ..s }) && (a matches StackDeployAction::UpdateStatus {
            id,
            status,
        } && id == s.id && status@ == "stopped"@)
    } else {
        t == (StackDeployFlow { stage: StackDeployStage::StartingAll, ..s }) && a == (
        StackDeployAction::StartStack { id: s.id, user_id: s.user_id })
    }
}

/// Replacing container `m`, or with none left creating the current
/// service's container with its environment.
pub open spec fn old_at(s: StackDeployFlow, m: int, t: StackDeployFlow, a: StackDeployAction) -> bool {
    if m < s.olds@.len() {
        t == (StackDeployFlow { m: t.m, stage: StackDeployStage::Stopping, ..s }) && t.m == m && a == (
        StackDeployAction::StopContainer { id: s.olds@[m] })
    } else {
        &&& t == (StackDeployFlow {
            current: None,
            env: None,
            stage: StackDeployStage::Creating,
            ..s
        })
        &&& s.current matches Some(c) && a == StackDeployAction::CreateContainer(
            CreateContainerRequest { env: s.env, ..c.request },
        )
    }
}

/// The service at `i` is the first whose name matches the requested one.
pub open spec fn first_match(names: Seq<Seq<char>>, stack: Seq<char>, requested: Seq<char>, i: int) -> bool {
    &&& 0 <= i < names.len()
    &&& service_matches(names[i], stack, requested)
    &&& forall|j: int| 0 <= j < i ==> !service_matches(#[trigger] names[j], stack, requested)
}

/// The current service's environment: its own entries with the stored
/// variables `vars` set; then its image is pulled.
pub open spec fn env_loaded(
    s: StackDeployFlow,
    vars: Seq<(String, String)>,
    t: StackDeployFlow,
    a: StackDeployAction,
) -> bool {
    &&& s.current matches Some(c) && opt_env(t.env) == merged_env(opt_env(c.request.env), vars)
        && a == (StackDeployAction::PullImage { image: c.request.image })
    &&& t == (StackDeployFlow { env: t.env, stage: StackDeployStage::Pulling, ..s })
}

/// The stack record a creation inserts.
pub open spec fn inserted(st: Stack, s: StackDeployFlow) -> bool {
    &&& st.id == s.id
    &&& uuid_shaped(st.id@)
    &&& st.name == s.name
    &&& st.user_id == s.user_id
    &&& st.compose_content == Some(s.compose)
    &&& st.status@ == "creating"@
    &&& st.webhook_token matches Some(tok) && tok@.len() == token_length() && forall|i: int|
        0 <= i < tok@.len() ==> is_ascii_alphanumeric(#[trigger] tok@[i])
    &&& st.created_at == st.updated_at
}

/// One step. A creation parses the compose file first, then inserts the
/// stack as creating, deploys each service and marks the stack stopped, and
/// gives the stack read back. A redeployment reads the stack (not found
/// otherwise; a bad request without compose file), marks it deploying,
/// parses its compose file, deploys each service replacing its old container
/// and starts the stack. A service redeployment deploys only the requested
/// service (not found otherwise) and starts its new container. Replacing the
/// compose file validates the new one, stores it and redeploys. Every
/// failure ends the operation, except that stored variables that cannot be
/// read count as none (but for a single service) and stopping or removing an
/// old container is best effort.
pub open spec fn deploy_next(
    s: StackDeployFlow,
    e: StackDeployEvent,
    t: StackDeployFlow,
    a: StackDeployAction,
) -> bool {
    match (s.stage, e) {
        (StackDeployStage::Loading, StackDeployEvent::Stack(Err(err))) => ends(t, a, Err(err)),
        (StackDeployStage::Loading, StackDeployEvent::Stack(Ok(None))) => t.stage
            == StackDeployStage::Finished && (a matches StackDeployAction::Finish(
            Err(AppError::NotFound(m)),
        ) && m@ == "Stack not found"@),
        (StackDeployStage::Loading, StackDeployEvent::Stack(Ok(Some(st)))) => if s.op
            == StackDeployOp::UpdateCompose {
            t == (StackDeployFlow { stage: StackDeployStage::Validating, ..s }) && a == (
            StackDeployAction::ParseCompose { content: s.compose })
        } else {
            match st.compose_content {
                None => t.stage == StackDeployStage::Finished && (a matches StackDeployAction::Finish(
                    Err(AppError::BadRequest(m)),
                ) && m@ == no_compose()),
                Some(c) => if s.op == StackDeployOp::Redeploy {
                    t == (StackDeployFlow {
                        name: st.name,
                        user_id: st.user_id,
                        compose: c,
                        stage: StackDeployStage::MarkingDeploying,
                        ..s
                    }) && (a matches StackDeployAction::UpdateStatus { id, status } && id == s.id
                        && status@ == "deploying"@)
                } else {
                    t == (StackDeployFlow {
                        name: st.name,
                        compose: c,
                        stage: StackDeployStage::Parsing,
                        ..s
                    }) && a == (StackDeployAction::ParseCompose { content: c })
                },
            }
        },
        (StackDeployStage::Validating, StackDeployEvent::Services(Err(err))) => ends(t, a, Err(err)),
        (StackDeployStage::Validating, StackDeployEvent::Services(Ok(_))) => t == (StackDeployFlow {
            stage: StackDeployStage::Updating,
            ..s
        }) && a == (StackDeployAction::UpdateCompose { id: s.id, content: s.compose }),
        (StackDeployStage::Updating, StackDeployEvent::Step(Err(err))) => ends(t, a, Err(err)),
        (StackDeployStage::Updating, StackDeployEvent::Step(Ok(_))) => t == (StackDeployFlow {
            op: StackDeployOp::Redeploy,
            stage: StackDeployStage::Loading,
            ..s
        }) && a == (StackDeployAction::GetStack { id: s.id, user_id: None }),
        (StackDeployStage::MarkingDeploying, StackDeployEvent::Step(Err(err))) => ends(t, a, Err(err)),
        (StackDeployStage::MarkingDeploying, StackDeployEvent::Step(Ok(_))) => t == (StackDeployFlow {
            stage: StackDeployStage::Parsing,
            ..s
        }) && a == (StackDeployAction::ParseCompose { content: s.compose }),
        (StackDeployStage::Parsing, StackDeployEvent::Services(Err(err))) => ends(t, a, Err(err)),
        (StackDeployStage::Parsing, StackDeployEvent::Services(Ok(list))) => match s.op {
            StackDeployOp::Create => {
                &&& t.stage == StackDeployStage::Inserting
                &&& t.pending == list
                &&& t.op == s.op
                &&& t.name == s.name
                &&& t.user_id == s.user_id
                &&& t.compose == s.compose
                &&& a matches StackDeployAction::InsertStack(st) && inserted(st, t)
            },
            StackDeployOp::RedeployService => {
                let names = list@.map_values(|r: ServiceRequest| r.name@);
                if exists|i: int| first_match(names, s.name@, s.target@, i) {
                    let i = choose|i: int| first_match(names, s.name@, s.target@, i);
                    &&& t == (StackDeployFlow {
                        pending: t.pending,
                        current: Some(list@[i]),
                        stage: StackDeployStage::LoadingEnv,
                        ..s
                    })
                    &&& t.pending@.len() == 0
                    &&& a == (StackDeployAction::LoadEnv { stack_id: s.id, container: s.target })
                } else {
                    t.stage == StackDeployStage::Finished && (a matches StackDeployAction::Finish(
                        Err(AppError::NotFound(m)),
                    ) && m@ == missing_service(s.target@))
                }
            },
            StackDeployOp::RedeployNamed => {
                let names = list@.map_values(|r: ServiceRequest| r.name@);
                if exists|i: int| first_match(names, s.name@, s.target@, i) {
                    let i = choose|i: int| first_match(names, s.name@, s.target@, i);
                    &&& t == (StackDeployFlow {
                        target: list@[i].name,
                        pending: t.pending,
                        current: Some(list@[i]),
                        stage: StackDeployStage::LoadingEnv,
                        ..s
                    })
                    &&& t.pending@.len() == 0
                    &&& a == (StackDeployAction::LoadEnv { stack_id: s.id, container: list@[i].name })
                } else {
                    t.stage == StackDeployStage::Finished && (a matches StackDeployAction::Finish(
                        Err(AppError::NotFound(m)),
                    ) && m@ == "Service "@ + s.target@ + " not found"@)
                }
            },
            _ => service_at(StackDeployFlow { pending: list, ..s }, t, a),
        },
        (StackDeployStage::Inserting, StackDeployEvent::Step(Err(err))) => ends(t, a, Err(err)),
        (StackDeployStage::Inserting, StackDeployEvent::Step(Ok(_))) => service_at(s, t, a),
        (StackDeployStage::LoadingEnv, StackDeployEvent::Env(Err(err))) => if s.op
            == StackDeployOp::RedeployService {
            ends(t, a, Err(err))
        } else {
            env_loaded(s, Seq::empty(), t, a)
        },
        (StackDeployStage::LoadingEnv, StackDeployEvent::Env(Ok(vars))) => env_loaded(s, vars@, t, a),
        (StackDeployStage::Pulling, StackDeployEvent::Step(Err(err))) => ends(t, a, Err(err)),
        (StackDeployStage::Pulling, StackDeployEvent::Step(Ok(_))) => if s.op == StackDeployOp::Create {
            old_at(StackDeployFlow { olds: t.olds, m: 0, ..s }, 0, t, a) && t.olds@.len() == 0
        } else {
            t == (StackDeployFlow { stage: StackDeployStage::Listing, ..s }) && a
                == StackDeployAction::ListContainers
        },
        (StackDeployStage::Listing, StackDeployEvent::Containers(Err(err))) => ends(t, a, Err(err)),
        (StackDeployStage::Listing, StackDeployEvent::Containers(Ok(all))) => {
            &&& views(t.olds@) == containers_of(all@, Some(s.name@)).filter(
                named(service_container(s.name@, container_of(s))),
            ).map_values(|c: ContainerInfo| c.id@)
            &&& old_at(StackDeployFlow { olds: t.olds, m: 0, ..s }, 0, t, a)
        },
        (StackDeployStage::Stopping, StackDeployEvent::Step(_)) => t == (StackDeployFlow {
            stage: StackDeployStage::Removing,
            ..s
        }) && a == (StackDeployAction::RemoveContainer { id: s.olds@[s.m as int] }),
        (StackDeployStage::Removing, StackDeployEvent::Step(_)) => old_at(s, s.m + 1, t, a),
        (StackDeployStage::Creating, StackDeployEvent::Created(Err(err))) => ends(t, a, Err(err)),
        (StackDeployStage::Creating, StackDeployEvent::Created(Ok(cid))) => if s.op
            == StackDeployOp::RedeployService {
            t.stage == StackDeployStage::StartingOne && a == (StackDeployAction::StartContainer {
                id: cid,
            })
        } else if s.op == StackDeployOp::RedeployNamed {
            t == (StackDeployFlow { stage: StackDeployStage::Locating, ..s }) && a
                == StackDeployAction::ListContainers
        } else {
            service_at(s, t, a)
        },
        (StackDeployStage::Locating, StackDeployEvent::Containers(Err(err))) => ends(t, a, Err(err)),
        (StackDeployStage::Locating, StackDeployEvent::Containers(Ok(all))) => {
            let found = containers_of(all@, Some(s.name@)).filter(
                named(service_container(s.name@, s.target@)),
            );
            if found.len() > 0 {
                t.stage == StackDeployStage::StartingOne && (a matches StackDeployAction::StartContainer {
                    id,
                } && id@ == found[0].id@)
            } else {
                ends(t, a, Ok(None))
            }
        },
        (StackDeployStage::StartingOne, StackDeployEvent::Step(Err(err))) => ends(t, a, Err(err)),
        (StackDeployStage::StartingOne, StackDeployEvent::Step(Ok(_))) => ends(t, a, Ok(None)),
        (StackDeployStage::StartingAll, StackDeployEvent::Step(Err(err))) => ends(t, a, Err(err)),
        (StackDeployStage::StartingAll, StackDeployEvent::Step(Ok(_))) => ends(t, a, Ok(None)),
        (StackDeployStage::MarkingStopped, StackDeployEvent::Step(Err(err))) => ends(t, a, Err(err)),
        (StackDeployStage::MarkingStopped, StackDeployEvent::Step(Ok(_))) => t == (StackDeployFlow {
            stage: StackDeployStage::Reading,
            ..s
        }) && a == (StackDeployAction::GetStack { id: s.id, user_id: Some(s.user_id) }),
        (StackDeployStage::Reading, StackDeployEvent::Stack(Err(err))) => ends(t, a, Err(err)),
        (StackDeployStage::Reading, StackDeployEvent::Stack(Ok(None))) => t.stage
            == StackDeployStage::Finished && (a matches StackDeployAction::Finish(
            Err(AppError::NotFound(m)),
        ) && m@ == "Stack not found"@),
        (StackDeployStage::Reading, StackDeployEvent::Stack(Ok(Some(st)))) => ends(t, a, Ok(Some(st))),
        _ => false,
    }
}

/// The names of the services, in order.
fn names_of(list: &Vec<ServiceRequest>) -> (r: Vec<String>)
    ensures
        views(r@) == list@.map_values(|x: ServiceRequest| x.name@),
{
    let mut r: Vec<String> = Vec::new();
    let mut i: usize = 0;
    while i < list.len()
        invariant
            i <= list@.len(),
            views(r@) == list@.subrange(0, i as int).map_values(|x: ServiceRequest| x.name@),
        decreases list@.len() - i,
    {
        let ghost before = r@;
        r.push(list[i].name.clone());
        proof {
            assert(views(r@) =~= views(before).push(list@[i as int].name@));
            assert(list@.subrange(0, i + 1).map_values(|x: ServiceRequest| x.name@) =~= list@.subrange(
                0,
                i as int,
            ).map_values(|x: ServiceRequest| x.name@).push(list@[i as int].name@));
        }
        i = i + 1;
    }
    proof {
        assert(list@.subrange(0, list@.len() as int) =~= list@);
    }
    r
}

/// The ids of the containers of `cs` named `n`, in order.
fn ids_named(cs: &Vec<ContainerInfo>, n: &Vec<char>) -> (r: Vec<String>)
    ensures
        views(r@) == cs@.filter(named(n@)).map_values(|c: ContainerInfo| c.id@),
{
    let mut r: Vec<String> = Vec::new();
    let mut i: usize = 0;
    proof {
        assert(cs@.subrange(0, 0) =~= Seq::<ContainerInfo>::empty());
        assert(Seq::<ContainerInfo>::empty().filter(named(n@)) =~= Seq::<ContainerInfo>::empty()) by {
            reveal(Seq::filter);
        }
    }
    while i < cs.len()
        invariant
            i <= cs@.len(),
            views(r@) == cs@.subrange(0, i as int).filter(named(n@)).map_values(
                |c: ContainerInfo| c.id@,
            ),
        decreases cs@.len() - i,
    {
        let ghost before = r@;
        proof {
            assert(cs@.subrange(0, i + 1) =~= cs@.subrange(0, i as int).push(cs@[i as int]));
            cs@.subrange(0, i as int).lemma_filter_push(cs@[i as int], named(n@));
        }
        if any_name_is(&cs[i].names, n) {
            r.push(cs[i].id.clone());
            proof {
                assert(views(r@) =~= views(before).push(cs@[i as int].id@));
            }
        }
        i = i + 1;
    }
    proof {
        assert(cs@.subrange(0, cs@.len() as int) =~= cs@);
    }
    r
}

impl StackDeployFlow {
    /// The current service is there while it is deployed, and the container
    /// replaced is one of those found.
    pub open spec fn wf(self) -> bool {
        &&& (self.stage == StackDeployStage::LoadingEnv || self.stage == StackDeployStage::Pulling
            || self.stage == StackDeployStage::Listing || self.stage == StackDeployStage::Stopping
            || self.stage == StackDeployStage::Removing) ==> self.current is Some
        &&& (self.stage == StackDeployStage::Stopping || self.stage == StackDeployStage::Removing)
            ==> self.m < self.olds@.len()
    }

    fn next_service(self) -> (r: (StackDeployFlow, StackDeployAction))
        ensures
            service_at(self, r.0, r.1),
            r.0.wf(),
    {
        proof {
            reveal_strlit("stopped");
        }
        if self.pending.len() > 0 {
            let mut pending = self.pending;
            let ghost before = pending@;
            let svc = pending.remove(0);
            proof {
                assert(pending@ =~= before.drop_first());
            }
            let container = if self.op == StackDeployOp::RedeployService || self.op
                == StackDeployOp::RedeployNamed {
                self.target.clone()
            } else {
                svc.name.clone()
            };
            let id = self.id.clone();
            (
                StackDeployFlow {
                    pending,
                    current: Some(svc),
                    stage: StackDeployStage::LoadingEnv,
                    ..self
                },
                StackDeployAction::LoadEnv { stack_id: id, container },
            )
        } else if self.op == StackDeployOp::Create {
            let id = self.id.clone();
            (
                StackDeployFlow { stage: StackDeployStage::MarkingStopped, ..self },
                StackDeployAction::UpdateStatus { id, status: "stopped".to_owned() },
            )
        } else {
            let id = self.id.clone();
            let user_id = self.user_id.clone();
            (
                StackDeployFlow { stage: StackDeployStage::StartingAll, ..self },
                StackDeployAction::StartStack { id, user_id },
            )
        }
    }

    fn old_step(self, m: usize) -> (r: (StackDeployFlow, StackDeployAction))
        requires
            m <= self.olds@.len(),
            self.current is Some,
        ensures
            old_at(self, m as int, r.0, r.1),
            r.0.wf(),
    {
        if m < self.olds.len() {
            let id = self.olds[m].clone();
            (
                StackDeployFlow { m, stage: StackDeployStage::Stopping, ..self },
                StackDeployAction::StopContainer { id },
            )
        } else {
            let cur = self.current;
            let env = self.env;
            let c = cur.unwrap();
            let request = CreateContainerRequest { env, ..c.request };
            (
                StackDeployFlow {
                    current: None,
                    env: None,
                    stage: StackDeployStage::Creating,
                    ..self
                },
                StackDeployAction::CreateContainer(request),
            )
        }
    }

    fn load_env(self, vars: &Vec<(String, String)>) -> (r: (StackDeployFlow, StackDeployAction))
        requires
            self.current is Some,
        ensures
            env_loaded(self, vars@, r.0, r.1),
            r.0.wf(),
    {
        let (declared, image) = match &self.current {
            Some(c) => {
                let d = match &c.request.env {
                    Some(e) => Some(copy_strings(e)),
                    None => None,
                };
                (d, c.request.image.clone())
            },
            None => (None, String::new()),
        };
        let env = merge_env(declared, vars);
        (
            StackDeployFlow { env, stage: StackDeployStage::Pulling, ..self },
            StackDeployAction::PullImage { image },
        )
    }

    /// Whether the flow waits for an outcome like `e`.
    pub fn accepts_event(&self, e: &StackDeployEvent) -> (r: bool)
        ensures
            r == deploy_accepts(self.stage, *e),
    {
        match self.stage {
            StackDeployStage::Loading | StackDeployStage::Reading => matches!(e, StackDeployEvent::Stack(_)),
            StackDeployStage::Validating | StackDeployStage::Parsing => matches!(
                e,
                StackDeployEvent::Services(_)
            ),
            StackDeployStage::LoadingEnv => matches!(e, StackDeployEvent::Env(_)),
            StackDeployStage::Listing | StackDeployStage::Locating => matches!(
                e,
                StackDeployEvent::Containers(_)
            ),
            StackDeployStage::Creating => matches!(e, StackDeployEvent::Created(_)),
            StackDeployStage::Finished => false,
            _ => matches!(e, StackDeployEvent::Step(_)),
        }
    }

    fn finish(self, r: Result<Option<Stack>, AppError>) -> (p: (StackDeployFlow, StackDeployAction))
        ensures
            ends(p.0, p.1, r),
            p.0.wf(),
    {
        (StackDeployFlow { stage: StackDeployStage::Finished, ..self }, StackDeployAction::Finish(r))
    }

    fn on_stack(self, found: Option<Stack>) -> (r: (StackDeployFlow, StackDeployAction))
        requires
            self.stage == StackDeployStage::Loading,
        ensures
            deploy_next(self, StackDeployEvent::Stack(Ok(found)), r.0, r.1),
            r.0.wf(),
    {
        proof {
            reveal_strlit("Stack not found");
            reveal_strlit("Stack has no compose content");
            reveal_strlit("deploying");
        }
        match found {
            None => self.finish(Err(AppError::NotFound("Stack not found".to_owned()))),
            Some(st) => if self.op == StackDeployOp::UpdateCompose {
                let content = self.compose.clone();
                (
                    StackDeployFlow { stage: StackDeployStage::Validating, ..self },
                    StackDeployAction::ParseCompose { content },
                )
            } else {
                match st.compose_content {
                    None => self.finish(
                        Err(AppError::BadRequest("Stack has no compose content".to_owned())),
                    ),
                    Some(c) => if self.op == StackDeployOp::Redeploy {
                        let id = self.id.clone();
                        (
                            StackDeployFlow {
                                name: st.name,
                                user_id: st.user_id,
                                compose: c,
                                stage: StackDeployStage::MarkingDeploying,
                                ..self
                            },
                            StackDeployAction::UpdateStatus { id, status: "deploying".to_owned() },
                        )
                    } else {
                        let content = c.clone();
                        (
                            StackDeployFlow {
                                name: st.name,
                                compose: c,
                                stage: StackDeployStage::Parsing,
                                ..self
                            },
                            StackDeployAction::ParseCompose { content },
                        )
                    },
                }
            },
        }
    }

    fn on_services(self, list: Vec<ServiceRequest>) -> (r: (StackDeployFlow, StackDeployAction))
        requires
            self.stage == StackDeployStage::Parsing,
        ensures
            deploy_next(self, StackDeployEvent::Services(Ok(list)), r.0, r.1),
            r.0.wf(),
    {
        proof {
            reveal_strlit("creating");
        }
        match self.op {
            StackDeployOp::Create => {
                let id = new_uuid();
                let now = now_rfc3339();
                let token = generate_token();
                let st = Stack {
                    id: id.clone(),
                    name: self.name.clone(),
                    user_id: self.user_id.clone(),
                    compose_content: Some(self.compose.clone()),
                    status: "creating".to_owned(),
                    webhook_token: Some(token),
                    created_at: now.clone(),
                    updated_at: now,
                };
                (
                    StackDeployFlow { id, pending: list, stage: StackDeployStage::Inserting, ..self },
                    StackDeployAction::InsertStack(st),
                )
            },
            StackDeployOp::RedeployService => {
                let names = names_of(&list);
                let found = StackService::find_service(&names, self.name.as_str(), self.target.as_str());
                let ghost sn = list@.map_values(|x: ServiceRequest| x.name@);
                proof {
                    assert(views(names@) == sn);
                    assert forall|j: int| 0 <= j < names@.len() implies #[trigger] sn[j] == names@[j]@ by {
                        assert(views(names@)[j] == names@[j]@);
                    }
                }
                match found {
                    Some(i) => {
                        proof {
                            assert(first_match(sn, self.name@, self.target@, i as int));
                            let c = choose|k: int| first_match(sn, self.name@, self.target@, k);
                            if c < i {
                                assert(!service_matches(sn[c], self.name@, self.target@));
                            }
                            if c > i {
                                assert(!service_matches(sn[i as int], self.name@, self.target@));
                            }
                        }
                        let mut list = list;
                        let svc = list.remove(i);
                        let id = self.id.clone();
                        let container = self.target.clone();
                        (
                            StackDeployFlow {
                                pending: Vec::new(),
                                current: Some(svc),
                                stage: StackDeployStage::LoadingEnv,
                                ..self
                            },
                            StackDeployAction::LoadEnv { stack_id: id, container },
                        )
                    },
                    None => {
                        proof {
                            assert forall|k: int| !first_match(sn, self.name@, self.target@, k) by {
                                if 0 <= k < sn.len() {
                                    assert(!service_matches(names@[k]@, self.name@, self.target@));
                                }
                            }
                        }
                        let m = concat3("Service ", self.target.as_str(), " not found in stack");
                        self.finish(Err(AppError::NotFound(m)))
                    },
                }
            },
            StackDeployOp::RedeployNamed => {
                let names = names_of(&list);
                let found = StackService::find_service(&names, self.name.as_str(), self.target.as_str());
                let ghost sn = list@.map_values(|x: ServiceRequest| x.name@);
                proof {
                    assert(views(names@) == sn);
                    assert forall|j: int| 0 <= j < names@.len() implies #[trigger] sn[j] == names@[j]@ by {
                        assert(views(names@)[j] == names@[j]@);
                    }
                }
                match found {
                    Some(i) => {
                        proof {
                            assert(first_match(sn, self.name@, self.target@, i as int));
                            let c = choose|k: int| first_match(sn, self.name@, self.target@, k);
                            if c < i {
                                assert(!service_matches(sn[c], self.name@, self.target@));
                            }
                            if c > i {
                                assert(!service_matches(sn[i as int], self.name@, self.target@));
                            }
                        }
                        let mut list = list;
                        let svc = list.remove(i);
                        let id = self.id.clone();
                        let container = svc.name.clone();
                        let target = svc.name.clone();
                        (
                            StackDeployFlow {
                                target,
                                pending: Vec::new(),
                                current: Some(svc),
                                stage: StackDeployStage::LoadingEnv,
                                ..self
                            },
                            StackDeployAction::LoadEnv { stack_id: id, container },
                        )
                    },
                    None => {
                        proof {
                            assert forall|k: int| !first_match(sn, self.name@, self.target@, k) by {
                                if 0 <= k < sn.len() {
                                    assert(!service_matches(names@[k]@, self.name@, self.target@));
                                }
                            }
                        }
                        let m = concat3("Service ", self.target.as_str(), " not found");
                        self.finish(Err(AppError::NotFound(m)))
                    },
                }
            },
            _ => StackDeployFlow { pending: list, ..self }.next_service(),
        }
    }

    fn on_located(self, all: Vec<ContainerInfo>) -> (r: (StackDeployFlow, StackDeployAction))
        requires
            self.stage == StackDeployStage::Locating,
        ensures
            deploy_next(self, StackDeployEvent::Containers(Ok(all)), r.0, r.1),
            r.0.wf(),
    {
        let ours = StackService::get_stack_containers(all, Some(self.name.as_str()));
        let full = service_container_of(self.name.as_str(), self.target.as_str());
        let ids = ids_named(&ours, &full);
        proof {
            let found = ours@.filter(named(full@));
            assert(views(ids@).len() == ids@.len());
            assert(found.map_values(|c: ContainerInfo| c.id@).len() == found.len());
        }
        if ids.len() > 0 {
            let id = ids[0].clone();
            proof {
                let found = ours@.filter(named(full@));
                assert(views(ids@)[0] == found.map_values(|c: ContainerInfo| c.id@)[0]);
            }
            (StackDeployFlow { stage: StackDeployStage::StartingOne, ..self }, StackDeployAction::StartContainer { id })
        } else {
            self.finish(Ok(None))
        }
    }

    fn on_containers(self, all: Vec<ContainerInfo>) -> (r: (StackDeployFlow, StackDeployAction))
        requires
            self.stage == StackDeployStage::Listing,
            self.current is Some,
        ensures
            deploy_next(self, StackDeployEvent::Containers(Ok(all)), r.0, r.1),
            r.0.wf(),
    {
        let ours = StackService::get_stack_containers(all, Some(self.name.as_str()));
        let svc_name = if self.op == StackDeployOp::RedeployService || self.op
            == StackDeployOp::RedeployNamed {
            self.target.clone()
        } else {
            match &self.current {
                Some(c) => c.name.clone(),
                None => String::new(),
            }
        };
        let full = service_container_of(self.name.as_str(), svc_name.as_str());
        let olds = ids_named(&ours, &full);
        StackDeployFlow { olds, m: 0, ..self }.old_step(0)
    }

    /// Takes the outcome `e` of the last action and gives the next flow and
    /// action.
    pub fn step(self, e: StackDeployEvent) -> (r: (StackDeployFlow, StackDeployAction))
        requires
            self.wf(),
            deploy_accepts(self.stage, e),
        ensures
            deploy_next(self, e, r.0, r.1),
            r.0.wf(),
    {
        proof {
            reveal_strlit("Stack not found");
        }
        match e {
            StackDeployEvent::Stack(Err(err)) => self.finish(Err(err)),
            StackDeployEvent::Stack(Ok(found)) => if self.stage == StackDeployStage::Loading {
                self.on_stack(found)
            } else {
                match found {
                    None => self.finish(Err(AppError::NotFound("Stack not found".to_owned()))),
                    Some(st) => self.finish(Ok(Some(st))),
                }
            },
            StackDeployEvent::Services(Err(err)) => self.finish(Err(err)),
            StackDeployEvent::Services(Ok(list)) => if self.stage == StackDeployStage::Validating {
                let id = self.id.clone();
                let content = self.compose.clone();
                (
                    StackDeployFlow { stage: StackDeployStage::Updating, ..self },
                    StackDeployAction::UpdateCompose { id, content },
                )
            } else {
                self.on_services(list)
            },
            StackDeployEvent::Env(Err(err)) => if self.op == StackDeployOp::RedeployService {
                self.finish(Err(err))
            } else {
                let none: Vec<(String, String)> = Vec::new();
                self.load_env(&none)
            },
            StackDeployEvent::Env(Ok(vars)) => self.load_env(&vars),
            StackDeployEvent::Containers(Err(err)) => self.finish(Err(err)),
            StackDeployEvent::Containers(Ok(all)) => if self.stage == StackDeployStage::Locating {
                self.on_located(all)
            } else {
                self.on_containers(all)
            },
            StackDeployEvent::Created(Err(err)) => self.finish(Err(err)),
            StackDeployEvent::Created(Ok(cid)) => if self.op == StackDeployOp::RedeployService {
                (
                    StackDeployFlow { stage: StackDeployStage::StartingOne, ..self },
                    StackDeployAction::StartContainer { id: cid },
                )
            } else if self.op == StackDeployOp::RedeployNamed {
                (StackDeployFlow { stage: StackDeployStage::Locating, ..self }, StackDeployAction::ListContainers)
            } else {
                self.next_service()
            },
            StackDeployEvent::Step(r) => match self.stage {
                StackDeployStage::Stopping => {
                    let id = self.olds[self.m].clone();
                    (
                        StackDeployFlow { stage: StackDeployStage::Removing, ..self },
                        StackDeployAction::RemoveContainer { id },
                    )
                },
                StackDeployStage::Removing => {
                    let n = self.olds.len();
                    assert(self.m < n);
                    let m = self.m + 1;
                    self.old_step(m)
                },
                _ => match r {
                    Err(err) => self.finish(Err(err)),
                    Ok(_) => match self.stage {
                        StackDeployStage::Updating => {
                            let id = self.id.clone();
                            (
                                StackDeployFlow {
                                    op: StackDeployOp::Redeploy,
                                    stage: StackDeployStage::Loading,
                                    ..self
                                },
                                StackDeployAction::GetStack { id, user_id: None },
                            )
                        },
                        StackDeployStage::MarkingDeploying => {
                            let content = self.compose.clone();
                            (
                                StackDeployFlow { stage: StackDeployStage::Parsing, ..self },
                                StackDeployAction::ParseCompose { content },
                            )
                        },
                        StackDeployStage::Inserting => self.next_service(),
                        StackDeployStage::Pulling => if self.op == StackDeployOp::Create {
                            StackDeployFlow { olds: Vec::new(), m: 0, ..self }.old_step(0)
                        } else {
                            (
                                StackDeployFlow { stage: StackDeployStage::Listing, ..self },
                                StackDeployAction::ListContainers,
                            )
                        },
                        StackDeployStage::MarkingStopped => {
                            let id = self.id.clone();
                            let user_id = Some(self.user_id.clone());
                            (
                                StackDeployFlow { stage: StackDeployStage::Reading, ..self },
                                StackDeployAction::GetStack { id, user_id },
                            )
                        },
                        _ => self.finish(Ok(None)),
                    },
                },
            },
        }
    }
}

/// A stack is inserted only once its compose file parsed, and as creating;
/// replacing an old container is best effort: stopping or removing one never
/// fails the operation.
pub proof fn law_insert_after_parse_and_best_effort_replacement(
    s: StackDeployFlow,
    e: StackDeployEvent,
    t: StackDeployFlow,
    a: StackDeployAction,
)
    requires
        s.wf(),
        deploy_accepts(s.stage, e),
        deploy_next(s, e, t, a),
    ensures
        a matches StackDeployAction::InsertStack(st) ==> (e matches StackDeployEvent::Services(Ok(_))
            && st.status@ == "creating"@),
        (s.stage == StackDeployStage::Stopping || s.stage == StackDeployStage::Removing) ==> !(a matches StackDeployAction::Finish(
            Err(_),
        )),
{
}

/// A creation ends with the stack read back after it is marked stopped, and
/// a service redeployment starts the container it created.
pub proof fn law_creation_ends_with_stack(s: StackDeployFlow, e: StackDeployEvent, t: StackDeployFlow, a: StackDeployAction)
    requires
        s.wf(),
        deploy_accepts(s.stage, e),
        deploy_next(s, e, t, a),
    ensures
        a matches StackDeployAction::Finish(Ok(Some(_))) ==> s.stage == StackDeployStage::Reading,
        s.op == StackDeployOp::RedeployService ==> (e matches StackDeployEvent::Created(Ok(cid))
            ==> a == (StackDeployAction::StartContainer { id: cid })),
{
}

impl StackService {
    /// Starts creating stack `name` of `user_id` from `compose_content`: the
    /// compose file is parsed first.
    pub fn create_stack(&self, name: &str, compose_content: &str, user_id: &str) -> (r: (
        StackDeployFlow,
        StackDeployAction,
    ))
        ensures
            r.0.op == StackDeployOp::Create,
            r.0.name@ == name@,
            r.0.user_id@ == user_id@,
            r.0.compose@ == compose_content@,
            r.0.pending@.len() == 0,
            r.0.stage == StackDeployStage::Parsing,
            r.0.wf(),
            r.1 matches StackDeployAction::ParseCompose { content } && content@ == compose_content@,
    {
        let flow = StackDeployFlow {
            op: StackDeployOp::Create,
            id: String::new(),
            name: name.to_owned(),
            user_id: user_id.to_owned(),
            compose: compose_content.to_owned(),
            target: String::new(),
            pending: Vec::new(),
            current: None,
            env: None,
            olds: Vec::new(),
            m: 0,
            stage: StackDeployStage::Parsing,
        };
        (flow, StackDeployAction::ParseCompose { content: compose_content.to_owned() })
    }

    pub(crate) fn deploy_from_stack(op: StackDeployOp, id: &str, user_id: Option<&str>, target: &str, compose: &str) -> (r: (
        StackDeployFlow,
        StackDeployAction,
    ))
        ensures
            r.0.op == op,
            r.0.id@ == id@,
            r.0.target@ == target@,
            r.0.compose@ == compose@,
            r.0.pending@.len() == 0,
            r.0.stage == StackDeployStage::Loading,
            r.0.wf(),
            r.1 matches StackDeployAction::GetStack { id: i, user_id: u } && i@ == id@ && match user_id {
                Some(x) => u matches Some(y) && y@ == x@,
                None => u is None,
            },
    {
        let u = match user_id {
            Some(x) => Some(x.to_owned()),
            None => None,
        };
        let flow = StackDeployFlow {
            op,
            id: id.to_owned(),
            name: String::new(),
            user_id: match user_id {
                Some(x) => x.to_owned(),
                None => String::new(),
            },
            compose: compose.to_owned(),
            target: target.to_owned(),
            pending: Vec::new(),
            current: None,
            env: None,
            olds: Vec::new(),
            m: 0,
            stage: StackDeployStage::Loading,
        };
        (flow, StackDeployAction::GetStack { id: id.to_owned(), user_id: u })
    }

    /// Starts redeploying stack `id`: it is read first.
    pub fn redeploy_stack(&self, id: &str) -> (r: (StackDeployFlow, StackDeployAction))
        ensures
            r.0.op == StackDeployOp::Redeploy,
            r.0.id@ == id@,
            r.0.stage == StackDeployStage::Loading,
            r.0.wf(),
            r.1 matches StackDeployAction::GetStack { id: i, user_id: None } && i@ == id@,
    {
        Self::deploy_from_stack(StackDeployOp::Redeploy, id, None, "", "")
    }

    /// Starts redeploying service `service_name` of stack `stack_id` of
    /// `user_id`: the stack is read first.
    pub fn redeploy_service(&self, stack_id: &str, service_name: &str, user_id: &str) -> (r: (
        StackDeployFlow,
        StackDeployAction,
    ))
        ensures
            r.0.op == StackDeployOp::RedeployService,
            r.0.id@ == stack_id@,
            r.0.target@ == service_name@,
            r.0.stage == StackDeployStage::Loading,
            r.0.wf(),
            r.1 matches StackDeployAction::GetStack { id: i, user_id: Some(u) } && i@ == stack_id@
                && u@ == user_id@,
    {
        Self::deploy_from_stack(StackDeployOp::RedeployService, stack_id, Some(user_id), service_name, "")
    }

    /// Starts replacing the compose file of stack `id` of `user_id` with
    /// `compose_content` and redeploying it: the stack is read first.
    pub fn update_stack_compose(&self, id: &str, compose_content: &str, user_id: &str) -> (r: (
        StackDeployFlow,
        StackDeployAction,
    ))
        ensures
            r.0.op == StackDeployOp::UpdateCompose,
            r.0.id@ == id@,
            r.0.compose@ == compose_content@,
            r.0.stage == StackDeployStage::Loading,
            r.0.wf(),
            r.1 matches StackDeployAction::GetStack { id: i, user_id: Some(u) } && i@ == id@ && u@
                == user_id@,
    {
        Self::deploy_from_stack(StackDeployOp::UpdateCompose, id, Some(user_id), "", compose_content)
    }
}

} // verus!
