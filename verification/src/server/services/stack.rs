//! The stack service of the server: a stack's containers are those named
//! `/<stack>-...`; its health and logs; access to stacks and their webhook.
use vstd::prelude::*;
use crate::backend::models::stack::Stack;
use crate::error::AppError;
use crate::health::{stack_health, ContainerHealth, StackHealth};
use crate::ids::{generate_token, is_ascii_alphanumeric, token_length};
use crate::naming::{
    any_name_starts_with, first_name, first_name_of, has_name_prefix, stack_prefix, stack_prefix_of,
    trim_leading_slashes, without_leading_slashes,
};
use crate::server::services::container::ContainerInfo;
use crate::text::{chars_of, concat2, concat3, has_prefix, lowercase, push_str, str_eq, string_of, to_lowercase};

verus! {

/// A log line of a stack, with the container it came from.
#[derive(Debug)]
pub struct StackLogEntry {
    pub container: String,
    pub message: String,
}

/// The stack service of the server.
pub struct StackService {}

/// The container belongs to stack `name`: one of its names starts with
/// `/<name>-`.
pub open spec fn of_named_stack(name: Seq<char>) -> spec_fn(ContainerInfo) -> bool {
    |c: ContainerInfo| has_name_prefix(c.names@, stack_prefix(name))
}

/// The containers of a stack (none when the stack is not stored).
pub open spec fn containers_of(all: Seq<ContainerInfo>, stack: Option<Seq<char>>) -> Seq<ContainerInfo> {
    match stack {
        Some(name) => all.filter(of_named_stack(name)),
        None => Seq::empty(),
    }
}

/// The name shown for a container's logs.
pub open spec fn log_name(c: ContainerInfo) -> Seq<char> {
    if c.names@.len() > 0 {
        without_leading_slashes(c.names@[0]@)
    } else {
        c.id@
    }
}

/// A service matches a requested name: by its own name or by
/// `<stack>-<service>`, compared in lowercase.
pub open spec fn service_matches(service: Seq<char>, stack_name: Seq<char>, requested: Seq<char>) -> bool {
    lowercase(service) == lowercase(requested) || lowercase(stack_name + "-"@ + service)
        == lowercase(requested)
}

impl StackService {
    pub fn new() -> (s: StackService) {
        StackService {}
    }

    /// The stored stack, or not found.
    pub fn get_stack(&self, found: Option<Stack>) -> (r: Result<Stack, AppError>)
        ensures
            found matches Some(s) ==> r == Ok::<Stack, AppError>(s),
            found is None ==> (r matches Err(AppError::NotFound(m)) && m@ == "Stack not found"@),
    {
        match found {
            Some(s) => Ok(s),
            None => Err(AppError::NotFound("Stack not found".to_owned())),
        }
    }

    /// The stored stack, or not found (without an access check).
    pub fn get(&self, found: Option<Stack>) -> (r: Result<Stack, AppError>)
        ensures
            found matches Some(s) ==> r == Ok::<Stack, AppError>(s),
            found is None ==> (r matches Err(AppError::NotFound(m)) && m@ == "Stack not found"@),
    {
        self.get_stack(found)
    }

    /// The stack of a webhook call, when the token is the stack's own.
    pub fn validate_webhook_token(&self, stack: Stack, token: &str) -> (r: Result<Stack, AppError>)
        ensures
            (stack.webhook_token matches Some(t) && t@ == token@) ==> r == Ok::<Stack, AppError>(
                stack,
            ),
            !(stack.webhook_token matches Some(t) && t@ == token@) ==> (r matches Err(
                AppError::Auth(m),
            ) && m@ == "Invalid webhook token"@),
    {
        let ok = match &stack.webhook_token {
            Some(t) => str_eq(t.as_str(), token),
            None => false,
        };
        if ok {
            Ok(stack)
        } else {
            Err(AppError::Auth("Invalid webhook token".to_owned()))
        }
    }

    /// A fresh webhook token.
    pub fn regenerate_webhook_token(&self) -> (r: String)
        ensures
            r@.len() == token_length(),
            forall|i: int| 0 <= i < r@.len() ==> is_ascii_alphanumeric(#[trigger] r@[i]),
    {
        generate_token()
    }

    /// The containers of the stored stack named `stack_name` (if stored),
    /// from all containers, in listing order.
    pub fn get_stack_containers(all: Vec<ContainerInfo>, stack_name: Option<&str>) -> (r: Vec<
        ContainerInfo,
    >)
        ensures
            r@ == containers_of(all@, match stack_name {
                Some(n) => Some(n@),
                None => None,
            }),
    {
        match stack_name {
            None => Vec::new(),
            Some(name) => {
                let prefix = stack_prefix_of(name);
                let ghost orig = all@;
                let mut rest = all;
                let mut r: Vec<ContainerInfo> = Vec::new();
                let mut i: usize = 0;
                proof {
                    assert(orig.subrange(0, 0) =~= Seq::<ContainerInfo>::empty());
                    assert(Seq::<ContainerInfo>::empty().filter(of_named_stack(name@)) =~= Seq::<
                        ContainerInfo,
                    >::empty()) by {
                        reveal(Seq::filter);
                    }
                    assert(rest@ =~= orig.subrange(0, orig.len() as int));
                    assert(orig.len() == rest.len());
                }
                while rest.len() > 0
                    invariant
                        i <= orig.len() <= usize::MAX,
                        prefix@ == stack_prefix(name@),
                        rest@ == orig.subrange(i as int, orig.len() as int),
                        r@ == orig.subrange(0, i as int).filter(of_named_stack(name@)),
                    decreases rest.len(),
                {
                    let c = rest.remove(0);
                    let keep = any_name_starts_with(&c.names, &prefix);
                    proof {
                        assert(c == orig[i as int]);
                        assert(orig.subrange(0, i + 1) =~= orig.subrange(0, i as int).push(
                            orig[i as int],
                        ));
                        orig.subrange(0, i as int).lemma_filter_push(orig[i as int], of_named_stack(name@));
                        assert(rest@ =~= orig.subrange(i + 1, orig.len() as int));
                    }
                    if keep {
                        r.push(c);
                    }
                    i = i + 1;
                }
                proof {
                    assert(orig.subrange(0, orig.len() as int) =~= orig);
                }
                r
            },
        }
    }

    /// The health overview of a stack's containers.
    pub fn get_stack_health(&self, containers: &Vec<ContainerInfo>) -> (h: StackHealth)
        ensures
            h.total == containers@.len(),
            h.containers@.len() == containers@.len(),
            forall|i: int|
                0 <= i < containers@.len() ==> (#[trigger] h.containers@[i]).state@
                    == containers@[i].state@ && h.containers@[i].id@ == containers@[i].id@
                    && h.containers@[i].status@ == containers@[i].status@ && h.containers@[i].name@
                    == first_name(containers@[i].names@),
            h.running == crate::health::count(
                crate::health::states(h.containers@),
                |s: Seq<char>| crate::health::is_running(s),
            ),
            h.stopped == crate::health::count(
                crate::health::states(h.containers@),
                |s: Seq<char>| crate::health::is_stopped(s),
            ),
            h.unhealthy == crate::health::count(
                crate::health::states(h.containers@),
                |s: Seq<char>| crate::health::is_unhealthy(s),
            ),
            h.status@ == crate::health::health_status(h.total as nat, h.running as nat),
    {
        let mut hs: Vec<ContainerHealth> = Vec::new();
        let mut i: usize = 0;
        while i < containers.len()
            invariant
                i <= containers.len(),
                hs@.len() == i,
                forall|j: int|
                    0 <= j < i ==> (#[trigger] hs@[j]).state@ == containers@[j].state@
                        && hs@[j].id@ == containers@[j].id@ && hs@[j].status@
                        == containers@[j].status@ && hs@[j].name@ == first_name(
                        containers@[j].names@,
                    ),
            decreases containers.len() - i,
        {
            let c = &containers[i];
            hs.push(
                ContainerHealth {
                    id: c.id.clone(),
                    name: first_name_of(&c.names),
                    state: c.state.clone(),
                    status: c.status.clone(),
                },
            );
            i = i + 1;
        }
        stack_health(hs)
    }

    /// The log entries of one container of a stack: one per line when its
    /// logs could be read, else one describing the failure.
    pub fn get_stack_logs(c: &ContainerInfo, logs: Result<Vec<String>, String>) -> (r: Vec<
        StackLogEntry,
    >)
        ensures
            forall|i: int| 0 <= i < r@.len() ==> (#[trigger] r@[i]).container@ == log_name(*c),
            match logs {
                Ok(lines) => r@.len() == lines@.len() && forall|i: int|
                    0 <= i < r@.len() ==> (#[trigger] r@[i]).message@ == lines@[i]@,
                Err(e) => r@.len() == 1 && r@[0].message@ == "[error fetching logs: "@ + e@
                    + "]"@,
            },
    {
        let name = if c.names.len() > 0 {
            trim_leading_slashes(c.names[0].as_str())
        } else {
            c.id.clone()
        };
        let mut r: Vec<StackLogEntry> = Vec::new();
        match logs {
            Ok(lines) => {
                let mut i: usize = 0;
                while i < lines.len()
                    invariant
                        i <= lines.len(),
                        r@.len() == i,
                        name@ == log_name(*c),
                        forall|j: int|
                            0 <= j < i ==> (#[trigger] r@[j]).container@ == log_name(*c)
                                && r@[j].message@ == lines@[j]@,
                    decreases lines.len() - i,
                {
                    r.push(StackLogEntry { container: name.clone(), message: lines[i].clone() });
                    i = i + 1;
                }
            },
            Err(e) => {
                let m = concat3("[error fetching logs: ", e.as_str(), "]");
                r.push(StackLogEntry { container: name, message: m });
            },
        }
        r
    }

    /// The index of the first of `names` that matches the requested service,
    /// if any.
    pub fn find_service(names: &Vec<String>, stack_name: &str, requested: &str) -> (r: Option<usize>)
        ensures
            match r {
                Some(i) => i < names@.len() && service_matches(names@[i as int]@, stack_name@, requested@)
                    && forall|j: int| 0 <= j < i ==> !service_matches(names@[j]@, stack_name@, requested@),
                None => forall|j: int|
                    0 <= j < names@.len() ==> !service_matches(#[trigger] names@[j]@, stack_name@, requested@),
            },
    {
        let wanted = to_lowercase(requested);
        let mut i: usize = 0;
        while i < names.len()
            invariant
                i <= names.len(),
                wanted@ == lowercase(requested@),
                forall|j: int| 0 <= j < i ==> !service_matches(#[trigger] names@[j]@, stack_name@, requested@),
            decreases names.len() - i,
        {
            let own = to_lowercase(names[i].as_str());
            let full = concat3(stack_name, "-", names[i].as_str());
            let full_lower = to_lowercase(full.as_str());
            if str_eq(own.as_str(), wanted.as_str()) || str_eq(full_lower.as_str(), wanted.as_str()) {
                return Some(i);
            }
            i = i + 1;
        }
        None
    }
}

// ---------------------------------------------------------------- container operations

/// Which operation runs over a stack's containers.
#[derive(Debug, Clone, Copy, PartialEq, Eq, Structural)]
pub enum ContainersOp {
    Start,
    Stop,
    Remove,
    /// Removal where stopping and removing each container is best effort.
    Discard,
}

/// Where a container operation stands.
#[derive(Debug, Clone, Copy, PartialEq, Eq, Structural)]
pub enum ContainersStage {
    Loading,
    Listing,
    Stopping,
    Acting,
    Recording,
    Finished,
}

/// An operation over the containers of stack `id` of user `user_id`: the
/// containers it acts on (with whether each runs), the one at `k` being
/// handled.
pub struct ContainersFlow {
    pub op: ContainersOp,
    pub id: String,
    pub user_id: String,
    pub name: String,
    pub ids: Vec<String>,
    pub running: Vec<bool>,
    pub k: usize,
    pub stage: ContainersStage,
}

/// The outcome of the last action.
pub enum ContainersEvent {
    Stack(Result<Option<Stack>, AppError>),
    Containers(Result<Vec<ContainerInfo>, AppError>),
    Step(Result<(), AppError>),
}

/// What the caller does next.
pub enum ContainersAction {
    GetStack { id: String, user_id: String },
    ListContainers,
    StartContainer { id: String },
    StopContainer { id: String },
    RemoveContainer { id: String },
    UpdateStatus { id: String, status: String },
    DeleteStack { id: String },
    Finish(Result<(), AppError>),
}

/// The containers the operation acts on.
pub open spec fn containers_acted_on(op: ContainersOp) -> spec_fn(ContainerInfo) -> bool {
    |c: ContainerInfo|
        match op {
            ContainersOp::Start => c.state@ != "running"@,
            ContainersOp::Stop => c.state@ == "running"@,
            ContainersOp::Remove | ContainersOp::Discard => true,
        }
}

/// Acting on container `k`, or with none left recording the outcome.
pub open spec fn containers_at(s: ContainersFlow, k: int, t: ContainersFlow, a: ContainersAction) -> bool {
    if k < s.ids@.len() {
        t.k == k && match s.op {
            ContainersOp::Start => t == (ContainersFlow { k: t.k, stage: ContainersStage::Acting, ..s })
                && a == (ContainersAction::StartContainer { id: s.ids@[k] }),
            ContainersOp::Stop => t == (ContainersFlow { k: t.k, stage: ContainersStage::Acting, ..s })
                && a == (ContainersAction::StopContainer { id: s.ids@[k] }),
            ContainersOp::Discard => t == (ContainersFlow { k: t.k, stage: ContainersStage::Stopping, ..s })
                && a == (ContainersAction::StopContainer { id: s.ids@[k] }),
            ContainersOp::Remove => if s.running@[k] {
                t == (ContainersFlow { k: t.k, stage: ContainersStage::Stopping, ..s }) && a == (
                ContainersAction::StopContainer { id: s.ids@[k] })
            } else {
                t == (ContainersFlow { k: t.k, stage: ContainersStage::Acting, ..s }) && a == (
                ContainersAction::RemoveContainer { id: s.ids@[k] })
            },
        }
    } else {
        &&& t == (ContainersFlow { stage: ContainersStage::Recording, ..s })
        &&& match s.op {
            ContainersOp::Remove | ContainersOp::Discard => a == (ContainersAction::DeleteStack { id: s.id }),
            _ => a matches ContainersAction::UpdateStatus { id, status } && id == s.id && status@
                == if s.op == ContainersOp::Start {
                "running"@
            } else {
                "stopped"@
            },
        }
    }
}

/// Removing the container being handled.
pub open spec fn removing(s: ContainersFlow, t: ContainersFlow, a: ContainersAction) -> bool {
    t == (ContainersFlow { stage: ContainersStage::Acting, ..s }) && a == (ContainersAction::RemoveContainer {
        id: s.ids@[s.k as int],
    })
}

/// Which outcome each stage waits for.
pub open spec fn containers_accepts(stage: ContainersStage, e: ContainersEvent) -> bool {
    match stage {
        ContainersStage::Loading => e is Stack,
        ContainersStage::Listing => e is Containers,
        ContainersStage::Finished => false,
        _ => e is Step,
    }
}

/// One step: the stack is read for the user (not found otherwise), its
/// containers listed; starting starts those that do not run, stopping stops
/// those that run, removing stops each running one and removes each; any
/// failure ends it; then the status is recorded or the stack deleted.
pub open spec fn containers_next(
    s: ContainersFlow,
    e: ContainersEvent,
    t: ContainersFlow,
    a: ContainersAction,
) -> bool {
    match (s.stage, e) {
        (ContainersStage::Loading, ContainersEvent::Stack(Err(err))) => t.stage
            == ContainersStage::Finished && a == ContainersAction::Finish(Err(err)),
        (ContainersStage::Loading, ContainersEvent::Stack(Ok(None))) => t.stage
            == ContainersStage::Finished && (a matches ContainersAction::Finish(
            Err(AppError::NotFound(m)),
        ) && m@ == "Stack not found"@),
        (ContainersStage::Loading, ContainersEvent::Stack(Ok(Some(st)))) => t == (ContainersFlow {
            name: st.name,
            stage: ContainersStage::Listing,
            ..s
        }) && a == ContainersAction::ListContainers,
        (ContainersStage::Listing, ContainersEvent::Containers(Err(err))) => t.stage
            == ContainersStage::Finished && a == ContainersAction::Finish(Err(err)),
        (ContainersStage::Listing, ContainersEvent::Containers(Ok(all))) => {
            let chosen = containers_of(all@, Some(s.name@)).filter(containers_acted_on(s.op));
            &&& crate::json::views(t.ids@) == chosen.map_values(|c: ContainerInfo| c.id@)
            &&& t.running@ == chosen.map_values(|c: ContainerInfo| c.state@ == "running"@)
            &&& containers_at(ContainersFlow { ids: t.ids, running: t.running, k: 0, ..s }, 0, t, a)
        },
        (ContainersStage::Stopping, ContainersEvent::Step(Err(err))) => if s.op == ContainersOp::Discard {
            removing(s, t, a)
        } else {
            t.stage == ContainersStage::Finished && a == ContainersAction::Finish(Err(err))
        },
        (ContainersStage::Stopping, ContainersEvent::Step(Ok(_))) => removing(s, t, a),
        (ContainersStage::Acting, ContainersEvent::Step(Err(err))) => if s.op == ContainersOp::Discard {
            containers_at(s, s.k + 1, t, a)
        } else {
            t.stage == ContainersStage::Finished && a == ContainersAction::Finish(Err(err))
        },
        (ContainersStage::Acting, ContainersEvent::Step(Ok(_))) => containers_at(s, s.k + 1, t, a),
        (ContainersStage::Recording, ContainersEvent::Step(r)) => t.stage
            == ContainersStage::Finished && a == ContainersAction::Finish(r),
        _ => false,
    }
}

impl ContainersFlow {
    /// While a container is handled, it is one the operation acts on.
    pub open spec fn wf(self) -> bool {
        &&& self.ids@.len() == self.running@.len()
        &&& (self.stage == ContainersStage::Stopping || self.stage == ContainersStage::Acting) ==> self.k
            < self.ids@.len()
    }

    fn act_at(self, k: usize) -> (r: (ContainersFlow, ContainersAction))
        requires
            k <= self.ids@.len(),
            self.ids@.len() == self.running@.len(),
        ensures
            containers_at(self, k as int, r.0, r.1),
            r.0.wf(),
    {
        if k < self.ids.len() {
            let id = self.ids[k].clone();
            match self.op {
                ContainersOp::Start => (
                    ContainersFlow { k, stage: ContainersStage::Acting, ..self },
                    ContainersAction::StartContainer { id },
                ),
                ContainersOp::Stop => (
                    ContainersFlow { k, stage: ContainersStage::Acting, ..self },
                    ContainersAction::StopContainer { id },
                ),
                ContainersOp::Discard => (
                    ContainersFlow { k, stage: ContainersStage::Stopping, ..self },
                    ContainersAction::StopContainer { id },
                ),
                ContainersOp::Remove => if self.running[k] {
                    (
                        ContainersFlow { k, stage: ContainersStage::Stopping, ..self },
                        ContainersAction::StopContainer { id },
                    )
                } else {
                    (
                        ContainersFlow { k, stage: ContainersStage::Acting, ..self },
                        ContainersAction::RemoveContainer { id },
                    )
                },
            }
        } else {
            let a = match self.op {
                ContainersOp::Remove | ContainersOp::Discard => ContainersAction::DeleteStack {
                    id: self.id.clone(),
                },
                ContainersOp::Start => ContainersAction::UpdateStatus {
                    id: self.id.clone(),
                    status: "running".to_owned(),
                },
                ContainersOp::Stop => ContainersAction::UpdateStatus {
                    id: self.id.clone(),
                    status: "stopped".to_owned(),
                },
            };
            (ContainersFlow { stage: ContainersStage::Recording, ..self }, a)
        }
    }

    /// Whether the flow waits for an outcome like `e`.
    pub fn accepts_event(&self, e: &ContainersEvent) -> (r: bool)
        ensures
            r == containers_accepts(self.stage, *e),
    {
        match self.stage {
            ContainersStage::Loading => matches!(e, ContainersEvent::Stack(_)),
            ContainersStage::Listing => matches!(e, ContainersEvent::Containers(_)),
            ContainersStage::Finished => false,
            _ => matches!(e, ContainersEvent::Step(_)),
        }
    }

    /// Takes the outcome `e` of the last action and gives the next flow and
    /// action.
    pub fn step(self, e: ContainersEvent) -> (r: (ContainersFlow, ContainersAction))
        requires
            self.wf(),
            containers_accepts(self.stage, e),
        ensures
            containers_next(self, e, r.0, r.1),
    {
        let done = ContainersStage::Finished;
        match e {
            ContainersEvent::Stack(Err(err)) => (
                ContainersFlow { stage: done, ..self },
                ContainersAction::Finish(Err(err)),
            ),
            ContainersEvent::Containers(Err(err)) => (
                ContainersFlow { stage: done, ..self },
                ContainersAction::Finish(Err(err)),
            ),
            ContainersEvent::Stack(Ok(None)) => (
                ContainersFlow { stage: done, ..self },
                ContainersAction::Finish(Err(AppError::NotFound("Stack not found".to_owned()))),
            ),
            ContainersEvent::Stack(Ok(Some(st))) => (
                ContainersFlow { name: st.name, stage: ContainersStage::Listing, ..self },
                ContainersAction::ListContainers,
            ),
            ContainersEvent::Containers(Ok(all)) => {
                let ours = StackService::get_stack_containers(all, Some(self.name.as_str()));
                let ghost chosen = ours@.filter(containers_acted_on(self.op));
                let mut ids: Vec<String> = Vec::new();
                let mut running: Vec<bool> = Vec::new();
                let mut i: usize = 0;
                proof {
                    assert(ours@.subrange(0, 0) =~= Seq::<ContainerInfo>::empty());
                    assert(Seq::<ContainerInfo>::empty().filter(containers_acted_on(self.op)) =~= Seq::<
                        ContainerInfo,
                    >::empty()) by {
                        reveal(Seq::filter);
                    }
                }
                while i < ours.len()
                    invariant
                        i <= ours.len(),
                        crate::json::views(ids@) == ours@.subrange(0, i as int).filter(
                            containers_acted_on(self.op),
                        ).map_values(|c: ContainerInfo| c.id@),
                        running@ == ours@.subrange(0, i as int).filter(containers_acted_on(self.op)).map_values(
                            |c: ContainerInfo| c.state@ == "running"@,
                        ),
                    decreases ours.len() - i,
                {
                    let c = &ours[i];
                    let is_running = str_eq(c.state.as_str(), "running");
                    let take = match self.op {
                        ContainersOp::Start => !is_running,
                        ContainersOp::Stop => is_running,
                        ContainersOp::Remove | ContainersOp::Discard => true,
                    };
                    let ghost before_ids = ids@;
                    let ghost before_running = running@;
                    proof {
                        assert(ours@.subrange(0, i + 1) =~= ours@.subrange(0, i as int).push(ours@[i as int]));
                        ours@.subrange(0, i as int).lemma_filter_push(ours@[i as int], containers_acted_on(self.op));
                    }
                    if take {
                        ids.push(c.id.clone());
                        running.push(is_running);
                        proof {
                            assert(crate::json::views(ids@) =~= crate::json::views(before_ids).push(ours@[i as int].id@));
                            assert(running@ =~= before_running.push(ours@[i as int].state@ == "running"@));
                        }
                    }
                    i = i + 1;
                }
                proof {
                    assert(ours@.subrange(0, ours@.len() as int) =~= ours@);
                }
                ContainersFlow { ids, running, k: 0, ..self }.act_at(0)
            },
            ContainersEvent::Step(r) => match self.stage {
                ContainersStage::Recording => (ContainersFlow { stage: done, ..self }, ContainersAction::Finish(r)),
                _ => match r {
                    Err(err) if self.op != ContainersOp::Discard => (
                        ContainersFlow { stage: done, ..self },
                        ContainersAction::Finish(Err(err)),
                    ),
                    _ => if self.stage == ContainersStage::Stopping {
                        let id = self.ids[self.k].clone();
                        (
                            ContainersFlow { stage: ContainersStage::Acting, ..self },
                            ContainersAction::RemoveContainer { id },
                        )
                    } else {
                        let n = self.ids.len();
                        assert(self.k < n);
                        let k = self.k + 1;
                        self.act_at(k)
                    },
                },
            },
        }
    }
}

impl StackService {
    pub(crate) fn containers_op(op: ContainersOp, id: &str, user_id: &str) -> (r: (ContainersFlow, ContainersAction))
        ensures
            r.0.op == op,
            r.0.id@ == id@,
            r.0.user_id@ == user_id@,
            r.0.stage == ContainersStage::Loading,
            r.0.wf(),
            r.1 == (ContainersAction::GetStack { id: r.0.id, user_id: r.0.user_id }),
    {
        let flow = ContainersFlow {
            op,
            id: id.to_owned(),
            user_id: user_id.to_owned(),
            name: String::new(),
            ids: Vec::new(),
            running: Vec::new(),
            k: 0,
            stage: ContainersStage::Loading,
        };
        let a = ContainersAction::GetStack { id: flow.id.clone(), user_id: flow.user_id.clone() };
        (flow, a)
    }

    /// Starts starting stack `id` of user `user_id`.
    pub fn start_stack(&self, id: &str, user_id: &str) -> (r: (ContainersFlow, ContainersAction))
        ensures
            r.0.op == ContainersOp::Start,
            r.0.id@ == id@,
            r.0.user_id@ == user_id@,
            r.0.stage == ContainersStage::Loading,
            r.0.wf(),
            r.1 == (ContainersAction::GetStack { id: r.0.id, user_id: r.0.user_id }),
    {
        Self::containers_op(ContainersOp::Start, id, user_id)
    }

    /// Starts stopping stack `id` of user `user_id`.
    pub fn stop_stack(&self, id: &str, user_id: &str) -> (r: (ContainersFlow, ContainersAction))
        ensures
            r.0.op == ContainersOp::Stop,
            r.0.id@ == id@,
            r.0.user_id@ == user_id@,
            r.0.stage == ContainersStage::Loading,
            r.0.wf(),
            r.1 == (ContainersAction::GetStack { id: r.0.id, user_id: r.0.user_id }),
    {
        Self::containers_op(ContainersOp::Stop, id, user_id)
    }

    /// Starts removing stack `id` of user `user_id` and its containers.
    pub fn remove_stack(&self, id: &str, user_id: &str) -> (r: (ContainersFlow, ContainersAction))
        ensures
            r.0.op == ContainersOp::Remove,
            r.0.id@ == id@,
            r.0.user_id@ == user_id@,
            r.0.stage == ContainersStage::Loading,
            r.0.wf(),
            r.1 == (ContainersAction::GetStack { id: r.0.id, user_id: r.0.user_id }),
    {
        Self::containers_op(ContainersOp::Remove, id, user_id)
    }
}

/// A removal stops a container before removing it exactly when it runs, and
/// deletes the stack only once every container is removed.
pub proof fn law_removal_stops_running_containers_first(
    s: ContainersFlow,
    e: ContainersEvent,
    t: ContainersFlow,
    a: ContainersAction,
)
    requires
        s.wf(),
        s.op == ContainersOp::Remove,
        containers_accepts(s.stage, e),
        containers_next(s, e, t, a),
    ensures
        a matches ContainersAction::StopContainer { id } ==> t.stage == ContainersStage::Stopping
            && t.running@[t.k as int] && id == t.ids@[t.k as int],
        a is DeleteStack ==> s.stage == ContainersStage::Listing || s.k + 1 >= s.ids@.len(),
{
}

/// Whether every container an operation still has to handle is running.
pub open spec fn all_running(s: ContainersFlow, running: bool) -> bool {
    forall|i: int| 0 <= i < s.running@.len() ==> #[trigger] s.running@[i] == running
}

/// Starting a stack starts only containers that do not run, and stopping it
/// stops only running ones: the containers chosen when listing keep that
/// property through every step.
pub proof fn law_start_and_stop_touch_only_the_right_containers(
    s: ContainersFlow,
    e: ContainersEvent,
    t: ContainersFlow,
    a: ContainersAction,
)
    requires
        s.wf(),
        s.op == ContainersOp::Start || s.op == ContainersOp::Stop,
        all_running(s, s.op == ContainersOp::Stop),
        containers_accepts(s.stage, e),
        containers_next(s, e, t, a),
    ensures
        t.stage != ContainersStage::Finished ==> all_running(t, s.op == ContainersOp::Stop),
        a matches ContainersAction::StartContainer { id } ==> s.op == ContainersOp::Start && t.k
            < t.ids@.len() && id == t.ids@[t.k as int] && !t.running@[t.k as int],
        a matches ContainersAction::StopContainer { id } ==> s.op == ContainersOp::Stop && t.k
            < t.ids@.len() && id == t.ids@[t.k as int] && t.running@[t.k as int],
{
    if let ContainersEvent::Containers(Ok(all)) = e {
        if s.stage == ContainersStage::Listing {
            let chosen = containers_of(all@, Some(s.name@)).filter(containers_acted_on(s.op));
            containers_of(all@, Some(s.name@)).filter_lemma(containers_acted_on(s.op));
            assert(crate::json::views(t.ids@).len() == t.ids@.len());
            assert(t.ids@.len() == chosen.len() && t.running@.len() == chosen.len());
            assert forall|i: int| 0 <= i < t.running@.len() implies #[trigger] t.running@[i] == (s.op
                == ContainersOp::Stop) by {
                assert(t.running@[i] == (chosen[i].state@ == "running"@));
                assert(containers_acted_on(s.op)(chosen[i]));
            }
        }
    }
}

/// `name` is the name of a container of stack `stack`: a slash, the stack's
/// name, a dash, then the rest.
pub open spec fn names_member_of(name: Seq<char>, stack: Seq<char>) -> bool {
    &&& name.len() >= stack.len() + 2
    &&& name[0] == '/'
    &&& forall|k: int| 0 <= k < stack.len() ==> name[k + 1] == #[trigger] stack[k]
    &&& name[stack.len() + 1int] == '-'
}

/// Some name of `names` is that of a container of stack `stack`.
pub open spec fn has_member_name(names: Seq<String>, stack: Seq<char>) -> bool {
    exists|j: int| 0 <= j < names.len() && #[trigger] names_member_of(names[j]@, stack)
}

proof fn lemma_member_prefix(name: Seq<char>, stack: Seq<char>)
    ensures
        has_prefix(name, stack_prefix(stack)) <==> names_member_of(name, stack),
{
    reveal_strlit("/");
    reveal_strlit("-");
    let p = stack_prefix(stack);
    assert(p.len() == stack.len() + 2);
    assert(p[0] == '/');
    assert(p[stack.len() + 1int] == '-');
    assert forall|k: int| 0 <= k < stack.len() implies p[k + 1] == stack[k] by {}
    if has_prefix(name, p) {
        assert forall|k: int| 0 <= k < stack.len() implies name[k + 1] == #[trigger] stack[k] by {
            assert(name.subrange(0, p.len() as int)[k + 1] == p[k + 1]);
        }
        assert(name.subrange(0, p.len() as int)[0] == p[0]);
        assert(name.subrange(0, p.len() as int)[stack.len() + 1int] == p[stack.len() + 1int]);
    }
    if names_member_of(name, stack) {
        assert(name.subrange(0, p.len() as int) =~= p) by {
            assert forall|k: int| 0 <= k < p.len() implies name.subrange(0, p.len() as int)[k] == p[k] by {
                if 1 <= k <= stack.len() {
                    assert(name[(k - 1) + 1] == stack[k - 1]);
                }
            }
        }
    }
}

/// The containers of a stack are exactly those with a name made of a slash,
/// the stack's name and a dash: every container given has such a name, and
/// every container of the listing with such a name is given. So the
/// containers of another stack whose name merely starts with this one's
/// (`shopfront` for `shop`) are never among them; an unknown stack has none.
pub proof fn law_stack_containers_are_its_own(all: Seq<ContainerInfo>, stack: Seq<char>)
    ensures
        forall|k: int|
            0 <= k < containers_of(all, Some(stack)).len() ==> has_member_name(
                (#[trigger] containers_of(all, Some(stack))[k]).names@,
                stack,
            ),
        forall|i: int, j: int|
            0 <= i < all.len() && 0 <= j < all[i].names@.len() && #[trigger] names_member_of(
                all[i].names@[j]@,
                stack,
            ) ==> containers_of(all, Some(stack)).contains(all[i]),
        containers_of(all, None).len() == 0,
{
    let f = of_named_stack(stack);
    let out = all.filter(f);
    assert(containers_of(all, Some(stack)) == out);
    assert forall|k: int| 0 <= k < out.len() implies has_member_name((#[trigger] out[k]).names@, stack) by {
        all.lemma_filter_pred(f, k);
        let c = out[k];
        let j = choose|j: int| 0 <= j < c.names@.len() && has_prefix((#[trigger] c.names@[j])@, stack_prefix(stack));
        lemma_member_prefix(c.names@[j]@, stack);
        assert(names_member_of(out[k].names@[j]@, stack));
    }
    assert forall|i: int, j: int|
        0 <= i < all.len() && 0 <= j < all[i].names@.len() && #[trigger] names_member_of(
            all[i].names@[j]@,
            stack,
        ) implies out.contains(all[i]) by {
        lemma_member_prefix(all[i].names@[j]@, stack);
        assert(f(all[i]));
        all.lemma_filter_contains(f, i);
    }
}

} // verus!
