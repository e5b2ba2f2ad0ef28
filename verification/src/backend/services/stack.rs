//! The stack service of the backend: stacks are records of their compose
//! file; their containers are those named `/<stack>-...`, deployed by the
//! same pipeline as on the server, with a few differences of its own.
use vstd::prelude::*;
use crate::backend::models::stack::Stack;
use crate::error::AppError;
use crate::ids::{generate_token, is_ascii_alphanumeric, new_uuid, now_timestamp, token_length, uuid_shaped};
use crate::naming::first_name;
use crate::server::services::container::ContainerInfo;
use crate::server::services::stack::{
    ContainersAction, ContainersFlow, ContainersOp, ContainersStage,
    StackService as ServerStacks,
};
use crate::server::services::stack_deploy::{
    StackDeployAction, StackDeployFlow, StackDeployOp, StackDeployStage,
};

verus! {

/// A log line of a stack, with the name of the container it came from.
#[derive(Debug)]
pub struct StackLogEntry {
    pub container_name: String,
    pub log: String,
}

/// The stack service of the backend.
pub struct StackService {}

/// `r` is the stack found, or not found.
pub open spec fn found_stack(found: Option<Stack>, r: Result<Stack, AppError>) -> bool {
    match found {
        Some(s) => r == Ok::<Stack, AppError>(s),
        None => r matches Err(AppError::NotFound(m)) && m@ == "Stack not found"@,
    }
}

impl StackService {
    pub fn new() -> (s: StackService) {
        StackService {}
    }

    /// The record of a new stack `name` of `user_id` with `compose_content`:
    /// a fresh id and webhook token, created, stamped now.
    pub fn create_stack(&self, name: &str, compose_content: &str, user_id: &str) -> (r: Stack)
        ensures
            uuid_shaped(r.id@),
            r.name@ == name@,
            r.user_id@ == user_id@,
            r.compose_content matches Some(c) && c@ == compose_content@,
            r.status@ == "created"@,
            r.webhook_token matches Some(t) && t@.len() == token_length() && forall|i: int|
                0 <= i < t@.len() ==> is_ascii_alphanumeric(#[trigger] t@[i]),
            r.created_at == r.updated_at,
    {
        proof {
            reveal_strlit("created");
        }
        let now = now_timestamp();
        Stack {
            id: new_uuid(),
            name: name.to_owned(),
            user_id: user_id.to_owned(),
            compose_content: Some(compose_content.to_owned()),
            status: "created".to_owned(),
            webhook_token: Some(generate_token()),
            created_at: now.clone(),
            updated_at: now,
        }
    }

    /// The stack found for its user, or not found.
    pub fn get_stack(&self, found: Option<Stack>) -> (r: Result<Stack, AppError>)
        ensures
            found_stack(found, r),
    {
        match found {
            Some(s) => Ok(s),
            None => {
                proof {
                    reveal_strlit("Stack not found");
                }
                Err(AppError::NotFound("Stack not found".to_owned()))
            },
        }
    }

    /// The stack found by id, or not found.
    pub fn get(&self, found: Option<Stack>) -> (r: Result<Stack, AppError>)
        ensures
            found_stack(found, r),
    {
        self.get_stack(found)
    }

    /// The stack found by id and webhook token: invalid credentials when
    /// none has both.
    pub fn validate_webhook_token(&self, found: Option<Stack>) -> (r: Result<Stack, AppError>)
        ensures
            match found {
                Some(s) => r == Ok::<Stack, AppError>(s),
                None => r == Err::<Stack, AppError>(AppError::InvalidCredentials),
            },
    {
        match found {
            Some(s) => Ok(s),
            None => Err(AppError::InvalidCredentials),
        }
    }

    /// A fresh webhook token.
    pub fn regenerate_webhook_token(&self) -> (r: String)
        ensures
            r@.len() == token_length(),
            forall|i: int| 0 <= i < r@.len() ==> is_ascii_alphanumeric(#[trigger] r@[i]),
    {
        generate_token()
    }

    /// The log entries of container `c` from what reading its logs gave: its
    /// first name (none when it has no name) with each line; a failure to
    /// read them is the stack's failure.
    pub fn get_stack_logs(c: &ContainerInfo, logs: Result<Vec<String>, AppError>) -> (r: Result<
        Vec<StackLogEntry>,
        AppError,
    >)
        ensures
            match logs {
                Err(e) => r == Err::<Vec<StackLogEntry>, AppError>(e),
                Ok(lines) => r matches Ok(v) && v@.len() == lines@.len() && forall|i: int|
                    0 <= i < lines@.len() ==> (#[trigger] v@[i]).container_name@ == first_name(c.names@)
                        && v@[i].log == lines@[i],
            },
    {
        let lines = match logs {
            Err(e) => return Err(e),
            Ok(l) => l,
        };
        let name = crate::naming::first_name_of(&c.names);
        let ghost orig = lines@;
        let mut rest = lines;
        let mut out: Vec<StackLogEntry> = Vec::new();
        let mut i: usize = 0;
        proof {
            assert(rest@ =~= orig.subrange(0, orig.len() as int));
            assert(orig.len() == rest.len());
        }
        while rest.len() > 0
            invariant
                i <= orig.len() <= usize::MAX,
                rest@ == orig.subrange(i as int, orig.len() as int),
                out@.len() == i,
                name@ == first_name(c.names@),
                forall|j: int|
                    0 <= j < i ==> (#[trigger] out@[j]).container_name@ == first_name(c.names@) && out@[j].log
                        == orig[j],
            decreases rest.len(),
        {
            let line = rest.remove(0);
            proof {
                assert(line == orig[i as int]);
                assert(rest@ =~= orig.subrange(i + 1, orig.len() as int));
            }
            out.push(StackLogEntry { container_name: name.clone(), log: line });
            i = i + 1;
        }
        Ok(out)
    }

    /// Starts starting stack `id` of `user_id`: its containers that do not
    /// run are started, then it is marked running.
    pub fn start_stack(&self, id: &str, user_id: &str) -> (r: (ContainersFlow, ContainersAction))
        ensures
            r.0.op == ContainersOp::Start,
            r.0.id@ == id@,
            r.0.user_id@ == user_id@,
            r.0.stage == ContainersStage::Loading,
            r.0.wf(),
            r.1 == (ContainersAction::GetStack { id: r.0.id, user_id: r.0.user_id }),
    {
        ServerStacks::containers_op(ContainersOp::Start, id, user_id)
    }

    /// Starts stopping stack `id` of `user_id`: its running containers are
    /// stopped, then it is marked stopped.
    pub fn stop_stack(&self, id: &str, user_id: &str) -> (r: (ContainersFlow, ContainersAction))
        ensures
            r.0.op == ContainersOp::Stop,
            r.0.id@ == id@,
            r.0.user_id@ == user_id@,
            r.0.stage == ContainersStage::Loading,
            r.0.wf(),
            r.1 == (ContainersAction::GetStack { id: r.0.id, user_id: r.0.user_id }),
    {
        ServerStacks::containers_op(ContainersOp::Stop, id, user_id)
    }

    /// Starts removing stack `id` of `user_id`: each container is stopped
    /// and removed, best effort, then the stack deleted.
    pub fn remove_stack(&self, id: &str, user_id: &str) -> (r: (ContainersFlow, ContainersAction))
        ensures
            r.0.op == ContainersOp::Discard,
            r.0.id@ == id@,
            r.0.user_id@ == user_id@,
            r.0.stage == ContainersStage::Loading,
            r.0.wf(),
            r.1 == (ContainersAction::GetStack { id: r.0.id, user_id: r.0.user_id }),
    {
        ServerStacks::containers_op(ContainersOp::Discard, id, user_id)
    }

    /// Starts redeploying stack `id`: it is read first.
    pub fn redeploy_stack(&self, id: &str) -> (r: (StackDeployFlow, StackDeployAction))
        ensures
            r.0.op == StackDeployOp::Redeploy,
            r.0.id@ == id@,
            r.0.stage == StackDeployStage::Loading,
            r.0.wf(),
            r.1 matches StackDeployAction::GetStack { id: i, user_id: None } && i@ == id@,
    {
        ServerStacks::deploy_from_stack(StackDeployOp::Redeploy, id, None, "", "")
    }

    /// Starts redeploying service `service_name` of stack `stack_id` of
    /// `user_id`: the stack is read first.
    pub fn redeploy_service(&self, stack_id: &str, service_name: &str, user_id: &str) -> (r: (
        StackDeployFlow,
        StackDeployAction,
    ))
        ensures
            r.0.op == StackDeployOp::RedeployNamed,
            r.0.id@ == stack_id@,
            r.0.target@ == service_name@,
            r.0.stage == StackDeployStage::Loading,
            r.0.wf(),
            r.1 matches StackDeployAction::GetStack { id: i, user_id: Some(u) } && i@ == stack_id@
                && u@ == user_id@,
    {
        ServerStacks::deploy_from_stack(StackDeployOp::RedeployNamed, stack_id, Some(user_id), service_name, "")
    }

    /// Whether the compose file of the stack found for its user may be
    /// replaced: not found otherwise. It is stored as given, without a
    /// redeployment.
    pub fn update_stack_compose(&self, found: Option<Stack>) -> (r: Result<(), AppError>)
        ensures
            found is Some ==> r is Ok,
            found is None ==> (r matches Err(AppError::NotFound(m)) && m@ == "Stack not found"@),
    {
        match self.get_stack(found) {
            Ok(_) => Ok(()),
            Err(e) => Err(e),
        }
    }
}

} // verus!
