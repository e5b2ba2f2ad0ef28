//! Environment variables of a stack: new records, what is shown of them, and
//! the environment a container gets.
use vstd::prelude::*;
use crate::env::{env_for, env_map_for_container, StackEnvVar};
use crate::ids::{new_uuid, now_rfc3339};
use crate::labels::{as_map, distinct_keys};
use crate::server::services::environment::{new_record, shows, StackEnvVarResponse};

verus! {

/// Environment variable operations.
pub struct EnvironmentUsecase {}

impl EnvironmentUsecase {
    pub fn new() -> (u: EnvironmentUsecase) {
        EnvironmentUsecase {}
    }

    /// What is shown of the stack's variables `vars`: secret values hidden.
    pub fn list_vars(&self, vars: Vec<StackEnvVar>) -> (r: Vec<StackEnvVarResponse>)
        ensures
            r@.len() == vars@.len(),
            forall|i: int| 0 <= i < vars@.len() ==> shows(#[trigger] r@[i], vars@[i]),
    {
        StackEnvVarResponse::from_vars(vars)
    }

    /// The environment of `container_name` from the stack's variables `vars`:
    /// the global ones, overridden by the container's own.
    pub fn get_env_map_for_container(&self, vars: &Vec<StackEnvVar>, container_name: &str) -> (r:
        Vec<(String, String)>)
        ensures
            distinct_keys(r@),
            as_map(r@) == env_for(vars@, container_name@),
    {
        env_map_for_container(vars, container_name)
    }

    /// The record that sets `key` of `container_name` in stack `stack_id` to
    /// `value`: a fresh id, created and updated now.
    pub fn set_var(
        &self,
        stack_id: &str,
        container_name: &str,
        key: &str,
        value: &str,
        is_secret: bool,
    ) -> (r: StackEnvVar)
        ensures
            new_record(r, stack_id@, container_name@, key@, value@, is_secret),
    {
        let now = now_rfc3339();
        StackEnvVar {
            id: new_uuid(),
            stack_id: stack_id.to_owned(),
            container_name: container_name.to_owned(),
            key: key.to_owned(),
            value: value.to_owned(),
            is_secret,
            created_at: now.clone(),
            updated_at: now,
        }
    }

    /// The records that set each `(key, value, is_secret)` of `vars` for
    /// `container_name` in stack `stack_id`, in order.
    pub fn bulk_set(&self, stack_id: &str, container_name: &str, vars: &Vec<(String, String, bool)>) -> (r:
        Vec<StackEnvVar>)
        ensures
            r@.len() == vars@.len(),
            forall|i: int|
                0 <= i < vars@.len() ==> new_record(
                    #[trigger] r@[i],
                    stack_id@,
                    container_name@,
                    vars@[i].0@,
                    vars@[i].1@,
                    vars@[i].2,
                ),
    {
        let mut r: Vec<StackEnvVar> = Vec::new();
        let mut i: usize = 0;
        while i < vars.len()
            invariant
                i <= vars@.len(),
                r@.len() == i,
                forall|j: int|
                    0 <= j < i ==> new_record(
                        #[trigger] r@[j],
                        stack_id@,
                        container_name@,
                        vars@[j].0@,
                        vars@[j].1@,
                        vars@[j].2,
                    ),
            decreases vars@.len() - i,
        {
            let (key, value, is_secret) = &vars[i];
            let v = self.set_var(stack_id, container_name, key.as_str(), value.as_str(), *is_secret);
            r.push(v);
            i = i + 1;
        }
        r
    }
}

} // verus!
