//! Stack environment variables as stored: setting one updates the variable of
//! the same stack, container and key or adds a new one, and secret values are
//! never shown.
use vstd::prelude::*;
use crate::env::{env_for, env_map_for_container, StackEnvVar};
use crate::error::AppError;
use crate::ids::{new_uuid, now_rfc3339, uuid_shaped};
use crate::labels::{as_map, distinct_keys};
use crate::text::concat3;

verus! {

/// What is shown of a variable: its value is hidden when it is secret.
#[derive(Debug)]
pub struct StackEnvVarResponse {
    pub id: String,
    pub stack_id: String,
    pub container_name: String,
    pub key: String,
    pub value: String,
    pub is_secret: bool,
    pub created_at: String,
    pub updated_at: String,
}

/// The mask shown in place of a secret value.
pub open spec fn secret_mask() -> Seq<char> {
    "********"@
}

/// The value shown for `v`.
pub open spec fn shown_value(v: StackEnvVar) -> Seq<char> {
    if v.is_secret {
        secret_mask()
    } else {
        v.value@
    }
}

/// `r` shows `v`.
pub open spec fn shows(r: StackEnvVarResponse, v: StackEnvVar) -> bool {
    &&& r.id == v.id
    &&& r.stack_id == v.stack_id
    &&& r.container_name == v.container_name
    &&& r.key == v.key
    &&& r.value@ == shown_value(v)
    &&& r.is_secret == v.is_secret
    &&& r.created_at == v.created_at
    &&& r.updated_at == v.updated_at
}

impl StackEnvVarResponse {
    /// What is shown of `env`.
    pub fn from_var(env: StackEnvVar) -> (r: StackEnvVarResponse)
        ensures
            shows(r, env),
    {
        let value = if env.is_secret {
            "********".to_owned()
        } else {
            env.value.clone()
        };
        proof {
            reveal_strlit("********");
        }
        StackEnvVarResponse {
            id: env.id,
            stack_id: env.stack_id,
            container_name: env.container_name,
            key: env.key,
            value,
            is_secret: env.is_secret,
            created_at: env.created_at,
            updated_at: env.updated_at,
        }
    }

    /// What is shown of each variable of `vars`, in order.
    pub fn from_vars(vars: Vec<StackEnvVar>) -> (r: Vec<StackEnvVarResponse>)
        ensures
            r@.len() == vars@.len(),
            forall|i: int| 0 <= i < vars@.len() ==> shows(#[trigger] r@[i], vars@[i]),
    {
        let ghost orig = vars@;
        let mut rest = vars;
        let mut r: Vec<StackEnvVarResponse> = Vec::new();
        let mut i: usize = 0;
        proof {
            assert(rest@ =~= orig.subrange(0, orig.len() as int));
            assert(orig.len() == rest.len());
        }
        while rest.len() > 0
            invariant
                i <= orig.len() <= usize::MAX,
                rest@ == orig.subrange(i as int, orig.len() as int),
                r@.len() == i,
                forall|j: int| 0 <= j < i ==> shows(#[trigger] r@[j], orig[j]),
            decreases rest.len(),
        {
            let v = rest.remove(0);
            proof {
                assert(v == orig[i as int]);
                assert(rest@ =~= orig.subrange(i + 1, orig.len() as int));
            }
            r.push(StackEnvVarResponse::from_var(v));
            i = i + 1;
        }
        r
    }
}

/// How a variable is written.
#[derive(Debug)]
pub enum EnvWrite {
    /// The variable of the same stack, container and key, `id`, takes the new
    /// value and secrecy.
    Update { id: String, value: String, is_secret: bool, updated_at: String },
    /// A new variable.
    Insert(StackEnvVar),
}

/// A new variable record, created and updated at `now`.
pub open spec fn new_record(
    r: StackEnvVar,
    stack_id: Seq<char>,
    container_name: Seq<char>,
    key: Seq<char>,
    value: Seq<char>,
    is_secret: bool,
) -> bool {
    &&& uuid_shaped(r.id@)
    &&& r.stack_id@ == stack_id
    &&& r.container_name@ == container_name
    &&& r.key@ == key
    &&& r.value@ == value
    &&& r.is_secret == is_secret
    &&& r.created_at == r.updated_at
}

/// The message of deleting a variable that does not exist.
pub open spec fn missing_var_message(key: Seq<char>, container_name: Seq<char>) -> Seq<char> {
    "Environment variable '"@ + key + "' for container '"@ + container_name + "' not found"@
}

/// Environment variables of stacks.
pub struct EnvironmentService {}

impl EnvironmentService {
    pub fn new() -> (s: EnvironmentService) {
        EnvironmentService {}
    }

    /// How setting `key` of `container_name` in stack `stack_id` to `value`
    /// is written, given the variable `existing` already stored for them:
    /// that one is updated, else a new one is added.
    pub fn set(
        &self,
        existing: Option<&StackEnvVar>,
        stack_id: &str,
        container_name: &str,
        key: &str,
        value: &str,
        is_secret: bool,
    ) -> (w: EnvWrite)
        ensures
            match existing {
                Some(e) => w matches EnvWrite::Update { id, value: v, is_secret: s, .. } && id == e.id
                    && v@ == value@ && s == is_secret,
                None => w matches EnvWrite::Insert(r) && new_record(
                    r,
                    stack_id@,
                    container_name@,
                    key@,
                    value@,
                    is_secret,
                ),
            },
    {
        let now = now_rfc3339();
        match existing {
            Some(e) => EnvWrite::Update {
                id: e.id.clone(),
                value: value.to_owned(),
                is_secret,
                updated_at: now,
            },
            None => {
                let id = new_uuid();
                EnvWrite::Insert(
                    StackEnvVar {
                        id,
                        stack_id: stack_id.to_owned(),
                        container_name: container_name.to_owned(),
                        key: key.to_owned(),
                        value: value.to_owned(),
                        is_secret,
                        created_at: now.clone(),
                        updated_at: now,
                    },
                )
            },
        }
    }

    /// The variable read back by id: not found when it is missing.
    pub fn get(&self, found: Option<StackEnvVar>) -> (r: Result<StackEnvVar, AppError>)
        ensures
            match found {
                Some(v) => r == Ok::<StackEnvVar, AppError>(v),
                None => r matches Err(AppError::NotFound(m)) && m@ == "Environment variable not found"@,
            },
    {
        match found {
            Some(v) => Ok(v),
            None => {
                proof {
                    reveal_strlit("Environment variable not found");
                }
                Err(AppError::NotFound("Environment variable not found".to_owned()))
            },
        }
    }

    /// The outcome of deleting `key` of `container_name`, which removed `rows`
    /// rows: not found when none was removed.
    pub fn delete(&self, rows: u64, container_name: &str, key: &str) -> (r: Result<(), AppError>)
        ensures
            rows > 0 ==> r is Ok,
            rows == 0 ==> (r matches Err(AppError::NotFound(m)) && m@ == missing_var_message(
                key@,
                container_name@,
            )),
    {
        if rows > 0 {
            Ok(())
        } else {
            let head = concat3("Environment variable '", key, "' for container '");
            let msg = concat3(head.as_str(), container_name, "' not found");
            Err(AppError::NotFound(msg))
        }
    }

    /// The environment of `container_name` from the stack's variables `vars`:
    /// the global ones, overridden by the container's own.
    pub fn get_env_map_for_container(&self, vars: &Vec<StackEnvVar>, container_name: &str) -> (r:
        Vec<(String, String)>)
        ensures
            distinct_keys(r@),
            as_map(r@) == env_for(vars@, container_name@),
    {
        env_map_for_container(vars, container_name)
    }
}

} // verus!
