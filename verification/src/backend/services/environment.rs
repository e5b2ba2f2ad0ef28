//! Environment variables of stacks as the backend stores them: setting one
//! updates the variable of the same stack, container and key, or adds it.
use vstd::prelude::*;
use crate::env::StackEnvVar;
use crate::error::AppError;
use crate::ids::{new_uuid, now_timestamp, uuid_shaped};

verus! {

/// A request to set one variable of a container.
#[derive(Debug)]
pub struct SetEnvVarRequest {
    pub container_name: String,
    pub key: String,
    pub value: String,
}

/// A key and its value.
#[derive(Debug)]
pub struct EnvVarItem {
    pub key: String,
    pub value: String,
}

/// A request to set several variables of a container.
#[derive(Debug)]
pub struct BulkSetEnvVarRequest {
    pub container_name: String,
    pub vars: Vec<EnvVarItem>,
}

/// What is shown of a variable.
#[derive(Debug)]
pub struct StackEnvVarResponse {
    pub id: String,
    pub stack_id: String,
    pub container_name: String,
    pub key: String,
    pub value: String,
    pub created_at: String,
    pub updated_at: String,
}

/// The response showing `v`.
pub open spec fn response_of(v: StackEnvVar) -> StackEnvVarResponse {
    StackEnvVarResponse {
        id: v.id,
        stack_id: v.stack_id,
        container_name: v.container_name,
        key: v.key,
        value: v.value,
        created_at: v.created_at,
        updated_at: v.updated_at,
    }
}

impl From<StackEnvVar> for StackEnvVarResponse {
    fn from(var: StackEnvVar) -> (r: StackEnvVarResponse) {
        StackEnvVarResponse {
            id: var.id,
            stack_id: var.stack_id,
            container_name: var.container_name,
            key: var.key,
            value: var.value,
            created_at: var.created_at,
            updated_at: var.updated_at,
        }
    }
}

impl vstd::std_specs::convert::FromSpecImpl<StackEnvVar> for StackEnvVarResponse {
    open spec fn obeys_from_spec() -> bool {
        true
    }

    open spec fn from_spec(var: StackEnvVar) -> StackEnvVarResponse {
        response_of(var)
    }
}

/// How a variable is written.
#[derive(Debug)]
pub enum EnvWrite {
    /// The stored variable `id` takes `value`.
    Update { id: String, value: String, updated_at: String },
    /// A new variable, with a fresh id.
    Insert { id: String, stack_id: String, container_name: String, key: String, value: String, now: String },
}

/// `w` writes `key` = `value` for `container_name` of stack `stack_id`, given
/// the id of the variable stored for them, if any.
pub open spec fn writes(
    w: EnvWrite,
    existing: Option<String>,
    stack_id: Seq<char>,
    container_name: Seq<char>,
    key: Seq<char>,
    value: Seq<char>,
) -> bool {
    match existing {
        Some(id) => w matches EnvWrite::Update { id: i, value: v, .. } && i == id && v@ == value,
        None => w matches EnvWrite::Insert { id, stack_id: s, container_name: c, key: k, value: v, .. }
            && uuid_shaped(id@) && s@ == stack_id && c@ == container_name && k@ == key && v@ == value,
    }
}

/// Environment variables of stacks.
pub struct EnvironmentService {}

impl EnvironmentService {
    pub fn new() -> (s: EnvironmentService) {
        EnvironmentService {}
    }

    /// How setting `key` of `container_name` in stack `stack_id` to `value`
    /// is written, given the id of the variable stored for them, if any.
    pub fn set(&self, existing: Option<String>, stack_id: &str, container_name: &str, key: &str, value: &str) -> (w:
        EnvWrite)
        ensures
            writes(w, existing, stack_id@, container_name@, key@, value@),
    {
        let now = now_timestamp();
        match existing {
            Some(id) => EnvWrite::Update { id, value: value.to_owned(), updated_at: now },
            None => EnvWrite::Insert {
                id: new_uuid(),
                stack_id: stack_id.to_owned(),
                container_name: container_name.to_owned(),
                key: key.to_owned(),
                value: value.to_owned(),
                now,
            },
        }
    }

    /// The variable read back by id: not found when it is missing.
    pub fn get(&self, found: Option<StackEnvVar>) -> (r: Result<StackEnvVar, AppError>)
        ensures
            match found {
                Some(v) => r == Ok::<StackEnvVar, AppError>(v),
                None => r matches Err(AppError::NotFound(m)) && m@ == "Environment variable not found"@,
            },
    {
        match found {
            Some(v) => Ok(v),
            None => {
                proof {
                    reveal_strlit("Environment variable not found");
                }
                Err(AppError::NotFound("Environment variable not found".to_owned()))
            },
        }
    }

    /// How each item of `vars` is written for `container_name` of stack
    /// `stack_id`, in order, given per item the id of the variable stored
    /// for its key, if any.
    pub fn bulk_set(
        &self,
        stack_id: &str,
        container_name: &str,
        vars: &Vec<EnvVarItem>,
        existing: Vec<Option<String>>,
    ) -> (r: Vec<EnvWrite>)
        requires
            vars@.len() == existing@.len(),
        ensures
            r@.len() == vars@.len(),
            forall|i: int|
                0 <= i < vars@.len() ==> writes(
                    #[trigger] r@[i],
                    existing@[i],
                    stack_id@,
                    container_name@,
                    vars@[i].key@,
                    vars@[i].value@,
                ),
    {
        let ghost orig = existing@;
        let mut rest = existing;
        let mut r: Vec<EnvWrite> = Vec::new();
        let mut i: usize = 0;
        proof {
            assert(rest@ =~= orig.subrange(0, orig.len() as int));
        }
        while i < vars.len()
            invariant
                i <= vars@.len(),
                vars@.len() == orig.len(),
                rest@ == orig.subrange(i as int, orig.len() as int),
                r@.len() == i,
                forall|j: int|
                    0 <= j < i ==> writes(
                        #[trigger] r@[j],
                        orig[j],
                        stack_id@,
                        container_name@,
                        vars@[j].key@,
                        vars@[j].value@,
                    ),
            decreases vars@.len() - i,
        {
            let e = rest.remove(0);
            proof {
                assert(e == orig[i as int]);
                assert(rest@ =~= orig.subrange(i + 1, orig.len() as int));
            }
            let w = self.set(e, stack_id, container_name, vars[i].key.as_str(), vars[i].value.as_str());
            r.push(w);
            i = i + 1;
        }
        r
    }
}

} // verus!
