//! Stored stacks and how they are shown.
use vstd::prelude::*;

verus! {

/// A stored stack.
#[derive(Debug)]
pub struct Stack {
    pub id: String,
    pub name: String,
    pub user_id: String,
    pub compose_content: Option<String>,
    pub status: String,
    pub webhook_token: Option<String>,
    pub created_at: String,
    pub updated_at: String,
}

/// A stack to create from a compose file.
#[derive(Debug)]
pub struct CreateStack {
    pub name: String,
    pub compose_content: String,
}

/// What is shown of a stack, with the number of its containers.
#[derive(Debug)]
pub struct StackResponse {
    pub id: String,
    pub name: String,
    pub user_id: String,
    pub compose_content: Option<String>,
    pub status: String,
    pub webhook_token: Option<String>,
    pub container_count: i64,
    pub created_at: String,
    pub updated_at: String,
}

/// The shown form of a stack, its containers not counted yet.
pub open spec fn stack_response(s: Stack) -> StackResponse {
    StackResponse {
        id: s.id,
        name: s.name,
        user_id: s.user_id,
        compose_content: s.compose_content,
        status: s.status,
        webhook_token: s.webhook_token,
        container_count: 0,
        created_at: s.created_at,
        updated_at: s.updated_at,
    }
}

impl From<Stack> for StackResponse {
    fn from(s: Stack) -> (r: StackResponse) {
        StackResponse {
            id: s.id,
            name: s.name,
            user_id: s.user_id,
            compose_content: s.compose_content,
            status: s.status,
            webhook_token: s.webhook_token,
            container_count: 0,
            created_at: s.created_at,
            updated_at: s.updated_at,
        }
    }
}

impl vstd::std_specs::convert::FromSpecImpl<Stack> for StackResponse {
    open spec fn obeys_from_spec() -> bool {
        true
    }

    open spec fn from_spec(s: Stack) -> StackResponse {
        stack_response(s)
    }
}

} // verus!
