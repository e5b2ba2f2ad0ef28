//! Projects: single-image applications deployed by the platform.
use vstd::prelude::*;
use crate::slug::{slug_chars, slug_of};
use crate::text::string_of;

verus! {

/// A stored project. `env_vars` holds a JSON object text, `domains` a JSON
/// array text.
#[derive(Debug, Clone, PartialEq, Eq)]
pub struct Project {
    pub id: String,
    pub name: String,
    pub slug: String,
    pub description: Option<String>,
    pub container_id: Option<String>,
    pub image: Option<String>,
    pub status: String,
    pub port: Option<i64>,
    pub env_vars: Option<String>,
    pub domains: Option<String>,
    pub webhook_token: Option<String>,
    pub user_id: String,
    pub created_at: String,
    pub updated_at: String,
}

/// A request to create a project. `env_vars` is the JSON text of the
/// requested environment object.
#[derive(Debug, Clone, PartialEq, Eq)]
pub struct CreateProject {
    pub name: String,
    pub description: Option<String>,
    pub image: Option<String>,
    pub port: Option<i64>,
    pub env_vars: Option<String>,
    pub domains: Option<Vec<String>>,
}

/// A request to change a project; absent fields keep their stored value.
/// `env_vars` is the JSON text of the requested environment object.
#[derive(Debug, Clone, PartialEq, Eq)]
pub struct UpdateProject {
    pub name: Option<String>,
    pub description: Option<String>,
    pub image: Option<String>,
    pub port: Option<i64>,
    pub env_vars: Option<String>,
    pub domains: Option<Vec<String>>,
}

/// Helper to create a slug from a name: lowercase, every non-alphanumeric
/// character a dash, dash runs collapsed, no leading or trailing dash.
pub fn slugify(name: &str) -> (slug: String)
    ensures
        slug@ == slug_of(name@),
{
    let v = slug_chars(name);
    string_of(&v)
}

} // verus!
