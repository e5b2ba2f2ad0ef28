//! Verified core of the Labuh platform: the rules, plans and text
//! transformations behind stacks, domains, routing and access control.
pub mod backend;
pub mod dns;
pub mod env;
pub mod error;
pub mod health;
pub mod ids;
pub mod infra;
pub mod json;
pub mod labels;
pub mod naming;
pub mod proxy;
pub mod registry;
pub mod search;
pub mod server;
pub mod slug;
pub mod text;

use vstd::prelude::*;

verus! {

/// Tail length used when a log request names none.
pub fn default_tail() -> (n: usize)
    ensures
        n == 100,
{
    100
}

} // verus!
