//! Domain service: naming, upstreams and verification of custom domains.
use vstd::prelude::*;
use crate::server::models::domain::Domain;
use crate::slug::{collapse_single_pass, dash_mapped, slug_of};
use crate::text::{chars_of, decimal, push_str, str_eq, string_of};

pub use crate::dns::DnsVerificationResult;

verus! {

/// Domain management for stacks.
pub struct DomainService {}

/// The upstream a stack's domain routes to: the stack name on port 80.
pub open spec fn stack_upstream_of(stack_name: Seq<char>) -> Seq<char> {
    stack_name + ":80"@
}

impl DomainService {
    pub fn new() -> (s: DomainService) {
        DomainService {}
    }

    /// Generate a subdomain for a stack based on naming convention:
    /// `<slug of the stack name>.<base domain>`.
    pub fn generate_subdomain(stack_name: &str, base_domain: &str) -> (r: String)
        ensures
            r@ == slug_of(stack_name@) + "."@ + base_domain@,
    {
        let sanitized = dash_mapped(stack_name);
        let mut result = collapse_single_pass(&sanitized);
        push_str(&mut result, ".");
        push_str(&mut result, base_domain);
        string_of(&result)
    }

    /// Stack upstream address: the stack name with the default port 80.
    pub fn stack_upstream(stack_name: &str) -> (r: String)
        ensures
            r@ == stack_upstream_of(stack_name@),
    {
        let mut v = chars_of(stack_name);
        push_str(&mut v, ":80");
        string_of(&v)
    }

    /// Among the stack's domains, the one already named `subdomain`, if any:
    /// creating an automatic subdomain twice gives back the first one.
    pub fn find_existing_subdomain(domains: &Vec<Domain>, subdomain: &str) -> (r: Option<usize>)
        ensures
            r matches Some(i) ==> i < domains@.len() && domains@[i as int].domain@ == subdomain@
                && forall|j: int| 0 <= j < i ==> domains@[j].domain@ != subdomain@,
            r is None ==> forall|j: int|
                0 <= j < domains@.len() ==> (#[trigger] domains@[j]).domain@ != subdomain@,
    {
        let mut i: usize = 0;
        while i < domains.len()
            invariant
                i <= domains.len(),
                forall|j: int| 0 <= j < i ==> (#[trigger] domains@[j]).domain@ != subdomain@,
            decreases domains.len() - i,
        {
            if str_eq(domains[i].domain.as_str(), subdomain) {
                return Some(i);
            }
            i = i + 1;
        }
        None
    }
}

} // verus!
