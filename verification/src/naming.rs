//! How containers of a stack are named, and lookups over container names.
use vstd::prelude::*;
use crate::text::{chars_eq, chars_of, has_prefix, push_str, starts_with, string_of};

verus! {

/// The name prefix of every container of stack `stack`: `/<stack>-`.
pub open spec fn stack_prefix(stack: Seq<char>) -> Seq<char> {
    "/"@ + stack + "-"@
}

/// The name of the container of `service` in stack `stack`: `/<stack>-<service>`.
pub open spec fn service_container(stack: Seq<char>, service: Seq<char>) -> Seq<char> {
    "/"@ + stack + "-"@ + service
}

/// Some name in `names` equals `n`.
pub open spec fn has_name(names: Seq<String>, n: Seq<char>) -> bool {
    exists|i: int| 0 <= i < names.len() && (#[trigger] names[i])@ == n
}

/// Some name in `names` begins with `p`.
pub open spec fn has_name_prefix(names: Seq<String>, p: Seq<char>) -> bool {
    exists|i: int| 0 <= i < names.len() && has_prefix((#[trigger] names[i])@, p)
}

/// The first name, or the empty text when there is none.
pub open spec fn first_name(names: Seq<String>) -> Seq<char> {
    if names.len() > 0 {
        names[0]@
    } else {
        Seq::empty()
    }
}

/// `/<stack>-`.
pub fn stack_prefix_of(stack: &str) -> (r: Vec<char>)
    ensures
        r@ == stack_prefix(stack@),
{
    let mut v = chars_of("/");
    push_str(&mut v, stack);
    push_str(&mut v, "-");
    v
}

/// `/<stack>-<service>`.
pub fn service_container_of(stack: &str, service: &str) -> (r: Vec<char>)
    ensures
        r@ == service_container(stack@, service@),
{
    let mut v = stack_prefix_of(stack);
    push_str(&mut v, service);
    v
}

/// Whether some name equals `n`.
pub fn any_name_is(names: &Vec<String>, n: &Vec<char>) -> (r: bool)
    ensures
        r == has_name(names@, n@),
{
    let mut i: usize = 0;
    while i < names.len()
        invariant
            i <= names.len(),
            forall|j: int| 0 <= j < i ==> (#[trigger] names@[j])@ != n@,
        decreases names.len() - i,
    {
        if chars_eq(&chars_of(names[i].as_str()), n) {
            return true;
        }
        i = i + 1;
    }
    false
}

/// Whether some name begins with `p`.
pub fn any_name_starts_with(names: &Vec<String>, p: &Vec<char>) -> (r: bool)
    ensures
        r == has_name_prefix(names@, p@),
{
    let mut i: usize = 0;
    while i < names.len()
        invariant
            i <= names.len(),
            forall|j: int| 0 <= j < i ==> !has_prefix((#[trigger] names@[j])@, p@),
        decreases names.len() - i,
    {
        if starts_with(&chars_of(names[i].as_str()), p) {
            return true;
        }
        i = i + 1;
    }
    false
}

/// The first name, or the empty text.
pub fn first_name_of(names: &Vec<String>) -> (r: String)
    ensures
        r@ == first_name(names@),
{
    if names.len() > 0 {
        names[0].clone()
    } else {
        String::new()
    }
}

/// `s` without its leading slashes.
pub open spec fn without_leading_slashes(s: Seq<char>) -> Seq<char>
    decreases s.len(),
{
    if s.len() > 0 && s[0] == '/' {
        without_leading_slashes(s.drop_first())
    } else {
        s
    }
}

/// A container name without its leading slashes.
pub fn trim_leading_slashes(s: &str) -> (r: String)
    ensures
        r@ == without_leading_slashes(s@),
{
    let v = chars_of(s);
    let mut i: usize = 0;
    proof {
        assert(v@.subrange(0, v@.len() as int) =~= v@);
    }
    while i < v.len() && v[i] == '/'
        invariant
            i <= v.len(),
            without_leading_slashes(v@.subrange(i as int, v@.len() as int)) == without_leading_slashes(
                v@,
            ),
        decreases v.len() - i,
    {
        proof {
            let rest = v@.subrange(i as int, v@.len() as int);
            assert(rest.drop_first() =~= v@.subrange(i + 1, v@.len() as int));
        }
        i = i + 1;
    }
    let mut out: Vec<char> = Vec::new();
    let mut k: usize = i;
    while k < v.len()
        invariant
            i <= k <= v.len(),
            out@ == v@.subrange(i as int, k as int),
        decreases v.len() - k,
    {
        out.push(v[k]);
        proof {
            assert(out@ =~= v@.subrange(i as int, k + 1));
        }
        k = k + 1;
    }
    proof {
        assert(out@ =~= v@.subrange(i as int, v@.len() as int));
    }
    string_of(&out)
}

} // verus!
