//! Checking that a domain resolves where the platform expects it.
use vstd::prelude::*;
use crate::text::{chars_of, string_of};

verus! {

/// Result of DNS verification.
#[derive(Debug, Clone, PartialEq, Eq)]
pub struct DnsVerificationResult {
    pub domain: String,
    pub verified: bool,
    pub a_records: Vec<String>,
    pub cname_records: Vec<String>,
}

/// Some record of `records` reads exactly `expected`.
pub open spec fn has_record(records: Seq<String>, expected: Seq<char>) -> bool {
    exists|i: int| 0 <= i < records.len() && (#[trigger] records[i])@ == expected
}

/// Whether a lookup verifies the domain: with an expected address, some A
/// record equals it; without, any A or CNAME record at all.
pub open spec fn dns_verified(
    a_records: Seq<String>,
    cname_records: Seq<String>,
    expected: Option<Seq<char>>,
) -> bool {
    match expected {
        Some(ip) => has_record(a_records, ip),
        None => a_records.len() > 0 || cname_records.len() > 0,
    }
}

/// With an expected address, a domain is verified exactly when one of its A
/// records is that address, whatever its CNAME records; without one, exactly
/// when the lookup found any record at all.
pub proof fn law_verified_means_pointing_here(
    a_records: Seq<String>,
    cname_records: Seq<String>,
    other_cnames: Seq<String>,
    expected: Seq<char>,
)
    ensures
        dns_verified(a_records, cname_records, Some(expected)) <==> exists|i: int|
            0 <= i < a_records.len() && (#[trigger] a_records[i])@ == expected,
        dns_verified(a_records, cname_records, Some(expected)) == dns_verified(
            a_records,
            other_cnames,
            Some(expected),
        ),
        a_records.len() == 0 ==> !dns_verified(a_records, cname_records, Some(expected)),
        dns_verified(a_records, cname_records, None) <==> (a_records.len() > 0 || cname_records.len()
            > 0),
{
}

/// Whether some element of `records` equals `expected`.
pub fn any_record_equals(records: &Vec<String>, expected: &str) -> (r: bool)
    ensures
        r == has_record(records@, expected@),
{
    let mut i: usize = 0;
    while i < records.len()
        invariant
            i <= records.len(),
            forall|j: int| 0 <= j < i ==> (#[trigger] records@[j])@ != expected@,
        decreases records.len() - i,
    {
        if crate::text::str_eq(records[i].as_str(), expected) {
            return true;
        }
        i = i + 1;
    }
    false
}

/// The verification verdict for the records a lookup returned.
pub fn verify_records(
    a_records: &Vec<String>,
    cname_records: &Vec<String>,
    expected: Option<&str>,
) -> (r: bool)
    ensures
        r == dns_verified(a_records@, cname_records@, match expected {
            Some(e) => Some(e@),
            None => None,
        }),
{
    match expected {
        Some(e) => any_record_equals(a_records, e),
        None => a_records.len() > 0 || cname_records.len() > 0,
    }
}

/// `s` with every trailing dot removed.
pub open spec fn without_trailing_dots(s: Seq<char>) -> Seq<char>
    decreases s.len(),
{
    if s.len() > 0 && s.last() == '.' {
        without_trailing_dots(s.drop_last())
    } else {
        s
    }
}

/// A CNAME target as the lookup reports it, with its trailing dots removed.
pub fn trim_trailing_dots(name: &str) -> (r: String)
    ensures
        r@ == without_trailing_dots(name@),
{
    let mut v = chars_of(name);
    while v.len() > 0 && v[v.len() - 1] == '.'
        invariant
            without_trailing_dots(v@) == without_trailing_dots(name@),
        decreases v.len(),
    {
        let ghost before = v@;
        v.pop();
        proof {
            assert(v@ =~= before.drop_last());
        }
    }
    string_of(&v)
}

/// The result of verifying `domain` from the records of a lookup.
pub fn verification_result(
    domain: &str,
    a_records: Vec<String>,
    cname_records: Vec<String>,
    expected: Option<&str>,
) -> (r: DnsVerificationResult)
    ensures
        r.domain@ == domain@,
        r.a_records@ == a_records@,
        r.cname_records@ == cname_records@,
        r.verified == dns_verified(a_records@, cname_records@, match expected {
            Some(e) => Some(e@),
            None => None,
        }),
{
    let verified = verify_records(&a_records, &cname_records, expected);
    DnsVerificationResult {
        domain: string_of(&chars_of(domain)),
        verified,
        a_records,
        cname_records,
    }
}

/// The CNAME targets of a lookup with their trailing dots removed.
pub fn trimmed_targets(targets: &Vec<String>) -> (r: Vec<String>)
    ensures
        r@.len() == targets@.len(),
        forall|i: int|
            0 <= i < r@.len() ==> (#[trigger] r@[i])@ == without_trailing_dots(targets@[i]@),
{
    let mut r: Vec<String> = Vec::new();
    let mut i: usize = 0;
    while i < targets.len()
        invariant
            i <= targets.len(),
            r@.len() == i,
            forall|j: int|
                0 <= j < i ==> (#[trigger] r@[j])@ == without_trailing_dots(targets@[j]@),
        decreases targets.len() - i,
    {
        r.push(trim_trailing_dots(targets[i].as_str()));
        i = i + 1;
    }
    r
}

/// The result of verifying `domain` from what a lookup returned: its A
/// records, and its CNAME targets as the resolver prints them (with trailing
/// dots, which are removed).
pub fn verify_lookup(
    domain: &str,
    a_records: Vec<String>,
    cname_targets: &Vec<String>,
    expected: Option<&str>,
) -> (r: DnsVerificationResult)
    ensures
        r.domain@ == domain@,
        r.a_records@ == a_records@,
        r.cname_records@.len() == cname_targets@.len(),
        forall|i: int|
            0 <= i < r.cname_records@.len() ==> (#[trigger] r.cname_records@[i])@
                == without_trailing_dots(cname_targets@[i]@),
        r.verified == dns_verified(a_records@, r.cname_records@, match expected {
            Some(e) => Some(e@),
            None => None,
        }),
{
    let cnames = trimmed_targets(cname_targets);
    verification_result(domain, a_records, cnames, expected)
}

} // verus!
