//! Fresh identifiers, tokens and timestamps.
use vstd::prelude::*;

verus! {

/// A lowercase hexadecimal digit.
pub open spec fn is_lower_hex(c: char) -> bool {
    ('0' <= c && c <= '9') || ('a' <= c && c <= 'f')
}

/// The text of a UUID: 32 lowercase hexadecimal digits in groups of 8, 4,
/// 4, 4 and 12, separated by hyphens.
pub open spec fn uuid_shaped(s: Seq<char>) -> bool {
    &&& s.len() == 36
    &&& forall|i: int|
        0 <= i < 36 ==> if i == 8 || i == 13 || i == 18 || i == 23 {
            s[i] == '-'
        } else {
            is_lower_hex(#[trigger] s[i])
        }
}

/// An ASCII letter or digit.
pub open spec fn is_ascii_alphanumeric(c: char) -> bool {
    ('0' <= c && c <= '9') || ('a' <= c && c <= 'z') || ('A' <= c && c <= 'Z')
}

/// `uuid::Uuid::new_v4().to_string()`: a random version-4 UUID in its
/// hyphenated lowercase form. Only its shape is stated.
#[verifier::external_body]
pub(crate) fn new_uuid() -> (r: String)
    ensures
        uuid_shaped(r@),
{
    uuid::Uuid::new_v4().to_string()
}

/// `len` characters sampled from `rand::distributions::Alphanumeric` with the
/// thread's generator: ASCII letters and digits. Which ones is left open.
#[verifier::external_body]
pub(crate) fn random_alphanumeric(len: usize) -> (r: String)
    ensures
        r@.len() == len,
        forall|i: int| 0 <= i < len ==> is_ascii_alphanumeric(#[trigger] r@[i]),
{
    rand::Rng::sample_iter(rand::thread_rng(), &rand::distributions::Alphanumeric).take(len).map(
        char::from,
    ).collect()
}

/// `chrono::Utc::now().to_rfc3339()`: the current time. Nothing is stated of
/// it.
#[verifier::external_body]
pub(crate) fn now_rfc3339() -> (r: String) {
    chrono::Utc::now().to_rfc3339()
}

/// `chrono::Utc::now().format("%Y-%m-%d %H:%M:%S").to_string()`: the current
/// time as the database stores it. Nothing is stated of it.
#[verifier::external_body]
pub(crate) fn now_timestamp() -> (r: String) {
    chrono::Utc::now().format("%Y-%m-%d %H:%M:%S").to_string()
}

/// The largest distance, in seconds, of an instant `chrono` can hold from
/// the Unix epoch: its years run from -262143 to 262142, less than 10^13
/// seconds either way.
pub open spec fn clock_range() -> int {
    10_000_000_000_000
}

/// `chrono::Utc::now().timestamp()`: the current time as a Unix timestamp.
/// Which instant it is is left open; it lies in the range of `chrono`'s
/// dates.
#[verifier::external_body]
pub(crate) fn now_unix() -> (r: i64)
    ensures
        -clock_range() <= r <= clock_range(),
{
    chrono::Utc::now().timestamp()
}

/// The RFC 3339 text of the instant `ts` seconds after the Unix epoch, as
/// `chrono` writes it in UTC; none when `chrono` cannot hold that instant.
pub uninterp spec fn rfc3339_of(ts: i64) -> Option<Seq<char>>;

/// `chrono::DateTime::from_timestamp(ts, 0)`, then `to_rfc3339()`.
#[verifier::external_body]
pub(crate) fn rfc3339_at(ts: i64) -> (r: Option<String>)
    ensures
        r matches Some(t) ==> rfc3339_of(ts) == Some(t@),
        r is None ==> rfc3339_of(ts) is None,
{
    chrono::DateTime::from_timestamp(ts, 0).map(|t| t.to_rfc3339())
}

/// The length of webhook tokens.
pub open spec fn token_length() -> nat {
    32
}

/// A fresh webhook token: 32 random ASCII letters and digits.
pub fn generate_token() -> (r: String)
    ensures
        r@.len() == token_length(),
        forall|i: int| 0 <= i < r@.len() ==> is_ascii_alphanumeric(#[trigger] r@[i]),
{
    random_alphanumeric(32)
}

} // verus!
