//! Container registries: which registry an image comes from, and how stored
//! registry passwords are encoded.
use vstd::prelude::*;
use vstd::utf8::{decode_utf8, encode_utf8, valid_utf8};
use crate::text::{chars_of, string_from_utf8, string_of};

verus! {

broadcast use vstd::utf8::encode_utf8_valid_utf8, vstd::utf8::encode_utf8_decode_utf8;

/// The registry images without an explicit registry come from.
pub open spec fn default_registry() -> Seq<char> {
    "docker.io"@
}

/// The characters of `s` before its first `/` (all of `s` when it has none).
pub open spec fn before_slash(s: Seq<char>) -> Seq<char>
    decreases s.len(),
{
    if s.len() == 0 || s[0] == '/' {
        Seq::<char>::empty()
    } else {
        seq![s[0]] + before_slash(s.drop_first())
    }
}

/// The registry of an image reference: the part before the first `/` when the
/// reference has a `/` and that part looks like a host (holds `.` or `:`);
/// Docker Hub otherwise.
pub open spec fn registry_of(image: Seq<char>) -> Seq<char> {
    if !image.contains('/') {
        default_registry()
    } else {
        let first = before_slash(image);
        if first.contains('.') || first.contains(':') {
            first
        } else {
            default_registry()
        }
    }
}

proof fn lemma_before_slash(s: Seq<char>, i: int)
    requires
        0 <= i <= s.len(),
        forall|j: int| 0 <= j < i ==> s[j] != '/',
        i == s.len() || s[i] == '/',
    ensures
        before_slash(s) == s.subrange(0, i),
    decreases s.len(),
{
    if s.len() == 0 || s[0] == '/' {
        assert(s.subrange(0, i) =~= Seq::<char>::empty());
    } else {
        lemma_before_slash(s.drop_first(), i - 1);
        assert(seq![s[0]] + s.drop_first().subrange(0, i - 1) =~= s.subrange(0, i));
    }
}

/// The registry of an image reference is read from the part before its first
/// `/` alone: when that part holds `.` or `:`, it is the registry; else, or
/// when there is no `/`, the registry is `docker.io`, whatever follows the
/// first `/` (a tag such as `:7.2` included).
pub proof fn law_registry_is_the_host_part(image: Seq<char>, i: int)
    requires
        0 <= i < image.len(),
        image[i] == '/',
        forall|j: int| 0 <= j < i ==> image[j] != '/',
    ensures
        registry_of(image) == (if image.subrange(0, i).contains('.') || image.subrange(0, i).contains(':') {
            image.subrange(0, i)
        } else {
            "docker.io"@
        }),
        (!image.subrange(0, i).contains('.') && !image.subrange(0, i).contains(':')) ==> registry_of(image)
            == "docker.io"@,
{
    lemma_before_slash(image, i);
    assert(image.contains('/')) by {
        assert(image[i] == '/');
    }
}

/// An image reference without a `/` comes from `docker.io`.
pub proof fn law_plain_images_come_from_docker_hub(image: Seq<char>)
    requires
        forall|j: int| 0 <= j < image.len() ==> image[j] != '/',
    ensures
        registry_of(image) == "docker.io"@,
{
}

/// Two references that agree up to and including their first `/` come from
/// the same registry: what follows it (repository path, tag, digest) never
/// matters.
pub proof fn law_registry_ignores_the_path(host: Seq<char>, path1: Seq<char>, path2: Seq<char>)
    requires
        forall|j: int| 0 <= j < host.len() ==> host[j] != '/',
    ensures
        registry_of(host + seq!['/'] + path1) == registry_of(host + seq!['/'] + path2),
{
    let a = host + seq!['/'] + path1;
    let b = host + seq!['/'] + path2;
    assert(a[host.len() as int] == '/');
    assert(b[host.len() as int] == '/');
    assert forall|j: int| 0 <= j < host.len() implies a[j] != '/' && b[j] != '/' by {
        assert(a[j] == host[j] && b[j] == host[j]);
    }
    law_registry_is_the_host_part(a, host.len() as int);
    law_registry_is_the_host_part(b, host.len() as int);
    assert(a.subrange(0, host.len() as int) =~= host);
    assert(b.subrange(0, host.len() as int) =~= host);
}

/// Extract the registry host from an image name.
pub fn extract_registry(image: &str) -> (r: String)
    ensures
        r@ == registry_of(image@),
{
    let v = chars_of(image);
    let mut i: usize = 0;
    while i < v.len() && v[i] != '/'
        invariant
            i <= v.len(),
            forall|j: int| 0 <= j < i ==> v@[j] != '/',
        decreases v.len() - i,
    {
        i = i + 1;
    }
    proof {
        lemma_before_slash(v@, i as int);
    }
    if i == v.len() {
        assert(!v@.contains('/'));
        return string_of(&chars_of("docker.io"));
    }
    assert(v@.contains('/')) by {
        assert(v@[i as int] == '/');
    }
    let mut first: Vec<char> = Vec::new();
    let mut has_host_mark = false;
    let mut k: usize = 0;
    while k < i
        invariant
            k <= i <= v.len(),
            first@ == v@.subrange(0, k as int),
            has_host_mark == (first@.contains('.') || first@.contains(':')),
        decreases i - k,
    {
        let c = v[k];
        let ghost prev = first@;
        first.push(c);
        proof {
            assert(first@ =~= v@.subrange(0, k + 1));
            assert(first@ == prev.push(c));
            assert forall|x: char| first@.contains(x) <==> (prev.contains(x) || x == c) by {
                if first@.contains(x) {
                    let j = choose|j: int| 0 <= j < first@.len() && first@[j] == x;
                    if j < prev.len() {
                        assert(prev[j] == x);
                    }
                }
                if prev.contains(x) {
                    let j = choose|j: int| 0 <= j < prev.len() && prev[j] == x;
                    assert(first@[j] == x);
                }
                if x == c {
                    assert(first@[prev.len() as int] == x);
                }
            }
        }
        if c == '.' || c == ':' {
            has_host_mark = true;
        }
        k = k + 1;
    }
    if has_host_mark {
        string_of(&first)
    } else {
        string_of(&chars_of("docker.io"))
    }
}

// ---------------------------------------------------------------------------
// Stored passwords: Base64 of the password's UTF-8 bytes
// ---------------------------------------------------------------------------

/// The text the standard Base64 engine (with padding) writes for `bytes`.
pub uninterp spec fn base64_text(bytes: Seq<u8>) -> Seq<char>;

/// The bytes the standard Base64 engine reads from `text`; `None` when the text
/// is not valid Base64.
pub uninterp spec fn base64_bytes(text: Seq<char>) -> Option<Seq<u8>>;

/// Whether `base64::Engine::encode` can size its output for `n` input bytes.
pub open spec fn base64_encodable(n: nat) -> bool {
    (n / 3) * 4 + 4 <= usize::MAX
}

/// `base64::engine::general_purpose::STANDARD.encode`; named by
/// `base64_text`. The same engine reads the text it wrote back as the bytes
/// it encoded: it writes canonical padding, which is what it requires.
#[verifier::external_body]
fn base64_encode(bytes: &[u8]) -> (text: String)
    requires
        base64_encodable(bytes@.len()),
    ensures
        text@ == base64_text(bytes@),
        base64_bytes(text@) == Some(bytes@),
{
    base64::Engine::encode(&base64::engine::general_purpose::STANDARD, bytes)
}

/// `base64::engine::general_purpose::STANDARD.decode`; named by `base64_bytes`.
/// Decoding the text that encoding wrote gives back the encoded bytes.
#[verifier::external_body]
fn base64_decode(text: &str) -> (r: Option<Vec<u8>>)
    ensures
        r is Some <==> base64_bytes(text@) is Some,
        r matches Some(b) ==> b@ == base64_bytes(text@)->0,
        (exists|b: Seq<u8>| text@ == #[trigger] base64_text(b)) ==> r is Some,
        r matches Some(d) ==> forall|b: Seq<u8>| text@ == #[trigger] base64_text(b) ==> d@ == b,
{
    base64::Engine::decode(&base64::engine::general_purpose::STANDARD, text).ok()
}

/// The stored form of a password: Base64 of its UTF-8 bytes.
pub open spec fn password_encoding(password: Seq<char>) -> Seq<char> {
    base64_text(encode_utf8(password))
}

/// The password a stored form holds: `None` when the text is not Base64 or the
/// bytes are not UTF-8.
pub open spec fn password_decoding(encoded: Seq<char>) -> Option<Seq<char>> {
    match base64_bytes(encoded) {
        Some(b) => if valid_utf8(b) {
            Some(decode_utf8(b))
        } else {
            None
        },
        None => None,
    }
}

/// Encode a password for storage. The stored form reads back as the
/// password.
pub fn encode_password(password: &str) -> (r: String)
    requires
        base64_encodable(encode_utf8(password@).len()),
    ensures
        r@ == password_encoding(password@),
        password_decoding(r@) == Some(password@),
{
    let bytes = password.as_bytes_vec();
    let r = base64_encode(bytes.as_slice());
    proof {
        vstd::utf8::encode_utf8_valid_utf8(password@);
        vstd::utf8::encode_utf8_decode_utf8(password@);
    }
    r
}

/// Decode a stored password. Decoding the stored form of a password gives the
/// password back.
pub fn decode_password(encoded: &str) -> (r: Option<String>)
    ensures
        r is Some <==> password_decoding(encoded@) is Some,
        r matches Some(s) ==> s@ == password_decoding(encoded@)->0,
        forall|p: Seq<char>|
            encoded@ == #[trigger] password_encoding(p) ==> (r matches Some(s) && s@ == p),
{
    match base64_decode(encoded) {
        Some(bytes) => {
            let r = string_from_utf8(bytes);
            r
        },
        None => None,
    }
}

/// Why a stored password cannot be read.
#[derive(Debug, Clone, Copy, PartialEq, Eq, Structural)]
pub enum PasswordFault {
    /// The stored text is not Base64.
    NotBase64,
    /// The decoded bytes are not UTF-8.
    NotUtf8,
}

/// The fault of a stored password that cannot be read, if any.
pub open spec fn password_fault(encoded: Seq<char>) -> Option<PasswordFault> {
    match base64_bytes(encoded) {
        None => Some(PasswordFault::NotBase64),
        Some(b) => if valid_utf8(b) {
            None
        } else {
            Some(PasswordFault::NotUtf8)
        },
    }
}

/// Decode a stored password, telling which step failed.
pub fn read_password(encoded: &str) -> (r: Result<String, PasswordFault>)
    ensures
        match r {
            Ok(s) => password_decoding(encoded@) == Some(s@) && password_fault(encoded@) is None,
            Err(f) => password_fault(encoded@) == Some(f) && password_decoding(encoded@) is None,
        },
        forall|p: Seq<char>| encoded@ == #[trigger] password_encoding(p) ==> (r matches Ok(s) && s@ == p),
{
    match base64_decode(encoded) {
        None => Err(PasswordFault::NotBase64),
        Some(bytes) => match string_from_utf8(bytes) {
            Some(s) => Ok(s),
            None => Err(PasswordFault::NotUtf8),
        },
    }
}

} // verus!
