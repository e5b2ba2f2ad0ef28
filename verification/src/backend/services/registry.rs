//! The registry credential service of the backend: credentials are a user's
//! own; the password is stored encoded.
use vstd::prelude::*;
use crate::backend::models::registry::{CreateRegistryCredential, RegistryCredential};
use crate::ids::now_timestamp;
use crate::error::AppError;
use crate::ids::{new_uuid, uuid_shaped};
use crate::registry::{
    base64_encodable, encode_password, password_decoding, password_encoding, read_password,
};
use vstd::utf8::encode_utf8;

verus! {

/// The registry credential service of the backend.
pub struct RegistryService {}

impl RegistryService {
    pub fn new() -> (s: RegistryService) {
        RegistryService {}
    }

    /// The stored form of a password.
    pub fn encode_password(password: &str) -> (r: String)
        requires
            base64_encodable(encode_utf8(password@).len()),
        ensures
            r@ == password_encoding(password@),
            password_decoding(r@) == Some(password@),
    {
        encode_password(password)
    }

    /// The password a stored form holds; one that cannot be read is a
    /// hashing error. The stored form of a password reads back as it.
    pub fn decode_password(encoded: &str) -> (r: Result<String, AppError>)
        ensures
            r matches Ok(s) ==> password_decoding(encoded@) == Some(s@),
            r is Err <==> password_decoding(encoded@) is None,
            r matches Err(e) ==> e == AppError::Hash,
            forall|p: Seq<char>| encoded@ == #[trigger] password_encoding(p) ==> (r matches Ok(s)
                && s@ == p),
    {
        match read_password(encoded) {
            Ok(s) => Ok(s),
            Err(_) => Err(AppError::Hash),
        }
    }

    /// The row of a new credential of `user_id`: a fresh id, the password
    /// encoded, created and updated now.
    pub fn add_credential(&self, user_id: &str, input: CreateRegistryCredential) -> (r:
        RegistryCredential)
        requires
            base64_encodable(encode_utf8(input.password@).len()),
        ensures
            uuid_shaped(r.id@),
            r.user_id@ == user_id@,
            r.name == input.name,
            r.registry_url == input.registry_url,
            r.username == input.username,
            r.password_encrypted@ == password_encoding(input.password@),
            r.created_at == r.updated_at,
    {
        let now = now_timestamp();
        let password_encrypted = encode_password(input.password.as_str());
        RegistryCredential {
            id: new_uuid(),
            user_id: user_id.to_owned(),
            name: input.name,
            registry_url: input.registry_url,
            username: input.username,
            password_encrypted,
            created_at: now.clone(),
            updated_at: now,
        }
    }

    /// The credential found, or not found.
    pub fn get_credential(&self, found: Option<RegistryCredential>) -> (r: Result<
        RegistryCredential,
        AppError,
    >)
        ensures
            found matches Some(c) ==> r == Ok::<RegistryCredential, AppError>(c),
            found is None ==> (r matches Err(AppError::NotFound(m)) && m@ == "Credential not found"@),
    {
        match found {
            Some(c) => Ok(c),
            None => Err(AppError::NotFound("Credential not found".to_owned())),
        }
    }
}

} // verus!
