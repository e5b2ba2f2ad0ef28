//! The registry credential service of the server: a user's own credentials,
//! the password stored encoded, and the credential an image is pulled with.
use vstd::prelude::*;
use crate::backend::models::registry::RegistryCredential;
use crate::error::AppError;
use crate::ids::{new_uuid, now_rfc3339, uuid_shaped};
use crate::registry::{
    base64_encodable, encode_password, extract_registry, password_decoding, password_encoding,
    password_fault, read_password, registry_of, PasswordFault,
};
use vstd::utf8::encode_utf8;

verus! {

/// The registry credential service of the server.
pub struct RegistryService {}

/// The error a stored password that cannot be read gives.
pub open spec fn password_error(fault: PasswordFault, e: AppError) -> bool {
    match fault {
        PasswordFault::NotBase64 => e matches AppError::Internal(m) && m@
            == "Failed to decode password"@,
        PasswordFault::NotUtf8 => e matches AppError::Internal(m) && m@
            == "Invalid password encoding"@,
    }
}

impl RegistryService {
    pub fn new() -> (s: RegistryService) {
        RegistryService {}
    }

    /// The stored form of a password.
    pub fn encode_password(password: &str) -> (r: String)
        requires
            base64_encodable(encode_utf8(password@).len()),
        ensures
            r@ == password_encoding(password@),
            password_decoding(r@) == Some(password@),
    {
        encode_password(password)
    }

    /// The password a stored form holds, or which step failed.
    pub fn decode_password(encoded: &str) -> (r: Result<String, AppError>)
        ensures
            match password_fault(encoded@) {
                None => r matches Ok(s) && password_decoding(encoded@) == Some(s@),
                Some(f) => r matches Err(e) && password_error(f, e),
            },
    {
        match read_password(encoded) {
            Ok(s) => Ok(s),
            Err(PasswordFault::NotBase64) => Err(AppError::Internal("Failed to decode password".to_owned())),
            Err(PasswordFault::NotUtf8) => Err(AppError::Internal("Invalid password encoding".to_owned())),
        }
    }

    /// The row of a new credential of `user_id`: a fresh id, the password
    /// encoded, created and updated now.
    pub fn add_credential(
        &self,
        user_id: &str,
        name: &str,
        registry_url: &str,
        username: &str,
        password: &str,
    ) -> (r: RegistryCredential)
        requires
            base64_encodable(encode_utf8(password@).len()),
        ensures
            uuid_shaped(r.id@),
            r.user_id@ == user_id@,
            r.name@ == name@,
            r.registry_url@ == registry_url@,
            r.username@ == username@,
            r.password_encrypted@ == password_encoding(password@),
            r.created_at == r.updated_at,
    {
        let now = now_rfc3339();
        RegistryCredential {
            id: new_uuid(),
            user_id: user_id.to_owned(),
            name: name.to_owned(),
            registry_url: registry_url.to_owned(),
            username: username.to_owned(),
            password_encrypted: encode_password(password),
            created_at: now.clone(),
            updated_at: now,
        }
    }

    /// The credential found, or not found.
    pub fn get_credential(&self, found: Option<RegistryCredential>) -> (r: Result<
        RegistryCredential,
        AppError,
    >)
        ensures
            found matches Some(c) ==> r == Ok::<RegistryCredential, AppError>(c),
            found is None ==> (r matches Err(AppError::NotFound(m)) && m@ == "Credential not found"@),
    {
        match found {
            Some(c) => Ok(c),
            None => Err(AppError::NotFound("Credential not found".to_owned())),
        }
    }

    /// The outcome of a removal that deleted `rows_affected` rows: none
    /// deleted means the credential was not found.
    pub fn remove_credential(&self, rows_affected: u64) -> (r: Result<(), AppError>)
        ensures
            rows_affected == 0 ==> (r matches Err(AppError::NotFound(m)) && m@
                == "Credential not found"@),
            rows_affected > 0 ==> r is Ok,
    {
        if rows_affected == 0 {
            Err(AppError::NotFound("Credential not found".to_owned()))
        } else {
            Ok(())
        }
    }

    /// The registry an image is pulled from.
    pub fn extract_registry_from_image(image: &str) -> (r: String)
        ensures
            r@ == registry_of(image@),
    {
        extract_registry(image)
    }

    /// The user name and password to pull with, given the user's credential
    /// for the image's registry (if any).
    pub fn get_credentials_for_registry(&self, found: Option<RegistryCredential>) -> (r: Result<
        Option<(String, String)>,
        AppError,
    >)
        ensures
            found is None ==> r == Ok::<Option<(String, String)>, AppError>(None),
            found matches Some(c) ==> match password_fault(c.password_encrypted@) {
                None => r matches Ok(Some((u, p))) && u == c.username && Some(p@) == password_decoding(
                    c.password_encrypted@,
                ),
                Some(f) => r matches Err(e) && password_error(f, e),
            },
    {
        match found {
            None => Ok(None),
            Some(c) => match Self::decode_password(c.password_encrypted.as_str()) {
                Ok(p) => Ok(Some((c.username, p))),
                Err(e) => Err(e),
            },
        }
    }
}

} // verus!
