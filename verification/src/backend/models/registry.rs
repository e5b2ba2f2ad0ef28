//! Stored credentials of private container registries.
use vstd::prelude::*;

verus! {

/// A stored credential; the password is kept encoded.
#[derive(Debug)]
pub struct RegistryCredential {
    pub id: String,
    pub user_id: String,
    pub name: String,
    pub registry_url: String,
    pub username: String,
    pub password_encrypted: String,
    pub created_at: String,
    pub updated_at: String,
}

/// A credential to add.
#[derive(Debug)]
pub struct CreateRegistryCredential {
    pub name: String,
    pub registry_url: String,
    pub username: String,
    pub password: String,
}

/// What is shown of a credential: never its password.
#[derive(Debug)]
pub struct RegistryCredentialResponse {
    pub id: String,
    pub name: String,
    pub registry_url: String,
    pub username: String,
    pub created_at: String,
    pub updated_at: String,
}

/// The shown form of a credential.
pub open spec fn credential_response(r: RegistryCredential) -> RegistryCredentialResponse {
    RegistryCredentialResponse {
        id: r.id,
        name: r.name,
        registry_url: r.registry_url,
        username: r.username,
        created_at: r.created_at,
        updated_at: r.updated_at,
    }
}

impl From<RegistryCredential> for RegistryCredentialResponse {
    fn from(r: RegistryCredential) -> (s: RegistryCredentialResponse) {
        RegistryCredentialResponse {
            id: r.id,
            name: r.name,
            registry_url: r.registry_url,
            username: r.username,
            created_at: r.created_at,
            updated_at: r.updated_at,
        }
    }
}

impl vstd::std_specs::convert::FromSpecImpl<RegistryCredential> for RegistryCredentialResponse {
    open spec fn obeys_from_spec() -> bool {
        true
    }

    open spec fn from_spec(r: RegistryCredential) -> RegistryCredentialResponse {
        credential_response(r)
    }
}

} // verus!
