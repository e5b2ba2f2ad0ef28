//! Registry credentials of a team: who may see and change them, how a new
//! one is stored, and which one (if any) an image is pulled with.
use vstd::prelude::*;
use crate::backend::models::registry::{credential_response, RegistryCredential, RegistryCredentialResponse};
use crate::backend::usecase::team::{rank, role_priority, TeamRole};
use crate::error::AppError;
use crate::ids::{new_uuid, now_rfc3339, uuid_shaped};
use crate::registry::{
    base64_encodable, encode_password, extract_registry, password_decoding, password_encoding,
    password_fault, read_password, registry_of, PasswordFault,
};
use vstd::utf8::encode_utf8;

verus! {

/// Registry credential rules of the backend.
pub struct RegistryUsecase {}

/// A credential to store for a team.
#[derive(Debug)]
pub struct TeamCredential {
    pub id: String,
    pub user_id: String,
    pub team_id: String,
    pub name: String,
    pub registry_url: String,
    pub username: String,
    pub password_encrypted: String,
    pub created_at: String,
    pub updated_at: String,
}

/// The refusal of a member without the role an operation requires.
pub open spec fn permission_refusal(role: Option<TeamRole>, required: TeamRole, r: Result<(), AppError>) -> bool {
    match role {
        None => r matches Err(AppError::Forbidden(m)) && m@ == "Access denied"@,
        Some(ro) => if rank(ro) < rank(required) {
            r matches Err(AppError::Forbidden(m)) && m@
                == "Insufficient permissions for this operation"@
        } else {
            r is Ok
        },
    }
}

/// A registry operation is allowed exactly for a member whose role is the
/// required one or above it (Owner > Admin > Developer > Viewer); a member
/// below it is refused with "Insufficient permissions for this operation",
/// a non-member with "Access denied".
pub proof fn law_registry_permission_follows_the_order(
    role: Option<TeamRole>,
    required: TeamRole,
    r: Result<(), AppError>,
)
    requires
        permission_refusal(role, required, r),
    ensures
        r is Ok <==> (role matches Some(ro) && match required {
            TeamRole::Viewer => true,
            TeamRole::Developer => ro != TeamRole::Viewer,
            TeamRole::Admin => ro == TeamRole::Admin || ro == TeamRole::Owner,
            TeamRole::Owner => ro == TeamRole::Owner,
        }),
        role is None ==> (r matches Err(AppError::Forbidden(m)) && m@ == "Access denied"@),
        (role is Some && r is Err) ==> (r matches Err(AppError::Forbidden(m)) && m@
            == "Insufficient permissions for this operation"@),
{
}

impl RegistryUsecase {
    pub fn new() -> (u: RegistryUsecase) {
        RegistryUsecase {}
    }

    /// Whether a member with `role` in the team (none when not a member) may
    /// perform an operation requiring `required_role`.
    pub fn verify_permission(&self, role: Option<TeamRole>, required_role: TeamRole) -> (r: Result<
        (),
        AppError,
    >)
        ensures
            permission_refusal(role, required_role, r),
    {
        match role {
            None => Err(AppError::Forbidden("Access denied".to_owned())),
            Some(ro) => if role_priority(ro) < role_priority(required_role) {
                Err(AppError::Forbidden("Insufficient permissions for this operation".to_owned()))
            } else {
                Ok(())
            },
        }
    }

    /// The team's credentials as shown, for a member with `role`; viewers
    /// and above may list them.
    pub fn list_credentials(&self, role: Option<TeamRole>, creds: Vec<RegistryCredential>) -> (r: Result<
        Vec<RegistryCredentialResponse>,
        AppError,
    >)
        ensures
            permission_refusal(role, TeamRole::Viewer, match r {
                Ok(_) => Ok(()),
                Err(e) => Err(e),
            }),
            r matches Ok(v) ==> v@.len() == creds@.len() && forall|i: int|
                0 <= i < v@.len() ==> v@[i] == #[trigger] credential_response(creds@[i]),
    {
        match self.verify_permission(role, TeamRole::Viewer) {
            Err(e) => Err(e),
            Ok(()) => {
                let ghost all = creds@;
                let mut rest = creds;
                let mut out: Vec<RegistryCredentialResponse> = Vec::new();
                let mut i: usize = 0;
                proof {
                    assert(rest@ =~= all.subrange(0, all.len() as int));
                    assert(all.len() == rest.len());
                }
                while rest.len() > 0
                    invariant
                        i <= all.len() <= usize::MAX,
                        rest@ == all.subrange(i as int, all.len() as int),
                        out@.len() == i,
                        forall|k: int| 0 <= k < i ==> out@[k] == #[trigger] credential_response(all[k]),
                    decreases rest.len(),
                {
                    let c = rest.remove(0);
                    proof {
                        assert(c == all[i as int]);
                        assert(rest@ =~= all.subrange(i + 1, all.len() as int));
                    }
                    out.push(RegistryCredentialResponse::from(c));
                    i = i + 1;
                }
                Ok(out)
            },
        }
    }

    /// A new credential of the team, for an admin (or owner): a fresh id,
    /// the password encoded, created and updated now.
    pub fn add_credential(
        &self,
        role: Option<TeamRole>,
        user_id: &str,
        team_id: &str,
        name: &str,
        registry_url: &str,
        username: &str,
        password: &str,
    ) -> (r: Result<TeamCredential, AppError>)
        requires
            base64_encodable(encode_utf8(password@).len()),
        ensures
            permission_refusal(role, TeamRole::Admin, match r {
                Ok(_) => Ok(()),
                Err(e) => Err(e),
            }),
            r matches Ok(c) ==> uuid_shaped(c.id@) && c.user_id@ == user_id@ && c.team_id@
                == team_id@ && c.name@ == name@ && c.registry_url@ == registry_url@ && c.username@
                == username@ && c.password_encrypted@ == password_encoding(password@)
                && c.created_at == c.updated_at,
    {
        match self.verify_permission(role, TeamRole::Admin) {
            Err(e) => Err(e),
            Ok(()) => {
                let now = now_rfc3339();
                Ok(
                    TeamCredential {
                        id: new_uuid(),
                        user_id: user_id.to_owned(),
                        team_id: team_id.to_owned(),
                        name: name.to_owned(),
                        registry_url: registry_url.to_owned(),
                        username: username.to_owned(),
                        password_encrypted: encode_password(password),
                        created_at: now.clone(),
                        updated_at: now,
                    },
                )
            },
        }
    }

    /// Whether a member with `role` may remove a credential: admins and
    /// owners may.
    pub fn remove_credential(&self, role: Option<TeamRole>) -> (r: Result<(), AppError>)
        ensures
            permission_refusal(role, TeamRole::Admin, r),
    {
        self.verify_permission(role, TeamRole::Admin)
    }

    /// The registry an image is pulled from.
    pub fn extract_registry(&self, image: &str) -> (r: String)
        ensures
            r@ == registry_of(image@),
    {
        extract_registry(image)
    }

    /// The user name and password to pull an image with, given the team's
    /// credential for the image's registry (if any); a stored password that
    /// cannot be read is an internal error.
    pub fn get_credentials_for_image_internal(&self, found: Option<RegistryCredential>) -> (r: Result<
        Option<(String, String)>,
        AppError,
    >)
        ensures
            found is None ==> r == Ok::<Option<(String, String)>, AppError>(None),
            found matches Some(c) ==> match password_fault(c.password_encrypted@) {
                None => r matches Ok(Some((u, p))) && u == c.username && Some(p@) == password_decoding(
                    c.password_encrypted@,
                ),
                Some(PasswordFault::NotBase64) => r matches Err(AppError::Internal(m)) && m@
                    == "Failed to decode password"@,
                Some(PasswordFault::NotUtf8) => r matches Err(AppError::Internal(m)) && m@
                    == "Invalid password encoding"@,
            },
    {
        match found {
            None => Ok(None),
            Some(c) => match read_password(c.password_encrypted.as_str()) {
                Ok(p) => Ok(Some((c.username, p))),
                Err(PasswordFault::NotBase64) => Err(AppError::Internal("Failed to decode password".to_owned())),
                Err(PasswordFault::NotUtf8) => Err(AppError::Internal("Invalid password encoding".to_owned())),
            },
        }
    }

    /// The user name and password to pull an image with, for any member of
    /// the team: as `get_credentials_for_image_internal`.
    pub fn get_credentials_for_image(&self, found: Option<RegistryCredential>) -> (r: Result<
        Option<(String, String)>,
        AppError,
    >)
        ensures
            found is None ==> r == Ok::<Option<(String, String)>, AppError>(None),
            found matches Some(c) ==> match password_fault(c.password_encrypted@) {
                None => r matches Ok(Some((u, p))) && u == c.username && Some(p@) == password_decoding(
                    c.password_encrypted@,
                ),
                Some(PasswordFault::NotBase64) => r matches Err(AppError::Internal(m)) && m@
                    == "Failed to decode password"@,
                Some(PasswordFault::NotUtf8) => r matches Err(AppError::Internal(m)) && m@
                    == "Invalid password encoding"@,
            },
    {
        self.get_credentials_for_image_internal(found)
    }
}

} // verus!
