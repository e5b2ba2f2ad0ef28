//! Authentication rules of the backend: registration is open only while no
//! user exists (the first user is the administrator); login, lookups and
//! token checks.
use vstd::prelude::*;
use crate::backend::services::auth::{
    argon2_verdict, claims_view, login_of, max_token_hours, new_user, registered_row, session_of,
    token_payload, user_or_not_found, user_response_of, AuthResponse, Claims, CreateUser, JwtKeys,
    User,
};
use crate::error::AppError;

verus! {

/// The authentication use case, with the keys of its tokens.
pub struct AuthUsecase {
    pub keys: JwtKeys,
}

/// The message of a registration once a user exists.
pub open spec fn registration_closed_message() -> Seq<char> {
    "Public registration is disabled. Please contact your administrator."@
}

impl AuthUsecase {
    pub fn new(keys: JwtKeys) -> (u: AuthUsecase)
        ensures
            u.keys == keys,
    {
        AuthUsecase { keys }
    }

    /// A registration, given how many users exist and whether the e-mail is
    /// taken: once any user exists registration is closed; a taken e-mail
    /// is a conflict; else the new user's row, an administrator. Once
    /// stored, `session` gives its session.
    pub fn register(&self, user_count: i64, email_taken: bool, input: CreateUser) -> (r: Result<
        User,
        AppError,
    >)
        ensures
            user_count > 0 ==> (r matches Err(AppError::Forbidden(m)) && m@
                == registration_closed_message()),
            user_count <= 0 && email_taken ==> (r matches Err(AppError::Conflict(m)) && m@
                == "Email already registered"@),
            user_count <= 0 && !email_taken ==> (r matches Ok(u) ==> registered_row(
                u,
                input,
                "admin"@,
            )) && (r matches Err(e) ==> e == AppError::Hash),
    {
        if user_count > 0 {
            return Err(
                AppError::Forbidden(
                    "Public registration is disabled. Please contact your administrator.".to_owned(),
                ),
            );
        }
        if email_taken {
            return Err(AppError::Conflict("Email already registered".to_owned()));
        }
        new_user(input, "admin")
    }

    /// The session of a stored user.
    pub fn session(&self, user: User) -> (r: Result<AuthResponse, AppError>)
        requires
            self.keys.expiration_hours <= max_token_hours(),
        ensures
            r is Ok,
            r matches Ok(resp) ==> resp.user == user_response_of(user) && (token_payload(
                resp.token@,
                self.keys.secret@,
            ) matches Some((s, e, ro, _, _)) && s == user.id@ && e == user.email@ && ro
                == user.role@),
            r matches Err(e) ==> e is Jwt,
    {
        session_of(&self.keys, user)
    }

    /// A login, given the user stored under the e-mail, if any.
    pub fn login(&self, found: Option<User>, password: &str) -> (r: Result<AuthResponse, AppError>)
        requires
            self.keys.expiration_hours <= max_token_hours(),
        ensures
            found is None ==> r == Err::<AuthResponse, AppError>(AppError::InvalidCredentials),
            found matches Some(u) ==> {
                &&& argon2_verdict(password@, u.password_hash@) == Some(false) ==> r
                    == Err::<AuthResponse, AppError>(AppError::InvalidCredentials)
                &&& argon2_verdict(password@, u.password_hash@) is None ==> r
                    == Err::<AuthResponse, AppError>(AppError::Hash)
                &&& r is Ok <==> argon2_verdict(password@, u.password_hash@) == Some(true)
            },
    {
        login_of(&self.keys, found, password)
    }

    /// The stored user, or not found.
    pub fn get_user_by_id(&self, found: Option<User>) -> (r: Result<User, AppError>)
        ensures
            found matches Some(u) ==> r == Ok::<User, AppError>(u),
            found is None ==> (r matches Err(AppError::NotFound(m)) && m@ == "User not found"@),
    {
        user_or_not_found(found)
    }

    /// The claims of a valid token.
    pub fn verify_token(&self, token: &str) -> (r: Result<Claims, AppError>)
        ensures
            r matches Ok(c) ==> token_payload(token@, self.keys.secret@) == Some(claims_view(c)),
            r matches Err(e) ==> e is Jwt,
    {
        self.keys.verify_token(token)
    }

    /// Setup is required while no user exists.
    pub fn is_setup_required(&self, user_count: i64) -> (r: bool)
        ensures
            r == (user_count == 0),
    {
        user_count == 0
    }
}

} // verus!
