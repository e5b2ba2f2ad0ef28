//! Authentication: password hashes (Argon2), signed tokens (JWT, HS256)
//! carrying who a user is, registration and login. The user store is the
//! caller's: it hands in what it read and stores what it is given.
use vstd::prelude::*;
use crate::error::AppError;
use crate::ids::{new_uuid, uuid_shaped};

verus! {

/// What a token says of its user: id (`sub`), e-mail, role, expiry and
/// issue times (seconds since the epoch).
#[derive(Debug)]
pub struct Claims {
    pub sub: String,
    pub email: String,
    pub role: String,
    pub exp: i64,
    pub iat: i64,
}

/// A stored user.
#[derive(Debug)]
pub struct User {
    pub id: String,
    pub email: String,
    pub password_hash: String,
    pub name: Option<String>,
    pub role: String,
    pub created_at: String,
    pub updated_at: String,
}

/// What is shown of a user.
#[derive(Debug)]
pub struct UserResponse {
    pub id: String,
    pub email: String,
    pub name: Option<String>,
    pub role: String,
    pub created_at: String,
}

/// A registration.
#[derive(Debug)]
pub struct CreateUser {
    pub email: String,
    pub password: String,
    pub name: Option<String>,
}

/// A login.
#[derive(Debug)]
pub struct LoginRequest {
    pub email: String,
    pub password: String,
}

/// A session: its token and its user.
#[derive(Debug)]
pub struct AuthResponse {
    pub token: String,
    pub user: UserResponse,
}

/// The plain view of claims.
pub open spec fn claims_view(c: Claims) -> (Seq<char>, Seq<char>, Seq<char>, i64, i64) {
    (c.sub@, c.email@, c.role@, c.exp, c.iat)
}

/// The claims `token` carries when it is signed with HS256 under `secret`
/// and its payload has all five claims; `None` for any other text.
pub uninterp spec fn token_payload(token: Seq<char>, secret: Seq<char>) -> Option<(Seq<char>, Seq<char>, Seq<char>, i64, i64)>;

/// `jsonwebtoken::decode` with the default validation (HS256, expiry
/// checked against the clock) under `secret`: the claims when the token is
/// valid now, `Ok(None)` when it lacks one of the claims, else the library's
/// message. Whether a signed token has expired depends on the clock and is
/// not stated; what is stated is that accepted claims are the token's own.
#[verifier::external_body]
fn jwt_decode(token: &str, secret: &str) -> (r: Result<Option<Claims>, String>)
    ensures
        r matches Ok(Some(c)) ==> token_payload(token@, secret@) == Some(claims_view(c)),
{
    let key = jsonwebtoken::DecodingKey::from_secret(secret.as_bytes());
    let data = jsonwebtoken::decode::<serde_json::Value>(token, &key, &jsonwebtoken::Validation::default())
        .map_err(|e| e.to_string())?;
    let c = &data.claims;
    match (c["sub"].as_str(), c["email"].as_str(), c["role"].as_str(), c["exp"].as_i64(), c["iat"].as_i64()) {
        (Some(sub), Some(email), Some(role), Some(exp), Some(iat)) => Ok(
            Some(Claims { sub: sub.to_string(), email: email.to_string(), role: role.to_string(), exp, iat }),
        ),
        _ => Ok(None),
    }
}

/// `jsonwebtoken::encode` of the claims with the default header (HS256)
/// under `secret`: the token carries exactly these claims. It succeeds: a
/// key made from a secret is of the HMAC family the default header names,
/// a JSON object of strings and integers always serialises, and HMAC
/// signing cannot fail.
#[verifier::external_body]
fn jwt_encode(claims: &Claims, secret: &str) -> (r: Result<String, String>)
    ensures
        r is Ok,
        r matches Ok(t) ==> token_payload(t@, secret@) == Some(claims_view(*claims)),
{
    let mut m = serde_json::Map::new();
    m.insert("sub".to_string(), claims.sub.clone().into());
    m.insert("email".to_string(), claims.email.clone().into());
    m.insert("role".to_string(), claims.role.clone().into());
    m.insert("exp".to_string(), claims.exp.into());
    m.insert("iat".to_string(), claims.iat.into());
    let key = jsonwebtoken::EncodingKey::from_secret(secret.as_bytes());
    jsonwebtoken::encode(&jsonwebtoken::Header::default(), &serde_json::Value::Object(m), &key)
        .map_err(|e| e.to_string())
}

/// The largest validity, in hours, a token may be given: beyond it the
/// clock arithmetic of `chrono` leaves its range.
pub open spec fn max_token_hours() -> u64 {
    2_000_000_000
}

/// `chrono::Utc::now()` and that instant plus `hours` hours, as Unix
/// timestamps: the second is the first plus `hours` hours. The clock itself
/// is not stated.
#[verifier::external_body]
fn token_times(hours: u64) -> (r: (i64, i64))
    requires
        hours <= max_token_hours(),
    ensures
        r.1 == r.0 + hours * 3600,
{
    let now = chrono::Utc::now();
    let exp = now + chrono::Duration::hours(hours as i64);
    (now.timestamp(), exp.timestamp())
}

/// What `argon2` says of `password` against the PHC string `hash`: `None`
/// when `hash` is not a PHC string, else whether the password matches.
pub uninterp spec fn argon2_verdict(password: Seq<char>, hash: Seq<char>) -> Option<bool>;

/// Argon2 with default parameters and a fresh random salt: the PHC string of
/// the password's hash, which the password matches; `None` when hashing
/// fails. The salt is random, so the string itself is not stated.
#[verifier::external_body]
fn argon2_hash(password: &str) -> (r: Option<String>)
    ensures
        r matches Some(h) ==> argon2_verdict(password@, h@) == Some(true),
{
    let salt = argon2::password_hash::SaltString::generate(&mut argon2::password_hash::rand_core::OsRng);
    argon2::PasswordHasher::hash_password(&argon2::Argon2::default(), password.as_bytes(), &salt)
        .map(|h| h.to_string())
        .ok()
}

/// `PasswordHash::new` on `hash`, then Argon2 verification of `password`.
#[verifier::external_body]
fn argon2_verify(password: &str, hash: &str) -> (r: Option<bool>)
    ensures
        r == argon2_verdict(password@, hash@),
{
    match argon2::password_hash::PasswordHash::new(hash) {
        Err(_) => None,
        Ok(parsed) => Some(
            argon2::PasswordVerifier::verify_password(&argon2::Argon2::default(), password.as_bytes(), &parsed).is_ok(),
        ),
    }
}

/// The user as shown.
pub open spec fn user_response_of(u: User) -> UserResponse {
    UserResponse {
        id: u.id,
        email: u.email,
        name: u.name,
        role: u.role,
        created_at: u.created_at,
    }
}

impl From<User> for UserResponse {
    fn from(u: User) -> (r: UserResponse) {
        UserResponse { id: u.id, email: u.email, name: u.name, role: u.role, created_at: u.created_at }
    }
}

impl vstd::std_specs::convert::FromSpecImpl<User> for UserResponse {
    open spec fn obeys_from_spec() -> bool {
        true
    }

    open spec fn from_spec(u: User) -> UserResponse {
        user_response_of(u)
    }
}

/// The hash of a password, or the hashing error.
pub fn hash_password(password: &str) -> (r: Result<String, AppError>)
    ensures
        r matches Ok(h) ==> argon2_verdict(password@, h@) == Some(true),
        r matches Err(e) ==> e == AppError::Hash,
{
    match argon2_hash(password) {
        Some(h) => Ok(h),
        None => Err(AppError::Hash),
    }
}

/// The outcome of checking `password` against the stored `hash`: a hash
/// that cannot be read is a hashing error, a wrong password invalid
/// credentials.
pub open spec fn password_check(password: Seq<char>, hash: Seq<char>) -> Result<(), AppError> {
    match argon2_verdict(password, hash) {
        None => Err(AppError::Hash),
        Some(true) => Ok(()),
        Some(false) => Err(AppError::InvalidCredentials),
    }
}

/// Checks `password` against the stored `hash`: a hash that cannot be read
/// is a hashing error, a wrong password invalid credentials.
pub fn verify_password(password: &str, hash: &str) -> (r: Result<(), AppError>)
    ensures
        r == password_check(password@, hash@),
        r is Ok <==> argon2_verdict(password@, hash@) == Some(true),
        argon2_verdict(password@, hash@) is None ==> r == Err::<(), AppError>(AppError::Hash),
        argon2_verdict(password@, hash@) == Some(false) ==> r == Err::<(), AppError>(
            AppError::InvalidCredentials,
        ),
{
    match argon2_verify(password, hash) {
        None => Err(AppError::Hash),
        Some(true) => Ok(()),
        Some(false) => Err(AppError::InvalidCredentials),
    }
}

/// A password checks against the hash made of it: once hashing gave `hash`
/// for `password` (so that the verdict on them is a match), checking that
/// password against that hash succeeds.
pub proof fn law_password_matches_its_hash(password: Seq<char>, hash: Seq<char>)
    requires
        argon2_verdict(password, hash) == Some(true),
    ensures
        password_check(password, hash) == Ok::<(), AppError>(()),
{
}

/// A token read back under the secret it was issued with carries the user's
/// id, e-mail and role it was issued for, and expires the configured number
/// of hours after it was issued.
pub proof fn law_token_round_trip(
    token: Seq<char>,
    secret: Seq<char>,
    user_id: Seq<char>,
    email: Seq<char>,
    role: Seq<char>,
    hours: u64,
    read: Claims,
)
    requires
        token_payload(token, secret) matches Some((s, e, ro, exp, iat)) && s == user_id && e == email
            && ro == role && exp == iat + hours * 3600,
        token_payload(token, secret) == Some(claims_view(read)),
    ensures
        read.sub@ == user_id,
        read.email@ == email,
        read.role@ == role,
        read.exp == read.iat + hours * 3600,
{
}

/// Issues and checks the tokens of one secret.
#[derive(Debug)]
pub struct JwtKeys {
    pub secret: String,
    pub expiration_hours: u64,
}

impl JwtKeys {
    /// A token for the user, valid for the configured number of hours from
    /// now: it carries the user's id, e-mail and role, issued now and
    /// expiring `expiration_hours` hours later.
    pub fn generate_token(&self, user_id: &str, email: &str, role: &str) -> (r: Result<
        String,
        AppError,
    >)
        requires
            self.expiration_hours <= max_token_hours(),
        ensures
            r is Ok,
            r matches Ok(t) ==> (token_payload(t@, self.secret@) matches Some((s, e, ro, exp, iat))
                && s == user_id@ && e == email@ && ro == role@ && exp == iat + self.expiration_hours
                * 3600),
            r matches Err(e) ==> e is Jwt,
    {
        let (iat, exp) = token_times(self.expiration_hours);
        let claims = Claims {
            sub: user_id.to_owned(),
            email: email.to_owned(),
            role: role.to_owned(),
            exp,
            iat,
        };
        match jwt_encode(&claims, self.secret.as_str()) {
            Ok(t) => Ok(t),
            Err(m) => Err(AppError::Jwt(m)),
        }
    }

    /// The claims of a valid token: accepted claims are the token's own; a
    /// token that is invalid, expired or incomplete is a token error.
    pub fn verify_token(&self, token: &str) -> (r: Result<Claims, AppError>)
        ensures
            r matches Ok(c) ==> token_payload(token@, self.secret@) == Some(claims_view(c)),
            r matches Err(e) ==> e is Jwt,
    {
        match jwt_decode(token, self.secret.as_str()) {
            Ok(Some(c)) => Ok(c),
            Ok(None) => Err(AppError::Jwt("Token lacks a claim".to_owned())),
            Err(m) => Err(AppError::Jwt(m)),
        }
    }
}

/// The session of a user: a fresh token for its id, e-mail and role, and
/// the user as shown.
pub fn session_of(keys: &JwtKeys, user: User) -> (r: Result<AuthResponse, AppError>)
    requires
        keys.expiration_hours <= max_token_hours(),
    ensures
        r is Ok,
        r matches Ok(resp) ==> resp.user == user_response_of(user) && (token_payload(
            resp.token@,
            keys.secret@,
        ) matches Some((s, e, ro, exp, iat)) && s == user.id@ && e == user.email@ && ro
            == user.role@ && exp == iat + keys.expiration_hours * 3600),
        r matches Err(e) ==> e is Jwt,
{
    let token = keys.generate_token(user.id.as_str(), user.email.as_str(), user.role.as_str());
    match token {
        Ok(token) => Ok(AuthResponse { token, user: UserResponse::from(user) }),
        Err(e) => Err(e),
    }
}

/// A login, given the user stored under the e-mail (if any): an unknown
/// e-mail or a wrong password are invalid credentials; else the session.
pub fn login_of(keys: &JwtKeys, found: Option<User>, password: &str) -> (r: Result<
    AuthResponse,
    AppError,
>)
    requires
        keys.expiration_hours <= max_token_hours(),
    ensures
        found is None ==> r == Err::<AuthResponse, AppError>(AppError::InvalidCredentials),
        found matches Some(u) ==> {
            &&& argon2_verdict(password@, u.password_hash@) is None ==> r
                == Err::<AuthResponse, AppError>(AppError::Hash)
            &&& argon2_verdict(password@, u.password_hash@) == Some(false) ==> r
                == Err::<AuthResponse, AppError>(AppError::InvalidCredentials)
            &&& argon2_verdict(password@, u.password_hash@) == Some(true) ==> r is Ok
            &&& r matches Ok(resp) ==> argon2_verdict(password@, u.password_hash@) == Some(true)
                && resp.user == user_response_of(u) && (token_payload(resp.token@, keys.secret@) matches Some(
                (s, e, ro, _, _),
            ) && s == u.id@ && e == u.email@ && ro == u.role@)
        },
{
    match found {
        None => Err(AppError::InvalidCredentials),
        Some(u) => match verify_password(password, u.password_hash.as_str()) {
            Err(e) => Err(e),
            Ok(()) => session_of(keys, u),
        },
    }
}

/// The stored user `id`, or not found.
pub fn user_or_not_found(found: Option<User>) -> (r: Result<User, AppError>)
    ensures
        found matches Some(u) ==> r == Ok::<User, AppError>(u),
        found is None ==> (r matches Err(AppError::NotFound(m)) && m@ == "User not found"@),
{
    match found {
        Some(u) => Ok(u),
        None => Err(AppError::NotFound("User not found".to_owned())),
    }
}

/// The user row of a registration with `role`: a fresh id, the e-mail and
/// name given, the hash of the password, created and updated now.
pub open spec fn registered_row(u: User, input: CreateUser, role: Seq<char>) -> bool {
    &&& uuid_shaped(u.id@)
    &&& u.email == input.email
    &&& u.name == input.name
    &&& u.role@ == role
    &&& argon2_verdict(input.password@, u.password_hash@) == Some(true)
    &&& u.created_at == u.updated_at
}

/// The row of a new user with `role`.
pub fn new_user(input: CreateUser, role: &str) -> (r: Result<User, AppError>)
    ensures
        r matches Ok(u) ==> registered_row(u, input, role@),
        r matches Err(e) ==> e == AppError::Hash,
{
    let password_hash = match hash_password(input.password.as_str()) {
        Ok(h) => h,
        Err(e) => {
            return Err(e);
        },
    };
    let now = crate::ids::now_timestamp();
    Ok(
        User {
            id: new_uuid(),
            email: input.email,
            password_hash,
            name: input.name,
            role: role.to_owned(),
            created_at: now.clone(),
            updated_at: now,
        },
    )
}

/// The authentication service of the backend.
pub struct AuthService {
    pub keys: JwtKeys,
}

impl AuthService {
    pub fn new(jwt_secret: String, jwt_expiration_hours: u64) -> (s: AuthService)
        ensures
            s.keys.secret == jwt_secret,
            s.keys.expiration_hours == jwt_expiration_hours,
    {
        AuthService { keys: JwtKeys { secret: jwt_secret, expiration_hours: jwt_expiration_hours } }
    }

    /// A registration, given how many users have the e-mail already: a
    /// taken e-mail is a conflict; else the new user's row, with role
    /// `user`. Once stored, `session` gives its session.
    pub fn register(&self, existing: i64, input: CreateUser) -> (r: Result<User, AppError>)
        ensures
            existing > 0 ==> (r matches Err(AppError::Conflict(m)) && m@
                == "Email already registered"@),
            existing <= 0 ==> (r matches Ok(u) ==> registered_row(u, input, "user"@)),
            existing <= 0 ==> (r matches Err(e) ==> e == AppError::Hash),
    {
        if existing > 0 {
            return Err(AppError::Conflict("Email already registered".to_owned()));
        }
        new_user(input, "user")
    }

    /// The session of a stored user.
    pub fn session(&self, user: User) -> (r: Result<AuthResponse, AppError>)
        requires
            self.keys.expiration_hours <= max_token_hours(),
        ensures
            r is Ok,
            r matches Ok(resp) ==> resp.user == user_response_of(user) && (token_payload(
                resp.token@,
                self.keys.secret@,
            ) matches Some((s, e, ro, _, _)) && s == user.id@ && e == user.email@ && ro
                == user.role@),
            r matches Err(e) ==> e is Jwt,
    {
        session_of(&self.keys, user)
    }

    /// A login, given the user stored under the e-mail, if any.
    pub fn login(&self, found: Option<User>, password: &str) -> (r: Result<AuthResponse, AppError>)
        requires
            self.keys.expiration_hours <= max_token_hours(),
        ensures
            found is None ==> r == Err::<AuthResponse, AppError>(AppError::InvalidCredentials),
            found matches Some(u) ==> {
                &&& argon2_verdict(password@, u.password_hash@) == Some(false) ==> r
                    == Err::<AuthResponse, AppError>(AppError::InvalidCredentials)
                &&& argon2_verdict(password@, u.password_hash@) is None ==> r
                    == Err::<AuthResponse, AppError>(AppError::Hash)
                &&& r is Ok <==> argon2_verdict(password@, u.password_hash@) == Some(true)
            },
    {
        login_of(&self.keys, found, password)
    }

    /// The stored user, or not found.
    pub fn get_user_by_id(&self, found: Option<User>) -> (r: Result<User, AppError>)
        ensures
            found matches Some(u) ==> r == Ok::<User, AppError>(u),
            found is None ==> (r matches Err(AppError::NotFound(m)) && m@ == "User not found"@),
    {
        user_or_not_found(found)
    }

    /// The claims of a valid token.
    pub fn verify_token(&self, token: &str) -> (r: Result<Claims, AppError>)
        ensures
            r matches Ok(c) ==> token_payload(token@, self.keys.secret@) == Some(claims_view(c)),
            r matches Err(e) ==> e is Jwt,
    {
        self.keys.verify_token(token)
    }

    /// A token for the user.
    pub fn generate_token(&self, user: &User) -> (r: Result<String, AppError>)
        requires
            self.keys.expiration_hours <= max_token_hours(),
        ensures
            r is Ok,
            r matches Ok(t) ==> (token_payload(t@, self.keys.secret@) matches Some((s, e, ro, exp, iat))
                && s == user.id@ && e == user.email@ && ro == user.role@ && exp == iat
                + self.keys.expiration_hours * 3600),
            r matches Err(e) ==> e is Jwt,
    {
        self.keys.generate_token(user.id.as_str(), user.email.as_str(), user.role.as_str())
    }

    /// The hash of a password.
    pub fn hash_password(&self, password: &str) -> (r: Result<String, AppError>)
        ensures
            r matches Ok(h) ==> argon2_verdict(password@, h@) == Some(true),
            r matches Err(e) ==> e == AppError::Hash,
    {
        hash_password(password)
    }

    /// Checks a password against its stored hash.
    pub fn verify_password(&self, password: &str, hash: &str) -> (r: Result<(), AppError>)
        ensures
            r is Ok <==> argon2_verdict(password@, hash@) == Some(true),
            argon2_verdict(password@, hash@) is None ==> r == Err::<(), AppError>(AppError::Hash),
            argon2_verdict(password@, hash@) == Some(false) ==> r == Err::<(), AppError>(
                AppError::InvalidCredentials,
            ),
    {
        verify_password(password, hash)
    }
}

} // verus!
