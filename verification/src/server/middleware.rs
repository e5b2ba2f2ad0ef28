//! Authentication of requests: the bearer token of the `Authorization`
//! header names the current user.
use vstd::prelude::*;
use crate::backend::services::auth::{claims_view, token_payload, AuthService, Claims};
use crate::error::AppError;
use crate::text::{chars_of, has_prefix, starts_with, string_of};

verus! {

/// The user a request acts for.
#[derive(Debug)]
pub struct CurrentUser {
    pub id: String,
    pub email: String,
    pub role: String,
}

/// The user named by claims.
pub open spec fn user_of_claims(c: Claims) -> CurrentUser {
    CurrentUser { id: c.sub, email: c.email, role: c.role }
}

impl From<Claims> for CurrentUser {
    fn from(claims: Claims) -> (u: CurrentUser) {
        CurrentUser { id: claims.sub, email: claims.email, role: claims.role }
    }
}

impl vstd::std_specs::convert::FromSpecImpl<Claims> for CurrentUser {
    open spec fn obeys_from_spec() -> bool {
        true
    }

    open spec fn from_spec(c: Claims) -> CurrentUser {
        user_of_claims(c)
    }
}

/// Why a request is refused: an error code and a message.
#[derive(Debug)]
pub struct AuthError {
    pub error: String,
    pub message: String,
}

/// The token of an `Authorization` header: what follows `Bearer `.
pub open spec fn bearer_of(header: Option<Seq<char>>) -> Option<Seq<char>> {
    match header {
        Some(h) => if has_prefix(h, "Bearer "@) {
            Some(h.subrange(7, h.len() as int))
        } else {
            None
        },
        None => None,
    }
}

/// The bearer token of an `Authorization` header, if it holds one.
pub fn bearer_token(header: Option<&str>) -> (r: Option<String>)
    ensures
        match r {
            Some(t) => bearer_of(match header {
                Some(h) => Some(h@),
                None => None,
            }) == Some(t@),
            None => bearer_of(match header {
                Some(h) => Some(h@),
                None => None,
            }) is None,
        },
{
    proof {
        reveal_strlit("Bearer ");
    }
    match header {
        None => None,
        Some(h) => {
            let v = chars_of(h);
            let prefix = chars_of("Bearer ");
            if starts_with(&v, &prefix) {
                let mut rest: Vec<char> = Vec::new();
                let mut i: usize = 7;
                while i < v.len()
                    invariant
                        7 <= i <= v.len(),
                        rest@ == v@.subrange(7, i as int),
                    decreases v.len() - i,
                {
                    rest.push(v[i]);
                    proof {
                        assert(rest@ =~= v@.subrange(7, i + 1));
                    }
                    i = i + 1;
                }
                Some(string_of(&rest))
            } else {
                None
            }
        },
    }
}

/// The token, signed under `secret`, names user `u`.
pub open spec fn token_names(t: Seq<char>, secret: Seq<char>, u: CurrentUser) -> bool {
    token_payload(t, secret) matches Some((sub, email, role, _, _)) && sub == u.id@ && email
        == u.email@ && role == u.role@
}

/// The answer to a request whose bearer token was checked, given the
/// outcome of that check: the user the claims name, or a refusal of an
/// invalid or expired token.
pub open spec fn checked_outcome(check: Result<Claims, AppError>, r: Result<CurrentUser, AuthError>) -> bool {
    match check {
        Ok(c) => r == Ok::<CurrentUser, AuthError>(user_of_claims(c)),
        Err(_) => r matches Err(e) && e.error@ == "unauthorized"@ && e.message@ == "Invalid or expired token"@,
    }
}

/// The answer to a request whose bearer token was checked, from the outcome
/// of the check.
pub fn authenticate_checked(check: Result<Claims, AppError>) -> (r: Result<CurrentUser, AuthError>)
    ensures
        checked_outcome(check, r),
{
    proof {
        reveal_strlit("unauthorized");
        reveal_strlit("Invalid or expired token");
    }
    match check {
        Ok(claims) => Ok(CurrentUser::from(claims)),
        Err(_) => Err(
            AuthError { error: "unauthorized".to_owned(), message: "Invalid or expired token".to_owned() },
        ),
    }
}

/// Authenticates a request from its `Authorization` header: a missing or
/// non-bearer header is refused as such; a bearer token is checked, and the
/// answer is that of `authenticate_checked` on the check's outcome: the user
/// the token names, or a refusal of an invalid or expired token.
pub fn auth_middleware(auth_service: &AuthService, header: Option<&str>) -> (r: Result<
    CurrentUser,
    AuthError,
>)
    ensures
        bearer_of(
            match header {
                Some(h) => Some(h@),
                None => None,
            },
        ) is None <==> (r matches Err(e) && e.error@ == "unauthorized"@ && e.message@
            == "Missing or invalid authorization header"@),
        bearer_of(
            match header {
                Some(h) => Some(h@),
                None => None,
            },
        ) is Some ==> exists|check: Result<Claims, AppError>| #[trigger] checked_outcome(check, r),
        r matches Ok(u) ==> (bearer_of(
            match header {
                Some(h) => Some(h@),
                None => None,
            },
        ) matches Some(t) && token_names(t, auth_service.keys.secret@, u)),
        r matches Err(e) ==> e.error@ == "unauthorized"@ && (e.message@
            == "Missing or invalid authorization header"@ || e.message@
            == "Invalid or expired token"@),
{
    proof {
        reveal_strlit("Missing or invalid authorization header");
        reveal_strlit("Invalid or expired token");
    }
    match bearer_token(header) {
        None => Err(
            AuthError {
                error: "unauthorized".to_owned(),
                message: "Missing or invalid authorization header".to_owned(),
            },
        ),
        Some(token) => {
            let check = auth_service.verify_token(token.as_str());
            let ghost g = check;
            let r = authenticate_checked(check);
            proof {
                assert(checked_outcome(g, r));
                assert("Invalid or expired token"@.len() != "Missing or invalid authorization header"@.len());
            }
            r
        },
    }
}

} // verus!
