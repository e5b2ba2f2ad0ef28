use labuh::backend::services::auth::{hash_password, verify_password, AuthService, Claims, JwtKeys, User};
use labuh::backend::usecase::auth::AuthUsecase;
use labuh::error::AppError;
use labuh::server::middleware::{auth_middleware, authenticate_checked};

fn user(hash: &str) -> User {
    User {
        id: "u1".to_string(),
        email: "ada@example.com".to_string(),
        password_hash: hash.to_string(),
        name: Some("Ada".to_string()),
        role: "admin".to_string(),
        created_at: "t0".to_string(),
        updated_at: "t0".to_string(),
    }
}

#[test]
fn tokens_read_back_their_claims() {
    let keys = JwtKeys { secret: "s3cret".to_string(), expiration_hours: 24 };
    let token = keys.generate_token("u1", "ada@example.com", "admin").unwrap();
    let claims = keys.verify_token(&token).unwrap();
    assert_eq!(claims.sub, "u1");
    assert_eq!(claims.email, "ada@example.com");
    assert_eq!(claims.role, "admin");
    assert_eq!(claims.exp - claims.iat, 24 * 3600);
    let other = JwtKeys { secret: "other".to_string(), expiration_hours: 24 };
    assert!(matches!(other.verify_token(&token), Err(AppError::Jwt(_))));
    assert!(matches!(keys.verify_token("not.a.token"), Err(AppError::Jwt(_))));
}

#[test]
fn passwords_match_their_hash_only() {
    let hash = hash_password("correct horse").unwrap();
    assert_ne!(hash, "correct horse");
    assert_eq!(verify_password("correct horse", &hash), Ok(()));
    assert_eq!(verify_password("wrong", &hash), Err(AppError::InvalidCredentials));
    assert_eq!(verify_password("correct horse", "not a phc string"), Err(AppError::Hash));
}

#[test]
fn login_gives_a_session_for_the_right_password() {
    let auth = AuthUsecase::new(JwtKeys { secret: "k".to_string(), expiration_hours: 1 });
    let hash = hash_password("pw").unwrap();
    let session = auth.login(Some(user(&hash)), "pw").unwrap();
    assert_eq!(session.user.email, "ada@example.com");
    let claims = auth.verify_token(&session.token).unwrap();
    assert_eq!(claims.sub, "u1");
    assert!(matches!(auth.login(Some(user(&hash)), "nope"), Err(AppError::InvalidCredentials)));
    assert!(matches!(auth.login(None, "pw"), Err(AppError::InvalidCredentials)));
    assert!(auth.is_setup_required(0));
    assert!(!auth.is_setup_required(3));
}

#[test]
fn middleware_accepts_only_valid_bearer_tokens() {
    let service = AuthService::new("k".to_string(), 1);
    let token = service.keys.generate_token("u1", "ada@example.com", "admin").unwrap();
    let header = format!("Bearer {}", token);
    let current = auth_middleware(&service, Some(&header)).unwrap();
    assert_eq!(current.id, "u1");
    assert_eq!(current.role, "admin");
    let missing = auth_middleware(&service, None).unwrap_err();
    assert_eq!(missing.error, "unauthorized");
    assert_eq!(missing.message, "Missing or invalid authorization header");
    let bad = auth_middleware(&service, Some("Bearer junk")).unwrap_err();
    assert_eq!(bad.message, "Invalid or expired token");
}

#[test]
fn checked_token_names_its_user() {
    let claims = Claims { sub: "u1".to_string(), email: "a@b".to_string(), role: "admin".to_string(), exp: 10, iat: 0 };
    let u = authenticate_checked(Ok(claims)).unwrap();
    assert_eq!((u.id.as_str(), u.email.as_str(), u.role.as_str()), ("u1", "a@b", "admin"));
    let e = authenticate_checked(Err(AppError::Jwt("expired".to_string()))).unwrap_err();
    assert_eq!((e.error.as_str(), e.message.as_str()), ("unauthorized", "Invalid or expired token"));
}
