use inventory_service::auth::{
    authorize, check_credentials, gen_token, issue_claims, issue_token, mock_claims, mock_token,
    AuthError, AuthRequest, Claims, Keys, TOKEN_LIFETIME_SECS,
};
use jsonwebtoken::{decode, DecodingKey, Validation};

const SECRET: &[u8] = b"test-signing-secret";

fn decoded(token: &str) -> serde_json::Value {
    decode::<serde_json::Value>(token, &DecodingKey::from_secret(SECRET), &Validation::default())
        .expect("Failed to decode token")
        .claims
}

#[test]
fn test_display() {
    let claims = Claims { sub: "test".to_string(), exp: 0 };
    let display = claims.to_string();
    assert_eq!(display, "Subject: test\nExpiration: 0");
}

#[test]
fn display_writes_expiry_digits() {
    let claims = Claims { sub: "alice".to_string(), exp: 1700000000 };
    assert_eq!(claims.to_string(), "Subject: alice\nExpiration: 1700000000");
}

#[test]
fn test_gen_token() {
    let keys = Keys::new(SECRET);
    let auth_request = AuthRequest { client_id: "foo".to_string(), client_secret: "bar".to_string() };
    let token = gen_token(&auth_request, &keys).unwrap();
    assert!(!token.is_empty());
    let claims = decoded(&token);
    assert_eq!(claims["sub"], "foo");
    assert!(claims["exp"].as_u64().unwrap() > 0);
}

#[test]
fn issued_token_expires_a_day_later() {
    let keys = Keys::new(SECRET);
    let now = std::time::SystemTime::now()
        .duration_since(std::time::UNIX_EPOCH)
        .unwrap()
        .as_secs();
    let token = issue_token("alice", now, &keys).unwrap();
    let claims = decoded(&token);
    assert_eq!(claims["sub"], "alice");
    assert_eq!(claims["exp"].as_u64().unwrap(), now + 86400);
    assert_eq!(TOKEN_LIFETIME_SECS, 86400);
}

#[test]
fn issue_claims_at_the_end_of_time_fails() {
    assert_eq!(issue_claims("a", u64::MAX), None);
    let c = issue_claims("a", 10).unwrap();
    assert_eq!(c, Claims { sub: "a".to_string(), exp: 86410 });
    let keys = Keys::new(SECRET);
    assert_eq!(issue_token("a", u64::MAX - 5, &keys), Err(AuthError::InvalidToken));
}

#[test]
fn token_signed_with_another_secret_is_rejected() {
    let keys = Keys::new(b"another-secret");
    let token = issue_token("foo", 4_000_000_000, &keys).unwrap();
    let result = decode::<serde_json::Value>(
        &token,
        &DecodingKey::from_secret(SECRET),
        &Validation::default(),
    );
    assert!(result.is_err());
}

#[test]
fn test_authorize() {
    let keys = Keys::new(SECRET);
    let auth_request = AuthRequest { client_id: "foo".to_string(), client_secret: "bar".to_string() };
    let response = authorize(&auth_request, 4_000_000_000, &keys);
    assert!(response.is_ok());
    let response = response.unwrap();
    assert!(!response.token.is_empty());
}

#[test]
fn test_authorize_wrong_credentials() {
    let keys = Keys::new(SECRET);
    let auth_request = AuthRequest { client_id: "foo".to_string(), client_secret: "baz".to_string() };
    let response = authorize(&auth_request, 4_000_000_000, &keys);
    assert!(response.is_err());
    match response.unwrap_err() {
        AuthError::WrongCredentials => assert!(true),
        _ => assert!(false),
    }
    assert!(check_credentials(&auth_request).is_err());
}

#[test]
fn test_into_response() {
    assert_eq!(AuthError::WrongCredentials.status_code(), 401);
    assert_eq!(AuthError::MissingCredentials.status_code(), 400);
    assert_eq!(AuthError::TokenCreation.status_code(), 500);
    assert_eq!(AuthError::InvalidToken.status_code(), 400);
    assert_eq!(AuthError::InvalidToken.message(), "Invalid token");
}

#[test]
fn mock_helpers() {
    let claims = mock_claims();
    assert_eq!(claims.sub, "test");
    assert_eq!(claims.exp, 0);
    let keys = Keys::new(SECRET);
    let header = mock_token(&keys).unwrap();
    assert!(header.starts_with("Bearer "));
    let claims = decoded(&header["Bearer ".len()..]);
    assert_eq!(claims["sub"], "foo");
}
