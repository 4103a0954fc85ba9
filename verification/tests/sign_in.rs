use axum_crud::auth::{check_credentials, decode_jwt, sign_in, AuthFailure, SignInData};
use axum_crud::model::User;

const STORED_HASH: &str = "$2b$04$EGdrhbKUv8Oc9vGiXX0HQOxSg445d458Muh7DAHskb6QbtCvdxcie";

fn stored_user() -> User {
    User { id: None, email: "a@example.com".to_string(), password: STORED_HASH.to_string() }
}

fn attempt(password: &str) -> SignInData {
    SignInData { email: "a@example.com".to_string(), password: password.to_string() }
}

#[test]
fn correct_password_yields_a_token() {
    let token = sign_in(Some(stored_user()), &attempt("correctbatteryhorsestapler"), "secret", 1000)
        .unwrap();
    assert!(!token.is_empty());
    let claims = decode_jwt(token, "secret", 1000).unwrap();
    assert_eq!(claims.email, "a@example.com");
    assert_eq!(claims.iat, 1000);
    assert_eq!(claims.exp, 87_400);
}

#[test]
fn wrong_password_is_unauthorized() {
    let r = sign_in(Some(stored_user()), &attempt("wrong"), "secret", 1000);
    assert_eq!(r, Err(AuthFailure::BadCredentials));
    assert_eq!(r.unwrap_err().status_code(), 401);
}

#[test]
fn unknown_user_is_unauthorized() {
    let r = sign_in(None, &attempt("correctbatteryhorsestapler"), "secret", 1000);
    assert_eq!(r, Err(AuthFailure::BadCredentials));
}

#[test]
fn corrupted_stored_hash_is_a_server_error() {
    let broken = User {
        id: None,
        email: "a@example.com".to_string(),
        password: "plaintext".to_string(),
    };
    let r = sign_in(Some(broken), &attempt("plaintext"), "secret", 1000);
    assert_eq!(r, Err(AuthFailure::HashingFailure));
    assert_eq!(r.unwrap_err().status_code(), 500);
}

#[test]
fn token_is_issued_to_the_stored_email() {
    let data = SignInData {
        email: "A@Example.com".to_string(),
        password: "correctbatteryhorsestapler".to_string(),
    };
    let token = sign_in(Some(stored_user()), &data, "secret", 7).unwrap();
    assert_eq!(decode_jwt(token, "secret", 7).unwrap().email, "a@example.com");
}

#[test]
fn sign_in_fails_where_no_token_can_be_issued() {
    let r = sign_in(
        Some(stored_user()),
        &attempt("correctbatteryhorsestapler"),
        "secret",
        usize::MAX,
    );
    assert_eq!(r, Err(AuthFailure::SigningFailure));
}

#[test]
fn verdict_on_the_password_decides() {
    assert_eq!(check_credentials(Ok(true)), Ok(()));
    assert_eq!(check_credentials(Ok(false)), Err(AuthFailure::BadCredentials));
    assert_eq!(
        check_credentials(Err(AuthFailure::HashingFailure)),
        Err(AuthFailure::HashingFailure)
    );
}
