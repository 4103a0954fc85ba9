use axum_crud::auth::{
    claims_for, decode_jwt, encode_jwt, signing_secret, validate_claims, AuthFailure, Claims,
    TOKEN_TTL,
};
use axum_crud::crypto::ClaimFields;

const HEADER: &str = "eyJ0eXAiOiJKV1QiLCJhbGciOiJIUzI1NiJ9";
const PAYLOAD: &str = "eyJlbWFpbCI6ImFAZXhhbXBsZS5jb20iLCJleHAiOjg3NDAwLCJpYXQiOjEwMDB9";
const SIGNATURE: &str = "z3gGp3iH__1GXa9zaDGc-bMMWYNeMnSGJWD7haDKjiw";

fn join(header: &str, payload: &str, signature: &str) -> String {
    format!("{}.{}.{}", header, payload, signature)
}

fn issued() -> String {
    encode_jwt("a@example.com".to_string(), "secret", 1000).unwrap()
}

#[test]
fn ttl_is_one_day() {
    assert_eq!(TOKEN_TTL, 24 * 60 * 60);
}

#[test]
fn issued_token_has_the_standard_wire_format() {
    assert_eq!(issued(), join(HEADER, PAYLOAD, SIGNATURE));
}

#[test]
fn issued_token_validates_and_names_its_subject() {
    let claims = decode_jwt(issued(), "secret", 1000).unwrap();
    assert_eq!(
        claims,
        Claims { exp: 87_400, iat: 1000, email: "a@example.com".to_string() }
    );
    assert!(claims.exp > claims.iat);
    assert_eq!(claims.exp, claims.iat + TOKEN_TTL);
}

#[test]
fn round_trip_keeps_any_identity() {
    for email in ["", "x", "Ünï cödé@example.com", "quote\"back\\slash", "line\nbreak"] {
        let token = encode_jwt(email.to_string(), "another secret", 5).unwrap();
        let claims = decode_jwt(token, "another secret", 5).unwrap();
        assert_eq!(claims.email, email);
        assert_eq!(claims.iat, 5);
        assert_eq!(claims.exp, 5 + 86_400);
    }
}

#[test]
fn token_is_valid_until_just_before_its_expiry() {
    assert!(decode_jwt(issued(), "secret", 0).is_ok());
    assert!(decode_jwt(issued(), "secret", 87_399).is_ok());
}

#[test]
fn expired_token_is_invalid() {
    assert_eq!(decode_jwt(issued(), "secret", 87_400), Err(AuthFailure::InvalidToken));
    assert_eq!(decode_jwt(issued(), "secret", 87_401), Err(AuthFailure::InvalidToken));
    assert_eq!(decode_jwt(issued(), "secret", usize::MAX), Err(AuthFailure::InvalidToken));
}

#[test]
fn any_altered_signature_byte_is_rejected() {
    let token = issued();
    let start = token.rfind('.').unwrap() + 1;
    let alphabet = "ABCDEFGHIJKLMNOPQRSTUVWXYZabcdefghijklmnopqrstuvwxyz0123456789-_.=";
    let mut tried = 0;
    for at in start..token.len() {
        for replacement in alphabet.chars() {
            if token[at..].starts_with(replacement) {
                continue;
            }
            let mut altered = String::new();
            altered.push_str(&token[..at]);
            altered.push(replacement);
            altered.push_str(&token[at + 1..]);
            assert_eq!(
                decode_jwt(altered, "secret", 1000),
                Err(AuthFailure::InvalidToken)
            );
            tried += 1;
        }
    }
    assert_eq!(tried, SIGNATURE.len() * (alphabet.len() - 1));
}

#[test]
fn altered_payload_is_rejected() {
    let other = "eyJlbWFpbCI6ImFAZXhhbXBsZS5jb20iLCJleHAiOjg3NDAwLCJpYXQiOjEwMDAsInJvbGUiOiJhZG1pbiJ9";
    assert_eq!(
        decode_jwt(join(HEADER, other, SIGNATURE), "secret", 1000),
        Err(AuthFailure::InvalidToken)
    );
}

#[test]
fn token_of_another_secret_is_rejected() {
    assert_eq!(decode_jwt(issued(), "Secret", 1000), Err(AuthFailure::InvalidToken));
    assert_eq!(decode_jwt(issued(), "", 1000), Err(AuthFailure::InvalidToken));
}

#[test]
fn malformed_tokens_are_rejected() {
    for text in ["", "abc", "a.b", "a.b.c", "..", "a.b.c.d", " ", "Bearer"] {
        assert_eq!(
            decode_jwt(text.to_string(), "secret", 1000),
            Err(AuthFailure::InvalidToken)
        );
    }
    let truncated = join(HEADER, PAYLOAD, "");
    assert_eq!(decode_jwt(truncated, "secret", 1000), Err(AuthFailure::InvalidToken));
    let extended = format!("{}.", issued());
    assert_eq!(decode_jwt(extended, "secret", 1000), Err(AuthFailure::InvalidToken));
}

#[test]
fn extra_claims_are_ignored() {
    let payload = "eyJlbWFpbCI6ImFAZXhhbXBsZS5jb20iLCJleHAiOjg3NDAwLCJpYXQiOjEwMDAsInJvbGUiOiJhZG1pbiJ9";
    let signature = "3P78Y9t-Ib3C-FgULIO8jKkx-UKZMEIudsNMN_yf-Ks";
    let claims = decode_jwt(join(HEADER, payload, signature), "secret", 1000).unwrap();
    assert_eq!(claims.email, "a@example.com");
    assert_eq!(claims.exp, 87_400);
}

#[test]
fn signed_token_without_email_is_rejected() {
    let payload = "eyJleHAiOjg3NDAwLCJpYXQiOjEwMDB9";
    let signature = "xpvY17vQq4ET3xtsCRnP_h4lMNz_wmCfx4q6CxwQF00";
    assert_eq!(
        decode_jwt(join(HEADER, payload, signature), "secret", 1000),
        Err(AuthFailure::InvalidToken)
    );
}

#[test]
fn signed_token_without_expiry_is_rejected() {
    let payload = "eyJlbWFpbCI6ImFAZXhhbXBsZS5jb20iLCJpYXQiOjEwMDB9";
    let signature = "1b7uqpOBOlXpxU5FD3jFI63CErDdE1bWo2DR4r4CYTw";
    assert_eq!(
        decode_jwt(join(HEADER, payload, signature), "secret", 1000),
        Err(AuthFailure::InvalidToken)
    );
}

#[test]
fn signed_token_with_claims_of_another_type_is_rejected() {
    let fractional = "eyJlbWFpbCI6ImFAZXhhbXBsZS5jb20iLCJleHAiOjg3NDAwLjAsImlhdCI6MTAwMH0";
    let fractional_signature = "u3iv5-I0TUs3hf-pa9w5g6EjoWAkNkNIK1cmDG4x4wM";
    assert_eq!(
        decode_jwt(join(HEADER, fractional, fractional_signature), "secret", 1000),
        Err(AuthFailure::InvalidToken)
    );
    let numeric_email = "eyJlbWFpbCI6NywiZXhwIjo4NzQwMCwiaWF0IjoxMDAwfQ";
    let numeric_signature = "owboB9uY0so0IBJBMQTh2rTx6vG8Os8jRvOxf-dxB50";
    assert_eq!(
        decode_jwt(join(HEADER, numeric_email, numeric_signature), "secret", 1000),
        Err(AuthFailure::InvalidToken)
    );
}

#[test]
fn token_under_another_algorithm_is_rejected() {
    let header = "eyJ0eXAiOiJKV1QiLCJhbGciOiJIUzM4NCJ9";
    let signature = "lxrD79mYQyEaYM3Jtkt4G8J9IbAamqZ-mOq2GTzH9fcl0lqDwg2Wx7cPABROCZGB";
    assert_eq!(
        decode_jwt(join(header, PAYLOAD, signature), "secret", 1000),
        Err(AuthFailure::InvalidToken)
    );
}

#[test]
fn issuing_fails_where_the_expiry_cannot_be_counted() {
    assert_eq!(
        encode_jwt("a@example.com".to_string(), "secret", usize::MAX),
        Err(AuthFailure::SigningFailure)
    );
    assert_eq!(
        encode_jwt("a@example.com".to_string(), "secret", usize::MAX - 86_399),
        Err(AuthFailure::SigningFailure)
    );
    assert!(encode_jwt("a@example.com".to_string(), "secret", usize::MAX - 86_400).is_ok());
}

#[test]
fn absent_secret_is_a_configuration_error() {
    assert_eq!(signing_secret(None), Err(AuthFailure::ConfigurationError));
    assert_eq!(signing_secret(Some("s3".to_string())), Ok("s3".to_string()));
    assert_eq!(signing_secret(Some(String::new())), Ok(String::new()));
}

#[test]
fn failures_map_to_their_status() {
    assert_eq!(AuthFailure::BadCredentials.status_code(), 401);
    assert_eq!(AuthFailure::InvalidToken.status_code(), 401);
    assert_eq!(AuthFailure::HashingFailure.status_code(), 500);
    assert_eq!(AuthFailure::SigningFailure.status_code(), 500);
    assert_eq!(AuthFailure::ConfigurationError.status_code(), 500);
}

#[test]
fn claims_are_judged_by_completeness_and_expiry() {
    let fields = |exp, iat, email: Option<&str>| ClaimFields {
        exp,
        iat,
        email: email.map(|e| e.to_string()),
    };
    assert_eq!(
        validate_claims(fields(Some(10), Some(3), Some("a")), 9),
        Ok(Claims { exp: 10, iat: 3, email: "a".to_string() })
    );
    assert_eq!(
        validate_claims(fields(Some(10), Some(3), Some("a")), 10),
        Err(AuthFailure::InvalidToken)
    );
    assert_eq!(validate_claims(fields(Some(0), Some(0), Some("a")), 0), Err(AuthFailure::InvalidToken));
    assert_eq!(validate_claims(fields(None, Some(3), Some("a")), 0), Err(AuthFailure::InvalidToken));
    assert_eq!(validate_claims(fields(Some(10), None, Some("a")), 0), Err(AuthFailure::InvalidToken));
    assert_eq!(validate_claims(fields(Some(10), Some(3), None), 0), Err(AuthFailure::InvalidToken));
    assert_eq!(
        validate_claims(fields(Some(u64::MAX), Some(u64::MAX), Some("")), usize::MAX - 1),
        Ok(Claims { exp: usize::MAX, iat: usize::MAX, email: String::new() })
    );
    assert_eq!(
        claims_for("a".to_string(), 1000),
        Some(Claims { exp: 87_400, iat: 1000, email: "a".to_string() })
    );
    assert_eq!(claims_for("a".to_string(), 0).unwrap().exp, 86_400);
    assert_eq!(claims_for("a".to_string(), usize::MAX - 86_399), None);
}
