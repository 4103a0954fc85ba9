use axum_crud::auth::{
    authorization_middleware, bearer_token, encode_jwt, identify, receive, AuthError, AuthFailure,
    AuthorizationHeader, Claims, CurrentUser, GuardAction, GuardEvent, GuardState, Refusal,
    StatusHint,
};
use axum_crud::model::User;

fn request(header: AuthorizationHeader, now: usize) -> GuardEvent {
    GuardEvent::Request { header, now }
}

fn text(line: &str) -> AuthorizationHeader {
    AuthorizationHeader::Text(line.to_string())
}

fn rejected(message: &str, status_code: StatusHint) -> (GuardState, GuardAction) {
    (
        GuardState::Rejected,
        GuardAction::Reject { error: AuthError { message: message.to_string(), status_code } },
    )
}

fn bearer(now: usize) -> AuthorizationHeader {
    let token = encode_jwt("a@example.com".to_string(), "secret", now).unwrap();
    AuthorizationHeader::Text(format!("Bearer {}", token))
}

fn resolved() -> GuardState {
    GuardState::ClaimsResolved {
        claims: Claims { exp: 87_400, iat: 1000, email: "a@example.com".to_string() },
    }
}

fn user() -> User {
    User { id: None, email: "a@example.com".to_string(), password: "$2b$hash".to_string() }
}

#[test]
fn missing_header_is_forbidden() {
    let step = authorization_middleware(
        GuardState::Start,
        request(AuthorizationHeader::Absent, 1000),
        "secret",
    );
    assert_eq!(step, rejected("missing token", StatusHint::Forbidden));
    assert_eq!(StatusHint::Forbidden.code(), 403);
}

#[test]
fn header_that_is_no_text_is_forbidden() {
    let step = authorization_middleware(
        GuardState::Start,
        request(AuthorizationHeader::NotText, 1000),
        "secret",
    );
    assert_eq!(step, rejected("malformed header", StatusHint::Forbidden));
}

#[test]
fn header_without_second_word_is_forbidden() {
    for line in ["", "Bearer", "   Bearer   ", " \t "] {
        let step =
            authorization_middleware(GuardState::Start, request(text(line), 1000), "secret");
        assert_eq!(step, rejected("missing token", StatusHint::Forbidden));
    }
}

#[test]
fn expired_token_is_unauthorized() {
    let step = authorization_middleware(GuardState::Start, request(bearer(1000), 87_400), "secret");
    assert_eq!(step, rejected("unable to decode token", StatusHint::Unauthorized));
    assert_eq!(StatusHint::Unauthorized.code(), 401);
}

#[test]
fn garbage_token_is_unauthorized() {
    let step = authorization_middleware(
        GuardState::Start,
        request(text("Bearer not.a.token"), 1000),
        "secret",
    );
    assert_eq!(step, rejected("unable to decode token", StatusHint::Unauthorized));
}

#[test]
fn token_of_another_secret_is_unauthorized() {
    let step = authorization_middleware(GuardState::Start, request(bearer(1000), 1000), "other");
    assert_eq!(step, rejected("unable to decode token", StatusHint::Unauthorized));
}

#[test]
fn valid_token_asks_for_its_user() {
    let step = authorization_middleware(GuardState::Start, request(bearer(1000), 2000), "secret");
    assert_eq!(
        step,
        (resolved(), GuardAction::ResolveUser { email: "a@example.com".to_string() })
    );
}

#[test]
fn scheme_is_not_looked_at() {
    let token = encode_jwt("a@example.com".to_string(), "secret", 1000).unwrap();
    for scheme in ["Bearer", "bearer", "Basic", "x"] {
        let line = format!("  {}\t{}  trailing words", scheme, token);
        let step = authorization_middleware(GuardState::Start, request(text(&line), 1000), "secret");
        assert_eq!(step.0, resolved());
    }
}

#[test]
fn resolved_user_is_forwarded() {
    let step =
        authorization_middleware(resolved(), GuardEvent::Identity { user: Some(user()) }, "secret");
    assert_eq!(
        step,
        (
            GuardState::Authorized,
            GuardAction::Forward {
                user: CurrentUser {
                    email: "a@example.com".to_string(),
                    password_hash: "$2b$hash".to_string(),
                },
            },
        )
    );
}

#[test]
fn unresolved_user_is_unauthorized() {
    let step = authorization_middleware(resolved(), GuardEvent::Identity { user: None }, "secret");
    assert_eq!(step, rejected("not an authorized user", StatusHint::Unauthorized));
}

#[test]
fn events_out_of_order_are_turned_away() {
    let expected = rejected("not an authorized user", StatusHint::Unauthorized);
    let identity = || GuardEvent::Identity { user: Some(user()) };
    assert_eq!(authorization_middleware(GuardState::Start, identity(), "secret"), expected);
    assert_eq!(authorization_middleware(GuardState::Authorized, identity(), "secret"), expected);
    assert_eq!(authorization_middleware(GuardState::Rejected, identity(), "secret"), expected);
    assert_eq!(authorization_middleware(resolved(), request(bearer(1000), 1000), "secret"), expected);
    assert_eq!(
        authorization_middleware(GuardState::Authorized, request(bearer(1000), 1000), "secret"),
        expected
    );
}

#[test]
fn whole_run_from_request_to_forward() {
    let (state, action) =
        authorization_middleware(GuardState::Start, request(bearer(50), 60), "secret");
    let email = match action {
        GuardAction::ResolveUser { email } => email,
        other => panic!("unexpected action {:?}", other),
    };
    let found = User { id: None, email, password: "h".to_string() };
    let (state, action) =
        authorization_middleware(state, GuardEvent::Identity { user: Some(found) }, "secret");
    assert_eq!(state, GuardState::Authorized);
    assert!(matches!(action, GuardAction::Forward { user } if user.email == "a@example.com"));
}

#[test]
fn bearer_token_is_the_second_word() {
    assert_eq!(bearer_token(text("Bearer abc.def.ghi")), Ok("abc.def.ghi".to_string()));
    assert_eq!(bearer_token(text("Bearer")), Err(Refusal::MissingToken));
    assert_eq!(bearer_token(AuthorizationHeader::Absent), Err(Refusal::MissingToken));
    assert_eq!(bearer_token(AuthorizationHeader::NotText), Err(Refusal::MalformedHeader));
}

#[test]
fn refusals_carry_their_words_and_class() {
    let all = [
        (Refusal::MissingToken, "missing token", StatusHint::Forbidden),
        (Refusal::MalformedHeader, "malformed header", StatusHint::Forbidden),
        (Refusal::UndecodableToken, "unable to decode token", StatusHint::Unauthorized),
        (Refusal::UnknownUser, "not an authorized user", StatusHint::Unauthorized),
    ];
    for (refusal, message, status_code) in all {
        assert_eq!(
            refusal.into_error(),
            AuthError { message: message.to_string(), status_code }
        );
    }
}

#[test]
fn judged_token_decides_the_first_step() {
    let claims = Claims { exp: 9, iat: 1, email: "b@example.com".to_string() };
    assert_eq!(
        receive(Ok(claims)),
        (
            GuardState::ClaimsResolved {
                claims: Claims { exp: 9, iat: 1, email: "b@example.com".to_string() },
            },
            GuardAction::ResolveUser { email: "b@example.com".to_string() },
        )
    );
    assert_eq!(
        receive(Err(AuthFailure::InvalidToken)),
        rejected("unable to decode token", StatusHint::Unauthorized)
    );
}

#[test]
fn answer_of_the_store_decides_the_second_step() {
    assert_eq!(identify(None), rejected("not an authorized user", StatusHint::Unauthorized));
    assert_eq!(
        identify(Some(user())).1,
        GuardAction::Forward {
            user: CurrentUser {
                email: "a@example.com".to_string(),
                password_hash: "$2b$hash".to_string(),
            },
        }
    );
}
