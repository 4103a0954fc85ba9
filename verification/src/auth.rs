//! Credentials, session tokens and the guard in front of protected requests.

use crate::crypto::{
    bcrypt_hash, bcrypt_verdict, bcrypt_verify, hs256_decode, hs256_encode, hs256_payload,
    hs256_token, last_dot, lemma_last_dot_bounds, lemma_update_adds_dot,
    lemma_update_keeps_dots, signature_part, signed_part, well_signed, ClaimFields,
    ClaimFieldsView,
};
use crate::model::{User, UserView};
use crate::text::{is_word, lemma_second_word_of_pair, second_token, second_word};
use vstd::prelude::*;

verus! {

/// How long a token stays valid after it was issued: 24 hours, in seconds.
pub const TOKEN_TTL: usize = 86_400;

/// Why a credential or a token was not accepted, or could not be made.
#[derive(Clone, Copy, Debug, PartialEq, Eq, Structural)]
pub enum AuthFailure {
    /// The password primitive reported an error.
    HashingFailure,
    /// The token is forged, malformed, incomplete or expired.
    InvalidToken,
    /// The signing secret is not configured.
    ConfigurationError,
    /// The token could not be produced.
    SigningFailure,
    /// No such user, or the password does not match.
    BadCredentials,
}

impl AuthFailure {
    /// The HTTP status that stands for this failure.
    pub open spec fn status(self) -> u16 {
        match self {
            AuthFailure::BadCredentials | AuthFailure::InvalidToken => 401,
            _ => 500,
        }
    }

    /// The HTTP status to answer with: 401 where the caller is at fault,
    /// 500 where the server is.
    pub fn status_code(self) -> (r: u16)
        ensures
            r == self.status(),
    {
        match self {
            AuthFailure::BadCredentials | AuthFailure::InvalidToken => 401,
            _ => 500,
        }
    }
}

/// The status class of a rejection at the guard.
#[derive(Clone, Copy, Debug, PartialEq, Eq, Structural)]
pub enum StatusHint {
    Forbidden,
    Unauthorized,
}

impl StatusHint {
    /// The HTTP status of the class.
    pub open spec fn status(self) -> u16 {
        match self {
            StatusHint::Forbidden => 403,
            StatusHint::Unauthorized => 401,
        }
    }

    /// 403 for `Forbidden`, 401 for `Unauthorized`.
    pub fn code(self) -> (r: u16)
        ensures
            r == self.status(),
    {
        match self {
            StatusHint::Forbidden => 403,
            StatusHint::Unauthorized => 401,
        }
    }
}

/// What a session token states: who it was issued to, when, and until when
/// it holds. Times are seconds since the Unix epoch.
#[derive(Debug, PartialEq, Eq)]
pub struct Claims {
    pub exp: usize,
    pub iat: usize,
    pub email: String,
}

/// Mathematical value of [`Claims`].
pub struct ClaimsView {
    pub exp: nat,
    pub iat: nat,
    pub email: Seq<char>,
}

impl ClaimsView {
    /// Claims as the token service makes them: the expiry lies 24 hours
    /// after the issue, and so behind it.
    pub open spec fn well_formed(self) -> bool {
        self.exp == self.iat + TOKEN_TTL
    }
}

impl View for Claims {
    type V = ClaimsView;

    open spec fn view(&self) -> ClaimsView {
        ClaimsView { exp: self.exp as nat, iat: self.iat as nat, email: self.email@ }
    }
}

/// What a caller sends to sign in.
#[derive(Debug, PartialEq, Eq)]
pub struct SignInData {
    pub email: String,
    pub password: String,
}

/// The identity that the guard attaches to a request it lets through.
#[derive(Debug, PartialEq, Eq)]
pub struct CurrentUser {
    pub email: String,
    pub password_hash: String,
}

/// Mathematical value of [`CurrentUser`].
pub struct CurrentUserView {
    pub email: Seq<char>,
    pub password_hash: Seq<char>,
}

impl View for CurrentUser {
    type V = CurrentUserView;

    open spec fn view(&self) -> CurrentUserView {
        CurrentUserView { email: self.email@, password_hash: self.password_hash@ }
    }
}

impl Clone for CurrentUser {
    fn clone(&self) -> (r: Self)
        ensures
            r == *self,
    {
        CurrentUser { email: self.email.clone(), password_hash: self.password_hash.clone() }
    }
}

/// The identity that a stored user stands for.
pub open spec fn identity_of(user: UserView) -> CurrentUserView {
    CurrentUserView { email: user.email, password_hash: user.password }
}

/// A rejection at the guard: the reason in words and the status class.
#[derive(Debug, PartialEq, Eq)]
pub struct AuthError {
    pub message: String,
    pub status_code: StatusHint,
}

/// Mathematical value of [`AuthError`].
pub struct AuthErrorView {
    pub message: Seq<char>,
    pub status_code: StatusHint,
}

impl View for AuthError {
    type V = AuthErrorView;

    open spec fn view(&self) -> AuthErrorView {
        AuthErrorView { message: self.message@, status_code: self.status_code }
    }
}

impl Clone for AuthError {
    fn clone(&self) -> (r: Self)
        ensures
            r == *self,
    {
        AuthError { message: self.message.clone(), status_code: self.status_code }
    }
}

/// The four ways in which the guard turns a request away.
#[derive(Clone, Copy, Debug, PartialEq, Eq, Structural)]
pub enum Refusal {
    /// No `Authorization` header, or one without a second word.
    MissingToken,
    /// An `Authorization` header that is no text.
    MalformedHeader,
    /// A token that does not validate.
    UndecodableToken,
    /// A token for an identity that the store does not resolve.
    UnknownUser,
}

impl Refusal {
    /// The reason, in the words that the caller is given.
    pub open spec fn message(self) -> Seq<char> {
        match self {
            Refusal::MissingToken => "missing token"@,
            Refusal::MalformedHeader => "malformed header"@,
            Refusal::UndecodableToken => "unable to decode token"@,
            Refusal::UnknownUser => "not an authorized user"@,
        }
    }

    /// Forbidden while no token could be read, unauthorized once one was.
    pub open spec fn status_hint(self) -> StatusHint {
        match self {
            Refusal::MissingToken | Refusal::MalformedHeader => StatusHint::Forbidden,
            Refusal::UndecodableToken | Refusal::UnknownUser => StatusHint::Unauthorized,
        }
    }

    /// The rejection that the caller is given for this refusal.
    pub open spec fn rejection(self) -> AuthErrorView {
        AuthErrorView { message: self.message(), status_code: self.status_hint() }
    }

    /// Builds the rejection for this refusal.
    pub fn into_error(self) -> (r: AuthError)
        ensures
            r@ == self.rejection(),
    {
        match self {
            Refusal::MissingToken => AuthError {
                message: "missing token".to_owned(),
                status_code: StatusHint::Forbidden,
            },
            Refusal::MalformedHeader => AuthError {
                message: "malformed header".to_owned(),
                status_code: StatusHint::Forbidden,
            },
            Refusal::UndecodableToken => AuthError {
                message: "unable to decode token".to_owned(),
                status_code: StatusHint::Unauthorized,
            },
            Refusal::UnknownUser => AuthError {
                message: "not an authorized user".to_owned(),
                status_code: StatusHint::Unauthorized,
            },
        }
    }
}

// ---------------------------------------------------------------------------
// Credential hasher
// ---------------------------------------------------------------------------

/// What verifying a password against a stored hash comes to: whether they
/// match, or a hashing failure where the stored hash cannot be read.
pub open spec fn verification(password: Seq<char>, hash: Seq<char>) -> Result<bool, AuthFailure> {
    match bcrypt_verdict(password, hash) {
        Some(matches) => Ok(matches),
        None => Err(AuthFailure::HashingFailure),
    }
}

/// Tells whether `password` is the one that `hash` was made from. A
/// mismatch is `Ok(false)`; only a hash that cannot be read is an error.
pub fn verify_password(password: &str, hash: &str) -> (r: Result<bool, AuthFailure>)
    ensures
        r == verification(password@, hash@),
{
    match bcrypt_verify(password, hash) {
        Ok(matches) => Ok(matches),
        Err(_) => Err(AuthFailure::HashingFailure),
    }
}

/// Hashes `password` for storage. Every hash it returns verifies against
/// the password it was made from; the only error is a hashing failure.
pub fn hash_password(password: &str) -> (r: Result<String, AuthFailure>)
    ensures
        match r {
            Ok(hash) => verification(password@, hash@) == Ok::<bool, AuthFailure>(true),
            Err(e) => e == AuthFailure::HashingFailure,
        },
{
    match bcrypt_hash(password) {
        Ok(hash) => Ok(hash),
        Err(_) => Err(AuthFailure::HashingFailure),
    }
}

// ---------------------------------------------------------------------------
// Token service
// ---------------------------------------------------------------------------

/// The signing secret of the process, from what the configuration holds.
/// An absent secret is a configuration error.
pub fn signing_secret(configured: Option<String>) -> (r: Result<String, AuthFailure>)
    ensures
        match configured {
            Some(secret) => r == Ok::<String, AuthFailure>(secret),
            None => r == Err::<String, AuthFailure>(AuthFailure::ConfigurationError),
        },
{
    match configured {
        Some(secret) => Ok(secret),
        None => Err(AuthFailure::ConfigurationError),
    }
}

/// The claims of a token issued to `email` at `now`.
pub open spec fn issued_claims(email: Seq<char>, now: nat) -> ClaimsView {
    ClaimsView { exp: now + TOKEN_TTL as nat, iat: now, email }
}

/// The token that is issued to `email` at `now` under `secret`: `None`
/// where the expiry has no machine representation or signing fails.
pub open spec fn issuance(secret: Seq<char>, email: Seq<char>, now: nat) -> Option<Seq<char>> {
    if now + TOKEN_TTL <= usize::MAX {
        hs256_token(secret, (now + TOKEN_TTL) as u64, now as u64, email)
    } else {
        None
    }
}

/// The claims that a payload gives, if it holds all three and the times
/// have a machine representation.
pub open spec fn complete_claims(fields: ClaimFieldsView) -> Option<ClaimsView> {
    match (fields.exp, fields.iat, fields.email) {
        (Some(exp), Some(iat), Some(email)) => if exp <= usize::MAX && iat <= usize::MAX {
            Some(ClaimsView { exp: exp as nat, iat: iat as nat, email })
        } else {
            None
        },
        _ => None,
    }
}

/// The claims that `token` carries under `secret`: those of its payload if
/// its signature is the one that the secret gives, and none otherwise.
pub open spec fn token_claims(secret: Seq<char>, token: Seq<char>) -> Option<ClaimsView> {
    if well_signed(secret, token) {
        match hs256_payload(secret, token) {
            Some(fields) => complete_claims(fields),
            None => None,
        }
    } else {
        None
    }
}

/// What validating `token` at `now` comes to: its claims while `now` is
/// before their expiry, and an invalid token in every other case.
pub open spec fn validation(secret: Seq<char>, token: Seq<char>, now: nat) -> Result<
    ClaimsView,
    AuthFailure,
> {
    match token_claims(secret, token) {
        Some(claims) => if now < claims.exp {
            Ok(claims)
        } else {
            Err(AuthFailure::InvalidToken)
        },
        None => Err(AuthFailure::InvalidToken),
    }
}

/// `token` is what was issued to `email` at `now` under `secret`, and it
/// carries the claims of that issuance.
pub open spec fn issued(secret: Seq<char>, email: Seq<char>, now: nat, token: Seq<char>) -> bool {
    &&& issuance(secret, email, now) == Some(token)
    &&& token_claims(secret, token) == Some(issued_claims(email, now))
}

/// The claims of a token that is issued to `email` at the time `now`:
/// issued at `now`, expiring 24 hours later. `None` where the expiry has no
/// machine representation.
pub fn claims_for(email: String, now: usize) -> (r: Option<Claims>)
    ensures
        match r {
            Some(claims) => now + TOKEN_TTL <= usize::MAX && claims@ == issued_claims(
                email@,
                now as nat,
            ) && claims@.well_formed(),
            None => now + TOKEN_TTL > usize::MAX,
        },
{
    match now.checked_add(TOKEN_TTL) {
        Some(exp) => Some(Claims { exp, iat: now, email }),
        None => None,
    }
}

/// Issues a token to `email` at the time `now`, in seconds since the Unix
/// epoch. The token expires 24 hours later. The only error is a signing
/// failure.
pub fn encode_jwt(email: String, secret: &str, now: usize) -> (r: Result<String, AuthFailure>)
    ensures
        match r {
            Ok(token) => issued(secret@, email@, now as nat, token@),
            Err(e) => e == AuthFailure::SigningFailure && issuance(secret@, email@, now as nat)
                is None,
        },
{
    let claims = match claims_for(email, now) {
        Some(claims) => claims,
        None => return Err(AuthFailure::SigningFailure),
    };
    match hs256_encode(secret, claims.exp as u64, claims.iat as u64, claims.email.as_str()) {
        Ok(token) => Ok(token),
        Err(_) => Err(AuthFailure::SigningFailure),
    }
}

/// What the claims found in a payload come to at `now`: the claims where
/// all three are there and `now` is before the expiry, and an invalid
/// token otherwise.
pub open spec fn claims_validation(fields: ClaimFieldsView, now: nat) -> Result<
    ClaimsView,
    AuthFailure,
> {
    match complete_claims(fields) {
        Some(claims) => if now < claims.exp {
            Ok(claims)
        } else {
            Err(AuthFailure::InvalidToken)
        },
        None => Err(AuthFailure::InvalidToken),
    }
}

/// Judges the claims that were found in the payload of an authentic token,
/// at the time `now`: they must be complete and not expired.
pub fn validate_claims(fields: ClaimFields, now: usize) -> (r: Result<Claims, AuthFailure>)
    ensures
        match r {
            Ok(claims) => claims_validation(fields@, now as nat) == Ok::<ClaimsView, AuthFailure>(
                claims@,
            ),
            Err(e) => claims_validation(fields@, now as nat) == Err::<ClaimsView, AuthFailure>(e),
        },
{
    match (fields.exp, fields.iat, fields.email) {
        (Some(exp), Some(iat), Some(email)) => {
            if exp <= usize::MAX as u64 && iat <= usize::MAX as u64 && (now as u64) < exp {
                Ok(Claims { exp: exp as usize, iat: iat as usize, email })
            } else {
                Err(AuthFailure::InvalidToken)
            }
        },
        _ => Err(AuthFailure::InvalidToken),
    }
}

/// Validates `jwt_token` at the time `now`, in seconds since the Unix
/// epoch, and returns its claims. A token that is forged, malformed,
/// incomplete or expired is an invalid token; the caller is not told which.
pub fn decode_jwt(jwt_token: String, secret: &str, now: usize) -> (r: Result<Claims, AuthFailure>)
    ensures
        match r {
            Ok(claims) => validation(secret@, jwt_token@, now as nat) == Ok::<
                ClaimsView,
                AuthFailure,
            >(claims@),
            Err(e) => validation(secret@, jwt_token@, now as nat) == Err::<
                ClaimsView,
                AuthFailure,
            >(e),
        },
{
    match hs256_decode(secret, jwt_token.as_str()) {
        Ok(fields) => validate_claims(fields, now),
        Err(_) => Err(AuthFailure::InvalidToken),
    }
}

/// A token that was issued validates at every time before its expiry, and
/// gives back the identity it was issued to.
pub proof fn lemma_issued_token_validates(
    secret: Seq<char>,
    email: Seq<char>,
    issued_at: nat,
    token: Seq<char>,
    now: nat,
)
    requires
        issued(secret, email, issued_at, token),
        now < issued_at + TOKEN_TTL,
    ensures
        validation(secret, token, now) == Ok::<ClaimsView, AuthFailure>(
            issued_claims(email, issued_at),
        ),
        validation(secret, token, now)->Ok_0.email == email,
        validation(secret, token, now)->Ok_0.well_formed(),
        validation(secret, token, now)->Ok_0.exp > validation(secret, token, now)->Ok_0.iat,
{
}

/// A token that validates no longer does once one character of its
/// signature segment is replaced by another.
pub proof fn lemma_altered_signature_rejected(
    secret: Seq<char>,
    token: Seq<char>,
    at: int,
    c: char,
    now: nat,
    later: nat,
)
    requires
        validation(secret, token, now) is Ok,
        last_dot(token) < at < token.len(),
        c != token[at],
    ensures
        validation(secret, token.update(at, c), later) == Err::<ClaimsView, AuthFailure>(
            AuthFailure::InvalidToken,
        ),
{
    let altered = token.update(at, c);
    lemma_last_dot_bounds(token);
    let dot = last_dot(token);
    assert(token[at] != '.');
    if c == '.' {
        lemma_update_adds_dot(token, at);
    } else {
        lemma_update_keeps_dots(token, at, c);
        assert(signed_part(altered) =~= signed_part(token));
        assert(signature_part(altered)[at - dot - 1] == c);
        assert(signature_part(token)[at - dot - 1] == token[at]);
    }
}

/// A token does not validate at or after the expiry that it carries, and
/// so not once 24 hours have passed since it was issued.
pub proof fn lemma_expired_token_rejected(secret: Seq<char>, token: Seq<char>, now: nat)
    ensures
        token_claims(secret, token) matches Some(claims) && now >= claims.exp ==> validation(
            secret,
            token,
            now,
        ) == Err::<ClaimsView, AuthFailure>(AuthFailure::InvalidToken),
        forall|email: Seq<char>, issued_at: nat|
            #![trigger issued(secret, email, issued_at, token)]
            issued(secret, email, issued_at, token) && now >= issued_at + TOKEN_TTL
                ==> validation(secret, token, now) == Err::<ClaimsView, AuthFailure>(
                AuthFailure::InvalidToken,
            ),
{
}

// ---------------------------------------------------------------------------
// Sign-in
// ---------------------------------------------------------------------------

/// What a sign-in comes to, given the user that the store holds under the
/// email: a token where the password matches the stored hash, bad
/// credentials where there is no such user or no match, and a failure of
/// hashing or signing otherwise.
pub open spec fn sign_in_outcome(
    user: Option<User>,
    password: Seq<char>,
    secret: Seq<char>,
    now: nat,
) -> Result<Seq<char>, AuthFailure> {
    match user {
        None => Err(AuthFailure::BadCredentials),
        Some(found) => match bcrypt_verdict(password, found.password@) {
            None => Err(AuthFailure::HashingFailure),
            Some(false) => Err(AuthFailure::BadCredentials),
            Some(true) => match issuance(secret, found.email@, now) {
                Some(token) => Ok(token),
                None => Err(AuthFailure::SigningFailure),
            },
        },
    }
}

/// What the verdict on a password means for a sign-in: a match lets it go
/// on, a mismatch is bad credentials, and a failure of the primitive stays
/// what it is.
pub fn check_credentials(verdict: Result<bool, AuthFailure>) -> (r: Result<(), AuthFailure>)
    ensures
        r == match verdict {
            Ok(true) => Ok::<(), AuthFailure>(()),
            Ok(false) => Err::<(), AuthFailure>(AuthFailure::BadCredentials),
            Err(e) => Err::<(), AuthFailure>(e),
        },
{
    match verdict {
        Ok(true) => Ok(()),
        Ok(false) => Err(AuthFailure::BadCredentials),
        Err(e) => Err(e),
    }
}

/// Signs a caller in. `user` is what the store holds under the email of
/// `user_data`, `now` the time in seconds since the Unix epoch. The token
/// is issued to the stored email.
pub fn sign_in(user: Option<User>, user_data: &SignInData, secret: &str, now: usize) -> (r: Result<
    String,
    AuthFailure,
>)
    ensures
        match r {
            Ok(token) => {
                &&& sign_in_outcome(user, user_data.password@, secret@, now as nat) == Ok::<
                    Seq<char>,
                    AuthFailure,
                >(token@)
                &&& user matches Some(found) && issued(secret@, found.email@, now as nat, token@)
            },
            Err(e) => sign_in_outcome(user, user_data.password@, secret@, now as nat) == Err::<
                Seq<char>,
                AuthFailure,
            >(e),
        },
{
    let found = match user {
        Some(found) => found,
        None => return Err(AuthFailure::BadCredentials),
    };
    let verdict = verify_password(user_data.password.as_str(), found.password.as_str());
    match check_credentials(verdict) {
        Ok(()) => encode_jwt(found.email, secret, now),
        Err(e) => Err(e),
    }
}

// ---------------------------------------------------------------------------
// Authorization guard
// ---------------------------------------------------------------------------

/// The `Authorization` header of a request, as the transport found it.
#[derive(Debug, PartialEq, Eq)]
pub enum AuthorizationHeader {
    /// The request has no such header.
    Absent,
    /// The header is there, and its value is no text.
    NotText,
    /// The value of the header.
    Text(String),
}

/// Where the guard stands with one request.
#[derive(Debug, PartialEq, Eq)]
pub enum GuardState {
    /// Nothing was seen of the request yet.
    Start,
    /// The token validated; the identity it names is being resolved.
    ClaimsResolved { claims: Claims },
    /// The request was let through.
    Authorized,
    /// The request was turned away.
    Rejected,
}

/// What happened outside the guard.
#[derive(Debug, PartialEq, Eq)]
pub enum GuardEvent {
    /// The request arrived at the time `now`, in seconds since the Unix
    /// epoch.
    Request { header: AuthorizationHeader, now: usize },
    /// The store answered the lookup: the user, or none.
    Identity { user: Option<User> },
}

/// What the guard wants done.
#[derive(Debug, PartialEq, Eq)]
pub enum GuardAction {
    /// Look this email up in the store, and come back with the answer.
    ResolveUser { email: String },
    /// Attach the identity to the request and hand it on.
    Forward { user: CurrentUser },
    /// Answer the request with this rejection.
    Reject { error: AuthError },
}

/// Mathematical value of [`GuardState`].
pub enum GuardStateView {
    Start,
    ClaimsResolved { claims: ClaimsView },
    Authorized,
    Rejected,
}

/// Mathematical value of [`GuardAction`].
pub enum GuardActionView {
    ResolveUser { email: Seq<char> },
    Forward { user: CurrentUserView },
    Reject { error: AuthErrorView },
}

impl View for GuardState {
    type V = GuardStateView;

    open spec fn view(&self) -> GuardStateView {
        match *self {
            GuardState::Start => GuardStateView::Start,
            GuardState::ClaimsResolved { claims } => GuardStateView::ClaimsResolved {
                claims: claims@,
            },
            GuardState::Authorized => GuardStateView::Authorized,
            GuardState::Rejected => GuardStateView::Rejected,
        }
    }
}

impl View for GuardAction {
    type V = GuardActionView;

    open spec fn view(&self) -> GuardActionView {
        match *self {
            GuardAction::ResolveUser { email } => GuardActionView::ResolveUser { email: email@ },
            GuardAction::Forward { user } => GuardActionView::Forward { user: user@ },
            GuardAction::Reject { error } => GuardActionView::Reject { error: error@ },
        }
    }
}

/// The token that a header presents: the second of its words. The first
/// word, the scheme, is not looked at.
pub open spec fn presented_token(header: AuthorizationHeader) -> Result<Seq<char>, Refusal> {
    match header {
        AuthorizationHeader::Absent => Err(Refusal::MissingToken),
        AuthorizationHeader::NotText => Err(Refusal::MalformedHeader),
        AuthorizationHeader::Text(line) => match second_word(line@) {
            Some(token) => Ok(token),
            None => Err(Refusal::MissingToken),
        },
    }
}

/// The end of a run in a rejection.
pub open spec fn turned_away(refusal: Refusal) -> (GuardStateView, GuardActionView) {
    (GuardStateView::Rejected, GuardActionView::Reject { error: refusal.rejection() })
}

/// One step of the guard: the state after `event` and what is to be done.
///
/// From `Start`, a request with a token that validates leads to
/// `ClaimsResolved` and asks for the user of its email; any other request
/// is turned away. From `ClaimsResolved`, a user leads to `Authorized` and
/// is forwarded as the identity; no user is turned away. An event that the
/// state does not wait for is turned away as from an unknown user.
pub open spec fn guard_step(state: GuardState, event: GuardEvent, secret: Seq<char>) -> (
    GuardStateView,
    GuardActionView,
) {
    match (state, event) {
        (GuardState::Start, GuardEvent::Request { header, now }) => match presented_token(header) {
            Ok(token) => received(validation(secret, token, now as nat)),
            Err(refusal) => turned_away(refusal),
        },
        (GuardState::ClaimsResolved { .. }, GuardEvent::Identity { user }) => identified(user),
        _ => turned_away(Refusal::UnknownUser),
    }
}

/// Reads the token that `header` presents.
pub fn bearer_token(header: AuthorizationHeader) -> (r: Result<String, Refusal>)
    ensures
        match r {
            Ok(token) => presented_token(header) == Ok::<Seq<char>, Refusal>(token@),
            Err(refusal) => presented_token(header) == Err::<Seq<char>, Refusal>(refusal),
        },
{
    match header {
        AuthorizationHeader::Absent => Err(Refusal::MissingToken),
        AuthorizationHeader::NotText => Err(Refusal::MalformedHeader),
        AuthorizationHeader::Text(line) => match second_token(line.as_str()) {
            Some(token) => Ok(token),
            None => Err(Refusal::MissingToken),
        },
    }
}

/// Ends a run in a rejection.
fn turn_away(refusal: Refusal) -> (r: (GuardState, GuardAction))
    ensures
        (r.0@, r.1@) == turned_away(refusal),
{
    (GuardState::Rejected, GuardAction::Reject { error: refusal.into_error() })
}

/// The step from `Start` once the token of the request was judged: on its
/// claims the identity that they name is asked for, on a failure the
/// request is turned away.
pub open spec fn received(validated: Result<ClaimsView, AuthFailure>) -> (
    GuardStateView,
    GuardActionView,
) {
    match validated {
        Ok(claims) => (
            GuardStateView::ClaimsResolved { claims },
            GuardActionView::ResolveUser { email: claims.email },
        ),
        Err(_) => turned_away(Refusal::UndecodableToken),
    }
}

/// The step from `ClaimsResolved` once the store has answered: its user is
/// forwarded as the identity, and without one the request is turned away.
pub open spec fn identified(user: Option<User>) -> (GuardStateView, GuardActionView) {
    match user {
        Some(found) => (
            GuardStateView::Authorized,
            GuardActionView::Forward { user: identity_of(found@) },
        ),
        None => turned_away(Refusal::UnknownUser),
    }
}

/// Takes the step that follows the validation of the token.
pub fn receive(validated: Result<Claims, AuthFailure>) -> (r: (GuardState, GuardAction))
    ensures
        (r.0@, r.1@) == received(
            match validated {
                Ok(claims) => Ok(claims@),
                Err(e) => Err(e),
            },
        ),
{
    match validated {
        Ok(claims) => {
            let email = claims.email.clone();
            (GuardState::ClaimsResolved { claims }, GuardAction::ResolveUser { email })
        },
        Err(_) => turn_away(Refusal::UndecodableToken),
    }
}

/// Takes the step that follows the answer of the store.
pub fn identify(user: Option<User>) -> (r: (GuardState, GuardAction))
    ensures
        (r.0@, r.1@) == identified(user),
{
    match user {
        Some(found) => {
            let user = CurrentUser { email: found.email, password_hash: found.password };
            (GuardState::Authorized, GuardAction::Forward { user })
        },
        None => turn_away(Refusal::UnknownUser),
    }
}

/// Takes the guard one step further with one request. The caller starts at
/// `GuardState::Start` with the request, does what the action says, and
/// comes back with the answer of the store where the action asks for one.
pub fn authorization_middleware(state: GuardState, event: GuardEvent, secret: &str) -> (r: (
    GuardState,
    GuardAction,
))
    ensures
        (r.0@, r.1@) == guard_step(state, event, secret@),
{
    match (state, event) {
        (GuardState::Start, GuardEvent::Request { header, now }) => match bearer_token(header) {
            Ok(token) => receive(decode_jwt(token, secret, now)),
            Err(refusal) => turn_away(refusal),
        },
        (GuardState::ClaimsResolved { .. }, GuardEvent::Identity { user }) => identify(user),
        _ => turn_away(Refusal::UnknownUser),
    }
}

/// The guard forwards a request only on the answer of the store to a lookup
/// that a validated token led to, and forwards the user that the store
/// gave; it asks for a lookup only of the email of a token that validated
/// at the time of the request.
pub proof fn lemma_guard_forwards_only_resolved(
    state: GuardState,
    event: GuardEvent,
    secret: Seq<char>,
)
    ensures
        guard_step(state, event, secret).1 is Forward ==> {
            &&& state is ClaimsResolved
            &&& event matches GuardEvent::Identity { user: Some(found) }
            &&& guard_step(state, event, secret).1->user == identity_of(found@)
        },
        guard_step(state, event, secret).0 is ClaimsResolved ==> {
            &&& state is Start
            &&& event matches GuardEvent::Request { header, now }
            &&& presented_token(header) matches Ok(token)
            &&& validation(secret, token, now as nat) matches Ok(claims)
            &&& guard_step(state, event, secret).1 == GuardActionView::ResolveUser {
                email: claims.email,
            }
        },
        guard_step(state, event, secret).0 is Authorized <==> guard_step(state, event, secret).1
            is Forward,
        guard_step(state, event, secret).0 is Rejected <==> guard_step(state, event, secret).1
            is Reject,
        guard_step(state, event, secret).0 !is Start,
{
}

/// A request that presents an issued token behind a scheme word, before
/// the token expires, is taken to the lookup of the identity that the
/// token was issued to; whatever the scheme word is.
pub proof fn lemma_issued_token_passes(
    secret: Seq<char>,
    email: Seq<char>,
    issued_at: nat,
    token: Seq<char>,
    scheme: Seq<char>,
    line: String,
    now: usize,
)
    requires
        issued(secret, email, issued_at, token),
        is_word(scheme),
        is_word(token),
        line@ == scheme + seq![' '] + token,
        now < issued_at + TOKEN_TTL,
    ensures
        guard_step(
            GuardState::Start,
            GuardEvent::Request { header: AuthorizationHeader::Text(line), now },
            secret,
        ) == (
            GuardStateView::ClaimsResolved { claims: issued_claims(email, issued_at) },
            GuardActionView::ResolveUser { email },
        ),
{
    lemma_second_word_of_pair(scheme, token);
    lemma_issued_token_validates(secret, email, issued_at, token, now as nat);
}

} // verus!
