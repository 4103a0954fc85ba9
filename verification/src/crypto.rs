//! The two outside primitives: bcrypt for passwords and HS256 web tokens.
//!
//! The four functions at the end of this file call the crates `bcrypt` and
//! `jsonwebtoken`. Their contracts are taken on trust: each states what the
//! crate behind it does, and the rest of the library is proved from these
//! statements. What a call returns is given a name where it would take
//! pages to describe; beside the name stand the few facts about it that
//! the library builds on.

use vstd::prelude::*;

verus! {

/// The error of the `bcrypt` crate.
#[verifier::external_type_specification]
#[verifier::external_body]
pub struct ExBcryptError(bcrypt::BcryptError);

/// The error of the `jsonwebtoken` crate.
#[verifier::external_type_specification]
#[verifier::external_body]
pub struct ExTokenError(jsonwebtoken::errors::Error);

/// What `bcrypt::verify` returns for a password and a stored hash: whether
/// they match, or `None` where it reports an error.
pub uninterp spec fn bcrypt_verdict(password: Seq<char>, hash: Seq<char>) -> Option<bool>;

/// What `jsonwebtoken::encode` returns for the default header, a payload of
/// the three claims and the secret as an HMAC key: the token, or `None`
/// where it reports an error.
pub uninterp spec fn hs256_token(secret: Seq<char>, exp: u64, iat: u64, email: Seq<char>) -> Option<
    Seq<char>,
>;

/// What `jsonwebtoken::decode` yields for a token and the secret as an HMAC
/// key when it does not look at the clock: the three claims as far as the
/// payload holds them, or `None` where it reports an error.
pub uninterp spec fn hs256_payload(secret: Seq<char>, token: Seq<char>) -> Option<ClaimFieldsView>;

/// What `jsonwebtoken::crypto::sign` returns under HS256 for a message and
/// the secret as an HMAC key.
pub uninterp spec fn hs256_signature(secret: Seq<char>, message: Seq<char>) -> Seq<char>;

/// The claims of a payload as they were found in it. A claim is `None`
/// where the payload lacks it or holds it in another type.
#[derive(Debug, PartialEq, Eq)]
pub struct ClaimFields {
    pub exp: Option<u64>,
    pub iat: Option<u64>,
    pub email: Option<String>,
}

/// Mathematical value of [`ClaimFields`].
pub struct ClaimFieldsView {
    pub exp: Option<u64>,
    pub iat: Option<u64>,
    pub email: Option<Seq<char>>,
}

impl View for ClaimFields {
    type V = ClaimFieldsView;

    open spec fn view(&self) -> ClaimFieldsView {
        ClaimFieldsView {
            exp: self.exp,
            iat: self.iat,
            email: match self.email {
                Some(e) => Some(e@),
                None => None,
            },
        }
    }
}

/// How many full stops `text` holds.
pub open spec fn dot_count(text: Seq<char>) -> nat
    decreases text.len(),
{
    if text.len() == 0 {
        0
    } else if text.last() == '.' {
        dot_count(text.drop_last()) + 1
    } else {
        dot_count(text.drop_last())
    }
}

/// Where the last full stop of `text` stands, or -1 where it holds none.
pub open spec fn last_dot(text: Seq<char>) -> int
    decreases text.len(),
{
    if text.len() == 0 {
        -1
    } else if text.last() == '.' {
        text.len() - 1
    } else {
        last_dot(text.drop_last())
    }
}

/// What a token signs: all that stands before its last full stop.
pub open spec fn signed_part(token: Seq<char>) -> Seq<char> {
    token.subrange(0, last_dot(token))
}

/// The signature segment of a token: all that stands behind its last full
/// stop.
pub open spec fn signature_part(token: Seq<char>) -> Seq<char> {
    token.subrange(last_dot(token) + 1, token.len() as int)
}

/// A token of three segments whose last segment is the signature that the
/// secret gives the first two.
pub open spec fn well_signed(secret: Seq<char>, token: Seq<char>) -> bool {
    &&& dot_count(token) == 2
    &&& signature_part(token) == hs256_signature(secret, signed_part(token))
}

/// The last full stop stands inside the text, and there is one wherever
/// the text holds a full stop at all.
pub proof fn lemma_last_dot_bounds(text: Seq<char>)
    ensures
        -1 <= last_dot(text) < text.len(),
        last_dot(text) >= 0 ==> text[last_dot(text)] == '.',
        last_dot(text) == -1 ==> dot_count(text) == 0,
        forall|i: int| last_dot(text) < i < text.len() ==> #[trigger] text[i] != '.',
    decreases text.len(),
{
    if text.len() > 0 && text.last() != '.' {
        let front = text.drop_last();
        lemma_last_dot_bounds(front);
        assert forall|i: int| last_dot(text) < i < text.len() implies #[trigger] text[i]
            != '.' by {
            if i < front.len() {
                assert(front[i] != '.');
            }
        }
    }
}

/// Replacing a character that is no full stop by another that is none
/// moves no full stop.
pub proof fn lemma_update_keeps_dots(text: Seq<char>, at: int, c: char)
    requires
        0 <= at < text.len(),
        text[at] != '.',
        c != '.',
    ensures
        last_dot(text.update(at, c)) == last_dot(text),
        dot_count(text.update(at, c)) == dot_count(text),
    decreases text.len(),
{
    let changed = text.update(at, c);
    if at == text.len() - 1 {
        assert(changed.drop_last() =~= text.drop_last());
    } else {
        assert(changed.drop_last() =~= text.drop_last().update(at, c));
        lemma_update_keeps_dots(text.drop_last(), at, c);
    }
}

/// Replacing a character that is no full stop by a full stop adds one.
pub proof fn lemma_update_adds_dot(text: Seq<char>, at: int)
    requires
        0 <= at < text.len(),
        text[at] != '.',
    ensures
        dot_count(text.update(at, '.')) == dot_count(text) + 1,
    decreases text.len(),
{
    let changed = text.update(at, '.');
    if at == text.len() - 1 {
        assert(changed.drop_last() =~= text.drop_last());
    } else {
        assert(changed.drop_last() =~= text.drop_last().update(at, '.'));
        lemma_update_adds_dot(text.drop_last(), at);
    }
}

/// Calls `bcrypt::verify`. The result is a function of the two texts; it is
/// named, not described.
#[verifier::external_body]
pub(crate) fn bcrypt_verify(password: &str, hash: &str) -> (r: Result<bool, bcrypt::BcryptError>)
    ensures
        match r {
            Ok(matches) => bcrypt_verdict(password@, hash@) == Some(matches),
            Err(_) => bcrypt_verdict(password@, hash@) is None,
        },
{
    bcrypt::verify(password, hash)
}

/// Calls `bcrypt::hash` at the crate's default cost. The salt is random, so
/// the hash itself is not pinned down; it holds the salt and the cost, and
/// `bcrypt::verify` recomputes from them, so the password it was made from
/// matches it.
#[verifier::external_body]
pub(crate) fn bcrypt_hash(password: &str) -> (r: Result<String, bcrypt::BcryptError>)
    ensures
        r matches Ok(hash) ==> bcrypt_verdict(password@, hash@) == Some(true),
{
    bcrypt::hash(password, bcrypt::DEFAULT_COST)
}

/// Calls `jsonwebtoken::encode` with the default header (HS256), the claims
/// `exp`, `iat` and `email` as a JSON object and the secret as the key. The
/// token is the header, the payload and the signature of both, joined by
/// full stops, so `jsonwebtoken::decode` takes it back under the same
/// secret and finds the three claims.
#[verifier::external_body]
pub(crate) fn hs256_encode(secret: &str, exp: u64, iat: u64, email: &str) -> (r: Result<
    String,
    jsonwebtoken::errors::Error,
>)
    ensures
        match r {
            Ok(token) => hs256_token(secret@, exp, iat, email@) == Some(token@),
            Err(_) => hs256_token(secret@, exp, iat, email@) is None,
        },
        r matches Ok(token) ==> hs256_payload(secret@, token@) == Some(
            ClaimFieldsView { exp: Some(exp), iat: Some(iat), email: Some(email@) },
        ),
        r matches Ok(token) ==> dot_count(token@) == 2,
        r matches Ok(token) ==> signature_part(token@) == hs256_signature(
            secret@,
            signed_part(token@),
        ),
{
    let mut payload = serde_json::Map::new();
    payload.insert("exp".to_string(), serde_json::Value::from(exp));
    payload.insert("iat".to_string(), serde_json::Value::from(iat));
    payload.insert("email".to_string(), serde_json::Value::from(email));
    let key = jsonwebtoken::EncodingKey::from_secret(secret.as_bytes());
    jsonwebtoken::encode(&jsonwebtoken::Header::default(), &payload, &key)
}

/// Calls `jsonwebtoken::decode` with the secret as the key and the default
/// validation (HS256 only), but for the expiry test, which reads the clock
/// and is left to the caller. It accepts a token only if the token splits
/// into three segments at its full stops and the last one equals the
/// signature that it computes for the first two.
#[verifier::external_body]
pub(crate) fn hs256_decode(secret: &str, token: &str) -> (r: Result<
    ClaimFields,
    jsonwebtoken::errors::Error,
>)
    ensures
        match r {
            Ok(fields) => hs256_payload(secret@, token@) == Some(fields@),
            Err(_) => hs256_payload(secret@, token@) is None,
        },
        r is Ok ==> dot_count(token@) == 2,
        r is Ok ==> signature_part(token@) == hs256_signature(secret@, signed_part(token@)),
{
    let mut validation = jsonwebtoken::Validation::default();
    validation.validate_exp = false;
    let key = jsonwebtoken::DecodingKey::from_secret(secret.as_bytes());
    let data = jsonwebtoken::decode::<serde_json::Value>(token, &key, &validation)?;
    Ok(
        ClaimFields {
            exp: data.claims.get("exp").and_then(|v| v.as_u64()),
            iat: data.claims.get("iat").and_then(|v| v.as_u64()),
            email: data.claims.get("email").and_then(|v| v.as_str()).map(|s| s.to_string()),
        },
    )
}

} // verus!
