//! Authentication: bearer tokens, passwords, and the decision whether a
//! request may pass.

use crate::clock::utc_seconds;
use crate::text::{lemma_marker_round_trip, occurs, remove_all, str_equal, without};
use vstd::prelude::*;

verus! {

/// Seconds for which a token is valid after it was issued.
pub const TOKEN_LIFETIME: i64 = 100;

/// The claims of a bearer token.
#[derive(Clone, Copy, PartialEq, Eq, Debug, Structural)]
pub struct Token {
    /// Time at which the token expires, in seconds since the Unix epoch.
    pub exp: usize,
    /// The user to whom the token was issued.
    pub id: u128,
}

/// A password could not be hashed, or does not match the stored hash.
#[derive(Clone, Copy, PartialEq, Eq, Debug, Structural)]
pub struct PasswordErr;

/// What the authentication layer does with a request.
#[derive(Clone, Copy, PartialEq, Eq, Debug, Structural)]
pub enum AuthAction {
    /// Hand the request on, with the claims of its token if it had a valid one.
    Proceed(Option<Token>),
    /// Answer with the reason for which the token was rejected.
    Reject,
}

/// The signed token for the claims `exp` and `id` under the key `secret`,
/// or nothing where signing fails.
pub uninterp spec fn signed_claims(exp: usize, id: u128, secret: Seq<char>) -> Option<Seq<char>>;

/// Whether the password `tested` matches the hash `stored`.
pub uninterp spec fn password_verifies(tested: Seq<char>, stored: Seq<char>) -> bool;

/// The expiry of a token issued at `now`, in seconds since the Unix epoch.
pub open spec fn expiry(now: i64) -> usize {
    (now + TOKEN_LIFETIME) as usize
}

/// The scheme that precedes a token in the `Authorization` header.
pub open spec fn scheme() -> Seq<char> {
    "Token "@
}

/// Signs the claims with `jsonwebtoken::encode`, using the default header
/// (HS256) and `secret` as the key. The claims are the object with the
/// number `exp` and the hyphenated text of `id`. The result is a function
/// of the three arguments, which the contract names.
#[verifier::external_body]
fn encode_claims(exp: usize, id: u128, secret: &str) -> (res: Option<String>)
    ensures
        res.deep_view() == signed_claims(exp, id, secret@),
{
    let mut claims = serde_json::Map::new();
    claims.insert("exp".to_owned(), serde_json::Value::from(exp));
    claims.insert("id".to_owned(), serde_json::Value::from(uuid::Uuid::from_u128(id).to_string()));
    let key = jsonwebtoken::EncodingKey::from_secret(secret.as_bytes());
    jsonwebtoken::encode(&jsonwebtoken::Header::default(), &claims, &key).ok()
}

/// Hashes a password with `argon2::Argon2::default().hash_password` and a
/// salt from `SaltString::generate` over the operating system's generator.
/// The hash differs from call to call; what holds of every hash that comes
/// back is what the documentation of the crate shows: the same password
/// verifies against it.
#[verifier::external_body]
fn argon2_hash(pass: &str) -> (res: Option<String>)
    ensures
        res matches Some(hash) ==> password_verifies(pass@, hash@),
{
    let salt = argon2::password_hash::SaltString::generate(&mut rand_core::OsRng);
    let hasher = argon2::Argon2::default();
    match argon2::PasswordHasher::hash_password(&hasher, pass.as_bytes(), &salt) {
        Ok(hash) => Some(hash.to_string()),
        Err(_) => None,
    }
}

/// Parses `stored` with `argon2::PasswordHash::new` and checks `tested`
/// against it with `argon2::Argon2::default().verify_password`. The result
/// is a function of the two texts, which the contract names; a text that is
/// no hash verifies nothing.
#[verifier::external_body]
fn argon2_verify(tested: &str, stored: &str) -> (ok: bool)
    ensures
        ok == password_verifies(tested@, stored@),
{
    let verifier = argon2::Argon2::default();
    match argon2::PasswordHash::new(stored) {
        Ok(parsed) => {
            argon2::PasswordVerifier::verify_password(&verifier, tested.as_bytes(), &parsed).is_ok()
        },
        Err(_) => false,
    }
}

/// Computes the expiry of a token issued at `now`.
pub fn expiry_at(now: i64) -> (exp: usize)
    ensures
        exp == expiry(now),
{
    let at: i128 = now as i128 + TOKEN_LIFETIME as i128;
    #[verifier::truncate]
    (at as usize)
}

/// Issues a token for the user `id` at the time `now`, signed with `secret`.
pub fn token_at(id: u128, now: i64, secret: &str) -> (token: Option<String>)
    ensures
        token.deep_view() == signed_claims(expiry(now), id, secret@),
{
    encode_claims(expiry_at(now), id, secret)
}

/// Issues a token for the user `id`, valid for [`TOKEN_LIFETIME`] seconds
/// from now and signed with `secret`. Returns nothing where signing fails.
pub fn create_token(id: u128, secret: &str) -> (token: Option<String>)
    ensures
        exists|now: i64| token.deep_view() == signed_claims(expiry(now), id, secret@),
{
    let now = utc_seconds();
    token_at(id, now, secret)
}

/// Hashes a password for storage.
pub fn hash_password(pass: &str) -> (res: Result<String, PasswordErr>)
    ensures
        res matches Ok(hash) ==> password_verifies(pass@, hash@),
{
    hashed(argon2_hash(pass))
}

/// What hashing yields, given what the hasher handed back: that hash, or
/// the failure where it handed back none.
pub open spec fn hashing(outcome: Option<String>, res: Result<String, PasswordErr>) -> bool {
    match outcome {
        Some(hash) => res == Ok::<String, PasswordErr>(hash),
        None => res == Err::<String, PasswordErr>(PasswordErr),
    }
}

/// The outcome of hashing a password, from what the hasher handed back.
pub fn hashed(outcome: Option<String>) -> (res: Result<String, PasswordErr>)
    ensures
        hashing(outcome, res),
{
    match outcome {
        Some(hash) => Ok(hash),
        None => Err(PasswordErr),
    }
}

/// Checks the password `tested` against the hash `stored`.
pub fn check_passwords(tested: &str, stored: &str) -> (res: Result<(), PasswordErr>)
    ensures
        res is Ok <==> password_verifies(tested@, stored@),
{
    if argon2_verify(tested, stored) {
        Ok(())
    } else {
        Err(PasswordErr)
    }
}

/// The token inside the value of an `Authorization` header: the value
/// without the scheme.
pub fn token_text(header: &str) -> (text: String)
    ensures
        text@ == without(header@, scheme()),
{
    remove_all(header, "Token ")
}

/// The value of the `Authorization` header that carries `token`.
pub fn header_text(token: &str) -> (header: String)
    ensures
        header@ == scheme() + token@,
{
    String::from_str("Token ").concat(token)
}

/// What becomes of a request on a route that asks for authentication.
pub open spec fn auth_action(token: Option<Token>, method: Seq<char>) -> AuthAction {
    match token {
        Some(claims) => AuthAction::Proceed(Some(claims)),
        None => if method == "GET"@ {
            AuthAction::Proceed(None)
        } else {
            AuthAction::Reject
        },
    }
}

/// Decides on a request to a route that asks for authentication: with a
/// valid token it passes and carries the claims; without one it passes
/// only if it merely reads, that is, if its method is `GET`.
pub fn auth(maybe_token: Option<Token>, method: &str) -> (action: AuthAction)
    ensures
        action == auth_action(maybe_token, method@),
{
    match maybe_token {
        Some(claims) => AuthAction::Proceed(Some(claims)),
        None => {
            if str_equal(method, "GET") {
                AuthAction::Proceed(None)
            } else {
                AuthAction::Reject
            }
        },
    }
}

/// Decides on a request to a route on which authentication is optional:
/// it always passes, with the claims of its token if it had a valid one.
pub fn optional_auth(maybe_token: Option<Token>) -> (action: AuthAction)
    ensures
        action == AuthAction::Proceed(maybe_token),
{
    AuthAction::Proceed(maybe_token)
}

/// A token in which the scheme does not occur is read back unchanged from
/// the header that carries it.
pub proof fn lemma_header_round_trip(token: Seq<char>)
    requires
        !occurs(token, scheme()),
    ensures
        without(scheme() + token, scheme()) == token,
{
    lemma_marker_round_trip(token, scheme());
}

} // verus!
