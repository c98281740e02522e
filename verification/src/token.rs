//! Session tokens: signed, expiring bearer tokens that bind a principal id
//! to a role.
//!
//! A token is a JSON Web Token signed with HMAC-SHA-256 under the issuer's
//! secret. Its claims are the principal's id, under a name that says the
//! role, and the expiry. Nothing is kept about issued tokens: whether one is
//! valid is decided from its signature, its claims and the time alone, and
//! a token cannot be revoked before it expires.
//!
//! Signing and opening are `jsonwebtoken`'s. What this module adds is which
//! claims are written, which are asked for, and what they are worth at a
//! given instant.

use crate::clock::unix_now;
use crate::principal::Role;
use vstd::prelude::*;

verus! {

/// How long a session lasts, in seconds: 24 hours, whatever the role.
pub const SESSION_TTL_SECONDS: i64 = 86400;

/// Why a token was refused.
#[derive(Debug, Clone, Copy, PartialEq, Eq, Structural)]
pub enum TokenError {
    /// The token is not one of this issuer's for the expected role: it is
    /// malformed, its signature is wrong, or it lacks a claim.
    Invalid,
    /// The token was good, and its time is over.
    Expired,
}

/// The claims of a token that matter here, as they were found: nothing if
/// the token was refused, and else the id under the expected role's name and
/// the expiry, in this order, each if it is there and is an integer.
pub type FoundClaims = Option<(Option<int>, Option<int>)>;

/// What `jsonwebtoken` makes of two integer claims under `secret`: a token, or nothing.
pub uninterp spec fn hs256_token(
    id_claim: Seq<char>,
    id: int,
    expiry_claim: Seq<char>,
    expiry: int,
    secret: Seq<u8>,
) -> Option<Seq<char>>;

/// What `jsonwebtoken` finds in `token` under `secret`: nothing, if it
/// refuses the token, or else the two claims asked for.
pub uninterp spec fn hs256_claims(
    token: Seq<char>,
    secret: Seq<u8>,
    id_claim: Seq<char>,
    expiry_claim: Seq<char>,
) -> Option<(Option<int>, Option<int>)>;

/// The name of the claim that holds the id of a principal of `role`.
pub open spec fn id_claim(role: Role) -> Seq<char> {
    match role {
        Role::Admin => "admin_id"@,
        Role::Voter => "voter_id"@,
        Role::Authority => "authority_id"@,
    }
}

/// The name of the claim that holds the expiry.
pub open spec fn expiry_claim() -> Seq<char> {
    "exp"@
}

/// The instant that lies `ttl` seconds after `now`, or the first or last
/// instant there is if that lies beyond it.
pub open spec fn expiry_at(now: int, ttl: int) -> int {
    if now + ttl > i64::MAX {
        i64::MAX as int
    } else if now + ttl < i64::MIN {
        i64::MIN as int
    } else {
        now + ttl
    }
}

/// What a token is worth at `now`, given what was found in it. A token that
/// was refused, or that lacks the id or the expiry, or whose id is no
/// principal id, is invalid. Otherwise the token is good up to and
/// including its expiry, and stands for the principal whose id it holds.
pub open spec fn claims_verdict(found: FoundClaims, now: int) -> Result<int, TokenError> {
    match found {
        Some((Some(id), Some(expiry))) => if id < i32::MIN || id > i32::MAX {
            Err(TokenError::Invalid)
        } else if now > expiry {
            Err(TokenError::Expired)
        } else {
            Ok(id)
        },
        _ => Err(TokenError::Invalid),
    }
}

/// The view of claims as they come from the decoder.
pub open spec fn found_view(found: Option<(Option<i64>, Option<i64>)>) -> FoundClaims {
    match found {
        None => None,
        Some((id, expiry)) => Some(
            (
                match id {
                    Some(v) => Some(v as int),
                    None => None,
                },
                match expiry {
                    Some(v) => Some(v as int),
                    None => None,
                },
            ),
        ),
    }
}

/// Signs a token with the two integer claims under `secret`, through
/// `jsonwebtoken::encode` with the default header (HS256) and
/// `EncodingKey::from_secret`. The claims are handed over as a
/// `serde_json::Map`. What comes back, a token or the signer's refusal, is a
/// function of the claims and the secret: that is what the name
/// [`hs256_token`] stands for. Whether signing succeeds is not promised.
#[verifier::external_body]
fn sign_claims(id_claim: &str, id: i64, expiry_claim: &str, expiry: i64, secret: &[u8]) -> (token:
    Option<String>)
    ensures
        token.deep_view() == hs256_token(
            id_claim@,
            id as int,
            expiry_claim@,
            expiry as int,
            secret@,
        ),
{
    let mut claims = serde_json::Map::new();
    claims.insert(id_claim.to_string(), serde_json::Value::from(id));
    claims.insert(expiry_claim.to_string(), serde_json::Value::from(expiry));
    let key = jsonwebtoken::EncodingKey::from_secret(secret);
    jsonwebtoken::encode(&jsonwebtoken::Header::default(), &claims, &key).ok()
}

/// Opens a token under `secret`, through `jsonwebtoken::decode` with
/// `DecodingKey::from_secret` and the default validation (HS256, an `exp`
/// claim required) except that the decoder does not compare the expiry with
/// its own clock: that comparison is made by [`check_claims`]. What comes back
/// is then a function of the token, the secret and the two claim names,
/// which is what the name [`hs256_claims`] stands for: `None` where the
/// decoder refuses the token, and else the two claims, each as
/// `serde_json::Value::as_i64` gives it.
#[verifier::external_body]
fn open_claims(token: &str, secret: &[u8], id_claim: &str, expiry_claim: &str) -> (found: Option<
    (Option<i64>, Option<i64>),
>)
    ensures
        found_view(found) == hs256_claims(token@, secret@, id_claim@, expiry_claim@),
{
    let mut validation = jsonwebtoken::Validation::default();
    validation.validate_exp = false;
    let key = jsonwebtoken::DecodingKey::from_secret(secret);
    match jsonwebtoken::decode::<serde_json::Value>(token, &key, &validation) {
        Ok(data) => Some(
            (
                data.claims.get(id_claim).and_then(serde_json::Value::as_i64),
                data.claims.get(expiry_claim).and_then(serde_json::Value::as_i64),
            ),
        ),
        Err(_) => None,
    }
}

/// The name of the claim that holds the id of a principal of `role`.
pub fn id_claim_name(role: Role) -> (name: &'static str)
    ensures
        name@ == id_claim(role),
{
    match role {
        Role::Admin => "admin_id",
        Role::Voter => "voter_id",
        Role::Authority => "authority_id",
    }
}

/// The name of the claim that holds the expiry.
pub fn expiry_claim_name() -> (name: &'static str)
    ensures
        name@ == expiry_claim(),
{
    "exp"
}

/// The instant `ttl` seconds after `now`, kept within the instants there
/// are.
pub fn expiry_from(now: i64, ttl: i64) -> (expiry: i64)
    ensures
        expiry == expiry_at(now as int, ttl as int),
{
    match now.checked_add(ttl) {
        Some(expiry) => expiry,
        None => if ttl > 0 {
            i64::MAX
        } else {
            i64::MIN
        },
    }
}

/// Decides what a token is worth at `now`, given what was found in it.
pub fn check_claims(found: Option<(Option<i64>, Option<i64>)>, now: i64) -> (outcome: Result<
    i32,
    TokenError,
>)
    ensures
        match outcome {
            Ok(id) => claims_verdict(found_view(found), now as int) == Ok::<int, TokenError>(
                id as int,
            ),
            Err(e) => claims_verdict(found_view(found), now as int) == Err::<int, TokenError>(e),
        },
{
    match found {
        None => Err(TokenError::Invalid),
        Some((Some(id), Some(expiry))) => {
            if id < i32::MIN as i64 || id > i32::MAX as i64 {
                Err(TokenError::Invalid)
            } else if now > expiry {
                Err(TokenError::Expired)
            } else {
                Ok(id as i32)
            }
        },
        Some(_) => Err(TokenError::Invalid),
    }
}

/// Issues and verifies the session tokens of one deployment. The signing
/// secret is handed in when the issuer is made, and never leaves it.
pub struct TokenIssuer {
    secret: Vec<u8>,
}

impl TokenIssuer {
    /// The secret that tokens are signed with.
    pub closed spec fn secret(&self) -> Seq<u8> {
        self.secret@
    }

    /// An issuer that signs with `secret`.
    pub fn new(secret: Vec<u8>) -> (issuer: TokenIssuer)
        ensures
            issuer.secret() == secret@,
    {
        TokenIssuer { secret }
    }

    /// Issues a token for principal `principal_id` of `role` at `now`, good
    /// for `ttl` seconds: what the signer makes of these claims, if anything.
    pub fn issue(&self, principal_id: i32, role: Role, ttl: i64, now: i64) -> (token: Option<String>)
        ensures
            token.deep_view() == hs256_token(
                id_claim(role),
                principal_id as int,
                expiry_claim(),
                expiry_at(now as int, ttl as int),
                self.secret(),
            ),
    {
        sign_claims(
            id_claim_name(role),
            principal_id as i64,
            expiry_claim_name(),
            expiry_from(now, ttl),
            self.secret.as_slice(),
        )
    }

    /// Issues a session token for principal `principal_id` of `role`, good
    /// for a session from now on. `None` if the signer fails.
    pub fn issue_session(&self, principal_id: i32, role: Role) -> (token: Option<String>)
        ensures
            exists|now: int|
                i64::MIN <= now <= i64::MAX && token.deep_view() == #[trigger] hs256_token(
                    id_claim(role),
                    principal_id as int,
                    expiry_claim(),
                    expiry_at(now, SESSION_TTL_SECONDS as int),
                    self.secret(),
                ),
    {
        let now = unix_now();
        let token = self.issue(principal_id, role, SESSION_TTL_SECONDS, now);
        assert(token.deep_view() == hs256_token(
            id_claim(role),
            principal_id as int,
            expiry_claim(),
            expiry_at(now as int, SESSION_TTL_SECONDS as int),
            self.secret(),
        ));
        token
    }

    /// Verifies `token` at `now` for a principal of `expected_role`, and
    /// gives the principal's id. The token is invalid unless it was signed
    /// with this issuer's secret and holds an id under the expected role's
    /// name; it is expired once `now` is past its expiry.
    pub fn verify(&self, token: &str, expected_role: Role, now: i64) -> (outcome: Result<
        i32,
        TokenError,
    >)
        ensures
            match outcome {
                Ok(id) => claims_verdict(
                    hs256_claims(token@, self.secret(), id_claim(expected_role), expiry_claim()),
                    now as int,
                ) == Ok::<int, TokenError>(id as int),
                Err(e) => claims_verdict(
                    hs256_claims(token@, self.secret(), id_claim(expected_role), expiry_claim()),
                    now as int,
                ) == Err::<int, TokenError>(e),
            },
    {
        let found = open_claims(
            token,
            self.secret.as_slice(),
            id_claim_name(expected_role),
            expiry_claim_name(),
        );
        check_claims(found, now)
    }

    /// Verifies `token` now: as [`TokenIssuer::verify`], at the instant the
    /// clock shows.
    pub fn verify_now(&self, token: &str, expected_role: Role) -> (outcome: Result<i32, TokenError>)
        ensures
            exists|now: int|
                i64::MIN <= now <= i64::MAX && match outcome {
                    Ok(id) => #[trigger] claims_verdict(
                        hs256_claims(
                            token@,
                            self.secret(),
                            id_claim(expected_role),
                            expiry_claim(),
                        ),
                        now,
                    ) == Ok::<int, TokenError>(id as int),
                    Err(e) => claims_verdict(
                        hs256_claims(
                            token@,
                            self.secret(),
                            id_claim(expected_role),
                            expiry_claim(),
                        ),
                        now,
                    ) == Err::<int, TokenError>(e),
                },
    {
        let now = unix_now();
        let outcome = self.verify(token, expected_role, now);
        proof {
            let found = hs256_claims(
                token@,
                self.secret(),
                id_claim(expected_role),
                expiry_claim(),
            );
            match outcome {
                Ok(id) => {
                    assert(claims_verdict(found, now as int) == Ok::<int, TokenError>(id as int));
                },
                Err(e) => {
                    assert(claims_verdict(found, now as int) == Err::<int, TokenError>(e));
                },
            }
        }
        outcome
    }
}

/// The three roles write the principal's id under three different names,
/// none of which is the name of the expiry. So the claims of a token say
/// which role it was issued for, and a token that holds an id under one
/// role's name holds none under another's by that.
pub proof fn lemma_claim_names_differ(a: Role, b: Role)
    ensures
        id_claim(a) == id_claim(b) ==> a == b,
        id_claim(a) != expiry_claim(),
{
    reveal_strlit("admin_id");
    reveal_strlit("voter_id");
    reveal_strlit("authority_id");
    reveal_strlit("exp");
    assert("admin_id"@.len() == 8);
    assert("voter_id"@.len() == 8);
    assert("authority_id"@.len() == 12);
    assert("exp"@.len() == 3);
    assert("admin_id"@[0] == 'a');
    assert("voter_id"@[0] == 'v');
}

/// A token that was refused, or in which no id is found under the expected
/// role's name, is invalid, at any time and whatever else it holds.
pub proof fn lemma_token_without_role_id_is_invalid(expiry: Option<int>, now: int)
    ensures
        claims_verdict(Some((None, expiry)), now) == Err::<int, TokenError>(TokenError::Invalid),
        claims_verdict(None, now) == Err::<int, TokenError>(TokenError::Invalid),
{
}

/// A token that holds both claims is good exactly up to its expiry: valid
/// at every instant that is not past it, expired at every later one.
pub proof fn lemma_token_good_until_expiry(id: int, expiry: int, now: int)
    requires
        i32::MIN <= id <= i32::MAX,
    ensures
        now <= expiry ==> claims_verdict(Some((Some(id), Some(expiry))), now) == Ok::<
            int,
            TokenError,
        >(id),
        now > expiry ==> claims_verdict(Some((Some(id), Some(expiry))), now) == Err::<
            int,
            TokenError,
        >(TokenError::Expired),
{
}

} // verus!
