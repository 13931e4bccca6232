//! Session tokens, signed and verified with one process-wide secret that
//! the running server owns and never persists: restarting the process
//! invalidates every outstanding token. Revoking a single key does not
//! need a per-key signing secret — tokens carry the access identifier
//! they were issued to, and verification rechecks that key's liveness
//! against the store, so an expired key's tokens die with it.

use vstd::prelude::*;

use crate::clock::now_seconds;
use crate::error::Error;
use crate::keystore::{key_live_at, live_key_exists, with_expiry, AccessKeyView, KeyStore};

verus! {

/// Fixed lifetime of a session token, in seconds.
pub const TOKEN_LIFETIME_SECONDS: i64 = 3600;

/// The payload of a session token: who it was issued to and when it was
/// issued and expires. The token is stateless — validity is recomputed
/// from these claims and the signature alone, plus the issuing key's own
/// liveness, so that expiring a key also revokes its outstanding tokens.
pub struct Claims {
    pub access: String,
    pub iat: i64,
    pub exp: i64,
}

/// What jsonwebtoken::encode returns for these claims under this signing
/// secret: an HS256-signed token, a deterministic function of its
/// arguments alone.
pub uninterp spec fn jwt_of(access: Seq<char>, iat: i64, exp: i64, secret: Seq<char>) -> Seq<char>;

/// What jsonwebtoken::decode recovers from this token under this signing
/// secret, with the time-based checks turned off: the claims of a
/// well-formed token whose signature verifies, and nothing otherwise.
pub uninterp spec fn jwt_claims_of(token: Seq<char>, secret: Seq<char>) -> Option<
    (Seq<char>, i64, i64),
>;

/// Relies on jsonwebtoken::encode with the default (HS256) header: the
/// token is a deterministic function of the claims and the secret, and
/// jsonwebtoken::decode under the same secret recovers exactly these
/// claims. On the HS256 path signing cannot fail — an HMAC accepts a key
/// of any length and serializing the claims object cannot error — so the
/// call is infallible.
#[verifier::external_body]
fn encode_claims(access: &str, iat: i64, exp: i64, secret: &str) -> (r: String)
    ensures
        r@ == jwt_of(access@, iat, exp, secret@),
        jwt_claims_of(r@, secret@) == Some((access@, iat, exp)),
{
    let mut m = serde_json::Map::new();
    m.insert("access".to_string(), serde_json::Value::from(access));
    m.insert("iat".to_string(), serde_json::Value::from(iat));
    m.insert("exp".to_string(), serde_json::Value::from(exp));
    jsonwebtoken::encode(
        &jsonwebtoken::Header::default(),
        &serde_json::Value::Object(m),
        &jsonwebtoken::EncodingKey::from_secret(secret.as_bytes()),
    )
        .expect("HS256 signing with an HMAC secret cannot fail")
}

/// Relies on jsonwebtoken::decode over HS256 with the expiry check turned
/// off, so that the result depends on the token and secret alone: the one
/// authoritative expiry check is the caller's.
#[verifier::external_body]
fn decode_claims(token: &str, secret: &str) -> (r: Option<(String, i64, i64)>)
    ensures
        r matches Some(c) ==> jwt_claims_of(token@, secret@) == Some((c.0@, c.1, c.2)),
        r is None ==> jwt_claims_of(token@, secret@) is None,
{
    let mut validation = jsonwebtoken::Validation::new(jsonwebtoken::Algorithm::HS256);
    validation.validate_exp = false;
    validation.required_spec_claims = std::collections::HashSet::new();
    let key = jsonwebtoken::DecodingKey::from_secret(secret.as_bytes());
    let data = jsonwebtoken::decode::<serde_json::Value>(token, &key, &validation).ok()?;
    let access = data.claims.get("access").and_then(|a| a.as_str())?.to_string();
    let iat = data.claims.get("iat").and_then(|x| x.as_i64())?;
    let exp = data.claims.get("exp").and_then(|x| x.as_i64())?;
    Some((access, iat, exp))
}

/// Recovers the claims of a token that authenticates under the signing
/// secret; rejects a malformed token and one signed under another secret.
pub fn decode_token(token: &str, server_secret: &str) -> (r: Option<Claims>)
    ensures
        r matches Some(c) ==> jwt_claims_of(token@, server_secret@) == Some(
            (c.access@, c.iat, c.exp),
        ),
        r is None ==> jwt_claims_of(token@, server_secret@) is None,
{
    match decode_claims(token, server_secret) {
        Some(c) => Some(Claims { access: c.0, iat: c.1, exp: c.2 }),
        None => None,
    }
}

/// The pair names a stored key that is live at `now` and whose stored
/// secret is exactly the offered one.
pub open spec fn credentials_ok(
    s: Seq<AccessKeyView>,
    access: Seq<char>,
    secret: Seq<char>,
    now: i64,
) -> bool {
    exists|i: int|
        0 <= i < s.len() && s[i].access == access && s[i].secret == secret && key_live_at(
            s[i],
            now,
        )
}

/// What issuance answers at time `now`: the exact signed token — success
/// owed — when the credentials name a live key and its secret, and
/// `Unauthorized` exactly when they do not.
pub open spec fn issue_result_ok(
    s: Seq<AccessKeyView>,
    access: Seq<char>,
    secret: Seq<char>,
    server_secret: Seq<char>,
    now: i64,
    r: Result<String, Error>,
) -> bool {
    match r {
        Ok(t) => credentials_ok(s, access, secret, now) && t@ == jwt_of(
            access,
            now,
            (now + TOKEN_LIFETIME_SECONDS) as i64,
            server_secret,
        ) && jwt_claims_of(t@, server_secret) == Some(
            (access, now, (now + TOKEN_LIFETIME_SECONDS) as i64),
        ),
        Err(e) => e == Error::Unauthorized && !credentials_ok(s, access, secret, now),
    }
}

/// Issuance against the clock reading the call made: the exact outcome at
/// that time, with `Internal` permitted only when the reading leaves no
/// room for the lifetime in an i64.
pub open spec fn issue_result(
    s: Seq<AccessKeyView>,
    access: Seq<char>,
    secret: Seq<char>,
    server_secret: Seq<char>,
    r: Result<String, Error>,
) -> bool {
    exists|now: i64|
        #[trigger] issue_outcome_ok(s, access, secret, server_secret, now, r)
}

pub open spec fn issue_outcome_ok(
    s: Seq<AccessKeyView>,
    access: Seq<char>,
    secret: Seq<char>,
    server_secret: Seq<char>,
    now: i64,
    r: Result<String, Error>,
) -> bool {
    if now <= i64::MAX - TOKEN_LIFETIME_SECONDS {
        issue_result_ok(s, access, secret, server_secret, now, r)
    } else {
        r == Err::<String, Error>(Error::Internal)
    }
}

/// A token is accepted at `now` when it authenticates under the signing
/// secret, its expiry lies in the future, and the key it was issued to is
/// still live.
pub open spec fn token_accepted(
    s: Seq<AccessKeyView>,
    token: Seq<char>,
    server_secret: Seq<char>,
    now: i64,
) -> bool {
    match jwt_claims_of(token, server_secret) {
        Some(c) => c.2 > now && live_key_exists(s, c.0, now),
        None => false,
    }
}

/// What verification answers at time `now`.
pub open spec fn verify_result(
    s: Seq<AccessKeyView>,
    token: Seq<char>,
    server_secret: Seq<char>,
    now: i64,
) -> Result<bool, Error> {
    if token_accepted(s, token, server_secret, now) {
        Ok(true)
    } else {
        Err(Error::Unauthorized)
    }
}

/// Issues a session token at time `now` for an access/secret pair: fails
/// as `Unauthorized` exactly when the pair does not name a live key with
/// that secret; otherwise returns exactly the claims spanning `now` to
/// `now + 3600`, signed with the process signing secret.
pub fn create_token_at(
    store: &KeyStore,
    access: &str,
    secret: &str,
    server_secret: &str,
    now: i64,
) -> (r: Result<String, Error>)
    requires
        store.wf(),
        now <= i64::MAX - TOKEN_LIFETIME_SECONDS,
    ensures
        issue_result_ok(store@, access@, secret@, server_secret@, now, r),
{
    match store.find_secret_by_access(access, now) {
        Ok(stored) => {
            let offered = secret.to_owned();
            if stored == offered {
                proof {
                    let i = choose|i: int|
                        0 <= i < store@.len() && store@[i].access == access@ && key_live_at(
                            store@[i],
                            now,
                        );
                    assert(crate::keystore::key_index(store@, access@) == i);
                    assert(credentials_ok(store@, access@, secret@, now)) by {
                        assert(store@[i].access == access@ && store@[i].secret == secret@
                            && key_live_at(store@[i], now));
                    }
                }
                Ok(encode_claims(access, now, now + TOKEN_LIFETIME_SECONDS, server_secret))
            } else {
                proof {
                    assert forall|i: int|
                        0 <= i < store@.len() && store@[i].access == access@ && key_live_at(
                            store@[i],
                            now,
                        ) implies store@[i].secret != secret@ by {
                        assert(crate::keystore::key_index(store@, access@) == i);
                    }
                }
                Err(Error::Unauthorized)
            }
        },
        Err(_) => Err(Error::Unauthorized),
    }
}

/// Verifies a bearer token at time `now`: one authoritative check each of
/// the signature, the expiry claim, and the issuing key's liveness.
pub fn verify_token_at(store: &KeyStore, token: &str, server_secret: &str, now: i64) -> (r: Result<
    bool,
    Error,
>)
    requires
        store.wf(),
    ensures
        r == verify_result(store@, token@, server_secret@, now),
{
    match decode_token(token, server_secret) {
        Some(c) => {
            if c.exp > now {
                if store.is_live(c.access.as_str(), now) {
                    Ok(true)
                } else {
                    Err(Error::Unauthorized)
                }
            } else {
                Err(Error::Unauthorized)
            }
        },
        None => Err(Error::Unauthorized),
    }
}

/// Issues a session token for an access/secret pair at the current time:
/// the exact outcome of `create_token_at` for the clock reading made,
/// with `Internal` possible only when that reading leaves no room for the
/// lifetime in an i64.
pub fn create_token(store: &KeyStore, access: &str, secret: &str, server_secret: &str) -> (r:
    Result<String, Error>)
    requires
        store.wf(),
    ensures
        issue_result(store@, access@, secret@, server_secret@, r),
{
    let now = now_seconds();
    if now > i64::MAX - TOKEN_LIFETIME_SECONDS {
        proof {
            assert(issue_outcome_ok(
                store@,
                access@,
                secret@,
                server_secret@,
                now,
                Err::<String, Error>(Error::Internal),
            ));
        }
        return Err(Error::Internal);
    }
    let r = create_token_at(store, access, secret, server_secret, now);
    proof {
        assert(issue_outcome_ok(store@, access@, secret@, server_secret@, now, r));
    }
    r
}

/// Law: a freshly issued token — one whose claims under the signing
/// secret span `now` to `now + 3600` — is accepted by verification at any
/// time before its expiry while its key is live, and rejected as
/// `Unauthorized` at any time from the expiry boundary on.
pub proof fn lemma_issue_then_verify(
    s: Seq<AccessKeyView>,
    token: Seq<char>,
    access: Seq<char>,
    server_secret: Seq<char>,
    now: i64,
    later: i64,
)
    requires
        now <= i64::MAX - TOKEN_LIFETIME_SECONDS,
        jwt_claims_of(token, server_secret) == Some(
            (access, now, (now + TOKEN_LIFETIME_SECONDS) as i64),
        ),
    ensures
        later < now + TOKEN_LIFETIME_SECONDS && live_key_exists(s, access, later)
            ==> verify_result(s, token, server_secret, later) == Ok::<bool, Error>(true),
        later >= now + TOKEN_LIFETIME_SECONDS ==> verify_result(s, token, server_secret, later)
            == Err::<bool, Error>(Error::Unauthorized),
{
}

/// Law: a token that does not authenticate under the verifying secret —
/// in particular one signed under a different secret, whose signature
/// cannot verify under this one — is rejected as `Unauthorized` at every
/// time and over every store.
pub proof fn lemma_foreign_token_rejected(
    s: Seq<AccessKeyView>,
    token: Seq<char>,
    server_secret: Seq<char>,
    now: i64,
)
    requires
        jwt_claims_of(token, server_secret) is None,
    ensures
        verify_result(s, token, server_secret, now) == Err::<bool, Error>(Error::Unauthorized),
{
}

/// Law: expiring a key revokes it end to end. Over a store with distinct
/// access identifiers, from the expiry time on, the expired key is no
/// longer live, issuance for its identifier cannot succeed, and every
/// outstanding token carrying its identifier fails verification.
pub proof fn lemma_expired_key_unusable(
    s: Seq<AccessKeyView>,
    i: int,
    now: i64,
    later: i64,
    secret: Seq<char>,
    server_secret: Seq<char>,
    token: Seq<char>,
)
    requires
        0 <= i < s.len(),
        forall|j: int, k: int| 0 <= j < k < s.len() ==> s[j].access != s[k].access,
        later >= now,
    ensures
        !live_key_exists(s.update(i, with_expiry(s[i], now)), s[i].access, later),
        !credentials_ok(s.update(i, with_expiry(s[i], now)), s[i].access, secret, later),
        forall|r: Result<String, Error>|
            #[trigger] issue_result_ok(
                s.update(i, with_expiry(s[i], now)),
                s[i].access,
                secret,
                server_secret,
                later,
                r,
            ) ==> !(r is Ok),
        (jwt_claims_of(token, server_secret) matches Some(c) && c.0 == s[i].access)
            ==> verify_result(
            s.update(i, with_expiry(s[i], now)),
            token,
            server_secret,
            later,
        ) == Err::<bool, Error>(Error::Unauthorized),
{
    let s2 = s.update(i, with_expiry(s[i], now));
    assert forall|j: int|
        0 <= j < s2.len() && s2[j].access == s[i].access implies !key_live_at(s2[j], later) by {
        if j < i {
            assert(s[j].access != s[i].access);
        } else if j > i {
            assert(s[i].access != s[j].access);
        } else {
            assert(s2[i].expired_at == Some(now));
        }
    }
}

/// Verifies a bearer token against the current time.
pub fn verify_token(store: &KeyStore, token: &str, server_secret: &str) -> (r: Result<bool, Error>)
    requires
        store.wf(),
    ensures
        exists|now: i64| r == #[trigger] verify_result(store@, token@, server_secret@, now),
{
    let now = now_seconds();
    let r = verify_token_at(store, token, server_secret, now);
    r
}

} // verus!
