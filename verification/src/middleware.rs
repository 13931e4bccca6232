use vstd::prelude::*;

use crate::clock::now_seconds;
use crate::error::Error;
use crate::header::{
    credentials_of, last_field, last_field_str, opt_str_ref_view, parse_authorization,
};
use crate::keystore::{AccessKeyView, KeyStore};
use crate::token::{
    create_token_at, credentials_ok, jwt_claims_of, jwt_of, token_accepted, verify_token_at,
    TOKEN_LIFETIME_SECONDS,
};

verus! {

/// The credential-exchange route's answer at time `now`: a bad header or
/// bad credentials give 401 with an empty body; valid credentials are
/// owed 200 with exactly the signed token as the body; 500 can arise only
/// when the clock reading leaves no room for the lifetime in an i64.
pub open spec fn authorize_result_ok(
    s: Seq<AccessKeyView>,
    h: Option<Seq<char>>,
    server_secret: Seq<char>,
    now: i64,
    status: u16,
    body: Seq<char>,
) -> bool {
    match credentials_of(h) {
        Err(_) => status == 401 && body.len() == 0,
        Ok(cred) => {
            if now > i64::MAX - TOKEN_LIFETIME_SECONDS {
                status == 500 && body.len() == 0
            } else if credentials_ok(s, cred.0, cred.1, now) {
                status == 200 && body == jwt_of(
                    cred.0,
                    now,
                    (now + TOKEN_LIFETIME_SECONDS) as i64,
                    server_secret,
                ) && jwt_claims_of(body, server_secret) == Some(
                    (cred.0, now, (now + TOKEN_LIFETIME_SECONDS) as i64),
                )
            } else {
                status == 401 && body.len() == 0
            }
        },
    }
}

/// The route's answer is right for the time at which the handler read
/// the clock.
pub open spec fn authorize_result(
    s: Seq<AccessKeyView>,
    h: Option<Seq<char>>,
    server_secret: Seq<char>,
    status: u16,
    body: Seq<char>,
) -> bool {
    exists|now: i64| #[trigger] authorize_result_ok(s, h, server_secret, now, status, body)
}

/// Handles the public issuance route: decodes the Authorization header,
/// exchanges the access/secret pair for a session token, and maps the
/// outcome to a status code and response body.
pub fn authorize(store: &KeyStore, header: Option<&str>, server_secret: &str) -> (r: (u16, String))
    requires
        store.wf(),
    ensures
        authorize_result(store@, opt_str_ref_view(header), server_secret@, r.0, r.1@),
{
    match parse_authorization(header) {
        Ok((access, secret)) => {
            let ghost h = opt_str_ref_view(header);
            let now = now_seconds();
            if now > i64::MAX - TOKEN_LIFETIME_SECONDS {
                proof {
                    assert(authorize_result_ok(
                        store@,
                        h,
                        server_secret@,
                        now,
                        500,
                        Seq::<char>::empty(),
                    ));
                    assert(authorize_result(store@, h, server_secret@, 500u16, Seq::<char>::empty()));
                }
                return (500, String::new());
            }
            let outcome = create_token_at(store, access.as_str(), secret.as_str(), server_secret, now);
            match outcome {
                Ok(t) => {
                    proof {
                        assert(authorize_result_ok(store@, h, server_secret@, now, 200, t@));
                        assert(authorize_result(store@, h, server_secret@, 200u16, t@));
                    }
                    return (200, t);
                },
                Err(_) => {
                    proof {
                        assert(authorize_result_ok(
                            store@,
                            h,
                            server_secret@,
                            now,
                            401,
                            Seq::<char>::empty(),
                        ));
                        assert(authorize_result(
                            store@,
                            h,
                            server_secret@,
                            401u16,
                            Seq::<char>::empty(),
                        ));
                    }
                    return (401, String::new());
                },
            }
        },
        Err(_) => {
            proof {
                assert(authorize_result_ok(
                    store@,
                    opt_str_ref_view(header),
                    server_secret@,
                    0,
                    401,
                    Seq::<char>::empty(),
                ));
                assert(authorize_result(
                    store@,
                    opt_str_ref_view(header),
                    server_secret@,
                    401u16,
                    Seq::<char>::empty(),
                ));
            }
            return (401, String::new());
        },
    }
}

/// What the session-verification middleware admits at time `now`: the
/// request passes exactly when the last whitespace-delimited field of its
/// Authorization header is a token accepted at `now`.
pub open spec fn authenticate_ok(
    s: Seq<AccessKeyView>,
    h: Option<Seq<char>>,
    server_secret: Seq<char>,
    now: i64,
) -> bool {
    match h {
        None => false,
        Some(hs) => match last_field(hs) {
            None => false,
            Some(tok) => token_accepted(s, tok, server_secret, now),
        },
    }
}

/// The session-verification decision at a given time: reads the bearer
/// token out of the header and verifies it, with no side effect.
pub fn authenticate_at(store: &KeyStore, header: Option<&str>, server_secret: &str, now: i64) -> (r:
    bool)
    requires
        store.wf(),
    ensures
        r == authenticate_ok(store@, opt_str_ref_view(header), server_secret@, now),
{
    let h = match header {
        Some(h) => h,
        None => {
            return false;
        },
    };
    let tok = match last_field_str(h) {
        Some(t) => t,
        None => {
            return false;
        },
    };
    match verify_token_at(store, tok, server_secret, now) {
        Ok(_) => true,
        Err(_) => false,
    }
}

/// The session-verification middleware's decision: whether the bearer
/// token in this Authorization header admits the request at the current
/// time.
pub fn authenticate(store: &KeyStore, header: Option<&str>, server_secret: &str) -> (r: bool)
    requires
        store.wf(),
    ensures
        exists|now: i64|
            r == #[trigger] authenticate_ok(store@, opt_str_ref_view(header), server_secret@, now),
{
    let now = now_seconds();
    let r = authenticate_at(store, header, server_secret, now);
    r
}

} // verus!
