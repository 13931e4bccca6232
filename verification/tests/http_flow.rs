use base64::Engine;

use collied::header::parse_authorization;
use collied::keystore::{generate_key, KeyStore};
use collied::middleware::{authenticate, authorize};
use collied::Error;

fn basic_header(access: &str, secret: &str) -> String {
    let payload =
        base64::engine::general_purpose::STANDARD.encode(format!("{}:{}", access, secret));
    format!("Basic {}", payload)
}

#[test]
fn parse_authorization_decodes_credentials() {
    let header = basic_header("user", "pa:ss");
    let (access, secret) = parse_authorization(Some(&header)).unwrap();
    // the split happens at the first ':' only
    assert_eq!(access, "user");
    assert_eq!(secret, "pa:ss");
}

#[test]
fn parse_authorization_takes_last_field() {
    let payload = base64::engine::general_purpose::STANDARD.encode("a:b");
    let header = format!("Basic   {}  ", payload);
    let (access, secret) = parse_authorization(Some(&header)).unwrap();
    assert_eq!(access, "a");
    assert_eq!(secret, "b");
}

#[test]
fn parse_authorization_rejects_malformed_headers() {
    // missing header
    assert!(matches!(parse_authorization(None), Err(Error::Unauthorized)));
    // nothing but whitespace
    assert!(matches!(
        parse_authorization(Some("   ")),
        Err(Error::Unauthorized)
    ));
    // not base64
    assert!(matches!(
        parse_authorization(Some("Basic !!!!")),
        Err(Error::Unauthorized)
    ));
    // decodes, but not to UTF-8
    let bad_utf8 = base64::engine::general_purpose::STANDARD.encode([0xffu8, 0xfe, 0xfd]);
    assert!(matches!(
        parse_authorization(Some(&format!("Basic {}", bad_utf8))),
        Err(Error::Invalid)
    ));
    // decodes to text without a ':' separator
    let no_colon = base64::engine::general_purpose::STANDARD.encode("justonefield");
    assert!(matches!(
        parse_authorization(Some(&format!("Basic {}", no_colon))),
        Err(Error::Unauthorized)
    ));
}

#[test]
fn auth_flow_end_to_end() {
    let mut store = KeyStore::new();
    let (access, secret) = store.create(Some("client".to_string())).unwrap();
    let server_secret = generate_key();

    // exchange base64(access:secret) for a bearer token
    let header = basic_header(&access, &secret);
    let (status, token) = authorize(&store, Some(&header), &server_secret);
    assert_eq!(status, 200);
    assert!(!token.is_empty());

    // the token admits a protected request
    let bearer = format!("Bearer {}", token);
    assert!(authenticate(&store, Some(&bearer), &server_secret));

    // the same call with one character flipped is turned away
    let mut chars: Vec<char> = token.chars().collect();
    let last = chars.len() - 1;
    chars[last] = if chars[last] == 'A' { 'B' } else { 'A' };
    let tampered: String = chars.into_iter().collect();
    assert!(!authenticate(
        &store,
        Some(&format!("Bearer {}", tampered)),
        &server_secret
    ));
}

#[test]
fn auth_route_rejects_bad_requests() {
    let mut store = KeyStore::new();
    let (access, _secret) = store.create(None).unwrap();
    let server_secret = generate_key();

    let (status, body) = authorize(&store, Some(&basic_header(&access, "wrong")), &server_secret);
    assert_eq!(status, 401);
    assert!(body.is_empty());

    let (status, body) = authorize(&store, None, &server_secret);
    assert_eq!(status, 401);
    assert!(body.is_empty());

    let (status, body) = authorize(&store, Some("Basic not-base64!"), &server_secret);
    assert_eq!(status, 401);
    assert!(body.is_empty());

    assert!(!authenticate(&store, None, &server_secret));
    assert!(!authenticate(&store, Some("Bearer garbage"), &server_secret));
}

#[test]
fn expired_key_locks_out_the_whole_flow() {
    let mut store = KeyStore::new();
    let (access, secret) = store.create(None).unwrap();
    let server_secret = generate_key();

    let header = basic_header(&access, &secret);
    let (status, token) = authorize(&store, Some(&header), &server_secret);
    assert_eq!(status, 200);

    store.expire(0).unwrap();

    // exchanging again fails, and the outstanding token is revoked
    let (status, body) = authorize(&store, Some(&header), &server_secret);
    assert_eq!(status, 401);
    assert!(body.is_empty());
    assert!(!authenticate(
        &store,
        Some(&format!("Bearer {}", token)),
        &server_secret
    ));
}
