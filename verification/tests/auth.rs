use std::collections::HashSet;

use collied::keystore::{generate_key, KeyStore};
use collied::token::{create_token, create_token_at, decode_token, verify_token, verify_token_at};
use collied::Error;

#[test]
fn generated_key_shape() {
    let alphabet = "abcdefghijklmnopqrstuvwxyzABCDEFGHIJKLMNOPQRSTUVWXYZ0123456789!@#$%^&*_-+=";
    for _ in 0..100 {
        let k = generate_key();
        assert_eq!(k.chars().count(), 64);
        assert!(k.chars().all(|c| alphabet.contains(c)));
    }
}

#[test]
fn generated_keys_unique_in_many_draws() {
    let mut seen: HashSet<String> = HashSet::new();
    let n = 100_000;
    for _ in 0..n {
        seen.insert(generate_key());
    }
    assert_eq!(seen.len(), n);
}

#[test]
fn create_returns_pair_and_keeps_access_unique() {
    let mut store = KeyStore::new();
    let mut seen: HashSet<String> = HashSet::new();
    for i in 0..200u32 {
        let (access, secret) = store.create(Some(format!("key {}", i))).unwrap();
        assert_ne!(access, secret);
        assert!(seen.insert(access));
    }
    let listed = store.read_all();
    assert_eq!(listed.len(), 200);
    for (i, l) in listed.iter().enumerate() {
        assert_eq!(l.id, i as u32);
        assert!(seen.contains(&l.access));
        assert_eq!(l.expired_at, None);
        assert_eq!(l.description.as_deref(), Some(format!("key {}", i).as_str()));
    }
}

#[test]
fn find_secret_only_for_live_keys() {
    let mut store = KeyStore::new();
    let (access, secret) = store.create(None).unwrap();
    assert_eq!(store.find_secret_by_access(&access, 1_000).unwrap(), secret);
    assert!(matches!(
        store.find_secret_by_access("no-such-access", 1_000),
        Err(Error::Unauthorized)
    ));
    store.expire_at(0, 1_000).unwrap();
    assert!(matches!(
        store.find_secret_by_access(&access, 1_000),
        Err(Error::Unauthorized)
    ));
}

#[test]
fn expire_unknown_id_is_not_found() {
    let mut store = KeyStore::new();
    assert!(matches!(store.expire(7), Err(Error::NotFound)));
}

#[test]
fn issue_and_verify_within_lifetime() {
    let mut store = KeyStore::new();
    let (access, secret) = store.create(None).unwrap();
    let server_secret = generate_key();
    let now = 1_700_000_000;
    let token = create_token_at(&store, &access, &secret, &server_secret, now).unwrap();
    assert_eq!(verify_token_at(&store, &token, &server_secret, now).unwrap(), true);
    assert_eq!(
        verify_token_at(&store, &token, &server_secret, now + 3599).unwrap(),
        true
    );
}

#[test]
fn verify_fails_from_expiry_boundary_on() {
    let mut store = KeyStore::new();
    let (access, secret) = store.create(None).unwrap();
    let server_secret = generate_key();
    let now = 1_700_000_000;
    let token = create_token_at(&store, &access, &secret, &server_secret, now).unwrap();
    assert!(matches!(
        verify_token_at(&store, &token, &server_secret, now + 3600),
        Err(Error::Unauthorized)
    ));
    assert!(matches!(
        verify_token_at(&store, &token, &server_secret, now + 10_000),
        Err(Error::Unauthorized)
    ));
}

#[test]
fn issue_with_bad_credentials_is_unauthorized() {
    let mut store = KeyStore::new();
    let (access, secret) = store.create(None).unwrap();
    let server_secret = generate_key();
    let now = 1_700_000_000;
    assert!(matches!(
        create_token_at(&store, &access, "wrong-secret", &server_secret, now),
        Err(Error::Unauthorized)
    ));
    assert!(matches!(
        create_token_at(&store, "wrong-access", &secret, &server_secret, now),
        Err(Error::Unauthorized)
    ));
}

#[test]
fn verify_with_other_secret_always_fails() {
    let mut store = KeyStore::new();
    let (access, secret) = store.create(None).unwrap();
    let signing = generate_key();
    let other = generate_key();
    assert_ne!(signing, other);
    let now = 1_700_000_000;
    let token = create_token_at(&store, &access, &secret, &signing, now).unwrap();
    assert!(matches!(
        verify_token_at(&store, &token, &other, now),
        Err(Error::Unauthorized)
    ));
    assert!(decode_token(&token, &other).is_none());
}

#[test]
fn decoded_claims_match_issuance() {
    let mut store = KeyStore::new();
    let (access, secret) = store.create(None).unwrap();
    let server_secret = generate_key();
    let now = 1_700_000_000;
    let token = create_token_at(&store, &access, &secret, &server_secret, now).unwrap();
    let claims = decode_token(&token, &server_secret).unwrap();
    assert_eq!(claims.access, access);
    assert_eq!(claims.iat, now);
    assert_eq!(claims.exp, now + 3600);
}

#[test]
fn tampered_token_fails_verification() {
    let mut store = KeyStore::new();
    let (access, secret) = store.create(None).unwrap();
    let server_secret = generate_key();
    let now = 1_700_000_000;
    let token = create_token_at(&store, &access, &secret, &server_secret, now).unwrap();
    let mut chars: Vec<char> = token.chars().collect();
    let last = chars.len() - 1;
    chars[last] = if chars[last] == 'A' { 'B' } else { 'A' };
    let tampered: String = chars.into_iter().collect();
    assert_ne!(token, tampered);
    assert!(matches!(
        verify_token_at(&store, &tampered, &server_secret, now),
        Err(Error::Unauthorized)
    ));
}

#[test]
fn expired_key_stops_issuance_and_revokes_tokens() {
    let mut store = KeyStore::new();
    let (access, secret) = store.create(None).unwrap();
    let server_secret = generate_key();
    let issued_at = 1_700_000_000;
    let token = create_token_at(&store, &access, &secret, &server_secret, issued_at).unwrap();
    store.expire_at(0, issued_at + 10).unwrap();
    // issuance for that key now fails
    assert!(matches!(
        create_token_at(&store, &access, &secret, &server_secret, issued_at + 20),
        Err(Error::Unauthorized)
    ));
    // and the still-unexpired token no longer verifies
    assert!(matches!(
        verify_token_at(&store, &token, &server_secret, issued_at + 20),
        Err(Error::Unauthorized)
    ));
    let listed = store.read_all();
    assert_eq!(listed[0].expired_at, Some(issued_at + 10));
}

#[test]
fn duplicate_access_insert_is_internal() {
    let mut store = KeyStore::new();
    store
        .insert_key("same".to_string(), "s1".to_string(), None)
        .unwrap();
    assert!(matches!(
        store.insert_key("same".to_string(), "s2".to_string(), None),
        Err(Error::Internal)
    ));
    assert_eq!(store.read_all().len(), 1);
}

#[test]
fn issue_and_verify_with_real_clock() {
    let mut store = KeyStore::new();
    let (access, secret) = store.create(None).unwrap();
    let server_secret = generate_key();
    let token = create_token(&store, &access, &secret, &server_secret).unwrap();
    assert_eq!(verify_token(&store, &token, &server_secret).unwrap(), true);
    // the claims span the actual wall clock
    let claims = decode_token(&token, &server_secret).unwrap();
    let wall = std::time::SystemTime::now()
        .duration_since(std::time::UNIX_EPOCH)
        .unwrap()
        .as_secs() as i64;
    assert!((claims.iat - wall).abs() < 60);
    assert_eq!(claims.exp, claims.iat + 3600);
}

#[test]
fn config_default_values() {
    let c = collied::config::Config::default();
    assert_eq!(c.stage, "production");
    assert_eq!(c.database.path, "/etc/collied/collie.db");
    assert_eq!(c.producer.polling_frequency, 600);
    assert!(c.producer.proxy.is_none());
    assert_eq!(c.daemon.pid_file, "/tmp/collied.pid");
    assert!(c.daemon.error_log.is_none());
}
