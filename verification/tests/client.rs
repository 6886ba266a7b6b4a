use mpesa::{Mpesa, TokenCache, DEFAULT_INITIATOR_PASSWORD};

fn test_client() -> Mpesa {
    Mpesa::new(
        "consumer_key".to_string(),
        "consumer_secret".to_string(),
        "https://example.com".to_string(),
        "certificate".to_string(),
    )
}

#[test]
fn test_setting_initator_password() {
    let mut client = test_client();
    assert_eq!(client.initiator_password(), DEFAULT_INITIATOR_PASSWORD);
    client.set_initiator_password("foo_bar".to_string());
    assert_eq!(client.initiator_password(), "foo_bar".to_string());
}

#[test]
fn test_custom_environment() {
    let client = test_client();
    assert_eq!(client.base_url(), "https://example.com");
    assert_eq!(client.certificate(), "certificate");
}

#[test]
fn client_exposes_credentials() {
    let client = test_client();
    assert_eq!(client.consumer_key(), "consumer_key");
    assert_eq!(client.consumer_secret(), "consumer_secret");
}

#[test]
fn client_starts_without_cached_auth() {
    let client = test_client();
    assert_eq!(client.auth_token(), "");
    assert_eq!(client.auth_expiry(), 0);
    assert!(!client.has_cached_auth());
    assert!(!client.has_cached_auth_at(-100));
}

#[test]
fn client_set_auth_token_updates_cache() {
    let mut client = test_client();
    client.set_auth_token("tok".to_string(), 5_000);
    assert_eq!(client.auth_token(), "tok");
    assert_eq!(client.auth_expiry(), 5_000);
    assert!(client.has_cached_auth_at(4_999));
    assert!(!client.has_cached_auth_at(5_000));
}

#[test]
fn token_cache_starts_empty_and_expired() {
    let cache = TokenCache::new();
    assert_eq!(cache.read_token(), "");
    assert_eq!(cache.expiry(), 0);
    assert!(!cache.has_valid_token(-1));
    assert!(!cache.has_valid_token(0));
    assert!(!cache.has_valid_token(1));
}

#[test]
fn token_cache_validity_window() {
    let mut cache = TokenCache::new();
    let now = 1_000_000;
    cache.write_token("tok1".to_string(), now + 3600);
    assert_eq!(cache.read_token(), "tok1");
    assert!(cache.has_valid_token(now));
    assert!(cache.has_valid_token(now + 3599));
    assert!(!cache.has_valid_token(now + 3600));
    assert!(!cache.has_valid_token(now + 3601));
}

#[test]
fn token_cache_empty_token_never_valid() {
    let mut cache = TokenCache::new();
    cache.write_token(String::new(), i64::MAX);
    assert!(!cache.has_valid_token(0));
}

#[test]
fn token_cache_overwrite_replaces_both_fields() {
    let mut cache = TokenCache::new();
    cache.write_token("first".to_string(), 100);
    cache.write_token("second".to_string(), 200);
    assert_eq!(cache.read_token(), "second");
    assert_eq!(cache.expiry(), 200);
    assert!(cache.has_valid_token(150));
    assert!(!cache.has_valid_token(250));
}
