use trace_server::crypto::{generate_api_key, hash_password, API_KEY_PREFIX};

#[test]
fn crypto_tests_api_keys_are_prefixed_and_unique() {
    let first = generate_api_key();
    let second = generate_api_key();

    assert!(first.starts_with(API_KEY_PREFIX));
    assert_ne!(first, second);
}

#[test]
fn crypto_tests_hashes_are_salted_per_call() {
    let first = hash_password("correct horse").expect("hashing works");
    let second = hash_password("correct horse").expect("hashing works");

    assert!(first.starts_with("$argon2id$"));
    assert_ne!(first, second);
}

#[test]
fn models_api_keys_are_prefixed_and_unique() {
    let first = generate_api_key();
    let second = generate_api_key();

    assert!(first.starts_with(API_KEY_PREFIX));
    assert_ne!(first, second);
}

#[test]
fn models_hashes_are_salted_per_call() {
    let first = hash_password("correct horse").expect("hashing works");
    let second = hash_password("correct horse").expect("hashing works");

    assert!(first.starts_with("$argon2id$"));
    assert_ne!(first, second);
}

#[test]
fn an_api_key_is_the_prefix_and_unpadded_url_safe_base64_of_32_bytes() {
    let key = generate_api_key();
    let encoded = &key[API_KEY_PREFIX.len()..];

    // 32 bytes are 43 characters of base64 without padding.
    assert_eq!(encoded.len(), 43);
    assert!(encoded
        .chars()
        .all(|c| c.is_ascii_alphanumeric() || c == '-' || c == '_'));
}

#[test]
fn a_hash_does_not_contain_the_password() {
    let hash = hash_password("correct horse").expect("hashing works");

    assert!(!hash.contains("correct horse"));
    assert!(hash.starts_with("$argon2id$v=19$"));
}
