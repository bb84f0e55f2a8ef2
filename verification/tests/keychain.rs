use botbox::keychain::{
    keychain_error, presence, KeyStore, KeyStoreError, MemoryKeyStore, MemoryPublicKeyCache,
    PublicKeyCache, ITEM_NOT_FOUND, KEYCHAIN_ACCOUNT, KEYCHAIN_SERVICE,
};

#[test]
fn memory_store_round_trips_and_is_idempotent() {
    let mut store = MemoryKeyStore::new();
    assert!(!store.has_key().unwrap());
    assert!(matches!(store.load(), Err(KeyStoreError::NotFound)));

    let first = b"openssh-private-bytes-v1".to_vec();
    assert!(store.store_if_absent(&first).unwrap(), "first write happens");
    assert!(store.has_key().unwrap());
    assert_eq!(store.load().unwrap(), first);

    // store_if_absent must NOT overwrite (idempotent generate).
    let second = b"different-bytes".to_vec();
    assert!(
        !store.store_if_absent(&second).unwrap(),
        "second write is a no-op"
    );
    assert_eq!(store.load().unwrap(), first, "existing key preserved");
}

#[test]
fn keychain_names_are_scoped_to_the_bundle() {
    assert_eq!(KEYCHAIN_SERVICE, "ai.aipowerguild.botbox");
    assert_eq!(KEYCHAIN_ACCOUNT, "ssh-signing-key-ed25519");
}

#[test]
fn only_the_missing_item_status_means_not_found() {
    assert_eq!(ITEM_NOT_FOUND, -25300);
    assert!(matches!(
        keychain_error(-25300, "The specified item could not be found."),
        KeyStoreError::NotFound
    ));
    for code in [-25299, -25301, 0, -128, 25300] {
        match keychain_error(code, "denied") {
            KeyStoreError::Backend(m) => assert_eq!(m, "denied"),
            other => panic!("expected Backend, got {other:?}"),
        }
    }
}

#[test]
fn presence_is_told_from_a_load() {
    assert!(presence(Ok(vec![1])).unwrap());
    assert!(!presence(Err(KeyStoreError::NotFound)).unwrap());
    assert!(matches!(
        presence(Err(KeyStoreError::Backend("locked".to_string()))),
        Err(KeyStoreError::Backend(m)) if m == "locked"
    ));
}

#[test]
fn key_store_errors_read_as_documented() {
    assert_eq!(KeyStoreError::NotFound.to_string(), "no key found in store");
    assert_eq!(
        KeyStoreError::Backend("locked".to_string()).to_string(),
        "key store backend error: locked"
    );
}

#[test]
fn memory_cache_remembers_the_last_line() {
    let mut cache = MemoryPublicKeyCache::new();
    assert_eq!(cache.get(), None);
    cache.put("ssh-ed25519 AAAA one");
    assert_eq!(cache.get().as_deref(), Some("ssh-ed25519 AAAA one"));
    cache.put("ssh-ed25519 BBBB two");
    assert_eq!(cache.get().as_deref(), Some("ssh-ed25519 BBBB two"));
}
