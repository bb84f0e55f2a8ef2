use botbox::keychain::{
    KeyStore, KeyStoreError, KeyStoreErrorView, MemoryKeyStore, MemoryPublicKeyCache,
};
use botbox::ssh::signer::{
    verify_openssh_ed25519, Ed25519Signer, SecretBytes, Signer, SignerError, SSH_ED25519,
};
use botbox::ssh::wire::Bytes;
use ssh_key::private::{KeypairData, PrivateKey, RsaKeypair, RsaPrivateKey};
use ssh_key::public::RsaPublicKey;
use ssh_key::{Algorithm, LineEnding, Mpint, PublicKey};
use std::sync::atomic::{AtomicUsize, Ordering};
use std::sync::Arc;

fn signer() -> Ed25519Signer<MemoryKeyStore, MemoryPublicKeyCache> {
    Ed25519Signer::new(Box::new(MemoryKeyStore::new()))
}

/// A `KeyStore` wrapper that counts `load()` calls, so a test can prove the
/// public-key cache avoids private-key reads (and thus the Keychain prompt).
struct CountingKeyStore {
    inner: MemoryKeyStore,
    loads: Arc<AtomicUsize>,
}

impl KeyStore for CountingKeyStore {
    fn stored(&self) -> Option<Bytes> {
        unreachable!("no value at run time")
    }
    fn failure(&self, _e: KeyStoreErrorView) -> bool {
        unreachable!("no value at run time")
    }
    fn load(&self) -> Result<Vec<u8>, KeyStoreError> {
        self.loads.fetch_add(1, Ordering::SeqCst);
        self.inner.load()
    }
    fn store_if_absent(&mut self, bytes: &[u8]) -> Result<bool, KeyStoreError> {
        self.inner.store_if_absent(bytes)
    }
}

#[test]
fn public_cache_avoids_private_key_reads_for_public_openssh() {
    let loads = Arc::new(AtomicUsize::new(0));
    let store = CountingKeyStore {
        inner: MemoryKeyStore::new(),
        loads: loads.clone(),
    };
    let mut s = Ed25519Signer::new(Box::new(store))
        .with_public_cache(Box::new(MemoryPublicKeyCache::new()));

    // generate() decodes the key it just made — it must NOT re-read the store to
    // derive the public key, and it back-fills the cache.
    let pubkey = s.generate().expect("generate");
    let after_generate = loads.load(Ordering::SeqCst);

    // Subsequent public_openssh() calls answer from the cache: zero new reads.
    assert_eq!(s.public_openssh().unwrap(), pubkey);
    assert_eq!(s.public_openssh().unwrap(), pubkey);
    assert_eq!(
        loads.load(Ordering::SeqCst),
        after_generate,
        "public_openssh must not read the key store when the cache is warm"
    );

    // sign() still needs the private key (this is the only path that prompts).
    let _ = s.sign(b"challenge").expect("sign");
    assert!(
        loads.load(Ordering::SeqCst) > after_generate,
        "sign() reads the private key"
    );
}

#[test]
fn public_cache_miss_backfills_from_private_key() {
    // Pre-provision a key, attach an EMPTY cache: the first public_openssh
    // derives from the private key (one read) and back-fills, so the second
    // call is a cache hit (no further read). Models an existing key from before
    // the cache existed.
    let mut seed = signer();
    let seed_bytes = {
        seed.generate().expect("seed generate");
        seed.export_openssh_private().expect("export seed")
    };

    let loads = Arc::new(AtomicUsize::new(0));
    let mut inner = MemoryKeyStore::new();
    inner
        .store_if_absent(seed_bytes.expose())
        .expect("seed store"); // store_if_absent does not count as a load
    let store = CountingKeyStore {
        inner,
        loads: loads.clone(),
    };
    let mut s = Ed25519Signer::new(Box::new(store))
        .with_public_cache(Box::new(MemoryPublicKeyCache::new()));

    let first = s.public_openssh().expect("derive");
    let after_first = loads.load(Ordering::SeqCst);
    assert!(after_first >= 1, "first call reads the private key");
    let second = s.public_openssh().expect("cache hit");
    assert_eq!(first, second);
    assert_eq!(
        loads.load(Ordering::SeqCst),
        after_first,
        "second call is a cache hit — no further private-key read"
    );
}

#[test]
fn generate_when_absent_stores_and_returns_valid_public_key() {
    let mut s = signer();
    let public = s.generate().expect("generate succeeds");

    // Valid OpenSSH ed25519 public string.
    assert!(public.starts_with("ssh-ed25519 "), "got: {public}");
    let parsed = PublicKey::from_openssh(&public).expect("public key parses");
    assert_eq!(parsed.algorithm(), Algorithm::Ed25519);

    // Signer reports the ed25519 algorithm id.
    assert_eq!(s.algorithm(), "ssh-ed25519");
}

#[test]
fn generate_is_idempotent_and_does_not_overwrite() {
    let mut s = signer();
    let first = s.generate().expect("first generate");
    let second = s.generate().expect("second generate (idempotent)");
    assert_eq!(first, second, "public key unchanged across two generate calls");

    // get_public_key (via public_openssh) returns the same key.
    assert_eq!(s.public_openssh().unwrap(), first);
}

#[test]
fn public_key_round_trips_as_parseable_ed25519() {
    let mut s = signer();
    let public = s.generate().unwrap();
    let parsed = PublicKey::from_openssh(&public).expect("round-trip parse");
    assert!(parsed.key_data().ed25519().is_some(), "is an ed25519 key");
}

#[test]
fn signature_verifies_against_public_key() {
    // Proves the stored key is usable for auth (U4): a signature from the
    // Signer verifies under the published public key.
    let mut s = signer();
    let public = s.generate().unwrap();

    let challenge = b"botbox-auth-challenge-\x00\x01\x02 random bytes";
    let sig = s.sign(challenge).expect("sign");
    assert_eq!(sig.len(), 64, "ed25519 detached signature is 64 bytes");

    verify_openssh_ed25519(&public, challenge, &sig).expect("signature verifies");

    // A tampered message must NOT verify.
    let mut bad = challenge.to_vec();
    bad[0] ^= 0xFF;
    assert!(
        verify_openssh_ed25519(&public, &bad, &sig).is_err(),
        "tampered message must fail verification"
    );
}

#[test]
fn secret_bytes_debug_is_redacted() {
    // The private-key wrapper never emits bytes.
    let secret = SecretBytes::new(b"super-secret-private-key-bytes".to_vec());
    let rendered = secret.redacted();
    assert_eq!(rendered, "SecretBytes([redacted])");
    assert!(!rendered.contains("secret"), "must not leak content");
    assert!(!rendered.contains("private"), "must not leak content");
}

#[test]
fn signer_error_display_never_leaks_key_material() {
    // SignerError is the type that could surface in a log/IPC error; ensure its
    // text carries no key bytes (only NoKey/store/encoding context).
    let e = SignerError::NoKey;
    assert_eq!(e.to_string(), "no signing key provisioned");
}

#[test]
fn export_produces_parseable_openssh_private_key() {
    // The export path is the ONLY private-material egress. Assert the exported
    // bytes parse back as the same ed25519 private key.
    let mut s = signer();
    let public = s.generate().unwrap();

    let exported = s.export_openssh_private().expect("export");
    let pem = std::str::from_utf8(exported.expose()).expect("utf8 pem");
    assert!(
        pem.contains("BEGIN OPENSSH PRIVATE KEY"),
        "exported bytes are an OpenSSH private key"
    );

    let reparsed = PrivateKey::from_openssh(pem).expect("private key parses");
    // The reparsed private key yields the same public key.
    assert_eq!(reparsed.public_key().to_openssh().unwrap(), public);
}

#[test]
fn export_before_generate_yields_no_key() {
    let mut s = signer();
    assert!(matches!(
        s.export_openssh_private(),
        Err(SignerError::NoKey)
    ));
    assert!(matches!(s.public_openssh(), Err(SignerError::NoKey)));
    assert!(matches!(s.sign(b"x"), Err(SignerError::NoKey)));
}

#[test]
fn the_key_of_a_fixed_seed_is_the_standard_one() {
    // The first test vector of the ed25519 standard.
    let seed = [
        0x9d, 0x61, 0xb1, 0x9d, 0xef, 0xfd, 0x5a, 0x60, 0xba, 0x84, 0x4a, 0xf4, 0x92, 0xec, 0x2c,
        0xc4, 0x44, 0x49, 0xc5, 0x69, 0x7b, 0x32, 0x69, 0x19, 0x70, 0x3b, 0xac, 0x03, 0x1c, 0xae,
        0x7f, 0x60,
    ];
    let point = [
        0xd7, 0x5a, 0x98, 0x01, 0x82, 0xb1, 0x0a, 0xb7, 0xd5, 0x4b, 0xfe, 0xd3, 0xc9, 0x64, 0x07,
        0x3a, 0x0e, 0xe1, 0x72, 0xf3, 0xda, 0xa6, 0x23, 0x25, 0xaf, 0x02, 0x1a, 0x68, 0xf7, 0x07,
        0x51, 0x1a,
    ];
    let signature = [
        0xe5, 0x56, 0x43, 0x00, 0xc3, 0x60, 0xac, 0x72, 0x90, 0x86, 0xe2, 0xcc, 0x80, 0x6e, 0x82,
        0x8a, 0x84, 0x87, 0x7f, 0x1e, 0xb8, 0xe5, 0xd9, 0x74, 0xd8, 0x73, 0xe0, 0x65, 0x22, 0x49,
        0x01, 0x55, 0x5f, 0xb8, 0x82, 0x15, 0x90, 0xa3, 0x3b, 0xac, 0xc6, 0x1e, 0x39, 0x70, 0x1c,
        0xf9, 0xb4, 0x6b, 0xd2, 0x5b, 0xf5, 0xf0, 0x59, 0x5b, 0xbe, 0x24, 0x65, 0x51, 0x41, 0x43,
        0x8e, 0x7a, 0x10, 0x0b,
    ];
    let mut s = signer();
    let line = s.generate_from_seed(&seed).unwrap();
    assert!(line.ends_with(" botbox"), "got: {line}");
    assert_eq!(s.verifying_key().unwrap(), point.to_vec());
    assert_eq!(s.sign(b"").unwrap(), signature.to_vec());
    verify_openssh_ed25519(&line, b"", &signature).unwrap();

    // Another seed changes nothing once there is a key.
    assert_eq!(s.generate_from_seed(&[7; 32]).unwrap(), line);
    assert_eq!(s.generate().unwrap(), line);
    assert_eq!(s.verifying_key().unwrap(), point.to_vec());
}

#[test]
fn a_random_key_has_the_comment_and_exports_with_the_header() {
    let mut s = signer();
    assert!(s.generate().unwrap().ends_with(" botbox"));
    let exported = s.export_openssh_private().unwrap();
    assert!(exported.expose()[..5].iter().all(|b| *b == b'-'));
    assert_eq!(&exported.expose()[5..30], b"BEGIN OPENSSH PRIVATE KEY");
}

#[test]
fn two_random_keys_differ() {
    let (mut a, mut b) = (signer(), signer());
    assert_ne!(a.generate().unwrap(), b.generate().unwrap());
}

#[test]
fn a_signature_of_another_key_does_not_verify() {
    let (mut a, mut b) = (signer(), signer());
    let line = a.generate().unwrap();
    b.generate().unwrap();
    let e = verify_openssh_ed25519(&line, b"m", &b.sign(b"m").unwrap()).err().unwrap();
    assert!(matches!(e, SignerError::InvalidKey(_)));
}

#[test]
fn what_cannot_be_verified_is_refused_with_the_reason() {
    let mut s = signer();
    let line = s.generate().unwrap();
    let text = |r: Result<(), SignerError>| r.err().unwrap().to_string();
    assert_eq!(
        text(verify_openssh_ed25519(&line, b"m", &[0; 63])),
        "invalid stored key: signature error"
    );
    assert_eq!(
        text(verify_openssh_ed25519("garbage", b"m", &[0; 64])),
        "invalid stored key: length invalid"
    );
    // An encoding that is no curve point.
    let mut wire = b"\0\0\0\x0bssh-ed25519\0\0\0\x20".to_vec();
    wire.extend_from_slice(&[2; 32]);
    let off_curve = ssh_key::PublicKey::from_bytes(&wire).unwrap().to_openssh().unwrap();
    assert_eq!(
        text(verify_openssh_ed25519(&off_curve, b"m", &[0; 64])),
        "invalid stored key: cryptographic error"
    );
}

#[test]
fn stored_bytes_that_are_no_key_are_refused() {
    let mut store = MemoryKeyStore::new();
    store.store_if_absent(b"garbage").unwrap();
    let mut s = Ed25519Signer::new(Box::new(store));
    assert!(matches!(s.generate(), Err(SignerError::InvalidKey(_))));
    assert!(matches!(s.public_openssh(), Err(SignerError::InvalidKey(_))));
    assert!(matches!(s.sign(b"m"), Err(SignerError::InvalidKey(_))));
    assert!(matches!(s.export_openssh_private(), Err(SignerError::InvalidKey(_))));
    assert!(matches!(s.verifying_key(), Err(SignerError::InvalidKey(_))));
}

/// The line of the textbook RSA key with the primes 61 and 53.
const RSA_LINE: &str = "ssh-rsa AAAAB3NzaC1yc2EAAAABEQAAAAIMoQ== other";

/// The private-key file of the textbook RSA key.
fn rsa_file() -> String {
    let number = |bytes: &[u8]| Mpint::from_positive_bytes(bytes).unwrap();
    let pair = RsaKeypair {
        public: RsaPublicKey {
            e: number(&[17]),
            n: number(&[0x0c, 0xa1]),
        },
        private: RsaPrivateKey {
            d: number(&[0x0a, 0xc1]),
            iqmp: number(&[38]),
            p: number(&[61]),
            q: number(&[53]),
        },
    };
    let key = PrivateKey::new(KeypairData::Rsa(pair), "other").unwrap();
    key.to_openssh(LineEnding::LF).unwrap().to_string()
}

/// The public line of the key in [`locked_file`].
const LOCKED_LINE: &str = "ssh-ed25519 AAAAC3NzaC1lZDI1NTE5AAAAIGTynANDXkxxvuktqF3yEu1VwIwSrGxKY8yogGy+dCX/";

/// `bytes` behind their length.
fn prefixed(bytes: &[u8]) -> Vec<u8> {
    let mut v = (bytes.len() as u32).to_be_bytes().to_vec();
    v.extend_from_slice(bytes);
    v
}

/// A private-key file under a passphrase: its public half can be read, and what stands for
/// the private half is all zeros.
fn locked_file() -> String {
    let public = PublicKey::from_openssh(LOCKED_LINE).unwrap();
    let mut options = prefixed(&[0; 16]);
    options.extend_from_slice(&16u32.to_be_bytes());
    let mut v = b"openssh-key-v1\0".to_vec();
    v.extend(prefixed(b"aes256-ctr"));
    v.extend(prefixed(b"bcrypt"));
    v.extend(prefixed(&options));
    v.extend_from_slice(&1u32.to_be_bytes());
    v.extend(prefixed(&public.to_bytes().unwrap()));
    v.extend(prefixed(&[0; 144]));
    let key = PrivateKey::from_bytes(&v).unwrap();
    assert!(key.is_encrypted());
    key.to_openssh(LineEnding::LF).unwrap().to_string()
}

fn signer_over(file: &str) -> Ed25519Signer<MemoryKeyStore, MemoryPublicKeyCache> {
    let mut store = MemoryKeyStore::new();
    store.store_if_absent(file.as_bytes()).unwrap();
    Ed25519Signer::new(Box::new(store))
}

#[test]
fn a_stored_key_of_another_kind_cannot_sign() {
    let file = rsa_file();
    let mut s = signer_over(&file);
    let text = "invalid stored key: stored key is not ed25519";
    assert_eq!(s.sign(b"m").err().unwrap().to_string(), text);
    assert_eq!(s.verifying_key().err().unwrap().to_string(), text);
    assert_eq!(s.public_openssh().unwrap(), RSA_LINE);
    assert_eq!(s.generate().unwrap(), RSA_LINE);
    assert_eq!(s.export_openssh_private().unwrap().expose(), file.as_bytes());
    assert_eq!(
        verify_openssh_ed25519(RSA_LINE, b"m", &[0; 64]).err().unwrap().to_string(),
        "invalid stored key: not an ed25519 public key"
    );
}

#[test]
fn an_encrypted_key_has_a_public_half_only() {
    let mut s = signer_over(&locked_file());
    assert_eq!(
        s.sign(b"m").err().unwrap().to_string(),
        "invalid stored key: stored key is not ed25519"
    );
    assert_eq!(s.public_openssh().unwrap(), LOCKED_LINE);
    assert_eq!(s.verifying_key().unwrap().len(), 32);
}

/// A key store that is locked.
struct LockedStore;

impl KeyStore for LockedStore {
    fn stored(&self) -> Option<Bytes> {
        unreachable!("no value at run time")
    }
    fn failure(&self, _e: KeyStoreErrorView) -> bool {
        unreachable!("no value at run time")
    }
    fn load(&self) -> Result<Vec<u8>, KeyStoreError> {
        Err(KeyStoreError::Backend("locked".to_string()))
    }
    fn store_if_absent(&mut self, _bytes: &[u8]) -> Result<bool, KeyStoreError> {
        Err(KeyStoreError::Backend("locked".to_string()))
    }
}

#[test]
fn a_locked_store_is_a_store_failure() {
    let mut s = Ed25519Signer::new(Box::new(LockedStore));
    let text = "key store error: key store backend error: locked";
    assert_eq!(s.generate().err().unwrap().to_string(), text);
    assert_eq!(s.public_openssh().err().unwrap().to_string(), text);
    assert_eq!(s.sign(b"m").err().unwrap().to_string(), text);
    assert_eq!(s.export_openssh_private().err().unwrap().to_string(), text);
}

#[test]
fn signer_errors_read_as_documented() {
    assert_eq!(SSH_ED25519, "ssh-ed25519");
    assert_eq!(
        SignerError::InvalidKey("bad".to_string()).to_string(),
        "invalid stored key: bad"
    );
    assert_eq!(
        SignerError::Encode("bad".to_string()).to_string(),
        "key encoding error: bad"
    );
    assert!(matches!(SignerError::from(KeyStoreError::NotFound), SignerError::NoKey));
    assert!(matches!(
        SignerError::from(KeyStoreError::Backend("x".to_string())),
        SignerError::Store(KeyStoreError::Backend(m)) if m == "x"
    ));
}

#[test]
fn secret_bytes_are_exposed_on_demand_only() {
    let secret = SecretBytes::new(vec![1, 2, 3]);
    assert_eq!(secret.expose(), &[1, 2, 3]);
}
