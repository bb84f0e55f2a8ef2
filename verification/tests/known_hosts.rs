use botbox::files::FileRead;
use botbox::ssh::keys::PublicKey;
use botbox::ssh::known_hosts::{
    decide_in, known_hosts_from_file, sha256_fingerprint, HostKeyDecider, HostKeyDecision, HostMap,
    KnownHosts, KnownHostsDoc, KnownHostsError, KnownHostsErrorView, KnownHostsStore,
    MemoryKnownHostsStore, KNOWN_HOSTS_FILE, UNREADABLE_KEY,
};
use rand_core::OsRng;
use ssh_key::private::{Ed25519Keypair, KeypairData, PrivateKey};
use ssh_key::LineEnding;

/// A fixed key with a known fingerprint.
const LINE: &str = "ssh-ed25519 AAAAC3NzaC1lZDI1NTE5AAAAILM+rvN+ot98qgEN796jTiQfZfG1KaT0PtFDJ/XFSqti user@example.com";

/// Generate a throwaway ed25519 public key for tests (distinct each call).
fn random_pubkey() -> PublicKey {
    let kp = Ed25519Keypair::random(&mut OsRng);
    let private = PrivateKey::new(KeypairData::Ed25519(kp), "test").unwrap();
    // Round-trip through OpenSSH to mirror how a real host key would be parsed.
    let openssh = private.public_key().to_openssh().unwrap();
    let _ = private.to_openssh(LineEnding::LF).unwrap();
    PublicKey::from_openssh(&openssh).unwrap()
}

#[test]
fn unknown_host_yields_prompt_with_sha256_fingerprint() {
    let kh = KnownHosts::new(MemoryKnownHostsStore::new());
    let key = random_pubkey();

    let decision = kh.decide("10.0.0.5", &key).unwrap();
    match decision {
        HostKeyDecision::Unknown { fingerprint } => {
            assert!(
                fingerprint.starts_with("SHA256:"),
                "fingerprint is OpenSSH SHA-256 form, got {fingerprint}"
            );
            assert_eq!(fingerprint, sha256_fingerprint(&key));
        }
        other => panic!("expected Unknown, got {other:?}"),
    }
}

#[test]
fn trust_persists_and_subsequent_decide_is_known() {
    let mut kh = KnownHosts::new(MemoryKnownHostsStore::new());
    let key = random_pubkey();

    // First contact: unknown.
    assert!(matches!(
        kh.decide("host-a", &key).unwrap(),
        HostKeyDecision::Unknown { .. }
    ));

    // Operator accepts: persist.
    kh.trust("host-a", &key).unwrap();
    assert!(kh.saved("host-a").unwrap().is_some());

    // Same key now reads as Known.
    assert_eq!(kh.decide("host-a", &key).unwrap(), HostKeyDecision::Known);
}

#[test]
fn known_host_with_changed_key_is_a_mismatch_hard_stop() {
    let mut kh = KnownHosts::new(MemoryKnownHostsStore::new());
    let original = random_pubkey();
    let imposter = random_pubkey();

    kh.trust("host-b", &original).unwrap();

    // A different key for a trusted host is a mismatch carrying both fingerprints.
    match kh.decide("host-b", &imposter).unwrap() {
        HostKeyDecision::Mismatch {
            saved_fingerprint,
            presented_fingerprint,
        } => {
            assert_eq!(saved_fingerprint, sha256_fingerprint(&original));
            assert_eq!(presented_fingerprint, sha256_fingerprint(&imposter));
            assert_ne!(saved_fingerprint, presented_fingerprint);
        }
        other => panic!("expected Mismatch, got {other:?}"),
    }
}

#[test]
fn trust_does_not_silently_replace_on_mismatch_until_removed() {
    let mut kh = KnownHosts::new(MemoryKnownHostsStore::new());
    let original = random_pubkey();
    let rotated = random_pubkey();

    kh.trust("host-c", &original).unwrap();
    assert!(matches!(
        kh.decide("host-c", &rotated).unwrap(),
        HostKeyDecision::Mismatch { .. }
    ));

    // Without removal, the saved key is still the original (never silently bumped).
    assert_eq!(
        kh.saved("host-c").unwrap().unwrap(),
        original.to_openssh().unwrap()
    );

    // Explicit recovery: remove, then the host is promptable again.
    kh.remove("host-c").unwrap();
    assert!(matches!(
        kh.decide("host-c", &rotated).unwrap(),
        HostKeyDecision::Unknown { .. }
    ));

    // And re-trusting the rotated key now sticks.
    kh.trust("host-c", &rotated).unwrap();
    assert_eq!(kh.decide("host-c", &rotated).unwrap(), HostKeyDecision::Known);
}

#[test]
fn remove_absent_host_is_a_noop() {
    let mut kh = KnownHosts::new(MemoryKnownHostsStore::new());
    kh.remove("never-seen").unwrap(); // does not error
}

#[test]
fn distinct_hosts_are_independent() {
    let mut kh = KnownHosts::new(MemoryKnownHostsStore::new());
    let key_a = random_pubkey();
    let key_b = random_pubkey();
    kh.trust("a", &key_a).unwrap();
    kh.trust("b", &key_b).unwrap();

    assert_eq!(kh.decide("a", &key_a).unwrap(), HostKeyDecision::Known);
    assert_eq!(kh.decide("b", &key_b).unwrap(), HostKeyDecision::Known);
    // a's key presented for b is a mismatch.
    assert!(matches!(
        kh.decide("b", &key_a).unwrap(),
        HostKeyDecision::Mismatch { .. }
    ));
}

#[test]
fn the_fingerprint_of_a_fixed_key_is_the_openssh_one() {
    let key = PublicKey::from_openssh(LINE).unwrap();
    assert_eq!(
        sha256_fingerprint(&key),
        "SHA256:UCUiLr7Pjs9wFFJMDByLgc3NrtdU344OgUM45wZPcIQ"
    );
}

#[test]
fn a_line_is_read_and_written_back() {
    let key = PublicKey::from_openssh(LINE).unwrap();
    assert_eq!(key.to_openssh().unwrap(), LINE);
    let bare = LINE.rsplit_once(' ').unwrap().0;
    let same = PublicKey::from_openssh(&format!("{bare}\n")).unwrap();
    assert_eq!(same.to_openssh().unwrap(), bare);
    assert!(key.same_key(&same));
    assert_eq!(key.ed25519_point().unwrap().len(), 32);
    assert_eq!(key.ed25519_point(), same.ed25519_point());
}

#[test]
fn text_that_is_no_key_is_refused_with_the_reason() {
    assert_eq!(
        PublicKey::from_openssh("not a key").err().unwrap(),
        "Base64 encoding error: invalid Base64 encoding"
    );
}

#[test]
fn a_key_with_another_comment_is_still_known() {
    let mut kh = KnownHosts::new(MemoryKnownHostsStore::new());
    kh.trust("h", &PublicKey::from_openssh(LINE).unwrap()).unwrap();
    let bare = LINE.rsplit_once(' ').unwrap().0;
    let presented = PublicKey::from_openssh(&format!("{bare} someone else")).unwrap();
    assert_eq!(kh.decide("h", &presented).unwrap(), HostKeyDecision::Known);
}

#[test]
fn a_saved_line_that_no_longer_reads_is_a_mismatch() {
    let mut doc = KnownHostsDoc::new();
    doc.insert("h", "garbage");
    let presented = PublicKey::from_openssh(LINE).unwrap();
    assert_eq!(
        decide_in(&doc, "h", &presented),
        HostKeyDecision::Mismatch {
            saved_fingerprint: UNREADABLE_KEY.to_string(),
            presented_fingerprint: sha256_fingerprint(&presented),
        }
    );
    let mut store = MemoryKnownHostsStore::new();
    store.save(&doc).unwrap();
    let kh = KnownHosts::new(store);
    assert!(matches!(
        kh.decide("h", &presented).unwrap(),
        HostKeyDecision::Mismatch { .. }
    ));
    assert!(matches!(
        kh.decide("other", &presented).unwrap(),
        HostKeyDecision::Unknown { .. }
    ));
}

#[test]
fn the_document_is_a_map_in_host_order() {
    let mut doc = KnownHostsDoc::new();
    for (host, line) in [("b", "2"), ("a", "1"), ("c", "3"), ("aa", "1b"), ("b", "2b")] {
        doc.insert(host, line);
    }
    let hosts: Vec<&str> = (0..doc.len()).map(|i| doc.entry(i).host.as_str()).collect();
    assert_eq!(hosts, vec!["a", "aa", "b", "c"]);
    assert_eq!(doc.get("b").as_deref(), Some("2b"));
    assert_eq!(doc.get("bb"), None);

    // The same map, built in another order, is the same document.
    let mut other = KnownHostsDoc::default();
    for (host, line) in [("c", "3"), ("b", "2b"), ("aa", "1b"), ("a", "1")] {
        other.insert(host, line);
    }
    assert_eq!(doc, other);
    assert_eq!(doc.clone(), doc);

    assert!(doc.remove("aa"));
    assert!(!doc.remove("aa"));
    assert_eq!(doc.len(), 3);
    assert_eq!(doc.get("aa"), None);
    assert_eq!(doc.get("a").as_deref(), Some("1"));
}

#[test]
fn the_decider_takes_keys_as_lines() {
    let mut kh = KnownHosts::new(MemoryKnownHostsStore::new());
    assert!(matches!(
        kh.decide_openssh("h", LINE).unwrap(),
        HostKeyDecision::Unknown { fingerprint }
            if fingerprint == "SHA256:UCUiLr7Pjs9wFFJMDByLgc3NrtdU344OgUM45wZPcIQ"
    ));
    kh.trust_openssh("h", LINE).unwrap();
    assert_eq!(kh.decide_openssh("h", LINE).unwrap(), HostKeyDecision::Known);
    assert_eq!(kh.saved("h").unwrap().as_deref(), Some(LINE));

    match kh.decide_openssh("h", "garbage") {
        Err(e) => assert_eq!(e.to_string(), "invalid host key: length invalid"),
        Ok(d) => panic!("expected an error, got {d:?}"),
    }
    match kh.trust_openssh("h", "garbage") {
        Err(KnownHostsError::InvalidKey(m)) => assert_eq!(m, "length invalid"),
        other => panic!("expected InvalidKey, got {other:?}"),
    }
    assert_eq!(kh.saved("h").unwrap().as_deref(), Some(LINE));
}

/// A store whose file cannot be read or written.
struct BrokenStore;

impl KnownHostsStore for BrokenStore {
    fn hosts(&self) -> HostMap {
        unreachable!("no value at run time")
    }
    fn load_error(&self, _e: KnownHostsErrorView) -> bool {
        unreachable!("no value at run time")
    }
    fn save_error(&self, _e: KnownHostsErrorView) -> bool {
        unreachable!("no value at run time")
    }
    fn load(&self) -> Result<KnownHostsDoc, KnownHostsError> {
        Err(KnownHostsError::Backend("disk on fire".to_string()))
    }
    fn save(&mut self, _doc: &KnownHostsDoc) -> Result<(), KnownHostsError> {
        Err(KnownHostsError::Backend("disk on fire".to_string()))
    }
}

#[test]
fn store_failures_come_through() {
    let mut kh = KnownHosts::new(BrokenStore);
    let key = PublicKey::from_openssh(LINE).unwrap();
    let text = "known-hosts store error: disk on fire";
    assert_eq!(kh.decide("h", &key).err().unwrap().to_string(), text);
    assert_eq!(kh.trust("h", &key).err().unwrap().to_string(), text);
    assert_eq!(kh.remove("h").err().unwrap().to_string(), text);
    assert_eq!(kh.saved("h").err().unwrap().to_string(), text);
}

#[test]
fn a_missing_known_hosts_file_is_an_empty_document() {
    assert_eq!(KNOWN_HOSTS_FILE, "known_hosts.json");
    let doc = known_hosts_from_file("/d/known_hosts.json", FileRead::Missing).unwrap();
    assert_eq!(doc.len(), 0);
    let mut parsed = KnownHostsDoc::new();
    parsed.insert("h", LINE);
    let doc = known_hosts_from_file("/d/known_hosts.json", FileRead::Parsed(parsed)).unwrap();
    assert_eq!(doc.get("h").as_deref(), Some(LINE));
    let e = known_hosts_from_file("/d/k.json", FileRead::Unparsable("EOF".to_string()))
        .err()
        .unwrap();
    assert_eq!(e.to_string(), "known-hosts store error: parse /d/k.json: EOF");
    let e = known_hosts_from_file("/d/k.json", FileRead::Unreadable("denied".to_string()))
        .err()
        .unwrap();
    assert_eq!(e.to_string(), "known-hosts store error: read /d/k.json: denied");
}
