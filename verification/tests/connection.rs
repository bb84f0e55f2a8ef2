use botbox::keychain::{MemoryKeyStore, MemoryPublicKeyCache};
use botbox::ssh::auth::{append_signature, check_offered_key, sign_request, SignerAuthError};
use botbox::ssh::connection::{
    classify_handshake_failure, host_part, ConnectAttempt, ConnectConfig, ConnectPhase,
    ConnectProgress, ConnectionEvent, ConnectionManager, LossWatch, WatchStep,
    DEFAULT_HOST_KEY_PROMPT_TIMEOUT_MS, DEFAULT_KEEPALIVE_INTERVAL_MS, DEFAULT_KEEPALIVE_MAX,
    DEFAULT_TCP_CONNECT_TIMEOUT_MS, LOSS_POLL_MS,
};
use botbox::ssh::host_check::{
    begin_host_key_check, check_decided, finish_host_key_check, CheckStep, HostKeyOutcome,
    PendingCheck, PromptReply, TrustResponse,
};
use botbox::ssh::known_hosts::{
    HostKeyDecider, HostKeyDecision, HostMap, KnownHosts, KnownHostsDoc, KnownHostsError,
    KnownHostsErrorView, KnownHostsStore, MemoryKnownHostsStore,
};
use botbox::ssh::pipeline::{ConnectError, ConnectErrorKind, ConnectStage};
use botbox::ssh::signer::{Ed25519Signer, Signer, SignerError, SignerErrorView};
use botbox::ssh::wire::Bytes;
use botbox::text::Text;

const LINE: &str = "ssh-ed25519 AAAAC3NzaC1lZDI1NTE5AAAAILM+rvN+ot98qgEN796jTiQfZfG1KaT0PtFDJ/XFSqti user@example.com";
const FINGERPRINT: &str = "SHA256:UCUiLr7Pjs9wFFJMDByLgc3NrtdU344OgUM45wZPcIQ";
const OTHER_LINE: &str =
    "ssh-ed25519 AAAAC3NzaC1lZDI1NTE5AAAAIGTynANDXkxxvuktqF3yEu1VwIwSrGxKY8yogGy+dCX/";

fn empty_known_hosts() -> KnownHosts<MemoryKnownHostsStore> {
    KnownHosts::new(MemoryKnownHostsStore::new())
}

fn signer() -> Ed25519Signer<MemoryKeyStore, MemoryPublicKeyCache> {
    let mut s = Ed25519Signer::new(Box::new(MemoryKeyStore::new()));
    s.generate().unwrap();
    s
}

#[test]
fn host_parts_of_addresses() {
    for (addr, host) in [
        ("203.0.113.7:22", "203.0.113.7"),
        ("example.com:2222", "example.com"),
        ("example.com", "example.com"),
        ("[2001:db8::1]:22", "2001:db8::1"),
        ("[2001:db8::1]", "2001:db8::1"),
        ("2001:db8::1", "2001:db8:"),
        ("[2001:db8::1", "[2001:db8:"),
        ("[]", ""),
        ("[", "["),
        (":22", ""),
        ("", ""),
        ("h\u{f6}st:1", "h\u{f6}st"),
    ] {
        assert_eq!(host_part(addr), host, "{addr}");
    }
}

#[test]
fn settings_have_the_documented_defaults() {
    let cfg = ConnectConfig::for_user("tester");
    assert_eq!(cfg.username, "tester");
    assert_eq!(cfg.tcp_connect_timeout_ms, 10_000);
    assert_eq!(cfg.host_key_prompt_timeout_ms, 60_000);
    assert_eq!(cfg.keepalive_interval_ms, 15_000);
    assert_eq!(cfg.keepalive_max, 3);
    assert_eq!(DEFAULT_TCP_CONNECT_TIMEOUT_MS, 10_000);
    assert_eq!(DEFAULT_HOST_KEY_PROMPT_TIMEOUT_MS, 60_000);
    assert_eq!(DEFAULT_KEEPALIVE_INTERVAL_MS, 15_000);
    assert_eq!(DEFAULT_KEEPALIVE_MAX, 3);
    assert_eq!(LOSS_POLL_MS, 100);
    let short = cfg.clone().with_short_timeouts();
    assert_eq!(short.tcp_connect_timeout_ms, 500);
    assert_eq!(short.host_key_prompt_timeout_ms, 100);
    assert_eq!(short.keepalive_interval_ms, cfg.keepalive_interval_ms);
    assert_eq!(short.username, "tester");
}

fn ask(kh: &KnownHosts<MemoryKnownHostsStore>, line: &str) -> PendingCheck {
    match begin_host_key_check(kh, "10.0.0.5", Ok(line.to_string())) {
        CheckStep::Ask(prompt, check) => {
            assert_eq!(prompt.host, "10.0.0.5");
            assert!(prompt.fingerprint.starts_with("SHA256:"));
            check
        }
        CheckStep::Done(outcome) => panic!("expected a prompt, got {outcome:?}"),
    }
}

fn done(step: CheckStep) -> HostKeyOutcome {
    match step {
        CheckStep::Done(outcome) => outcome,
        CheckStep::Ask(prompt, _) => panic!("expected an outcome, got {prompt:?}"),
    }
}

#[test]
fn trusting_on_first_contact_saves_the_key() {
    let mut kh = empty_known_hosts();
    let check = ask(&kh, LINE);
    let trust = PromptReply::Answered(TrustResponse::Trust);
    let outcome = finish_host_key_check(&mut kh, check, trust);
    assert_eq!(outcome, HostKeyOutcome::Trusted);
    assert!(outcome.accepted());
    assert_eq!(kh.saved("10.0.0.5").unwrap().as_deref(), Some(LINE));
    let again = done(begin_host_key_check(&kh, "10.0.0.5", Ok(LINE.to_string())));
    assert_eq!(again, HostKeyOutcome::Known);
    assert!(again.accepted());
}

#[test]
fn every_other_reply_refuses_and_saves_nothing() {
    for (reply, expected) in [
        (
            PromptReply::Answered(TrustResponse::Reject),
            HostKeyOutcome::PromptRejected,
        ),
        (PromptReply::Dropped, HostKeyOutcome::PromptRejected),
        (PromptReply::Undelivered, HostKeyOutcome::PromptRejected),
        (PromptReply::TimedOut, HostKeyOutcome::PromptTimedOut),
    ] {
        let mut kh = empty_known_hosts();
        let check = ask(&kh, LINE);
        let outcome = finish_host_key_check(&mut kh, check, reply);
        assert_eq!(outcome, expected);
        assert!(!outcome.accepted());
        assert_eq!(kh.saved("10.0.0.5").unwrap(), None);
    }
}

#[test]
fn a_changed_key_stops_the_check_until_it_is_removed() {
    let mut kh = empty_known_hosts();
    kh.trust_openssh("10.0.0.5", LINE).unwrap();
    let outcome = done(begin_host_key_check(&kh, "10.0.0.5", Ok(OTHER_LINE.to_string())));
    assert!(!outcome.accepted());
    match &outcome {
        HostKeyOutcome::Mismatch {
            saved_fingerprint,
            presented_fingerprint,
        } => {
            assert_eq!(saved_fingerprint, FINGERPRINT);
            assert_ne!(presented_fingerprint, FINGERPRINT);
        }
        other => panic!("expected Mismatch, got {other:?}"),
    }
    assert_eq!(kh.saved("10.0.0.5").unwrap().as_deref(), Some(LINE));
    kh.remove("10.0.0.5").unwrap();
    let check = ask(&kh, OTHER_LINE);
    let trust = PromptReply::Answered(TrustResponse::Trust);
    assert_eq!(
        finish_host_key_check(&mut kh, check, trust),
        HostKeyOutcome::Trusted
    );
}

#[test]
fn a_key_that_cannot_be_encoded_or_read_is_refused() {
    let kh = empty_known_hosts();
    let outcome = done(begin_host_key_check(&kh, "h", Err("no such algorithm".to_string())));
    assert_eq!(
        outcome,
        HostKeyOutcome::StoreError(
            "could not encode presented host key: no such algorithm".to_string()
        )
    );
    assert!(!outcome.accepted());
    let outcome = done(begin_host_key_check(&kh, "h", Ok("garbage".to_string())));
    assert_eq!(
        outcome,
        HostKeyOutcome::StoreError("invalid host key: length invalid".to_string())
    );
}

/// A store that can be read but not written.
struct ReadOnlyHosts;

impl KnownHostsStore for ReadOnlyHosts {
    fn hosts(&self) -> HostMap {
        unreachable!("no value at run time")
    }
    fn load_error(&self, _e: KnownHostsErrorView) -> bool {
        unreachable!("no value at run time")
    }
    fn save_error(&self, _e: KnownHostsErrorView) -> bool {
        unreachable!("no value at run time")
    }
    fn load(&self) -> Result<KnownHostsDoc, KnownHostsError> {
        Ok(KnownHostsDoc::new())
    }
    fn save(&mut self, _doc: &KnownHostsDoc) -> Result<(), KnownHostsError> {
        Err(KnownHostsError::Backend("read-only".to_string()))
    }
}

#[test]
fn a_key_that_cannot_be_saved_is_not_accepted() {
    let mut kh = KnownHosts::new(ReadOnlyHosts);
    match begin_host_key_check(&kh, "h", Ok(LINE.to_string())) {
        CheckStep::Ask(_, check) => {
            let trust = PromptReply::Answered(TrustResponse::Trust);
            let outcome = finish_host_key_check(&mut kh, check, trust);
            assert_eq!(
                outcome,
                HostKeyOutcome::StoreError("known-hosts store error: read-only".to_string())
            );
            assert!(!outcome.accepted());
        }
        CheckStep::Done(outcome) => panic!("expected a prompt, got {outcome:?}"),
    }
}

#[test]
fn decisions_lead_to_steps() {
    assert_eq!(
        done(check_decided("h", LINE, Ok(HostKeyDecision::Known))),
        HostKeyOutcome::Known
    );
    let mismatch = HostKeyDecision::Mismatch {
        saved_fingerprint: "SHA256:a".to_string(),
        presented_fingerprint: "SHA256:b".to_string(),
    };
    assert_eq!(
        done(check_decided("h", LINE, Ok(mismatch))),
        HostKeyOutcome::Mismatch {
            saved_fingerprint: "SHA256:a".to_string(),
            presented_fingerprint: "SHA256:b".to_string(),
        }
    );
    let broken = Err(KnownHostsError::Backend("locked".to_string()));
    assert_eq!(
        done(check_decided("h", LINE, broken)),
        HostKeyOutcome::StoreError("known-hosts store error: locked".to_string())
    );
    let unknown = HostKeyDecision::Unknown {
        fingerprint: FINGERPRINT.to_string(),
    };
    match check_decided("h", LINE, Ok(unknown)) {
        CheckStep::Ask(prompt, _) => {
            assert_eq!(prompt.host, "h");
            assert_eq!(prompt.fingerprint, FINGERPRINT);
        }
        CheckStep::Done(outcome) => panic!("expected a prompt, got {outcome:?}"),
    }
}

fn parts(e: ConnectError) -> (ConnectErrorKind, ConnectStage, String) {
    (e.kind, e.stage, e.message)
}

#[test]
fn handshake_failures_are_classified_by_their_check() {
    let mismatch = HostKeyOutcome::Mismatch {
        saved_fingerprint: "SHA256:a".to_string(),
        presented_fingerprint: "SHA256:b".to_string(),
    };
    for (outcome, kind, stage, message) in [
        (
            Some(mismatch),
            ConnectErrorKind::HostKeyMismatch,
            ConnectStage::HostKeyCheck,
            "host key changed: saved SHA256:a, presented SHA256:b",
        ),
        (
            Some(HostKeyOutcome::PromptRejected),
            ConnectErrorKind::UntrustedHostKey,
            ConnectStage::HostKeyCheck,
            "host key trust prompt was rejected",
        ),
        (
            Some(HostKeyOutcome::PromptTimedOut),
            ConnectErrorKind::UntrustedHostKey,
            ConnectStage::HostKeyCheck,
            "host key trust prompt timed out",
        ),
        (
            Some(HostKeyOutcome::StoreError("x".to_string())),
            ConnectErrorKind::UntrustedHostKey,
            ConnectStage::HostKeyCheck,
            "known-hosts store error during host-key check: x",
        ),
        (
            Some(HostKeyOutcome::Known),
            ConnectErrorKind::Unreachable,
            ConnectStage::TcpConnect,
            "handshake failed: kex",
        ),
        (
            Some(HostKeyOutcome::Trusted),
            ConnectErrorKind::Unreachable,
            ConnectStage::TcpConnect,
            "handshake failed: kex",
        ),
        (
            None,
            ConnectErrorKind::Unreachable,
            ConnectStage::TcpConnect,
            "handshake failed: kex",
        ),
    ] {
        let e = classify_handshake_failure(outcome, "kex");
        assert_eq!(parts(e), (kind, stage, message.to_string()));
    }
}

/// An attempt in the given phase.
fn attempt_at(phase: ConnectPhase) -> ConnectAttempt {
    let mut attempt = ConnectAttempt::new("203.0.113.7:22");
    let steps = [
        (ConnectPhase::Connecting, ConnectProgress::SocketOpened),
        (ConnectPhase::Handshaking, ConnectProgress::HandshakeDone),
        (ConnectPhase::ReadingKey, ConnectProgress::KeyRead(LINE.to_string())),
        (ConnectPhase::Authenticating, ConnectProgress::Accepted),
    ];
    for (at, progress) in steps {
        if attempt.phase() == phase {
            break;
        }
        assert_eq!(attempt.phase(), at);
        attempt.advance(progress).unwrap();
    }
    assert_eq!(attempt.phase(), phase);
    attempt
}

#[test]
fn an_attempt_goes_live_stage_by_stage() {
    let mut attempt = ConnectAttempt::new("203.0.113.7:22");
    assert_eq!(attempt.host_name(), "203.0.113.7");
    assert_eq!(attempt.phase(), ConnectPhase::Connecting);
    assert_eq!(
        attempt.advance(ConnectProgress::SocketOpened).unwrap(),
        ConnectPhase::Handshaking
    );
    assert_eq!(
        attempt.advance(ConnectProgress::HandshakeDone).unwrap(),
        ConnectPhase::ReadingKey
    );
    assert_eq!(
        attempt.advance(ConnectProgress::KeyRead(LINE.to_string())).unwrap(),
        ConnectPhase::Authenticating
    );
    assert_eq!(
        attempt.advance(ConnectProgress::Accepted).unwrap(),
        ConnectPhase::Live
    );
}

#[test]
fn every_failure_of_an_attempt_is_tagged() {
    let unreachable = (ConnectErrorKind::Unreachable, ConnectStage::TcpConnect);
    let signer_failed = (ConnectErrorKind::LocalSignerFailure, ConnectStage::Authenticate);
    let remote = (ConnectErrorKind::RemoteAuthFailure, ConnectStage::Authenticate);
    let cases = [
        (
            ConnectPhase::Connecting,
            ConnectProgress::SocketFailed("Connection refused (os error 111)".to_string()),
            unreachable,
            "TCP connect to 203.0.113.7:22 failed: Connection refused (os error 111)",
        ),
        (
            ConnectPhase::Connecting,
            ConnectProgress::SocketTimedOut,
            unreachable,
            "TCP connect to 203.0.113.7:22 timed out",
        ),
        (
            ConnectPhase::Handshaking,
            ConnectProgress::HandshakeFailed(None, "Disconnected".to_string()),
            unreachable,
            "handshake failed: Disconnected",
        ),
        (
            ConnectPhase::Handshaking,
            ConnectProgress::HandshakeFailed(
                Some(HostKeyOutcome::PromptTimedOut),
                "Unknown server key".to_string(),
            ),
            (ConnectErrorKind::UntrustedHostKey, ConnectStage::HostKeyCheck),
            "host key trust prompt timed out",
        ),
        (
            ConnectPhase::ReadingKey,
            ConnectProgress::KeyFailed(SignerError::NoKey),
            signer_failed,
            "could not read public key from signer: no signing key provisioned",
        ),
        (
            ConnectPhase::ReadingKey,
            ConnectProgress::KeyRead("garbage".to_string()),
            signer_failed,
            "signer public key did not parse: length invalid",
        ),
        (
            ConnectPhase::Authenticating,
            ConnectProgress::Rejected,
            remote,
            "server rejected the public key",
        ),
        (
            ConnectPhase::Authenticating,
            ConnectProgress::SigningFailed(SignerAuthError::LocalSigner("locked".to_string())),
            signer_failed,
            "local signer could not sign: locked",
        ),
        (
            ConnectPhase::Authenticating,
            ConnectProgress::SigningFailed(SignerAuthError::Encode("length invalid".to_string())),
            signer_failed,
            "signature encoding failed: length invalid",
        ),
        (
            ConnectPhase::Authenticating,
            ConnectProgress::SigningFailed(SignerAuthError::Send),
            remote,
            "transport closed during auth",
        ),
    ];
    for (phase, progress, (kind, stage), message) in cases {
        let mut attempt = attempt_at(phase);
        let e = attempt.advance(progress).err().unwrap();
        assert_eq!(parts(e), (kind, stage, message.to_string()));
        assert_eq!(attempt.phase(), ConnectPhase::Failed);
    }
}

#[test]
fn a_request_is_signed_and_framed() {
    let mut s = signer();
    let line = s.public_openssh().unwrap();
    let request = b"session-and-request".to_vec();
    let signed = sign_request(&s, request.clone()).unwrap();
    assert_eq!(signed.len(), request.len() + 87);
    assert_eq!(&signed[..request.len()], &request[..]);
    let frame = &signed[request.len()..];
    assert_eq!(&frame[..4], &[0, 0, 0, 83]);
    assert_eq!(&frame[4..19], b"\0\0\0\x0bssh-ed25519");
    assert_eq!(&frame[19..23], &[0, 0, 0, 64]);
    botbox::ssh::signer::verify_openssh_ed25519(&line, &request, &frame[23..]).unwrap();
}

#[test]
fn a_signature_of_the_wrong_length_cannot_be_framed() {
    assert!(append_signature(vec![1], "ssh-ed25519", vec![7; 64]).is_ok());
    match append_signature(vec![1], "ssh-ed25519", vec![7; 63]) {
        Err(e) => assert_eq!(e.to_string(), "signature encoding failure: length invalid"),
        Ok(v) => panic!("expected an error, got {v:?}"),
    }
}

/// A signer of another algorithm, which answers every message with the same bytes.
struct RsaSigner;

impl Signer for RsaSigner {
    fn algorithm_id(&self) -> Text {
        unreachable!("no value at run time")
    }
    fn publishes(&self, _line: Text) -> bool {
        unreachable!("no value at run time")
    }
    fn signs(&self, _message: Bytes, _signature: Bytes) -> bool {
        unreachable!("no value at run time")
    }
    fn fails(&self, _e: SignerErrorView) -> bool {
        unreachable!("no value at run time")
    }
    fn algorithm(&self) -> &'static str {
        "rsa-sha2-256"
    }
    fn public_openssh(&mut self) -> Result<String, SignerError> {
        Ok(LINE.to_string())
    }
    fn sign(&self, _message: &[u8]) -> Result<Vec<u8>, SignerError> {
        Ok(vec![9, 8, 7])
    }
}

#[test]
fn the_signer_names_the_algorithm_of_the_signature() {
    let signed = sign_request(&RsaSigner, vec![1, 2]).unwrap();
    let mut expected = vec![1, 2, 0, 0, 0, 23, 0, 0, 0, 12];
    expected.extend_from_slice(b"rsa-sha2-256");
    expected.extend_from_slice(&[0, 0, 0, 3, 9, 8, 7]);
    assert_eq!(signed, expected);
}

#[test]
fn the_signature_of_a_security_key_ends_with_its_trailer() {
    let mut raw = vec![7; 64];
    raw.extend_from_slice(&[1, 0, 0, 0, 9]);
    let signed = append_signature(vec![1], "sk-ssh-ed25519@openssh.com", raw).unwrap();
    let mut expected = vec![1, 0, 0, 0, 103, 0, 0, 0, 26];
    expected.extend_from_slice(b"sk-ssh-ed25519@openssh.com");
    expected.extend_from_slice(&[0, 0, 0, 64]);
    expected.extend_from_slice(&[7; 64]);
    expected.extend_from_slice(&[1, 0, 0, 0, 9]);
    assert_eq!(signed, expected);
    match append_signature(vec![1], "sk-ssh-ed25519@openssh.com", vec![7; 64]) {
        Err(e) => assert_eq!(e.to_string(), "signature encoding failure: length invalid"),
        Ok(v) => panic!("expected an error, got {v:?}"),
    }
}

#[test]
fn a_signature_of_no_algorithm_cannot_be_framed() {
    match append_signature(vec![1], "", vec![7; 64]) {
        Err(SignerAuthError::Encode(_)) => {}
        other => panic!("expected Encode, got {other:?}"),
    }
}

/// A signer whose key is locked away.
struct FailingSigner;

impl Signer for FailingSigner {
    fn algorithm_id(&self) -> Text {
        unreachable!("no value at run time")
    }
    fn publishes(&self, _line: Text) -> bool {
        unreachable!("no value at run time")
    }
    fn signs(&self, _message: Bytes, _signature: Bytes) -> bool {
        unreachable!("no value at run time")
    }
    fn fails(&self, _e: SignerErrorView) -> bool {
        unreachable!("no value at run time")
    }
    fn algorithm(&self) -> &'static str {
        "ssh-ed25519"
    }
    fn public_openssh(&mut self) -> Result<String, SignerError> {
        Ok(LINE.to_string())
    }
    fn sign(&self, _message: &[u8]) -> Result<Vec<u8>, SignerError> {
        Err(SignerError::InvalidKey("keychain locked".to_string()))
    }
}

#[test]
fn a_signer_that_cannot_sign_is_a_local_failure() {
    match sign_request(&FailingSigner, vec![1, 2, 3]) {
        Err(SignerAuthError::LocalSigner(m)) => {
            assert_eq!(m, "invalid stored key: keychain locked")
        }
        other => panic!("expected LocalSigner, got {other:?}"),
    }
    assert_eq!(
        SignerAuthError::LocalSigner("x".to_string()).to_string(),
        "local signer failure: x"
    );
    assert_eq!(
        SignerAuthError::Send.to_string(),
        "transport send failure during auth"
    );
}

#[test]
fn the_transport_reads_offered_keys_itself() {
    assert!(check_offered_key(LINE).is_ok());
    assert_eq!(check_offered_key("garbage").err().unwrap(), "length invalid");
    assert!(check_offered_key("ssh-rsa AAAAC3NzaC1lZDI1NTE5AAAAILM+rvN+ot98qgEN796jTiQfZfG1KaT0PtFDJ/XFSqti").is_err());
}

#[test]
fn a_transport_death_is_reported_once() {
    let mut watch = LossWatch::new();
    assert_eq!(watch.observe(false), WatchStep::Wait);
    assert_eq!(watch.observe(true), WatchStep::Report(ConnectionEvent::Lost));
    assert_eq!(watch.observe(true), WatchStep::Stop);
    assert_eq!(watch.observe(false), WatchStep::Stop);
}

#[test]
fn a_teardown_on_purpose_is_no_loss() {
    let mut watch = LossWatch::new();
    assert_eq!(watch.observe(false), WatchStep::Wait);
    watch.begin_close();
    assert_eq!(watch.observe(false), WatchStep::Wait);
    assert_eq!(watch.observe(true), WatchStep::Stop);
}

#[test]
fn the_active_connection_is_kept_until_a_new_one_is_there() {
    let mut mgr: ConnectionManager<&str> = ConnectionManager::new();
    assert!(!mgr.is_active());
    assert_eq!(mgr.with_active(|c| c.len()), None);
    assert_eq!(mgr.switch(Ok("A")).unwrap(), None);
    assert!(mgr.is_active());
    let refused = ConnectError::new(
        ConnectErrorKind::RemoteAuthFailure,
        ConnectStage::Authenticate,
        "server rejected the public key",
    );
    assert_eq!(mgr.switch(Err(refused.clone())).err().unwrap(), refused);
    assert_eq!(mgr.with_active(|c| c.to_string()).as_deref(), Some("A"));
    assert_eq!(mgr.switch(Ok("C")).unwrap(), Some("A"));
    assert_eq!(mgr.install("D"), Some("C"));
    assert_eq!(mgr.disconnect(), Some("D"));
    assert!(!mgr.is_active());
    assert_eq!(mgr.disconnect(), None);
}
