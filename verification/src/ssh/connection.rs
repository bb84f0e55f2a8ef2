//! The connection: its staged connect, its loss detection and the one active connection.
//!
//! Sockets, timers and the SSH transport are driven from outside. What is decided here is
//! what to do next: each decision takes what came of the last step as a value.

use crate::ssh::auth;
use crate::ssh::auth::{SignerAuthError, SignerAuthErrorView};
use crate::ssh::host_check;
use crate::ssh::host_check::{HostKeyOutcome, HostKeyOutcomeView};
use crate::ssh::pipeline;
use crate::ssh::pipeline::{ConnectError, ConnectErrorKind, ConnectErrorView, ConnectStage};
use crate::ssh::signer;
use crate::ssh::signer::{SignerError, SignerErrorView};
use crate::text;
use vstd::prelude::*;

verus! {

/// Default time to answer a trust prompt, in milliseconds.
pub const DEFAULT_HOST_KEY_PROMPT_TIMEOUT_MS: u64 = 60_000;

/// Default time to open the TCP socket, in milliseconds.
pub const DEFAULT_TCP_CONNECT_TIMEOUT_MS: u64 = 10_000;

/// Default time between keepalives, in milliseconds.
pub const DEFAULT_KEEPALIVE_INTERVAL_MS: u64 = 15_000;

/// Default number of unanswered keepalives after which the transport is closed.
pub const DEFAULT_KEEPALIVE_MAX: usize = 3;

/// Time between two looks at the transport of a live connection, in milliseconds.
pub const LOSS_POLL_MS: u64 = 100;

/// The settings of a connect attempt.
#[derive(Debug, PartialEq, Eq)]
pub struct ConnectConfig {
    pub username: String,
    pub tcp_connect_timeout_ms: u64,
    pub host_key_prompt_timeout_ms: u64,
    pub keepalive_interval_ms: u64,
    pub keepalive_max: usize,
}

impl Clone for ConnectConfig {
    fn clone(&self) -> (r: Self)
        ensures
            r == *self,
    {
        ConnectConfig {
            username: self.username.clone(),
            tcp_connect_timeout_ms: self.tcp_connect_timeout_ms,
            host_key_prompt_timeout_ms: self.host_key_prompt_timeout_ms,
            keepalive_interval_ms: self.keepalive_interval_ms,
            keepalive_max: self.keepalive_max,
        }
    }
}

impl ConnectConfig {
    /// The default settings for the login user `username`.
    pub fn for_user(username: &str) -> (r: Self)
        ensures
            r.username@ == username@,
            r.tcp_connect_timeout_ms == DEFAULT_TCP_CONNECT_TIMEOUT_MS,
            r.host_key_prompt_timeout_ms == DEFAULT_HOST_KEY_PROMPT_TIMEOUT_MS,
            r.keepalive_interval_ms == DEFAULT_KEEPALIVE_INTERVAL_MS,
            r.keepalive_max == DEFAULT_KEEPALIVE_MAX,
    {
        ConnectConfig {
            username: username.to_owned(),
            tcp_connect_timeout_ms: DEFAULT_TCP_CONNECT_TIMEOUT_MS,
            host_key_prompt_timeout_ms: DEFAULT_HOST_KEY_PROMPT_TIMEOUT_MS,
            keepalive_interval_ms: DEFAULT_KEEPALIVE_INTERVAL_MS,
            keepalive_max: DEFAULT_KEEPALIVE_MAX,
        }
    }

    /// The settings with half a second to connect and a tenth of a second to answer a
    /// prompt, so that waiting for either is short.
    pub fn with_short_timeouts(self) -> (r: Self)
        ensures
            r == (ConnectConfig {
                tcp_connect_timeout_ms: 500,
                host_key_prompt_timeout_ms: 100,
                ..self
            }),
    {
        let mut c = self;
        c.tcp_connect_timeout_ms = 500;
        c.host_key_prompt_timeout_ms = 100;
        c
    }
}

/// The failure of a handshake whose host-key check ended in `outcome`, or never got to one.
pub open spec fn handshake_failure(
    outcome: Option<HostKeyOutcomeView>,
    cause: Seq<char>,
) -> ConnectErrorView {
    match outcome {
        Some(
            HostKeyOutcomeView::Mismatch { saved_fingerprint, presented_fingerprint },
        ) => pipeline::failure(
            ConnectErrorKind::HostKeyMismatch,
            ConnectStage::HostKeyCheck,
            "host key changed: saved "@ + saved_fingerprint + ", presented "@
                + presented_fingerprint,
        ),
        Some(HostKeyOutcomeView::PromptRejected) => pipeline::failure(
            ConnectErrorKind::UntrustedHostKey,
            ConnectStage::HostKeyCheck,
            "host key trust prompt was rejected"@,
        ),
        Some(HostKeyOutcomeView::PromptTimedOut) => pipeline::failure(
            ConnectErrorKind::UntrustedHostKey,
            ConnectStage::HostKeyCheck,
            "host key trust prompt timed out"@,
        ),
        Some(HostKeyOutcomeView::StoreError(m)) => pipeline::failure(
            ConnectErrorKind::UntrustedHostKey,
            ConnectStage::HostKeyCheck,
            "known-hosts store error during host-key check: "@ + m,
        ),
        _ => pipeline::failure(
            ConnectErrorKind::Unreachable,
            ConnectStage::TcpConnect,
            "handshake failed: "@ + cause,
        ),
    }
}

/// The view of an optional outcome.
pub open spec fn outcome_view(outcome: Option<HostKeyOutcome>) -> Option<HostKeyOutcomeView> {
    match outcome {
        Some(o) => Some(o@),
        None => None,
    }
}

/// Classifies the failure of a handshake. A host-key check that did not accept the key is
/// what failed; otherwise the transport did.
pub fn classify_handshake_failure(outcome: Option<HostKeyOutcome>, cause: &str) -> (r:
    ConnectError)
    ensures
        r@ == handshake_failure(outcome_view(outcome), cause@),
{
    match outcome {
        Some(HostKeyOutcome::Mismatch { saved_fingerprint, presented_fingerprint }) => {
            let mut m = text::joined("host key changed: saved ", saved_fingerprint.as_str());
            m.append(", presented ");
            m.append(presented_fingerprint.as_str());
            ConnectError::new(
                ConnectErrorKind::HostKeyMismatch,
                ConnectStage::HostKeyCheck,
                m.as_str(),
            )
        },
        Some(HostKeyOutcome::PromptRejected) => ConnectError::new(
            ConnectErrorKind::UntrustedHostKey,
            ConnectStage::HostKeyCheck,
            "host key trust prompt was rejected",
        ),
        Some(HostKeyOutcome::PromptTimedOut) => ConnectError::new(
            ConnectErrorKind::UntrustedHostKey,
            ConnectStage::HostKeyCheck,
            "host key trust prompt timed out",
        ),
        Some(HostKeyOutcome::StoreError(m)) => ConnectError::new(
            ConnectErrorKind::UntrustedHostKey,
            ConnectStage::HostKeyCheck,
            text::joined("known-hosts store error during host-key check: ", m.as_str()).as_str(),
        ),
        _ => ConnectError::new(
            ConnectErrorKind::Unreachable,
            ConnectStage::TcpConnect,
            text::joined("handshake failed: ", cause).as_str(),
        ),
    }
}

/// A failed handshake is put down to the host key exactly when a check refused it, and then
/// a mismatch is told apart from every other refusal.
pub proof fn host_key_refusals_are_classified(
    outcome: Option<HostKeyOutcomeView>,
    cause: Seq<char>,
)
    ensures
        handshake_failure(outcome, cause).stage == ConnectStage::HostKeyCheck <==> (outcome is Some
            && !host_check::accepts(outcome->0)),
        handshake_failure(outcome, cause).kind == ConnectErrorKind::HostKeyMismatch <==> (
        outcome is Some && outcome->0 is Mismatch),
        handshake_failure(outcome, cause).stage == ConnectStage::TcpConnect <==> handshake_failure(
            outcome,
            cause,
        ).kind == ConnectErrorKind::Unreachable,
{
}

/// The place of the first `c` in `s`, or the length of `s` if there is none.
pub open spec fn first_of(s: Seq<char>, c: char) -> int
    decreases s.len(),
{
    if s.len() == 0 || s[0] == c {
        0
    } else {
        1 + first_of(s.drop_first(), c)
    }
}

/// The place of the last `c` in `s`, or -1 if there is none.
pub open spec fn last_of(s: Seq<char>, c: char) -> int
    decreases s.len(),
{
    if s.len() == 0 {
        -1
    } else if s.last() == c {
        s.len() - 1
    } else {
        last_of(s.drop_last(), c)
    }
}

/// The host of a `host:port` address: what stands between brackets if the address starts
/// with a pair of them, else what stands before the last colon, else all of it.
pub open spec fn host_of(addr: Seq<char>) -> Seq<char> {
    if addr.len() > 0 && addr[0] == '[' && first_of(addr, ']') < addr.len() {
        addr.subrange(1, first_of(addr, ']'))
    } else if last_of(addr, ':') >= 0 {
        addr.subrange(0, last_of(addr, ':'))
    } else {
        addr
    }
}

proof fn lemma_first_of(s: Seq<char>, c: char, k: int)
    requires
        0 <= k <= s.len(),
        forall|i: int| 0 <= i < k ==> #[trigger] s[i] != c,
        k < s.len() ==> s[k] == c,
    ensures
        first_of(s, c) == k,
    decreases s.len(),
{
    if s.len() > 0 && k > 0 {
        assert(s[0] != c);
        let rest = s.drop_first();
        assert forall|i: int| 0 <= i < k - 1 implies #[trigger] rest[i] != c by {
            assert(rest[i] == s[i + 1]);
        }
        lemma_first_of(rest, c, k - 1);
    }
}

proof fn lemma_last_of(s: Seq<char>, c: char, k: int)
    requires
        -1 <= k < s.len(),
        forall|i: int| k < i < s.len() ==> #[trigger] s[i] != c,
        k >= 0 ==> s[k] == c,
    ensures
        last_of(s, c) == k,
    decreases s.len(),
{
    if s.len() > 0 && k < s.len() - 1 {
        assert(s[s.len() - 1] != c);
        let rest = s.drop_last();
        assert forall|i: int| k < i < rest.len() implies #[trigger] rest[i] != c by {
            assert(rest[i] == s[i]);
        }
        lemma_last_of(rest, c, k);
    }
}

/// The host of a `host:port` address or a bare host, by which its key is saved. An IPv6
/// address stands in brackets.
pub fn host_part(addr: &str) -> (r: String)
    ensures
        r@ == host_of(addr@),
{
    let n: usize = addr.unicode_len();
    if n > 0 && addr.get_char(0) == '[' {
        let mut i: usize = 0;
        while i < n && addr.get_char(i) != ']'
            invariant
                n == addr@.len(),
                i <= n,
                forall|k: int| 0 <= k < i ==> #[trigger] addr@[k] != ']',
            ensures
                i <= n,
                forall|k: int| 0 <= k < i ==> #[trigger] addr@[k] != ']',
                i < n ==> addr@[i as int] == ']',
            decreases n - i,
        {
            i = i + 1;
        }
        proof {
            lemma_first_of(addr@, ']', i as int);
        }
        if i < n {
            assert(i > 0);
            return addr.substring_char(1, i).to_owned();
        }
    }
    let mut end: usize = n;
    while end > 0 && addr.get_char(end - 1) != ':'
        invariant
            n == addr@.len(),
            end <= n,
            forall|k: int| end <= k < n ==> #[trigger] addr@[k] != ':',
        ensures
            end <= n,
            forall|k: int| end <= k < n ==> #[trigger] addr@[k] != ':',
            end > 0 ==> addr@[end - 1] == ':',
        decreases end,
    {
        end = end - 1;
    }
    proof {
        lemma_last_of(addr@, ':', end - 1);
    }
    if end > 0 {
        addr.substring_char(0, end - 1).to_owned()
    } else {
        addr.to_owned()
    }
}

/// The host of `host:port` is `host`, unless that starts with a bracket.
pub proof fn host_of_plain_address(host: Seq<char>, port: Seq<char>)
    requires
        host.len() == 0 || host[0] != '[',
        forall|i: int| 0 <= i < port.len() ==> #[trigger] port[i] != ':',
    ensures
        host_of(host + seq![':'] + port) == host,
{
    let addr = host + seq![':'] + port;
    assert(addr[host.len() as int] == ':');
    assert forall|i: int| host.len() < i < addr.len() implies #[trigger] addr[i] != ':' by {
        assert(addr[i] == port[i - host.len() - 1]);
    }
    lemma_last_of(addr, ':', host.len() as int);
    assert(addr.subrange(0, host.len() as int) =~= host);
    if host.len() > 0 {
        assert(addr[0] == host[0]);
    }
}

/// The host of `[host]:port` is `host`, colons and all.
pub proof fn host_of_bracketed_address(host: Seq<char>, port: Seq<char>)
    requires
        forall|i: int| 0 <= i < host.len() ==> #[trigger] host[i] != ']',
    ensures
        host_of(seq!['['] + host + seq![']', ':'] + port) == host,
{
    let end = host.len() as int + 1;
    let addr = seq!['['] + host + seq![']', ':'] + port;
    assert(addr[0] == '[');
    assert forall|i: int| 0 <= i < end implies #[trigger] addr[i] != ']' by {
        if i > 0 {
            assert(addr[i] == host[i - 1]);
        }
    }
    assert(addr[end] == ']');
    lemma_first_of(addr, ']', end);
    assert(addr.subrange(1, end) =~= host);
}

/// A host without a colon or a bracket in front is its own host.
pub proof fn host_of_bare_host(host: Seq<char>)
    requires
        host.len() == 0 || host[0] != '[',
        forall|i: int| 0 <= i < host.len() ==> #[trigger] host[i] != ':',
    ensures
        host_of(host) == host,
{
    lemma_last_of(host, ':', -1);
}

/// How far a connect attempt has come.
#[derive(Debug, Clone, Copy, PartialEq, Eq, Structural)]
pub enum ConnectPhase {
    /// The socket is being opened.
    Connecting,
    /// The handshake runs, with the host-key check inside.
    Handshaking,
    /// The signer is asked for the public key.
    ReadingKey,
    /// The server is asked to accept the key.
    Authenticating,
    /// The connection is authenticated.
    Live,
    /// The attempt has failed.
    Failed,
}

/// What came of the step that a connect attempt asked for.
#[derive(Debug)]
pub enum ConnectProgress {
    /// The socket is open.
    SocketOpened,
    /// The socket could not be opened, for the given cause.
    SocketFailed(String),
    /// The socket was not open in time.
    SocketTimedOut,
    /// The handshake is done, which means that the host key was accepted.
    HandshakeDone,
    /// The handshake failed for the given cause, after a host-key check with this outcome
    /// if it got to one.
    HandshakeFailed(Option<HostKeyOutcome>, String),
    /// The signer answered with its public key.
    KeyRead(String),
    /// The signer has no public key to give.
    KeyFailed(SignerError),
    /// The server accepted the key.
    Accepted,
    /// The server rejected the key.
    Rejected,
    /// The request could not be signed or sent.
    SigningFailed(SignerAuthError),
}

/// The model of a [`ConnectProgress`].
#[verifier::ext_equal]
pub enum ConnectProgressView {
    SocketOpened,
    SocketFailed(Seq<char>),
    SocketTimedOut,
    HandshakeDone,
    HandshakeFailed(Option<HostKeyOutcomeView>, Seq<char>),
    KeyRead(Seq<char>),
    KeyFailed(SignerErrorView),
    Accepted,
    Rejected,
    SigningFailed(SignerAuthErrorView),
}

impl View for ConnectProgress {
    type V = ConnectProgressView;

    open spec fn view(&self) -> ConnectProgressView {
        match self {
            ConnectProgress::SocketOpened => ConnectProgressView::SocketOpened,
            ConnectProgress::SocketFailed(m) => ConnectProgressView::SocketFailed(m@),
            ConnectProgress::SocketTimedOut => ConnectProgressView::SocketTimedOut,
            ConnectProgress::HandshakeDone => ConnectProgressView::HandshakeDone,
            ConnectProgress::HandshakeFailed(o, m) => ConnectProgressView::HandshakeFailed(
                outcome_view(*o),
                m@,
            ),
            ConnectProgress::KeyRead(line) => ConnectProgressView::KeyRead(line@),
            ConnectProgress::KeyFailed(e) => ConnectProgressView::KeyFailed(e@),
            ConnectProgress::Accepted => ConnectProgressView::Accepted,
            ConnectProgress::Rejected => ConnectProgressView::Rejected,
            ConnectProgress::SigningFailed(e) => ConnectProgressView::SigningFailed(e@),
        }
    }
}

/// The phase that a piece of progress belongs to.
pub open spec fn phase_of(progress: ConnectProgressView) -> ConnectPhase {
    match progress {
        ConnectProgressView::SocketOpened => ConnectPhase::Connecting,
        ConnectProgressView::SocketFailed(_) => ConnectPhase::Connecting,
        ConnectProgressView::SocketTimedOut => ConnectPhase::Connecting,
        ConnectProgressView::HandshakeDone => ConnectPhase::Handshaking,
        ConnectProgressView::HandshakeFailed(_, _) => ConnectPhase::Handshaking,
        ConnectProgressView::KeyRead(_) => ConnectPhase::ReadingKey,
        ConnectProgressView::KeyFailed(_) => ConnectPhase::ReadingKey,
        ConnectProgressView::Accepted => ConnectPhase::Authenticating,
        ConnectProgressView::Rejected => ConnectPhase::Authenticating,
        ConnectProgressView::SigningFailed(_) => ConnectPhase::Authenticating,
    }
}

/// The failure that a piece of progress of an attempt to connect to `addr` amounts to, if
/// it is one.
pub open spec fn connect_failure(
    addr: Seq<char>,
    progress: ConnectProgressView,
) -> Option<ConnectErrorView> {
    match progress {
        ConnectProgressView::SocketFailed(cause) => Some(
            pipeline::failure(
                ConnectErrorKind::Unreachable,
                ConnectStage::TcpConnect,
                "TCP connect to "@ + addr + " failed: "@ + cause,
            ),
        ),
        ConnectProgressView::SocketTimedOut => Some(
            pipeline::failure(
                ConnectErrorKind::Unreachable,
                ConnectStage::TcpConnect,
                "TCP connect to "@ + addr + " timed out"@,
            ),
        ),
        ConnectProgressView::HandshakeFailed(outcome, cause) => Some(
            handshake_failure(outcome, cause),
        ),
        ConnectProgressView::KeyRead(line) => match auth::transport_key(line) {
            Ok(_) => None,
            Err(m) => Some(
                pipeline::failure(
                    ConnectErrorKind::LocalSignerFailure,
                    ConnectStage::Authenticate,
                    "signer public key did not parse: "@ + m,
                ),
            ),
        },
        ConnectProgressView::KeyFailed(e) => Some(
            pipeline::failure(
                ConnectErrorKind::LocalSignerFailure,
                ConnectStage::Authenticate,
                "could not read public key from signer: "@ + signer::error_text(e),
            ),
        ),
        ConnectProgressView::Rejected => Some(
            pipeline::failure(
                ConnectErrorKind::RemoteAuthFailure,
                ConnectStage::Authenticate,
                "server rejected the public key"@,
            ),
        ),
        ConnectProgressView::SigningFailed(SignerAuthErrorView::LocalSigner(m)) => Some(
            pipeline::failure(
                ConnectErrorKind::LocalSignerFailure,
                ConnectStage::Authenticate,
                "local signer could not sign: "@ + m,
            ),
        ),
        ConnectProgressView::SigningFailed(SignerAuthErrorView::Encode(m)) => Some(
            pipeline::failure(
                ConnectErrorKind::LocalSignerFailure,
                ConnectStage::Authenticate,
                "signature encoding failed: "@ + m,
            ),
        ),
        ConnectProgressView::SigningFailed(SignerAuthErrorView::Send) => Some(
            pipeline::failure(
                ConnectErrorKind::RemoteAuthFailure,
                ConnectStage::Authenticate,
                "transport closed during auth"@,
            ),
        ),
        _ => None,
    }
}

/// The phase that follows `phase` when its step succeeds.
pub open spec fn following(phase: ConnectPhase) -> ConnectPhase {
    match phase {
        ConnectPhase::Connecting => ConnectPhase::Handshaking,
        ConnectPhase::Handshaking => ConnectPhase::ReadingKey,
        ConnectPhase::ReadingKey => ConnectPhase::Authenticating,
        ConnectPhase::Authenticating => ConnectPhase::Live,
        ConnectPhase::Live => ConnectPhase::Live,
        ConnectPhase::Failed => ConnectPhase::Failed,
    }
}

/// The phase of an attempt to connect to `addr` after a piece of progress.
pub open spec fn phase_after(addr: Seq<char>, progress: ConnectProgressView) -> ConnectPhase {
    if connect_failure(addr, progress) is Some {
        ConnectPhase::Failed
    } else {
        following(phase_of(progress))
    }
}

fn socket_failure(addr: &str, rest: &str) -> (r: ConnectError)
    ensures
        r@ == pipeline::failure(
            ConnectErrorKind::Unreachable,
            ConnectStage::TcpConnect,
            "TCP connect to "@ + addr@ + rest@,
        ),
{
    let mut m = text::joined("TCP connect to ", addr);
    m.append(rest);
    ConnectError::new(ConnectErrorKind::Unreachable, ConnectStage::TcpConnect, m.as_str())
}

fn signer_failure(what: &str, cause: &str) -> (r: ConnectError)
    ensures
        r@ == pipeline::failure(
            ConnectErrorKind::LocalSignerFailure,
            ConnectStage::Authenticate,
            what@ + cause@,
        ),
{
    ConnectError::new(
        ConnectErrorKind::LocalSignerFailure,
        ConnectStage::Authenticate,
        text::joined(what, cause).as_str(),
    )
}

fn remote_failure(what: &str) -> (r: ConnectError)
    ensures
        r@ == pipeline::failure(
            ConnectErrorKind::RemoteAuthFailure,
            ConnectStage::Authenticate,
            what@,
        ),
{
    ConnectError::new(ConnectErrorKind::RemoteAuthFailure, ConnectStage::Authenticate, what)
}

/// A connect attempt: TCP socket, handshake with host-key check, public-key
/// authentication, in this order. The phase says which step is to be taken.
pub struct ConnectAttempt {
    addr: String,
    host: String,
    phase: ConnectPhase,
}

impl ConnectAttempt {
    /// The `host:port` address.
    pub closed spec fn addr(&self) -> Seq<char> {
        self.addr@
    }

    /// The host by which the key is saved.
    pub closed spec fn host(&self) -> Seq<char> {
        self.host@
    }

    /// How far the attempt has come.
    pub closed spec fn at(&self) -> ConnectPhase {
        self.phase
    }

    #[verifier::type_invariant]
    closed spec fn inv(&self) -> bool {
        self.host@ == host_of(self.addr@)
    }

    /// An attempt to connect to `addr`: the socket is to be opened first.
    pub fn new(addr: &str) -> (r: Self)
        ensures
            r.addr() == addr@,
            r.host() == host_of(addr@),
            r.at() == ConnectPhase::Connecting,
    {
        ConnectAttempt {
            addr: addr.to_owned(),
            host: host_part(addr),
            phase: ConnectPhase::Connecting,
        }
    }

    /// The host by which the key is saved.
    pub fn host_name(&self) -> (r: String)
        ensures
            r@ == self.host(),
            r@ == host_of(self.addr()),
    {
        proof {
            use_type_invariant(self);
        }
        self.host.clone()
    }

    /// How far the attempt has come.
    pub fn phase(&self) -> (r: ConnectPhase)
        ensures
            r == self.at(),
    {
        self.phase
    }

    /// Takes the attempt on by what came of its last step.
    pub fn advance(&mut self, progress: ConnectProgress) -> (r: Result<ConnectPhase, ConnectError>)
        requires
            old(self).at() == phase_of(progress@),
        ensures
            final(self).addr() == old(self).addr(),
            final(self).host() == old(self).host(),
            final(self).at() == phase_after(old(self).addr(), progress@),
            (match connect_failure(old(self).addr(), progress@) {
                Some(e) => r matches Err(f) && f@ == e,
                None => r == Ok::<ConnectPhase, ConnectError>(final(self).at()),
            }),
    {
        proof {
            use_type_invariant(&*self);
        }
        let failure = match progress {
            ConnectProgress::SocketOpened => None,
            ConnectProgress::SocketFailed(cause) => {
                let rest = text::joined(" failed: ", cause.as_str());
                let e = socket_failure(self.addr.as_str(), rest.as_str());
                assert(e@.message =~= "TCP connect to "@ + self.addr@ + " failed: "@ + cause@);
                Some(e)
            },
            ConnectProgress::SocketTimedOut => Some(
                socket_failure(self.addr.as_str(), " timed out"),
            ),
            ConnectProgress::HandshakeDone => None,
            ConnectProgress::HandshakeFailed(outcome, cause) => Some(
                classify_handshake_failure(outcome, cause.as_str()),
            ),
            ConnectProgress::KeyRead(line) => match auth::check_offered_key(line.as_str()) {
                Ok(_) => None,
                Err(m) => Some(signer_failure("signer public key did not parse: ", m.as_str())),
            },
            ConnectProgress::KeyFailed(e) => Some(
                signer_failure("could not read public key from signer: ", e.to_string().as_str()),
            ),
            ConnectProgress::Accepted => None,
            ConnectProgress::Rejected => Some(remote_failure("server rejected the public key")),
            ConnectProgress::SigningFailed(SignerAuthError::LocalSigner(m)) => Some(
                signer_failure("local signer could not sign: ", m.as_str()),
            ),
            ConnectProgress::SigningFailed(SignerAuthError::Encode(m)) => Some(
                signer_failure("signature encoding failed: ", m.as_str()),
            ),
            ConnectProgress::SigningFailed(SignerAuthError::Send) => Some(
                remote_failure("transport closed during auth"),
            ),
        };
        match failure {
            Some(e) => {
                self.phase = ConnectPhase::Failed;
                Err(e)
            },
            None => {
                let next = match self.phase {
                    ConnectPhase::Connecting => ConnectPhase::Handshaking,
                    ConnectPhase::Handshaking => ConnectPhase::ReadingKey,
                    ConnectPhase::ReadingKey => ConnectPhase::Authenticating,
                    ConnectPhase::Authenticating => ConnectPhase::Live,
                    ConnectPhase::Live => ConnectPhase::Live,
                    ConnectPhase::Failed => ConnectPhase::Failed,
                };
                self.phase = next;
                Ok(next)
            },
        }
    }
}

/// The phase that a run of progress leads an attempt to, from `phase`, or nothing if a
/// piece of it is out of turn.
pub open spec fn run(
    addr: Seq<char>,
    phase: ConnectPhase,
    trace: Seq<ConnectProgressView>,
) -> Option<ConnectPhase>
    decreases trace.len(),
{
    if trace.len() == 0 {
        Some(phase)
    } else if phase_of(trace[0]) != phase {
        None
    } else {
        run(addr, phase_after(addr, trace[0]), trace.drop_first())
    }
}

/// An attempt goes live only by way of every stage in turn: an open socket, a handshake
/// that accepted the host key, a readable public key and the server's acceptance.
pub proof fn live_means_every_stage_passed(addr: Seq<char>, trace: Seq<ConnectProgressView>)
    requires
        run(addr, ConnectPhase::Connecting, trace) == Some(ConnectPhase::Live),
    ensures
        trace.len() == 4,
        trace[0] is SocketOpened,
        trace[1] is HandshakeDone,
        trace[2] is KeyRead,
        auth::transport_key(trace[2]->KeyRead_0) is Ok,
        trace[3] is Accepted,
{
    reveal_with_fuel(run, 6);
    let t1 = trace.drop_first();
    let t2 = t1.drop_first();
    let t3 = t2.drop_first();
    let t4 = t3.drop_first();
    if trace.len() > 0 {
        assert(phase_of(trace[0]) == ConnectPhase::Connecting);
        assert(t1.len() > 0 ==> t1[0] == trace[1]);
        assert(t2.len() > 0 ==> t2[0] == trace[2]);
        assert(t3.len() > 0 ==> t3[0] == trace[3]);
    }
}

/// A failed attempt stays failed, and no attempt takes more than four steps.
pub proof fn attempts_end(addr: Seq<char>, trace: Seq<ConnectProgressView>)
    requires
        run(addr, ConnectPhase::Connecting, trace) is Some,
    ensures
        trace.len() <= 4,
        forall|i: int|
            0 <= i < trace.len() - 1 ==> connect_failure(addr, #[trigger] trace[i]) is None,
{
    lemma_run_length(addr, ConnectPhase::Connecting, trace);
}

spec fn steps_left(phase: ConnectPhase) -> int {
    match phase {
        ConnectPhase::Connecting => 4,
        ConnectPhase::Handshaking => 3,
        ConnectPhase::ReadingKey => 2,
        ConnectPhase::Authenticating => 1,
        ConnectPhase::Live => 0,
        ConnectPhase::Failed => 0,
    }
}

proof fn lemma_run_length(addr: Seq<char>, phase: ConnectPhase, trace: Seq<ConnectProgressView>)
    requires
        run(addr, phase, trace) is Some,
    ensures
        trace.len() <= steps_left(phase),
        forall|i: int|
            0 <= i < trace.len() - 1 ==> connect_failure(addr, #[trigger] trace[i]) is None,
    decreases trace.len(),
{
    if trace.len() > 0 {
        let rest = trace.drop_first();
        lemma_run_length(addr, phase_after(addr, trace[0]), rest);
        assert forall|i: int| 0 <= i < trace.len() - 1 implies connect_failure(
            addr,
            #[trigger] trace[i],
        ) is None by {
            if i > 0 {
                assert(rest[i - 1] == trace[i]);
            }
        }
    }
}

/// What fails on this side of the wire during authentication is a signer failure, and what
/// fails on the other side is not: the operator is sent to provision a key only when the
/// server, or the way to it, refused.
pub proof fn signer_failures_are_local(addr: Seq<char>, progress: ConnectProgressView)
    ensures
        connect_failure(addr, progress) matches Some(e) ==> {
            &&& e.kind == ConnectErrorKind::LocalSignerFailure <==> (progress is KeyRead
                || progress is KeyFailed || (progress is SigningFailed
                && progress->SigningFailed_0 !is Send))
            &&& e.kind == ConnectErrorKind::RemoteAuthFailure <==> (progress is Rejected
                || progress == ConnectProgressView::SigningFailed(SignerAuthErrorView::Send))
            &&& e.stage == ConnectStage::Authenticate <==> (e.kind
                == ConnectErrorKind::LocalSignerFailure || e.kind
                == ConnectErrorKind::RemoteAuthFailure)
        },
{
}

/// Events of a live connection.
#[derive(Debug, Clone, Copy, PartialEq, Eq, Structural)]
pub enum ConnectionEvent {
    /// The transport died in mid-session.
    Lost,
}

/// What the watch over a live connection is to do next.
#[derive(Debug, Clone, Copy, PartialEq, Eq, Structural)]
pub enum WatchStep {
    /// Look again after [`LOSS_POLL_MS`].
    Wait,
    /// Report the event and stop.
    Report(ConnectionEvent),
    /// Stop without a report.
    Stop,
}

/// What a watch does that sees whether the transport is closed: nothing once it is over, and
/// nothing but stop at a closing on purpose.
pub open spec fn watch_step(closing: bool, over: bool, closed: bool) -> WatchStep {
    if over {
        WatchStep::Stop
    } else if !closed {
        WatchStep::Wait
    } else if closing {
        WatchStep::Stop
    } else {
        WatchStep::Report(ConnectionEvent::Lost)
    }
}

/// The watch over a live connection. A transport that closes is a loss, unless it was
/// closed on purpose.
pub struct LossWatch {
    closing: bool,
    over: bool,
}

impl LossWatch {
    /// Whether a teardown on purpose has begun.
    pub closed spec fn is_closing(&self) -> bool {
        self.closing
    }

    /// Whether the watch has ended.
    pub closed spec fn is_over(&self) -> bool {
        self.over
    }

    /// A watch over a connection that has just gone live.
    pub fn new() -> (r: Self)
        ensures
            !r.is_closing(),
            !r.is_over(),
    {
        LossWatch { closing: false, over: false }
    }

    /// Marks the connection as being torn down on purpose. This comes before the transport
    /// is closed, so that the closing is never taken for a loss.
    pub fn begin_close(&mut self)
        ensures
            final(self).is_closing(),
            final(self).is_over() == old(self).is_over(),
    {
        self.closing = true;
    }

    /// What to do, given whether the transport is closed.
    pub fn observe(&mut self, closed: bool) -> (r: WatchStep)
        ensures
            final(self).is_closing() == old(self).is_closing(),
            final(self).is_over() == (old(self).is_over() || closed),
            r == watch_step(old(self).is_closing(), old(self).is_over(), closed),
    {
        if self.over {
            return WatchStep::Stop;
        }
        if !closed {
            return WatchStep::Wait;
        }
        self.over = true;
        if self.closing {
            WatchStep::Stop
        } else {
            WatchStep::Report(ConnectionEvent::Lost)
        }
    }
}

/// What a watch does at each of a run of looks at the transport.
pub open spec fn watched(closing: bool, over: bool, looks: Seq<bool>) -> Seq<WatchStep>
    decreases looks.len(),
{
    if looks.len() == 0 {
        seq![]
    } else {
        seq![watch_step(closing, over, looks[0])] + watched(
            closing,
            over || looks[0],
            looks.drop_first(),
        )
    }
}

/// Once a teardown on purpose has begun no loss is reported, whatever the watch sees.
pub proof fn closing_is_never_a_loss(over: bool, looks: Seq<bool>)
    ensures
        watched(true, over, looks).len() == looks.len(),
        forall|i: int| 0 <= i < looks.len() ==> #[trigger] watched(true, over, looks)[i] !is Report,
    decreases looks.len(),
{
    if looks.len() > 0 {
        closing_is_never_a_loss(over || looks[0], looks.drop_first());
    }
}

proof fn lemma_watch_over(looks: Seq<bool>)
    ensures
        watched(false, true, looks).len() == looks.len(),
        forall|i: int| 0 <= i < looks.len() ==> #[trigger] watched(false, true, looks)[i] is Stop,
    decreases looks.len(),
{
    if looks.len() > 0 {
        lemma_watch_over(looks.drop_first());
    }
}

/// A loss is reported at the first look that sees the transport closed, and at no other.
pub proof fn a_loss_is_reported_once(looks: Seq<bool>)
    ensures
        watched(false, false, looks).len() == looks.len(),
        forall|i: int|
            0 <= i < looks.len() ==> (#[trigger] watched(false, false, looks)[i] is Report <==> (
            looks[i] && !looks.take(i).contains(true))),
    decreases looks.len(),
{
    if looks.len() > 0 {
        let rest = looks.drop_first();
        if looks[0] {
            lemma_watch_over(rest);
        } else {
            a_loss_is_reported_once(rest);
        }
        assert forall|i: int| 0 <= i < looks.len() implies (#[trigger] watched(
            false,
            false,
            looks,
        )[i] is Report <==> (looks[i] && !looks.take(i).contains(true))) by {
            if i > 0 {
                assert(looks.take(i)[0] == looks[0]);
                assert(rest[i - 1] == looks[i]);
                if !looks[0] {
                    let seen = looks.take(i);
                    let later = rest.take(i - 1);
                    if seen.contains(true) {
                        let k = seen.index_of(true);
                        assert(later[k - 1]);
                    }
                    if later.contains(true) {
                        let k = later.index_of(true);
                        assert(seen[k + 1]);
                    }
                }
            }
        }
    }
}

/// The one active connection.
pub struct ConnectionManager<C> {
    active: Option<C>,
}

impl<C> View for ConnectionManager<C> {
    type V = Option<C>;

    closed spec fn view(&self) -> Option<C> {
        self.active
    }
}

impl<C> Default for ConnectionManager<C> {
    fn default() -> (r: Self)
        ensures
            r@ is None,
    {
        ConnectionManager { active: None }
    }
}

impl<C> ConnectionManager<C> {
    /// No connection is active.
    pub fn new() -> (r: Self)
        ensures
            r@ is None,
    {
        ConnectionManager { active: None }
    }

    /// Whether a connection is active.
    pub fn is_active(&self) -> (r: bool)
        ensures
            r == (self@ is Some),
    {
        self.active.is_some()
    }

    /// Makes `new_conn`, which is authenticated, the active connection, and hands out the
    /// one it takes the place of, which is to be closed.
    pub fn install(&mut self, new_conn: C) -> (r: Option<C>)
        ensures
            final(self)@ == Some(new_conn),
            r == old(self)@,
    {
        let prior = self.active.take();
        self.active = Some(new_conn);
        prior
    }

    /// Switches to the connection that an attempt brought, and hands out the one to be
    /// closed. A failed attempt leaves the active connection in place.
    pub fn switch(&mut self, attempt: Result<C, ConnectError>) -> (r: Result<
        Option<C>,
        ConnectError,
    >)
        ensures
            (match attempt {
                Ok(new_conn) => {
                    &&& r == Ok::<Option<C>, ConnectError>(old(self)@)
                    &&& final(self)@ == Some(new_conn)
                },
                Err(e) => {
                    &&& r == Err::<Option<C>, ConnectError>(e)
                    &&& final(self)@ == old(self)@
                },
            }),
    {
        match attempt {
            Ok(new_conn) => Ok(self.install(new_conn)),
            Err(e) => Err(e),
        }
    }

    /// Gives up the active connection, which is to be closed.
    pub fn disconnect(&mut self) -> (r: Option<C>)
        ensures
            final(self)@ is None,
            r == old(self)@,
    {
        self.active.take()
    }

    /// What `f` makes of the active connection, if there is one.
    pub fn with_active<R, F: FnOnce(&C) -> R>(&self, f: F) -> (r: Option<R>)
        requires
            self@ matches Some(c) ==> call_requires(f, (&c,)),
        ensures
            (match self@ {
                Some(c) => r matches Some(x) && call_ensures(f, (&c,), x),
                None => r is None,
            }),
    {
        match &self.active {
            Some(c) => Some(f(c)),
            None => None,
        }
    }
}

/// No step that succeeds is ever taken for a failure, whatever the address: not an open
/// socket, not a handshake that is done, not a public key that the transport reads, not the
/// server's acceptance. Everything else fails the attempt.
pub proof fn success_is_never_a_failure(addr: Seq<char>, progress: ConnectProgressView)
    ensures
        connect_failure(addr, progress) is None <==> (progress is SocketOpened
            || progress is HandshakeDone || progress is Accepted || (
        progress matches ConnectProgressView::KeyRead(line) && auth::transport_key(line) is Ok)),
{
}

/// Each step that succeeds leads to the next one, whatever the address, and each failure ends
/// the attempt.
pub proof fn every_success_leads_on(addr: Seq<char>, progress: ConnectProgressView)
    ensures
        phase_after(addr, ConnectProgressView::SocketOpened) == ConnectPhase::Handshaking,
        phase_after(addr, ConnectProgressView::HandshakeDone) == ConnectPhase::ReadingKey,
        progress matches ConnectProgressView::KeyRead(line) && auth::transport_key(line) is Ok
            ==> phase_after(addr, progress) == ConnectPhase::Authenticating,
        phase_after(addr, ConnectProgressView::Accepted) == ConnectPhase::Live,
        !(progress is SocketOpened || progress is HandshakeDone || progress is Accepted || (
        progress matches ConnectProgressView::KeyRead(line) && auth::transport_key(line) is Ok))
            ==> phase_after(addr, progress) == ConnectPhase::Failed,
{
}

/// Each piece of progress belongs to one step.
pub proof fn every_step_has_its_progress(progress: ConnectProgressView)
    ensures
        phase_of(progress) == ConnectPhase::Connecting <==> (progress is SocketOpened
            || progress is SocketFailed || progress is SocketTimedOut),
        phase_of(progress) == ConnectPhase::Handshaking <==> (progress is HandshakeDone
            || progress is HandshakeFailed),
        phase_of(progress) == ConnectPhase::ReadingKey <==> (progress is KeyRead
            || progress is KeyFailed),
        phase_of(progress) == ConnectPhase::Authenticating <==> (progress is Accepted
            || progress is Rejected || progress is SigningFailed),
        phase_of(progress) != ConnectPhase::Live,
        phase_of(progress) != ConnectPhase::Failed,
{
}

/// An attempt whose every stage passes goes live, at whatever address and with whatever key
/// that the transport reads.
pub proof fn passing_every_stage_goes_live(addr: Seq<char>, line: Seq<char>)
    requires
        auth::transport_key(line) is Ok,
    ensures
        run(
            addr,
            ConnectPhase::Connecting,
            seq![
                ConnectProgressView::SocketOpened,
                ConnectProgressView::HandshakeDone,
                ConnectProgressView::KeyRead(line),
                ConnectProgressView::Accepted,
            ],
        ) == Some(ConnectPhase::Live),
{
    let t0 = seq![
        ConnectProgressView::SocketOpened,
        ConnectProgressView::HandshakeDone,
        ConnectProgressView::KeyRead(line),
        ConnectProgressView::Accepted,
    ];
    let t1 = t0.drop_first();
    let t2 = t1.drop_first();
    let t3 = t2.drop_first();
    let t4 = t3.drop_first();
    assert(t1[0] == t0[1] && t2[0] == t0[2] && t3[0] == t0[3] && t4.len() == 0);
    assert(run(addr, ConnectPhase::Live, t4) == Some(ConnectPhase::Live));
    assert(run(addr, ConnectPhase::Authenticating, t3) == Some(ConnectPhase::Live));
    assert(run(addr, ConnectPhase::ReadingKey, t2) == Some(ConnectPhase::Live));
    assert(run(addr, ConnectPhase::Handshaking, t1) == Some(ConnectPhase::Live));
}

/// A socket that did not open is an unreachable bot, and the message has the whole address
/// and the whole cause.
pub proof fn unopened_sockets_are_unreachable_bots(addr: Seq<char>, cause: Seq<char>)
    ensures
        connect_failure(addr, ConnectProgressView::SocketFailed(cause)) == Some(
            ConnectErrorView {
                kind: ConnectErrorKind::Unreachable,
                stage: ConnectStage::TcpConnect,
                message: "TCP connect to "@ + addr + " failed: "@ + cause,
            },
        ),
        connect_failure(addr, ConnectProgressView::SocketTimedOut) == Some(
            ConnectErrorView {
                kind: ConnectErrorKind::Unreachable,
                stage: ConnectStage::TcpConnect,
                message: "TCP connect to "@ + addr + " timed out"@,
            },
        ),
{
}

/// What each failure of the authentication is classed as and reads.
pub proof fn authentication_failures_read(addr: Seq<char>, line: Seq<char>, m: Seq<char>)
    ensures
        auth::transport_key(line) == Err::<Seq<u8>, Seq<char>>(m) ==> connect_failure(
            addr,
            ConnectProgressView::KeyRead(line),
        ) == Some(
            ConnectErrorView {
                kind: ConnectErrorKind::LocalSignerFailure,
                stage: ConnectStage::Authenticate,
                message: "signer public key did not parse: "@ + m,
            },
        ),
        connect_failure(
            addr,
            ConnectProgressView::SigningFailed(SignerAuthErrorView::LocalSigner(m)),
        ) == Some(
            ConnectErrorView {
                kind: ConnectErrorKind::LocalSignerFailure,
                stage: ConnectStage::Authenticate,
                message: "local signer could not sign: "@ + m,
            },
        ),
        connect_failure(
            addr,
            ConnectProgressView::SigningFailed(SignerAuthErrorView::Encode(m)),
        ) == Some(
            ConnectErrorView {
                kind: ConnectErrorKind::LocalSignerFailure,
                stage: ConnectStage::Authenticate,
                message: "signature encoding failed: "@ + m,
            },
        ),
        connect_failure(addr, ConnectProgressView::SigningFailed(SignerAuthErrorView::Send))
            == Some(
            ConnectErrorView {
                kind: ConnectErrorKind::RemoteAuthFailure,
                stage: ConnectStage::Authenticate,
                message: "transport closed during auth"@,
            },
        ),
        connect_failure(addr, ConnectProgressView::Rejected) == Some(
            ConnectErrorView {
                kind: ConnectErrorKind::RemoteAuthFailure,
                stage: ConnectStage::Authenticate,
                message: "server rejected the public key"@,
            },
        ),
{
}

/// A signer that gives no public key is a local failure, which reads as the signer's error
/// does.
pub proof fn a_signer_without_a_key_is_a_local_failure(addr: Seq<char>, e: SignerErrorView)
    ensures
        connect_failure(addr, ConnectProgressView::KeyFailed(e)) == Some(
            ConnectErrorView {
                kind: ConnectErrorKind::LocalSignerFailure,
                stage: ConnectStage::Authenticate,
                message: "could not read public key from signer: "@ + signer::error_text(e),
            },
        ),
{
}

/// A failed handshake is the failure of its host-key check if that refused the key, and reads
/// as this; otherwise it is the transport's. The address plays no part.
pub proof fn failed_handshakes_read(
    addr: Seq<char>,
    saved: Seq<char>,
    presented: Seq<char>,
    cause: Seq<char>,
)
    ensures
        forall|outcome: Option<HostKeyOutcomeView>| #[trigger]
            connect_failure(addr, ConnectProgressView::HandshakeFailed(outcome, cause)) == Some(
                handshake_failure(outcome, cause),
            ),
        handshake_failure(
            Some(
                HostKeyOutcomeView::Mismatch {
                    saved_fingerprint: saved,
                    presented_fingerprint: presented,
                },
            ),
            cause,
        ) == (ConnectErrorView {
            kind: ConnectErrorKind::HostKeyMismatch,
            stage: ConnectStage::HostKeyCheck,
            message: "host key changed: saved "@ + saved + ", presented "@ + presented,
        }),
        handshake_failure(Some(HostKeyOutcomeView::PromptRejected), cause) == (ConnectErrorView {
            kind: ConnectErrorKind::UntrustedHostKey,
            stage: ConnectStage::HostKeyCheck,
            message: "host key trust prompt was rejected"@,
        }),
        handshake_failure(Some(HostKeyOutcomeView::PromptTimedOut), cause) == (ConnectErrorView {
            kind: ConnectErrorKind::UntrustedHostKey,
            stage: ConnectStage::HostKeyCheck,
            message: "host key trust prompt timed out"@,
        }),
        handshake_failure(Some(HostKeyOutcomeView::StoreError(saved)), cause) == (
        ConnectErrorView {
            kind: ConnectErrorKind::UntrustedHostKey,
            stage: ConnectStage::HostKeyCheck,
            message: "known-hosts store error during host-key check: "@ + saved,
        }),
        ({
            let transport = ConnectErrorView {
                kind: ConnectErrorKind::Unreachable,
                stage: ConnectStage::TcpConnect,
                message: "handshake failed: "@ + cause,
            };
            handshake_failure(None, cause) == transport && handshake_failure(
                Some(HostKeyOutcomeView::Known),
                cause,
            ) == transport && handshake_failure(Some(HostKeyOutcomeView::Trusted), cause)
                == transport
        }),
{
}

/// The model of a piece of progress is the same piece, with the models of what it carries.
pub proof fn progress_models_keep_the_progress(progress: ConnectProgress)
    ensures
        progress is SocketOpened <==> progress@ is SocketOpened,
        progress matches ConnectProgress::SocketFailed(m) ==> progress@
            == ConnectProgressView::SocketFailed(m@),
        progress is SocketTimedOut <==> progress@ is SocketTimedOut,
        progress is HandshakeDone <==> progress@ is HandshakeDone,
        progress matches ConnectProgress::HandshakeFailed(Some(o), m) ==> progress@
            == ConnectProgressView::HandshakeFailed(Some(o@), m@),
        progress matches ConnectProgress::HandshakeFailed(None, m) ==> progress@
            == ConnectProgressView::HandshakeFailed(None, m@),
        progress matches ConnectProgress::KeyRead(line) ==> progress@
            == ConnectProgressView::KeyRead(line@),
        progress matches ConnectProgress::KeyFailed(e) ==> progress@
            == ConnectProgressView::KeyFailed(e@),
        progress is Accepted <==> progress@ is Accepted,
        progress is Rejected <==> progress@ is Rejected,
        progress matches ConnectProgress::SigningFailed(e) ==> progress@
            == ConnectProgressView::SigningFailed(e@),
{
}

/// The model of an optional outcome is that of the outcome, where there is one.
pub proof fn outcome_models_keep_the_outcome(outcome: Option<HostKeyOutcome>)
    ensures
        outcome matches Some(o) ==> outcome_view(outcome) == Some(o@),
        outcome is None ==> outcome_view(outcome) is None,
{
}

/// The host of an address that starts with a bracket is what stands before the first closing
/// one, if there is one, whatever follows.
pub proof fn the_host_stands_between_brackets(addr: Seq<char>, end: int)
    requires
        0 < end < addr.len(),
        addr[0] == '[',
        addr[end] == ']',
        forall|i: int| 0 < i < end ==> #[trigger] addr[i] != ']',
    ensures
        host_of(addr) == addr.subrange(1, end),
{
    lemma_first_of(addr, ']', end);
}

/// The host of any other address is what stands before its last colon, if there is one.
pub proof fn the_host_stands_before_the_last_colon(addr: Seq<char>, colon: int)
    requires
        addr.len() > 0 && addr[0] == '[' ==> !addr.contains(']'),
        0 <= colon < addr.len(),
        addr[colon] == ':',
        forall|i: int| colon < i < addr.len() ==> #[trigger] addr[i] != ':',
    ensures
        host_of(addr) == addr.take(colon),
{
    lemma_last_of(addr, ':', colon);
    if addr[0] == '[' {
        assert forall|i: int| 0 <= i < addr.len() implies #[trigger] addr[i] != ']' by {
            assert(addr.contains(addr[i]));
        }
        lemma_first_of(addr, ']', addr.len() as int);
    }
}

/// The host of an address without a bracketed host and without a colon is the whole address.
pub proof fn an_address_without_a_port_is_its_host(addr: Seq<char>)
    requires
        addr.len() > 0 && addr[0] == '[' ==> !addr.contains(']'),
        !addr.contains(':'),
    ensures
        host_of(addr) == addr,
{
    assert forall|i: int| 0 <= i < addr.len() implies #[trigger] addr[i] != ':' by {
        assert(addr.contains(addr[i]));
    }
    lemma_last_of(addr, ':', -1);
    if addr.len() > 0 && addr[0] == '[' {
        assert forall|i: int| 0 <= i < addr.len() implies #[trigger] addr[i] != ']' by {
            assert(addr.contains(addr[i]));
        }
        lemma_first_of(addr, ']', addr.len() as int);
    }
}

/// A watch waits while the transport is open, reports a closed one that nobody closed on
/// purpose, and stops in silence otherwise.
pub proof fn a_watch_reports_unwanted_ends_only(closing: bool, over: bool, closed: bool)
    ensures
        watch_step(closing, over, closed) is Wait <==> !over && !closed,
        watch_step(closing, over, closed) is Stop <==> over || (closed && closing),
        watch_step(closing, over, closed) == WatchStep::Report(ConnectionEvent::Lost) <==> !over
            && closed && !closing,
{
}

} // verus!
