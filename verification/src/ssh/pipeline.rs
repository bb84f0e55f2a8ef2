//! Connect stages and per-stage error classes.
//!
//! A connect attempt is an ordered sequence of stages:
//!
//! ```text
//! tcp-connect → host-key-check → authenticate → open-channels → probe-dashboard
//! ```
//!
//! Every failure carries the stage it occurred at and one of the error classes, and
//! both have a wire name that the user interface matches on.

use vstd::prelude::*;

verus! {

/// The ordered connect stages.
#[derive(Debug, Clone, Copy, PartialEq, Eq, Structural)]
pub enum ConnectStage {
    /// Open the TCP socket, with a connect timeout.
    TcpConnect,
    /// Trust-on-first-use verification of the host key.
    HostKeyCheck,
    /// Public-key authentication with the local signer.
    Authenticate,
    /// Open the host and attach terminals.
    OpenChannels,
    /// Probe the dashboard port.
    ProbeDashboard,
}

/// The wire name of a stage.
pub open spec fn stage_name(stage: ConnectStage) -> Seq<char> {
    match stage {
        ConnectStage::TcpConnect => "tcp-connect"@,
        ConnectStage::HostKeyCheck => "host-key-check"@,
        ConnectStage::Authenticate => "authenticate"@,
        ConnectStage::OpenChannels => "open-channels"@,
        ConnectStage::ProbeDashboard => "probe-dashboard"@,
    }
}

impl ConnectStage {
    /// The wire name of the stage.
    pub fn as_str(self) -> (r: &'static str)
        ensures
            r@ == stage_name(self),
    {
        match self {
            ConnectStage::TcpConnect => "tcp-connect",
            ConnectStage::HostKeyCheck => "host-key-check",
            ConnectStage::Authenticate => "authenticate",
            ConnectStage::OpenChannels => "open-channels",
            ConnectStage::ProbeDashboard => "probe-dashboard",
        }
    }
}

/// The connect error classes.
#[derive(Debug, Clone, Copy, PartialEq, Eq, Structural)]
pub enum ConnectErrorKind {
    /// TCP connect failed or timed out.
    Unreachable,
    /// The host key is not trusted; accepting the trust prompt recovers.
    UntrustedHostKey,
    /// The host key differs from the saved one; only an explicit removal of the saved
    /// key recovers.
    HostKeyMismatch,
    /// The server rejected our key.
    RemoteAuthFailure,
    /// The local signer could not produce a signature. Not a remote rejection: the
    /// operator must not be sent to provision a key that is already there.
    LocalSignerFailure,
    /// Nothing listens on the dashboard port.
    WrongDashboardPort,
    /// A terminal failed to open.
    AttachFailure,
    /// The transport died in mid-session.
    ConnectionLost,
}

/// The wire name of an error class.
pub open spec fn kind_name(kind: ConnectErrorKind) -> Seq<char> {
    match kind {
        ConnectErrorKind::Unreachable => "unreachable-host"@,
        ConnectErrorKind::UntrustedHostKey => "untrusted-host-key"@,
        ConnectErrorKind::HostKeyMismatch => "host-key-mismatch"@,
        ConnectErrorKind::RemoteAuthFailure => "remote-auth-failure"@,
        ConnectErrorKind::LocalSignerFailure => "local-signer-failure"@,
        ConnectErrorKind::WrongDashboardPort => "wrong-dashboard-port"@,
        ConnectErrorKind::AttachFailure => "attach-failure"@,
        ConnectErrorKind::ConnectionLost => "connection-lost"@,
    }
}

impl ConnectErrorKind {
    /// The wire name of the error class.
    pub fn as_kind(self) -> (r: &'static str)
        ensures
            r@ == kind_name(self),
    {
        match self {
            ConnectErrorKind::Unreachable => "unreachable-host",
            ConnectErrorKind::UntrustedHostKey => "untrusted-host-key",
            ConnectErrorKind::HostKeyMismatch => "host-key-mismatch",
            ConnectErrorKind::RemoteAuthFailure => "remote-auth-failure",
            ConnectErrorKind::LocalSignerFailure => "local-signer-failure",
            ConnectErrorKind::WrongDashboardPort => "wrong-dashboard-port",
            ConnectErrorKind::AttachFailure => "attach-failure",
            ConnectErrorKind::ConnectionLost => "connection-lost",
        }
    }
}

/// The class of a failure at `stage` that nothing classifies more precisely.
pub open spec fn default_kind(stage: ConnectStage) -> ConnectErrorKind {
    match stage {
        ConnectStage::TcpConnect => ConnectErrorKind::Unreachable,
        ConnectStage::HostKeyCheck => ConnectErrorKind::UntrustedHostKey,
        ConnectStage::Authenticate => ConnectErrorKind::RemoteAuthFailure,
        ConnectStage::OpenChannels => ConnectErrorKind::AttachFailure,
        ConnectStage::ProbeDashboard => ConnectErrorKind::WrongDashboardPort,
    }
}

/// The class of a failure at `stage` that nothing classifies more precisely.
pub fn default_kind_for_stage(stage: ConnectStage) -> (r: ConnectErrorKind)
    ensures
        r == default_kind(stage),
{
    match stage {
        ConnectStage::TcpConnect => ConnectErrorKind::Unreachable,
        ConnectStage::HostKeyCheck => ConnectErrorKind::UntrustedHostKey,
        ConnectStage::Authenticate => ConnectErrorKind::RemoteAuthFailure,
        ConnectStage::OpenChannels => ConnectErrorKind::AttachFailure,
        ConnectStage::ProbeDashboard => ConnectErrorKind::WrongDashboardPort,
    }
}

/// A connect failure: its class, the stage it occurred at and a message that holds
/// no secret.
#[derive(Debug, PartialEq, Eq)]
pub struct ConnectError {
    pub kind: ConnectErrorKind,
    pub stage: ConnectStage,
    pub message: String,
}

/// The model of a [`ConnectError`].
#[verifier::ext_equal]
pub struct ConnectErrorView {
    pub kind: ConnectErrorKind,
    pub stage: ConnectStage,
    pub message: Seq<char>,
}

impl View for ConnectError {
    type V = ConnectErrorView;

    open spec fn view(&self) -> ConnectErrorView {
        ConnectErrorView { kind: self.kind, stage: self.stage, message: self.message@ }
    }
}

impl Clone for ConnectError {
    fn clone(&self) -> (r: Self)
        ensures
            r == *self,
    {
        ConnectError { kind: self.kind, stage: self.stage, message: self.message.clone() }
    }
}

/// The failure of class `kind` at `stage` with `message`.
pub open spec fn failure(
    kind: ConnectErrorKind,
    stage: ConnectStage,
    message: Seq<char>,
) -> ConnectErrorView {
    ConnectErrorView { kind, stage, message }
}

impl ConnectError {
    /// A failure of class `kind` at `stage`.
    pub fn new(kind: ConnectErrorKind, stage: ConnectStage, message: &str) -> (r: Self)
        ensures
            r@ == failure(kind, stage, message@),
    {
        ConnectError { kind, stage, message: message.to_owned() }
    }

    /// The failure as `[stage] message`.
    pub fn to_string(&self) -> (r: String)
        ensures
            r@ == "["@ + stage_name(self.stage) + "] "@ + self.message@,
    {
        let mut s = "[".to_owned();
        s.append(self.stage.as_str());
        s.append("] ");
        s.append(self.message.as_str());
        s
    }
}

/// No two stages share a wire name.
pub proof fn stage_names_are_distinct(a: ConnectStage, b: ConnectStage)
    requires
        stage_name(a) == stage_name(b),
    ensures
        a == b,
{
    reveal_strlit("tcp-connect");
    reveal_strlit("host-key-check");
    reveal_strlit("authenticate");
    reveal_strlit("open-channels");
    reveal_strlit("probe-dashboard");
    assert(stage_name(a).len() == 11 || stage_name(a).len() == 14 || stage_name(a).len() == 12
        || stage_name(a).len() == 13 || stage_name(a).len() == 15);
}

/// No two error classes share a wire name.
pub proof fn kind_names_are_distinct(a: ConnectErrorKind, b: ConnectErrorKind)
    requires
        kind_name(a) == kind_name(b),
    ensures
        a == b,
{
    reveal_strlit("unreachable-host");
    reveal_strlit("untrusted-host-key");
    reveal_strlit("host-key-mismatch");
    reveal_strlit("remote-auth-failure");
    reveal_strlit("local-signer-failure");
    reveal_strlit("wrong-dashboard-port");
    reveal_strlit("attach-failure");
    reveal_strlit("connection-lost");
    assert("local-signer-failure"@[0] == 'l');
    assert("wrong-dashboard-port"@[0] == 'w');
    assert(14 <= kind_name(a).len() <= 20);
}

/// Each stage has a default class of its own: the default tells the stage.
pub proof fn default_kinds_are_distinct(a: ConnectStage, b: ConnectStage)
    requires
        default_kind(a) == default_kind(b),
    ensures
        a == b,
{
}

/// A signer failure is never what a bare failure at a stage is taken for, so it is told
/// apart from a rejection by the server.
pub proof fn signer_failure_is_no_default(stage: ConnectStage)
    ensures
        default_kind(stage) != ConnectErrorKind::LocalSignerFailure,
        default_kind(stage) != ConnectErrorKind::HostKeyMismatch,
        default_kind(stage) != ConnectErrorKind::ConnectionLost,
{
}

/// The wire name of each stage, which the user interface matches on.
pub proof fn the_stage_names()
    ensures
        stage_name(ConnectStage::TcpConnect) == "tcp-connect"@,
        stage_name(ConnectStage::HostKeyCheck) == "host-key-check"@,
        stage_name(ConnectStage::Authenticate) == "authenticate"@,
        stage_name(ConnectStage::OpenChannels) == "open-channels"@,
        stage_name(ConnectStage::ProbeDashboard) == "probe-dashboard"@,
{
}

/// The wire name of each error class, which the user interface matches on.
pub proof fn the_kind_names()
    ensures
        kind_name(ConnectErrorKind::Unreachable) == "unreachable-host"@,
        kind_name(ConnectErrorKind::UntrustedHostKey) == "untrusted-host-key"@,
        kind_name(ConnectErrorKind::HostKeyMismatch) == "host-key-mismatch"@,
        kind_name(ConnectErrorKind::RemoteAuthFailure) == "remote-auth-failure"@,
        kind_name(ConnectErrorKind::LocalSignerFailure) == "local-signer-failure"@,
        kind_name(ConnectErrorKind::WrongDashboardPort) == "wrong-dashboard-port"@,
        kind_name(ConnectErrorKind::AttachFailure) == "attach-failure"@,
        kind_name(ConnectErrorKind::ConnectionLost) == "connection-lost"@,
{
}

/// The class of a bare failure at each stage.
pub proof fn the_default_kinds()
    ensures
        default_kind(ConnectStage::TcpConnect) == ConnectErrorKind::Unreachable,
        default_kind(ConnectStage::HostKeyCheck) == ConnectErrorKind::UntrustedHostKey,
        default_kind(ConnectStage::Authenticate) == ConnectErrorKind::RemoteAuthFailure,
        default_kind(ConnectStage::OpenChannels) == ConnectErrorKind::AttachFailure,
        default_kind(ConnectStage::ProbeDashboard) == ConnectErrorKind::WrongDashboardPort,
{
}

/// A failure keeps its class, its stage and its whole message, and so does its model.
pub proof fn failures_keep_what_they_are_made_of(
    kind: ConnectErrorKind,
    stage: ConnectStage,
    message: Seq<char>,
    e: ConnectError,
)
    ensures
        failure(kind, stage, message).kind == kind,
        failure(kind, stage, message).stage == stage,
        failure(kind, stage, message).message == message,
        e@.kind == e.kind,
        e@.stage == e.stage,
        e@.message == e.message@,
{
}

} // verus!
