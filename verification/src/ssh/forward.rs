//! The dashboard forward: the probe of the dashboard port and the local end of the tunnel.
//!
//! The probe opens one channel to the dashboard port and closes it again. A server that
//! finds nothing listening refuses the channel, or opens it and then closes it at once. A
//! channel that stays open for a short while, or that carries anything, has a listener
//! behind it.
//!
//! The local end listens on the loopback address only, on a port that the operating system
//! picks.

use crate::ssh::channels::{ChannelMessage, ChannelMessageView};
use crate::ssh::pipeline;
use crate::ssh::pipeline::{ConnectError, ConnectErrorKind, ConnectErrorView, ConnectStage};
use crate::text;
use vstd::prelude::*;

verus! {

/// The address that the local end listens on, and that the server is told as the origin of
/// a forwarded connection.
pub const LOOPBACK_HOST: &'static str = "127.0.0.1";

/// Time for which a probe listens on the channel that was opened, in milliseconds.
pub const PROBE_SETTLE_WINDOW_MS: u64 = 250;

/// The failure to reach the dashboard.
pub open spec fn wrong_port(message: Seq<char>) -> ConnectErrorView {
    pipeline::failure(ConnectErrorKind::WrongDashboardPort, ConnectStage::ProbeDashboard, message)
}

fn wrong_port_error(message: &str) -> (r: ConnectError)
    ensures
        r@ == wrong_port(message@),
{
    ConnectError::new(ConnectErrorKind::WrongDashboardPort, ConnectStage::ProbeDashboard, message)
}

/// What came of opening the probe channel.
pub enum ProbeOpening {
    /// The channel is open.
    Opened,
    /// The server refused the channel.
    Refused,
    /// The channel could not be opened for another cause.
    Failed(String),
}

/// What a probe found.
#[derive(Debug, Clone, Copy, PartialEq, Eq, Structural)]
pub enum ProbeVerdict {
    /// Something listens.
    Healthy,
    /// The forwarded connection was closed at once.
    Refused,
}

/// What a message on the probe channel says, if it says anything.
pub open spec fn verdict_of(message: ChannelMessageView) -> Option<ProbeVerdict> {
    match message {
        ChannelMessageView::Data(_) => Some(ProbeVerdict::Healthy),
        ChannelMessageView::ExtendedData(_) => Some(ProbeVerdict::Healthy),
        ChannelMessageView::WindowAdjusted => Some(ProbeVerdict::Healthy),
        ChannelMessageView::Eof => Some(ProbeVerdict::Refused),
        ChannelMessageView::Close => Some(ProbeVerdict::Refused),
        ChannelMessageView::Ended => Some(ProbeVerdict::Refused),
        _ => None,
    }
}

/// The failure that the opening of the probe channel amounts to, if it is one.
pub open spec fn opening_failure(port: u16, opening: ProbeOpening) -> Option<ConnectErrorView> {
    match opening {
        ProbeOpening::Opened => None,
        ProbeOpening::Refused => Some(
            wrong_port(
                "nothing listening on port "@ + text::decimal(port as nat)
                    + " (the server refused the dashboard connection)"@,
            ),
        ),
        ProbeOpening::Failed(cause) => Some(
            wrong_port(
                "could not probe dashboard port "@ + text::decimal(port as nat) + ": "@ + cause@,
            ),
        ),
    }
}

/// The failure that a verdict amounts to, if it is one. No verdict within the window is a
/// channel that stayed open.
pub open spec fn verdict_failure(
    port: u16,
    verdict: Option<ProbeVerdict>,
) -> Option<ConnectErrorView> {
    match verdict {
        Some(ProbeVerdict::Refused) => Some(
            wrong_port(
                "nothing listening on port "@ + text::decimal(port as nat)
                    + " (the forwarded dashboard connection was closed immediately)"@,
            ),
        ),
        _ => None,
    }
}

/// The probe of a dashboard port.
pub struct DashboardProbe {
    port: u16,
}

impl DashboardProbe {
    /// The port that is probed.
    pub closed spec fn port(&self) -> u16 {
        self.port
    }

    /// The probe of `remote_port`.
    pub fn new(remote_port: u16) -> (r: Self)
        ensures
            r.port() == remote_port,
    {
        DashboardProbe { port: remote_port }
    }

    fn failure(&self, before: &str, after: &str) -> (r: ConnectError)
        ensures
            r@ == wrong_port(before@ + text::decimal(self.port() as nat) + after@),
    {
        let mut m = text::joined(before, text::decimal_text(self.port as u64).as_str());
        m.append(after);
        wrong_port_error(m.as_str())
    }

    /// Takes what came of opening the channel: a failure ends the probe.
    pub fn opened(&self, opening: ProbeOpening) -> (r: Result<(), ConnectError>)
        ensures
            (match opening_failure(self.port(), opening) {
                Some(e) => r matches Err(f) && f@ == e,
                None => r is Ok,
            }),
    {
        match opening {
            ProbeOpening::Opened => Ok(()),
            ProbeOpening::Refused => Err(
                self.failure(
                    "nothing listening on port ",
                    " (the server refused the dashboard connection)",
                ),
            ),
            ProbeOpening::Failed(cause) => {
                let after = text::joined(": ", cause.as_str());
                let e = self.failure("could not probe dashboard port ", after.as_str());
                assert(e@.message =~= "could not probe dashboard port "@ + text::decimal(
                    self.port() as nat,
                ) + ": "@ + cause@);
                Err(e)
            },
        }
    }

    /// What a message on the channel says, if it says anything.
    pub fn heard(&self, message: &ChannelMessage) -> (r: Option<ProbeVerdict>)
        ensures
            r == verdict_of(message@),
    {
        match message {
            ChannelMessage::Data(_) => Some(ProbeVerdict::Healthy),
            ChannelMessage::ExtendedData(_) => Some(ProbeVerdict::Healthy),
            ChannelMessage::WindowAdjusted => Some(ProbeVerdict::Healthy),
            ChannelMessage::Eof => Some(ProbeVerdict::Refused),
            ChannelMessage::Close => Some(ProbeVerdict::Refused),
            ChannelMessage::Ended => Some(ProbeVerdict::Refused),
            _ => None,
        }
    }

    /// Ends the probe, with the verdict that was reached within the window.
    pub fn settled(&self, verdict: Option<ProbeVerdict>) -> (r: Result<(), ConnectError>)
        ensures
            (match verdict_failure(self.port(), verdict) {
                Some(e) => r matches Err(f) && f@ == e,
                None => r is Ok,
            }),
    {
        match verdict {
            Some(ProbeVerdict::Refused) => Err(
                self.failure(
                    "nothing listening on port ",
                    " (the forwarded dashboard connection was closed immediately)",
                ),
            ),
            _ => Ok(()),
        }
    }
}

/// The verdict that messages lead to: that of the first one that says anything.
pub open spec fn verdict_of_all(messages: Seq<ChannelMessageView>) -> Option<ProbeVerdict>
    decreases messages.len(),
{
    if messages.len() == 0 {
        None
    } else if verdict_of(messages[0]) is Some {
        verdict_of(messages[0])
    } else {
        verdict_of_all(messages.drop_first())
    }
}

/// A probe fails only if the server refused or broke the channel, or ended it before
/// anything else came; a channel that stays silent, or carries anything first, passes.
pub proof fn probe_fails_only_on_refusal(port: u16, messages: Seq<ChannelMessageView>)
    ensures
        verdict_failure(port, verdict_of_all(messages)) is Some <==> (exists|i: int|
            0 <= i < messages.len() && verdict_of(#[trigger] messages[i]) == Some(
                ProbeVerdict::Refused,
            ) && forall|j: int| 0 <= j < i ==> verdict_of(#[trigger] messages[j]) is None),
    decreases messages.len(),
{
    if messages.len() > 0 {
        let rest = messages.drop_first();
        if verdict_of(messages[0]) is None {
            probe_fails_only_on_refusal(port, rest);
            if verdict_failure(port, verdict_of_all(rest)) is Some {
                let i = choose|i: int|
                    0 <= i < rest.len() && verdict_of(#[trigger] rest[i]) == Some(
                        ProbeVerdict::Refused,
                    ) && forall|j: int| 0 <= j < i ==> verdict_of(#[trigger] rest[j]) is None;
                assert(messages[i + 1] == rest[i]);
                assert forall|j: int| 0 <= j < i + 1 implies verdict_of(
                    #[trigger] messages[j],
                ) is None by {
                    if j > 0 {
                        assert(messages[j] == rest[j - 1]);
                    }
                }
            }
            if exists|i: int|
                0 <= i < messages.len() && verdict_of(#[trigger] messages[i]) == Some(
                    ProbeVerdict::Refused,
                ) && forall|j: int| 0 <= j < i ==> verdict_of(#[trigger] messages[j]) is None {
                let i = choose|i: int|
                    0 <= i < messages.len() && verdict_of(#[trigger] messages[i]) == Some(
                        ProbeVerdict::Refused,
                    ) && forall|j: int| 0 <= j < i ==> verdict_of(#[trigger] messages[j]) is None;
                assert(i > 0);
                assert(rest[i - 1] == messages[i]);
                assert forall|j: int| 0 <= j < i - 1 implies verdict_of(
                    #[trigger] rest[j],
                ) is None by {
                    assert(rest[j] == messages[j + 1]);
                }
            }
        } else if verdict_of(messages[0]) == Some(ProbeVerdict::Refused) {
            assert(verdict_of(messages[0]) == Some(ProbeVerdict::Refused));
        }
    }
}

/// Every failure of a probe is a wrong dashboard port at the probe stage, which is neither
/// an authentication nor a transport failure.
pub proof fn probe_failures_are_classified(
    port: u16,
    opening: ProbeOpening,
    verdict: Option<ProbeVerdict>,
)
    ensures
        opening_failure(port, opening) matches Some(e) ==> e.kind
            == ConnectErrorKind::WrongDashboardPort && e.stage == ConnectStage::ProbeDashboard,
        verdict_failure(port, verdict) matches Some(e) ==> e.kind
            == ConnectErrorKind::WrongDashboardPort && e.stage == ConnectStage::ProbeDashboard,
{
}

/// The failure of the local end to listen.
pub fn bind_failure(cause: &str) -> (r: ConnectError)
    ensures
        r@ == wrong_port("could not bind loopback forward listener: "@ + cause@),
{
    wrong_port_error(text::joined("could not bind loopback forward listener: ", cause).as_str())
}

/// The failure to tell which port the local end listens on.
pub fn address_failure(cause: &str) -> (r: ConnectError)
    ensures
        r@ == wrong_port("could not read forward listener address: "@ + cause@),
{
    wrong_port_error(text::joined("could not read forward listener address: ", cause).as_str())
}

/// The URL of the dashboard at a local port.
pub open spec fn dashboard_url(port: u16) -> Seq<char> {
    "http://127.0.0.1:"@ + text::decimal(port as nat)
}

/// The URL of the dashboard at a local port.
pub fn local_dashboard_url(local_port: u16) -> (r: String)
    ensures
        r@ == dashboard_url(local_port),
{
    text::joined("http://127.0.0.1:", text::decimal_text(local_port as u64).as_str())
}

/// The local end of a tunnel.
#[derive(Debug, PartialEq, Eq)]
pub struct Forward {
    local_port: u16,
}

impl Forward {
    /// The port that is listened on.
    pub closed spec fn port(&self) -> u16 {
        self.local_port
    }

    /// The local end at the port that the operating system picked.
    pub fn new(local_port: u16) -> (r: Self)
        ensures
            r.port() == local_port,
    {
        Forward { local_port }
    }

    /// The port that is listened on.
    pub fn local_port(&self) -> (r: u16)
        ensures
            r == self.port(),
    {
        self.local_port
    }

    /// The URL to open in the browser.
    pub fn local_url(&self) -> (r: String)
        ensures
            r@ == dashboard_url(self.port()),
    {
        local_dashboard_url(self.local_port)
    }
}

/// Distinct local ports have distinct URLs, all on the loopback address.
pub proof fn urls_are_loopback_and_distinct(a: u16, b: u16)
    ensures
        dashboard_url(a).take(17) == "http://127.0.0.1:"@,
        dashboard_url(a) == dashboard_url(b) ==> a == b,
{
    reveal_strlit("http://127.0.0.1:");
    assert(dashboard_url(a).take(17) =~= "http://127.0.0.1:"@);
    assert(dashboard_url(a).skip(17) =~= text::decimal(a as nat));
    assert(dashboard_url(b).skip(17) =~= text::decimal(b as nat));
    if dashboard_url(a) == dashboard_url(b) {
        text::decimal_is_injective(a as nat, b as nat);
    }
}

/// Why one forwarded connection ended badly. It ends no other.
#[derive(Debug, Clone, Copy, PartialEq, Eq, Structural)]
pub enum ForwardFault {
    /// The channel to the dashboard could not be opened.
    Open,
    /// Copying between the two ends failed.
    Copy,
}

/// What a fault of one forwarded connection reads.
pub open spec fn forward_fault_text(fault: ForwardFault, cause: Seq<char>) -> Seq<char> {
    match fault {
        ForwardFault::Open => "direct-tcpip open failed: "@ + cause,
        ForwardFault::Copy => "copy_bidirectional ended with error: "@ + cause,
    }
}

impl ForwardFault {
    /// What the fault of one forwarded connection reads.
    pub fn describe(self, cause: &str) -> (r: String)
        ensures
            r@ == forward_fault_text(self, cause@),
    {
        match self {
            ForwardFault::Open => text::joined("direct-tcpip open failed: ", cause),
            ForwardFault::Copy => text::joined("copy_bidirectional ended with error: ", cause),
        }
    }
}

/// The log line of a forwarded connection from `peer` that failed.
pub fn forward_log_line(peer: &str, remote_host: &str, remote_port: u16, failure: &str) -> (r:
    String)
    ensures
        r@ == "botbox: dashboard forward for "@ + peer@ + " \u{2192} "@ + remote_host@ + ":"@
            + text::decimal(remote_port as nat) + " failed: "@ + failure@,
{
    let mut s = text::joined("botbox: dashboard forward for ", peer);
    s.append(" \u{2192} ");
    s.append(remote_host);
    s.append(":");
    s.append(text::decimal_text(remote_port as u64).as_str());
    s.append(" failed: ");
    s.append(failure);
    s
}

/// A failure to reach the dashboard is a wrong dashboard port at the probe stage.
pub proof fn unreached_dashboards_are_wrong_ports(message: Seq<char>)
    ensures
        wrong_port(message) == (ConnectErrorView {
            kind: ConnectErrorKind::WrongDashboardPort,
            stage: ConnectStage::ProbeDashboard,
            message,
        }),
{
}

/// Anything that the far side sends says that something listens, the end of the channel that
/// nothing does, and every other message says nothing.
pub proof fn what_messages_say_of_the_port(message: ChannelMessageView)
    ensures
        verdict_of(message) == Some(ProbeVerdict::Healthy) <==> (message is Data
            || message is ExtendedData || message is WindowAdjusted),
        verdict_of(message) == Some(ProbeVerdict::Refused) <==> (message is Eof || message is Close
            || message is Ended),
        verdict_of(message) is None <==> (message is Success || message is Failure
            || message is Other),
{
}

/// An open channel is no failure; a refused or failed one is, and the message names the port.
pub proof fn unopened_probes_read(port: u16, opening: ProbeOpening)
    ensures
        opening_failure(port, opening) is None <==> opening is Opened,
        opening is Refused ==> opening_failure(port, opening) == Some(
            wrong_port(
                "nothing listening on port "@ + text::decimal(port as nat)
                    + " (the server refused the dashboard connection)"@,
            ),
        ),
        opening matches ProbeOpening::Failed(cause) ==> opening_failure(port, opening) == Some(
            wrong_port(
                "could not probe dashboard port "@ + text::decimal(port as nat) + ": "@ + cause@,
            ),
        ),
{
}

/// A probe fails exactly on the verdict that nothing listens, for every port; silence passes.
pub proof fn only_a_refusal_fails_a_probe(port: u16)
    ensures
        verdict_failure(port, None) is None,
        verdict_failure(port, Some(ProbeVerdict::Healthy)) is None,
        verdict_failure(port, Some(ProbeVerdict::Refused)) == Some(
            wrong_port(
                "nothing listening on port "@ + text::decimal(port as nat)
                    + " (the forwarded dashboard connection was closed immediately)"@,
            ),
        ),
{
}

/// The URL of a port is the loopback address and then the port in decimal, and nothing else.
pub proof fn the_url_ends_with_the_port(port: u16)
    ensures
        dashboard_url(port) == "http://127.0.0.1:"@ + text::decimal(port as nat),
        text::decimal_value(dashboard_url(port).skip(17)) == port,
{
    reveal_strlit("http://127.0.0.1:");
    assert(dashboard_url(port).skip(17) =~= text::decimal(port as nat));
    text::decimal_reads_back(port as nat);
}

/// What each fault of a forwarded connection reads.
pub proof fn forward_faults_read(cause: Seq<char>)
    ensures
        forward_fault_text(ForwardFault::Open, cause) == "direct-tcpip open failed: "@ + cause,
        forward_fault_text(ForwardFault::Copy, cause) == "copy_bidirectional ended with error: "@
            + cause,
{
}

} // verus!
