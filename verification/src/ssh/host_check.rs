//! The host-key check that runs inside the handshake.
//!
//! The known hosts decide first. For an unknown host the operator is asked, for a bounded
//! time; the key is accepted, and saved, only if they trust it. Everything else refuses
//! the key.

use crate::ssh::keys;
use crate::ssh::known_hosts;
use crate::ssh::known_hosts::{
    HostKeyDecider, HostKeyDecision, HostKeyDecisionView, KnownHostsError, KnownHostsErrorView,
};
use crate::text;
use vstd::prelude::*;

verus! {

/// The operator's answer to a trust prompt.
#[derive(Debug, Clone, Copy, PartialEq, Eq, Structural)]
pub enum TrustResponse {
    Trust,
    Reject,
}

/// What the operator is asked: whether to trust this fingerprint for this host.
#[derive(Debug, PartialEq, Eq)]
pub struct HostKeyPrompt {
    pub host: String,
    pub fingerprint: String,
}

/// What came of a trust prompt.
#[derive(Debug, Clone, Copy, PartialEq, Eq, Structural)]
pub enum PromptReply {
    /// The operator answered.
    Answered(TrustResponse),
    /// The prompt was dropped without an answer.
    Dropped,
    /// No answer came in time.
    TimedOut,
    /// Nobody was there to take the prompt.
    Undelivered,
}

/// What a host-key check ended in.
#[derive(Debug, PartialEq, Eq)]
pub enum HostKeyOutcome {
    Known,
    Trusted,
    PromptRejected,
    PromptTimedOut,
    Mismatch { saved_fingerprint: String, presented_fingerprint: String },
    StoreError(String),
}

/// The model of a [`HostKeyOutcome`].
#[verifier::ext_equal]
pub enum HostKeyOutcomeView {
    Known,
    Trusted,
    PromptRejected,
    PromptTimedOut,
    Mismatch { saved_fingerprint: Seq<char>, presented_fingerprint: Seq<char> },
    StoreError(Seq<char>),
}

impl View for HostKeyOutcome {
    type V = HostKeyOutcomeView;

    open spec fn view(&self) -> HostKeyOutcomeView {
        match self {
            HostKeyOutcome::Known => HostKeyOutcomeView::Known,
            HostKeyOutcome::Trusted => HostKeyOutcomeView::Trusted,
            HostKeyOutcome::PromptRejected => HostKeyOutcomeView::PromptRejected,
            HostKeyOutcome::PromptTimedOut => HostKeyOutcomeView::PromptTimedOut,
            HostKeyOutcome::Mismatch {
                saved_fingerprint,
                presented_fingerprint,
            } => HostKeyOutcomeView::Mismatch {
                saved_fingerprint: saved_fingerprint@,
                presented_fingerprint: presented_fingerprint@,
            },
            HostKeyOutcome::StoreError(m) => HostKeyOutcomeView::StoreError(m@),
        }
    }
}

/// Whether the handshake may go on after this outcome.
pub open spec fn accepts(outcome: HostKeyOutcomeView) -> bool {
    outcome is Known || outcome is Trusted
}

impl HostKeyOutcome {
    /// Whether the handshake may go on.
    pub fn accepted(&self) -> (r: bool)
        ensures
            r == accepts(self@),
    {
        match self {
            HostKeyOutcome::Known => true,
            HostKeyOutcome::Trusted => true,
            _ => false,
        }
    }
}

/// A host-key check that waits for the operator, which it does for a host that was decided to
/// be unknown.
pub struct PendingCheck {
    host: String,
    line: String,
}

impl PendingCheck {
    /// The host that is asked about.
    pub closed spec fn host(&self) -> Seq<char> {
        self.host@
    }

    /// The OpenSSH line of the presented key.
    pub closed spec fn line(&self) -> Seq<char> {
        self.line@
    }
}

/// Where a host-key check stands after its first part.
pub enum CheckStep {
    /// It is over.
    Done(HostKeyOutcome),
    /// The operator is to be asked.
    Ask(HostKeyPrompt, PendingCheck),
}

/// The outcome of a check whose decision was a failure of the known-hosts layer.
pub open spec fn store_outcome(e: KnownHostsErrorView) -> HostKeyOutcomeView {
    HostKeyOutcomeView::StoreError(known_hosts::error_text(e))
}

/// Where the check of the presented `line` for `host` stands once the known hosts have
/// spoken.
pub open spec fn step_matches(
    step: CheckStep,
    host: Seq<char>,
    line: Seq<char>,
    decided: Result<HostKeyDecisionView, KnownHostsErrorView>,
) -> bool {
    match decided {
        Ok(HostKeyDecisionView::Known) => step matches CheckStep::Done(o) && o@
            == HostKeyOutcomeView::Known,
        Ok(HostKeyDecisionView::Unknown { fingerprint }) => step matches CheckStep::Ask(p, c)
            && p.host@ == host && p.fingerprint@ == fingerprint && c.host() == host && c.line()
            == line,
        Ok(
            HostKeyDecisionView::Mismatch { saved_fingerprint, presented_fingerprint },
        ) => step matches CheckStep::Done(o) && o@ == (HostKeyOutcomeView::Mismatch {
            saved_fingerprint,
            presented_fingerprint,
        }),
        Err(e) => step matches CheckStep::Done(o) && o@ == store_outcome(e),
    }
}

/// The view of a decision or its failure.
pub open spec fn decided_view(d: Result<HostKeyDecision, KnownHostsError>) -> Result<
    HostKeyDecisionView,
    KnownHostsErrorView,
> {
    match d {
        Ok(d) => Ok(d@),
        Err(e) => Err(e@),
    }
}

/// Takes a host-key check on from what the known hosts decided.
pub fn check_decided(
    host: &str,
    line: &str,
    decided: Result<HostKeyDecision, KnownHostsError>,
) -> (r: CheckStep)
    ensures
        step_matches(r, host@, line@, decided_view(decided)),
{
    match decided {
        Ok(HostKeyDecision::Known) => CheckStep::Done(HostKeyOutcome::Known),
        Ok(HostKeyDecision::Unknown { fingerprint }) => CheckStep::Ask(
            HostKeyPrompt { host: host.to_owned(), fingerprint },
            PendingCheck { host: host.to_owned(), line: line.to_owned() },
        ),
        Ok(HostKeyDecision::Mismatch { saved_fingerprint, presented_fingerprint }) => CheckStep::Done(
            HostKeyOutcome::Mismatch { saved_fingerprint, presented_fingerprint },
        ),
        Err(e) => CheckStep::Done(HostKeyOutcome::StoreError(e.to_string())),
    }
}

/// What the known hosts may decide about a presented line.
pub open spec fn may_decide<D: HostKeyDecider>(
    decider: &D,
    host: Seq<char>,
    line: Seq<char>,
    decided: Result<HostKeyDecisionView, KnownHostsErrorView>,
) -> bool {
    match keys::openssh_public(line) {
        Ok(key) => match decided {
            Ok(d) => d == known_hosts::decision(decider.known(), host, key),
            Err(e) => decider.read_error(e),
        },
        Err(m) => decided == Err::<HostKeyDecisionView, KnownHostsErrorView>(
            KnownHostsErrorView::InvalidKey(m),
        ),
    }
}

/// Whether the presented key is the known one.
pub open spec fn is_known_key<D: HostKeyDecider>(
    decider: &D,
    host: Seq<char>,
    presented: Result<String, String>,
) -> bool {
    match presented {
        Ok(line) => match keys::openssh_public(line@) {
            Ok(key) => known_hosts::decision(decider.known(), host, key) is Known,
            Err(_) => false,
        },
        Err(_) => false,
    }
}

/// Begins the check of the key that `host` presents, given as its OpenSSH line or as the
/// reason why it has none.
pub fn begin_host_key_check<D: HostKeyDecider>(
    decider: &D,
    host: &str,
    presented: Result<String, String>,
) -> (r: CheckStep)
    ensures
        (match presented {
            Ok(line) => exists|decided: Result<HostKeyDecisionView, KnownHostsErrorView>| #[trigger]
                may_decide(decider, host@, line@, decided) && step_matches(
                    r,
                    host@,
                    line@,
                    decided,
                ),
            Err(cause) => r matches CheckStep::Done(o) && o@ == HostKeyOutcomeView::StoreError(
                "could not encode presented host key: "@ + cause@,
            ),
        }),
        r is Ask ==> !decider.known().contains_key(host@),
        (r matches CheckStep::Done(o) && accepts(o@)) ==> is_known_key(decider, host@, presented),
{
    match presented {
        Ok(line) => {
            let decided = decider.decide_openssh(host, line.as_str());
            assert(may_decide(decider, host@, line@, decided_view(decided)));
            check_decided(host, line.as_str(), decided)
        },
        Err(cause) => CheckStep::Done(
            HostKeyOutcome::StoreError(
                text::joined("could not encode presented host key: ", cause.as_str()),
            ),
        ),
    }
}

/// Whether saving a trusted key may end in the error `e` and lead to `after`.
pub open spec fn may_fail<D: HostKeyDecider>(
    before: &D,
    e: KnownHostsErrorView,
    after: &D,
) -> bool {
    ||| before.read_error(e) && after.known() == before.known()
    ||| before.write_error(e)
}

/// Ends a host-key check with what came of the prompt. A trusted key is saved; if that
/// fails the key is not accepted. Any other reply, the lack of one included, refuses the key
/// and leaves the known hosts as they are.
pub fn finish_host_key_check<D: HostKeyDecider>(
    decider: &mut D,
    check: PendingCheck,
    reply: PromptReply,
) -> (r: HostKeyOutcome)
    ensures
        (match reply {
            PromptReply::Answered(TrustResponse::Trust) => match keys::openssh_public(
                check.line(),
            ) {
                Ok(key) => {
                    ||| {
                        &&& r@ == HostKeyOutcomeView::Trusted
                        &&& final(decider).known() == old(decider).known().insert(
                            check.host(),
                            keys::openssh_public_line(key.wire, key.comment)->Ok_0,
                        )
                        &&& known_hosts::decision(final(decider).known(), check.host(), key)
                            is Known
                    }
                    ||| exists|e: KnownHostsErrorView|
                        r@ == #[trigger] store_outcome(e) && may_fail(old(decider), e, final(decider))
                },
                Err(m) => {
                    &&& r@ == store_outcome(KnownHostsErrorView::InvalidKey(m))
                    &&& final(decider).known() == old(decider).known()
                },
            },
            PromptReply::TimedOut => {
                &&& r@ == HostKeyOutcomeView::PromptTimedOut
                &&& final(decider).known() == old(decider).known()
            },
            _ => {
                &&& r@ == HostKeyOutcomeView::PromptRejected
                &&& final(decider).known() == old(decider).known()
            },
        }),
        accepts(r@) ==> reply == PromptReply::Answered(TrustResponse::Trust),
{
    match reply {
        PromptReply::Answered(TrustResponse::Trust) => {
            match decider.trust_openssh(check.host.as_str(), check.line.as_str()) {
                Ok(_) => HostKeyOutcome::Trusted,
                Err(e) => {
                    let m = e.to_string();
                    assert(store_outcome(e@) == HostKeyOutcomeView::StoreError(m@));
                    HostKeyOutcome::StoreError(m)
                },
            }
        },
        PromptReply::TimedOut => HostKeyOutcome::PromptTimedOut,
        _ => HostKeyOutcome::PromptRejected,
    }
}

/// Trusting a host that was unknown when the check began replaces no saved key.
pub proof fn trusting_replaces_no_saved_key(
    hosts: known_hosts::HostMap,
    host: Seq<char>,
    line: Seq<char>,
    other: Seq<char>,
)
    requires
        !hosts.contains_key(host),
        hosts.contains_key(other),
    ensures
        hosts.insert(host, line).contains_key(other),
        hosts.insert(host, line)[other] == hosts[other],
{
}

/// The handshake goes on after a known and after a trusted key, and after nothing else.
pub proof fn only_known_and_trusted_keys_are_accepted(outcome: HostKeyOutcomeView)
    ensures
        accepts(outcome) <==> (outcome is Known || outcome is Trusted),
{
}

/// The model of an outcome is the same outcome, with what it carries.
pub proof fn outcome_models_keep_the_values(o: HostKeyOutcome)
    ensures
        o is Known <==> o@ is Known,
        o is Trusted <==> o@ is Trusted,
        o is PromptRejected <==> o@ is PromptRejected,
        o is PromptTimedOut <==> o@ is PromptTimedOut,
        o matches HostKeyOutcome::Mismatch { saved_fingerprint, presented_fingerprint } ==> o@ == (
        HostKeyOutcomeView::Mismatch {
            saved_fingerprint: saved_fingerprint@,
            presented_fingerprint: presented_fingerprint@,
        }),
        o matches HostKeyOutcome::StoreError(m) ==> o@ == HostKeyOutcomeView::StoreError(m@),
{
}

/// A known key passes at once, an unknown one is put to the operator with its host and its
/// fingerprint, a mismatch and a failure end the check; and nothing else leads there.
pub proof fn the_step_follows_the_decision(
    step: CheckStep,
    host: Seq<char>,
    line: Seq<char>,
    decided: Result<HostKeyDecisionView, KnownHostsErrorView>,
)
    requires
        step_matches(step, host, line, decided),
    ensures
        step is Ask <==> (decided is Ok && decided->Ok_0 is Unknown),
        (step matches CheckStep::Done(o) && o@ is Known) <==> (decided is Ok
            && decided->Ok_0 is Known),
        step matches CheckStep::Done(o) ==> !(o@ is Trusted) && !(o@ is PromptRejected) && !(
        o@ is PromptTimedOut),
        decided matches Ok(HostKeyDecisionView::Unknown { fingerprint }) ==> (
        step matches CheckStep::Ask(p, c) && p.host@ == host && p.fingerprint@ == fingerprint
            && c.host() == host && c.line() == line),
        decided matches Ok(
            HostKeyDecisionView::Mismatch { saved_fingerprint, presented_fingerprint },
        ) ==> (step matches CheckStep::Done(o) && o@ == (HostKeyOutcomeView::Mismatch {
            saved_fingerprint,
            presented_fingerprint,
        })),
        decided matches Err(KnownHostsErrorView::Backend(m)) ==> (step matches CheckStep::Done(o)
            && o@ == HostKeyOutcomeView::StoreError("known-hosts store error: "@ + m)),
        decided matches Err(KnownHostsErrorView::InvalidKey(m)) ==> (step matches CheckStep::Done(o)
            && o@ == HostKeyOutcomeView::StoreError("invalid host key: "@ + m)),
{
}

/// The model of a decision or its failure is that of what there is.
pub proof fn decided_models_keep_the_values(d: Result<HostKeyDecision, KnownHostsError>)
    ensures
        d matches Ok(x) ==> decided_view(d) == Ok::<HostKeyDecisionView, KnownHostsErrorView>(x@),
        d matches Err(e) ==> decided_view(d) == Err::<HostKeyDecisionView, KnownHostsErrorView>(
            e@,
        ),
{
}

/// The known hosts decide about the key of a readable line as their rules say, unless reading
/// them fails, and never about an unreadable line.
pub proof fn decisions_go_by_the_rules<D: HostKeyDecider>(
    decider: D,
    host: Seq<char>,
    line: Seq<char>,
    decided: Result<HostKeyDecisionView, KnownHostsErrorView>,
)
    requires
        may_decide(&decider, host, line, decided),
    ensures
        decided matches Ok(d) ==> (keys::openssh_public(line) matches Ok(key) && d
            == known_hosts::decision(decider.known(), host, key)),
        decided matches Err(e) ==> (match keys::openssh_public(line) {
            Ok(_) => decider.read_error(e),
            Err(m) => e == KnownHostsErrorView::InvalidKey(m),
        }),
{
}

/// A key is the known one only if its line can be read and the saved line of the host holds
/// the same key data.
pub proof fn known_keys_are_saved<D: HostKeyDecider>(
    decider: D,
    host: Seq<char>,
    presented: Result<String, String>,
)
    ensures
        is_known_key(&decider, host, presented) <==> {
            &&& presented matches Ok(line)
            &&& keys::openssh_public(line@) matches Ok(key)
            &&& decider.known().contains_key(host)
            &&& keys::openssh_public(decider.known()[host]) matches Ok(saved)
            &&& saved.wire == key.wire
        },
{
}

/// Saving a key fails only as the known hosts do, and a failure to read them leaves them as
/// they are; it ends the check with what the failure reads.
pub proof fn failures_to_save_are_the_stores<D: HostKeyDecider>(
    before: D,
    e: KnownHostsErrorView,
    after: D,
)
    ensures
        may_fail(&before, e, &after) ==> (before.read_error(e) && after.known() == before.known())
            || before.write_error(e),
        store_outcome(e) == HostKeyOutcomeView::StoreError(known_hosts::error_text(e)),
{
}

} // verus!
