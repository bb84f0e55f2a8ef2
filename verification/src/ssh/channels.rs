//! The host-shell and attach terminals.
//!
//! Both ride the one authenticated connection and open independently: a failed attach
//! leaves the host shell usable. Output is raw bytes from end to end: it is never decoded,
//! so that a character split over two messages arrives whole in the end.
//!
//! Small reads are coalesced: they are gathered into a buffer, which is handed on when it
//! has reached [`COALESCE_FLUSH_BYTES`] or when [`COALESCE_FLUSH_WINDOW_MS`] have passed
//! since its first byte. Payloads are only ever joined, in the order of their arrival, and
//! never split.

use crate::ssh::pipeline;
use crate::ssh::pipeline::{ConnectError, ConnectErrorKind, ConnectErrorView, ConnectStage};
use crate::ssh::wire;
use crate::text;
use vstd::prelude::*;

verus! {

/// Number of buffered bytes at which the buffer is handed on.
pub const COALESCE_FLUSH_BYTES: usize = 16 * 1024;

/// Time after its first byte at which the buffer is handed on, in milliseconds.
pub const COALESCE_FLUSH_WINDOW_MS: u64 = 8;

/// Terminal type that the remote side is told.
pub const PTY_TERM: &'static str = "xterm-256color";

/// The two terminals.
#[derive(Debug, Clone, Copy, PartialEq, Eq, Structural)]
pub enum PaneKind {
    /// The interactive host shell.
    Host,
    /// The attach session, which runs the bot's attach command.
    Attach,
}

/// The name of a terminal.
pub open spec fn pane_name(pane: PaneKind) -> Seq<char> {
    match pane {
        PaneKind::Host => "host"@,
        PaneKind::Attach => "attach"@,
    }
}

impl PaneKind {
    /// The name of the terminal.
    pub fn as_str(self) -> (r: &'static str)
        ensures
            r@ == pane_name(self),
    {
        match self {
            PaneKind::Host => "host",
            PaneKind::Attach => "attach",
        }
    }
}

/// The size of a terminal in character cells.
#[derive(Debug, Clone, Copy, PartialEq, Eq, Structural)]
pub struct PtySize {
    pub cols: u32,
    pub rows: u32,
}

impl PtySize {
    /// The given size.
    pub fn new(cols: u32, rows: u32) -> (r: Self)
        ensures
            r == (PtySize { cols, rows }),
    {
        PtySize { cols, rows }
    }
}

impl Default for PtySize {
    /// The size until the first resize.
    fn default() -> (r: Self)
        ensures
            r == (PtySize { cols: 80, rows: 24 }),
    {
        PtySize { cols: 80, rows: 24 }
    }
}

/// A message that arrived on a channel.
#[derive(Debug)]
pub enum ChannelMessage {
    /// Output.
    Data(Vec<u8>),
    /// Output of another stream, such as standard error.
    ExtendedData(Vec<u8>),
    /// More may be sent.
    WindowAdjusted,
    /// The last request was granted.
    Success,
    /// The last request was refused.
    Failure,
    /// No more output follows.
    Eof,
    /// The channel was closed.
    Close,
    /// The channel is gone: there are no more messages.
    Ended,
    /// Anything else.
    Other,
}

/// The model of a [`ChannelMessage`].
#[verifier::ext_equal]
pub enum ChannelMessageView {
    Data(Seq<u8>),
    ExtendedData(Seq<u8>),
    WindowAdjusted,
    Success,
    Failure,
    Eof,
    Close,
    Ended,
    Other,
}

impl View for ChannelMessage {
    type V = ChannelMessageView;

    open spec fn view(&self) -> ChannelMessageView {
        match self {
            ChannelMessage::Data(d) => ChannelMessageView::Data(d@),
            ChannelMessage::ExtendedData(d) => ChannelMessageView::ExtendedData(d@),
            ChannelMessage::WindowAdjusted => ChannelMessageView::WindowAdjusted,
            ChannelMessage::Success => ChannelMessageView::Success,
            ChannelMessage::Failure => ChannelMessageView::Failure,
            ChannelMessage::Eof => ChannelMessageView::Eof,
            ChannelMessage::Close => ChannelMessageView::Close,
            ChannelMessage::Ended => ChannelMessageView::Ended,
            ChannelMessage::Other => ChannelMessageView::Other,
        }
    }
}

/// The output that a message carries: both streams go to the one terminal.
pub open spec fn payload(message: ChannelMessageView) -> Seq<u8> {
    match message {
        ChannelMessageView::Data(d) => d,
        ChannelMessageView::ExtendedData(d) => d,
        _ => Seq::empty(),
    }
}

/// Whether a message means that no more output follows.
pub open spec fn is_end(message: ChannelMessageView) -> bool {
    message is Eof || message is Close || message is Ended
}

/// The failure of a terminal to open.
pub open spec fn attach_failure(message: Seq<char>) -> ConnectErrorView {
    pipeline::failure(ConnectErrorKind::AttachFailure, ConnectStage::OpenChannels, message)
}

fn attach_error(message: &str) -> (r: ConnectError)
    ensures
        r@ == attach_failure(message@),
{
    ConnectError::new(ConnectErrorKind::AttachFailure, ConnectStage::OpenChannels, message)
}

/// The next request of a terminal that is being opened.
#[derive(Debug, PartialEq, Eq)]
pub enum PtyRequest {
    /// Open a session channel.
    OpenSession,
    /// Ask for a terminal of this type and size, without a reply, so that the first reply
    /// on the channel is the one to the start request. The size in pixels is zero.
    RequestPty { term: String, size: PtySize },
    /// Start the login shell, and ask for a reply.
    StartShell,
    /// Run this command, and ask for a reply.
    Exec(Vec<u8>),
    /// Wait for the reply to the start request.
    AwaitReply,
}

/// The model of a [`PtyRequest`].
#[verifier::ext_equal]
pub enum PtyRequestView {
    OpenSession,
    RequestPty { term: Seq<char>, size: PtySize },
    StartShell,
    Exec(Seq<u8>),
    AwaitReply,
}

impl View for PtyRequest {
    type V = PtyRequestView;

    open spec fn view(&self) -> PtyRequestView {
        match self {
            PtyRequest::OpenSession => PtyRequestView::OpenSession,
            PtyRequest::RequestPty { term, size } => PtyRequestView::RequestPty {
                term: term@,
                size: *size,
            },
            PtyRequest::StartShell => PtyRequestView::StartShell,
            PtyRequest::Exec(command) => PtyRequestView::Exec(command@),
            PtyRequest::AwaitReply => PtyRequestView::AwaitReply,
        }
    }
}

/// How far the opening of a terminal has come.
#[derive(Debug, Clone, Copy, PartialEq, Eq, Structural)]
pub enum PtyPhase {
    Opening,
    Sizing,
    Starting,
    Waiting,
}

/// A terminal that is being opened: a session channel, then a terminal on it, then the
/// shell or the attach command, then the server's reply.
pub struct PtyOpening {
    size: PtySize,
    command: Option<String>,
    phase: PtyPhase,
}

/// The terminal that runs a command, or the login shell if there is none.
pub open spec fn pane_of(command: Option<Seq<char>>) -> PaneKind {
    match command {
        Some(_) => PaneKind::Attach,
        None => PaneKind::Host,
    }
}

/// The request of each phase.
pub open spec fn request_of(
    phase: PtyPhase,
    size: PtySize,
    command: Option<Seq<char>>,
) -> PtyRequestView {
    match phase {
        PtyPhase::Opening => PtyRequestView::OpenSession,
        PtyPhase::Sizing => PtyRequestView::RequestPty { term: PTY_TERM@, size },
        PtyPhase::Starting => match command {
            Some(c) => PtyRequestView::Exec(vstd::utf8::encode_utf8(c)),
            None => PtyRequestView::StartShell,
        },
        PtyPhase::Waiting => PtyRequestView::AwaitReply,
    }
}

/// The phase after the request of `phase` was sent.
pub open spec fn phase_after(phase: PtyPhase) -> PtyPhase {
    match phase {
        PtyPhase::Opening => PtyPhase::Sizing,
        PtyPhase::Sizing => PtyPhase::Starting,
        PtyPhase::Starting => PtyPhase::Waiting,
        PtyPhase::Waiting => PtyPhase::Waiting,
    }
}

/// The failure of the request of `phase` for the given cause.
pub open spec fn request_failure(
    phase: PtyPhase,
    command: Option<Seq<char>>,
    cause: Seq<char>,
) -> ConnectErrorView {
    attach_failure(
        match phase {
            PtyPhase::Opening => pane_name(pane_of(command)) + " session channel open failed: "@
                + cause,
            PtyPhase::Sizing => pane_name(pane_of(command)) + " request_pty failed: "@ + cause,
            _ => match command {
                Some(_) => "attach command exec failed: "@ + cause,
                None => "host shell request failed: "@ + cause,
            },
        },
    )
}

impl PtyOpening {
    /// The size that is asked for.
    pub closed spec fn size(&self) -> PtySize {
        self.size
    }

    /// The command that is run, if it is not the login shell.
    pub closed spec fn command(&self) -> Option<Seq<char>> {
        match self.command {
            Some(c) => Some(c@),
            None => None,
        }
    }

    /// How far the opening has come.
    pub closed spec fn at(&self) -> PtyPhase {
        self.phase
    }

    /// The opening of the host shell.
    pub fn host(size: PtySize) -> (r: Self)
        ensures
            r.size() == size,
            r.command() is None,
            r.at() == PtyPhase::Opening,
    {
        PtyOpening { size, command: None, phase: PtyPhase::Opening }
    }

    /// The opening of the attach terminal, which runs exactly `attach_command`.
    pub fn attach(attach_command: &str, size: PtySize) -> (r: Self)
        ensures
            r.size() == size,
            r.command() == Some(attach_command@),
            r.at() == PtyPhase::Opening,
    {
        PtyOpening { size, command: Some(attach_command.to_owned()), phase: PtyPhase::Opening }
    }

    /// The terminal that is being opened.
    pub fn pane(&self) -> (r: PaneKind)
        ensures
            r == pane_of(self.command()),
    {
        match &self.command {
            Some(_) => PaneKind::Attach,
            None => PaneKind::Host,
        }
    }

    /// The request to be sent.
    pub fn request(&self) -> (r: PtyRequest)
        ensures
            r@ == request_of(self.at(), self.size(), self.command()),
    {
        match self.phase {
            PtyPhase::Opening => PtyRequest::OpenSession,
            PtyPhase::Sizing => PtyRequest::RequestPty {
                term: PTY_TERM.to_owned(),
                size: self.size,
            },
            PtyPhase::Starting => match &self.command {
                Some(c) => PtyRequest::Exec(wire::copied(c.as_str().as_bytes())),
                None => PtyRequest::StartShell,
            },
            PtyPhase::Waiting => PtyRequest::AwaitReply,
        }
    }

    /// Takes the opening on by what came of sending the request.
    pub fn sent(&mut self, outcome: Result<(), String>) -> (r: Result<(), ConnectError>)
        requires
            old(self).at() != PtyPhase::Waiting,
        ensures
            final(self).size() == old(self).size(),
            final(self).command() == old(self).command(),
            (match outcome {
                Ok(_) => r is Ok && final(self).at() == phase_after(old(self).at()),
                Err(cause) => {
                    &&& r matches Err(e) && e@ == request_failure(
                        old(self).at(),
                        old(self).command(),
                        cause@,
                    )
                    &&& final(self).at() == old(self).at()
                },
            }),
    {
        match outcome {
            Ok(_) => {
                self.phase = match self.phase {
                    PtyPhase::Opening => PtyPhase::Sizing,
                    PtyPhase::Sizing => PtyPhase::Starting,
                    PtyPhase::Starting => PtyPhase::Waiting,
                    PtyPhase::Waiting => PtyPhase::Waiting,
                };
                Ok(())
            },
            Err(cause) => {
                let mut m = match self.phase {
                    PtyPhase::Opening => text::joined(
                        self.pane().as_str(),
                        " session channel open failed: ",
                    ),
                    PtyPhase::Sizing => text::joined(
                        self.pane().as_str(),
                        " request_pty failed: ",
                    ),
                    _ => match &self.command {
                        Some(_) => "attach command exec failed: ".to_owned(),
                        None => "host shell request failed: ".to_owned(),
                    },
                };
                m.append(cause.as_str());
                Err(attach_error(m.as_str()))
            },
        }
    }
}

/// The three requests that open a terminal come in order: the session, the terminal, the
/// start. The attach terminal runs its command byte for byte, and nothing else does.
pub proof fn requests_come_in_order(size: PtySize, command: Option<Seq<char>>)
    ensures
        request_of(PtyPhase::Opening, size, command) is OpenSession,
        request_of(phase_after(PtyPhase::Opening), size, command) == (PtyRequestView::RequestPty {
            term: "xterm-256color"@,
            size,
        }),
        request_of(phase_after(phase_after(PtyPhase::Opening)), size, command) == (match command {
            Some(c) => PtyRequestView::Exec(vstd::utf8::encode_utf8(c)),
            None => PtyRequestView::StartShell,
        }),
        request_of(
            phase_after(phase_after(phase_after(PtyPhase::Opening))),
            size,
            command,
        ) is AwaitReply,
{
}

/// What the start request of a terminal is called in messages.
pub open spec fn start_name(pane: PaneKind) -> Seq<char> {
    match pane {
        PaneKind::Host => "shell"@,
        PaneKind::Attach => "attach exec"@,
    }
}

/// What a message means to a terminal that waits for the reply to its start request.
pub enum ReplyStep {
    /// Keep waiting.
    Wait,
    /// The terminal has started; this output came before the reply.
    Started(Vec<u8>),
    /// The terminal did not start.
    Failed(ConnectError),
}

/// The model of a [`ReplyStep`].
#[verifier::ext_equal]
pub enum ReplyStepView {
    Wait,
    Started(Seq<u8>),
    Failed(ConnectErrorView),
}

impl View for ReplyStep {
    type V = ReplyStepView;

    open spec fn view(&self) -> ReplyStepView {
        match self {
            ReplyStep::Wait => ReplyStepView::Wait,
            ReplyStep::Started(early) => ReplyStepView::Started(early@),
            ReplyStep::Failed(e) => ReplyStepView::Failed(e@),
        }
    }
}

/// The failure of the start request of a terminal.
pub open spec fn start_failure(pane: PaneKind, how: Seq<char>) -> ConnectErrorView {
    attach_failure(pane_name(pane) + " "@ + start_name(pane) + how)
}

/// What a message means to a terminal that waits for the reply to its start request and has
/// had the output `early` so far.
pub open spec fn reply_step(
    pane: PaneKind,
    early: Seq<u8>,
    message: ChannelMessageView,
) -> ReplyStepView {
    if message is Success {
        ReplyStepView::Started(early)
    } else if message is Failure {
        ReplyStepView::Failed(start_failure(pane, " request was refused by the server"@))
    } else if is_end(message) {
        ReplyStepView::Failed(start_failure(pane, " channel closed before it started"@))
    } else {
        ReplyStepView::Wait
    }
}

/// The output that is kept after a message: what the message carries is added, and the reply
/// hands it all out.
pub open spec fn early_after(early: Seq<u8>, message: ChannelMessageView) -> Seq<u8> {
    if message is Success {
        Seq::empty()
    } else {
        early + payload(message)
    }
}

/// The wait for the reply to a start request. Output that comes before the reply is kept,
/// to be handed on first.
pub struct ReplyWait {
    pane: PaneKind,
    early: Vec<u8>,
}

impl ReplyWait {
    /// The terminal that waits.
    pub closed spec fn pane(&self) -> PaneKind {
        self.pane
    }

    /// The output that has come so far.
    pub closed spec fn early(&self) -> Seq<u8> {
        self.early@
    }

    /// The wait of `pane`, with no output yet.
    pub fn new(pane: PaneKind) -> (r: Self)
        ensures
            r.pane() == pane,
            r.early() == Seq::<u8>::empty(),
    {
        ReplyWait { pane, early: Vec::new() }
    }

    fn failed(&self, how: &str) -> (r: ConnectError)
        ensures
            r@ == start_failure(self.pane(), how@),
    {
        let mut m = text::joined(self.pane.as_str(), " ");
        m.append(
            match self.pane {
                PaneKind::Host => "shell",
                PaneKind::Attach => "attach exec",
            },
        );
        m.append(how);
        attach_error(m.as_str())
    }

    /// Takes a message.
    pub fn hear(&mut self, message: ChannelMessage) -> (r: ReplyStep)
        ensures
            final(self).pane() == old(self).pane(),
            final(self).early() == early_after(old(self).early(), message@),
            r@ == reply_step(old(self).pane(), old(self).early(), message@),
    {
        assert(old(self).early() + Seq::<u8>::empty() =~= old(self).early());
        match message {
            ChannelMessage::Success => {
                let mut early: Vec<u8> = Vec::new();
                std::mem::swap(&mut early, &mut self.early);
                ReplyStep::Started(early)
            },
            ChannelMessage::Failure => ReplyStep::Failed(
                self.failed(" request was refused by the server"),
            ),
            ChannelMessage::Data(data) => {
                self.early.extend_from_slice(data.as_slice());
                assert(self.early@ =~= old(self).early() + data@);
                ReplyStep::Wait
            },
            ChannelMessage::ExtendedData(data) => {
                self.early.extend_from_slice(data.as_slice());
                assert(self.early@ =~= old(self).early() + data@);
                ReplyStep::Wait
            },
            ChannelMessage::Eof => ReplyStep::Failed(
                self.failed(" channel closed before it started"),
            ),
            ChannelMessage::Close => ReplyStep::Failed(
                self.failed(" channel closed before it started"),
            ),
            ChannelMessage::Ended => ReplyStep::Failed(
                self.failed(" channel closed before it started"),
            ),
            _ => ReplyStep::Wait,
        }
    }
}

/// The output that messages carry, in order.
pub open spec fn outputs(messages: Seq<ChannelMessageView>) -> Seq<u8>
    decreases messages.len(),
{
    if messages.len() == 0 {
        Seq::empty()
    } else {
        outputs(messages.drop_last()) + payload(messages.last())
    }
}

/// The output that is kept after messages, from none.
pub open spec fn early_output(messages: Seq<ChannelMessageView>) -> Seq<u8>
    decreases messages.len(),
{
    if messages.len() == 0 {
        Seq::empty()
    } else {
        early_after(early_output(messages.drop_last()), messages.last())
    }
}

/// Whatever comes before the reply, the wait goes on until the reply is there, and the reply
/// then hands out all output that came before it, in order.
pub proof fn no_early_output_is_lost(pane: PaneKind, messages: Seq<ChannelMessageView>)
    requires
        forall|i: int|
            0 <= i < messages.len() ==> !(#[trigger] messages[i] is Success) && !(
            messages[i] is Failure) && !is_end(messages[i]),
    ensures
        forall|i: int, early: Seq<u8>|
            0 <= i < messages.len() ==> #[trigger] reply_step(pane, early, messages[i]) is Wait,
        reply_step(pane, early_output(messages), ChannelMessageView::Success)
            == ReplyStepView::Started(outputs(messages)),
    decreases messages.len(),
{
    if messages.len() > 0 {
        let rest = messages.drop_last();
        assert forall|i: int| 0 <= i < rest.len() implies !(#[trigger] rest[i] is Success) && !(
        rest[i] is Failure) && !is_end(rest[i]) by {
            assert(rest[i] == messages[i]);
        }
        no_early_output_is_lost(pane, rest);
        assert(messages.last() == messages[messages.len() - 1]);
    }
}

/// The refusal of a chunk by a sink that is gone.
#[derive(Debug)]
pub struct PtySinkError(pub String);

impl PtySinkError {
    /// What the error reads.
    pub fn to_string(&self) -> (r: String)
        ensures
            r@ == "pty sink send failed: "@ + self.0@,
    {
        text::joined("pty sink send failed: ", self.0.as_str())
    }
}

/// Chunks of output as a value.
pub type Chunks = Seq<wire::Bytes>;

/// Where the output of a terminal goes.
///
/// The `spec` methods are the model that contracts speak of; nothing calls them at run time.
pub trait PtySink: Send + Sync {
    /// The chunks that were taken, in order.
    spec fn taken(&self) -> Chunks;

    /// Whether the sink may be gone, and refuse a chunk with this message.
    spec fn refuses(&self, message: text::Text) -> bool;

    /// Takes one chunk as it is. A sink refuses only when it is gone for good.
    fn send(&mut self, bytes: &[u8]) -> (r: Result<(), PtySinkError>)
        ensures
            (match r {
                Ok(_) => final(self).taken() == old(self).taken().push(bytes@),
                Err(e) => old(self).refuses(e.0@) && final(self).taken() == old(self).taken(),
            }),
    ;
}

/// A [`PtySink`] that keeps the chunks in memory.
pub struct MemoryPtySink {
    chunks: Vec<Vec<u8>>,
}

impl MemoryPtySink {
    /// The chunks that are kept.
    pub closed spec fn kept(&self) -> Seq<Seq<u8>> {
        self.chunks@.map_values(|c: Vec<u8>| c@)
    }

    /// A sink that has taken nothing.
    pub fn new() -> (r: Self)
        ensures
            r.taken() == Seq::<Seq<u8>>::empty(),
    {
        let r = MemoryPtySink { chunks: Vec::new() };
        assert(r.kept() =~= Seq::<Seq<u8>>::empty());
        r
    }

    /// The chunks that were taken.
    pub fn chunks(&self) -> (r: &Vec<Vec<u8>>)
        ensures
            r@.map_values(|c: Vec<u8>| c@) == self.taken(),
    {
        &self.chunks
    }
}

impl PtySink for MemoryPtySink {
    open spec fn taken(&self) -> Seq<Seq<u8>> {
        self.kept()
    }

    open spec fn refuses(&self, message: Seq<char>) -> bool {
        false
    }

    fn send(&mut self, bytes: &[u8]) -> (r: Result<(), PtySinkError>) {
        self.chunks.push(wire::copied(bytes));
        assert(self.kept() =~= old(self).kept().push(bytes@));
        Ok(())
    }
}

/// The model of a [`PtyReader`]: the chunks handed on, the bytes that are buffered, when
/// the first of them came, and whether reading is over.
#[verifier::ext_equal]
pub struct ReaderView {
    pub taken: Seq<Seq<u8>>,
    pub buffered: Seq<u8>,
    pub since_ms: Option<u64>,
    pub stopped: bool,
}

/// The time until which bytes that came at `since_ms` may be held back.
pub open spec fn deadline(since_ms: u64) -> u64 {
    if since_ms + COALESCE_FLUSH_WINDOW_MS > u64::MAX {
        u64::MAX
    } else {
        (since_ms + COALESCE_FLUSH_WINDOW_MS) as u64
    }
}

impl ReaderView {
    /// The output so far: what was handed on, then what is buffered.
    pub open spec fn stream(self) -> Seq<u8> {
        self.taken.flatten() + self.buffered
    }

    /// Whether the buffer is to be handed on at the time `now_ms`.
    pub open spec fn is_due(self, now_ms: u64) -> bool {
        ||| self.buffered.len() >= COALESCE_FLUSH_BYTES
        ||| self.since_ms matches Some(since) && now_ms >= deadline(since)
    }

    /// After the buffer was handed on as one chunk, if there was anything in it.
    pub open spec fn flushed(self) -> ReaderView {
        ReaderView {
            taken: if self.buffered.len() == 0 {
                self.taken
            } else {
                self.taken.push(self.buffered)
            },
            buffered: Seq::empty(),
            since_ms: None,
            stopped: self.stopped,
        }
    }

    /// After `data` that came at the time `now_ms` was buffered.
    pub open spec fn gathered(self, data: Seq<u8>, now_ms: u64) -> ReaderView {
        ReaderView {
            buffered: self.buffered + data,
            since_ms: if self.buffered.len() == 0 && data.len() > 0 {
                Some(now_ms)
            } else {
                self.since_ms
            },
            ..self
        }
    }

    /// After a message came at the time `now_ms`: its output is buffered, and the buffer is
    /// handed on if it is due or if no more output follows.
    pub open spec fn received(self, message: ChannelMessageView, now_ms: u64) -> ReaderView {
        if self.stopped {
            self
        } else if is_end(message) {
            ReaderView { stopped: true, ..self.flushed() }
        } else if message is Data || message is ExtendedData {
            let next = self.gathered(payload(message), now_ms);
            if next.is_due(now_ms) {
                next.flushed()
            } else {
                next
            }
        } else {
            self
        }
    }

    /// After the time to hand the buffer on has come.
    pub open spec fn timed_out(self) -> ReaderView {
        if self.stopped {
            self
        } else {
            self.flushed()
        }
    }

    /// Whether there is a first byte exactly where there are bytes.
    pub open spec fn is_timed(self) -> bool {
        self.since_ms is Some <==> self.buffered.len() > 0
    }
}

/// The state of a reader over a sink that has taken `taken`, when `prelude` came before the
/// terminal had started.
pub open spec fn started(taken: Seq<Seq<u8>>, prelude: Seq<u8>) -> ReaderView {
    ReaderView {
        taken: if prelude.len() == 0 {
            taken
        } else {
            taken.push(prelude)
        },
        buffered: Seq::empty(),
        since_ms: None,
        stopped: false,
    }
}

/// The reader of one terminal: it coalesces the output and hands it on to a sink, until the
/// channel ends or the sink is gone.
pub struct PtyReader<S: PtySink> {
    sink: S,
    buf: Vec<u8>,
    since_ms: Option<u64>,
    stopped: bool,
}

impl<S: PtySink> View for PtyReader<S> {
    type V = ReaderView;

    closed spec fn view(&self) -> ReaderView {
        ReaderView {
            taken: self.sink.taken(),
            buffered: self.buf@,
            since_ms: self.since_ms,
            stopped: self.stopped,
        }
    }
}

impl<S: PtySink> PtyReader<S> {
    /// The sink that output is handed on to.
    pub closed spec fn target(&self) -> S {
        self.sink
    }

    /// Whether the sink may be gone.
    pub open spec fn may_refuse(&self) -> bool {
        exists|message: Seq<char>| #[trigger] self.target().refuses(message)
    }

    /// Whether the sink was found gone on the way to `after`: a chunk was to be handed on to
    /// get to `meant`, and instead reading is over, with `data` left in the buffer.
    pub open spec fn lost_sink(
        &self,
        meant: ReaderView,
        data: Seq<u8>,
        now_ms: u64,
        after: &Self,
    ) -> bool {
        &&& self.may_refuse()
        &&& meant.taken.len() > self@.taken.len()
        &&& after@ == ReaderView { stopped: true, ..self@.gathered(data, now_ms) }
    }

    /// A reader over `sink`. The output that came before the terminal had started goes
    /// first.
    pub fn new(sink: S, prelude: &[u8]) -> (r: Self)
        ensures
            ({
                ||| r@ == started(sink.taken(), prelude@)
                ||| {
                    &&& prelude@.len() > 0
                    &&& exists|message: Seq<char>| sink.refuses(message)
                    &&& r@ == (ReaderView {
                        taken: sink.taken(),
                        buffered: Seq::empty(),
                        since_ms: None,
                        stopped: true,
                    })
                }
            }),
            r@.is_timed(),
            prelude@.len() == 0 ==> r.target() == sink,
    {
        let mut reader = PtyReader { sink, buf: Vec::new(), since_ms: None, stopped: false };
        if prelude.len() > 0 {
            match reader.sink.send(prelude) {
                Ok(_) => {},
                Err(e) => {
                    assert(sink.refuses(e.0@));
                    reader.stopped = true;
                },
            }
        }
        reader
    }

    /// Whether reading is over.
    pub fn is_stopped(&self) -> (r: bool)
        ensures
            r == self@.stopped,
    {
        self.stopped
    }

    /// The sink.
    pub fn sink(&self) -> (r: &S)
        ensures
            *r == self.target(),
            r.taken() == self@.taken,
    {
        &self.sink
    }

    /// How long to wait for the next message at the time `now_ms` before the buffer is
    /// handed on: without end while it is empty.
    pub fn wait_ms(&self, now_ms: u64) -> (r: Option<u64>)
        ensures
            r == (match self@.since_ms {
                Some(since) => Some(
                    if now_ms >= deadline(since) {
                        0
                    } else {
                        (deadline(since) - now_ms) as u64
                    },
                ),
                None => None,
            }),
    {
        match self.since_ms {
            Some(since) => {
                let until: u64 = since.saturating_add(COALESCE_FLUSH_WINDOW_MS);
                if now_ms >= until {
                    Some(0)
                } else {
                    Some(until - now_ms)
                }
            },
            None => None,
        }
    }

    fn flush(&mut self) -> (r: bool)
        ensures
            r ==> final(self)@ == old(self)@.flushed(),
            !r ==> old(self).may_refuse() && final(self)@ == old(self)@ && old(self)@.buffered.len()
                > 0,
            old(self)@.buffered.len() == 0 ==> final(self).target() == old(self).target(),
    {
        if self.buf.len() > 0 {
            match self.sink.send(self.buf.as_slice()) {
                Ok(_) => {},
                Err(e) => {
                    assert(old(self).target().refuses(e.0@));
                    return false;
                },
            }
        }
        self.buf.clear();
        self.since_ms = None;
        true
    }

    /// Takes a message that came at the time `now_ms`.
    pub fn receive(&mut self, message: ChannelMessage, now_ms: u64)
        requires
            old(self)@.is_timed(),
        ensures
            final(self)@ == old(self)@.received(message@, now_ms) || old(self).lost_sink(
                old(self)@.received(message@, now_ms),
                payload(message@),
                now_ms,
                final(self),
            ),
            final(self)@.is_timed(),
            old(self)@.received(message@, now_ms).taken == old(self)@.taken ==> final(self).target()
                == old(self).target(),
    {
        if self.stopped {
            return;
        }
        assert(old(self)@.gathered(Seq::empty(), now_ms) =~= old(self)@);
        match message {
            ChannelMessage::Data(data) => {
                self.gather(data.as_slice(), now_ms);
            },
            ChannelMessage::ExtendedData(data) => {
                self.gather(data.as_slice(), now_ms);
            },
            ChannelMessage::Eof => {
                let _ = self.flush();
                self.stopped = true;
            },
            ChannelMessage::Close => {
                let _ = self.flush();
                self.stopped = true;
            },
            ChannelMessage::Ended => {
                let _ = self.flush();
                self.stopped = true;
            },
            _ => {},
        }
    }

    fn gather(&mut self, data: &[u8], now_ms: u64)
        requires
            old(self)@.is_timed(),
            !old(self)@.stopped,
        ensures
            ({
                let next = old(self)@.gathered(data@, now_ms);
                ||| final(self)@ == (if next.is_due(now_ms) {
                    next.flushed()
                } else {
                    next
                })
                ||| old(self).lost_sink(next.flushed(), data@, now_ms, final(self))
                    && next.is_due(now_ms)
            }),
            final(self)@.is_timed(),
            ({
                let next = old(self)@.gathered(data@, now_ms);
                next.is_due(now_ms) && next.buffered.len() > 0 || final(self).target() == old(
                    self,
                ).target()
            }),
    {
        if self.buf.len() == 0 && data.len() > 0 {
            self.since_ms = Some(now_ms);
        }
        self.buf.extend_from_slice(data);
        assert(self.buf@ =~= old(self).buf@ + data@);
        assert(self.target() == old(self).target());
        let late: bool = match self.wait_ms(now_ms) {
            Some(left) => left == 0,
            None => false,
        };
        if self.buf.len() >= COALESCE_FLUSH_BYTES || late {
            if !self.flush() {
                self.stopped = true;
            }
        }
    }

    /// Takes note that the time to hand the buffer on has come.
    pub fn time_out(&mut self)
        requires
            old(self)@.is_timed(),
        ensures
            final(self)@ == old(self)@.timed_out() || old(self).lost_sink(
                old(self)@.timed_out(),
                Seq::empty(),
                0,
                final(self),
            ),
            final(self)@.is_timed(),
            old(self)@.timed_out().taken == old(self)@.taken ==> final(self).target() == old(
                self,
            ).target(),
    {
        assert(old(self)@.gathered(Seq::empty(), 0) =~= old(self)@);
        if self.stopped {
            return;
        }
        if !self.flush() {
            self.stopped = true;
        }
    }
}

/// The messages that a reader takes, each with the time of its arrival, and the timer.
#[verifier::ext_equal]
pub enum ReaderEvent {
    Message(ChannelMessageView, u64),
    Timer,
}

/// The output that an event carries.
pub open spec fn event_payload(event: ReaderEvent) -> Seq<u8> {
    match event {
        ReaderEvent::Message(m, _) => payload(m),
        ReaderEvent::Timer => Seq::empty(),
    }
}

/// The output that events carry, in order.
pub open spec fn all_output(events: Seq<ReaderEvent>) -> Seq<u8>
    decreases events.len(),
{
    if events.len() == 0 {
        Seq::empty()
    } else {
        all_output(events.drop_last()) + event_payload(events.last())
    }
}

/// The state of a reader after an event.
pub open spec fn after_event(v: ReaderView, event: ReaderEvent) -> ReaderView {
    match event {
        ReaderEvent::Message(m, now_ms) => v.received(m, now_ms),
        ReaderEvent::Timer => v.timed_out(),
    }
}

/// The state of a reader after events.
pub open spec fn after_events(v: ReaderView, events: Seq<ReaderEvent>) -> ReaderView
    decreases events.len(),
{
    if events.len() == 0 {
        v
    } else {
        after_event(after_events(v, events.drop_last()), events.last())
    }
}

proof fn lemma_flush_keeps_stream(v: ReaderView)
    ensures
        v.flushed().stream() == v.stream(),
{
    if v.buffered.len() > 0 {
        v.taken.lemma_flatten_push(v.buffered);
        assert(v.flushed().stream() =~= v.stream());
    } else {
        assert(v.flushed().stream() =~= v.stream());
    }
}

/// A reader that is not over loses, adds and reorders nothing: the output grows by exactly
/// what the message carries.
pub proof fn receiving_extends_the_stream(v: ReaderView, message: ChannelMessageView, now_ms: u64)
    requires
        !v.stopped,
    ensures
        v.received(message, now_ms).stream() == v.stream() + payload(message),
        v.received(message, now_ms).stopped == is_end(message),
        is_end(message) ==> v.received(message, now_ms).buffered.len() == 0,
{
    lemma_flush_keeps_stream(v);
    let next = v.gathered(payload(message), now_ms);
    lemma_flush_keeps_stream(next);
    assert(next.stream() =~= v.stream() + payload(message));
    if !(message is Data || message is ExtendedData) {
        assert(v.stream() + payload(message) =~= v.stream());
        assert(v.flushed().stream() =~= v.stream() + payload(message));
    }
}

/// The timer hands on what is buffered and changes nothing about the output.
pub proof fn the_timer_keeps_the_stream(v: ReaderView)
    requires
        !v.stopped,
    ensures
        v.timed_out().stream() == v.stream(),
        v.timed_out().buffered.len() == 0,
        !v.timed_out().stopped,
{
    lemma_flush_keeps_stream(v);
}

/// A message changes the chunks at most by one more, which is the whole buffer and the
/// whole payload: no payload is ever split, and no chunk is empty.
pub proof fn payloads_are_never_split(v: ReaderView, message: ChannelMessageView, now_ms: u64)
    ensures
        ({
            let after = v.received(message, now_ms);
            ||| after.taken == v.taken
            ||| {
                &&& after.taken == v.taken.push(v.buffered + payload(message))
                &&& (v.buffered + payload(message)).len() > 0
                &&& after.buffered.len() == 0
            }
        }),
{
    if !v.stopped && is_end(message) {
        assert(v.buffered + payload(message) =~= v.buffered);
    }
}

/// Whatever comes in whatever order and at whatever time, up to the end of the channel: the
/// output handed on and buffered is what was there before followed by all payloads, byte
/// for byte, and after the end nothing stays behind in the buffer.
pub proof fn output_is_verbatim(v: ReaderView, events: Seq<ReaderEvent>)
    requires
        !v.stopped,
        forall|i: int|
            0 <= i < events.len() - 1 ==> !(#[trigger] events[i] matches ReaderEvent::Message(m, _)
                && is_end(m)),
    ensures
        after_events(v, events).stream() == v.stream() + all_output(events),
        after_events(v, events).stopped <==> events.len() > 0 && (
        events.last() matches ReaderEvent::Message(m, _) && is_end(m)),
        after_events(v, events).stopped ==> after_events(v, events).taken.flatten() == v.stream()
            + all_output(events),
    decreases events.len(),
{
    if events.len() == 0 {
        assert(v.stream() + all_output(events) =~= v.stream());
    } else {
        let rest = events.drop_last();
        assert forall|i: int| 0 <= i < rest.len() - 1 implies !(
        #[trigger] rest[i] matches ReaderEvent::Message(m, _) && is_end(m)) by {
            assert(rest[i] == events[i]);
        }
        output_is_verbatim(v, rest);
        let mid = after_events(v, rest);
        if rest.len() > 0 {
            assert(rest.last() == events[events.len() - 2]);
        }
        assert(!mid.stopped);
        match events.last() {
            ReaderEvent::Message(m, now_ms) => {
                receiving_extends_the_stream(mid, m, now_ms);
            },
            ReaderEvent::Timer => {
                the_timer_keeps_the_stream(mid);
                assert(mid.stream() + event_payload(events.last()) =~= mid.stream());
            },
        }
        assert(v.stream() + all_output(events) =~= v.stream() + all_output(rest) + event_payload(
            events.last(),
        ));
        let end = after_events(v, events);
        if end.stopped {
            assert(end.stream() =~= end.taken.flatten());
        }
    }
}

/// The output that came before the terminal had started is handed on first, and all later
/// output follows it.
pub proof fn the_greeting_comes_first(
    taken: Seq<Seq<u8>>,
    prelude: Seq<u8>,
    events: Seq<ReaderEvent>,
)
    requires
        forall|i: int|
            0 <= i < events.len() - 1 ==> !(#[trigger] events[i] matches ReaderEvent::Message(m, _)
                && is_end(m)),
    ensures
        after_events(started(taken, prelude), events).stream() == taken.flatten() + prelude
            + all_output(events),
{
    let v = started(taken, prelude);
    output_is_verbatim(v, events);
    if prelude.len() > 0 {
        taken.lemma_flatten_push(prelude);
    }
    assert(v.stream() =~= taken.flatten() + prelude);
}

/// The window runs from the first buffered byte: later output does not extend it, and output
/// that comes when it is over finds the buffer handed on.
pub proof fn later_output_does_not_extend_the_window(
    v: ReaderView,
    message: ChannelMessageView,
    now_ms: u64,
)
    requires
        !v.stopped,
        v.is_timed(),
        v.buffered.len() > 0,
    ensures
        ({
            let after = v.received(message, now_ms);
            ||| after.taken == v.taken.push(v.buffered + payload(message)) && after.buffered.len()
                == 0
            ||| {
                &&& after.taken == v.taken
                &&& after.since_ms == v.since_ms
                &&& (message is Data || message is ExtendedData) ==> now_ms < deadline(
                    v.since_ms->0,
                )
            }
        }),
{
    if is_end(message) {
        assert(v.buffered + payload(message) =~= v.buffered);
    }
}

/// The buffer is never held back for long: after a message it holds less than
/// [`COALESCE_FLUSH_BYTES`], and nothing that came before the window began.
pub proof fn the_buffer_stays_small(v: ReaderView, message: ChannelMessageView, now_ms: u64)
    requires
        !v.stopped,
        v.is_timed(),
        v.buffered.len() < COALESCE_FLUSH_BYTES,
    ensures
        v.received(message, now_ms).buffered.len() < COALESCE_FLUSH_BYTES,
        v.received(message, now_ms).is_timed(),
        (message is Data || message is ExtendedData) ==> !v.received(message, now_ms).is_due(
            now_ms,
        ),
{
}

/// Output is what `Data` and `ExtendedData` carry, whole; no other message carries any. `Eof`,
/// `Close` and `Ended` are the end, and nothing else is.
pub proof fn messages_mean_this(message: ChannelMessageView)
    ensures
        message matches ChannelMessageView::Data(d) ==> payload(message) == d,
        message matches ChannelMessageView::ExtendedData(d) ==> payload(message) == d,
        !(message is Data || message is ExtendedData) ==> payload(message).len() == 0,
        is_end(message) <==> (message is Eof || message is Close || message is Ended),
{
}

/// The model of a message is the same message, with its bytes.
pub proof fn message_models_keep_the_message(message: ChannelMessage)
    ensures
        message matches ChannelMessage::Data(d) ==> message@ == ChannelMessageView::Data(d@),
        message matches ChannelMessage::ExtendedData(d) ==> message@
            == ChannelMessageView::ExtendedData(d@),
        message is WindowAdjusted <==> message@ is WindowAdjusted,
        message is Success <==> message@ is Success,
        message is Failure <==> message@ is Failure,
        message is Eof <==> message@ is Eof,
        message is Close <==> message@ is Close,
        message is Ended <==> message@ is Ended,
        message is Other <==> message@ is Other,
{
}

/// A reader is stopped by a message exactly if it was stopped before or the message is the
/// end of the channel.
pub proof fn only_the_end_stops_a_reader(v: ReaderView, message: ChannelMessageView, now_ms: u64)
    ensures
        v.received(message, now_ms).stopped <==> (v.stopped || message is Eof || message is Close
            || message is Ended),
{
}

/// Messages that carry no output and are not the end leave a reader as it is.
pub proof fn other_messages_change_nothing(
    v: ReaderView,
    message: ChannelMessageView,
    now_ms: u64,
)
    requires
        message is WindowAdjusted || message is Success || message is Failure || message is Other,
    ensures
        v.received(message, now_ms) == v,
{
}

/// A reader that is stopped takes nothing more, and hands nothing more on.
pub proof fn a_stopped_reader_stays_as_it_is(
    v: ReaderView,
    message: ChannelMessageView,
    now_ms: u64,
)
    requires
        v.stopped,
    ensures
        v.received(message, now_ms) == v,
        v.timed_out() == v,
{
}

/// Output is held back while there is less than 16 KiB of it and its first byte came less than
/// 8 milliseconds ago, and otherwise handed on at once as one chunk with all that was held
/// back before.
pub proof fn output_is_held_or_handed_on(
    v: ReaderView,
    message: ChannelMessageView,
    data: Seq<u8>,
    now_ms: u64,
)
    requires
        !v.stopped,
        v.since_ms is Some <==> v.buffered.len() > 0,
        message == ChannelMessageView::Data(data) || message == ChannelMessageView::ExtendedData(
            data,
        ),
    ensures
        ({
            let after = v.received(message, now_ms);
            let all = v.buffered + data;
            let since = if v.buffered.len() > 0 {
                v.since_ms->0
            } else {
                now_ms
            };
            &&& !after.stopped
            &&& if all.len() == 0 {
                after == v
            } else if all.len() < 16384 && now_ms < u64::MAX && now_ms < since + 8 {
                &&& after.taken == v.taken
                &&& after.buffered == all
                &&& after.since_ms == Some(since)
            } else {
                &&& after.taken == v.taken.push(all)
                &&& after.buffered.len() == 0
                &&& after.since_ms is None
            }
        }),
{
    assert(v.buffered + data =~= v.gathered(data, now_ms).buffered);
    if v.buffered.len() + data.len() == 0 {
        assert(v.gathered(data, now_ms) =~= v);
    }
}

/// At the end of the channel, and when its time is up, the buffer is handed on as one chunk;
/// an empty buffer is not.
pub proof fn what_is_left_is_handed_on(v: ReaderView, message: ChannelMessageView, now_ms: u64)
    requires
        !v.stopped,
        message is Eof || message is Close || message is Ended,
    ensures
        v.buffered.len() > 0 ==> v.received(message, now_ms).taken == v.taken.push(v.buffered),
        v.buffered.len() == 0 ==> v.received(message, now_ms).taken == v.taken,
        v.received(message, now_ms).buffered.len() == 0,
        v.received(message, now_ms).since_ms is None,
        v.buffered.len() > 0 ==> v.timed_out().taken == v.taken.push(v.buffered),
        v.buffered.len() == 0 ==> v.timed_out().taken == v.taken,
        v.timed_out().buffered.len() == 0,
        v.timed_out().since_ms is None,
        !v.timed_out().stopped,
{
}

/// The time is up 8 milliseconds after the first byte came, or at the end of time.
pub proof fn the_time_is_up_after_the_window(since_ms: u64)
    ensures
        since_ms + 8 <= u64::MAX ==> deadline(since_ms) == since_ms + 8,
        since_ms + 8 > u64::MAX ==> deadline(since_ms) == u64::MAX,
{
}

/// A new reader holds nothing back, and has handed on what came before the start as one chunk,
/// if anything did.
pub proof fn a_new_reader_has_handed_on_the_prelude(taken: Seq<Seq<u8>>, prelude: Seq<u8>)
    ensures
        prelude.len() == 0 ==> started(taken, prelude).taken == taken,
        prelude.len() > 0 ==> started(taken, prelude).taken == taken.push(prelude),
        started(taken, prelude).buffered.len() == 0,
        started(taken, prelude).since_ms is None,
        !started(taken, prelude).stopped,
{
}

/// A reader has its times in order exactly if it knows when its first byte came, and has one.
pub proof fn timed_means_a_first_byte(v: ReaderView)
    ensures
        v.is_timed() <==> (v.since_ms is Some <==> v.buffered.len() > 0),
{
}

/// A sink is lost only if it may refuse and a chunk was due; reading is then over, nothing was
/// handed on, and what was due is still in the buffer.
pub proof fn a_lost_sink_has_taken_nothing<S: PtySink>(
    before: PtyReader<S>,
    meant: ReaderView,
    data: Seq<u8>,
    now_ms: u64,
    after: PtyReader<S>,
)
    requires
        before.lost_sink(meant, data, now_ms, &after),
    ensures
        exists|message: Seq<char>| #[trigger] before.target().refuses(message),
        meant.taken.len() > before@.taken.len(),
        after@.stopped,
        after@.taken == before@.taken,
        after@.buffered == before@.buffered + data,
{
}

/// A sink in memory refuses nothing.
pub proof fn memory_sinks_refuse_nothing(sink: MemoryPtySink, message: Seq<char>)
    ensures
        !sink.refuses(message),
{
}

/// The host shell is called `host` and its start `shell`; the attach terminal `attach` and
/// `attach exec`. A terminal is the attach one exactly if it runs a command.
pub proof fn the_terminals_and_their_names(command: Seq<char>)
    ensures
        pane_name(PaneKind::Host) == "host"@,
        pane_name(PaneKind::Attach) == "attach"@,
        start_name(PaneKind::Host) == "shell"@,
        start_name(PaneKind::Attach) == "attach exec"@,
        pane_of(None) == PaneKind::Host,
        pane_of(Some(command)) == PaneKind::Attach,
{
}

/// Each request of a terminal is followed by the next one, and the wait by nothing.
pub proof fn each_request_is_sent_once()
    ensures
        phase_after(PtyPhase::Opening) == PtyPhase::Sizing,
        phase_after(PtyPhase::Sizing) == PtyPhase::Starting,
        phase_after(PtyPhase::Starting) == PtyPhase::Waiting,
        phase_after(PtyPhase::Waiting) == PtyPhase::Waiting,
{
}

/// The request of each phase: a session, a terminal of the type and the size, the shell or the
/// command byte for byte, and the wait.
pub proof fn the_requests(size: PtySize, command: Seq<char>)
    ensures
        forall|c: Option<Seq<char>>| #[trigger]
            request_of(PtyPhase::Opening, size, c) is OpenSession,
        forall|c: Option<Seq<char>>| #[trigger]
            request_of(PtyPhase::Sizing, size, c) == (PtyRequestView::RequestPty {
                term: "xterm-256color"@,
                size,
            }),
        request_of(PtyPhase::Starting, size, None) is StartShell,
        request_of(PtyPhase::Starting, size, Some(command)) == PtyRequestView::Exec(
            vstd::utf8::encode_utf8(command),
        ),
        forall|c: Option<Seq<char>>| #[trigger]
            request_of(PtyPhase::Waiting, size, c) is AwaitReply,
{
}

/// The model of a request is the same request, with what it carries.
pub proof fn request_models_keep_the_request(request: PtyRequest)
    ensures
        request is OpenSession <==> request@ is OpenSession,
        request matches PtyRequest::RequestPty { term, size } ==> request@ == (
        PtyRequestView::RequestPty { term: term@, size }),
        request is StartShell <==> request@ is StartShell,
        request matches PtyRequest::Exec(command) ==> request@ == PtyRequestView::Exec(command@),
        request is AwaitReply <==> request@ is AwaitReply,
{
}

/// A terminal that does not open is an attach failure when the channels are opened, and reads
/// as this.
pub proof fn unopened_terminals_read(command: Seq<char>, cause: Seq<char>)
    ensures
        forall|m: Seq<char>| #[trigger]
            attach_failure(m) == (ConnectErrorView {
                kind: ConnectErrorKind::AttachFailure,
                stage: ConnectStage::OpenChannels,
                message: m,
            }),
        request_failure(PtyPhase::Opening, None, cause) == attach_failure(
            "host"@ + " session channel open failed: "@ + cause,
        ),
        request_failure(PtyPhase::Opening, Some(command), cause) == attach_failure(
            "attach"@ + " session channel open failed: "@ + cause,
        ),
        request_failure(PtyPhase::Sizing, None, cause) == attach_failure(
            "host"@ + " request_pty failed: "@ + cause,
        ),
        request_failure(PtyPhase::Sizing, Some(command), cause) == attach_failure(
            "attach"@ + " request_pty failed: "@ + cause,
        ),
        request_failure(PtyPhase::Starting, None, cause) == attach_failure(
            "host shell request failed: "@ + cause,
        ),
        request_failure(PtyPhase::Starting, Some(command), cause) == attach_failure(
            "attach command exec failed: "@ + cause,
        ),
{
}

/// A terminal starts exactly at the server's consent, with all output that came before it; it
/// fails at the refusal and at the end of the channel; every other message is waited through,
/// and its output kept behind what came before.
pub proof fn only_consent_starts_a_terminal(
    pane: PaneKind,
    early: Seq<u8>,
    message: ChannelMessageView,
)
    ensures
        message is Success ==> reply_step(pane, early, message) == ReplyStepView::Started(early)
            && early_after(early, message).len() == 0,
        message is Failure ==> reply_step(PaneKind::Host, early, message) == ReplyStepView::Failed(
            attach_failure("host"@ + " "@ + "shell"@ + " request was refused by the server"@),
        ) && reply_step(PaneKind::Attach, early, message) == ReplyStepView::Failed(
            attach_failure(
                "attach"@ + " "@ + "attach exec"@ + " request was refused by the server"@,
            ),
        ),
        (message is Eof || message is Close || message is Ended) ==> reply_step(
            PaneKind::Host,
            early,
            message,
        ) == ReplyStepView::Failed(
            attach_failure("host"@ + " "@ + "shell"@ + " channel closed before it started"@),
        ) && reply_step(PaneKind::Attach, early, message) == ReplyStepView::Failed(
            attach_failure(
                "attach"@ + " "@ + "attach exec"@ + " channel closed before it started"@,
            ),
        ),
        !(message is Success || message is Failure || message is Eof || message is Close
            || message is Ended) ==> reply_step(pane, early, message) is Wait,
        message matches ChannelMessageView::Data(d) ==> early_after(early, message) == early + d,
        message matches ChannelMessageView::ExtendedData(d) ==> early_after(early, message) == early
            + d,
        (message is WindowAdjusted || message is Other || message is Failure || message is Eof
            || message is Close || message is Ended) ==> early_after(early, message) == early,
{
    assert(early + Seq::<u8>::empty() =~= early);
}

/// The model of a reply step is the same step, with what it carries.
pub proof fn reply_models_keep_the_step(step: ReplyStep)
    ensures
        step is Wait <==> step@ is Wait,
        step matches ReplyStep::Started(early) ==> step@ == ReplyStepView::Started(early@),
        step matches ReplyStep::Failed(e) ==> step@ == ReplyStepView::Failed(e@),
{
}

} // verus!
