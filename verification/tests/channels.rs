use botbox::ssh::channels::{
    ChannelMessage, Chunks, MemoryPtySink, PaneKind, PtyOpening, PtyReader, PtyRequest, PtySink,
    PtySinkError, PtySize, ReplyStep, ReplyWait, COALESCE_FLUSH_BYTES, COALESCE_FLUSH_WINDOW_MS,
    PTY_TERM,
};
use botbox::ssh::pipeline::{ConnectErrorKind, ConnectStage};
use botbox::text::Text;

fn reader() -> PtyReader<MemoryPtySink> {
    PtyReader::new(MemoryPtySink::new(), b"")
}

fn data(bytes: &[u8]) -> ChannelMessage {
    ChannelMessage::Data(bytes.to_vec())
}

fn chunks(reader: &PtyReader<MemoryPtySink>) -> Vec<Vec<u8>> {
    reader.sink().chunks().clone()
}

#[test]
fn panes_and_sizes() {
    assert_eq!(PaneKind::Host.as_str(), "host");
    assert_eq!(PaneKind::Attach.as_str(), "attach");
    assert_eq!(PtySize::default(), PtySize::new(80, 24));
    assert_eq!(PtySize::new(132, 50), PtySize { cols: 132, rows: 50 });
    assert_eq!(PTY_TERM, "xterm-256color");
    assert_eq!(COALESCE_FLUSH_BYTES, 16384);
    assert_eq!(COALESCE_FLUSH_WINDOW_MS, 8);
}

fn requests(mut opening: PtyOpening) -> Vec<PtyRequest> {
    let mut all = vec![opening.request()];
    while all.last() != Some(&PtyRequest::AwaitReply) {
        opening.sent(Ok(())).unwrap();
        all.push(opening.request());
    }
    all
}

#[test]
fn the_host_terminal_starts_the_shell() {
    let size = PtySize::new(120, 40);
    assert_eq!(PtyOpening::host(size).pane(), PaneKind::Host);
    assert_eq!(
        requests(PtyOpening::host(size)),
        vec![
            PtyRequest::OpenSession,
            PtyRequest::RequestPty {
                term: "xterm-256color".to_string(),
                size
            },
            PtyRequest::StartShell,
            PtyRequest::AwaitReply,
        ]
    );
}

#[test]
fn the_attach_terminal_runs_exactly_its_command() {
    for command in ["tmux attach -t hermes", "docker exec -it hermes tmux attach -t main", "\u{e9}"] {
        let opening = PtyOpening::attach(command, PtySize::default());
        assert_eq!(opening.pane(), PaneKind::Attach);
        assert_eq!(
            requests(opening)[2],
            PtyRequest::Exec(command.as_bytes().to_vec())
        );
    }
}

#[test]
fn requests_that_fail_name_the_terminal_and_the_step() {
    let host = || PtyOpening::host(PtySize::default());
    let attach = || PtyOpening::attach("tmux", PtySize::default());
    for (mut opening, steps, message) in [
        (host(), 0, "host session channel open failed: gone"),
        (host(), 1, "host request_pty failed: gone"),
        (host(), 2, "host shell request failed: gone"),
        (attach(), 0, "attach session channel open failed: gone"),
        (attach(), 1, "attach request_pty failed: gone"),
        (attach(), 2, "attach command exec failed: gone"),
    ] {
        for _ in 0..steps {
            opening.sent(Ok(())).unwrap();
        }
        let e = opening.sent(Err("gone".to_string())).err().unwrap();
        assert_eq!(e.kind, ConnectErrorKind::AttachFailure);
        assert_eq!(e.stage, ConnectStage::OpenChannels);
        assert_eq!(e.message, message);
    }
}

#[test]
fn output_before_the_reply_is_kept_in_order() {
    let mut wait = ReplyWait::new(PaneKind::Host);
    for m in [
        data(b"Wel"),
        ChannelMessage::WindowAdjusted,
        ChannelMessage::ExtendedData(b"come".to_vec()),
        ChannelMessage::Other,
    ] {
        assert!(matches!(wait.hear(m), ReplyStep::Wait));
    }
    match wait.hear(ChannelMessage::Success) {
        ReplyStep::Started(early) => assert_eq!(early, b"Welcome"),
        _ => panic!("expected a start"),
    }
}

#[test]
fn a_refused_or_ended_start_is_an_attach_failure() {
    for (pane, message, text) in [
        (
            PaneKind::Host,
            ChannelMessage::Failure,
            "host shell request was refused by the server",
        ),
        (
            PaneKind::Attach,
            ChannelMessage::Failure,
            "attach attach exec request was refused by the server",
        ),
        (
            PaneKind::Host,
            ChannelMessage::Eof,
            "host shell channel closed before it started",
        ),
        (
            PaneKind::Attach,
            ChannelMessage::Close,
            "attach attach exec channel closed before it started",
        ),
        (
            PaneKind::Attach,
            ChannelMessage::Ended,
            "attach attach exec channel closed before it started",
        ),
    ] {
        match ReplyWait::new(pane).hear(message) {
            ReplyStep::Failed(e) => {
                assert_eq!(e.kind, ConnectErrorKind::AttachFailure);
                assert_eq!(e.stage, ConnectStage::OpenChannels);
                assert_eq!(e.message, text);
            }
            _ => panic!("expected a failure"),
        }
    }
}

#[test]
fn small_reads_are_joined_and_kept_verbatim() {
    let mut r = reader();
    r.receive(data(b"ABCDEFGHIJ"), 0);
    for (i, b) in b"KLMNOP".iter().enumerate() {
        r.receive(data(&[*b]), i as u64);
    }
    assert!(chunks(&r).is_empty());
    assert_eq!(r.wait_ms(5), Some(3));
    r.time_out();
    assert_eq!(chunks(&r), vec![b"ABCDEFGHIJKLMNOP".to_vec()]);
    assert_eq!(r.wait_ms(9), None);
}

#[test]
fn a_character_split_over_two_reads_arrives_whole() {
    let emoji = "\u{1F916}".as_bytes();
    let mut r = reader();
    r.receive(data(&emoji[..2]), 0);
    r.time_out();
    r.receive(data(&emoji[2..]), 100);
    r.receive(ChannelMessage::Eof, 101);
    assert_eq!(chunks(&r).concat(), emoji.to_vec());
    assert!(r.is_stopped());
}

#[test]
fn the_window_runs_from_the_first_byte() {
    let mut r = reader();
    assert_eq!(r.wait_ms(1000), None);
    r.receive(data(b"a"), 1000);
    assert_eq!(r.wait_ms(1000), Some(8));
    r.receive(data(b"b"), 1005);
    assert_eq!(r.wait_ms(1005), Some(3));
    assert_eq!(r.wait_ms(1009), Some(0));
    // A byte that comes when the window is over takes the buffer with it.
    r.receive(data(b"c"), 1008);
    assert_eq!(chunks(&r), vec![b"abc".to_vec()]);
    // The next window starts anew.
    r.receive(data(b"d"), 1100);
    assert_eq!(r.wait_ms(1100), Some(8));
    // An empty payload starts none.
    let mut r = reader();
    r.receive(data(b""), 5);
    assert_eq!(r.wait_ms(5), None);
}

#[test]
fn a_full_buffer_is_handed_on_whole() {
    let mut r = reader();
    r.receive(data(&[1; 10_000]), 0);
    assert!(chunks(&r).is_empty());
    r.receive(ChannelMessage::ExtendedData(vec![2; 10_000]), 0);
    let got = chunks(&r);
    assert_eq!(got.len(), 1);
    assert_eq!(got[0].len(), 20_000);
    assert_eq!(got[0][9_999..10_001], [1, 2]);
    // Exactly the limit is enough; one byte less is not.
    let mut r = reader();
    r.receive(data(&[0; COALESCE_FLUSH_BYTES - 1]), 0);
    assert!(chunks(&r).is_empty());
    r.receive(data(&[0]), 0);
    assert_eq!(chunks(&r)[0].len(), COALESCE_FLUSH_BYTES);
}

#[test]
fn early_output_goes_first() {
    let mut r = PtyReader::new(MemoryPtySink::new(), b"motd");
    r.receive(data(b"$ "), 0);
    r.receive(ChannelMessage::Close, 1);
    assert_eq!(chunks(&r), vec![b"motd".to_vec(), b"$ ".to_vec()]);
}

#[test]
fn the_end_hands_on_the_rest_and_stops() {
    for end in [ChannelMessage::Eof, ChannelMessage::Close, ChannelMessage::Ended] {
        let mut r = reader();
        r.receive(data(b"tail"), 0);
        r.receive(ChannelMessage::Success, 1);
        r.receive(ChannelMessage::Other, 1);
        assert!(!r.is_stopped());
        r.receive(end, 2);
        assert!(r.is_stopped());
        assert_eq!(chunks(&r), vec![b"tail".to_vec()]);
        r.receive(data(b"late"), 3);
        r.time_out();
        assert_eq!(chunks(&r), vec![b"tail".to_vec()]);
    }
}

/// A sink that takes a number of chunks and is then gone.
struct FadingSink {
    left: usize,
}

impl PtySink for FadingSink {
    fn taken(&self) -> Chunks {
        unreachable!("no value at run time")
    }
    fn refuses(&self, _message: Text) -> bool {
        unreachable!("no value at run time")
    }
    fn send(&mut self, _bytes: &[u8]) -> Result<(), PtySinkError> {
        if self.left == 0 {
            return Err(PtySinkError("webview closed".to_string()));
        }
        self.left -= 1;
        Ok(())
    }
}

#[test]
fn a_sink_that_is_gone_stops_the_reader() {
    let r = PtyReader::new(FadingSink { left: 0 }, b"motd");
    assert!(r.is_stopped());
    let mut r = PtyReader::new(FadingSink { left: 1 }, b"motd");
    assert!(!r.is_stopped());
    r.receive(data(b"x"), 0);
    assert!(!r.is_stopped());
    r.time_out();
    assert!(r.is_stopped());
    let mut r = PtyReader::new(FadingSink { left: 0 }, b"");
    r.receive(data(&[0; COALESCE_FLUSH_BYTES]), 0);
    assert!(r.is_stopped());
    assert_eq!(
        PtySinkError("webview closed".to_string()).to_string(),
        "pty sink send failed: webview closed"
    );
}
