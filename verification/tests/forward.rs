use botbox::ssh::channels::ChannelMessage;
use botbox::ssh::forward::{
    address_failure, bind_failure, forward_log_line, local_dashboard_url, DashboardProbe, Forward,
    ForwardFault, ProbeOpening, ProbeVerdict, LOOPBACK_HOST, PROBE_SETTLE_WINDOW_MS,
};
use botbox::ssh::pipeline::{ConnectErrorKind, ConnectStage};

#[test]
fn the_local_url_is_on_the_loopback_address() {
    assert_eq!(local_dashboard_url(9119), "http://127.0.0.1:9119");
    assert_eq!(local_dashboard_url(0), "http://127.0.0.1:0");
    assert_eq!(local_dashboard_url(65535), "http://127.0.0.1:65535");
    let fwd = Forward::new(49152);
    assert_eq!(fwd.local_port(), 49152);
    assert_eq!(fwd.local_url(), "http://127.0.0.1:49152");
    assert_eq!(LOOPBACK_HOST, "127.0.0.1");
    assert_eq!(PROBE_SETTLE_WINDOW_MS, 250);
}

#[test]
fn a_refused_probe_channel_means_nothing_listens() {
    let probe = DashboardProbe::new(1);
    assert!(probe.opened(ProbeOpening::Opened).is_ok());
    let e = probe.opened(ProbeOpening::Refused).err().unwrap();
    assert_eq!(e.kind, ConnectErrorKind::WrongDashboardPort);
    assert_eq!(e.stage, ConnectStage::ProbeDashboard);
    assert_eq!(
        e.message,
        "nothing listening on port 1 (the server refused the dashboard connection)"
    );
    let e = probe
        .opened(ProbeOpening::Failed("Disconnected".to_string()))
        .err()
        .unwrap();
    assert_eq!(e.kind, ConnectErrorKind::WrongDashboardPort);
    assert_eq!(e.message, "could not probe dashboard port 1: Disconnected");
}

#[test]
fn the_first_telling_message_decides_a_probe() {
    let probe = DashboardProbe::new(9119);
    for m in [
        ChannelMessage::Data(vec![]),
        ChannelMessage::ExtendedData(vec![1]),
        ChannelMessage::WindowAdjusted,
    ] {
        assert_eq!(probe.heard(&m), Some(ProbeVerdict::Healthy));
    }
    for m in [ChannelMessage::Eof, ChannelMessage::Close, ChannelMessage::Ended] {
        assert_eq!(probe.heard(&m), Some(ProbeVerdict::Refused));
    }
    for m in [ChannelMessage::Success, ChannelMessage::Failure, ChannelMessage::Other] {
        assert_eq!(probe.heard(&m), None);
    }
}

#[test]
fn a_probe_settles_on_its_verdict() {
    let probe = DashboardProbe::new(9119);
    assert!(probe.settled(None).is_ok());
    assert!(probe.settled(Some(ProbeVerdict::Healthy)).is_ok());
    let e = probe.settled(Some(ProbeVerdict::Refused)).err().unwrap();
    assert_eq!(
        e.to_string(),
        "[probe-dashboard] nothing listening on port 9119 \
         (the forwarded dashboard connection was closed immediately)"
    );
}

#[test]
fn listener_failures_are_told_apart() {
    let e = bind_failure("no ports");
    assert_eq!(e.kind, ConnectErrorKind::WrongDashboardPort);
    assert_eq!(e.stage, ConnectStage::ProbeDashboard);
    assert_eq!(e.message, "could not bind loopback forward listener: no ports");
    assert_eq!(
        address_failure("gone").message,
        "could not read forward listener address: gone"
    );
}

#[test]
fn a_failed_forward_is_logged() {
    let failure = ForwardFault::Open.describe("refused");
    assert_eq!(failure, "direct-tcpip open failed: refused");
    assert_eq!(
        ForwardFault::Copy.describe("reset"),
        "copy_bidirectional ended with error: reset"
    );
    assert_eq!(
        forward_log_line("127.0.0.1:5", "127.0.0.1", 9119, &failure),
        "botbox: dashboard forward for 127.0.0.1:5 \u{2192} 127.0.0.1:9119 failed: \
         direct-tcpip open failed: refused"
    );
}
