use botbox::ssh::pipeline::{
    default_kind_for_stage, ConnectError, ConnectErrorKind, ConnectStage,
};

#[test]
fn each_stage_has_a_default_error_class() {
    assert_eq!(
        default_kind_for_stage(ConnectStage::TcpConnect),
        ConnectErrorKind::Unreachable
    );
    assert_eq!(
        default_kind_for_stage(ConnectStage::HostKeyCheck),
        ConnectErrorKind::UntrustedHostKey
    );
    assert_eq!(
        default_kind_for_stage(ConnectStage::Authenticate),
        ConnectErrorKind::RemoteAuthFailure
    );
    assert_eq!(
        default_kind_for_stage(ConnectStage::OpenChannels),
        ConnectErrorKind::AttachFailure
    );
    assert_eq!(
        default_kind_for_stage(ConnectStage::ProbeDashboard),
        ConnectErrorKind::WrongDashboardPort
    );
}

#[test]
fn signer_failure_is_distinct_from_remote_auth_failure() {
    assert_ne!(
        ConnectErrorKind::LocalSignerFailure,
        ConnectErrorKind::RemoteAuthFailure
    );
    assert_eq!(
        default_kind_for_stage(ConnectStage::Authenticate),
        ConnectErrorKind::RemoteAuthFailure
    );
    assert_eq!(
        ConnectErrorKind::LocalSignerFailure.as_kind(),
        "local-signer-failure"
    );
}

#[test]
fn stage_strings_match_frontend() {
    assert_eq!(ConnectStage::TcpConnect.as_str(), "tcp-connect");
    assert_eq!(ConnectStage::HostKeyCheck.as_str(), "host-key-check");
    assert_eq!(ConnectStage::Authenticate.as_str(), "authenticate");
    assert_eq!(ConnectStage::OpenChannels.as_str(), "open-channels");
    assert_eq!(ConnectStage::ProbeDashboard.as_str(), "probe-dashboard");
}

#[test]
fn error_kind_strings_match_frontend_one_to_one() {
    let pairs = [
        (ConnectErrorKind::Unreachable, "unreachable-host"),
        (ConnectErrorKind::UntrustedHostKey, "untrusted-host-key"),
        (ConnectErrorKind::HostKeyMismatch, "host-key-mismatch"),
        (ConnectErrorKind::RemoteAuthFailure, "remote-auth-failure"),
        (ConnectErrorKind::LocalSignerFailure, "local-signer-failure"),
        (ConnectErrorKind::WrongDashboardPort, "wrong-dashboard-port"),
        (ConnectErrorKind::AttachFailure, "attach-failure"),
        (ConnectErrorKind::ConnectionLost, "connection-lost"),
    ];
    for (kind, expected) in pairs {
        assert_eq!(kind.as_kind(), expected, "drift for {kind:?}");
    }
    let mut seen = std::collections::HashSet::new();
    for (kind, _) in pairs {
        assert!(seen.insert(kind.as_kind()), "duplicate kind for {kind:?}");
    }
}

#[test]
fn connect_error_carries_stage_and_kind() {
    let e = ConnectError::new(
        ConnectErrorKind::Unreachable,
        ConnectStage::TcpConnect,
        "connection refused",
    );
    assert_eq!(e.kind, ConnectErrorKind::Unreachable);
    assert_eq!(e.stage, ConnectStage::TcpConnect);
    assert_eq!(e.to_string(), "[tcp-connect] connection refused");
}

#[test]
fn a_cloned_error_is_the_same_error() {
    let e = ConnectError::new(
        ConnectErrorKind::AttachFailure,
        ConnectStage::OpenChannels,
        "no such session",
    );
    assert_eq!(e.clone(), e);
    assert_eq!(e.to_string(), "[open-channels] no such session");
}
