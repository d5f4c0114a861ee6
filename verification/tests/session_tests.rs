use remote_session::dial::Dialer;
use remote_session::errors::{SshError, TunnelStage};
use remote_session::session::{
    CloseStep, ConnectStage, Credential, DirectConnect, JumpConfig, JumpPhase, Ssh,
    TunnelConnect,
};

#[test]
fn dialer_no_address_resolves() {
    let d = Dialer::new(0);
    assert_eq!(d.next_candidate(), None);
    assert_eq!(d.outcome(), Err(SshError::Resolution));
}

#[test]
fn dialer_every_candidate_refuses() {
    let mut d = Dialer::new(2);
    assert_eq!(d.next_candidate(), Some(0));
    d.report_failure("connection refused".to_string());
    assert_eq!(d.next_candidate(), Some(1));
    d.report_failure("host unreachable".to_string());
    assert_eq!(d.next_candidate(), None);
    // the last per-address error is the one carried
    assert_eq!(
        d.outcome(),
        Err(SshError::Connect { last: "host unreachable".to_string() })
    );
}

#[test]
fn dialer_first_success_wins() {
    let mut d = Dialer::new(3);
    assert_eq!(d.next_candidate(), Some(0));
    d.report_failure("connection refused".to_string());
    assert_eq!(d.next_candidate(), Some(1));
    d.report_success();
    assert_eq!(d.next_candidate(), None);
    assert_eq!(d.outcome(), Ok(1));
}

#[test]
fn direct_connect_success_path() {
    let mut m = DirectConnect::new();
    m.on_dial(Ok(0));
    m.on_result(true); // handshake
    m.on_result(true); // auth
    m.on_result(true); // file access
    assert_eq!(m.stage, ConnectStage::Ready);
    assert_eq!(m.error, None);
}

#[test]
fn wrong_credential_fails_with_auth() {
    let mut m = DirectConnect::new();
    m.on_dial(Ok(0));
    m.on_result(true); // handshake
    m.on_result(false); // credential refused
    assert_eq!(m.stage, ConnectStage::Failed);
    assert_eq!(m.error, Some(SshError::Auth));
}

#[test]
fn handshake_failure_is_handshake() {
    let mut m = DirectConnect::new();
    m.on_dial(Ok(0));
    m.on_result(false); // the protocol handshake failed
    assert_eq!(m.stage, ConnectStage::Failed);
    assert_eq!(m.error, Some(SshError::Handshake));
}

#[test]
fn file_access_failure_is_its_own_error() {
    let mut m = DirectConnect::new();
    m.on_dial(Ok(0));
    m.on_result(true); // handshake
    m.on_result(true); // auth
    m.on_result(false); // the file-access handle could not be opened
    assert_eq!(m.stage, ConnectStage::Failed);
    assert_eq!(m.error, Some(SshError::FileAccessOpen));
}

#[test]
fn dial_failure_is_distinguishable_from_auth() {
    let mut m = DirectConnect::new();
    m.on_dial(Err(SshError::Resolution));
    assert_eq!(m.stage, ConnectStage::Failed);
    assert_eq!(m.error, Some(SshError::Resolution));
    assert_ne!(m.error, Some(SshError::Auth));
}

#[test]
fn jump_target_auth_failure_is_target_qualified() {
    let mut m = TunnelConnect::new();
    m.on_result(true); // jump connect
    m.on_result(true); // jump handshake
    m.on_result(true); // jump auth (valid jump credential)
    m.on_result(true); // tunnel open
    m.on_result(true); // target handshake
    m.on_result(false); // target credential refused
    assert_eq!(m.phase, JumpPhase::Failed);
    assert_eq!(
        m.error,
        Some(SshError::Tunnel { stage: TunnelStage::TargetAuth })
    );
}

#[test]
fn jump_credential_failure_is_jump_qualified() {
    let mut m = TunnelConnect::new();
    m.on_result(true); // jump connect
    m.on_result(true); // jump handshake
    m.on_result(false); // jump credential refused
    assert_eq!(m.phase, JumpPhase::Failed);
    assert_eq!(m.error, Some(SshError::Tunnel { stage: TunnelStage::JumpAuth }));
    assert_ne!(
        m.error,
        Some(SshError::Tunnel { stage: TunnelStage::TargetAuth })
    );
}

#[test]
fn jump_success_path_reaches_ready() {
    let mut m = TunnelConnect::new();
    for _ in 0..7 {
        m.on_result(true);
    }
    assert_eq!(m.phase, JumpPhase::Ready);
}

#[test]
fn session_lifecycle_direct() {
    let mut ssh = Ssh::new();
    assert!(!ssh.is_connected());
    let mut m = DirectConnect::new();
    m.on_dial(Ok(0));
    m.on_result(true);
    m.on_result(true);
    m.on_result(true);
    ssh.complete_connect(&m, "host.example".to_string(), "support".to_string());
    assert!(ssh.is_connected());
    assert_eq!(ssh.close_plan(), vec![CloseStep::CloseTarget]);
    ssh.mark_disconnected();
    assert!(!ssh.is_connected());
}

#[test]
fn session_lifecycle_via_jump_closes_both() {
    let mut ssh = Ssh::new();
    ssh.set_jump_server(
        "jump.example".to_string(),
        "jumpuser".to_string(),
        "jumppass".to_string(),
    );
    assert_eq!(
        ssh.jump_config(),
        &Some(JumpConfig {
            host: "jump.example".to_string(),
            user: "jumpuser".to_string(),
            credential: Credential::Password("jumppass".to_string()),
        })
    );
    let mut m = TunnelConnect::new();
    for _ in 0..7 {
        m.on_result(true);
    }
    ssh.complete_jump_connect(&m, "target.example".to_string(), "admin".to_string());
    assert!(ssh.is_connected());
    // disconnecting tears the nested jump session down too
    assert_eq!(
        ssh.close_plan(),
        vec![CloseStep::CloseTarget, CloseStep::CloseJump]
    );
    ssh.mark_disconnected();
    assert!(!ssh.is_connected());
}

#[test]
fn jump_key_config_is_kept() {
    let mut ssh = Ssh::new();
    ssh.set_jump_server_with_key(
        "jump.example".to_string(),
        "jumpuser".to_string(),
        "/home/u/.ssh/id_rsa".to_string(),
    );
    assert_eq!(
        ssh.jump_config(),
        &Some(JumpConfig {
            host: "jump.example".to_string(),
            user: "jumpuser".to_string(),
            credential: Credential::KeyFile("/home/u/.ssh/id_rsa".to_string()),
        })
    );
}
