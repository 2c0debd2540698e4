use ddc_shob::error::DeployError;
use ddc_shob::session::{AuthMethod, RemoteTarget, SessionSetup, SetupAction};

fn target(key: Option<&str>) -> RemoteTarget {
    RemoteTarget {
        host: "203.0.113.9".to_string(),
        user: "ubuntu".to_string(),
        key_path: key.map(|k| k.to_string()),
    }
}

#[test]
fn setup_walks_connect_handshake_authenticate_in_order() {
    let mut setup = SessionSetup::new(target(Some("/home/me/.ssh/id_rsa")));
    match setup.current_action() {
        Some(SetupAction::Connect(addr)) => assert_eq!(addr, "203.0.113.9:22"),
        _ => panic!("the first action must open the connection"),
    }
    setup.advance();
    assert!(matches!(setup.current_action(), Some(SetupAction::Handshake)));
    setup.advance();
    match setup.current_action() {
        Some(SetupAction::Authenticate(AuthMethod::KeyFile(path))) => {
            assert_eq!(path, "/home/me/.ssh/id_rsa")
        },
        _ => panic!("a supplied key must be used for authentication"),
    }
    setup.advance();
    assert!(setup.is_ready());
    assert!(setup.current_action().is_none());
    assert!(setup.error().is_none());
}

#[test]
fn without_a_key_the_agent_authenticates() {
    let mut setup = SessionSetup::new(target(None));
    setup.advance();
    setup.advance();
    assert!(matches!(
        setup.current_action(),
        Some(SetupAction::Authenticate(AuthMethod::Agent))
    ));
}

#[test]
fn rejected_credentials_fail_fast_as_authentication_failed() {
    let mut setup = SessionSetup::new(target(Some("/does/not/exist")));
    setup.advance(); // connected
    setup.advance(); // handshake done
    setup.fail("no such identity file".to_string());
    assert!(!setup.is_ready());
    assert!(setup.current_action().is_none());
    match setup.error() {
        Some(DeployError::AuthenticationFailed(cause)) => {
            assert_eq!(cause, "no such identity file")
        },
        _ => panic!("an authentication failure must be classified as AuthenticationFailed"),
    }
}

#[test]
fn connect_failure_is_a_connection_error() {
    let mut setup = SessionSetup::new(target(None));
    setup.fail("connection refused".to_string());
    assert!(matches!(setup.error(), Some(DeployError::ConnectionError(_))));
    assert!(setup.current_action().is_none());
}

#[test]
fn handshake_failure_is_a_session_error() {
    let mut setup = SessionSetup::new(target(None));
    setup.advance();
    setup.fail("kex mismatch".to_string());
    assert!(matches!(setup.error(), Some(DeployError::SessionError(_))));
}

#[test]
fn error_messages_carry_their_cause() {
    let e = DeployError::IOError("disk full".to_string());
    assert_eq!(e.message(), "disk full");
    let e = DeployError::RemoteCmdError("channel closed".to_string());
    assert_eq!(e.message(), "channel closed");
    let e = DeployError::PatternError("bad glob".to_string());
    assert_eq!(e.message(), "bad glob");
}
