use ssh_remote_exec::config::SshConfig;
use ssh_remote_exec::error::SshRemoteExecError;
use ssh_remote_exec::executor::ConnectAction;
use ssh_remote_exec::ssh::SshManager;

fn manager() -> SshManager {
    SshManager::new(SshConfig {
        hosts: vec!["192.168.1.10:22".to_string()],
        username: "root".to_string(),
        public_key: "tmp/id_ed25519.pub".to_string(),
        private_key: "tmp/id_ed25519".to_string(),
    })
}

#[test]
fn new_manager_has_no_session() {
    assert_eq!(manager().session_count(), 0);
}

#[test]
fn manager_execute_without_session_is_refused() {
    let error = manager().execute_command("apt update").unwrap_err();
    assert!(matches!(
        error,
        SshRemoteExecError::RemoteCommandExecution(text) if text == "No existing session found"
    ));
}

#[test]
fn manager_disconnect_without_session_is_refused() {
    let mut manager = manager();
    for _ in 0..2 {
        let error = manager.disconnect().unwrap_err();
        assert!(matches!(
            error,
            SshRemoteExecError::RemoteDisconnection(text) if text == "No existing session found"
        ));
    }
}

#[test]
fn manager_connect_plan_walks_the_host_list() {
    let manager = manager();
    assert!(matches!(manager.connect_plan(0), ConnectAction::Dial(0, host) if host == "192.168.1.10:22"));
    assert!(matches!(manager.connect_plan(1), ConnectAction::Finished));
}

#[test]
fn manager_connect_reports_failures() {
    let mut manager = manager();
    let error = manager.connect(0, Err("refused".to_string())).unwrap_err();
    assert!(matches!(
        error,
        SshRemoteExecError::RemoteConnection(text) if text == "[192.168.1.10:22] refused"
    ));
    let error = manager.connect(0, Ok(ssh2::Session::new().unwrap())).unwrap_err();
    assert!(matches!(
        error,
        SshRemoteExecError::RemoteConnection(text) if text.starts_with("[192.168.1.10:22] ")
    ));
    assert_eq!(manager.session_count(), 0);
    assert!(matches!(manager.connect(1, Err("unused".to_string())), Ok(ConnectAction::Finished)));
}
