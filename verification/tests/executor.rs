use ssh_remote_exec::error::SshRemoteExecError;
use ssh_remote_exec::executor::ConnectAction;
use ssh_remote_exec::executor::SshExecutor;
use ssh_remote_exec::model::SshCommandResult;
use ssh_remote_exec::model::SshCommandResultStatus;
use ssh_remote_exec::model::SshConfig;

fn two_hosts() -> SshExecutor {
    SshExecutor::new(SshConfig::new(
        vec!["10.0.0.1:22".to_string(), "10.0.0.2:22".to_string()],
        "root".to_string(),
        "secret".to_string(),
        "tmp/id_ed25519".to_string(),
    ))
}

fn detail(error: SshRemoteExecError) -> String {
    match error {
        SshRemoteExecError::RemoteConnection(text) => text,
        SshRemoteExecError::RemoteDisconnection(text) => text,
        SshRemoteExecError::RemoteCommandExecution(text) => text,
    }
}

#[test]
fn new_executor_has_no_session() {
    let executor = two_hosts();
    assert_eq!(executor.session_count(), 0);
    assert!(executor.session_hosts().is_empty());
}

#[test]
fn execute_without_session_is_refused() {
    let executor = two_hosts();
    for command in ["uname -a", "", "sudo apt update"] {
        let error = executor.execute_command(command.to_string()).unwrap_err();
        assert!(matches!(error, SshRemoteExecError::RemoteCommandExecution(_)));
        assert_eq!(detail(error), "No existing session found");
    }
    assert_eq!(executor.session_count(), 0);
}

#[test]
fn disconnect_without_session_is_refused() {
    let mut executor = two_hosts();
    let error = executor.disconnect().unwrap_err();
    assert!(matches!(error, SshRemoteExecError::RemoteDisconnection(_)));
    assert_eq!(
        error.message(),
        "Error during remote ssh disconnection: No existing session found"
    );
    assert_eq!(executor.session_count(), 0);
}

#[test]
fn disconnect_twice_is_refused_both_times() {
    let mut executor = two_hosts();
    assert_eq!(detail(executor.disconnect().unwrap_err()), "No existing session found");
    assert_eq!(detail(executor.disconnect().unwrap_err()), "No existing session found");
}

#[test]
fn connect_plan_walks_the_host_list() {
    let executor = two_hosts();
    assert!(matches!(executor.connect_plan(0), ConnectAction::Dial(0, host) if host == "10.0.0.1:22"));
    assert!(matches!(executor.connect_plan(1), ConnectAction::Dial(1, host) if host == "10.0.0.2:22"));
    assert!(matches!(executor.connect_plan(2), ConnectAction::Finished));
    assert!(matches!(executor.connect_plan(usize::MAX), ConnectAction::Finished));
}

#[test]
fn connect_plan_of_empty_host_list_is_finished() {
    let executor = SshExecutor::new(SshConfig::new(
        Vec::new(),
        "root".to_string(),
        String::new(),
        "key".to_string(),
    ));
    assert!(matches!(executor.connect_plan(0), ConnectAction::Finished));
}

#[test]
fn connect_reports_a_failed_dial_with_its_host() {
    let mut executor = two_hosts();
    let error = executor.connect(0, Err("connection refused".to_string())).unwrap_err();
    assert!(matches!(error, SshRemoteExecError::RemoteConnection(_)));
    assert_eq!(detail(error), "[10.0.0.1:22] connection refused");
    assert_eq!(executor.session_count(), 0);
    let error = executor.connect(1, Err("unreachable".to_string())).unwrap_err();
    assert_eq!(
        error.message(),
        "Error during remote ssh connection: [10.0.0.2:22] unreachable"
    );
    assert_eq!(executor.session_count(), 0);
}

#[test]
fn connect_reports_a_failed_handshake_with_its_host() {
    let mut executor = two_hosts();
    let session = ssh2::Session::new().unwrap();
    let error = executor.connect(1, Ok(session)).unwrap_err();
    assert!(matches!(error, SshRemoteExecError::RemoteConnection(_)));
    let text = detail(error);
    assert!(text.starts_with("[10.0.0.2:22] "));
    assert!(text.len() > "[10.0.0.2:22] ".len());
    assert_eq!(executor.session_count(), 0);
    assert!(executor.execute_command("uname -a".to_string()).is_err());
}

#[test]
fn connect_past_the_host_list_is_finished() {
    let mut executor = two_hosts();
    let step = executor.connect(2, Err("unused".to_string())).unwrap();
    assert!(matches!(step, ConnectAction::Finished));
    let step = executor.connect(7, Ok(ssh2::Session::new().unwrap())).unwrap();
    assert!(matches!(step, ConnectAction::Finished));
    assert_eq!(executor.session_count(), 0);
}

#[test]
fn command_text_uses_the_configured_password() {
    let executor = two_hosts();
    assert_eq!(executor.command_text("sudo apt update"), "echo secret | sudo -S  apt update");
    assert_eq!(executor.command_text("uname -a"), "uname -a");
}

#[test]
fn two_hosts_report_their_kernel_in_order() {
    let executor = two_hosts();
    let literal = executor.command_text("uname -a");
    assert_eq!(literal, "uname -a");
    let kernel = "Linux node 6.1.0 #1 SMP x86_64 GNU/Linux\n";
    let mut results: Vec<SshCommandResult> = Vec::new();
    let mut position = 0;
    while let ConnectAction::Dial(at, host) = executor.connect_plan(position) {
        assert_eq!(at, position);
        results.push(SshCommandResult::from_exit(host, kernel.to_string(), String::new(), 0));
        position += 1;
    }
    assert_eq!(results.len(), 2);
    assert_eq!(results[0].host, "10.0.0.1:22");
    assert_eq!(results[1].host, "10.0.0.2:22");
    for r in &results {
        assert_eq!(r.status, SshCommandResultStatus::Success);
        assert!(r.result.contains("Linux"));
    }
}
