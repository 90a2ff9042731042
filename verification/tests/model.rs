use ssh_remote_exec::error::scope_to_host;
use ssh_remote_exec::error::SshRemoteExecError;
use ssh_remote_exec::model::ChannelOutcome;
use ssh_remote_exec::model::SshCommandResult;
use ssh_remote_exec::model::SshCommandResultStatus;
use ssh_remote_exec::model::SshConfig;
use ssh_remote_exec::model::SshSessionIdentifier;

#[test]
fn command_result_new_keeps_its_parts() {
    let r = SshCommandResult::new(
        "10.0.0.1:22".to_string(),
        "Linux".to_string(),
        SshCommandResultStatus::Success,
    );
    assert_eq!(r.host, "10.0.0.1:22");
    assert_eq!(r.result, "Linux");
    assert_eq!(r.status, SshCommandResultStatus::Success);
    let r = SshCommandResult::new("h".to_string(), "".to_string(), SshCommandResultStatus::Error);
    assert_eq!(r.host, "h");
    assert_eq!(r.result, "");
    assert_eq!(r.status, SshCommandResultStatus::Error);
}

#[test]
fn exit_status_zero_reports_stdout_as_success() {
    let r = SshCommandResult::from_exit(
        "10.0.0.1:22".to_string(),
        "out".to_string(),
        "err".to_string(),
        0,
    );
    assert_eq!(r.host, "10.0.0.1:22");
    assert_eq!(r.result, "out");
    assert_eq!(r.status, SshCommandResultStatus::Success);
}

#[test]
fn nonzero_exit_status_reports_stderr_as_failure() {
    for status in [1, 2, 127, 255, -1, i32::MAX, i32::MIN] {
        let r = SshCommandResult::from_exit(
            "10.0.0.2:22".to_string(),
            "out".to_string(),
            "err".to_string(),
            status,
        );
        assert_eq!(r.host, "10.0.0.2:22");
        assert_eq!(r.result, "err");
        assert_eq!(r.status, SshCommandResultStatus::Error);
    }
}

#[test]
fn config_new_derives_the_public_key_path() {
    let config = SshConfig::new(
        vec!["10.0.0.1:22".to_string(), "10.0.0.2:22".to_string()],
        "root".to_string(),
        "secret".to_string(),
        "tmp/id_ed25519".to_string(),
    );
    assert_eq!(config.hosts, vec!["10.0.0.1:22".to_string(), "10.0.0.2:22".to_string()]);
    assert_eq!(config.username, "root");
    assert_eq!(config.password, "secret");
    assert_eq!(config.private_key, "tmp/id_ed25519");
    assert_eq!(config.public_key, "tmp/id_ed25519.pub");
}

#[test]
fn config_new_with_empty_parts() {
    let config = SshConfig::new(Vec::new(), String::new(), String::new(), String::new());
    assert!(config.hosts.is_empty());
    assert_eq!(config.private_key, "");
    assert_eq!(config.public_key, ".pub");
}

#[test]
fn session_identifier_keeps_its_host() {
    let session = ssh2::Session::new().unwrap();
    let handle = SshSessionIdentifier::new("10.0.0.1:22".to_string(), session);
    assert_eq!(handle.host, "10.0.0.1:22");
    assert!(!handle.session.authenticated());
}

#[test]
fn error_message_has_heading_and_detail() {
    assert_eq!(
        SshRemoteExecError::RemoteConnection("refused".to_string()).message(),
        "Error during remote ssh connection: refused"
    );
    assert_eq!(
        SshRemoteExecError::RemoteDisconnection("No existing session found".to_string()).message(),
        "Error during remote ssh disconnection: No existing session found"
    );
    assert_eq!(
        SshRemoteExecError::RemoteCommandExecution("".to_string()).message(),
        "Error during remote ssh command execution: "
    );
}

#[test]
fn scope_to_host_brackets_the_host() {
    assert_eq!(scope_to_host("10.0.0.1:22", "timed out"), "[10.0.0.1:22] timed out");
    assert_eq!(scope_to_host("", ""), "[] ");
}

#[test]
fn finished_command_is_classified_by_its_exit_status() {
    let left = ChannelOutcome {
        stdout: "Linux\n".to_string(),
        stderr: "warning\n".to_string(),
        exit_status: 0,
    };
    let r = SshCommandResult::from_outcome("10.0.0.1:22".to_string(), Ok(left)).unwrap();
    assert_eq!(r.host, "10.0.0.1:22");
    assert_eq!(r.result, "Linux\n");
    assert_eq!(r.status, SshCommandResultStatus::Success);

    let left = ChannelOutcome {
        stdout: "partial\n".to_string(),
        stderr: "permission denied\n".to_string(),
        exit_status: 1,
    };
    let r = SshCommandResult::from_outcome("10.0.0.2:22".to_string(), Ok(left)).unwrap();
    assert_eq!(r.host, "10.0.0.2:22");
    assert_eq!(r.result, "permission denied\n");
    assert_eq!(r.status, SshCommandResultStatus::Error);
}

#[test]
fn transport_failure_becomes_an_execution_error_with_its_host() {
    let error =
        SshCommandResult::from_outcome("10.0.0.1:22".to_string(), Err("channel closed".to_string()))
            .unwrap_err();
    assert!(matches!(
        &error,
        SshRemoteExecError::RemoteCommandExecution(text) if text == "[10.0.0.1:22] channel closed"
    ));
    assert_eq!(
        error.message(),
        "Error during remote ssh command execution: [10.0.0.1:22] channel closed"
    );
}
