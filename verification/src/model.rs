//! Plain data of the executor: configuration, session handles, what a
//! finished command leaves behind, and per-host results.

pub use crate::error::SshRemoteExecError;
use crate::error::host_scoped;
use crate::error::scope_to_host;
use ssh2::Session;
use vstd::prelude::*;
use vstd::string::*;

verus! {

/// The views of a list of host names, in order.
pub open spec fn names(hosts: Seq<String>) -> Seq<Seq<char>> {
    Seq::new(hosts.len(), |i: int| hosts[i]@)
}

/// An established session together with the host it belongs to.
pub struct SshSessionIdentifier {
    pub host: String,
    pub session: Session,
}

impl SshSessionIdentifier {
    /// Pairs a host with its session.
    pub fn new(host: String, session: Session) -> (handle: Self)
        ensures
            handle.host == host,
            handle.session == session,
    {
        Self { host, session }
    }
}

/// Classification of one host's outcome.
#[derive(Clone, Copy, Debug, PartialEq, Eq, Structural)]
pub enum SshCommandResultStatus {
    Success,
    Error,
}

/// What a command that ran to its end leaves behind on one channel.
#[derive(Debug)]
pub struct ChannelOutcome {
    pub stdout: String,
    pub stderr: String,
    pub exit_status: i32,
}

/// Outcome of one command on one host: standard output when it succeeded,
/// standard error when it failed.
#[derive(Debug)]
pub struct SshCommandResult {
    pub host: String,
    pub result: String,
    pub status: SshCommandResultStatus,
}

/// A result as plain text and status.
pub struct CommandResultView {
    pub host: Seq<char>,
    pub result: Seq<char>,
    pub status: SshCommandResultStatus,
}

impl View for SshCommandResult {
    type V = CommandResultView;

    open spec fn view(&self) -> CommandResultView {
        CommandResultView { host: self.host@, result: self.result@, status: self.status }
    }
}

/// The result for a host whose command ended with an exit status: zero is
/// success and reports standard output, anything else is failure and reports
/// standard error.
pub open spec fn classified(
    host: Seq<char>,
    stdout: Seq<char>,
    stderr: Seq<char>,
    exit_status: i32,
) -> CommandResultView {
    if exit_status == 0 {
        CommandResultView { host, result: stdout, status: SshCommandResultStatus::Success }
    } else {
        CommandResultView { host, result: stderr, status: SshCommandResultStatus::Error }
    }
}

impl SshCommandResult {
    /// Builds a result from its three parts, unchanged.
    pub fn new(host: String, result: String, status: SshCommandResultStatus) -> (r: Self)
        ensures
            r@ == (CommandResultView { host: host@, result: result@, status }),
            r.host == host,
            r.result == result,
    {
        Self { host, result, status }
    }

    /// Classifies what a finished remote command left behind.
    pub fn from_exit(host: String, stdout: String, stderr: String, exit_status: i32) -> (r: Self)
        ensures
            r@ == classified(host@, stdout@, stderr@, exit_status),
    {
        if exit_status != 0 {
            Self::new(host, stderr, SshCommandResultStatus::Error)
        } else {
            Self::new(host, stdout, SshCommandResultStatus::Success)
        }
    }

    /// Settles one host: a command that ran to its end is classified by its
    /// exit status; a transport failure, given by the text of its cause,
    /// becomes an execution error that names the host.
    pub fn from_outcome(host: String, outcome: Result<ChannelOutcome, String>) -> (settled: Result<
        Self,
        SshRemoteExecError,
    >)
        ensures
            match outcome {
                Ok(left) => settled matches Ok(r) && r@ == classified(
                    host@,
                    left.stdout@,
                    left.stderr@,
                    left.exit_status,
                ),
                Err(cause) => settled matches Err(error) && error is RemoteCommandExecution
                    && error.detail() == host_scoped(host@, cause@),
            },
    {
        match outcome {
            Ok(left) => Ok(Self::from_exit(host, left.stdout, left.stderr, left.exit_status)),
            Err(cause) => Err(
                SshRemoteExecError::RemoteCommandExecution(
                    scope_to_host(host.as_str(), cause.as_str()),
                ),
            ),
        }
    }
}

/// Targets and credentials of an executor; the two keys are given by their
/// paths.
#[derive(Debug)]
pub struct SshConfig {
    pub hosts: Vec<String>,
    pub username: String,
    pub password: String,
    pub public_key: String,
    pub private_key: String,
}

/// A configuration as plain text.
pub struct ConfigView {
    pub hosts: Seq<Seq<char>>,
    pub username: Seq<char>,
    pub password: Seq<char>,
    pub public_key: Seq<char>,
    pub private_key: Seq<char>,
}

impl View for SshConfig {
    type V = ConfigView;

    open spec fn view(&self) -> ConfigView {
        ConfigView {
            hosts: names(self.hosts@),
            username: self.username@,
            password: self.password@,
            public_key: self.public_key@,
            private_key: self.private_key@,
        }
    }
}

impl SshConfig {
    /// Builds a configuration from the private key's path; the public key is
    /// expected beside it, under the same path with `.pub` appended.
    pub fn new(hosts: Vec<String>, username: String, password: String, identity: String) -> (config:
        Self)
        ensures
            config@ == (ConfigView {
                hosts: names(hosts@),
                username: username@,
                password: password@,
                public_key: identity@ + ".pub"@,
                private_key: identity@,
            }),
            config.hosts == hosts,
    {
        let mut public_key = identity.clone();
        public_key.append(".pub");
        Self { hosts, username, password, public_key, private_key: identity }
    }
}

} // verus!
