//! Failures of remote execution and the text that describes them.

use vstd::prelude::*;
use vstd::string::*;

verus! {

/// Failures of the executor, each with the text that describes it.
#[derive(Debug)]
pub enum SshRemoteExecError {
    RemoteConnection(String),
    RemoteDisconnection(String),
    RemoteCommandExecution(String),
}

/// The text that describes a failure on one host: the host in square
/// brackets, then the cause.
pub open spec fn host_scoped(host: Seq<char>, cause: Seq<char>) -> Seq<char> {
    "["@ + host + "] "@ + cause
}

/// Describes a failure on one host.
pub fn scope_to_host(host: &str, cause: &str) -> (text: String)
    ensures
        text@ == host_scoped(host@, cause@),
{
    let mut text = String::from_str("[");
    text.append(host);
    text.append("] ");
    text.append(cause);
    text
}

impl SshRemoteExecError {
    /// The text carried by the error.
    pub open spec fn detail(self) -> Seq<char> {
        match self {
            SshRemoteExecError::RemoteConnection(text) => text@,
            SshRemoteExecError::RemoteDisconnection(text) => text@,
            SshRemoteExecError::RemoteCommandExecution(text) => text@,
        }
    }

    /// The sentence that introduces each kind of error.
    pub open spec fn heading(self) -> Seq<char> {
        match self {
            SshRemoteExecError::RemoteConnection(_) => "Error during remote ssh connection: "@,
            SshRemoteExecError::RemoteDisconnection(_) => "Error during remote ssh disconnection: "@,
            SshRemoteExecError::RemoteCommandExecution(_) =>
                "Error during remote ssh command execution: "@,
        }
    }

    /// The error as one line of text: its heading, then its detail.
    pub fn message(&self) -> (line: String)
        ensures
            line@ == self.heading() + self.detail(),
    {
        match self {
            SshRemoteExecError::RemoteConnection(text) => {
                let mut line = String::from_str("Error during remote ssh connection: ");
                line.append(text.as_str());
                line
            },
            SshRemoteExecError::RemoteDisconnection(text) => {
                let mut line = String::from_str("Error during remote ssh disconnection: ");
                line.append(text.as_str());
                line
            },
            SshRemoteExecError::RemoteCommandExecution(text) => {
                let mut line = String::from_str("Error during remote ssh command execution: ");
                line.append(text.as_str());
                line
            },
        }
    }
}

} // verus!
