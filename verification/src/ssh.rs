//! The session manager: a plain registry of sessions that runs a command as
//! it is given and collects each session's standard output.
//!
//! As with the executor, the driver dials each host and hands the session in.

use crate::config::ConfigView;
use crate::config::SshConfig;
use crate::error::SshRemoteExecError;
use crate::executor::connection_error;
use crate::executor::connection_failure;
use crate::executor::establish;
use crate::executor::no_session;
use crate::executor::planned;
use crate::executor::ConnectAction;
use crate::transport;
use ssh2::Session;
use vstd::prelude::*;
use vstd::string::*;

verus! {

/// The session manager: a configuration and the sessions opened for it.
pub struct SshManager {
    config: SshConfig,
    sessions: Vec<Session>,
}

/// A manager as plain values: its configuration and the number of its
/// registered sessions.
pub struct ManagerView {
    pub config: ConfigView,
    pub sessions: nat,
}

impl View for SshManager {
    type V = ManagerView;

    closed spec fn view(&self) -> ManagerView {
        ManagerView { config: self.config@, sessions: self.sessions@.len() }
    }
}

impl SshManager {
    /// A manager for a configuration, with no session registered.
    pub fn new(config: SshConfig) -> (manager: Self)
        ensures
            manager@ == (ManagerView { config: config@, sessions: 0 }),
    {
        Self { config, sessions: Vec::new() }
    }

    /// Number of registered sessions.
    pub fn session_count(&self) -> (count: usize)
        ensures
            count == self@.sessions,
    {
        self.sessions.len()
    }

    /// The action of a connect cycle at a position of the host list: dial the
    /// host there, or finish when the list is exhausted. A cycle starts at
    /// position 0.
    pub fn connect_plan(&self, position: usize) -> (action: ConnectAction)
        ensures
            planned(self@.config.hosts, position as int, action),
    {
        if position < self.config.hosts.len() {
            ConnectAction::Dial(position, self.config.hosts[position].clone())
        } else {
            ConnectAction::Finished
        }
    }

    /// One step of a connect cycle: takes the session that the driver dialed
    /// for the host at `position`, or the text of the failure to dial it.
    ///
    /// A dialed session is taken through handshake and public-key
    /// authentication and is then registered; the step answers with the
    /// action at the next position. Any failure ends the cycle with a
    /// connection error that names the host, and registers nothing. Past the
    /// end of the host list the step answers `Finished`.
    pub fn connect(&mut self, position: usize, dialed: Result<Session, String>) -> (step: Result<
        ConnectAction,
        SshRemoteExecError,
    >)
        ensures
            final(self)@.config == old(self)@.config,
            position >= old(self)@.config.hosts.len() ==> step is Ok,
            position < old(self)@.config.hosts.len() && dialed is Err ==> step is Err,
            match step {
                Ok(action) => {
                    &&& planned(old(self)@.config.hosts, position + 1, action)
                    &&& final(self)@.sessions == if position < old(self)@.config.hosts.len() {
                        old(self)@.sessions + 1
                    } else {
                        old(self)@.sessions
                    }
                },
                Err(error) => {
                    &&& position < old(self)@.config.hosts.len()
                    &&& final(self)@.sessions == old(self)@.sessions
                    &&& error is RemoteConnection
                },
            },
    {
        if position >= self.config.hosts.len() {
            return Ok(ConnectAction::Finished);
        }
        let host = self.config.hosts[position].clone();
        let mut session = match dialed {
            Ok(session) => session,
            Err(cause) => {
                return Err(connection_error(host.as_str(), cause.as_str()));
            },
        };
        match establish(
            &mut session,
            self.config.username.as_str(),
            self.config.public_key.as_str(),
            self.config.private_key.as_str(),
        ) {
            Ok(_) => {},
            Err(e) => {
                return Err(connection_failure(host.as_str(), &e));
            },
        }
        self.sessions.push(session);
        if position + 1 < self.config.hosts.len() {
            Ok(ConnectAction::Dial(position + 1, self.config.hosts[position + 1].clone()))
        } else {
            Ok(ConnectAction::Finished)
        }
    }

    /// Disconnects every registered session, in registration order, and
    /// forgets them all.
    ///
    /// With no session registered the call is refused. The first session
    /// that fails to disconnect ends the call with its cause; every session
    /// then stays registered.
    pub fn disconnect(&mut self) -> (outcome: Result<(), SshRemoteExecError>)
        ensures
            final(self)@.config == old(self)@.config,
            old(self)@.sessions == 0 ==> outcome is Err,
            match outcome {
                Ok(_) => old(self)@.sessions > 0 && final(self)@.sessions == 0,
                Err(error) => {
                    &&& final(self)@.sessions == old(self)@.sessions
                    &&& error is RemoteDisconnection
                    &&& old(self)@.sessions == 0 ==> error.detail() == no_session()
                },
            },
    {
        if self.sessions.len() == 0 {
            return Err(
                SshRemoteExecError::RemoteDisconnection(
                    String::from_str("No existing session found"),
                ),
            );
        }
        let mut i: usize = 0;
        while i < self.sessions.len()
            invariant
                i <= self.sessions.len(),
                *self == *old(self),
            decreases self.sessions.len() - i,
        {
            match transport::disconnect(&self.sessions[i]) {
                Ok(_) => {},
                Err(e) => {
                    return Err(SshRemoteExecError::RemoteDisconnection(transport::describe(&e)));
                },
            }
            i += 1;
        }
        self.sessions.clear();
        Ok(())
    }

    /// Runs a command, as it is given, on every registered session, in
    /// registration order, and returns each session's standard output, in
    /// that order.
    ///
    /// With no session registered the call is refused. The first session on
    /// which the transport fails ends the call with its cause.
    pub fn execute_command(&self, command: &str) -> (outcome: Result<
        Vec<String>,
        SshRemoteExecError,
    >)
        ensures
            self@.sessions == 0 ==> outcome is Err,
            match outcome {
                Ok(outputs) => self@.sessions > 0 && outputs.len() == self@.sessions,
                Err(error) => {
                    &&& error is RemoteCommandExecution
                    &&& self@.sessions == 0 ==> error.detail() == no_session()
                },
            },
    {
        if self.sessions.len() == 0 {
            return Err(
                SshRemoteExecError::RemoteCommandExecution(
                    String::from_str("No existing session found"),
                ),
            );
        }
        let mut outputs: Vec<String> = Vec::new();
        let mut i: usize = 0;
        while i < self.sessions.len()
            invariant
                i <= self.sessions.len(),
                outputs.len() == i,
            decreases self.sessions.len() - i,
        {
            match read_output(&self.sessions[i], command) {
                Ok(text) => {
                    outputs.push(text);
                },
                Err(cause) => {
                    return Err(SshRemoteExecError::RemoteCommandExecution(cause));
                },
            }
            i += 1;
        }
        Ok(outputs)
    }
}

/// Runs a command on one session and reads its standard output: opens a
/// channel, starts the command, reads to the end and waits for the channel
/// to close. A failure comes back as its text.
fn read_output(session: &Session, command: &str) -> (outcome: Result<String, String>) {
    let mut channel = match transport::open_channel(session) {
        Ok(channel) => channel,
        Err(e) => {
            return Err(transport::describe(&e));
        },
    };
    match transport::exec(&mut channel, command) {
        Ok(_) => {},
        Err(e) => {
            return Err(transport::describe(&e));
        },
    }
    let text = match transport::read_stdout(&mut channel) {
        Ok(text) => text,
        Err(cause) => {
            return Err(cause);
        },
    };
    match transport::wait_close(&mut channel) {
        Ok(_) => {},
        Err(e) => {
            return Err(transport::describe(&e));
        },
    }
    Ok(text)
}

} // verus!
