//! The executor: connects to the configured hosts, runs a command on every
//! registered session, and disconnects.
//!
//! Opening the network connection to a host is the driver's part. The
//! executor tells it which host to dial, takes the dialed session back, and
//! does the rest: handshake, authentication and registration.

use crate::error::host_scoped;
use crate::error::scope_to_host;
use crate::error::SshRemoteExecError;
use crate::model::names;
use crate::model::ChannelOutcome;
use crate::model::ConfigView;
use crate::model::SshCommandResult;
use crate::model::SshConfig;
use crate::model::SshSessionIdentifier;
use crate::rewrite::rewrite;
use crate::rewrite::rewritten;
use crate::transport;
use ssh2::Error;
use ssh2::Session;
use vstd::prelude::*;
use vstd::string::*;

verus! {

/// What the driver does next during a connect cycle.
#[derive(Debug)]
pub enum ConnectAction {
    /// Dial the host at this position of the configured list.
    Dial(usize, String),
    /// Every configured host has been dealt with.
    Finished,
}

/// The hosts of a list of session handles, in order.
pub open spec fn registered(sessions: Seq<SshSessionIdentifier>) -> Seq<Seq<char>> {
    Seq::new(sessions.len(), |i: int| sessions[i].host@)
}

/// The action that a connect cycle takes at a position of the host list.
pub open spec fn planned(hosts: Seq<Seq<char>>, position: int, action: ConnectAction) -> bool {
    if 0 <= position < hosts.len() {
        action matches ConnectAction::Dial(at, host) && at == position && host@ == hosts[position]
    } else {
        action is Finished
    }
}

/// The registry after one successful step of a connect cycle at a position
/// of the host list: the host there is appended; past the end of the list
/// nothing changes.
pub open spec fn registry_step(registry: Seq<Seq<char>>, hosts: Seq<Seq<char>>, position: int) -> Seq<
    Seq<char>,
> {
    if 0 <= position < hosts.len() {
        registry.push(hosts[position])
    } else {
        registry
    }
}

/// The registry after `count` successful steps of a connect cycle, at the
/// positions from 0 on, on a registry that held `before`.
pub open spec fn registry_after(before: Seq<Seq<char>>, hosts: Seq<Seq<char>>, count: nat) -> Seq<
    Seq<char>,
>
    decreases count,
{
    if count == 0 {
        before
    } else {
        registry_step(registry_after(before, hosts, (count - 1) as nat), hosts, count - 1)
    }
}

/// Work on a registry is refused when it holds no session.
pub open spec fn refused(registry: Seq<Seq<char>>) -> bool {
    registry.len() == 0
}

/// The registry that a successful disconnect leaves behind.
pub open spec fn cleared() -> Seq<Seq<char>> {
    Seq::empty()
}

/// The text of the error that refuses work on an empty registry.
pub open spec fn no_session() -> Seq<char> {
    "No existing session found"@
}

/// The executor: a configuration and the registry of sessions opened for it.
pub struct SshExecutor {
    config: SshConfig,
    sessions: Vec<SshSessionIdentifier>,
}

/// An executor as plain values: its configuration and the hosts of its
/// registered sessions, in registration order.
pub struct ExecutorView {
    pub config: ConfigView,
    pub registry: Seq<Seq<char>>,
}

impl View for SshExecutor {
    type V = ExecutorView;

    closed spec fn view(&self) -> ExecutorView {
        ExecutorView { config: self.config@, registry: registered(self.sessions@) }
    }
}

impl SshExecutor {
    /// An executor for a configuration, with an empty registry.
    pub fn new(config: SshConfig) -> (executor: Self)
        ensures
            executor@ == (ExecutorView { config: config@, registry: Seq::empty() }),
    {
        let executor = Self { config, sessions: Vec::new() };
        assert(executor@.registry =~= Seq::<Seq<char>>::empty());
        executor
    }

    /// Number of registered sessions.
    pub fn session_count(&self) -> (count: usize)
        ensures
            count == self@.registry.len(),
    {
        self.sessions.len()
    }

    /// The hosts of the registered sessions, in registration order.
    pub fn session_hosts(&self) -> (hosts: Vec<String>)
        ensures
            names(hosts@) == self@.registry,
    {
        let mut hosts: Vec<String> = Vec::new();
        let mut i: usize = 0;
        while i < self.sessions.len()
            invariant
                i <= self.sessions.len(),
                hosts.len() == i,
                forall|j: int| 0 <= j < i ==> hosts[j]@ == self.sessions[j].host@,
            decreases self.sessions.len() - i,
        {
            hosts.push(self.sessions[i].host.clone());
            i += 1;
        }
        assert(names(hosts@) =~= self@.registry);
        hosts
    }

    /// The action of a connect cycle at a position of the host list: dial the
    /// host there, or finish when the list is exhausted. A cycle starts at
    /// position 0.
    pub fn connect_plan(&self, position: usize) -> (action: ConnectAction)
        ensures
            planned(self@.config.hosts, position as int, action),
    {
        if position < self.config.hosts.len() {
            ConnectAction::Dial(position, self.config.hosts[position].clone())
        } else {
            ConnectAction::Finished
        }
    }

    /// One step of a connect cycle: takes the session that the driver dialed
    /// for the host at `position`, or the text of the failure to dial it.
    ///
    /// A dialed session is taken through handshake and public-key
    /// authentication and is then registered under its host; the step answers
    /// with the action at the next position. Any failure, the driver's or the
    /// transport's, ends the cycle with a connection error that names the
    /// host; the registry then stays as it was, so sessions registered by
    /// earlier steps remain open. Past the end of the host list there is
    /// nothing to connect: the step answers `Finished`.
    pub fn connect(&mut self, position: usize, dialed: Result<Session, String>) -> (step: Result<
        ConnectAction,
        SshRemoteExecError,
    >)
        ensures
            final(self)@.config == old(self)@.config,
            position >= old(self)@.config.hosts.len() ==> step is Ok,
            position < old(self)@.config.hosts.len() && dialed is Err ==> step is Err,
            match step {
                Ok(action) => {
                    &&& planned(old(self)@.config.hosts, position + 1, action)
                    &&& final(self)@.registry == registry_step(
                        old(self)@.registry,
                        old(self)@.config.hosts,
                        position as int,
                    )
                },
                Err(error) => {
                    &&& position < old(self)@.config.hosts.len()
                    &&& final(self)@.registry == old(self)@.registry
                    &&& error is RemoteConnection
                    &&& match dialed {
                        Ok(_) => exists|cause: Seq<char>|
                            error.detail() == host_scoped(
                                old(self)@.config.hosts[position as int],
                                cause,
                            ),
                        Err(cause) => error.detail() == host_scoped(
                            old(self)@.config.hosts[position as int],
                            cause@,
                        ),
                    }
                },
            },
    {
        if position >= self.config.hosts.len() {
            return Ok(ConnectAction::Finished);
        }
        let host = self.config.hosts[position].clone();
        assert(host@ == self@.config.hosts[position as int]);
        let mut session = match dialed {
            Ok(session) => session,
            Err(cause) => {
                return Err(connection_error(host.as_str(), cause.as_str()));
            },
        };
        match establish(
            &mut session,
            self.config.username.as_str(),
            self.config.public_key.as_str(),
            self.config.private_key.as_str(),
        ) {
            Ok(_) => {},
            Err(e) => {
                return Err(connection_failure(host.as_str(), &e));
            },
        }
        self.sessions.push(SshSessionIdentifier::new(host, session));
        assert(self@.registry =~= old(self)@.registry.push(old(self)@.config.hosts[position as int]));
        Ok(self.next_action(position))
    }

    /// The action that follows a step at `position`.
    fn next_action(&self, position: usize) -> (action: ConnectAction)
        requires
            position < self@.config.hosts.len(),
        ensures
            planned(self@.config.hosts, position + 1, action),
    {
        assert(self@.config.hosts.len() == self.config.hosts.len());
        if position + 1 < self.config.hosts.len() {
            ConnectAction::Dial(position + 1, self.config.hosts[position + 1].clone())
        } else {
            ConnectAction::Finished
        }
    }

    /// The text that is executed for a requested command: the command
    /// rewritten for privilege elevation with the configured password.
    pub fn command_text(&self, command: &str) -> (literal: String)
        ensures
            literal@ == rewritten(command@, self@.config.password),
    {
        rewrite(command, self.config.password.as_str())
    }

    /// Disconnects every registered session, in registration order, and
    /// empties the registry.
    ///
    /// On an empty registry the call is refused. The first session that fails
    /// to disconnect ends the call with the text of its cause; the registry
    /// then stays as it was, with every handle still in it, also those whose
    /// sessions were disconnected before the failure.
    pub fn disconnect(&mut self) -> (outcome: Result<(), SshRemoteExecError>)
        ensures
            final(self)@.config == old(self)@.config,
            refused(old(self)@.registry) ==> outcome is Err,
            match outcome {
                Ok(_) => !refused(old(self)@.registry) && final(self)@.registry == cleared(),
                Err(error) => {
                    &&& final(self)@.registry == old(self)@.registry
                    &&& error is RemoteDisconnection
                    &&& refused(old(self)@.registry) ==> error.detail() == no_session()
                },
            },
    {
        if self.sessions.len() == 0 {
            return Err(
                SshRemoteExecError::RemoteDisconnection(
                    String::from_str("No existing session found"),
                ),
            );
        }
        let mut i: usize = 0;
        while i < self.sessions.len()
            invariant
                i <= self.sessions.len(),
                *self == *old(self),
            decreases self.sessions.len() - i,
        {
            match transport::disconnect(&self.sessions[i].session) {
                Ok(_) => {},
                Err(e) => {
                    return Err(SshRemoteExecError::RemoteDisconnection(transport::describe(&e)));
                },
            }
            i += 1;
        }
        self.sessions.clear();
        assert(self@.registry =~= cleared());
        Ok(())
    }

    /// Runs a command on every registered session, in registration order, and
    /// returns one result per session, in that order.
    ///
    /// The command is rewritten once, as `command_text` says, and that text
    /// is run on each session. On an empty registry the call is refused. The
    /// first session on which the transport fails ends the call with an error
    /// that names its host; results of earlier sessions are then dropped.
    pub fn execute_command(&self, command: String) -> (outcome: Result<
        Vec<SshCommandResult>,
        SshRemoteExecError,
    >)
        ensures
            refused(self@.registry) ==> outcome is Err,
            match outcome {
                Ok(results) => {
                    &&& !refused(self@.registry)
                    &&& results.len() == self@.registry.len()
                    &&& forall|i: int|
                        0 <= i < results.len() ==> (#[trigger] results[i])@.host
                            == self@.registry[i]
                },
                Err(error) => {
                    &&& error is RemoteCommandExecution
                    &&& refused(self@.registry) ==> error.detail() == no_session()
                    &&& !refused(self@.registry) ==> exists|k: int, cause: Seq<char>|
                        0 <= k < self@.registry.len() && error.detail() == host_scoped(
                            self@.registry[k],
                            cause,
                        )
                },
            },
    {
        if self.sessions.len() == 0 {
            return Err(
                SshRemoteExecError::RemoteCommandExecution(
                    String::from_str("No existing session found"),
                ),
            );
        }
        let literal = self.command_text(command.as_str());
        let mut results: Vec<SshCommandResult> = Vec::new();
        let mut i: usize = 0;
        while i < self.sessions.len()
            invariant
                i <= self.sessions.len(),
                results.len() == i,
                forall|j: int| 0 <= j < i ==> (#[trigger] results[j])@.host == self@.registry[j],
            decreases self.sessions.len() - i,
        {
            let outcome = run_channel(&self.sessions[i].session, literal.as_str());
            let host = self.sessions[i].host.clone();
            assert(host@ == self@.registry[i as int]);
            match SshCommandResult::from_outcome(host, outcome) {
                Ok(result) => {
                    results.push(result);
                },
                Err(error) => {
                    return Err(error);
                },
            }
            i += 1;
        }
        Ok(results)
    }
}

/// Takes a dialed session through handshake and public-key authentication,
/// in that order; the first failure is handed back.
pub(crate) fn establish(
    session: &mut Session,
    username: &str,
    public_key: &str,
    private_key: &str,
) -> (outcome: Result<(), Error>) {
    match transport::handshake(session) {
        Ok(_) => {},
        Err(e) => {
            return Err(e);
        },
    }
    transport::authenticate(session, username, public_key, private_key)
}

/// The connection error for a host and the text of a cause.
pub(crate) fn connection_error(host: &str, cause: &str) -> (error: SshRemoteExecError)
    ensures
        error is RemoteConnection,
        error.detail() == host_scoped(host@, cause@),
{
    SshRemoteExecError::RemoteConnection(scope_to_host(host, cause))
}

/// The connection error for a host and a failure of the transport.
pub(crate) fn connection_failure(host: &str, failure: &Error) -> (error: SshRemoteExecError)
    ensures
        error is RemoteConnection,
        exists|cause: Seq<char>| error.detail() == host_scoped(host@, cause),
{
    let cause = transport::describe(failure);
    connection_error(host, cause.as_str())
}

/// Runs the literal command text on one session: opens a channel, starts the
/// command, reads standard output and, as far as it can be read, standard
/// error, waits for the channel to close and reads the exit status. The
/// first step that fails ends the run with the text of its cause; only a
/// failure to read standard error is passed over.
fn run_channel(session: &Session, literal: &str) -> (outcome: Result<ChannelOutcome, String>) {
    let mut channel = match transport::open_channel(session) {
        Ok(channel) => channel,
        Err(e) => {
            return Err(transport::describe(&e));
        },
    };
    match transport::exec(&mut channel, literal) {
        Ok(_) => {},
        Err(e) => {
            return Err(transport::describe(&e));
        },
    }
    let stdout = match transport::read_stdout(&mut channel) {
        Ok(text) => text,
        Err(cause) => {
            return Err(cause);
        },
    };
    let mut stream = transport::stderr(&channel);
    let (stderr, _) = transport::read_stream(&mut stream);
    match transport::wait_close(&mut channel) {
        Ok(_) => {},
        Err(e) => {
            return Err(transport::describe(&e));
        },
    }
    match transport::exit_status(&channel) {
        Ok(exit_status) => Ok(ChannelOutcome { stdout, stderr, exit_status }),
        Err(e) => Err(transport::describe(&e)),
    }
}

/// A connect cycle in which every step succeeds registers the configured
/// hosts, one handle per host, in the order of the list: once the list is
/// exhausted the registry holds what it held before, followed by the whole
/// list, and on a registry that was empty exactly the list.
pub proof fn lemma_connect_registers_in_order(
    before: Seq<Seq<char>>,
    hosts: Seq<Seq<char>>,
    count: nat,
)
    requires
        count >= hosts.len(),
    ensures
        registry_after(before, hosts, count) == before + hosts,
        registry_after(before, hosts, count).len() == before.len() + hosts.len(),
        registry_after(Seq::empty(), hosts, count) == hosts,
    decreases count,
{
    if count == hosts.len() {
        lemma_registry_after_prefix(before, hosts, count);
        lemma_registry_after_prefix(Seq::empty(), hosts, count);
        assert(hosts.subrange(0, hosts.len() as int) =~= hosts);
    } else {
        lemma_connect_registers_in_order(before, hosts, (count - 1) as nat);
    }
    assert(Seq::<Seq<char>>::empty() + hosts =~= hosts);
}

/// After `count` successful steps within the host list the registry holds
/// what it held before, followed by the first `count` hosts of the list.
pub proof fn lemma_registry_after_prefix(
    before: Seq<Seq<char>>,
    hosts: Seq<Seq<char>>,
    count: nat,
)
    requires
        count <= hosts.len(),
    ensures
        registry_after(before, hosts, count) == before + hosts.subrange(0, count as int),
        registry_after(before, hosts, count).len() == before.len() + count,
    decreases count,
{
    if count == 0 {
        assert(before + hosts.subrange(0, 0) =~= before);
    } else {
        lemma_registry_after_prefix(before, hosts, (count - 1) as nat);
        assert((before + hosts.subrange(0, count - 1)).push(hosts[count - 1]) =~= before
            + hosts.subrange(0, count as int));
    }
}

/// A registry that a disconnect has cleared refuses the next disconnect and
/// the next command: disconnecting twice in a row fails the second time.
pub proof fn lemma_cleared_registry_refuses()
    ensures
        refused(cleared()),
{
}

} // verus!
