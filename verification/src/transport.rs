//! The secure transport, as far as the executor uses it.
//!
//! Everything here is taken on trust from the `ssh2` crate. What a call
//! returns depends on the remote host and the network, so no contract below
//! promises an outcome: callers are verified for whatever comes back.

use ssh2::Channel;
use ssh2::Error;
use ssh2::Session;
use ssh2::Stream;
use std::io::Read;
use std::path::Path;
use vstd::prelude::*;

verus! {

/// `ssh2::Session`: an opaque handle to one secure session.
#[verifier::external_type_specification]
#[verifier::external_body]
pub struct ExSession(ssh2::Session);

/// `ssh2::Channel`: an opaque handle to one command stream of a session.
#[verifier::external_type_specification]
#[verifier::external_body]
pub struct ExChannel(ssh2::Channel);

/// `ssh2::Stream`: an opaque handle to one stream of a channel.
#[verifier::external_type_specification]
#[verifier::external_body]
pub struct ExStream(ssh2::Stream);

/// `ssh2::Error`: an opaque failure of the transport.
#[verifier::external_type_specification]
#[verifier::external_body]
pub struct ExError(ssh2::Error);

/// `ssh2::Session::handshake`: negotiates the transport with the host that
/// the session's stream is connected to. Nothing is claimed of the outcome.
#[verifier::external_body]
pub(crate) fn handshake(session: &mut Session) -> (outcome: Result<(), Error>) {
    session.handshake()
}

/// `ssh2::Session::userauth_pubkey_file`: authenticates with a key pair read
/// from the two paths, with the public key given and without a passphrase.
/// Nothing is claimed of the outcome.
#[verifier::external_body]
pub(crate) fn authenticate(
    session: &Session,
    username: &str,
    public_key: &str,
    private_key: &str,
) -> (outcome: Result<(), Error>) {
    session.userauth_pubkey_file(username, Some(Path::new(public_key)), Path::new(private_key), None)
}

/// `ssh2::Session::disconnect`: sends the disconnect message, with the
/// default reason and an empty description. Nothing is claimed of the outcome.
#[verifier::external_body]
pub(crate) fn disconnect(session: &Session) -> (outcome: Result<(), Error>) {
    session.disconnect(None, "", None)
}

/// `ssh2::Session::channel_session`: opens a new command channel. Nothing is
/// claimed of the outcome.
#[verifier::external_body]
pub(crate) fn open_channel(session: &Session) -> (outcome: Result<Channel, Error>) {
    session.channel_session()
}

/// `ssh2::Channel::exec`: asks the remote side to run a command. Nothing is
/// claimed of the outcome.
#[verifier::external_body]
pub(crate) fn exec(channel: &mut Channel, command: &str) -> (outcome: Result<(), Error>) {
    channel.exec(command)
}

/// `Read::read_to_string` on an `ssh2::Channel`: reads the channel's standard
/// output to its end. The text read on success, the failure's text
/// otherwise; nothing is claimed of either.
#[verifier::external_body]
pub(crate) fn read_stdout(channel: &mut Channel) -> (outcome: Result<String, String>) {
    let mut text = String::new();
    match channel.read_to_string(&mut text) {
        Ok(_) => Ok(text),
        Err(e) => Err(e.to_string()),
    }
}

/// `ssh2::Channel::stderr`: a handle to the channel's standard error.
#[verifier::external_body]
pub(crate) fn stderr(channel: &Channel) -> (stream: Stream) {
    channel.stderr()
}

/// `Read::read_to_string` on an `ssh2::Stream`: reads the stream to its end.
/// The text that was read, and beside it the failure's text where the read
/// failed; nothing is claimed of either.
#[verifier::external_body]
pub(crate) fn read_stream(stream: &mut Stream) -> (read: (String, Option<String>)) {
    let mut text = String::new();
    match stream.read_to_string(&mut text) {
        Ok(_) => (text, None),
        Err(e) => (text, Some(e.to_string())),
    }
}

/// `ssh2::Channel::wait_close`: waits until the remote side has closed the
/// channel. Nothing is claimed of the outcome.
#[verifier::external_body]
pub(crate) fn wait_close(channel: &mut Channel) -> (outcome: Result<(), Error>) {
    channel.wait_close()
}

/// `ssh2::Channel::exit_status`: the exit status of the remote command.
/// Nothing is claimed of the outcome.
#[verifier::external_body]
pub(crate) fn exit_status(channel: &Channel) -> (outcome: Result<i32, Error>) {
    channel.exit_status()
}

/// The `Display` text of an `ssh2::Error`. Nothing is claimed of it.
#[verifier::external_body]
pub(crate) fn describe(error: &Error) -> (text: String) {
    error.to_string()
}

} // verus!
