//! The messages that tell an application what became of its connection.

use spacetimedb_sdk::{Error, Identity};
use vstd::prelude::*;

verus! {

/// `spacetimedb_sdk::Identity`, carried through unread.
#[verifier::external_type_specification]
#[verifier::external_body]
pub struct ExIdentity(spacetimedb_sdk::Identity);

/// `spacetimedb_sdk::Error`, carried through unread.
#[verifier::external_type_specification]
#[verifier::external_body]
pub struct ExError(spacetimedb_sdk::Error);

/// `std::sync::mpsc::Sender`, carried through unread.
#[verifier::external_type_specification]
#[verifier::external_body]
#[verifier::reject_recursive_types(T)]
pub struct ExSender<T>(std::sync::mpsc::Sender<T>);

/// The host accepted the connection.
pub struct StdbConnectedMessage {
    /// The identity under which the host knows this client.
    pub identity: Identity,
    /// The token with which to claim that identity again.
    pub access_token: String,
}

/// The connection ended.
pub struct StdbDisconnectedMessage {
    /// Why it ended, unless it ended normally.
    pub err: Option<Error>,
}

/// The connection could not be established.
pub struct StdbConnectionErrorMessage {
    /// Why not.
    pub err: Error,
}

/// The message to send when the host has accepted the connection.
pub fn on_connect(identity: Identity, token: &str) -> (message: StdbConnectedMessage)
    ensures
        message.identity == identity,
        message.access_token@ == token@,
{
    StdbConnectedMessage { identity, access_token: String::from(token) }
}

/// The message to send when the connection has ended.
pub fn on_disconnect(err: Option<Error>) -> (message: StdbDisconnectedMessage)
    ensures
        message.err == err,
{
    StdbDisconnectedMessage { err }
}

/// The message to send when the connection could not be established.
pub fn on_connect_error(err: Error) -> (message: StdbConnectionErrorMessage)
    ensures
        message.err == err,
{
    StdbConnectionErrorMessage { err }
}

} // verus!
