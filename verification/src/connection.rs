//! What a connection is made from.

use crate::compression::Compression;
use crate::messages::{
    StdbConnectedMessage, StdbConnectionErrorMessage, StdbDisconnectedMessage,
};
use std::marker::PhantomData;
use std::sync::mpsc::Sender;
use std::sync::Arc;
use vstd::prelude::*;

verus! {

/// Starts the event loop of a connection.
///
/// An application implements this for the `DbConnection` type that was
/// generated for its module.
pub trait ConnectionRunner: Send + Sync + 'static {
    /// Starts processing the connection's messages, without waiting for the
    /// processing to end.
    fn start_event_loop(&self);
}

/// The types of one SpacetimeDB module's plugin. An application has one such
/// set of types for each module that it connects to.
pub trait StdbModule: Send + Sync + 'static {
    /// Stores the senders of the registered table messages.
    type MessageSenders: 'static;

    /// Stores the table registrations.
    type TableRegisters: 'static;

    /// Stores the procedure registrations.
    type ProcedureRegisters: 'static;
}

/// Where the application runs.
#[derive(Clone, Copy, Debug, PartialEq, Eq, Structural)]
pub enum Platform {
    /// As a native process, which can wait for a connection to be established.
    Native,
    /// In a browser, where a connection can only be awaited.
    Wasm32,
}

/// Who waits for a connection to be established.
#[derive(Clone, Copy, Debug, PartialEq, Eq, Structural)]
pub enum Waiting {
    /// The caller does.
    Caller,
    /// A task does, which is spawned for that and carries on from there; the
    /// caller returns at once.
    Task,
}

impl Platform {
    /// Who waits for a connection on this platform.
    pub open spec fn waiting_spec(self) -> Waiting {
        match self {
            Platform::Native => Waiting::Caller,
            Platform::Wasm32 => Waiting::Task,
        }
    }

    /// Who waits for a connection on this platform.
    pub fn waiting(self) -> (waiting: Waiting)
        ensures
            waiting == self.waiting_spec(),
            self == Platform::Native ==> waiting == Waiting::Caller,
            self == Platform::Wasm32 ==> waiting == Waiting::Task,
    {
        match self {
            Platform::Native => Waiting::Caller,
            Platform::Wasm32 => Waiting::Task,
        }
    }
}

/// The sending ends of the channels on which an application hears of its
/// connection.
pub struct LifecycleSenders {
    pub send_connected: Sender<StdbConnectedMessage>,
    pub send_disconnected: Sender<StdbDisconnectedMessage>,
    pub send_connect_error: Sender<StdbConnectionErrorMessage>,
}

/// Configuration for the delayed connection of the module `K`, kept from the
/// plugin's build until the token is there. Only a build makes one.
#[non_exhaustive]
pub struct StdbPluginConfig<K: StdbModule> {
    pub database_name: String,
    pub uri: String,
    pub compression: Compression,
    pub send_connected: Sender<StdbConnectedMessage>,
    pub send_disconnected: Sender<StdbDisconnectedMessage>,
    pub send_connect_error: Sender<StdbConnectionErrorMessage>,
    pub module: PhantomData<K>,
}

/// What a [`StdbPluginConfig`] holds, of whichever module it is.
pub struct ConfigView {
    pub database_name: Seq<char>,
    pub uri: Seq<char>,
    pub compression: Compression,
    pub send_connected: Sender<StdbConnectedMessage>,
    pub send_disconnected: Sender<StdbDisconnectedMessage>,
    pub send_connect_error: Sender<StdbConnectionErrorMessage>,
}

impl<K: StdbModule> View for StdbPluginConfig<K> {
    type V = ConfigView;

    open spec fn view(&self) -> ConfigView {
        ConfigView {
            database_name: self.database_name@,
            uri: self.uri@,
            compression: self.compression,
            send_connected: self.send_connected,
            send_disconnected: self.send_disconnected,
            send_connect_error: self.send_connect_error,
        }
    }
}

/// The registrations of a plugin whose connection is delayed, shared with that
/// plugin.
pub struct DelayedPluginData<K: StdbModule> {
    pub message_senders: Arc<K::MessageSenders>,
    pub table_registers: Arc<K::TableRegisters>,
}

/// Everything that is needed to open a connection.
pub struct ConnectionRequest {
    pub database_name: String,
    pub uri: String,
    /// Without one, the host makes up an anonymous identity.
    pub token: Option<String>,
    pub compression: Compression,
    /// Where the connection reports what becomes of it.
    pub senders: LifecycleSenders,
    pub waiting: Waiting,
}

/// What a [`ConnectionRequest`] says.
pub struct RequestView {
    pub database_name: Seq<char>,
    pub uri: Seq<char>,
    pub token: Option<Seq<char>>,
    pub compression: Compression,
    pub senders: LifecycleSenders,
    pub waiting: Waiting,
}

impl View for ConnectionRequest {
    type V = RequestView;

    open spec fn view(&self) -> RequestView {
        RequestView {
            database_name: self.database_name@,
            uri: self.uri@,
            token: match self.token {
                Some(token) => Some(token@),
                None => None,
            },
            compression: self.compression,
            senders: self.senders,
            waiting: self.waiting,
        }
    }
}

impl<K: StdbModule> StdbPluginConfig<K> {
    /// The request that a delayed connection makes once `token` is there.
    pub open spec fn request(self, token: Option<String>, platform: Platform) -> ConnectionRequest {
        ConnectionRequest {
            database_name: self.database_name,
            uri: self.uri,
            token,
            compression: self.compression,
            senders: LifecycleSenders {
                send_connected: self.send_connected,
                send_disconnected: self.send_disconnected,
                send_connect_error: self.send_connect_error,
            },
            waiting: platform.waiting_spec(),
        }
    }

    /// The request that a delayed connection makes once `token` is there.
    pub fn into_request(self, token: Option<String>, platform: Platform) -> (request:
        ConnectionRequest)
        ensures
            request == self.request(token, platform),
            request.database_name == self.database_name,
            request.uri == self.uri,
            request.token == token,
            request.compression == self.compression,
            request.senders.send_connected == self.send_connected,
            request.senders.send_disconnected == self.send_disconnected,
            request.senders.send_connect_error == self.send_connect_error,
            platform == Platform::Native ==> request.waiting == Waiting::Caller,
            platform == Platform::Wasm32 ==> request.waiting == Waiting::Task,
    {
        ConnectionRequest {
            database_name: self.database_name,
            uri: self.uri,
            token,
            compression: self.compression,
            senders: LifecycleSenders {
                send_connected: self.send_connected,
                send_disconnected: self.send_disconnected,
                send_connect_error: self.send_connect_error,
            },
            waiting: platform.waiting(),
        }
    }
}

} // verus!
