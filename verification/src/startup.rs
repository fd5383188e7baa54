//! The course of a plugin's build and of a delayed connection.
//!
//! A [`Startup`] decides what happens next. It hands out one [`Action`] at a
//! time for the application to carry out, and goes on when it is told, by an
//! [`Event`], how that went.

use crate::compression::Compression;
use crate::connection::{
    ConnectionRequest, DelayedPluginData, LifecycleSenders, Platform, StdbModule,
    StdbPluginConfig, Waiting,
};
use crate::course::{course, delayed_connection, lemma_delayed_connection, open_answers};
use crate::messages::{
    StdbConnectedMessage, StdbConnectionErrorMessage, StdbDisconnectedMessage,
};
use crate::plugin::{FreshRegisters, StdbPlugin};
use std::marker::PhantomData;
use std::sync::mpsc::Sender;
use std::sync::Arc;
use vstd::prelude::*;

verus! {

/// Why a startup could not go on.
#[derive(Clone, Copy, Debug, PartialEq, Eq, Structural)]
pub enum Fault {
    /// The plugin was built without a URI.
    NoUri,
    /// The plugin was built without a database name.
    NoDatabaseName,
    /// A delayed connection found no configuration.
    ConfigNotFound,
    /// A delayed connection found no registrations.
    DelayedDataNotFound,
    /// The connection of a plugin's build could not be opened.
    ConnectionFailed,
    /// A delayed connection could not be opened.
    DelayedConnectionFailed,
}

impl Fault {
    /// What to tell the developer.
    pub open spec fn text(self) -> Seq<char> {
        match self {
            Fault::NoUri => "No uri set for StdbPlugin. Set it with the with_uri() function"@,
            Fault::NoDatabaseName =>
                "No database name set for StdbPlugin. Set it with the with_database_name() function"@,
            Fault::ConfigNotFound =>
                "StdbPluginConfig not found - did you call with_delayed_connect()?"@,
            Fault::DelayedDataNotFound => "DelayedPluginData not found"@,
            Fault::ConnectionFailed => "Failed to build connection"@,
            Fault::DelayedConnectionFailed => "Failed to build delayed connection"@,
        }
    }

    /// What to tell the developer.
    pub fn message(self) -> (message: &'static str)
        ensures
            message@ == self.text(),
    {
        match self {
            Fault::NoUri => "No uri set for StdbPlugin. Set it with the with_uri() function",
            Fault::NoDatabaseName =>
                "No database name set for StdbPlugin. Set it with the with_database_name() function",
            Fault::ConfigNotFound =>
                "StdbPluginConfig not found - did you call with_delayed_connect()?",
            Fault::DelayedDataNotFound => "DelayedPluginData not found",
            Fault::ConnectionFailed => "Failed to build connection",
            Fault::DelayedConnectionFailed => "Failed to build delayed connection",
        }
    }
}

/// When a plugin's build opens the connection.
pub enum Opening<K: StdbModule> {
    /// In the build itself, with this token.
    Immediate(Option<String>),
    /// Later. The registrations are kept until then.
    Delayed(DelayedPluginData<K>),
}

/// What a plugin's build is to do once the message channels are there.
pub struct BuildPlan<K: StdbModule> {
    pub database_name: String,
    pub uri: String,
    pub compression: Compression,
    pub opening: Opening<K>,
}

/// Whose table registrations a new connection gets.
pub enum Registry<K: StdbModule> {
    /// Those of the plugin that is being built.
    Plugin,
    /// Those that were kept for the delayed connection.
    Delayed(DelayedRegistry<K>),
}

/// The table registrations of a delayed connection.
pub struct DelayedRegistry<K: StdbModule> {
    /// The plugin that they are run with.
    pub plugin: StdbPlugin<K>,
    /// The registrations themselves, which are not those of that plugin.
    pub table_registers: Arc<K::TableRegisters>,
}

/// What the application is to do next.
pub enum Action<K: StdbModule> {
    /// Create the channel of connection errors and add it to the app.
    AddConnectErrorChannel,
    /// Create the channel of established connections and add it to the app.
    AddConnectedChannel,
    /// Create the channel of ended connections and add it to the app.
    AddDisconnectedChannel,
    /// Keep the configuration in the world, for the delayed connection.
    StoreConfig(StdbPluginConfig<K>),
    /// Apply the registrations of component and resource types that wait in the
    /// world.
    ApplyRegistrations,
    /// Keep the registrations in the world, for the delayed connection.
    StoreDelayedData(DelayedPluginData<K>),
    /// Remove the registrations from the world.
    TakeDelayedData,
    /// Open the connection.
    Connect(ConnectionRequest),
    /// Lock the table registrations and count them.
    LockTableRegisters(Registry<K>),
    /// Run the table registration with this index on the new connection, with the
    /// plugin that the registry names.
    RunTableRegister(usize),
    /// Unlock the table registrations.
    UnlockTableRegisters,
    /// Start the event loop of the connection.
    StartEventLoop,
    /// Put the connection into the world, for the systems of the app.
    InsertConnection,
    /// Nothing: all is done.
    Finish,
    /// Give up, for this reason.
    Abort(Fault),
}

/// How an action went.
pub enum Event<K: StdbModule> {
    /// The channel of connection errors is there, and this is its sending end.
    ConnectErrorChannelAdded(Sender<StdbConnectionErrorMessage>),
    /// The channel of established connections is there, and this is its sending end.
    ConnectedChannelAdded(Sender<StdbConnectedMessage>),
    /// The channel of ended connections is there, and this is its sending end.
    DisconnectedChannelAdded(Sender<StdbDisconnectedMessage>),
    /// The configuration is not kept yet, since registrations of component and
    /// resource types wait in the world and come before it.
    RegistrationsWait(StdbPluginConfig<K>),
    /// These are the registrations that were in the world, if any.
    DelayedDataTaken(Option<DelayedPluginData<K>>),
    /// The connection is open.
    Connected,
    /// The connection could not be opened.
    ConnectFailed,
    /// The table registrations are locked, and there are this many.
    TableRegistersLocked(usize),
    /// The action was carried out.
    Done,
}

/// A startup, by the action that it waits for, with what it needs from there
/// on.
pub enum Startup<K: StdbModule> {
    /// Waits for the channel of connection errors.
    AddingConnectErrorChannel(BuildPlan<K>),
    /// Waits for the channel of established connections.
    AddingConnectedChannel(BuildPlan<K>, Sender<StdbConnectionErrorMessage>),
    /// Waits for the channel of ended connections.
    AddingDisconnectedChannel(
        BuildPlan<K>,
        Sender<StdbConnectionErrorMessage>,
        Sender<StdbConnectedMessage>,
    ),
    /// Waits until the configuration is stored, with the registrations that
    /// come next.
    StoringConfig(DelayedPluginData<K>),
    /// Waits until the waiting registrations are applied, with the configuration
    /// that is then to be stored and the registrations that come next.
    ApplyingRegistrations(DelayedPluginData<K>, StdbPluginConfig<K>),
    /// Waits until the registrations are stored.
    StoringDelayedData,
    /// Waits for the registrations that were stored, with the token and the
    /// configuration of the connection, and with the registrations of the plugin
    /// that the stored ones are run with.
    TakingDelayedData(Platform, Option<String>, StdbPluginConfig<K>, FreshRegisters<K>),
    /// Waits for the connection, with the registrations that it gets.
    Connecting(Registry<K>),
    /// Waits until the table registrations are locked.
    LockingTableRegisters,
    /// Waits for one table registration: the first number is its index, the
    /// second counts them all.
    RunningTableRegister(usize, usize),
    /// Waits until the table registrations are unlocked.
    UnlockingTableRegisters,
    /// Waits until the event loop is started.
    StartingEventLoop,
    /// Waits until the connection is in the world.
    InsertingConnection,
    /// Has done all.
    Finished,
    /// Has given up.
    Aborted,
}

impl<K: StdbModule> BuildPlan<K> {
    /// The configuration that a delayed connection is later made from.
    pub open spec fn config(self, senders: LifecycleSenders) -> StdbPluginConfig<K> {
        StdbPluginConfig {
            database_name: self.database_name,
            uri: self.uri,
            compression: self.compression,
            send_connected: senders.send_connected,
            send_disconnected: senders.send_disconnected,
            send_connect_error: senders.send_connect_error,
            module: PhantomData,
        }
    }

    /// The request for a connection that is opened during the build.
    pub open spec fn request(
        self,
        token: Option<String>,
        senders: LifecycleSenders,
    ) -> ConnectionRequest {
        ConnectionRequest {
            database_name: self.database_name,
            uri: self.uri,
            token,
            compression: self.compression,
            senders,
            waiting: Waiting::Caller,
        }
    }

    /// How a build goes on once the message channels are there: a delayed
    /// connection has its configuration stored, any other is opened.
    pub open spec fn after_channels(self, senders: LifecycleSenders) -> (
        Startup<K>,
        Action<K>,
    ) {
        match self.opening {
            Opening::Immediate(token) => (
                Startup::Connecting(Registry::Plugin),
                Action::Connect(self.request(token, senders)),
            ),
            Opening::Delayed(data) => (
                Startup::StoringConfig(data),
                Action::StoreConfig(self.config(senders)),
            ),
        }
    }

    fn go_on(self, senders: LifecycleSenders) -> (next: (Startup<K>, Action<K>))
        ensures
            next == self.after_channels(senders),
    {
        match self.opening {
            Opening::Immediate(token) => {
                let request = ConnectionRequest {
                    database_name: self.database_name,
                    uri: self.uri,
                    token,
                    compression: self.compression,
                    senders,
                    waiting: Waiting::Caller,
                };
                (Startup::Connecting(Registry::Plugin), Action::Connect(request))
            },
            Opening::Delayed(data) => {
                let config = StdbPluginConfig {
                    database_name: self.database_name,
                    uri: self.uri,
                    compression: self.compression,
                    send_connected: senders.send_connected,
                    send_disconnected: senders.send_disconnected,
                    send_connect_error: senders.send_connect_error,
                    module: PhantomData,
                };
                (Startup::StoringConfig(data), Action::StoreConfig(config))
            },
        }
    }
}

impl<K: StdbModule> DelayedPluginData<K> {
    /// The table registrations of a delayed connection that found this.
    pub open spec fn registry(self, fresh: FreshRegisters<K>) -> DelayedRegistry<K> {
        DelayedRegistry {
            plugin: StdbPlugin::bare(self.message_senders, fresh),
            table_registers: self.table_registers,
        }
    }

    fn into_registry(self, fresh: FreshRegisters<K>) -> (registry: DelayedRegistry<K>)
        ensures
            registry == self.registry(fresh),
    {
        DelayedRegistry {
            plugin: StdbPlugin::for_delayed(self.message_senders, fresh),
            table_registers: self.table_registers,
        }
    }
}

impl<K: StdbModule> Registry<K> {
    /// The fault of a connection with these registrations that could not be
    /// opened.
    pub open spec fn fault(self) -> Fault {
        match self {
            Registry::Plugin => Fault::ConnectionFailed,
            Registry::Delayed(_) => Fault::DelayedConnectionFailed,
        }
    }
}

/// How a startup goes on once the table registrations before the one with
/// index `next`, of `count` in all, have run.
pub open spec fn after_registers<K: StdbModule>(next: int, count: usize) -> (Startup<K>, Action<K>) {
    if next < count {
        (
            Startup::RunningTableRegister(next as usize, count),
            Action::RunTableRegister(next as usize),
        )
    } else {
        (Startup::UnlockingTableRegisters, Action::UnlockTableRegisters)
    }
}

impl<K: StdbModule> Startup<K> {
    /// The next state and the next action, or `None` where `event` does not
    /// answer the action that this state waits for.
    pub open spec fn next(self, event: Event<K>) -> Option<(Startup<K>, Action<K>)> {
        match (self, event) {
            (
                Startup::AddingConnectErrorChannel(plan),
                Event::ConnectErrorChannelAdded(send_connect_error),
            ) => Some(
                (
                    Startup::AddingConnectedChannel(plan, send_connect_error),
                    Action::AddConnectedChannel,
                ),
            ),
            (
                Startup::AddingConnectedChannel(plan, send_connect_error),
                Event::ConnectedChannelAdded(send_connected),
            ) => Some(
                (
                    Startup::AddingDisconnectedChannel(plan, send_connect_error, send_connected),
                    Action::AddDisconnectedChannel,
                ),
            ),
            (
                Startup::AddingDisconnectedChannel(plan, send_connect_error, send_connected),
                Event::DisconnectedChannelAdded(send_disconnected),
            ) => Some(
                plan.after_channels(
                    LifecycleSenders { send_connected, send_disconnected, send_connect_error },
                ),
            ),
            (Startup::StoringConfig(data), Event::Done) => Some(
                (Startup::StoringDelayedData, Action::StoreDelayedData(data)),
            ),
            (Startup::StoringConfig(data), Event::RegistrationsWait(config)) => Some(
                (Startup::ApplyingRegistrations(data, config), Action::ApplyRegistrations),
            ),
            (Startup::ApplyingRegistrations(data, config), Event::Done) => Some(
                (Startup::StoringConfig(data), Action::StoreConfig(config)),
            ),
            (Startup::StoringDelayedData, Event::Done) => Some((Startup::Finished, Action::Finish)),
            (
                Startup::TakingDelayedData(platform, token, config, fresh),
                Event::DelayedDataTaken(found),
            ) => Some(
                match found {
                    Some(data) => (
                        Startup::Connecting(Registry::Delayed(data.registry(fresh))),
                        Action::Connect(config.request(token, platform)),
                    ),
                    None => (Startup::Aborted, Action::Abort(Fault::DelayedDataNotFound)),
                },
            ),
            (Startup::Connecting(registry), Event::Connected) => Some(
                (Startup::LockingTableRegisters, Action::LockTableRegisters(registry)),
            ),
            (Startup::Connecting(registry), Event::ConnectFailed) => Some(
                (Startup::Aborted, Action::Abort(registry.fault())),
            ),
            (Startup::LockingTableRegisters, Event::TableRegistersLocked(count)) => Some(
                after_registers(0, count),
            ),
            (Startup::RunningTableRegister(index, count), Event::Done) => Some(
                after_registers(index + 1, count),
            ),
            (Startup::UnlockingTableRegisters, Event::Done) => Some(
                (Startup::StartingEventLoop, Action::StartEventLoop),
            ),
            (Startup::StartingEventLoop, Event::Done) => Some(
                (Startup::InsertingConnection, Action::InsertConnection),
            ),
            (Startup::InsertingConnection, Event::Done) => Some((Startup::Finished, Action::Finish)),
            _ => None,
        }
    }

    /// Goes on after `event`, or hands state and event back where the event does
    /// not answer the action that this state waits for.
    pub fn step(self, event: Event<K>) -> (result: Result<
        (Startup<K>, Action<K>),
        (Startup<K>, Event<K>),
    >)
        ensures
            match self.next(event) {
                Some(next) => result == Ok::<_, (Startup<K>, Event<K>)>(next),
                None => result == Err::<(Startup<K>, Action<K>), _>((self, event)),
            },
    {
        match (self, event) {
            (
                Startup::AddingConnectErrorChannel(plan),
                Event::ConnectErrorChannelAdded(send_connect_error),
            ) => Ok(
                (
                    Startup::AddingConnectedChannel(plan, send_connect_error),
                    Action::AddConnectedChannel,
                ),
            ),
            (
                Startup::AddingConnectedChannel(plan, send_connect_error),
                Event::ConnectedChannelAdded(send_connected),
            ) => Ok(
                (
                    Startup::AddingDisconnectedChannel(plan, send_connect_error, send_connected),
                    Action::AddDisconnectedChannel,
                ),
            ),
            (
                Startup::AddingDisconnectedChannel(plan, send_connect_error, send_connected),
                Event::DisconnectedChannelAdded(send_disconnected),
            ) => {
                let senders = LifecycleSenders {
                    send_connected,
                    send_disconnected,
                    send_connect_error,
                };
                Ok(plan.go_on(senders))
            },
            (Startup::StoringConfig(data), Event::Done) => Ok(
                (Startup::StoringDelayedData, Action::StoreDelayedData(data)),
            ),
            (Startup::StoringConfig(data), Event::RegistrationsWait(config)) => Ok(
                (Startup::ApplyingRegistrations(data, config), Action::ApplyRegistrations),
            ),
            (Startup::ApplyingRegistrations(data, config), Event::Done) => Ok(
                (Startup::StoringConfig(data), Action::StoreConfig(config)),
            ),
            (Startup::StoringDelayedData, Event::Done) => Ok((Startup::Finished, Action::Finish)),
            (
                Startup::TakingDelayedData(platform, token, config, fresh),
                Event::DelayedDataTaken(found),
            ) => match found {
                Some(data) => Ok(
                    (
                        Startup::Connecting(Registry::Delayed(data.into_registry(fresh))),
                        Action::Connect(config.into_request(token, platform)),
                    ),
                ),
                None => Ok((Startup::Aborted, Action::Abort(Fault::DelayedDataNotFound))),
            },
            (Startup::Connecting(registry), Event::Connected) => Ok(
                (Startup::LockingTableRegisters, Action::LockTableRegisters(registry)),
            ),
            (Startup::Connecting(registry), Event::ConnectFailed) => {
                let fault = match registry {
                    Registry::Plugin => Fault::ConnectionFailed,
                    Registry::Delayed(_) => Fault::DelayedConnectionFailed,
                };
                Ok((Startup::Aborted, Action::Abort(fault)))
            },
            (Startup::LockingTableRegisters, Event::TableRegistersLocked(count)) => if count > 0 {
                Ok((Startup::RunningTableRegister(0, count), Action::RunTableRegister(0)))
            } else {
                Ok((Startup::UnlockingTableRegisters, Action::UnlockTableRegisters))
            },
            (Startup::RunningTableRegister(index, count), Event::Done) => if index < count
                && count - index > 1 {
                Ok(
                    (
                        Startup::RunningTableRegister(index + 1, count),
                        Action::RunTableRegister(index + 1),
                    ),
                )
            } else {
                Ok((Startup::UnlockingTableRegisters, Action::UnlockTableRegisters))
            },
            (Startup::UnlockingTableRegisters, Event::Done) => Ok(
                (Startup::StartingEventLoop, Action::StartEventLoop),
            ),
            (Startup::StartingEventLoop, Event::Done) => Ok(
                (Startup::InsertingConnection, Action::InsertConnection),
            ),
            (Startup::InsertingConnection, Event::Done) => Ok((Startup::Finished, Action::Finish)),
            (startup, event) => Err((startup, event)),
        }
    }
}

/// How a delayed connection with `token` starts, given the configuration that
/// it found and the registrations of the plugin that it uses.
pub open spec fn delayed_start<K: StdbModule>(
    platform: Platform,
    token: Option<String>,
    found: Option<StdbPluginConfig<K>>,
    fresh: FreshRegisters<K>,
) -> (Startup<K>, Action<K>) {
    match found {
        Some(config) => (
            Startup::TakingDelayedData(platform, token, config, fresh),
            Action::TakeDelayedData,
        ),
        None => (Startup::Aborted, Action::Abort(Fault::ConfigNotFound)),
    }
}

/// Starts a delayed connection with `token`, given the configuration that it
/// found.
pub fn start_delayed<K: StdbModule>(
    platform: Platform,
    token: Option<String>,
    found: Option<StdbPluginConfig<K>>,
) -> (first: (Startup<K>, Action<K>)) where
    K::TableRegisters: Default,
    K::ProcedureRegisters: Default,

    ensures
        exists|fresh: FreshRegisters<K>|
            fresh.are_default() && first == #[trigger] delayed_start(platform, token, found, fresh),
        match found {
            Some(config) => {
                &&& first.1 is TakeDelayedData
                &&& first.0 matches Startup::TakingDelayedData(for_platform, with_token, kept, fresh)
                &&& for_platform == platform
                &&& with_token == token
                &&& kept == config
                &&& call_ensures(K::TableRegisters::default, (), *fresh.table_registers)
                &&& call_ensures(K::ProcedureRegisters::default, (), *fresh.procedure_registers)
            },
            None => first.0 is Aborted && first.1 == Action::<K>::Abort(Fault::ConfigNotFound),
        },
        first.0 matches Startup::TakingDelayedData(_, _, config, fresh) ==> forall|
            data: DelayedPluginData<K>,
            count: usize,
        |
            #![trigger delayed_connection(config, data, fresh, platform, token, count)]
            course(
                first,
                seq![Event::DelayedDataTaken(Some(data))] + open_answers(count),
            ) == delayed_connection(config, data, fresh, platform, token, count),
{
    let fresh = FreshRegisters::new();
    proof {
        if found is Some {
            let config = found->0;
            assert forall|data: DelayedPluginData<K>, count: usize|
                #![trigger delayed_connection(config, data, fresh, platform, token, count)]
                course(
                    delayed_start(platform, token, found, fresh),
                    seq![Event::DelayedDataTaken(Some(data))] + open_answers(count),
                ) == delayed_connection(config, data, fresh, platform, token, count) by {
                lemma_delayed_connection(config, data, fresh, platform, token, count);
            }
        }
    }
    let first = match found {
        Some(config) => (
            Startup::TakingDelayedData(platform, token, config, fresh),
            Action::TakeDelayedData,
        ),
        None => (Startup::Aborted, Action::Abort(Fault::ConfigNotFound)),
    };
    assert(first == delayed_start(platform, token, found, fresh));
    first
}

} // verus!
