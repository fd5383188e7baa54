use bevy_spacetimedb::{
    Action, Compression, Event, Fault, Platform, Registry, Startup, StdbConnectedMessage,
    StdbConnectionErrorMessage, StdbDisconnectedMessage, StdbModule, StdbPlugin,
};
use std::sync::mpsc::{channel, Receiver};
use std::sync::{Arc, Mutex};

struct Game;

impl StdbModule for Game {
    type MessageSenders = Mutex<Vec<String>>;
    type TableRegisters = Mutex<Vec<u32>>;
    type ProcedureRegisters = Mutex<Vec<u32>>;
}

type GamePlugin = StdbPlugin<Game>;

struct Receivers {
    connect_error: Receiver<StdbConnectionErrorMessage>,
    connected: Receiver<StdbConnectedMessage>,
    disconnected: Receiver<StdbDisconnectedMessage>,
}

fn complete() -> GamePlugin {
    GamePlugin::default()
        .with_database_name("game")
        .with_uri("ws://localhost:3000")
}

fn go_on(startup: Startup<Game>, event: Event<Game>) -> (Startup<Game>, Action<Game>) {
    match startup.step(event) {
        Ok(next) => next,
        Err(_) => panic!("the event was not expected"),
    }
}

/// Adds the three channels, and gives the action that follows.
fn add_channels(
    first: (Startup<Game>, Action<Game>),
) -> (Startup<Game>, Action<Game>, Receivers) {
    let (send_connect_error, connect_error) = channel();
    let (send_connected, connected) = channel();
    let (send_disconnected, disconnected) = channel();
    let (startup, action) = first;
    assert!(matches!(action, Action::AddConnectErrorChannel));
    let (startup, action) = go_on(startup, Event::ConnectErrorChannelAdded(send_connect_error));
    assert!(matches!(action, Action::AddConnectedChannel));
    let (startup, action) = go_on(startup, Event::ConnectedChannelAdded(send_connected));
    assert!(matches!(action, Action::AddDisconnectedChannel));
    let (startup, action) = go_on(startup, Event::DisconnectedChannelAdded(send_disconnected));
    (startup, action, Receivers { connect_error, connected, disconnected })
}

fn check_launch(startup: Startup<Game>, count: usize) {
    let (mut startup, mut action) = go_on(startup, Event::TableRegistersLocked(count));
    for i in 0..count {
        assert!(matches!(action, Action::RunTableRegister(index) if index == i));
        (startup, action) = go_on(startup, Event::Done);
    }
    assert!(matches!(action, Action::UnlockTableRegisters));
    let (startup, action) = go_on(startup, Event::Done);
    assert!(matches!(action, Action::StartEventLoop));
    let (startup, action) = go_on(startup, Event::Done);
    assert!(matches!(action, Action::InsertConnection));
    let (startup, action) = go_on(startup, Event::Done);
    assert!(matches!(action, Action::Finish));
    assert!(matches!(startup, Startup::Finished));
}

#[test]
fn default_plugin_misses_uri_first() {
    let (startup, action) = GamePlugin::default().build(Platform::Native);
    assert!(matches!(action, Action::Abort(Fault::NoUri)));
    assert!(matches!(startup, Startup::Aborted));
}

#[test]
fn plugin_without_database_name_gives_up() {
    let plugin = GamePlugin::default().with_uri("ws://localhost:3000");
    let (_, action) = plugin.build(Platform::Wasm32);
    assert!(matches!(action, Action::Abort(Fault::NoDatabaseName)));
}

#[test]
fn plugin_without_uri_gives_up() {
    let plugin = GamePlugin::default().with_database_name("game");
    let (_, action) = plugin.build(Platform::Native);
    assert!(matches!(action, Action::Abort(Fault::NoUri)));
}

#[test]
fn fault_messages() {
    assert_eq!(
        Fault::NoUri.message(),
        "No uri set for StdbPlugin. Set it with the with_uri() function"
    );
    assert_eq!(
        Fault::NoDatabaseName.message(),
        "No database name set for StdbPlugin. Set it with the with_database_name() function"
    );
    assert_eq!(
        Fault::ConfigNotFound.message(),
        "StdbPluginConfig not found - did you call with_delayed_connect()?"
    );
    assert_eq!(Fault::DelayedDataNotFound.message(), "DelayedPluginData not found");
    assert_eq!(Fault::ConnectionFailed.message(), "Failed to build connection");
    assert_eq!(Fault::DelayedConnectionFailed.message(), "Failed to build delayed connection");
}

#[test]
fn immediate_build_connects_and_launches() {
    let plugin = complete().with_token(String::from("secret")).with_compression(Compression::Gzip);
    let (startup, action, receivers) = add_channels(plugin.build(Platform::Native));
    let request = match action {
        Action::Connect(request) => request,
        _ => panic!("no connection is asked for"),
    };
    assert_eq!(request.database_name, "game");
    assert_eq!(request.uri, "ws://localhost:3000");
    assert_eq!(request.token, Some(String::from("secret")));
    assert_eq!(request.compression, Compression::Gzip);
    assert_eq!(request.waiting, bevy_spacetimedb::Waiting::Caller);

    // Each sender feeds the channel that it was made for.
    request.senders.send_disconnected.send(StdbDisconnectedMessage { err: None }).unwrap();
    assert!(receivers.disconnected.recv().unwrap().err.is_none());
    let error = spacetimedb_sdk::Error::Disconnected;
    request.senders.send_connect_error.send(StdbConnectionErrorMessage { err: error }).unwrap();
    assert!(matches!(
        receivers.connect_error.recv().unwrap().err,
        spacetimedb_sdk::Error::Disconnected
    ));
    let message = StdbConnectedMessage {
        identity: spacetimedb_sdk::Identity::ONE,
        access_token: String::from("again"),
    };
    request.senders.send_connected.send(message).unwrap();
    assert_eq!(receivers.connected.recv().unwrap().access_token, "again");

    let (startup, action) = go_on(startup, Event::Connected);
    assert!(matches!(action, Action::LockTableRegisters(Registry::Plugin)));
    check_launch(startup, 3);
}

#[test]
fn launch_without_registrations() {
    let (startup, _, _) = add_channels(complete().build(Platform::Native));
    let (startup, _) = go_on(startup, Event::Connected);
    check_launch(startup, 0);
}

#[test]
fn launch_with_one_registration() {
    let (startup, _, _) = add_channels(complete().build(Platform::Native));
    let (startup, _) = go_on(startup, Event::Connected);
    check_launch(startup, 1);
}

#[test]
fn default_compression_is_that_of_the_sdk() {
    assert_eq!(spacetimedb_sdk::Compression::default(), spacetimedb_sdk::Compression::Brotli);
    assert_eq!(Compression::default(), Compression::Brotli);
    let (_, action, _) = add_channels(complete().build(Platform::Native));
    match action {
        Action::Connect(request) => {
            assert_eq!(request.compression, Compression::Brotli);
            assert_eq!(request.token, None);
        }
        _ => panic!("no connection is asked for"),
    }
}

#[test]
fn failed_connection_gives_up() {
    let (startup, _, _) = add_channels(complete().build(Platform::Native));
    let (startup, action) = go_on(startup, Event::ConnectFailed);
    assert!(matches!(action, Action::Abort(Fault::ConnectionFailed)));
    let ended = match startup.step(Event::Connected) {
        Err((startup, Event::Connected)) => startup,
        _ => panic!("a startup that is over went on"),
    };
    assert!(matches!(ended, Startup::Aborted));
}

#[test]
fn delayed_build_stores_and_finishes() {
    let plugin = complete().with_delayed_connect(true).with_token("unused");
    let (startup, action, _) = add_channels(plugin.build(Platform::Native));
    let config = match action {
        Action::StoreConfig(config) => config,
        _ => panic!("no configuration is stored"),
    };
    assert_eq!(config.database_name, "game");
    assert_eq!(config.uri, "ws://localhost:3000");
    assert_eq!(config.compression, Compression::Brotli);
    let (startup, action) = go_on(startup, Event::Done);
    let data = match action {
        Action::StoreDelayedData(data) => data,
        _ => panic!("no registrations are stored"),
    };
    assert!(Arc::ptr_eq(&data.message_senders, plugin.message_senders()));
    assert!(Arc::ptr_eq(&data.table_registers, plugin.table_registers()));
    let (startup, action) = go_on(startup, Event::Done);
    assert!(matches!(action, Action::Finish));
    assert!(matches!(startup, Startup::Finished));
}

#[test]
fn browser_build_is_always_delayed() {
    let plugin = complete().with_delayed_connect(false);
    let (_, action, _) = add_channels(plugin.build(Platform::Wasm32));
    assert!(matches!(action, Action::StoreConfig(_)));
}

#[test]
fn delayed_mode_can_be_switched_off_again() {
    let plugin = complete().with_delayed_connect(true).with_delayed_connect(false);
    let (_, action, _) = add_channels(plugin.build(Platform::Native));
    assert!(matches!(action, Action::Connect(_)));
}

/// Answers every action of a startup as it is carried out, and names what it handed out.
fn names_of_course(first: (Startup<Game>, Action<Game>), count: usize) -> Vec<&'static str> {
    let (mut startup, mut action) = first;
    let mut names = vec![];
    loop {
        let (name, event) = match action {
            Action::AddConnectErrorChannel => {
                ("channel", Event::ConnectErrorChannelAdded(channel().0))
            }
            Action::AddConnectedChannel => ("channel", Event::ConnectedChannelAdded(channel().0)),
            Action::AddDisconnectedChannel => {
                ("channel", Event::DisconnectedChannelAdded(channel().0))
            }
            Action::StoreConfig(_) => ("config", Event::Done),
            Action::ApplyRegistrations => ("apply", Event::Done),
            Action::StoreDelayedData(_) => ("data", Event::Done),
            Action::TakeDelayedData => ("take", Event::DelayedDataTaken(None)),
            Action::Connect(_) => ("connect", Event::Connected),
            Action::LockTableRegisters(_) => ("lock", Event::TableRegistersLocked(count)),
            Action::RunTableRegister(_) => ("run", Event::Done),
            Action::UnlockTableRegisters => ("unlock", Event::Done),
            Action::StartEventLoop => ("start", Event::Done),
            Action::InsertConnection => ("insert", Event::Done),
            Action::Finish => return names,
            Action::Abort(_) => return names,
        };
        names.push(name);
        (startup, action) = go_on(startup, event);
    }
}

#[test]
fn immediate_build_stores_nothing_and_connects_once() {
    let names = names_of_course(complete().build(Platform::Native), 2);
    assert_eq!(
        names,
        vec![
            "channel", "channel", "channel", "connect", "lock", "run", "run", "unlock", "start",
            "insert",
        ]
    );
}

#[test]
fn delayed_build_stores_and_does_not_connect() {
    let names = names_of_course(complete().build(Platform::Wasm32), 2);
    assert_eq!(names, vec!["channel", "channel", "channel", "config", "data"]);
}

#[test]
fn owned_and_borrowed_text_are_taken_as_they_are() {
    let plugin = GamePlugin::default()
        .with_database_name(String::from("game"))
        .with_uri(String::from("ws://localhost:3000"))
        .with_token("secret");
    let (_, action, _) = add_channels(plugin.build(Platform::Native));
    match action {
        Action::Connect(request) => {
            assert_eq!(request.database_name, "game");
            assert_eq!(request.uri, "ws://localhost:3000");
            assert_eq!(request.token, Some(String::from("secret")));
        }
        _ => panic!("no connection is asked for"),
    }
}

#[test]
fn settings_are_independent() {
    let plugin = GamePlugin::default()
        .with_delayed_connect(true)
        .with_compression(Compression::Uncompressed)
        .with_uri("ws://old")
        .with_token("first")
        .with_database_name("game")
        .with_uri("ws://localhost:3000")
        .with_token("second")
        .with_delayed_connect(false);
    let (_, action, _) = add_channels(plugin.build(Platform::Native));
    match action {
        Action::Connect(request) => {
            assert_eq!(request.database_name, "game");
            assert_eq!(request.uri, "ws://localhost:3000");
            assert_eq!(request.token, Some(String::from("second")));
            assert_eq!(request.compression, Compression::Uncompressed);
        }
        _ => panic!("no connection is asked for"),
    }
}

#[test]
fn unexpected_event_changes_nothing() {
    let (startup, _) = complete().build(Platform::Native);
    let startup = match startup.step(Event::Done) {
        Err((startup, Event::Done)) => startup,
        _ => panic!("the event answers nothing"),
    };
    assert!(matches!(startup, Startup::AddingConnectErrorChannel(_)));
}

#[test]
fn registrations_start_empty() {
    let plugin = GamePlugin::default();
    assert!(plugin.message_senders().lock().unwrap().is_empty());
    assert!(plugin.table_registers().lock().unwrap().is_empty());
    assert!(plugin.procedure_registers().lock().unwrap().is_empty());
}

#[test]
fn settings_keep_registrations() {
    let plugin = GamePlugin::default();
    plugin.table_registers().lock().unwrap().push(7);
    plugin.message_senders().lock().unwrap().push(String::from("players"));
    plugin.procedure_registers().lock().unwrap().push(9);
    let plugin = plugin
        .with_database_name("game")
        .with_uri("ws://localhost:3000")
        .with_token("secret")
        .with_compression(Compression::Gzip)
        .with_delayed_connect(true);
    assert_eq!(*plugin.table_registers().lock().unwrap(), vec![7]);
    assert_eq!(*plugin.message_senders().lock().unwrap(), vec![String::from("players")]);
    assert_eq!(*plugin.procedure_registers().lock().unwrap(), vec![9]);
}
