use bevy::prelude::World;
use bevy_spacetimedb::{
    connect_with_token, keep_config, module_id, on_connect, on_connect_error, on_disconnect, start_delayed,
    Action, Compression, DelayedPluginData, Event, Fault, FreshRegisters, Platform, Registry, Startup, StdbModule,
    StdbPlugin, StdbPluginConfig, Waiting,
};
use std::any::TypeId;
use std::sync::mpsc::channel;
use std::sync::{Arc, Mutex};

struct Game;

impl StdbModule for Game {
    type MessageSenders = Mutex<Vec<String>>;
    type TableRegisters = Mutex<Vec<u32>>;
    type ProcedureRegisters = Mutex<Vec<u32>>;
}

struct Lobby;

impl StdbModule for Lobby {
    type MessageSenders = ();
    type TableRegisters = ();
    type ProcedureRegisters = ();
}

/// The configuration that a delayed build of a plugin for `name` stores.
fn config<K>(name: &str) -> StdbPluginConfig<K>
where
    K: StdbModule,
    K::MessageSenders: Default,
    K::TableRegisters: Default,
    K::ProcedureRegisters: Default,
{
    let plugin = StdbPlugin::<K>::default()
        .with_database_name(name)
        .with_uri("ws://localhost:3000")
        .with_compression(Compression::Gzip)
        .with_delayed_connect(true);
    match add_channels(plugin.build(Platform::Native)).1 {
        Action::StoreConfig(config) => config,
        _ => panic!("no configuration is stored"),
    }
}

fn data() -> DelayedPluginData<Game> {
    DelayedPluginData {
        message_senders: Arc::new(Mutex::new(vec![String::from("players")])),
        table_registers: Arc::new(Mutex::new(vec![1, 2])),
    }
}

fn go_on<K: StdbModule>(startup: Startup<K>, event: Event<K>) -> (Startup<K>, Action<K>) {
    match startup.step(event) {
        Ok(next) => next,
        Err(_) => panic!("the event was not expected"),
    }
}

/// Keeps a configuration in a world that takes it.
fn keep<K: StdbModule>(world: &mut World, config: StdbPluginConfig<K>) -> Event<K> {
    match keep_config(world, config) {
        Ok(event) => {
            assert!(matches!(event, Event::Done));
            event
        }
        Err(_) => panic!("the configuration was handed back"),
    }
}

#[test]
fn connect_without_delayed_build_gives_up() {
    let mut world = World::new();
    let (startup, action) = connect_with_token::<Game>(&mut world, Platform::Native, None);
    assert!(matches!(action, Action::Abort(Fault::ConfigNotFound)));
    assert!(matches!(startup, Startup::Aborted));
}

#[test]
fn kept_config_is_taken_once() {
    let mut world = World::new();
    keep(&mut world, config::<Game>("game"));
    assert!(world.contains_resource::<StdbPluginConfig<Game>>());
    let token = Some(String::from("secret"));
    let (startup, action) = connect_with_token::<Game>(&mut world, Platform::Native, token);
    assert!(matches!(action, Action::TakeDelayedData));
    assert!(!world.contains_resource::<StdbPluginConfig<Game>>());
    match startup {
        Startup::TakingDelayedData(platform, token, config, _) => {
            assert_eq!(platform, Platform::Native);
            assert_eq!(token, Some(String::from("secret")));
            assert_eq!(config.database_name, "game");
        }
        _ => panic!("the registrations are not looked for"),
    }
    let (_, action) = connect_with_token::<Game>(&mut world, Platform::Native, None);
    assert!(matches!(action, Action::Abort(Fault::ConfigNotFound)));
}

#[test]
fn config_of_the_same_module_is_replaced() {
    let mut world = World::new();
    keep(&mut world, config::<Game>("old"));
    keep(&mut world, config::<Game>("new"));
    let (startup, _) = connect_with_token::<Game>(&mut world, Platform::Native, None);
    match startup {
        Startup::TakingDelayedData(_, _, config, _) => assert_eq!(config.database_name, "new"),
        _ => panic!("the registrations are not looked for"),
    }
    let (_, action) = connect_with_token::<Game>(&mut world, Platform::Native, None);
    assert!(matches!(action, Action::Abort(Fault::ConfigNotFound)));
}

#[test]
fn config_is_handed_back_where_it_is_a_non_send_resource() {
    let mut world = World::new();
    world.insert_non_send_resource(config::<Game>("old"));
    match keep_config(&mut world, config::<Game>("new")) {
        Err(config) => assert_eq!(config.database_name, "new"),
        Ok(_) => panic!("the configuration was kept"),
    }
    let old = world.get_non_send_resource::<StdbPluginConfig<Game>>().unwrap();
    assert_eq!(old.database_name, "old");
    // Another module's configuration is not concerned.
    keep(&mut world, config::<Lobby>("lobby"));
    assert!(world.contains_resource::<StdbPluginConfig<Lobby>>());
}

#[test]
fn waiting_registrations_are_applied_before_the_config_is_kept() {
    let plugin = StdbPlugin::<Game>::default()
        .with_database_name("game")
        .with_uri("ws://localhost:3000")
        .with_delayed_connect(true);
    let mut world = World::new();
    world.components_queue().queue_register_resource::<StdbPluginConfig<Lobby>>();
    let (startup, action) = add_channels(plugin.build(Platform::Native));
    let event = match action {
        Action::StoreConfig(config) => keep_config(&mut world, config).ok().unwrap(),
        _ => panic!("no configuration is stored"),
    };
    assert!(matches!(&event, Event::RegistrationsWait(config) if config.database_name == "game"));
    assert!(!world.contains_resource::<StdbPluginConfig<Game>>());

    let (startup, action) = go_on(startup, event);
    assert!(matches!(action, Action::ApplyRegistrations));
    assert!(matches!(startup, Startup::ApplyingRegistrations(_, _)));
    world.components_registrator().apply_queued_registrations();

    let (startup, action) = go_on(startup, Event::Done);
    let event = match action {
        Action::StoreConfig(config) => {
            assert_eq!(config.database_name, "game");
            keep(&mut world, config)
        }
        _ => panic!("the configuration is not stored again"),
    };
    assert!(world.contains_resource::<StdbPluginConfig<Game>>());
    let (startup, action) = go_on(startup, event);
    assert!(matches!(action, Action::StoreDelayedData(_)));
    let (_, action) = go_on(startup, Event::Done);
    assert!(matches!(action, Action::Finish));
}

#[test]
fn waiting_registration_can_make_the_config_non_send() {
    let mut world = World::new();
    world.components_queue().queue_register_non_send::<StdbPluginConfig<Game>>();
    let config = match keep_config(&mut world, config::<Game>("game")) {
        Ok(Event::RegistrationsWait(config)) => config,
        _ => panic!("the registration is not heeded"),
    };
    world.components_registrator().apply_queued_registrations();
    match keep_config(&mut world, config) {
        Err(config) => assert_eq!(config.database_name, "game"),
        Ok(_) => panic!("the configuration was kept"),
    }
}

#[test]
fn config_can_be_kept_again_after_it_was_taken() {
    let mut world = World::new();
    keep(&mut world, config::<Game>("first"));
    connect_with_token::<Game>(&mut world, Platform::Native, None);
    keep(&mut world, config::<Game>("second"));
    let (startup, _) = connect_with_token::<Game>(&mut world, Platform::Native, None);
    match startup {
        Startup::TakingDelayedData(_, _, config, _) => assert_eq!(config.database_name, "second"),
        _ => panic!("the registrations are not looked for"),
    }
}

#[test]
fn equal_configs_make_equal_requests() {
    let one = config::<Game>("game").into_request(None, Platform::Wasm32);
    let other = config::<Game>("game").into_request(None, Platform::Wasm32);
    assert_eq!(one.database_name, "game");
    assert_eq!(one.database_name, other.database_name);
    assert_eq!(one.uri, other.uri);
    assert_eq!(one.token, other.token);
    assert_eq!(one.compression, other.compression);
    assert_eq!(one.waiting, other.waiting);
}

#[test]
fn modules_do_not_disturb_each_other() {
    let mut world = World::new();
    keep(&mut world, config::<Game>("game"));
    keep(&mut world, config::<Lobby>("lobby"));
    let (startup, _) = connect_with_token::<Lobby>(&mut world, Platform::Native, None);
    match startup {
        Startup::TakingDelayedData(_, _, config, _) => assert_eq!(config.database_name, "lobby"),
        _ => panic!("the registrations are not looked for"),
    }
    assert!(world.contains_resource::<StdbPluginConfig<Game>>());
    assert_eq!(module_id::<Game>(), TypeId::of::<Game>());
    assert_ne!(module_id::<Game>(), module_id::<Lobby>());
}

#[test]
fn missing_registrations_give_up() {
    let found = Some(config::<Game>("game"));
    let (startup, _) = start_delayed(Platform::Native, None, found);
    let (_, action) = go_on(startup, Event::DelayedDataTaken(None));
    assert!(matches!(action, Action::Abort(Fault::DelayedDataNotFound)));
}

#[test]
fn delayed_connection_uses_what_was_kept() {
    let kept = data();
    let senders = Arc::clone(&kept.message_senders);
    let registers = Arc::clone(&kept.table_registers);
    let token = Some(String::from("secret"));
    let (startup, action) = start_delayed(Platform::Native, token, Some(config::<Game>("game")));
    assert!(matches!(action, Action::TakeDelayedData));
    let (startup, action) = go_on(startup, Event::DelayedDataTaken(Some(kept)));
    match action {
        Action::Connect(request) => {
            assert_eq!(request.database_name, "game");
            assert_eq!(request.uri, "ws://localhost:3000");
            assert_eq!(request.token, Some(String::from("secret")));
            assert_eq!(request.compression, Compression::Gzip);
            assert_eq!(request.waiting, Waiting::Caller);
        }
        _ => panic!("no connection is asked for"),
    }
    let (startup, action) = go_on(startup, Event::Connected);
    match action {
        Action::LockTableRegisters(Registry::Delayed(registry)) => {
            assert!(Arc::ptr_eq(&registry.table_registers, &registers));
            let plugin = registry.plugin;
            assert!(Arc::ptr_eq(plugin.message_senders(), &senders));
            assert!(!Arc::ptr_eq(plugin.table_registers(), &registers));
            assert!(plugin.table_registers().lock().unwrap().is_empty());
            assert!(plugin.procedure_registers().lock().unwrap().is_empty());
        }
        _ => panic!("the registrations are not locked"),
    }
    let (startup, action) = go_on(startup, Event::TableRegistersLocked(2));
    assert!(matches!(action, Action::RunTableRegister(0)));
    let (startup, action) = go_on(startup, Event::Done);
    assert!(matches!(action, Action::RunTableRegister(1)));
    let (startup, action) = go_on(startup, Event::Done);
    assert!(matches!(action, Action::UnlockTableRegisters));
    let (startup, action) = go_on(startup, Event::Done);
    assert!(matches!(action, Action::StartEventLoop));
    let (startup, action) = go_on(startup, Event::Done);
    assert!(matches!(action, Action::InsertConnection));
    let (_, action) = go_on(startup, Event::Done);
    assert!(matches!(action, Action::Finish));
}

/// Adds the three channels, and gives the action that follows.
fn add_channels<K: StdbModule>(first: (Startup<K>, Action<K>)) -> (Startup<K>, Action<K>) {
    let (startup, _) = first;
    let (startup, _) = go_on(startup, Event::ConnectErrorChannelAdded(channel().0));
    let (startup, _) = go_on(startup, Event::ConnectedChannelAdded(channel().0));
    go_on(startup, Event::DisconnectedChannelAdded(channel().0))
}

#[test]
fn delayed_connection_makes_up_for_build() {
    let plugin = StdbPlugin::<Game>::default()
        .with_database_name("game")
        .with_uri("ws://localhost:3000")
        .with_compression(Compression::Uncompressed)
        .with_token("late");
    let (_, action) = add_channels(plugin.build(Platform::Native));
    let wanted = match action {
        Action::Connect(request) => request,
        _ => panic!("no connection is asked for"),
    };

    let plugin = plugin.with_token("unused").with_delayed_connect(true);
    let mut world = World::new();
    let (startup, action) = add_channels(plugin.build(Platform::Native));
    let event = match action {
        Action::StoreConfig(config) => keep(&mut world, config),
        _ => panic!("no configuration is stored"),
    };
    let (_, action) = go_on(startup, event);
    let kept = match action {
        Action::StoreDelayedData(data) => data,
        _ => panic!("no registrations are stored"),
    };

    let token = Some(String::from("late"));
    let (startup, _) = connect_with_token::<Game>(&mut world, Platform::Native, token);
    let (_, action) = go_on(startup, Event::DelayedDataTaken(Some(kept)));
    match action {
        Action::Connect(request) => {
            assert_eq!(request.database_name, wanted.database_name);
            assert_eq!(request.uri, wanted.uri);
            assert_eq!(request.token, wanted.token);
            assert_eq!(request.compression, wanted.compression);
            assert_eq!(request.waiting, wanted.waiting);
        }
        _ => panic!("no connection is asked for"),
    }
}

#[test]
fn in_a_browser_a_task_waits() {
    assert_eq!(Platform::Wasm32.waiting(), Waiting::Task);
    assert_eq!(Platform::Native.waiting(), Waiting::Caller);
    let (startup, _) = start_delayed(Platform::Wasm32, None, Some(config::<Game>("game")));
    let (_, action) = go_on(startup, Event::DelayedDataTaken(Some(data())));
    assert!(matches!(action, Action::Connect(request) if request.waiting == Waiting::Task));
}

#[test]
fn failed_delayed_connection_gives_up() {
    let (startup, _) = start_delayed(Platform::Native, None, Some(config::<Game>("game")));
    let (startup, _) = go_on(startup, Event::DelayedDataTaken(Some(data())));
    let (startup, action) = go_on(startup, Event::ConnectFailed);
    assert!(matches!(action, Action::Abort(Fault::DelayedConnectionFailed)));
    assert!(matches!(startup, Startup::Aborted));
}

#[test]
fn delayed_registrations_get_a_bare_plugin() {
    let kept = data();
    let plugin = StdbPlugin::for_delayed(Arc::clone(&kept.message_senders), FreshRegisters::<Game>::new());
    assert!(Arc::ptr_eq(plugin.message_senders(), &kept.message_senders));
    assert!(!Arc::ptr_eq(plugin.table_registers(), &kept.table_registers));
    assert!(plugin.table_registers().lock().unwrap().is_empty());
    assert!(plugin.procedure_registers().lock().unwrap().is_empty());
    let (_, action) = plugin.build(Platform::Native);
    assert!(matches!(action, Action::Abort(Fault::NoUri)));
}

#[test]
fn messages_say_what_happened() {
    let message = on_connect(spacetimedb_sdk::Identity::ONE, "token");
    assert_eq!(message.identity, spacetimedb_sdk::Identity::ONE);
    assert_eq!(message.access_token, "token");
    assert!(on_disconnect(None).err.is_none());
    let err = spacetimedb_sdk::Error::AlreadyEnded;
    assert!(matches!(on_disconnect(Some(err)).err, Some(spacetimedb_sdk::Error::AlreadyEnded)));
    let err = spacetimedb_sdk::Error::Disconnected;
    assert!(matches!(on_connect_error(err).err, spacetimedb_sdk::Error::Disconnected));
}
