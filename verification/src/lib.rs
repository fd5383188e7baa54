//! Connects a Bevy application to a SpacetimeDB database.

pub mod compression;
pub mod connection;
pub mod course;
pub mod laws;
pub mod messages;
pub mod plugin;
pub mod startup;
pub mod text;
pub mod world;

pub use compression::Compression;
pub use connection::{
    ConnectionRequest, ConnectionRunner, DelayedPluginData, LifecycleSenders, Platform,
    StdbModule, StdbPluginConfig, Waiting,
};
pub use messages::{
    on_connect, on_connect_error, on_disconnect, StdbConnectedMessage, StdbConnectionErrorMessage,
    StdbDisconnectedMessage,
};
pub use plugin::{FreshRegisters, StdbPlugin};
pub use startup::{
    start_delayed, Action, BuildPlan, DelayedRegistry, Event, Fault, Opening, Registry, Startup,
};
pub use world::{connect_with_token, keep_config, module_id};
