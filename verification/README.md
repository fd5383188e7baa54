# bevy_spacetimedb

Connects a Bevy application to a SpacetimeDB database.

`src/` is the library. It holds the plugin and its settings, the messages about
a connection, and the course of a connection's startup: what happens in which
order, during the plugin's build or, in delayed connection mode, once a token is
there. Its logic is verified with Verus; what it takes on trust is listed below.

- `plugin` is the plugin: its settings, and how its build starts.
- `startup` decides, action by action, how a build or a delayed connection goes
  on.
- `world` keeps the configuration of a delayed connection in Bevy's world, and
  takes it out again.
- `connection`, `messages` and `compression` hold the data, and `text` says what
  becomes of text that is handed in.
- `course` and `laws` state and prove what whole startups do.

`app/` is the Bevy plugin around it. It carries out the actions: it opens
connections, runs table registrations and talks to Bevy.

## What is trusted

Verus believes the contracts of these items without proof. Each of them only
calls into Bevy, the SpacetimeDB SDK or the standard library, or says what such a
call does:

- in `world`: `any_queued`, `config_registration`, `insert_config` and
  `remove_config`, which call Bevy's `World`, over the names `has_queue`,
  `registered_configs` and `kept_configs` for what a world holds; and
  `type_id_of`, which calls `TypeId::of`;
- in `compression`: `sdk_default_compression`, which asks the SDK for its default;
- in `plugin`: `share`, which calls `Arc::clone`;
- in `text`: `String::from` of a string slice, and `From` of a type for itself.

`World`, `TypeId`, `Sender`, and the SDK's `Identity` and `Error` are declared as
types that the proofs cannot see into. `app/` is not verified.
