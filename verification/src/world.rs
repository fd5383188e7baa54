//! The configurations that a world keeps for delayed connections.

use crate::connection::{
    ConfigView, DelayedPluginData, Platform, StdbModule, StdbPluginConfig,
};
use crate::course::{course, delayed_connection, open_answers};
use crate::plugin::FreshRegisters;
use crate::startup::{delayed_start, start_delayed, Action, Event, Fault, Startup};
use bevy::prelude::{Resource, World};
use std::any::TypeId;
use vstd::prelude::*;

verus! {

/// `bevy::prelude::World`, used for the resources that it keeps.
#[verifier::external_type_specification]
#[verifier::external_body]
pub struct ExWorld(bevy::prelude::World);

/// `std::any::TypeId`, by which a world tells its resources apart.
#[verifier::external_type_specification]
#[verifier::external_body]
pub struct ExTypeId(std::any::TypeId);

impl<K: StdbModule> Resource for StdbPluginConfig<K> {

}

/// The configurations that a world keeps as resources, by the type of their
/// module.
pub uninterp spec fn kept_configs(world: World) -> Map<TypeId, ConfigView>;

/// Whether `id` identifies the type `K`: it is what [`type_id_of`] returns for
/// it.
pub closed spec fn identifies<K: StdbModule>(id: TypeId) -> bool {
    call_ensures(type_id_of::<K>, (), id)
}

/// `std::any::TypeId::of`. Nothing is claimed of the identifier but that this is
/// where it comes from.
#[verifier::external_body]
fn type_id_of<K: StdbModule>() -> (id: TypeId) {
    TypeId::of::<K>()
}

/// Whether registrations of component or resource types wait in a world to be
/// applied.
pub uninterp spec fn has_queue(world: World) -> bool;

/// The modules whose configurations are registered in a world as resources, and
/// for each whether they are registered as `Send + Sync`.
pub uninterp spec fn registered_configs(world: World) -> Map<TypeId, bool>;

/// Whether the configuration of the module that `id` identifies is registered as
/// a non-send resource, so that it cannot be kept as an ordinary one.
pub open spec fn is_non_send(registered: Map<TypeId, bool>, id: TypeId) -> bool {
    registered.contains_key(id) && !registered[id]
}

/// `Components::any_queued` of `bevy::prelude::World::components`: whether
/// registrations wait in the world. The world is left as it is. It is borrowed
/// mutably because registrations can be queued through a shared reference.
#[verifier::external_body]
fn any_queued(world: &mut World) -> (queued: bool)
    ensures
        queued == has_queue(*old(world)),
        queued == has_queue(*final(world)),
        registered_configs(*final(world)) == registered_configs(*old(world)),
        kept_configs(*final(world)) == kept_configs(*old(world)),
{
    world.components().any_queued()
}

/// `Components::valid_resource_id`, `Components::get_info` and
/// `ComponentInfo::is_send_and_sync`: how the configuration of the module `K` is
/// registered in the world, if it is.
#[verifier::external_body]
fn config_registration<K: StdbModule>(world: &World) -> (registration: Option<bool>)
    ensures
        forall|id: TypeId| #[trigger]
            identifies::<K>(id) ==> registration == (if registered_configs(*world).contains_key(
                id,
            ) {
                Some(registered_configs(*world)[id])
            } else {
                None
            }),
{
    let id = world.components().valid_resource_id::<StdbPluginConfig<K>>()?;
    Some(world.components().get_info(id)?.is_send_and_sync())
}

/// `bevy::prelude::World::insert_resource`: the world keeps the configuration
/// under the type of its module, in place of one that it kept there, and all
/// others as before. Worlds on which the call can panic are left out.
#[verifier::external_body]
fn insert_config<K: StdbModule>(world: &mut World, config: StdbPluginConfig<K>)
    requires
        !has_queue(*old(world)),
        forall|id: TypeId| #[trigger]
            identifies::<K>(id) ==> !is_non_send(registered_configs(*old(world)), id),
    ensures
        forall|id: TypeId| #[trigger]
            identifies::<K>(id) ==> kept_configs(*final(world)) == kept_configs(*old(world)).insert(
                id,
                config@,
            ),
{
    world.insert_resource(config);
}

/// `bevy::prelude::World::remove_resource`: hands out the configuration that the
/// world keeps under the type `K`, if there is one, and keeps all others as
/// before.
#[verifier::external_body]
fn remove_config<K: StdbModule>(world: &mut World) -> (found: Option<StdbPluginConfig<K>>)
    ensures
        forall|id: TypeId| #[trigger]
            identifies::<K>(id) ==> has_taken(
                kept_configs(*old(world)),
                id,
                found_view(found),
                kept_configs(*final(world)),
            ),
{
    world.remove_resource::<StdbPluginConfig<K>>()
}

/// Whether taking what is kept under `id` yields `found` and leaves `after`
/// of `before`.
pub open spec fn has_taken(
    before: Map<TypeId, ConfigView>,
    id: TypeId,
    found: Option<ConfigView>,
    after: Map<TypeId, ConfigView>,
) -> bool {
    &&& found == (if before.contains_key(id) {
        Some(before[id])
    } else {
        None
    })
    &&& after == before.remove(id)
}

/// What a configuration holds that was perhaps found.
pub open spec fn found_view<K: StdbModule>(found: Option<StdbPluginConfig<K>>) -> Option<
    ConfigView,
> {
    match found {
        Some(config) => Some(config@),
        None => None,
    }
}

/// The identifier of the module `K`.
pub fn module_id<K: StdbModule>() -> (id: TypeId)
    ensures
        identifies::<K>(id),
{
    type_id_of::<K>()
}

/// Carries out [`Action::StoreConfig`]. While registrations of component and
/// resource types wait in the world, they have to be applied first: that is
/// answered, and nothing is kept yet. Where the configuration is registered as a
/// non-send resource it can never be kept, and is handed back.
pub fn keep_config<K: StdbModule>(world: &mut World, config: StdbPluginConfig<K>) -> (kept: Result<
    Event<K>,
    StdbPluginConfig<K>,
>)
    ensures
        has_queue(*old(world)) ==> {
            &&& kept == Ok::<_, StdbPluginConfig<K>>(Event::RegistrationsWait(config))
            &&& kept_configs(*final(world)) == kept_configs(*old(world))
        },
        !has_queue(*old(world)) ==> forall|id: TypeId| #[trigger]
            identifies::<K>(id) ==> {
                if registered_configs(*old(world)).contains_key(id) && !registered_configs(
                    *old(world),
                )[id] {
                    &&& kept == Err::<Event<K>, _>(config)
                    &&& kept_configs(*final(world)) == kept_configs(*old(world))
                } else {
                    &&& kept == Ok::<_, StdbPluginConfig<K>>(Event::<K>::Done)
                    &&& kept_configs(*final(world)) == kept_configs(*old(world)).insert(id, config@)
                    &&& kept_configs(*final(world))[id].database_name == config.database_name@
                    &&& kept_configs(*final(world))[id].uri == config.uri@
                    &&& kept_configs(*final(world))[id].compression == config.compression
                    &&& kept_configs(*final(world))[id].send_connected == config.send_connected
                    &&& kept_configs(*final(world))[id].send_disconnected
                        == config.send_disconnected
                    &&& kept_configs(*final(world))[id].send_connect_error
                        == config.send_connect_error
                }
            },
{
    let id = type_id_of::<K>();
    assert(identifies::<K>(id));
    if any_queued(world) {
        return Ok(Event::RegistrationsWait(config));
    }
    match config_registration::<K>(world) {
        Some(false) => Err(config),
        _ => {
            insert_config(world, config);
            Ok(Event::Done)
        },
    }
}

/// Connect to SpacetimeDB with the given token (for delayed connection mode).
///
/// This starts the connection that a build in delayed connection mode left for
/// later. It takes the configuration that the build stored out of the world.
pub fn connect_with_token<K: StdbModule>(
    world: &mut World,
    platform: Platform,
    token: Option<String>,
) -> (first: (Startup<K>, Action<K>)) where
    K::TableRegisters: Default,
    K::ProcedureRegisters: Default,

    ensures
        exists|found: Option<StdbPluginConfig<K>>, fresh: FreshRegisters<K>|
            {
                &&& fresh.are_default()
                &&& first == #[trigger] delayed_start(platform, token, found, fresh)
                &&& forall|id: TypeId| #[trigger]
                    identifies::<K>(id) ==> has_taken(
                        kept_configs(*old(world)),
                        id,
                        found_view(found),
                        kept_configs(*final(world)),
                    )
            },
        forall|id: TypeId| #[trigger]
            identifies::<K>(id) ==> {
                &&& kept_configs(*final(world)) == kept_configs(*old(world)).remove(id)
                &&& if kept_configs(*old(world)).contains_key(id) {
                    let kept = kept_configs(*old(world))[id];
                    &&& first.1 is TakeDelayedData
                    &&& first.0 matches Startup::TakingDelayedData(
                        for_platform,
                        with_token,
                        config,
                        _,
                    )
                    &&& for_platform == platform
                    &&& with_token == token
                    &&& config.database_name@ == kept.database_name
                    &&& config.uri@ == kept.uri
                    &&& config.compression == kept.compression
                    &&& config.send_connected == kept.send_connected
                    &&& config.send_disconnected == kept.send_disconnected
                    &&& config.send_connect_error == kept.send_connect_error
                } else {
                    first.0 is Aborted && first.1 == Action::<K>::Abort(Fault::ConfigNotFound)
                }
            },
        first.0 matches Startup::TakingDelayedData(_, _, _, fresh) ==> {
            &&& call_ensures(K::TableRegisters::default, (), *fresh.table_registers)
            &&& call_ensures(K::ProcedureRegisters::default, (), *fresh.procedure_registers)
        },
        first.0 matches Startup::TakingDelayedData(_, _, config, fresh) ==> forall|
            data: DelayedPluginData<K>,
            count: usize,
        |
            #![trigger delayed_connection(config, data, fresh, platform, token, count)]
            course(
                first,
                seq![Event::DelayedDataTaken(Some(data))] + open_answers(count),
            ) == delayed_connection(config, data, fresh, platform, token, count),
{
    let found = remove_config::<K>(world);
    start_delayed(platform, token, found)
}

} // verus!
