//! What holds of every startup, whatever it is told.

use crate::compression::Compression;
use crate::connection::{
    ConfigView, ConnectionRequest, DelayedPluginData, LifecycleSenders, Platform, RequestView,
    StdbModule, StdbPluginConfig,
};
use crate::course::{
    actions_after, channel_answers, course, delayed_connection, done, immediate_build, launch,
    lemma_channels, lemma_delayed_build, lemma_delayed_connection, lemma_first_event,
    lemma_immediate_build, open_answers,
};
use crate::messages::{
    StdbConnectedMessage, StdbConnectionErrorMessage, StdbDisconnectedMessage,
};
use crate::plugin::{FreshRegisters, PluginView, Setting, StdbPlugin};
use crate::startup::{
    delayed_start, Action, BuildPlan, Event, Fault, Opening, Registry, Startup,
};
use crate::world::has_taken;
use std::any::TypeId;
use std::sync::mpsc::Sender;
use std::sync::Arc;
use vstd::prelude::*;

verus! {

/// Whether an action needs an open connection.
pub open spec fn needs_connection<K: StdbModule>(action: Action<K>) -> bool {
    match action {
        Action::LockTableRegisters(_) => true,
        Action::RunTableRegister(_) => true,
        Action::UnlockTableRegisters => true,
        Action::StartEventLoop => true,
        Action::InsertConnection => true,
        _ => false,
    }
}

/// Whether a startup is over.
pub open spec fn is_over<K: StdbModule>(startup: Startup<K>) -> bool {
    startup is Finished || startup is Aborted
}

/// Whether an action stores something for a delayed connection.
pub open spec fn stores<K: StdbModule>(action: Action<K>) -> bool {
    action is StoreConfig || action is StoreDelayedData
}

/// Whether a startup is in a build that opens its connection, or past it.
spec fn keeps_nothing<K: StdbModule>(startup: Startup<K>) -> bool {
    match startup {
        Startup::AddingConnectErrorChannel(plan) => plan.opening is Immediate,
        Startup::AddingConnectedChannel(plan, _) => plan.opening is Immediate,
        Startup::AddingDisconnectedChannel(plan, _, _) => plan.opening is Immediate,
        _ => has_asked(startup),
    }
}

/// Whether a startup has asked for its connection.
spec fn has_asked<K: StdbModule>(startup: Startup<K>) -> bool {
    match startup {
        Startup::Connecting(_) => true,
        Startup::LockingTableRegisters => true,
        Startup::RunningTableRegister(_, _) => true,
        Startup::UnlockingTableRegisters => true,
        Startup::StartingEventLoop => true,
        Startup::InsertingConnection => true,
        _ => is_over(startup),
    }
}

/// Whether a startup is in a build that leaves the connection for later.
spec fn leaves_connection<K: StdbModule>(startup: Startup<K>) -> bool {
    match startup {
        Startup::AddingConnectErrorChannel(plan) => plan.opening is Delayed,
        Startup::AddingConnectedChannel(plan, _) => plan.opening is Delayed,
        Startup::AddingDisconnectedChannel(plan, _, _) => plan.opening is Delayed,
        Startup::StoringConfig(_) => true,
        Startup::ApplyingRegistrations(_, _) => true,
        Startup::StoringDelayedData => true,
        _ => is_over(startup),
    }
}

/// A startup that has finished or given up asks for nothing more.
pub proof fn law_over_is_over<K: StdbModule>(startup: Startup<K>, events: Seq<Event<K>>)
    requires
        is_over(startup),
    ensures
        actions_after(startup, events) == Seq::<Action<K>>::empty(),
    decreases events.len(),
{
    if events.len() > 0 {
        law_over_is_over(startup, events.drop_first());
    }
}

/// The build of a plugin without a URI or without a database name does nothing
/// but give up, and says which is missing; if both are, it says that the URI is.
pub proof fn law_incomplete_plugin_gives_up<K: StdbModule>(
    plugin: PluginView<K>,
    platform: Platform,
    events: Seq<Event<K>>,
)
    ensures
        plugin.uri is None ==> course(plugin.start(platform), events) == seq![
            Action::<K>::Abort(Fault::NoUri),
        ],
        plugin.uri is Some && plugin.database_name is None ==> course(
            plugin.start(platform),
            events,
        ) == seq![Action::<K>::Abort(Fault::NoDatabaseName)],
{
    law_over_is_over(Startup::<K>::Aborted, events);
}

/// A build in delayed connection mode, and any build in a browser, neither
/// opens a connection nor does anything that needs one.
pub proof fn law_delayed_build_leaves_connection<K: StdbModule>(
    plugin: PluginView<K>,
    platform: Platform,
    events: Seq<Event<K>>,
    i: int,
)
    requires
        plugin.delays(platform),
        0 <= i < course(plugin.start(platform), events).len(),
    ensures
        !(course(plugin.start(platform), events)[i] is Connect),
        !needs_connection(course(plugin.start(platform), events)[i]),
{
    lemma_leaves_connection(plugin.start(platform).0, events);
    if i > 0 {
        assert(course(plugin.start(platform), events)[i] == actions_after(
            plugin.start(platform).0,
            events,
        )[i - 1]);
    }
}

proof fn lemma_leaves_connection<K: StdbModule>(startup: Startup<K>, events: Seq<Event<K>>)
    requires
        leaves_connection(startup),
    ensures
        forall|i: int|
            #![trigger actions_after(startup, events)[i]]
            0 <= i < actions_after(startup, events).len() ==> !(actions_after(
                startup,
                events,
            )[i] is Connect) && !needs_connection(actions_after(startup, events)[i]),
    decreases events.len(),
{
    if events.len() > 0 {
        match startup.next(events[0]) {
            Some((next, action)) => {
                lemma_leaves_connection(next, events.drop_first());
            },
            None => {
                lemma_leaves_connection(startup, events.drop_first());
            },
        }
    }
}

/// A native build outside delayed connection mode stores nothing for a delayed
/// connection, neither a configuration nor registrations.
pub proof fn law_immediate_build_stores_nothing<K: StdbModule>(
    plugin: PluginView<K>,
    platform: Platform,
    events: Seq<Event<K>>,
    i: int,
)
    requires
        !plugin.delays(platform),
        0 <= i < course(plugin.start(platform), events).len(),
    ensures
        !stores(course(plugin.start(platform), events)[i]),
{
    if i > 0 {
        lemma_keeps_nothing(plugin.start(platform).0, events, i - 1);
    }
}

proof fn lemma_keeps_nothing<K: StdbModule>(startup: Startup<K>, events: Seq<Event<K>>, i: int)
    requires
        keeps_nothing(startup),
        0 <= i < actions_after(startup, events).len(),
    ensures
        !stores(actions_after(startup, events)[i]),
    decreases events.len(),
{
    let rest = events.drop_first();
    match startup.next(events[0]) {
        Some((next, action)) => {
            if i > 0 {
                lemma_keeps_nothing(next, rest, i - 1);
            }
        },
        None => {
            lemma_keeps_nothing(startup, rest, i);
        },
    }
}

/// Whatever it is told, a build does nothing that needs a connection before it
/// has asked for one.
pub proof fn law_build_connects_before_use<K: StdbModule>(
    plugin: PluginView<K>,
    platform: Platform,
    events: Seq<Event<K>>,
    i: int,
)
    requires
        0 <= i < course(plugin.start(platform), events).len(),
        needs_connection(course(plugin.start(platform), events)[i]),
    ensures
        exists|j: int| 0 <= j < i && course(plugin.start(platform), events)[j] is Connect,
{
    lemma_connects_before_use(plugin.start(platform), events, i);
}

/// Whatever it found and is told, a delayed connection does nothing that needs a
/// connection before it has asked for one.
pub proof fn law_delayed_connection_connects_before_use<K: StdbModule>(
    platform: Platform,
    token: Option<String>,
    found: Option<StdbPluginConfig<K>>,
    fresh: FreshRegisters<K>,
    events: Seq<Event<K>>,
    i: int,
)
    requires
        0 <= i < course(delayed_start(platform, token, found, fresh), events).len(),
        needs_connection(course(delayed_start(platform, token, found, fresh), events)[i]),
    ensures
        exists|j: int|
            0 <= j < i && course(delayed_start(platform, token, found, fresh), events)[j] is Connect,
{
    lemma_connects_before_use(delayed_start(platform, token, found, fresh), events, i);
}

proof fn lemma_connects_before_use<K: StdbModule>(
    first: (Startup<K>, Action<K>),
    events: Seq<Event<K>>,
    i: int,
)
    requires
        !has_asked(first.0) || is_over(first.0) || first.1 is Connect,
        !needs_connection(first.1),
        0 <= i < course(first, events).len(),
        needs_connection(course(first, events)[i]),
    ensures
        exists|j: int| 0 <= j < i && course(first, events)[j] is Connect,
    decreases events.len(),
{
    let all = course(first, events);
    if first.1 is Connect {
        assert(all[0] is Connect);
    } else if is_over(first.0) {
        law_over_is_over(first.0, events);
    } else {
        let rest = events.drop_first();
        match first.0.next(events[0]) {
            Some(next) => {
                let tail = course(next, rest);
                assert(all == seq![first.1] + tail);
                lemma_connects_before_use(next, rest, i - 1);
                let j = choose|j: int| 0 <= j < i - 1 && tail[j] is Connect;
                assert(all[j + 1] is Connect);
            },
            None => {
                assert(all == course(first, rest));
                lemma_connects_before_use(first, rest, i);
            },
        }
    }
}

/// Whatever it is told, a build asks for at most one connection.
pub proof fn law_build_connects_once<K: StdbModule>(
    plugin: PluginView<K>,
    platform: Platform,
    events: Seq<Event<K>>,
    i: int,
    j: int,
)
    requires
        0 <= i < j < course(plugin.start(platform), events).len(),
    ensures
        !(course(plugin.start(platform), events)[i] is Connect && course(
            plugin.start(platform),
            events,
        )[j] is Connect),
{
    let first = plugin.start(platform);
    if i > 0 {
        lemma_connects_once(first.0, events, i - 1, j - 1);
    }
}

/// Whatever it found and is told, a delayed connection asks for at most one
/// connection.
pub proof fn law_delayed_connection_connects_once<K: StdbModule>(
    platform: Platform,
    token: Option<String>,
    found: Option<StdbPluginConfig<K>>,
    fresh: FreshRegisters<K>,
    events: Seq<Event<K>>,
    i: int,
    j: int,
)
    requires
        0 <= i < j < course(delayed_start(platform, token, found, fresh), events).len(),
    ensures
        !(course(delayed_start(platform, token, found, fresh), events)[i] is Connect && course(
            delayed_start(platform, token, found, fresh),
            events,
        )[j] is Connect),
{
    let first = delayed_start(platform, token, found, fresh);
    if i > 0 {
        lemma_connects_once(first.0, events, i - 1, j - 1);
    }
}

proof fn lemma_connects_once<K: StdbModule>(
    startup: Startup<K>,
    events: Seq<Event<K>>,
    i: int,
    j: int,
)
    requires
        0 <= i < j < actions_after(startup, events).len(),
    ensures
        !(actions_after(startup, events)[i] is Connect && actions_after(
            startup,
            events,
        )[j] is Connect),
    decreases events.len(),
{
    let rest = events.drop_first();
    match startup.next(events[0]) {
        Some((next, action)) => {
            let tail = actions_after(next, rest);
            assert(actions_after(startup, events) == seq![action] + tail);
            if action is Connect {
                lemma_asks_once(next, rest);
                assert(actions_after(startup, events)[j] == tail[j - 1]);
            } else if i > 0 {
                lemma_connects_once(next, rest, i - 1, j - 1);
            }
        },
        None => {
            lemma_connects_once(startup, rest, i, j);
        },
    }
}

proof fn lemma_asks_once<K: StdbModule>(startup: Startup<K>, events: Seq<Event<K>>)
    requires
        has_asked(startup),
    ensures
        forall|i: int|
            #![trigger actions_after(startup, events)[i]]
            0 <= i < actions_after(startup, events).len() ==> !(actions_after(
                startup,
                events,
            )[i] is Connect),
    decreases events.len(),
{
    if events.len() > 0 {
        match startup.next(events[0]) {
            Some((next, action)) => {
                lemma_asks_once(next, events.drop_first());
            },
            None => {
                lemma_asks_once(startup, events.drop_first());
            },
        }
    }
}

/// A startup whose connection could not be opened gives up: no table
/// registration is run, no event loop started and no connection put into the
/// world.
pub proof fn law_failed_connection_gives_up<K: StdbModule>(
    registry: Registry<K>,
    events: Seq<Event<K>>,
)
    ensures
        actions_after(Startup::Connecting(registry), seq![Event::ConnectFailed] + events) == seq![
            Action::<K>::Abort(registry.fault()),
        ],
{
    lemma_first_event(Startup::Connecting(registry), Event::ConnectFailed, events);
    law_over_is_over(Startup::<K>::Aborted, events);
}

/// However far a startup gets once its connection is open, it gets there in
/// order: every table registration is run once, from the first to the last,
/// then they are unlocked, then the event loop is started, and only then the
/// connection is put into the world.
pub proof fn law_launch_in_order<K: StdbModule>(count: usize, events: Seq<Event<K>>)
    ensures
        actions_after(
            Startup::<K>::LockingTableRegisters,
            seq![Event::TableRegistersLocked(count)] + events,
        ).is_prefix_of(launch(count)),
{
    let locked = Event::<K>::TableRegistersLocked(count);
    lemma_first_event(Startup::<K>::LockingTableRegisters, locked, events);
    if count > 0 {
        lemma_launch_in_order(
            Startup::<K>::RunningTableRegister(0, count),
            count,
            1,
            events,
        );
    } else {
        lemma_launch_in_order(Startup::<K>::UnlockingTableRegisters, count, 1, events);
    }
}

/// Whether a startup with `count` table registrations has handed out the first
/// `n` actions of its launch.
spec fn has_launched<K: StdbModule>(startup: Startup<K>, count: usize, n: int) -> bool {
    match startup {
        Startup::RunningTableRegister(index, total) => total == count && index < count && n == index
            + 1,
        Startup::UnlockingTableRegisters => n == count + 1,
        Startup::StartingEventLoop => n == count + 2,
        Startup::InsertingConnection => n == count + 3,
        Startup::Finished => n == count + 4,
        _ => false,
    }
}

proof fn lemma_launch_in_order<K: StdbModule>(
    startup: Startup<K>,
    count: usize,
    n: int,
    events: Seq<Event<K>>,
)
    requires
        has_launched(startup, count, n),
    ensures
        actions_after(startup, events).is_prefix_of(launch::<K>(count).skip(n)),
    decreases events.len(),
{
    if events.len() > 0 {
        let rest = events.drop_first();
        match startup.next(events[0]) {
            Some((next, action)) => {
                lemma_launch_in_order(next, count, n + 1, rest);
                assert(launch::<K>(count)[n] == action);
                assert(launch::<K>(count).skip(n) == seq![action] + launch::<K>(count).skip(
                    n + 1,
                ));
            },
            None => {
                lemma_launch_in_order(startup, count, n, rest);
            },
        }
    }
}

/// A delayed connection that found no configuration does nothing but give up,
/// and so does one that found a configuration but no registrations.
pub proof fn law_unprepared_connection_gives_up<K: StdbModule>(
    platform: Platform,
    token: Option<String>,
    config: StdbPluginConfig<K>,
    fresh: FreshRegisters<K>,
    events: Seq<Event<K>>,
)
    ensures
        course(delayed_start(platform, token, None::<StdbPluginConfig<K>>, fresh), events) == seq![
            Action::<K>::Abort(Fault::ConfigNotFound),
        ],
        course(
            delayed_start(platform, token, Some(config), fresh),
            seq![Event::DelayedDataTaken(None)] + events,
        ) == seq![Action::<K>::TakeDelayedData, Action::Abort(Fault::DelayedDataNotFound)],
{
    law_over_is_over(Startup::<K>::Aborted, events);
    lemma_first_event(
        Startup::TakingDelayedData(platform, token, config, fresh),
        Event::<K>::DelayedDataTaken(None),
        events,
    );
}

/// Two configurations that hold the same make the same request.
pub proof fn law_equal_configs_make_equal_requests<K: StdbModule>(
    one: StdbPluginConfig<K>,
    other: StdbPluginConfig<K>,
    token: Option<String>,
    platform: Platform,
)
    requires
        one@ == other@,
    ensures
        one.request(token, platform)@ == other.request(token, platform)@,
{
}

/// A delayed connection is the connection that the build left for later. With a
/// configuration that holds what the build stored, and with the registrations
/// that the build stored, it asks for the connection that a build with this
/// token would have asked for, except that in a browser a task waits for it; and
/// it goes on with the table registrations of the plugin as that build would
/// have gone on. It runs them with a plugin that has the message senders of the
/// one that was built, and no setting.
pub proof fn law_delayed_connection_makes_up_for_build<K: StdbModule>(
    plugin: PluginView<K>,
    platform: Platform,
    senders: LifecycleSenders,
    config: StdbPluginConfig<K>,
    fresh: FreshRegisters<K>,
    token: Option<String>,
    count: usize,
)
    requires
        plugin.is_complete(),
        plugin.delays(platform),
        config@ == plugin.plan(platform).config(senders)@,
    ensures
        ({
            let built = course(plugin.start(platform), channel_answers(senders) + done(2));
            let data = built[4]->StoreDelayedData_0;
            let connected = course(
                delayed_start(platform, token, Some(config), fresh),
                seq![Event::DelayedDataTaken(Some(data))] + open_answers(count),
            );
            let prompt = PluginView { delayed_connect: false, token, ..plugin };
            let wanted = course(
                prompt.start(Platform::Native),
                channel_answers(senders) + open_answers(count),
            );
            &&& built[3] is StoreConfig
            &&& built[3]->StoreConfig_0@ == config@
            &&& built[4] is StoreDelayedData
            &&& wanted[3] is Connect
            &&& connected[1] is Connect
            &&& connected[1]->Connect_0@ == (RequestView {
                waiting: platform.waiting_spec(),
                ..wanted[3]->Connect_0@
            })
            &&& connected[2] is LockTableRegisters
            &&& connected[2]->LockTableRegisters_0 is Delayed
            &&& connected[2]->LockTableRegisters_0->Delayed_0.table_registers
                == plugin.table_registers
            &&& connected[2]->LockTableRegisters_0->Delayed_0.plugin@ == PluginView::bare(
                plugin.message_senders,
                fresh,
            )
            &&& connected.skip(3) == wanted.skip(5)
        }),
{
    lemma_delayed_build(plugin.plan(platform), senders);
    let data = plugin.delayed_data();
    lemma_delayed_connection(config, data, fresh, platform, token, count);
    StdbPlugin::lemma_bare(plugin.message_senders, fresh);
    let prompt = PluginView { delayed_connect: false, token, ..plugin };
    lemma_immediate_build(prompt.plan(Platform::Native), senders, count);
    assert(delayed_connection(config, data, fresh, platform, token, count).skip(3) == launch::<K>(count));
    assert(immediate_build(prompt.plan(Platform::Native), token, senders, count).skip(5) == launch::<
        K,
    >(count));
}

/// The table registrations of a delayed connection, once it is open, are those
/// that were found, and they are run with a plugin that has the message senders
/// that were found, and no setting.
pub proof fn law_delayed_registrations_get_a_bare_plugin<K: StdbModule>(
    platform: Platform,
    token: Option<String>,
    config: StdbPluginConfig<K>,
    fresh: FreshRegisters<K>,
    data: DelayedPluginData<K>,
    events: Seq<Event<K>>,
)
    ensures
        ({
            let all = course(
                delayed_start(platform, token, Some(config), fresh),
                seq![Event::DelayedDataTaken(Some(data)), Event::Connected] + events,
            );
            &&& all[1] == Action::<K>::Connect(config.request(token, platform))
            &&& all[2] is LockTableRegisters
            &&& all[2]->LockTableRegisters_0 is Delayed
            &&& all[2]->LockTableRegisters_0->Delayed_0.table_registers == data.table_registers
            &&& all[2]->LockTableRegisters_0->Delayed_0.plugin@ == PluginView::bare(
                data.message_senders,
                fresh,
            )
        }),
{
    let taken = Event::<K>::DelayedDataTaken(Some(data));
    let rest = seq![Event::<K>::Connected] + events;
    assert(seq![taken, Event::Connected] + events == seq![taken] + rest);
    lemma_first_event(Startup::TakingDelayedData(platform, token, config, fresh), taken, rest);
    lemma_first_event(
        Startup::Connecting(Registry::Delayed(data.registry(fresh))),
        Event::Connected,
        events,
    );
    StdbPlugin::lemma_bare(data.message_senders, fresh);
}

/// Registrations that wait in the world delay a build and change nothing else:
/// they are applied, the same configuration is to be stored again, and the build
/// goes on as if nothing had waited.
pub proof fn law_waiting_registrations_only_delay<K: StdbModule>(
    data: DelayedPluginData<K>,
    config: StdbPluginConfig<K>,
    events: Seq<Event<K>>,
)
    ensures
        actions_after(
            Startup::StoringConfig(data),
            seq![Event::RegistrationsWait(config), Event::Done] + events,
        ) == seq![Action::ApplyRegistrations, Action::StoreConfig(config)] + actions_after(
            Startup::StoringConfig(data),
            events,
        ),
{
    let wait = Event::RegistrationsWait(config);
    let rest = seq![Event::<K>::Done] + events;
    assert(seq![wait, Event::Done] + events == seq![wait] + rest);
    lemma_first_event(Startup::StoringConfig(data), wait, rest);
    lemma_first_event(Startup::ApplyingRegistrations(data, config), Event::Done, events);
}

/// What a build had kept for its module is what a delayed connection of that
/// module takes, and it stays behind no longer.
pub proof fn law_kept_config_is_taken(
    before: Map<TypeId, ConfigView>,
    id: TypeId,
    config: ConfigView,
    found: Option<ConfigView>,
    after: Map<TypeId, ConfigView>,
)
    requires
        has_taken(before.insert(id, config), id, found, after),
    ensures
        found == Some(config),
        !after.contains_key(id),
{
}

/// A configuration is taken once: the next delayed connection of the same
/// module finds none.
pub proof fn law_config_is_taken_once(
    before: Map<TypeId, ConfigView>,
    id: TypeId,
    first: Option<ConfigView>,
    between: Map<TypeId, ConfigView>,
    second: Option<ConfigView>,
    after: Map<TypeId, ConfigView>,
)
    requires
        has_taken(before, id, first, between),
        has_taken(between, id, second, after),
    ensures
        second is None,
        after == between,
{
}

/// Modules do not disturb each other: neither keeping nor taking a
/// configuration of one changes what is found of another.
pub proof fn law_modules_are_independent(
    before: Map<TypeId, ConfigView>,
    id: TypeId,
    config: ConfigView,
    taken: Option<ConfigView>,
    after: Map<TypeId, ConfigView>,
    other: TypeId,
)
    requires
        id != other,
        has_taken(before, id, taken, after),
    ensures
        before.insert(id, config).contains_key(other) == before.contains_key(other),
        before.contains_key(other) ==> before.insert(id, config)[other] == before[other],
        after.contains_key(other) == before.contains_key(other),
        before.contains_key(other) ==> after[other] == before[other],
{
}

/// The order of two different settings does not matter, and of two settings of
/// the same kind the later one counts.
pub proof fn law_settings_are_independent<K: StdbModule>(
    plugin: PluginView<K>,
    first: Setting,
    second: Setting,
)
    ensures
        if first.same_kind(second) {
            plugin.with(first).with(second) == plugin.with(second)
        } else {
            plugin.with(first).with(second) == plugin.with(second).with(first)
        },
{
}

/// A setting changes what it is named after to what it is given, and nothing
/// else.
pub proof fn law_setting_sets_its_own_field<K: StdbModule>(
    plugin: PluginView<K>,
    text: String,
    compression: Compression,
    delayed: bool,
)
    ensures
        ({
            let set = plugin.with(Setting::DatabaseName(text));
            &&& set.database_name == Some(text)
            &&& set.uri == plugin.uri
            &&& set.token == plugin.token
            &&& set.compression == plugin.compression
            &&& set.delayed_connect == plugin.delayed_connect
            &&& set.message_senders == plugin.message_senders
            &&& set.table_registers == plugin.table_registers
            &&& set.procedure_registers == plugin.procedure_registers
        }),
        ({
            let set = plugin.with(Setting::Uri(text));
            &&& set.database_name == plugin.database_name
            &&& set.uri == Some(text)
            &&& set.token == plugin.token
            &&& set.compression == plugin.compression
            &&& set.delayed_connect == plugin.delayed_connect
            &&& set.message_senders == plugin.message_senders
            &&& set.table_registers == plugin.table_registers
            &&& set.procedure_registers == plugin.procedure_registers
        }),
        ({
            let set = plugin.with(Setting::Token(text));
            &&& set.database_name == plugin.database_name
            &&& set.uri == plugin.uri
            &&& set.token == Some(text)
            &&& set.compression == plugin.compression
            &&& set.delayed_connect == plugin.delayed_connect
            &&& set.message_senders == plugin.message_senders
            &&& set.table_registers == plugin.table_registers
            &&& set.procedure_registers == plugin.procedure_registers
        }),
        ({
            let set = plugin.with(Setting::Compression(compression));
            &&& set.database_name == plugin.database_name
            &&& set.uri == plugin.uri
            &&& set.token == plugin.token
            &&& set.compression == Some(compression)
            &&& set.delayed_connect == plugin.delayed_connect
            &&& set.message_senders == plugin.message_senders
            &&& set.table_registers == plugin.table_registers
            &&& set.procedure_registers == plugin.procedure_registers
        }),
        ({
            let set = plugin.with(Setting::DelayedConnect(delayed));
            &&& set.database_name == plugin.database_name
            &&& set.uri == plugin.uri
            &&& set.token == plugin.token
            &&& set.compression == plugin.compression
            &&& set.delayed_connect == delayed
            &&& set.message_senders == plugin.message_senders
            &&& set.table_registers == plugin.table_registers
            &&& set.procedure_registers == plugin.procedure_registers
        }),
{
}

/// A native build outside delayed connection mode adds the three message
/// channels and asks for a connection to the host and the database that the
/// plugin names, with the plugin's token if it has one and with the compression
/// that was chosen, Brotli if none was. Whatever becomes of the connection is
/// reported on the channels that were added, and the build waits for it.
pub proof fn law_native_build_connects_with_its_settings<K: StdbModule>(
    plugin: PluginView<K>,
    send_connect_error: Sender<StdbConnectionErrorMessage>,
    send_connected: Sender<StdbConnectedMessage>,
    send_disconnected: Sender<StdbDisconnectedMessage>,
    events: Seq<Event<K>>,
)
    requires
        plugin.uri is Some,
        plugin.database_name is Some,
        !plugin.delayed_connect,
    ensures
        ({
            let all = course(
                plugin.start(Platform::Native),
                seq![
                    Event::ConnectErrorChannelAdded(send_connect_error),
                    Event::ConnectedChannelAdded(send_connected),
                    Event::DisconnectedChannelAdded(send_disconnected),
                ] + events,
            );
            let request = all[3]->Connect_0;
            &&& all.len() > 3
            &&& all[0] is AddConnectErrorChannel
            &&& all[1] is AddConnectedChannel
            &&& all[2] is AddDisconnectedChannel
            &&& all[3] is Connect
            &&& request.uri == plugin.uri->0
            &&& request.database_name == plugin.database_name->0
            &&& request.token == plugin.token
            &&& request.compression == (match plugin.compression {
                Some(compression) => compression,
                None => Compression::Brotli,
            })
            &&& request.senders.send_connect_error == send_connect_error
            &&& request.senders.send_connected == send_connected
            &&& request.senders.send_disconnected == send_disconnected
            &&& request.waiting is Caller
        }),
{
    let senders = LifecycleSenders { send_connected, send_disconnected, send_connect_error };
    lemma_channels(plugin.plan(Platform::Native), senders, events);
    assert(channel_answers::<K>(senders) == seq![
        Event::<K>::ConnectErrorChannelAdded(send_connect_error),
        Event::ConnectedChannelAdded(send_connected),
        Event::DisconnectedChannelAdded(send_disconnected),
    ]);
}

/// Whether a startup of this plugin's build keeps to the plugin's settings.
spec fn keeps_settings<K: StdbModule>(startup: Startup<K>, plugin: PluginView<K>) -> bool {
    match startup {
        Startup::AddingConnectErrorChannel(plan) => plans_settings(plan, plugin),
        Startup::AddingConnectedChannel(plan, _) => plans_settings(plan, plugin),
        Startup::AddingDisconnectedChannel(plan, _, _) => plans_settings(plan, plugin),
        Startup::TakingDelayedData(_, _, _, _) => false,
        _ => true,
    }
}

/// Whether a plan keeps to the plugin's settings.
spec fn plans_settings<K: StdbModule>(plan: BuildPlan<K>, plugin: PluginView<K>) -> bool {
    &&& plan.uri == plugin.uri->0
    &&& plan.database_name == plugin.database_name->0
    &&& plan.compression == (match plugin.compression {
        Some(compression) => compression,
        None => Compression::Brotli,
    })
    &&& plan.opening matches Opening::Immediate(token) ==> token == plugin.token
}

/// Whatever it is told and wherever it runs, a build asks for no other
/// connection than one to the host and the database that the plugin names, with
/// the plugin's token and compression.
pub proof fn law_build_connects_only_with_its_settings<K: StdbModule>(
    plugin: PluginView<K>,
    platform: Platform,
    events: Seq<Event<K>>,
    i: int,
)
    requires
        0 <= i < course(plugin.start(platform), events).len(),
        course(plugin.start(platform), events)[i] is Connect,
    ensures
        platform == Platform::Native,
        !plugin.delayed_connect,
        plugin.uri is Some,
        plugin.database_name is Some,
        ({
            let request = course(plugin.start(platform), events)[i]->Connect_0;
            &&& request.uri == plugin.uri->0
            &&& request.database_name == plugin.database_name->0
            &&& request.token == plugin.token
            &&& request.compression == (match plugin.compression {
                Some(compression) => compression,
                None => Compression::Brotli,
            })
            &&& request.waiting is Caller
        }),
{
    let first = plugin.start(platform);
    assert(course(first, events)[i] == actions_after(first.0, events)[i - 1]);
    if plugin.uri is None || plugin.database_name is None {
        law_over_is_over(first.0, events);
    } else if platform == Platform::Wasm32 || plugin.delayed_connect {
        lemma_leaves_connection(first.0, events);
    } else {
        lemma_keeps_settings(first.0, plugin, events, i - 1);
    }
}

proof fn lemma_keeps_settings<K: StdbModule>(
    startup: Startup<K>,
    plugin: PluginView<K>,
    events: Seq<Event<K>>,
    i: int,
)
    requires
        keeps_settings(startup, plugin),
        0 <= i < actions_after(startup, events).len(),
        actions_after(startup, events)[i] is Connect,
    ensures
        ({
            let request = actions_after(startup, events)[i]->Connect_0;
            &&& request.uri == plugin.uri->0
            &&& request.database_name == plugin.database_name->0
            &&& request.token == plugin.token
            &&& request.compression == (match plugin.compression {
                Some(compression) => compression,
                None => Compression::Brotli,
            })
            &&& request.waiting is Caller
        }),
    decreases events.len(),
{
    let rest = events.drop_first();
    match startup.next(events[0]) {
        Some((next, action)) => {
            if i > 0 {
                lemma_keeps_settings(next, plugin, rest, i - 1);
            }
        },
        None => {
            lemma_keeps_settings(startup, plugin, rest, i);
        },
    }
}

/// A native build outside delayed connection mode whose connection opens locks
/// the plugin's own table registrations, runs each of them once, from the first
/// to the last, unlocks them, starts the event loop and puts the connection into
/// the world, and is done.
pub proof fn law_native_build_runs_every_registration<K: StdbModule>(
    plugin: PluginView<K>,
    send_connect_error: Sender<StdbConnectionErrorMessage>,
    send_connected: Sender<StdbConnectedMessage>,
    send_disconnected: Sender<StdbDisconnectedMessage>,
    count: usize,
    events: Seq<Event<K>>,
)
    requires
        plugin.uri is Some,
        plugin.database_name is Some,
        !plugin.delayed_connect,
        events.len() == count + 3,
        forall|i: int| 0 <= i < events.len() ==> events[i] is Done,
    ensures
        ({
            let all = course(
                plugin.start(Platform::Native),
                seq![
                    Event::ConnectErrorChannelAdded(send_connect_error),
                    Event::ConnectedChannelAdded(send_connected),
                    Event::DisconnectedChannelAdded(send_disconnected),
                    Event::Connected,
                    Event::TableRegistersLocked(count),
                ] + events,
            );
            &&& all.len() == count + 9
            &&& all[3] is Connect
            &&& all[4] == Action::<K>::LockTableRegisters(Registry::Plugin)
            &&& forall|i: int|
                0 <= i < count ==> #[trigger] all[5 + i] == Action::<K>::RunTableRegister(i as usize)
            &&& all[count + 5] is UnlockTableRegisters
            &&& all[count + 6] is StartEventLoop
            &&& all[count + 7] is InsertConnection
            &&& all[count + 8] is Finish
        }),
{
    let senders = LifecycleSenders { send_connected, send_disconnected, send_connect_error };
    lemma_immediate_build(plugin.plan(Platform::Native), senders, count);
    assert(events == done::<K>(count as nat + 3));
    assert(channel_answers::<K>(senders) + open_answers(count) == seq![
        Event::<K>::ConnectErrorChannelAdded(send_connect_error),
        Event::ConnectedChannelAdded(send_connected),
        Event::DisconnectedChannelAdded(send_disconnected),
        Event::Connected,
        Event::TableRegistersLocked(count),
    ] + events);
}

/// However far a startup gets once its table registrations are locked and
/// counted, whatever it is told: each registration is run once, from the first
/// to the last, and only after all of them they are unlocked, then the event
/// loop is started, then the connection is put into the world.
pub proof fn law_registrations_run_once_in_order<K: StdbModule>(
    count: usize,
    events: Seq<Event<K>>,
    i: int,
)
    requires
        0 <= i < actions_after(
            Startup::<K>::LockingTableRegisters,
            seq![Event::TableRegistersLocked(count)] + events,
        ).len(),
    ensures
        ({
            let action = actions_after(
                Startup::<K>::LockingTableRegisters,
                seq![Event::TableRegistersLocked(count)] + events,
            )[i];
            &&& i < count + 4
            &&& i < count ==> action == Action::<K>::RunTableRegister(i as usize)
            &&& i == count ==> action is UnlockTableRegisters
            &&& i == count + 1 ==> action is StartEventLoop
            &&& i == count + 2 ==> action is InsertConnection
            &&& i == count + 3 ==> action is Finish
        }),
{
    law_launch_in_order(count, events);
    assert(actions_after(
        Startup::<K>::LockingTableRegisters,
        seq![Event::TableRegistersLocked(count)] + events,
    )[i] == launch::<K>(count)[i]);
}

/// A native build outside delayed connection mode whose connection cannot be
/// opened gives up and does nothing more.
pub proof fn law_native_build_fails_with_its_connection<K: StdbModule>(
    plugin: PluginView<K>,
    send_connect_error: Sender<StdbConnectionErrorMessage>,
    send_connected: Sender<StdbConnectedMessage>,
    send_disconnected: Sender<StdbDisconnectedMessage>,
    events: Seq<Event<K>>,
)
    requires
        plugin.uri is Some,
        plugin.database_name is Some,
        !plugin.delayed_connect,
    ensures
        ({
            let all = course(
                plugin.start(Platform::Native),
                seq![
                    Event::ConnectErrorChannelAdded(send_connect_error),
                    Event::ConnectedChannelAdded(send_connected),
                    Event::DisconnectedChannelAdded(send_disconnected),
                    Event::ConnectFailed,
                ] + events,
            );
            &&& all.len() == 5
            &&& all[3] is Connect
            &&& all[4] == Action::<K>::Abort(Fault::ConnectionFailed)
        }),
{
    let senders = LifecycleSenders { send_connected, send_disconnected, send_connect_error };
    lemma_channels(
        plugin.plan(Platform::Native),
        senders,
        seq![Event::ConnectFailed] + events,
    );
    law_failed_connection_gives_up(Registry::<K>::Plugin, events);
    assert(channel_answers::<K>(senders) + (seq![Event::ConnectFailed] + events) == seq![
        Event::<K>::ConnectErrorChannelAdded(send_connect_error),
        Event::ConnectedChannelAdded(send_connected),
        Event::DisconnectedChannelAdded(send_disconnected),
        Event::ConnectFailed,
    ] + events);
}

/// Every build in a browser, whatever the plugin says of delayed connection
/// mode, and every build in that mode opens no connection and does nothing that
/// needs one, whatever it is told.
pub proof fn law_browser_or_delayed_build_never_connects<K: StdbModule>(
    plugin: PluginView<K>,
    platform: Platform,
    events: Seq<Event<K>>,
    i: int,
)
    requires
        platform == Platform::Wasm32 || plugin.delayed_connect,
        0 <= i < course(plugin.start(platform), events).len(),
    ensures
        ({
            let action = course(plugin.start(platform), events)[i];
            &&& !(action is Connect)
            &&& !(action is LockTableRegisters)
            &&& !(action is RunTableRegister)
            &&& !(action is UnlockTableRegisters)
            &&& !(action is StartEventLoop)
            &&& !(action is InsertConnection)
            &&& !(action is TakeDelayedData)
        }),
{
    law_delayed_build_leaves_connection(plugin, platform, events, i);
    if i > 0 {
        lemma_takes_nothing(plugin.start(platform).0, events, i - 1);
    }
}

proof fn lemma_takes_nothing<K: StdbModule>(startup: Startup<K>, events: Seq<Event<K>>, i: int)
    requires
        0 <= i < actions_after(startup, events).len(),
    ensures
        !(actions_after(startup, events)[i] is TakeDelayedData),
    decreases events.len(),
{
    let rest = events.drop_first();
    match startup.next(events[0]) {
        Some((next, action)) => {
            if i > 0 {
                lemma_takes_nothing(next, rest, i - 1);
            }
        },
        None => {
            lemma_takes_nothing(startup, rest, i);
        },
    }
}

/// A native build outside delayed connection mode neither stores anything for a
/// delayed connection nor takes anything that was stored for one, whatever it is
/// told.
pub proof fn law_native_build_neither_stores_nor_takes<K: StdbModule>(
    plugin: PluginView<K>,
    events: Seq<Event<K>>,
    i: int,
)
    requires
        !plugin.delayed_connect,
        0 <= i < course(plugin.start(Platform::Native), events).len(),
    ensures
        ({
            let action = course(plugin.start(Platform::Native), events)[i];
            &&& !(action is StoreConfig)
            &&& !(action is StoreDelayedData)
            &&& !(action is TakeDelayedData)
        }),
{
    law_immediate_build_stores_nothing(plugin, Platform::Native, events, i);
    if i > 0 {
        lemma_takes_nothing(plugin.start(Platform::Native).0, events, i - 1);
    }
}

/// Every build in a browser and every build in delayed connection mode stores
/// what the delayed connection is to be made from: the host and the database
/// that the plugin names, the compression that was chosen, Brotli if none was,
/// and the channels that were added. What it does first does not depend on what
/// it is told later.
pub proof fn law_delayed_build_stores_its_settings<K: StdbModule>(
    plugin: PluginView<K>,
    platform: Platform,
    send_connect_error: Sender<StdbConnectionErrorMessage>,
    send_connected: Sender<StdbConnectedMessage>,
    send_disconnected: Sender<StdbDisconnectedMessage>,
    events: Seq<Event<K>>,
)
    requires
        plugin.uri is Some,
        plugin.database_name is Some,
        platform == Platform::Wasm32 || plugin.delayed_connect,
    ensures
        ({
            let all = course(
                plugin.start(platform),
                seq![
                    Event::ConnectErrorChannelAdded(send_connect_error),
                    Event::ConnectedChannelAdded(send_connected),
                    Event::DisconnectedChannelAdded(send_disconnected),
                ] + events,
            );
            let config = all[3]->StoreConfig_0;
            &&& all.len() > 3
            &&& all[0] is AddConnectErrorChannel
            &&& all[1] is AddConnectedChannel
            &&& all[2] is AddDisconnectedChannel
            &&& all[3] is StoreConfig
            &&& config.uri == plugin.uri->0
            &&& config.database_name == plugin.database_name->0
            &&& config.send_connect_error == send_connect_error
            &&& config.compression == (match plugin.compression {
                Some(compression) => compression,
                None => Compression::Brotli,
            })
            &&& config.send_connected == send_connected
            &&& config.send_disconnected == send_disconnected
        }),
{
    let senders = LifecycleSenders { send_connected, send_disconnected, send_connect_error };
    lemma_channels(plugin.plan(platform), senders, events);
    assert(channel_answers::<K>(senders) == seq![
        Event::<K>::ConnectErrorChannelAdded(send_connect_error),
        Event::ConnectedChannelAdded(send_connected),
        Event::DisconnectedChannelAdded(send_disconnected),
    ]);
}

/// After its configuration, such a build stores the plugin's message senders and
/// table registrations, and is done: it does nothing more, whatever it is told.
pub proof fn law_delayed_build_stores_its_registrations<K: StdbModule>(
    plugin: PluginView<K>,
    platform: Platform,
    send_connect_error: Sender<StdbConnectionErrorMessage>,
    send_connected: Sender<StdbConnectedMessage>,
    send_disconnected: Sender<StdbDisconnectedMessage>,
    events: Seq<Event<K>>,
)
    requires
        plugin.uri is Some,
        plugin.database_name is Some,
        platform == Platform::Wasm32 || plugin.delayed_connect,
    ensures
        ({
            let all = course(
                plugin.start(platform),
                seq![
                    Event::ConnectErrorChannelAdded(send_connect_error),
                    Event::ConnectedChannelAdded(send_connected),
                    Event::DisconnectedChannelAdded(send_disconnected),
                    Event::Done,
                    Event::Done,
                ] + events,
            );
            &&& all.len() == 6
            &&& all[3] is StoreConfig
            &&& all[4] is StoreDelayedData
            &&& all[4]->StoreDelayedData_0.message_senders == plugin.message_senders
            &&& all[4]->StoreDelayedData_0.table_registers == plugin.table_registers
            &&& all[5] is Finish
        }),
{
    let senders = LifecycleSenders { send_connected, send_disconnected, send_connect_error };
    let done = Event::<K>::Done;
    let rest = seq![done] + (seq![done] + events);
    lemma_channels(plugin.plan(platform), senders, rest);
    lemma_first_event(
        Startup::StoringConfig(plugin.delayed_data()),
        done,
        seq![done] + events,
    );
    lemma_first_event(Startup::<K>::StoringDelayedData, done, events);
    law_over_is_over(Startup::<K>::Finished, events);
    assert(channel_answers::<K>(senders) + rest == seq![
        Event::<K>::ConnectErrorChannelAdded(send_connect_error),
        Event::ConnectedChannelAdded(send_connected),
        Event::DisconnectedChannelAdded(send_disconnected),
        done,
        done,
    ] + events);
}

/// Whether a configuration keeps to the plugin's settings.
spec fn configures_settings<K: StdbModule>(
    config: StdbPluginConfig<K>,
    plugin: PluginView<K>,
) -> bool {
    &&& config.uri == plugin.uri->0
    &&& config.database_name == plugin.database_name->0
    &&& config.compression == (match plugin.compression {
        Some(compression) => compression,
        None => Compression::Brotli,
    })
}

/// Whether a plan, if it leaves the connection for later, keeps to the plugin's
/// settings and registrations.
spec fn plans_to_store<K: StdbModule>(plan: BuildPlan<K>, plugin: PluginView<K>) -> bool {
    &&& plans_settings(plan, plugin)
    &&& plan.opening matches Opening::Delayed(data) ==> keeps_registrations(data, plugin)
}

/// Whether what is kept for a delayed connection is the plugin's.
spec fn keeps_registrations<K: StdbModule>(
    data: DelayedPluginData<K>,
    plugin: PluginView<K>,
) -> bool {
    data.message_senders == plugin.message_senders && data.table_registers == plugin.table_registers
}

/// Whether a startup of this plugin's build stores nothing but the plugin's
/// settings and registrations.
spec fn stores_own<K: StdbModule>(startup: Startup<K>, plugin: PluginView<K>) -> bool {
    match startup {
        Startup::AddingConnectErrorChannel(plan) => plans_to_store(plan, plugin),
        Startup::AddingConnectedChannel(plan, _) => plans_to_store(plan, plugin),
        Startup::AddingDisconnectedChannel(plan, _, _) => plans_to_store(plan, plugin),
        Startup::StoringConfig(data) => keeps_registrations(data, plugin),
        Startup::ApplyingRegistrations(data, config) => keeps_registrations(data, plugin)
            && configures_settings(config, plugin),
        _ => true,
    }
}

/// Whatever it is told, as long as no other configuration than the plugin's is
/// handed back to it because registrations wait, a build stores no other
/// settings and no other registrations than the plugin's.
pub proof fn law_build_stores_only_its_own<K: StdbModule>(
    plugin: PluginView<K>,
    platform: Platform,
    events: Seq<Event<K>>,
    i: int,
)
    requires
        forall|j: int|
            #![trigger events[j]]
            0 <= j < events.len() ==> (events[j] matches Event::RegistrationsWait(config) ==> {
                &&& config.uri == plugin.uri->0
                &&& config.database_name == plugin.database_name->0
                &&& config.compression == (match plugin.compression {
                    Some(compression) => compression,
                    None => Compression::Brotli,
                })
            }),
        0 <= i < course(plugin.start(platform), events).len(),
    ensures
        match course(plugin.start(platform), events)[i] {
            Action::StoreConfig(config) => {
                &&& config.uri == plugin.uri->0
                &&& config.database_name == plugin.database_name->0
                &&& config.compression == (match plugin.compression {
                    Some(compression) => compression,
                    None => Compression::Brotli,
                })
            },
            Action::StoreDelayedData(data) => {
                &&& data.message_senders == plugin.message_senders
                &&& data.table_registers == plugin.table_registers
            },
            _ => true,
        },
{
    if i > 0 {
        lemma_stores_own(plugin.start(platform).0, plugin, events, i - 1);
    }
}

proof fn lemma_stores_own<K: StdbModule>(
    startup: Startup<K>,
    plugin: PluginView<K>,
    events: Seq<Event<K>>,
    i: int,
)
    requires
        stores_own(startup, plugin),
        forall|j: int|
            #![trigger events[j]]
            0 <= j < events.len() ==> (events[j] matches Event::RegistrationsWait(config)
                ==> configures_settings(config, plugin)),
        0 <= i < actions_after(startup, events).len(),
    ensures
        match actions_after(startup, events)[i] {
            Action::StoreConfig(config) => configures_settings(config, plugin),
            Action::StoreDelayedData(data) => keeps_registrations(data, plugin),
            _ => true,
        },
    decreases events.len(),
{
    let rest = events.drop_first();
    assert forall|j: int| #![trigger rest[j]] 0 <= j < rest.len() implies (
    rest[j] matches Event::RegistrationsWait(config) ==> configures_settings(config, plugin)) by {
        assert(rest[j] == events[j + 1]);
    }
    match startup.next(events[0]) {
        Some((next, action)) => {
            if i > 0 {
                lemma_stores_own(next, plugin, rest, i - 1);
            }
        },
        None => {
            lemma_stores_own(startup, plugin, rest, i);
        },
    }
}

/// A delayed connection that finds its registrations asks for a connection to
/// the host and the database of the configuration, with its compression and on
/// its channels, and with the very token that it was started with, or none. The
/// caller waits for it, or in a browser a task.
pub proof fn law_delayed_connection_uses_config_and_token<K: StdbModule>(
    platform: Platform,
    token: Option<String>,
    config: StdbPluginConfig<K>,
    fresh: FreshRegisters<K>,
    data: DelayedPluginData<K>,
    events: Seq<Event<K>>,
)
    ensures
        ({
            let all = course(
                delayed_start(platform, token, Some(config), fresh),
                seq![Event::DelayedDataTaken(Some(data))] + events,
            );
            let request = all[1]->Connect_0;
            &&& all.len() > 1
            &&& all[0] is TakeDelayedData
            &&& all[1] is Connect
            &&& request.token == token
            &&& request.database_name == config.database_name
            &&& request.uri == config.uri
            &&& request.compression == config.compression
            &&& request.senders.send_connect_error == config.send_connect_error
            &&& request.senders.send_connected == config.send_connected
            &&& request.senders.send_disconnected == config.send_disconnected
            &&& platform == Platform::Native ==> request.waiting is Caller
            &&& platform == Platform::Wasm32 ==> request.waiting is Task
        }),
{
    let taken = Event::<K>::DelayedDataTaken(Some(data));
    lemma_first_event(Startup::TakingDelayedData(platform, token, config, fresh), taken, events);
}

/// Whatever it is told, a delayed connection asks for no other connection than
/// one with its configuration and the token that it was started with, and for
/// none where it found no configuration.
pub proof fn law_delayed_connection_uses_only_config_and_token<K: StdbModule>(
    platform: Platform,
    token: Option<String>,
    found: Option<StdbPluginConfig<K>>,
    fresh: FreshRegisters<K>,
    events: Seq<Event<K>>,
    i: int,
)
    requires
        0 <= i < course(delayed_start(platform, token, found, fresh), events).len(),
        course(delayed_start(platform, token, found, fresh), events)[i] is Connect,
    ensures
        found is Some,
        ({
            let request = course(delayed_start(platform, token, found, fresh), events)[i]->Connect_0;
            &&& request.token == token
            &&& request.database_name == found->0.database_name
            &&& request.uri == found->0.uri
            &&& request.compression == found->0.compression
            &&& request.senders.send_connect_error == found->0.send_connect_error
            &&& request.senders.send_connected == found->0.send_connected
            &&& request.senders.send_disconnected == found->0.send_disconnected
        }),
    decreases events.len(),
{
    let first = delayed_start(platform, token, found, fresh);
    assert(course(first, events)[i] == actions_after(first.0, events)[i - 1]);
    if found is None {
        law_over_is_over(first.0, events);
    } else {
        let rest = events.drop_first();
        match first.0.next(events[0]) {
            Some((next, action)) => {
                if i > 1 {
                    lemma_asks_once(next, rest);
                    assert(actions_after(first.0, events)[i - 1] == actions_after(next, rest)[i
                        - 2]);
                }
            },
            None => {
                assert(course(first, events) == course(first, rest));
                law_delayed_connection_uses_only_config_and_token(
                    platform,
                    token,
                    found,
                    fresh,
                    rest,
                    i,
                );
            },
        }
    }
}

/// A delayed connection that opens locks the table registrations that it found,
/// to be run with a plugin that has the message senders that it found, fresh
/// registrations of its own and no setting. It runs each of them once, from the
/// first to the last, unlocks them, starts the event loop and puts the connection
/// into the world, and is done.
pub proof fn law_delayed_connection_runs_every_registration<K: StdbModule>(
    platform: Platform,
    token: Option<String>,
    config: StdbPluginConfig<K>,
    fresh: FreshRegisters<K>,
    data: DelayedPluginData<K>,
    count: usize,
    events: Seq<Event<K>>,
)
    requires
        events.len() == count + 3,
        forall|i: int| 0 <= i < events.len() ==> events[i] is Done,
    ensures
        ({
            let all = course(
                delayed_start(platform, token, Some(config), fresh),
                seq![
                    Event::DelayedDataTaken(Some(data)),
                    Event::Connected,
                    Event::TableRegistersLocked(count),
                ] + events,
            );
            let registry = all[2]->LockTableRegisters_0->Delayed_0;
            &&& all.len() == count + 7
            &&& all[0] is TakeDelayedData
            &&& all[1] is Connect
            &&& all[2] is LockTableRegisters
            &&& all[2]->LockTableRegisters_0 is Delayed
            &&& registry.table_registers == data.table_registers
            &&& registry.plugin@.database_name is None
            &&& registry.plugin@.uri is None
            &&& registry.plugin@.token is None
            &&& registry.plugin@.compression is None
            &&& !registry.plugin@.delayed_connect
            &&& registry.plugin@.message_senders == data.message_senders
            &&& registry.plugin@.table_registers == fresh.table_registers
            &&& registry.plugin@.procedure_registers == fresh.procedure_registers
            &&& forall|i: int|
                0 <= i < count ==> #[trigger] all[3 + i] == Action::<K>::RunTableRegister(i as usize)
            &&& all[count + 3] is UnlockTableRegisters
            &&& all[count + 4] is StartEventLoop
            &&& all[count + 5] is InsertConnection
            &&& all[count + 6] is Finish
        }),
{
    lemma_delayed_connection(config, data, fresh, platform, token, count);
    assert(events == done::<K>(count as nat + 3));
    assert(seq![Event::<K>::DelayedDataTaken(Some(data))] + open_answers(count) == seq![
        Event::<K>::DelayedDataTaken(Some(data)),
        Event::Connected,
        Event::TableRegistersLocked(count),
    ] + events);
    StdbPlugin::lemma_bare(data.message_senders, fresh);
}

/// A delayed connection that cannot be opened gives up and does nothing more.
pub proof fn law_delayed_connection_fails_with_its_connection<K: StdbModule>(
    platform: Platform,
    token: Option<String>,
    config: StdbPluginConfig<K>,
    fresh: FreshRegisters<K>,
    data: DelayedPluginData<K>,
    events: Seq<Event<K>>,
)
    ensures
        ({
            let all = course(
                delayed_start(platform, token, Some(config), fresh),
                seq![Event::DelayedDataTaken(Some(data)), Event::ConnectFailed] + events,
            );
            &&& all.len() == 3
            &&& all[0] is TakeDelayedData
            &&& all[1] is Connect
            &&& all[2] == Action::<K>::Abort(Fault::DelayedConnectionFailed)
        }),
{
    let taken = Event::<K>::DelayedDataTaken(Some(data));
    let rest = seq![Event::<K>::ConnectFailed] + events;
    assert(seq![taken, Event::ConnectFailed] + events == seq![taken] + rest);
    lemma_first_event(Startup::TakingDelayedData(platform, token, config, fresh), taken, rest);
    law_failed_connection_gives_up(Registry::Delayed(data.registry(fresh)), events);
}

/// From the plugin's settings to the delayed connection: with a configuration
/// that holds what the build stored, whatever has been done with it between, the
/// connection goes to the host and the database that the plugin names, with its
/// compression, and the token is the one that the connection was started with,
/// not the plugin's.
pub proof fn law_delayed_connection_keeps_plugin_settings<K: StdbModule>(
    plugin: PluginView<K>,
    platform: Platform,
    send_connect_error: Sender<StdbConnectionErrorMessage>,
    send_connected: Sender<StdbConnectedMessage>,
    send_disconnected: Sender<StdbDisconnectedMessage>,
    config: StdbPluginConfig<K>,
    token: Option<String>,
    fresh: FreshRegisters<K>,
    data: DelayedPluginData<K>,
    build_events: Seq<Event<K>>,
    events: Seq<Event<K>>,
)
    requires
        plugin.uri is Some,
        plugin.database_name is Some,
        platform == Platform::Wasm32 || plugin.delayed_connect,
        config@ == course(
            plugin.start(platform),
            seq![
                Event::ConnectErrorChannelAdded(send_connect_error),
                Event::ConnectedChannelAdded(send_connected),
                Event::DisconnectedChannelAdded(send_disconnected),
            ] + build_events,
        )[3]->StoreConfig_0@,
    ensures
        ({
            let all = course(
                delayed_start(platform, token, Some(config), fresh),
                seq![Event::DelayedDataTaken(Some(data))] + events,
            );
            let request = all[1]->Connect_0;
            &&& all[1] is Connect
            &&& request.uri@ == plugin.uri->0@
            &&& request.database_name@ == plugin.database_name->0@
            &&& request.token == token
            &&& request.compression == (match plugin.compression {
                Some(compression) => compression,
                None => Compression::Brotli,
            })
            &&& request.senders.send_connect_error == send_connect_error
            &&& request.senders.send_connected == send_connected
            &&& request.senders.send_disconnected == send_disconnected
        }),
{
    law_delayed_build_stores_its_settings(
        plugin,
        platform,
        send_connect_error,
        send_connected,
        send_disconnected,
        build_events,
    );
    law_delayed_connection_uses_config_and_token(platform, token, config, fresh, data, events);
}

/// The views of a configuration and of a request leave nothing out.
pub proof fn law_views_show_everything<K: StdbModule>(
    config: StdbPluginConfig<K>,
    request: ConnectionRequest,
)
    ensures
        config@.database_name == config.database_name@,
        config@.uri == config.uri@,
        config@.compression == config.compression,
        config@.send_connected == config.send_connected,
        config@.send_disconnected == config.send_disconnected,
        config@.send_connect_error == config.send_connect_error,
        request@.database_name == request.database_name@,
        request@.uri == request.uri@,
        request.token is Some ==> request@.token == Some(request.token->0@),
        request.token is None ==> request@.token is None,
        request@.compression == request.compression,
        request@.senders == request.senders,
        request@.waiting == request.waiting,
{
}

/// A startup takes an event only as the answer to what it asked for last; one
/// that is over takes none.
pub proof fn law_only_the_answer_is_taken<K: StdbModule>(startup: Startup<K>, event: Event<K>)
    ensures
        startup.next(event) is Some <==> match startup {
            Startup::AddingConnectErrorChannel(_) => event is ConnectErrorChannelAdded,
            Startup::AddingConnectedChannel(_, _) => event is ConnectedChannelAdded,
            Startup::AddingDisconnectedChannel(_, _, _) => event is DisconnectedChannelAdded,
            Startup::StoringConfig(_) => event is Done || event is RegistrationsWait,
            Startup::ApplyingRegistrations(_, _) => event is Done,
            Startup::StoringDelayedData => event is Done,
            Startup::TakingDelayedData(_, _, _, _) => event is DelayedDataTaken,
            Startup::Connecting(_) => event is Connected || event is ConnectFailed,
            Startup::LockingTableRegisters => event is TableRegistersLocked,
            Startup::RunningTableRegister(_, _) => event is Done,
            Startup::UnlockingTableRegisters => event is Done,
            Startup::StartingEventLoop => event is Done,
            Startup::InsertingConnection => event is Done,
            Startup::Finished => false,
            Startup::Aborted => false,
        },
{
}

/// A bare plugin has no setting, the message senders that it is given, and fresh
/// registrations.
pub proof fn law_bare_plugin_has_no_setting<K: StdbModule>(
    message_senders: Arc<K::MessageSenders>,
    fresh: FreshRegisters<K>,
)
    ensures
        ({
            let plugin = StdbPlugin::bare(message_senders, fresh)@;
            &&& plugin.database_name is None
            &&& plugin.uri is None
            &&& plugin.token is None
            &&& plugin.compression is None
            &&& !plugin.delayed_connect
            &&& plugin.message_senders == message_senders
            &&& plugin.table_registers == fresh.table_registers
            &&& plugin.procedure_registers == fresh.procedure_registers
        }),
{
    StdbPlugin::lemma_bare(message_senders, fresh);
}

} // verus!
