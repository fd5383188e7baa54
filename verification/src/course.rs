//! Whole courses of a startup: the actions that it hands out, in order, for
//! given answers.

use crate::connection::{
    DelayedPluginData, LifecycleSenders, Platform, StdbModule, StdbPluginConfig,
};
use crate::plugin::FreshRegisters;
use crate::startup::{delayed_start, Action, BuildPlan, Event, Registry, Startup};
use vstd::prelude::*;

verus! {

/// The actions that a startup hands out while it is told `events`. An event
/// that does not answer the action before it changes nothing.
pub open spec fn actions_after<K: StdbModule>(startup: Startup<K>, events: Seq<Event<K>>) -> Seq<
    Action<K>,
>
    decreases events.len(),
{
    if events.len() == 0 {
        Seq::empty()
    } else {
        match startup.next(events[0]) {
            Some((next, action)) => seq![action] + actions_after(next, events.drop_first()),
            None => actions_after(startup, events.drop_first()),
        }
    }
}

/// All the actions of a startup: the one that it starts with, and those that it
/// hands out while it is told `events`.
pub open spec fn course<K: StdbModule>(
    first: (Startup<K>, Action<K>),
    events: Seq<Event<K>>,
) -> Seq<Action<K>> {
    seq![first.1] + actions_after(first.0, events)
}

/// The answers to `n` actions that are just carried out.
pub open spec fn done<K: StdbModule>(n: nat) -> Seq<Event<K>> {
    Seq::new(n, |i: int| Event::Done)
}

/// Runs each of `count` table registrations, in order.
pub open spec fn run_registers<K: StdbModule>(count: usize) -> Seq<Action<K>> {
    Seq::new(count as nat, |i: int| Action::RunTableRegister(i as usize))
}

/// What is done with `count` locked table registrations and an open connection.
pub open spec fn launch<K: StdbModule>(count: usize) -> Seq<Action<K>> {
    run_registers(count) + seq![
        Action::UnlockTableRegisters,
        Action::StartEventLoop,
        Action::InsertConnection,
        Action::Finish,
    ]
}

/// The answers to opening a connection and to all that is done with it, where
/// nothing goes wrong and there are `count` table registrations.
pub open spec fn open_answers<K: StdbModule>(count: usize) -> Seq<Event<K>> {
    seq![Event::Connected, Event::TableRegistersLocked(count)] + done(count as nat + 3)
}

/// The answers to adding the message channels.
pub open spec fn channel_answers<K: StdbModule>(senders: LifecycleSenders) -> Seq<Event<K>> {
    seq![
        Event::ConnectErrorChannelAdded(senders.send_connect_error),
        Event::ConnectedChannelAdded(senders.send_connected),
        Event::DisconnectedChannelAdded(senders.send_disconnected),
    ]
}

/// The actions that add the message channels.
pub open spec fn add_channels<K: StdbModule>() -> Seq<Action<K>> {
    seq![
        Action::AddConnectErrorChannel,
        Action::AddConnectedChannel,
        Action::AddDisconnectedChannel,
    ]
}

/// The whole of a build with `plan` that opens its connection with `token`, and
/// succeeds.
pub open spec fn immediate_build<K: StdbModule>(
    plan: BuildPlan<K>,
    token: Option<String>,
    senders: LifecycleSenders,
    count: usize,
) -> Seq<Action<K>> {
    add_channels() + seq![
        Action::Connect(plan.request(token, senders)),
        Action::LockTableRegisters(Registry::Plugin),
    ] + launch(count)
}

/// The whole of a build with `plan` that leaves the connection for later and
/// keeps `data` for it.
pub open spec fn delayed_build<K: StdbModule>(
    plan: BuildPlan<K>,
    data: DelayedPluginData<K>,
    senders: LifecycleSenders,
) -> Seq<Action<K>> {
    add_channels() + seq![
        Action::StoreConfig(plan.config(senders)),
        Action::StoreDelayedData(data),
        Action::Finish,
    ]
}

/// The whole of a delayed connection that has found `config`, finds `data` and
/// succeeds. Its table registrations are run with a bare plugin that has the
/// message senders of `data` and the registrations `fresh`.
pub open spec fn delayed_connection<K: StdbModule>(
    config: StdbPluginConfig<K>,
    data: DelayedPluginData<K>,
    fresh: FreshRegisters<K>,
    platform: Platform,
    token: Option<String>,
    count: usize,
) -> Seq<Action<K>> {
    seq![
        Action::TakeDelayedData,
        Action::Connect(config.request(token, platform)),
        Action::LockTableRegisters(Registry::Delayed(data.registry(fresh))),
    ] + launch(count)
}

/// The first of several events is told first.
pub(crate) proof fn lemma_first_event<K: StdbModule>(
    startup: Startup<K>,
    event: Event<K>,
    rest: Seq<Event<K>>,
)
    ensures
        actions_after(startup, seq![event] + rest) == (match startup.next(event) {
            Some((next, action)) => seq![action] + actions_after(next, rest),
            None => actions_after(startup, rest),
        }),
{
    assert((seq![event] + rest).drop_first() == rest);
}

proof fn lemma_registers<K: StdbModule>(index: usize, count: usize)
    requires
        index < count,
    ensures
        actions_after(
            Startup::<K>::RunningTableRegister(index, count),
            done((count - index + 3) as nat),
        ) == launch::<K>(count).skip(index + 1),
    decreases count - index,
{
    let running = Startup::<K>::RunningTableRegister(index, count);
    let rest = done::<K>((count - index + 2) as nat);
    assert(done::<K>((count - index + 3) as nat) == seq![Event::<K>::Done] + rest);
    lemma_first_event(running, Event::Done, rest);
    if index + 1 < count {
        lemma_registers::<K>((index + 1) as usize, count);
        assert(launch::<K>(count).skip(index + 1) == seq![
            Action::<K>::RunTableRegister((index + 1) as usize),
        ] + launch::<K>(count).skip(index + 2));
    } else {
        lemma_ending::<K>();
        assert(launch::<K>(count).skip(index + 1) == seq![
            Action::<K>::UnlockTableRegisters,
            Action::StartEventLoop,
            Action::InsertConnection,
            Action::Finish,
        ]);
    }
}

proof fn lemma_ending<K: StdbModule>()
    ensures
        actions_after(Startup::<K>::UnlockingTableRegisters, done(3)) == seq![
            Action::<K>::StartEventLoop,
            Action::InsertConnection,
            Action::Finish,
        ],
{
    let done = Event::<K>::Done;
    assert(self::done::<K>(3) == seq![done] + (seq![done] + (seq![done] + Seq::empty())));
    lemma_first_event(
        Startup::<K>::UnlockingTableRegisters,
        done,
        seq![done] + (seq![done] + Seq::empty()),
    );
    lemma_first_event(Startup::<K>::StartingEventLoop, done, seq![done] + Seq::empty());
    lemma_first_event(Startup::<K>::InsertingConnection, done, Seq::empty());
}

proof fn lemma_open<K: StdbModule>(registry: Registry<K>, count: usize)
    ensures
        actions_after(Startup::Connecting(registry), open_answers(count)) == seq![
            Action::LockTableRegisters(registry),
        ] + launch(count),
{
    let locked = Event::<K>::TableRegistersLocked(count);
    let rest = done::<K>(count as nat + 3);
    assert(open_answers::<K>(count) == seq![Event::Connected] + (seq![locked] + rest));
    lemma_first_event(Startup::Connecting(registry), Event::Connected, seq![locked] + rest);
    lemma_first_event(Startup::<K>::LockingTableRegisters, locked, rest);
    if count > 0 {
        lemma_registers::<K>(0, count);
        assert(launch::<K>(count) == seq![Action::<K>::RunTableRegister(0)] + launch::<K>(
            count,
        ).skip(1));
    } else {
        lemma_ending::<K>();
        assert(launch::<K>(count) == seq![Action::<K>::UnlockTableRegisters] + seq![
            Action::StartEventLoop,
            Action::InsertConnection,
            Action::Finish,
        ]);
    }
    assert(actions_after(Startup::Connecting(registry), open_answers(count)) == seq![
        Action::LockTableRegisters(registry),
    ] + launch(count));
}

/// The course of any build until the message channels are there.
pub(crate) proof fn lemma_channels<K: StdbModule>(
    plan: BuildPlan<K>,
    senders: LifecycleSenders,
    rest: Seq<Event<K>>,
)
    ensures
        ({
            let next = plan.after_channels(senders);
            course(
                (Startup::AddingConnectErrorChannel(plan), Action::AddConnectErrorChannel),
                channel_answers(senders) + rest,
            ) == add_channels() + seq![next.1] + actions_after(next.0, rest)
        }),
{
    let first = Event::<K>::ConnectErrorChannelAdded(senders.send_connect_error);
    let second = Event::<K>::ConnectedChannelAdded(senders.send_connected);
    let third = Event::<K>::DisconnectedChannelAdded(senders.send_disconnected);
    assert(channel_answers(senders) + rest == seq![first] + (seq![second] + (seq![third] + rest)));
    lemma_first_event(
        Startup::AddingConnectErrorChannel(plan),
        first,
        seq![second] + (seq![third] + rest),
    );
    lemma_first_event(
        Startup::AddingConnectedChannel(plan, senders.send_connect_error),
        second,
        seq![third] + rest,
    );
    lemma_first_event(
        Startup::AddingDisconnectedChannel(
            plan,
            senders.send_connect_error,
            senders.send_connected,
        ),
        third,
        rest,
    );
    let next = plan.after_channels(senders);
    assert(course(
        (Startup::AddingConnectErrorChannel(plan), Action::AddConnectErrorChannel),
        channel_answers(senders) + rest,
    ) == add_channels() + seq![next.1] + actions_after(next.0, rest));
}

/// The course of a build that opens its connection.
pub(crate) proof fn lemma_immediate_build<K: StdbModule>(
    plan: BuildPlan<K>,
    senders: LifecycleSenders,
    count: usize,
)
    requires
        plan.opening is Immediate,
    ensures
        course(
            (Startup::AddingConnectErrorChannel(plan), Action::AddConnectErrorChannel),
            channel_answers(senders) + open_answers(count),
        ) == immediate_build(plan, plan.opening->Immediate_0, senders, count),
{
    lemma_channels(plan, senders, open_answers(count));
    lemma_open(Registry::<K>::Plugin, count);
    assert(course(
        (Startup::AddingConnectErrorChannel(plan), Action::AddConnectErrorChannel),
        channel_answers(senders) + open_answers(count),
    ) == immediate_build(plan, plan.opening->Immediate_0, senders, count));
}

/// The course of a build that leaves the connection for later.
pub(crate) proof fn lemma_delayed_build<K: StdbModule>(plan: BuildPlan<K>, senders: LifecycleSenders)
    requires
        plan.opening is Delayed,
    ensures
        course(
            (Startup::AddingConnectErrorChannel(plan), Action::AddConnectErrorChannel),
            channel_answers(senders) + done(2),
        ) == delayed_build(plan, plan.opening->Delayed_0, senders),
{
    lemma_channels(plan, senders, done(2));
    let data = plan.opening->Delayed_0;
    assert(done::<K>(2) == seq![Event::<K>::Done] + (seq![Event::Done] + Seq::empty()));
    lemma_first_event(
        Startup::StoringConfig(data),
        Event::Done,
        seq![Event::Done] + Seq::empty(),
    );
    lemma_first_event(Startup::<K>::StoringDelayedData, Event::Done, Seq::empty());
    assert(course(
        (Startup::AddingConnectErrorChannel(plan), Action::AddConnectErrorChannel),
        channel_answers(senders) + done(2),
    ) == delayed_build(plan, data, senders));
}

/// The course of a delayed connection.
pub(crate) proof fn lemma_delayed_connection<K: StdbModule>(
    config: StdbPluginConfig<K>,
    data: DelayedPluginData<K>,
    fresh: FreshRegisters<K>,
    platform: Platform,
    token: Option<String>,
    count: usize,
)
    ensures
        course(
            delayed_start(platform, token, Some(config), fresh),
            seq![Event::DelayedDataTaken(Some(data))] + open_answers(count),
        ) == delayed_connection(config, data, fresh, platform, token, count),
{
    let taken = Event::<K>::DelayedDataTaken(Some(data));
    let rest = open_answers::<K>(count);
    lemma_first_event(Startup::TakingDelayedData(platform, token, config, fresh), taken, rest);
    lemma_open(Registry::Delayed(data.registry(fresh)), count);
    assert(course(delayed_start(platform, token, Some(config), fresh), seq![taken] + rest)
        == delayed_connection(config, data, fresh, platform, token, count));
}

} // verus!
