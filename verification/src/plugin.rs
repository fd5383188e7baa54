//! The plugin and its settings.

use crate::compression::{chosen_or_default, Compression};
use crate::connection::{DelayedPluginData, LifecycleSenders, Platform, StdbModule};
use crate::course::{
    channel_answers, course, delayed_build, done, immediate_build, lemma_delayed_build,
    lemma_immediate_build, open_answers,
};
use crate::startup::{Action, BuildPlan, Fault, Opening, Startup};
use std::sync::Arc;
use vstd::prelude::*;

verus! {

/// The plugin for connecting SpacetimeDB with your bevy application.
pub struct StdbPlugin<K: StdbModule> {
    database_name: Option<String>,
    uri: Option<String>,
    token: Option<String>,
    compression: Option<Compression>,
    delayed_connect: bool,
    message_senders: Arc<K::MessageSenders>,
    table_registers: Arc<K::TableRegisters>,
    procedure_registers: Arc<K::ProcedureRegisters>,
}

/// What a [`StdbPlugin`] holds.
pub struct PluginView<K: StdbModule> {
    pub database_name: Option<String>,
    pub uri: Option<String>,
    pub token: Option<String>,
    pub compression: Option<Compression>,
    pub delayed_connect: bool,
    pub message_senders: Arc<K::MessageSenders>,
    pub table_registers: Arc<K::TableRegisters>,
    pub procedure_registers: Arc<K::ProcedureRegisters>,
}

impl<K: StdbModule> View for StdbPlugin<K> {
    type V = PluginView<K>;

    closed spec fn view(&self) -> PluginView<K> {
        PluginView {
            database_name: self.database_name,
            uri: self.uri,
            token: self.token,
            compression: self.compression,
            delayed_connect: self.delayed_connect,
            message_senders: self.message_senders,
            table_registers: self.table_registers,
            procedure_registers: self.procedure_registers,
        }
    }
}

/// Registrations that nobody has added to.
pub struct FreshRegisters<K: StdbModule> {
    pub table_registers: Arc<K::TableRegisters>,
    pub procedure_registers: Arc<K::ProcedureRegisters>,
}

impl<K: StdbModule> FreshRegisters<K> where
    K::TableRegisters: Default,
    K::ProcedureRegisters: Default,
 {
    /// Whether the registrations are default values.
    pub open spec fn are_default(self) -> bool {
        &&& call_ensures(K::TableRegisters::default, (), *self.table_registers)
        &&& call_ensures(K::ProcedureRegisters::default, (), *self.procedure_registers)
    }

    /// Registrations that nobody has added to.
    pub fn new() -> (fresh: Self)
        ensures
            fresh.are_default(),
            call_ensures(K::TableRegisters::default, (), *fresh.table_registers),
            call_ensures(K::ProcedureRegisters::default, (), *fresh.procedure_registers),
    {
        FreshRegisters {
            table_registers: Arc::new(K::TableRegisters::default()),
            procedure_registers: Arc::new(K::ProcedureRegisters::default()),
        }
    }
}

/// One setting of a [`StdbPlugin`].
pub enum Setting {
    DatabaseName(String),
    Uri(String),
    Token(String),
    Compression(Compression),
    DelayedConnect(bool),
}

impl Setting {
    /// Whether two settings set the same thing.
    pub open spec fn same_kind(self, other: Setting) -> bool {
        match (self, other) {
            (Setting::DatabaseName(_), Setting::DatabaseName(_)) => true,
            (Setting::Uri(_), Setting::Uri(_)) => true,
            (Setting::Token(_), Setting::Token(_)) => true,
            (Setting::Compression(_), Setting::Compression(_)) => true,
            (Setting::DelayedConnect(_), Setting::DelayedConnect(_)) => true,
            _ => false,
        }
    }
}

impl<K: StdbModule> PluginView<K> {
    /// The plugin with one setting made.
    pub open spec fn with(self, setting: Setting) -> PluginView<K> {
        match setting {
            Setting::DatabaseName(name) => PluginView { database_name: Some(name), ..self },
            Setting::Uri(uri) => PluginView { uri: Some(uri), ..self },
            Setting::Token(token) => PluginView { token: Some(token), ..self },
            Setting::Compression(compression) => PluginView {
                compression: Some(compression),
                ..self
            },
            Setting::DelayedConnect(delayed) => PluginView { delayed_connect: delayed, ..self },
        }
    }

    /// The plugin that the table registrations of a delayed connection are run
    /// with: it has the message senders that were kept, fresh registrations and
    /// no setting.
    pub open spec fn bare(
        message_senders: Arc<K::MessageSenders>,
        fresh: FreshRegisters<K>,
    ) -> PluginView<K> {
        PluginView {
            database_name: None,
            uri: None,
            token: None,
            compression: None,
            delayed_connect: false,
            message_senders,
            table_registers: fresh.table_registers,
            procedure_registers: fresh.procedure_registers,
        }
    }

    /// Whether a build on `platform` leaves the connection for later. In a
    /// browser it always does, since a build cannot await a connection.
    pub open spec fn delays(self, platform: Platform) -> bool {
        platform == Platform::Wasm32 || self.delayed_connect
    }

    /// Whether all is set that a build needs.
    pub open spec fn is_complete(self) -> bool {
        self.uri is Some && self.database_name is Some
    }

    /// What is kept for a delayed connection.
    pub open spec fn delayed_data(self) -> DelayedPluginData<K> {
        DelayedPluginData {
            message_senders: self.message_senders,
            table_registers: self.table_registers,
        }
    }

    /// What a build on `platform` is to do, given a URI and a database name.
    pub open spec fn plan(self, platform: Platform) -> BuildPlan<K>
        recommends
            self.is_complete(),
    {
        BuildPlan {
            database_name: self.database_name->0,
            uri: self.uri->0,
            compression: chosen_or_default(self.compression),
            opening: if self.delays(platform) {
                Opening::Delayed(self.delayed_data())
            } else {
                Opening::Immediate(self.token)
            },
        }
    }

    /// How a build on `platform` starts. Without a URI or a database name it
    /// does nothing; the URI is missed first.
    pub open spec fn start(self, platform: Platform) -> (Startup<K>, Action<K>) {
        if self.uri is None {
            (Startup::Aborted, Action::Abort(Fault::NoUri))
        } else if self.database_name is None {
            (Startup::Aborted, Action::Abort(Fault::NoDatabaseName))
        } else {
            (
                Startup::AddingConnectErrorChannel(self.plan(platform)),
                Action::AddConnectErrorChannel,
            )
        }
    }
}

/// `std::sync::Arc::clone`: a second handle of the same allocation, which
/// therefore holds the same value.
#[verifier::external_body]
fn share<A>(handle: &Arc<A>) -> (shared: Arc<A>)
    ensures
        shared == *handle,
{
    Arc::clone(handle)
}

impl<K: StdbModule> Default for StdbPlugin<K> where
    K::MessageSenders: Default,
    K::TableRegisters: Default,
    K::ProcedureRegisters: Default,
 {
    /// A plugin that connects during its build, with the default compression
    /// and without any other setting or registration.
    fn default() -> (plugin: Self)
        ensures
            plugin@.database_name is None,
            plugin@.uri is None,
            plugin@.token is None,
            plugin@.compression == Some(Compression::Brotli),
            !plugin@.delayed_connect,
            call_ensures(K::MessageSenders::default, (), *plugin@.message_senders),
            call_ensures(K::TableRegisters::default, (), *plugin@.table_registers),
            call_ensures(K::ProcedureRegisters::default, (), *plugin@.procedure_registers),
    {
        StdbPlugin {
            database_name: None,
            uri: None,
            token: None,
            compression: Some(Compression::default()),
            delayed_connect: false,
            message_senders: Arc::new(K::MessageSenders::default()),
            table_registers: Arc::new(K::TableRegisters::default()),
            procedure_registers: Arc::new(K::ProcedureRegisters::default()),
        }
    }
}

impl<K: StdbModule> StdbPlugin<K> {
    /// Set the name of the remote database.
    pub fn with_database_name<N: Into<String>>(self, name: N) -> (plugin: Self)
        ensures
            call_ensures(<N as Into<String>>::into, (name,), plugin@.database_name->0),
            plugin@.database_name is Some,
            plugin@.uri == self@.uri,
            plugin@.token == self@.token,
            plugin@.compression == self@.compression,
            plugin@.delayed_connect == self@.delayed_connect,
            plugin@.message_senders == self@.message_senders,
            plugin@.table_registers == self@.table_registers,
            plugin@.procedure_registers == self@.procedure_registers,
            plugin@ == self@.with(Setting::DatabaseName(plugin@.database_name->0)),
    {
        StdbPlugin { database_name: Some(name.into()), ..self }
    }

    /// Set the URI of the SpacetimeDB host which is running the remote module.
    ///
    /// The URI must have either no scheme or one of the schemes `http`, `https`, `ws` or `wss`.
    pub fn with_uri<N: Into<String>>(self, uri: N) -> (plugin: Self)
        ensures
            call_ensures(<N as Into<String>>::into, (uri,), plugin@.uri->0),
            plugin@.uri is Some,
            plugin@.database_name == self@.database_name,
            plugin@.token == self@.token,
            plugin@.compression == self@.compression,
            plugin@.delayed_connect == self@.delayed_connect,
            plugin@.message_senders == self@.message_senders,
            plugin@.table_registers == self@.table_registers,
            plugin@.procedure_registers == self@.procedure_registers,
            plugin@ == self@.with(Setting::Uri(plugin@.uri->0)),
    {
        StdbPlugin { uri: Some(uri.into()), ..self }
    }

    /// Supply a token with which to authenticate with the remote database.
    ///
    /// `token` should be an OpenID Connect compliant JSON Web Token.
    ///
    /// If this method is not invoked, the SpacetimeDB host will generate a new
    /// anonymous identity. A delayed connection does not use this token, but
    /// the one that it is started with.
    pub fn with_token<N: Into<String>>(self, token: N) -> (plugin: Self)
        ensures
            call_ensures(<N as Into<String>>::into, (token,), plugin@.token->0),
            plugin@.token is Some,
            plugin@.database_name == self@.database_name,
            plugin@.uri == self@.uri,
            plugin@.compression == self@.compression,
            plugin@.delayed_connect == self@.delayed_connect,
            plugin@.message_senders == self@.message_senders,
            plugin@.table_registers == self@.table_registers,
            plugin@.procedure_registers == self@.procedure_registers,
            plugin@ == self@.with(Setting::Token(plugin@.token->0)),
    {
        StdbPlugin { token: Some(token.into()), ..self }
    }

    /// Sets the compression used when a certain threshold in the message size has been reached.
    pub fn with_compression(self, compression: Compression) -> (plugin: Self)
        ensures
            plugin@.compression == Some(compression),
            plugin@.database_name == self@.database_name,
            plugin@.uri == self@.uri,
            plugin@.token == self@.token,
            plugin@.delayed_connect == self@.delayed_connect,
            plugin@.message_senders == self@.message_senders,
            plugin@.table_registers == self@.table_registers,
            plugin@.procedure_registers == self@.procedure_registers,
            plugin@ == self@.with(Setting::Compression(compression)),
    {
        StdbPlugin { compression: Some(compression), ..self }
    }

    /// Enable delayed connection mode. The connection will not be started
    /// during plugin build, but by `connect_with_token` later.
    ///
    /// This is useful for OAuth flows where the token is not available at app startup.
    pub fn with_delayed_connect(self, delayed: bool) -> (plugin: Self)
        ensures
            plugin@.delayed_connect == delayed,
            plugin@.database_name == self@.database_name,
            plugin@.uri == self@.uri,
            plugin@.token == self@.token,
            plugin@.compression == self@.compression,
            plugin@.message_senders == self@.message_senders,
            plugin@.table_registers == self@.table_registers,
            plugin@.procedure_registers == self@.procedure_registers,
            plugin@ == self@.with(Setting::DelayedConnect(delayed)),
    {
        StdbPlugin { delayed_connect: delayed, ..self }
    }

    /// The senders of the registered table messages.
    pub fn message_senders(&self) -> (senders: &Arc<K::MessageSenders>)
        ensures
            *senders == self@.message_senders,
    {
        &self.message_senders
    }

    /// The table registrations.
    pub fn table_registers(&self) -> (registers: &Arc<K::TableRegisters>)
        ensures
            *registers == self@.table_registers,
    {
        &self.table_registers
    }

    /// The procedure registrations.
    pub fn procedure_registers(&self) -> (registers: &Arc<K::ProcedureRegisters>)
        ensures
            *registers == self@.procedure_registers,
    {
        &self.procedure_registers
    }

    /// Starts the plugin's build on `platform`.
    pub fn build(&self, platform: Platform) -> (first: (Startup<K>, Action<K>))
        ensures
            first == self@.start(platform),
            self@.uri is None ==> first.0 is Aborted && first.1 == Action::<K>::Abort(Fault::NoUri),
            self@.uri is Some && self@.database_name is None ==> first.0 is Aborted && first.1
                == Action::<K>::Abort(Fault::NoDatabaseName),
            self@.uri is Some && self@.database_name is Some ==> {
                &&& first.1 is AddConnectErrorChannel
                &&& first.0 matches Startup::AddingConnectErrorChannel(plan)
                &&& plan.uri == self@.uri->0
                &&& plan.database_name == self@.database_name->0
                &&& plan.compression == (match self@.compression {
                    Some(compression) => compression,
                    None => Compression::Brotli,
                })
                &&& match plan.opening {
                    Opening::Immediate(token) => {
                        &&& platform == Platform::Native
                        &&& !self@.delayed_connect
                        &&& token == self@.token
                    },
                    Opening::Delayed(data) => {
                        &&& platform == Platform::Wasm32 || self@.delayed_connect
                        &&& data.message_senders == self@.message_senders
                        &&& data.table_registers == self@.table_registers
                    },
                }
            },
            self@.is_complete() && self@.delays(platform) ==> forall|senders: LifecycleSenders|
                #![trigger delayed_build(self@.plan(platform), self@.delayed_data(), senders)]
                course(first, channel_answers(senders) + done(2)) == delayed_build(
                    self@.plan(platform),
                    self@.delayed_data(),
                    senders,
                ),
            self@.is_complete() && !self@.delays(platform) ==> forall|
                senders: LifecycleSenders,
                count: usize,
            |
                #![trigger immediate_build(self@.plan(platform), self@.token, senders, count)]
                course(first, channel_answers(senders) + open_answers(count)) == immediate_build(
                    self@.plan(platform),
                    self@.token,
                    senders,
                    count,
                ),
    {
        proof {
            let plan = self@.plan(platform);
            if self@.delays(platform) {
                assert forall|senders: LifecycleSenders|
                    #![trigger delayed_build(plan, self@.delayed_data(), senders)]
                    course(
                        (Startup::AddingConnectErrorChannel(plan), Action::AddConnectErrorChannel),
                        channel_answers(senders) + done(2),
                    ) == delayed_build(plan, self@.delayed_data(), senders) by {
                    lemma_delayed_build(plan, senders);
                }
            } else {
                assert forall|senders: LifecycleSenders, count: usize|
                    #![trigger immediate_build(plan, self@.token, senders, count)]
                    course(
                        (Startup::AddingConnectErrorChannel(plan), Action::AddConnectErrorChannel),
                        channel_answers(senders) + open_answers(count),
                    ) == immediate_build(plan, self@.token, senders, count) by {
                    lemma_immediate_build(plan, senders, count);
                }
            }
        }
        let uri = match &self.uri {
            Some(uri) => uri.clone(),
            None => return (Startup::Aborted, Action::Abort(Fault::NoUri)),
        };
        let database_name = match &self.database_name {
            Some(name) => name.clone(),
            None => return (Startup::Aborted, Action::Abort(Fault::NoDatabaseName)),
        };
        let compression = match self.compression {
            Some(compression) => compression,
            None => Compression::default(),
        };
        let delayed = match platform {
            Platform::Native => self.delayed_connect,
            Platform::Wasm32 => true,
        };
        let opening = if delayed {
            Opening::Delayed(
                DelayedPluginData {
                    message_senders: share(&self.message_senders),
                    table_registers: share(&self.table_registers),
                },
            )
        } else {
            Opening::Immediate(self.token.clone())
        };
        let plan = BuildPlan { database_name, uri, compression, opening };
        (Startup::AddingConnectErrorChannel(plan), Action::AddConnectErrorChannel)
    }
}

impl<K: StdbModule> StdbPlugin<K> {
    /// The plugin that holds what [`PluginView::bare`] says.
    pub closed spec fn bare(
        message_senders: Arc<K::MessageSenders>,
        fresh: FreshRegisters<K>,
    ) -> StdbPlugin<K> {
        StdbPlugin {
            database_name: None,
            uri: None,
            token: None,
            compression: None,
            delayed_connect: false,
            message_senders,
            table_registers: fresh.table_registers,
            procedure_registers: fresh.procedure_registers,
        }
    }

    /// What a bare plugin holds.
    pub proof fn lemma_bare(message_senders: Arc<K::MessageSenders>, fresh: FreshRegisters<K>)
        ensures
            StdbPlugin::bare(message_senders, fresh)@ == PluginView::bare(message_senders, fresh),
    {
    }

    /// The plugin that the table registrations of a delayed connection are run
    /// with: it has the message senders that were kept, fresh registrations and
    /// no setting.
    pub fn for_delayed(message_senders: Arc<K::MessageSenders>, fresh: FreshRegisters<K>) -> (plugin:
        Self)
        ensures
            plugin == StdbPlugin::bare(message_senders, fresh),
            plugin@ == PluginView::bare(message_senders, fresh),
            plugin@.database_name is None,
            plugin@.uri is None,
            plugin@.token is None,
            plugin@.compression is None,
            !plugin@.delayed_connect,
            plugin@.message_senders == message_senders,
            plugin@.table_registers == fresh.table_registers,
            plugin@.procedure_registers == fresh.procedure_registers,
    {
        StdbPlugin {
            database_name: None,
            uri: None,
            token: None,
            compression: None,
            delayed_connect: false,
            message_senders,
            table_registers: fresh.table_registers,
            procedure_registers: fresh.procedure_registers,
        }
    }
}

} // verus!
