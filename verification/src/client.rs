//! The assembled client: the partitioned plugin instances, ready to run.
//!
//! The surrounding program opens the remote-control session before building
//! a client, spawns one task per background instance, and drives the
//! dispatcher from the platform event loop.

use crate::assembly::{
    assemble, entry_contributes, entry_kind, entry_skipped, entry_table_id, entry_table_model,
    entry_type_id, entry_well_formed, ClientAssembly,
};
use crate::config::ClientOptions;
use crate::dispatch::{Dispatcher, ExecMark};
use crate::error::ClientError;
use crate::hotkey::{hotkey_parses, new_hotkey_manager};
use crate::plugin::PluginInstance;
use crate::registry::PluginRegistry;
use global_hotkey::GlobalHotKeyManager;
use vstd::prelude::*;

verus! {

/// A client assembled from configuration: background instances to spawn
/// once, the dispatcher owning the hotkey table, the recorded warnings, and
/// the manager handle that keeps the OS registrations alive.
pub struct Client {
    pub backgrounds: Vec<PluginInstance>,
    pub skipped: Vec<String>,
    pub dispatcher: Dispatcher,
    pub hotkey_mgr: GlobalHotKeyManager,
}

impl Client {
    /// Builds the client: starts the hotkey manager, then assembles the
    /// configured plugins.
    ///
    /// On success the dispatcher is idle over a well-formed hotkey table;
    /// every entry is well formed; entries whose type-id the registry
    /// lacks, and only those, stand in the warning list with no instance
    /// anywhere; and the table holds exactly one instance per contributing
    /// entry, under its combination's id and with its constructor's state,
    /// so the partition is a function of the mapping's contents. A
    /// configuration in which every entry is skipped yields a client
    /// whenever the hotkey manager starts. On failure no client exists and
    /// the error names what went wrong: a manager that would not start, or
    /// an entry that is malformed, was refused registration, or shares its
    /// combination id with another.
    pub fn new(options: ClientOptions, registry: &PluginRegistry) -> (r: Result<
        Client,
        ClientError,
    >)
        requires
            options.wf(),
        ensures
            (forall|i: int|
                0 <= i < options.plugins@.len() ==> entry_skipped(
                    *registry,
                    (#[trigger] options.plugins@[i]).1,
                )) ==> (r matches Ok(_) || r matches Err(ClientError::HotkeyManager { .. })),
            r matches Ok(c) ==> {
                &&& c.dispatcher.wf()
                &&& c.dispatcher.idle()
                &&& c.dispatcher.history() == Seq::<ExecMark>::empty()
                &&& c.backgrounds@.len() + c.dispatcher.table().len() + c.skipped@.len()
                    == options.plugins@.len()
                &&& forall|i: int|
                    0 <= i < c.backgrounds@.len() ==> (#[trigger] c.backgrounds@[i]).spec_binding()
                        is None
                &&& forall|i: int|
                    0 <= i < c.dispatcher.table().len() ==> (#[trigger] c.dispatcher.table()[i]).1.spec_hotkey_id()
                        == Some(c.dispatcher.table()[i].0)
                &&& forall|i: int|
                    0 <= i < options.plugins@.len() ==> entry_well_formed(
                        *registry,
                        (#[trigger] options.plugins@[i]).1,
                    )
                &&& forall|i: int|
                    0 <= i < options.plugins@.len() && entry_skipped(
                        *registry,
                        (#[trigger] options.plugins@[i]).1,
                    ) ==> c.skipped@.contains(options.plugins@[i].0)
                &&& forall|i: int|
                    0 <= i < options.plugins@.len() && !entry_skipped(
                        *registry,
                        (#[trigger] options.plugins@[i]).1,
                    ) ==> !c.skipped@.contains(options.plugins@[i].0)
                &&& forall|i: int|
                    0 <= i < options.plugins@.len() && entry_contributes(
                        *registry,
                        (#[trigger] options.plugins@[i]).1,
                    ) ==> exists|k: int|
                        0 <= k < c.dispatcher.table().len() && (#[trigger] c.dispatcher.table()[k]).0
                            == entry_table_id(*registry, options.plugins@[i].1)
                            && c.dispatcher.table()[k].1@ == entry_table_model(
                            *registry,
                            options.plugins@[i].1,
                        )
                &&& forall|k: int| #![trigger c.dispatcher.table()[k]]
                    0 <= k < c.dispatcher.table().len() ==> exists|i: int|
                        0 <= i < options.plugins@.len() && entry_contributes(
                            *registry,
                            (#[trigger] options.plugins@[i]).1,
                        ) && c.dispatcher.table()[k].0 == entry_table_id(
                            *registry,
                            options.plugins@[i].1,
                        ) && c.dispatcher.table()[k].1@ == entry_table_model(
                            *registry,
                            options.plugins@[i].1,
                        )
            },
            r matches Err(e) ==> match e {
                ClientError::BadPluginConfig { plugin, field } => {
                    exists|i: int|
                        0 <= i < options.plugins@.len() && (#[trigger] options.plugins@[i]).0@
                            == plugin@ && ((field@ == "type"@ && entry_type_id(
                            options.plugins@[i].1,
                        ) is None) || (entry_kind(*registry, options.plugins@[i].1) is Some && ((
                        field@ == "hotkey"@ && options.plugins@[i].1.spec_text("hotkey"@) is None)
                            || (field@ == "safe_scene_name"@ && options.plugins@[i].1.spec_text(
                            "safe_scene_name"@,
                        ) is None))))
                },
                ClientError::BadHotkeySpec { plugin, .. } => {
                    exists|i: int|
                        0 <= i < options.plugins@.len() && (#[trigger] options.plugins@[i]).0@
                            == plugin@ && entry_kind(*registry, options.plugins@[i].1) is Some && (
                        options.plugins@[i].1.spec_text("hotkey"@) matches Some(h)
                            && !hotkey_parses(h))
                },
                ClientError::HotkeyRegistration { plugin, .. } => {
                    exists|i: int|
                        0 <= i < options.plugins@.len() && (#[trigger] options.plugins@[i]).0@
                            == plugin@ && entry_contributes(*registry, options.plugins@[i].1)
                },
                ClientError::DuplicateHotkeyId { plugin, id } => {
                    exists|i: int, j: int|
                        0 <= i < options.plugins@.len() && 0 <= j < options.plugins@.len() && i
                            != j && (#[trigger] options.plugins@[i]).0@ == plugin@
                            && entry_contributes(*registry, options.plugins@[i].1)
                            && entry_contributes(*registry, (#[trigger] options.plugins@[j]).1)
                            && entry_table_id(*registry, options.plugins@[i].1) == id
                            && entry_table_id(*registry, options.plugins@[j].1) == id
                },
                ClientError::HotkeyManager { .. } => true,
            },
    {
        let mgr = match new_hotkey_manager() {
            Ok(m) => m,
            Err(e) => {
                return Err(ClientError::HotkeyManager { source: e });
            },
        };
        let built = match assemble(options, registry, &mgr) {
            Ok(a) => a,
            Err(e) => {
                return Err(e);
            },
        };
        let ClientAssembly { backgrounds, hotkey_plugins, skipped } = built;
        let dispatcher = Dispatcher::new(hotkey_plugins);
        Ok(Client { backgrounds, skipped, dispatcher, hotkey_mgr: mgr })
    }
}

} // verus!
