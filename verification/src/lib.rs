//! Plugin orchestration and hotkey dispatch engine for a remote-controlled
//! production application.
//!
//! The crate turns a validated configuration into live plugin instances,
//! partitions them into background plugins and hotkey-bound plugins, and
//! drives a dispatch state machine that runs at most one hotkey-triggered
//! action at a time. Connecting to the remote application, reading the
//! configuration file and pumping the platform event loop are left to the
//! surrounding program.

mod assembly;
mod client;
mod config;
mod dispatch;
mod error;
mod hotkey;
mod plugin;
mod registry;

pub use assembly::{
    assemble, entry_contributes, entry_kind, entry_skipped, entry_table_id, entry_table_model,
    entry_type_id, entry_well_formed, ClientAssembly,
};
pub use client::Client;
pub use dispatch::{
    closes, lemma_paired_serialized, paired, serialized, DispatchState, Dispatcher, ExecMark,
};

pub use config::{ClientOptions, ConfigTable, ConfigValue, ServerOptions};
pub use config::table_lookup;
pub use error::ClientError;
pub use registry::{
    construct_plugin, constructed_hotkey_id, constructed_model, kind_constructs, kind_lookup,
    lemma_kind_lookup_push, text_or_empty, PluginKind, PluginRegistry,
};
pub use hotkey::{hotkey_id_of, hotkey_parses, HotkeyBinding};
pub use plugin::{
    armed_output, lemma_toggle_round_trip, model_output, plan_next, plan_target, restored_output,
    switch_next, switch_target, PluginInstance, PluginModel, SwitchModel, SwitchScenePlugin,
};
