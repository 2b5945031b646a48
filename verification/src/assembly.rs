//! Client assembly: configuration in, partitioned plugin instances out.
//!
//! Every configured entry is resolved against the registry. An entry whose
//! type-id is unknown is skipped with a warning; a constructed instance
//! goes to the background collection when it has no hotkey, and into the
//! hotkey table, under the id its registered combination got, when it has
//! one. Registration failure, like malformed configuration, aborts the
//! whole assembly.

use crate::config::{ClientOptions, ConfigTable, ConfigValue};
use crate::error::ClientError;
use crate::hotkey::register_hotkey;
use crate::plugin::{PluginInstance, PluginModel};
use crate::registry::{
    construct_plugin, constructed_hotkey_id, constructed_model, kind_constructs, PluginKind,
    PluginRegistry,
};
use global_hotkey::GlobalHotKeyManager;
use vstd::prelude::*;

verus! {

/// The `type` field of a raw plugin table, when it is text.
pub open spec fn entry_type_id(cfg: ConfigTable) -> Option<Seq<char>> {
    cfg.spec_text("type"@)
}

/// An entry names a type-id the registry does not know: assembly skips it.
pub open spec fn entry_skipped(registry: PluginRegistry, cfg: ConfigTable) -> bool {
    match entry_type_id(cfg) {
        Some(t) => registry.spec_lookup(t) is None,
        None => false,
    }
}

/// The constructor an entry resolves to: its type-id, when text, looked up.
pub open spec fn entry_kind(registry: PluginRegistry, cfg: ConfigTable) -> Option<PluginKind> {
    match entry_type_id(cfg) {
        Some(t) => registry.spec_lookup(t),
        None => None,
    }
}

/// Assembly raises no configuration error for the entry: its type-id is
/// text and, where the registry resolves it, its constructor accepts it.
pub open spec fn entry_well_formed(registry: PluginRegistry, cfg: ConfigTable) -> bool {
    &&& entry_type_id(cfg) is Some
    &&& match entry_kind(registry, cfg) {
        Some(k) => kind_constructs(k, cfg),
        None => true,
    }
}

/// The entry contributes an instance: resolved, and its constructor
/// accepts the table.
pub open spec fn entry_contributes(registry: PluginRegistry, cfg: ConfigTable) -> bool {
    match entry_kind(registry, cfg) {
        Some(k) => kind_constructs(k, cfg),
        None => false,
    }
}

/// The id under which a contributing entry's instance stands in the hotkey
/// table; meaningful only where the entry contributes.
pub open spec fn entry_table_id(registry: PluginRegistry, cfg: ConfigTable) -> u32 {
    match entry_kind(registry, cfg) {
        Some(k) => constructed_hotkey_id(k, cfg),
        None => 0,
    }
}

/// The state of the instance a contributing entry yields; meaningful only
/// where the entry contributes.
pub open spec fn entry_table_model(registry: PluginRegistry, cfg: ConfigTable) -> PluginModel {
    match entry_kind(registry, cfg) {
        Some(k) => constructed_model(k, cfg),
        None => constructed_model(PluginKind::SwitchScene, cfg),
    }
}

/// The partitioned result of assembly: background instances, the hotkey
/// table, and the names of skipped entries.
pub struct ClientAssembly {
    pub backgrounds: Vec<PluginInstance>,
    pub hotkey_plugins: Vec<(u32, PluginInstance)>,
    pub skipped: Vec<String>,
}

impl ClientAssembly {
    pub open spec fn spec_has_id(self, id: u32) -> bool {
        exists|i: int|
            0 <= i < self.hotkey_plugins@.len() && (#[trigger] self.hotkey_plugins@[i]).0 == id
    }

    /// The hotkey table's key set is the set of assigned ids, one entry per
    /// id, and each key is exactly the id its instance's binding carries.
    pub open spec fn table_wf(self) -> bool {
        &&& forall|i: int, j: int|
            0 <= i < j < self.hotkey_plugins@.len() ==> (#[trigger] self.hotkey_plugins@[i]).0 != (
            #[trigger] self.hotkey_plugins@[j]).0
        &&& forall|i: int|
            0 <= i < self.hotkey_plugins@.len() ==> (#[trigger] self.hotkey_plugins@[i]).1.spec_hotkey_id()
                == Some(self.hotkey_plugins@[i].0)
    }

    /// Background instances carry no hotkey binding.
    pub open spec fn backgrounds_wf(self) -> bool {
        forall|i: int|
            0 <= i < self.backgrounds@.len() ==> (#[trigger] self.backgrounds@[i]).spec_binding()
                is None
    }

    pub open spec fn wf(self) -> bool {
        self.table_wf() && self.backgrounds_wf()
    }

    /// An assembly with nothing placed yet.
    pub fn new() -> (r: ClientAssembly)
        ensures
            r.wf(),
            r.backgrounds@.len() == 0,
            r.hotkey_plugins@.len() == 0,
            r.skipped@.len() == 0,
    {
        ClientAssembly { backgrounds: Vec::new(), hotkey_plugins: Vec::new(), skipped: Vec::new() }
    }

    /// Records the warning for an entry whose type-id the registry lacks.
    pub fn record_skip(&mut self, name: String)
        requires
            old(self).wf(),
        ensures
            final(self).wf(),
            final(self).skipped@ == old(self).skipped@.push(name),
            final(self).backgrounds == old(self).backgrounds,
            final(self).hotkey_plugins == old(self).hotkey_plugins,
    {
        self.skipped.push(name);
    }

    /// Appends a constructed instance that has no hotkey binding to the
    /// background collection.
    pub fn place_background(&mut self, inst: PluginInstance)
        requires
            old(self).wf(),
            inst.spec_binding() is None,
        ensures
            final(self).wf(),
            final(self).backgrounds@ == old(self).backgrounds@.push(inst),
            final(self).hotkey_plugins == old(self).hotkey_plugins,
            final(self).skipped == old(self).skipped,
    {
        self.backgrounds.push(inst);
    }

    /// Inserts a hotkey-bound instance under its binding's id, given the
    /// outcome the OS returned for registering that binding. A refused
    /// registration, like an id already in the table, is a fatal error and
    /// leaves the assembly as it was.
    pub fn place_hotkey(
        &mut self,
        plugin_name: &String,
        inst: PluginInstance,
        registration: Result<(), global_hotkey::Error>,
    ) -> (r: Result<(), ClientError>)
        requires
            old(self).wf(),
            inst.spec_binding() matches Some(_),
        ensures
            final(self).wf(),
            final(self).backgrounds == old(self).backgrounds,
            final(self).skipped == old(self).skipped,
            inst.spec_hotkey_id() matches Some(id) ==> match r {
                Ok(_) => {
                    &&& registration matches Ok(_)
                    &&& !old(self).spec_has_id(id)
                    &&& final(self).hotkey_plugins@ == old(self).hotkey_plugins@.push((id, inst))
                },
                Err(e) => {
                    &&& *final(self) == *old(self)
                    &&& match e {
                        ClientError::HotkeyRegistration { plugin, .. } => {
                            &&& registration matches Err(_)
                            &&& plugin@ == plugin_name@
                        },
                        ClientError::DuplicateHotkeyId { plugin, id: dup } => {
                            &&& registration matches Ok(_)
                            &&& old(self).spec_has_id(id)
                            &&& dup == id
                            &&& plugin@ == plugin_name@
                        },
                        _ => false,
                    }
                },
            },
    {
        let binding = match inst.hotkey() {
            Some(b) => b,
            None => vstd::pervasive::unreached(),
        };
        match registration {
            Err(e) => Err(
                ClientError::HotkeyRegistration { plugin: plugin_name.clone(), source: e },
            ),
            Ok(_) => {
                if self.has_id(binding.id) {
                    Err(
                        ClientError::DuplicateHotkeyId {
                            plugin: plugin_name.clone(),
                            id: binding.id,
                        },
                    )
                } else {
                    self.hotkey_plugins.push((binding.id, inst));
                    Ok(())
                }
            },
        }
    }

    /// Whether an id is already a key of the hotkey table.
    #[verifier::loop_isolation(false)]
    pub fn has_id(&self, id: u32) -> (r: bool)
        ensures
            r == self.spec_has_id(id),
    {
        let n = self.hotkey_plugins.len();
        let mut i: usize = 0;
        while i < n
            invariant
                i <= n,
                forall|k: int| 0 <= k < i ==> (#[trigger] self.hotkey_plugins@[k]).0 != id,
            decreases n - i,
        {
            if self.hotkey_plugins[i].0 == id {
                return true;
            }
            i = i + 1;
        }
        false
    }
}

/// Assembles the client from its configuration: resolves every configured
/// entry through the registry, constructs the resolved ones, registers each
/// hotkey with the OS subsystem, and partitions the instances.
///
/// On success, every entry is accounted for exactly once: skipped entries
/// — those whose type-id the registry lacks, and only those — have their
/// names in the warning list and no instance anywhere; every contributing
/// entry stands in the hotkey table under the id of its combination, with
/// the state its constructor yields, and nothing else does, so the
/// partition is a function of the mapping's contents. A configuration in
/// which every entry is skipped assembles successfully. Malformed entries,
/// refused registrations and duplicate ids abort with an error naming a
/// responsible entry.
#[verifier::loop_isolation(false)]
pub fn assemble(
    options: ClientOptions,
    registry: &PluginRegistry,
    mgr: &GlobalHotKeyManager,
) -> (r: Result<ClientAssembly, ClientError>)
    requires
        options.wf(),
    ensures
        (forall|i: int|
            0 <= i < options.plugins@.len() ==> entry_skipped(
                *registry,
                (#[trigger] options.plugins@[i]).1,
            )) ==> r matches Ok(_),
        r matches Ok(a) ==> {
            &&& a.wf()
            &&& a.backgrounds@.len() + a.hotkey_plugins@.len() + a.skipped@.len()
                == options.plugins@.len()
            &&& forall|i: int|
                0 <= i < options.plugins@.len() ==> entry_well_formed(
                    *registry,
                    (#[trigger] options.plugins@[i]).1,
                )
            &&& forall|i: int|
                0 <= i < options.plugins@.len() && entry_skipped(
                    *registry,
                    (#[trigger] options.plugins@[i]).1,
                ) ==> a.skipped@.contains(options.plugins@[i].0)
            &&& forall|i: int|
                0 <= i < options.plugins@.len() && !entry_skipped(
                    *registry,
                    (#[trigger] options.plugins@[i]).1,
                ) ==> !a.skipped@.contains(options.plugins@[i].0)
            &&& forall|i: int|
                0 <= i < options.plugins@.len() && entry_contributes(
                    *registry,
                    (#[trigger] options.plugins@[i]).1,
                ) ==> exists|k: int|
                    0 <= k < a.hotkey_plugins@.len() && (#[trigger] a.hotkey_plugins@[k]).0
                        == entry_table_id(*registry, options.plugins@[i].1)
                        && a.hotkey_plugins@[k].1@ == entry_table_model(
                        *registry,
                        options.plugins@[i].1,
                    )
            &&& forall|k: int| #![trigger a.hotkey_plugins@[k]]
                0 <= k < a.hotkey_plugins@.len() ==> exists|i: int|
                    0 <= i < options.plugins@.len() && entry_contributes(
                        *registry,
                        (#[trigger] options.plugins@[i]).1,
                    ) && a.hotkey_plugins@[k].0 == entry_table_id(
                        *registry,
                        options.plugins@[i].1,
                    ) && a.hotkey_plugins@[k].1@ == entry_table_model(
                        *registry,
                        options.plugins@[i].1,
                    )
        },
        r matches Err(e) ==> match e {
            ClientError::BadPluginConfig { plugin, field } => {
                exists|i: int|
                    0 <= i < options.plugins@.len() && (#[trigger] options.plugins@[i]).0@
                        == plugin@ && ((field@ == "type"@ && entry_type_id(options.plugins@[i].1)
                        is None) || (entry_kind(*registry, options.plugins@[i].1) is Some && (
                    (field@ == "hotkey"@ && options.plugins@[i].1.spec_text("hotkey"@) is None) || (
                    field@ == "safe_scene_name"@ && options.plugins@[i].1.spec_text(
                        "safe_scene_name"@,
                    ) is None))))
            },
            ClientError::BadHotkeySpec { plugin, .. } => {
                exists|i: int|
                    0 <= i < options.plugins@.len() && (#[trigger] options.plugins@[i]).0@
                        == plugin@ && entry_kind(*registry, options.plugins@[i].1) is Some && (
                    options.plugins@[i].1.spec_text("hotkey"@) matches Some(h)
                        && !crate::hotkey::hotkey_parses(h))
            },
            ClientError::HotkeyRegistration { plugin, .. } => {
                exists|i: int|
                    0 <= i < options.plugins@.len() && (#[trigger] options.plugins@[i]).0@
                        == plugin@ && entry_contributes(*registry, options.plugins@[i].1)
            },
            ClientError::DuplicateHotkeyId { plugin, id } => {
                exists|i: int, j: int|
                    0 <= i < options.plugins@.len() && 0 <= j < options.plugins@.len() && i != j
                        && (#[trigger] options.plugins@[i]).0@ == plugin@ && entry_contributes(
                        *registry,
                        options.plugins@[i].1,
                    ) && entry_contributes(*registry, (#[trigger] options.plugins@[j]).1)
                        && entry_table_id(*registry, options.plugins@[i].1) == id
                        && entry_table_id(*registry, options.plugins@[j].1) == id
            },
            ClientError::HotkeyManager { .. } => false,
        },
{
    let ClientOptions { server: _, plugins: mut remaining } = options;
    let ghost orig = remaining@;
    let mut built = ClientAssembly::new();
    let ghost processed: int = 0;
    let ghost skip_srcs: Seq<int> = Seq::empty();
    let ghost table_srcs: Seq<int> = Seq::empty();
    while remaining.len() > 0
        invariant
            built.wf(),
            remaining@ == orig.skip(processed),
            0 <= processed <= orig.len(),
            built.backgrounds@.len() + built.hotkey_plugins@.len() + built.skipped@.len()
                == processed,
            forall|i: int|
                0 <= i < processed ==> entry_well_formed(*registry, (#[trigger] orig[i]).1),
            forall|i: int|
                0 <= i < processed && entry_skipped(*registry, (#[trigger] orig[i]).1)
                    ==> built.skipped@.contains(orig[i].0),
            skip_srcs.len() == built.skipped@.len(),
            forall|si: int|
                0 <= si < skip_srcs.len() ==> 0 <= (#[trigger] skip_srcs[si]) < processed
                    && entry_skipped(*registry, orig[skip_srcs[si]].1) && built.skipped@[si]
                    == orig[skip_srcs[si]].0,
            table_srcs.len() == built.hotkey_plugins@.len(),
            forall|k: int|
                0 <= k < table_srcs.len() ==> 0 <= (#[trigger] table_srcs[k]) < processed
                    && entry_contributes(*registry, orig[table_srcs[k]].1)
                    && built.hotkey_plugins@[k].0 == entry_table_id(
                    *registry,
                    orig[table_srcs[k]].1,
                ) && built.hotkey_plugins@[k].1@ == entry_table_model(
                    *registry,
                    orig[table_srcs[k]].1,
                ),
            forall|i: int|
                0 <= i < processed && entry_contributes(*registry, (#[trigger] orig[i]).1)
                    ==> exists|k: int|
                    0 <= k < built.hotkey_plugins@.len() && (#[trigger] built.hotkey_plugins@[k]).0
                        == entry_table_id(*registry, orig[i].1) && built.hotkey_plugins@[k].1@
                        == entry_table_model(*registry, orig[i].1),
        decreases remaining@.len(),
    {
        let ghost processed0 = processed;
        let ghost srcs_at_entry = skip_srcs;
        let ghost table_srcs_at_entry = table_srcs;
        let ghost skipped_at_entry = built.skipped@;
        let ghost table_at_entry = built.hotkey_plugins@;
        proof {
            assert(orig.skip(processed)[0] == orig[processed]);
            assert(orig.skip(processed).skip(1) =~= orig.skip(processed + 1));
        }
        let (name, cfg) = remaining.remove(0);
        let type_id = match cfg.get_text(&"type".to_owned()) {
            Some(t) => t,
            None => {
                proof {
                    assert(entry_type_id(orig[processed].1) is None);
                    assert(!entry_skipped(*registry, orig[processed].1));
                }
                return Err(
                    ClientError::BadPluginConfig { plugin: name, field: "type".to_owned() },
                );
            },
        };
        match registry.lookup(&type_id) {
            None => {
                built.record_skip(name);
                proof {
                    skip_srcs = skip_srcs.push(processed);
                    broadcast use vstd::seq_lib::lemma_seq_contains_after_push;

                    assert(entry_skipped(*registry, orig[processed].1));
                    assert(built.skipped@[skipped_at_entry.len() as int] == orig[processed].0);
                }
            },
            Some(kind) => {
                proof {
                    assert(entry_kind(*registry, orig[processed].1) == Some(kind));
                    assert(!entry_skipped(*registry, orig[processed].1));
                }
                let inst = match construct_plugin(kind, &name, &cfg) {
                    Ok(inst) => inst,
                    Err(e) => {
                        return Err(e);
                    },
                };
                proof {
                    assert(entry_contributes(*registry, orig[processed].1));
                    assert(entry_table_id(*registry, orig[processed].1) == constructed_hotkey_id(
                        kind,
                        orig[processed].1,
                    ));
                }
                match inst.hotkey() {
                    None => {
                        built.place_background(inst);
                    },
                    Some(binding) => {
                        let registration = register_hotkey(mgr, binding.key);
                        match built.place_hotkey(&name, inst, registration) {
                            Ok(_) => {
                                proof {
                                    table_srcs = table_srcs.push(processed);
                                    assert(built.hotkey_plugins@[table_at_entry.len() as int] == (
                                        binding.id,
                                        inst,
                                    ));
                                }
                            },
                            Err(e) => {
                                proof {
                                    match e {
                                        ClientError::DuplicateHotkeyId { id: dup, .. } => {
                                            let k = choose|k: int|
                                                0 <= k < built.hotkey_plugins@.len() && (
                                                #[trigger] built.hotkey_plugins@[k]).0 == dup;
                                            assert(0 <= table_srcs[k] < processed);
                                            assert(entry_contributes(
                                                *registry,
                                                orig[table_srcs[k]].1,
                                            ));
                                            assert(entry_table_id(*registry, orig[table_srcs[k]].1)
                                                == dup);
                                        },
                                        _ => {},
                                    }
                                }
                                return Err(e);
                            },
                        }
                    },
                }
            },
        }
        proof {
            processed = processed + 1;
            assert forall|si: int|
                0 <= si < skip_srcs.len() implies 0 <= (#[trigger] skip_srcs[si]) < processed
                && entry_skipped(*registry, orig[skip_srcs[si]].1) && built.skipped@[si]
                == orig[skip_srcs[si]].0 by {
                if si < srcs_at_entry.len() {
                    assert(srcs_at_entry[si] == skip_srcs[si]);
                    assert(skipped_at_entry[si] == built.skipped@[si]);
                } else {
                    assert(skip_srcs == srcs_at_entry.push(processed0));
                    assert(skip_srcs[si] == processed0);
                }
            }
            assert forall|k: int|
                0 <= k < table_srcs.len() implies 0 <= (#[trigger] table_srcs[k]) < processed
                && entry_contributes(*registry, orig[table_srcs[k]].1)
                && built.hotkey_plugins@[k].0 == entry_table_id(*registry, orig[table_srcs[k]].1)
                && built.hotkey_plugins@[k].1@ == entry_table_model(
                *registry,
                orig[table_srcs[k]].1,
            ) by {
                if k < table_srcs_at_entry.len() {
                    assert(table_srcs_at_entry[k] == table_srcs[k]);
                    assert(table_at_entry[k] == built.hotkey_plugins@[k]);
                } else {
                    assert(table_srcs == table_srcs_at_entry.push(processed0));
                    assert(table_srcs[k] == processed0);
                }
            }
            assert forall|i: int|
                0 <= i < processed && entry_contributes(*registry, (#[trigger] orig[i]).1)
                    implies exists|k: int|
                0 <= k < built.hotkey_plugins@.len() && (#[trigger] built.hotkey_plugins@[k]).0
                    == entry_table_id(*registry, orig[i].1) && built.hotkey_plugins@[k].1@
                    == entry_table_model(*registry, orig[i].1) by {
                if i < processed0 {
                    let k = choose|k: int|
                        0 <= k < table_at_entry.len() && (#[trigger] table_at_entry[k]).0
                            == entry_table_id(*registry, orig[i].1) && table_at_entry[k].1@
                            == entry_table_model(*registry, orig[i].1);
                    assert(built.hotkey_plugins@[k] == table_at_entry[k]);
                } else {
                    assert(built.hotkey_plugins@[built.hotkey_plugins@.len() - 1].0
                        == entry_table_id(*registry, orig[i].1));
                }
            }
        }
    }
    proof {
        assert(orig.skip(processed).len() == 0);
        assert(processed == orig.len());
        assert forall|i: int|
            0 <= i < orig.len() && !entry_skipped(*registry, (#[trigger] orig[i]).1)
                implies !built.skipped@.contains(orig[i].0) by {
            if built.skipped@.contains(orig[i].0) {
                let si = choose|si: int|
                    0 <= si < built.skipped@.len() && built.skipped@[si] == orig[i].0;
                let ei = skip_srcs[si];
                assert(entry_skipped(*registry, orig[ei].1));
                assert(orig[ei].0@ == orig[i].0@);
                if ei != i {
                    assert(false);
                }
            }
        }
        assert forall|k: int| #![trigger built.hotkey_plugins@[k]]
            0 <= k < built.hotkey_plugins@.len() implies exists|i: int|
            0 <= i < orig.len() && entry_contributes(*registry, (#[trigger] orig[i]).1)
                && built.hotkey_plugins@[k].0 == entry_table_id(*registry, orig[i].1)
                && built.hotkey_plugins@[k].1@ == entry_table_model(*registry, orig[i].1) by {
            assert(0 <= table_srcs[k] < orig.len());
            assert(entry_contributes(*registry, orig[table_srcs[k]].1));
        }
    }
    Ok(built)
}

} // verus!
