//! The plugin registry: the startup-time mapping from plugin type-id to
//! constructor, and the construction of instances from raw configuration.
//!
//! The registry is an injected value, built before any configuration is
//! consumed and read-only thereafter.

use crate::config::{ConfigTable, ConfigValue};
use crate::error::ClientError;
use crate::hotkey::{hotkey_id_of, hotkey_parses, parse_hotkey};
use crate::plugin::{PluginInstance, PluginModel, SwitchModel, SwitchScenePlugin};
use vstd::prelude::*;
use vstd::string::StringExecFns;

verus! {

/// A registered plugin type; each variant stands for one constructor.
#[derive(Clone, Copy, PartialEq, Eq, Structural)]
pub enum PluginKind {
    SwitchScene,
}

/// The kind registered under `type_id`, or `None` when no entry has it.
pub open spec fn kind_lookup(entries: Seq<(String, PluginKind)>, type_id: Seq<char>) -> Option<
    PluginKind,
>
    decreases entries.len(),
{
    if entries.len() == 0 {
        None
    } else if entries[0].0@ == type_id {
        Some(entries[0].1)
    } else {
        kind_lookup(entries.skip(1), type_id)
    }
}

/// Appending a new entry leaves every registered type-id as it was and
/// registers the new one.
pub proof fn lemma_kind_lookup_push(
    entries: Seq<(String, PluginKind)>,
    type_id: String,
    kind: PluginKind,
    probe: Seq<char>,
)
    ensures
        kind_lookup(entries, probe) is Some ==> kind_lookup(entries.push((type_id, kind)), probe)
            == kind_lookup(entries, probe),
        kind_lookup(entries, probe) is None && probe == type_id@ ==> kind_lookup(
            entries.push((type_id, kind)),
            probe,
        ) == Some(kind),
        kind_lookup(entries, probe) is None && probe != type_id@ ==> kind_lookup(
            entries.push((type_id, kind)),
            probe,
        ) is None,
    decreases entries.len(),
{
    let appended = entries.push((type_id, kind));
    if entries.len() == 0 {
        assert(appended[0] == (type_id, kind));
        assert(appended.skip(1) =~= Seq::<(String, PluginKind)>::empty());
        if probe != type_id@ {
            assert(appended[0].0@ != probe);
            assert(kind_lookup(appended, probe) == kind_lookup(appended.skip(1), probe));
        }
    } else {
        assert(appended[0] == entries[0]);
        assert(appended.skip(1) =~= entries.skip(1).push((type_id, kind)));
        lemma_kind_lookup_push(entries.skip(1), type_id, kind, probe);
    }
}

/// The startup-time mapping from plugin type-id to constructor.
pub struct PluginRegistry {
    pub entries: Vec<(String, PluginKind)>,
}

impl PluginRegistry {
    pub open spec fn spec_lookup(self, type_id: Seq<char>) -> Option<PluginKind> {
        kind_lookup(self.entries@, type_id)
    }

    /// An empty registry.
    pub fn new() -> (r: PluginRegistry)
        ensures
            r.entries@.len() == 0,
            forall|t: Seq<char>| r.spec_lookup(t) is None,
    {
        let r = PluginRegistry { entries: Vec::new() };
        proof {
            assert forall|t: Seq<char>| r.spec_lookup(t) is None by {
                assert(r.entries@.len() == 0);
            }
        }
        r
    }

    /// Registers a constructor under a type-id not yet taken. Called only
    /// while the registry is being built, before any client is assembled.
    pub fn register(&mut self, type_id: String, kind: PluginKind)
        requires
            old(self).spec_lookup(type_id@) is None,
        ensures
            final(self).entries@ == old(self).entries@.push((type_id, kind)),
            final(self).spec_lookup(type_id@) == Some(kind),
            forall|t: Seq<char>|
                t != type_id@ ==> final(self).spec_lookup(t) == old(self).spec_lookup(t),
    {
        let ghost before = self.entries@;
        self.entries.push((type_id, kind));
        proof {
            assert forall|t: Seq<char>| #[trigger]
                kind_lookup(self.entries@, t) == if t == type_id@ {
                    Some(kind)
                } else {
                    kind_lookup(before, t)
                } by {
                lemma_kind_lookup_push(before, type_id, kind, t);
            }
        }
    }

    /// The registry holding every plugin type this crate embeds: exactly
    /// the scene-switch plugin, under `switch_scene`.
    pub fn with_builtins() -> (r: PluginRegistry)
        ensures
            r.spec_lookup("switch_scene"@) == Some(PluginKind::SwitchScene),
            forall|t: Seq<char>| t != "switch_scene"@ ==> r.spec_lookup(t) is None,
    {
        let mut r = PluginRegistry::new();
        r.register("switch_scene".to_owned(), PluginKind::SwitchScene);
        r
    }

    /// Looks a type-id up.
    pub fn lookup(&self, type_id: &String) -> (r: Option<PluginKind>)
        ensures
            r == self.spec_lookup(type_id@),
    {
        let n = self.entries.len();
        let mut i: usize = 0;
        proof {
            assert(self.entries@.skip(0) =~= self.entries@);
        }
        while i < n
            invariant
                n == self.entries@.len(),
                i <= n,
                kind_lookup(self.entries@, type_id@) == kind_lookup(
                    self.entries@.skip(i as int),
                    type_id@,
                ),
            decreases n - i,
        {
            proof {
                assert(self.entries@.skip(i as int)[0] == self.entries@[i as int]);
                assert(self.entries@.skip(i as int).skip(1) =~= self.entries@.skip(i + 1));
            }
            if self.entries[i].0.eq(type_id) {
                return Some(self.entries[i].1);
            }
            i = i + 1;
        }
        proof {
            assert(self.entries@.skip(n as int) =~= Seq::<(String, PluginKind)>::empty());
        }
        None
    }
}

/// The text of an optional field, or empty where it is absent.
pub open spec fn text_or_empty(v: Option<Seq<char>>) -> Seq<char> {
    match v {
        Some(s) => s,
        None => Seq::empty(),
    }
}

/// The constructor behind `kind` accepts the raw table: its required text
/// fields are present and its key-combination text parses.
pub open spec fn kind_constructs(kind: PluginKind, cfg: ConfigTable) -> bool {
    match kind {
        PluginKind::SwitchScene => {
            &&& cfg.spec_text("safe_scene_name"@) is Some
            &&& (cfg.spec_text("hotkey"@) matches Some(h) && hotkey_parses(h))
        },
    }
}

/// The state of the instance the constructor behind `kind` yields from a
/// raw table it accepts: unarmed, with empty output.
pub open spec fn constructed_model(kind: PluginKind, cfg: ConfigTable) -> PluginModel {
    match kind {
        PluginKind::SwitchScene => PluginModel::SwitchScene(
            SwitchModel {
                safe: text_or_empty(cfg.spec_text("safe_scene_name"@)),
                prev: None,
                output: Seq::empty(),
            },
        ),
    }
}

/// The id the hotkey subsystem assigns to the combination an instance
/// constructed by `kind` from the table is bound to.
pub open spec fn constructed_hotkey_id(kind: PluginKind, cfg: ConfigTable) -> u32 {
    match kind {
        PluginKind::SwitchScene => hotkey_id_of(text_or_empty(cfg.spec_text("hotkey"@))),
    }
}

/// Invokes the constructor behind `kind` on a raw configuration table.
///
/// The scene-switch constructor requires a text field `hotkey`, holding the
/// key combination, and a text field `safe_scene_name`. Construction
/// succeeds exactly when both are present and the key-combination text
/// parses; the fresh instance starts unarmed, with empty output and with
/// the id the hotkey subsystem assigns to its combination. A missing or
/// non-text field, like rejected key-combination text, is a configuration
/// error.
pub fn construct_plugin(kind: PluginKind, plugin_name: &String, cfg: &ConfigTable) -> (r: Result<
    PluginInstance,
    ClientError,
>)
    ensures
        (r matches Ok(_)) <==> kind_constructs(kind, *cfg),
        r matches Ok(inst) ==> {
            &&& inst@ == constructed_model(kind, *cfg)
            &&& inst.spec_hotkey_id() == Some(constructed_hotkey_id(kind, *cfg))
        },
        r matches Err(e) ==> match e {
            ClientError::BadPluginConfig { plugin, field } => {
                &&& plugin@ == plugin_name@
                &&& (field@ == "hotkey"@ && cfg.spec_text("hotkey"@) is None) || (field@
                    == "safe_scene_name"@ && cfg.spec_text("hotkey"@) is Some && cfg.spec_text(
                    "safe_scene_name"@,
                ) is None)
            },
            ClientError::BadHotkeySpec { plugin, .. } => {
                &&& plugin@ == plugin_name@
                &&& cfg.spec_text("safe_scene_name"@) is Some
                &&& (cfg.spec_text("hotkey"@) matches Some(h) && !hotkey_parses(h))
            },
            _ => false,
        },
{
    match kind {
        PluginKind::SwitchScene => {
            let hotkey_text = match cfg.get_text(&"hotkey".to_owned()) {
                Some(t) => t,
                None => {
                    return Err(
                        ClientError::BadPluginConfig {
                            plugin: plugin_name.clone(),
                            field: "hotkey".to_owned(),
                        },
                    );
                },
            };
            let safe_scene_name = match cfg.get_text(&"safe_scene_name".to_owned()) {
                Some(t) => t,
                None => {
                    return Err(
                        ClientError::BadPluginConfig {
                            plugin: plugin_name.clone(),
                            field: "safe_scene_name".to_owned(),
                        },
                    );
                },
            };
            let binding = match parse_hotkey(&hotkey_text) {
                Ok(b) => b,
                Err(e) => {
                    return Err(
                        ClientError::BadHotkeySpec { plugin: plugin_name.clone(), source: e },
                    );
                },
            };
            Ok(
                PluginInstance::SwitchScene(
                    SwitchScenePlugin {
                        binding,
                        safe_scene_name,
                        prev_scene_name: None,
                        output: String::new(),
                    },
                ),
            )
        },
    }
}

} // verus!
