//! The plugin capability and the reference scene-switch plugin.
//!
//! A plugin instance owns its configuration-derived state and the runtime
//! state its execution needs. Execution itself alternates remote calls with
//! decisions; the surrounding program performs the remote calls and the
//! instance decides, through `execute_plan`, which scene to activate and how
//! its state and latest output change.

use crate::hotkey::HotkeyBinding;
use vstd::prelude::*;
use vstd::string::StringExecFns;

verus! {

/// The mathematical state of a scene-switch plugin: the designated safe
/// scene, the remembered previous scene (present exactly in the "armed"
/// state), and the latest human-readable output.
pub struct SwitchModel {
    pub safe: Seq<char>,
    pub prev: Option<Seq<char>>,
    pub output: Seq<char>,
}

/// The scene a switch plugin activates when triggered while the current
/// scene is `current`: the remembered scene when armed, the safe scene
/// otherwise.
pub open spec fn switch_target(m: SwitchModel, current: Seq<char>) -> Seq<char> {
    match m.prev {
        Some(p) => p,
        None => m.safe,
    }
}

/// The output text after arming: the transition from `from` to `to`.
pub open spec fn armed_output(from: Seq<char>, to: Seq<char>) -> Seq<char> {
    "Active SAFE! from "@ + from + " to "@ + to
}

/// The output text after switching back: the transition from `from` to `to`.
pub open spec fn restored_output(from: Seq<char>, to: Seq<char>) -> Seq<char> {
    "Switch back from "@ + from + " to "@ + to
}

/// The state of a switch plugin after one triggered execution while the
/// current scene is `current`: unarmed becomes armed and remembers
/// `current`; armed becomes unarmed and forgets.
pub open spec fn switch_next(m: SwitchModel, current: Seq<char>) -> SwitchModel {
    match m.prev {
        Some(p) => SwitchModel { safe: m.safe, prev: None, output: restored_output(current, p) },
        None => SwitchModel {
            safe: m.safe,
            prev: Some(current),
            output: armed_output(current, m.safe),
        },
    }
}

/// Toggle law: from the unarmed state, one execution activates the safe
/// scene and arms; a second execution activates the scene that was current
/// before the first, and the plugin is unarmed again, as it began.
pub proof fn lemma_toggle_round_trip(m: SwitchModel, first: Seq<char>, second: Seq<char>)
    requires
        m.prev is None,
    ensures
        ({
            let m1 = switch_next(m, first);
            let m2 = switch_next(m1, second);
            &&& switch_target(m, first) == m.safe
            &&& m1.prev == Some(first)
            &&& switch_target(m1, second) == first
            &&& m2.prev is None
            &&& m2.safe == m.safe
        }),
{
}

/// The reference plugin: a two-state "switch scene / switch back" action.
pub struct SwitchScenePlugin {
    pub binding: HotkeyBinding,
    pub safe_scene_name: String,
    pub prev_scene_name: Option<String>,
    pub output: String,
}

impl View for SwitchScenePlugin {
    type V = SwitchModel;

    open spec fn view(&self) -> SwitchModel {
        SwitchModel {
            safe: self.safe_scene_name@,
            prev: match self.prev_scene_name {
                Some(p) => Some(p@),
                None => None,
            },
            output: self.output@,
        }
    }
}

impl SwitchScenePlugin {
    /// One triggered execution, given the scene that is currently active:
    /// returns the scene to activate and moves the toggle one step.
    pub fn execute_plan(&mut self, current_scene: String) -> (target: String)
        ensures
            target@ == switch_target(old(self)@, current_scene@),
            final(self)@ == switch_next(old(self)@, current_scene@),
            final(self).binding == old(self).binding,
    {
        match &self.prev_scene_name {
            Some(p) => {
                let target = p.clone();
                let mut out = "Switch back from ".to_owned();
                out.append(current_scene.as_str());
                out.append(" to ");
                out.append(target.as_str());
                self.output = out;
                self.prev_scene_name = None;
                target
            },
            None => {
                let target = self.safe_scene_name.clone();
                let mut out = "Active SAFE! from ".to_owned();
                out.append(current_scene.as_str());
                out.append(" to ");
                out.append(target.as_str());
                self.output = out;
                self.prev_scene_name = Some(current_scene);
                target
            },
        }
    }
}

/// A configured plugin instance: the tagged union over the plugin types the
/// registry knows. Exactly one variant exists today.
pub enum PluginInstance {
    SwitchScene(SwitchScenePlugin),
}

/// The mathematical state of a plugin instance.
pub enum PluginModel {
    SwitchScene(SwitchModel),
}

impl View for PluginInstance {
    type V = PluginModel;

    open spec fn view(&self) -> PluginModel {
        match self {
            PluginInstance::SwitchScene(p) => PluginModel::SwitchScene(p@),
        }
    }
}

/// The scene a plugin instance activates when executed while `current` is
/// the active scene.
pub open spec fn plan_target(m: PluginModel, current: Seq<char>) -> Seq<char> {
    match m {
        PluginModel::SwitchScene(sm) => switch_target(sm, current),
    }
}

/// The state of a plugin instance after one execution while `current` is
/// the active scene.
pub open spec fn plan_next(m: PluginModel, current: Seq<char>) -> PluginModel {
    match m {
        PluginModel::SwitchScene(sm) => PluginModel::SwitchScene(switch_next(sm, current)),
    }
}

/// The latest output of a plugin instance.
pub open spec fn model_output(m: PluginModel) -> Seq<char> {
    match m {
        PluginModel::SwitchScene(sm) => sm.output,
    }
}

impl PluginInstance {
    /// The key combination this instance is bound to, or `None` for a
    /// background instance. Stable: derived from construction-time state.
    pub open spec fn spec_binding(self) -> Option<HotkeyBinding> {
        match self {
            PluginInstance::SwitchScene(p) => Some(p.binding),
        }
    }

    /// The id of the bound key combination, or `None` for a background
    /// instance.
    pub open spec fn spec_hotkey_id(self) -> Option<u32> {
        match self.spec_binding() {
            Some(b) => Some(b.id),
            None => None,
        }
    }

    pub fn hotkey(&self) -> (r: Option<HotkeyBinding>)
        ensures
            r == self.spec_binding(),
    {
        match self {
            PluginInstance::SwitchScene(p) => Some(p.binding),
        }
    }

    /// The stable, human-readable identifier of this instance's plugin type.
    pub fn name(&self) -> (r: String)
        ensures
            r@ == self.spec_name(),
    {
        match self {
            PluginInstance::SwitchScene(_) => "switch_scene".to_owned(),
        }
    }

    pub open spec fn spec_name(self) -> Seq<char> {
        match self {
            PluginInstance::SwitchScene(_) => "switch_scene"@,
        }
    }

    /// The most recent human-readable result of an execution; empty before
    /// the first one.
    pub fn latest_output(&self) -> (r: String)
        ensures
            r@ == model_output(self@),
    {
        match self {
            PluginInstance::SwitchScene(p) => p.output.clone(),
        }
    }

    /// One triggered execution, given the currently active scene: returns
    /// the scene to activate and advances the instance's state.
    pub fn execute_plan(&mut self, current_scene: String) -> (target: String)
        ensures
            target@ == plan_target(old(self)@, current_scene@),
            final(self)@ == plan_next(old(self)@, current_scene@),
            final(self).spec_binding() == old(self).spec_binding(),
    {
        match self {
            PluginInstance::SwitchScene(p) => p.execute_plan(current_scene),
        }
    }
}

} // verus!
