use obs_hotkeys::{
    construct_plugin, ClientAssembly, ClientError, ClientOptions, ConfigTable, ConfigValue,
    Dispatcher, PluginInstance, PluginKind, PluginRegistry, ServerOptions,
};

fn text_entry(key: &str, value: &str) -> (String, ConfigValue) {
    (key.to_string(), ConfigValue::Text(value.to_string()))
}

fn switch_scene_cfg(hotkey: &str, safe_scene: &str) -> ConfigTable {
    ConfigTable {
        entries: vec![
            text_entry("type", "switch_scene"),
            text_entry("hotkey", hotkey),
            text_entry("safe_scene_name", safe_scene),
        ],
    }
}

fn build_switch_scene(name: &str, hotkey: &str, safe_scene: &str) -> PluginInstance {
    construct_plugin(
        PluginKind::SwitchScene,
        &name.to_string(),
        &switch_scene_cfg(hotkey, safe_scene),
    )
    .expect("construction should succeed")
}

#[test]
fn config_table_get_text() {
    let cfg = ConfigTable {
        entries: vec![
            text_entry("hotkey", "Ctrl+Shift+S"),
            ("port".to_string(), ConfigValue::Integer(4455)),
        ],
    };
    assert_eq!(
        cfg.get_text(&"hotkey".to_string()),
        Some("Ctrl+Shift+S".to_string())
    );
    assert_eq!(cfg.get_text(&"missing".to_string()), None);
    assert_eq!(cfg.get_text(&"port".to_string()), None);
}

#[test]
fn registry_builtins_and_lookup() {
    let registry = PluginRegistry::with_builtins();
    assert!(matches!(
        registry.lookup(&"switch_scene".to_string()),
        Some(PluginKind::SwitchScene)
    ));
    assert!(registry.lookup(&"does_not_exist".to_string()).is_none());

    let mut own = PluginRegistry::new();
    assert!(own.lookup(&"switch_scene".to_string()).is_none());
    own.register("switch_scene".to_string(), PluginKind::SwitchScene);
    assert!(matches!(
        own.lookup(&"switch_scene".to_string()),
        Some(PluginKind::SwitchScene)
    ));
}

#[test]
fn construct_reads_configuration() {
    let inst = build_switch_scene("safe", "Ctrl+Shift+S", "SAFE");
    assert_eq!(inst.name(), "switch_scene".to_string());
    assert_eq!(inst.latest_output(), String::new());
    assert!(inst.hotkey().is_some());
}

#[test]
fn construct_missing_hotkey_field() {
    let cfg = ConfigTable {
        entries: vec![text_entry("safe_scene_name", "SAFE")],
    };
    let r = construct_plugin(PluginKind::SwitchScene, &"p".to_string(), &cfg);
    match r {
        Err(ClientError::BadPluginConfig { plugin, field }) => {
            assert_eq!(plugin, "p".to_string());
            assert_eq!(field, "hotkey".to_string());
        }
        _ => panic!("expected a missing-field error"),
    }
}

#[test]
fn construct_missing_safe_scene_field() {
    let cfg = ConfigTable {
        entries: vec![text_entry("hotkey", "Ctrl+Shift+S")],
    };
    let r = construct_plugin(PluginKind::SwitchScene, &"p".to_string(), &cfg);
    match r {
        Err(ClientError::BadPluginConfig { plugin, field }) => {
            assert_eq!(plugin, "p".to_string());
            assert_eq!(field, "safe_scene_name".to_string());
        }
        _ => panic!("expected a missing-field error"),
    }
}

#[test]
fn construct_unparsable_hotkey() {
    let cfg = ConfigTable {
        entries: vec![
            text_entry("hotkey", "Ctrl+NotAKey+Q+X"),
            text_entry("safe_scene_name", "SAFE"),
        ],
    };
    let r = construct_plugin(PluginKind::SwitchScene, &"p".to_string(), &cfg);
    match r {
        Err(e @ ClientError::BadHotkeySpec { .. }) => {
            assert!(e
                .message()
                .contains("bad plugin configuration for p: unparsable hotkey"));
        }
        _ => panic!("expected a hotkey parse error"),
    }
}

#[test]
fn hotkey_ids_depend_on_the_combination() {
    let a = build_switch_scene("a", "Ctrl+Shift+S", "SAFE");
    let b = build_switch_scene("b", "Ctrl+Shift+D", "SAFE");
    let again = build_switch_scene("c", "Ctrl+Shift+S", "OTHER");
    let id_a = a.hotkey().unwrap().id;
    let id_b = b.hotkey().unwrap().id;
    let id_again = again.hotkey().unwrap().id;
    assert_ne!(id_a, id_b);
    assert_eq!(id_a, id_again);
}

#[test]
fn toggle_round_trip() {
    let mut inst = build_switch_scene("safe", "Ctrl+Shift+S", "SAFE");

    let first = inst.execute_plan("Gameplay".to_string());
    assert_eq!(first, "SAFE".to_string());
    assert_eq!(
        inst.latest_output(),
        "Active SAFE! from Gameplay to SAFE".to_string()
    );

    let second = inst.execute_plan("SAFE".to_string());
    assert_eq!(second, "Gameplay".to_string());
    assert_eq!(
        inst.latest_output(),
        "Switch back from SAFE to Gameplay".to_string()
    );

    let third = inst.execute_plan("Studio".to_string());
    assert_eq!(third, "SAFE".to_string());
}

#[test]
fn assembly_partitions_and_keeps_ids() {
    let mut built = ClientAssembly::new();
    let a = build_switch_scene("a", "Ctrl+Shift+S", "SAFE");
    let b = build_switch_scene("b", "Ctrl+Shift+D", "SAFE");
    let id_a = a.hotkey().unwrap().id;
    let id_b = b.hotkey().unwrap().id;

    built
        .place_hotkey(&"a".to_string(), a, Ok(()))
        .expect("first placement succeeds");
    built
        .place_hotkey(&"b".to_string(), b, Ok(()))
        .expect("second placement succeeds");

    assert_eq!(built.backgrounds.len(), 0);
    assert_eq!(built.hotkey_plugins.len(), 2);
    let keys: Vec<u32> = built.hotkey_plugins.iter().map(|e| e.0).collect();
    assert_eq!(keys, vec![id_a, id_b]);
    for (key, inst) in &built.hotkey_plugins {
        assert_eq!(*key, inst.hotkey().unwrap().id);
    }
}

#[test]
fn skipped_entry_is_in_neither_collection() {
    let registry = PluginRegistry::with_builtins();
    let bogus_cfg = ConfigTable {
        entries: vec![text_entry("type", "does_not_exist")],
    };
    let type_id = bogus_cfg.get_text(&"type".to_string()).unwrap();

    let mut built = ClientAssembly::new();
    match registry.lookup(&type_id) {
        None => built.record_skip("bogus".to_string()),
        Some(_) => panic!("an unknown type-id must not resolve"),
    }

    assert_eq!(built.backgrounds.len(), 0);
    assert_eq!(built.hotkey_plugins.len(), 0);
    assert_eq!(built.skipped, vec!["bogus".to_string()]);
}

#[test]
fn refused_registration_is_fatal() {
    let mut built = ClientAssembly::new();
    let inst = build_switch_scene("safe", "Ctrl+Shift+S", "SAFE");
    let refusal = global_hotkey::Error::FailedToRegister("already bound".to_string());

    let r = built.place_hotkey(&"safe".to_string(), inst, Err(refusal));
    match r {
        Err(e @ ClientError::HotkeyRegistration { .. }) => {
            assert_eq!(
                e.message(),
                "could not register the hotkey for safe".to_string()
            );
        }
        _ => panic!("expected a registration error"),
    }
    assert_eq!(built.hotkey_plugins.len(), 0);
    assert_eq!(built.backgrounds.len(), 0);
}

#[test]
fn duplicate_id_is_fatal() {
    let mut built = ClientAssembly::new();
    let first = build_switch_scene("one", "Ctrl+Shift+S", "SAFE");
    let second = build_switch_scene("two", "Ctrl+Shift+S", "OTHER");
    let id = first.hotkey().unwrap().id;

    built
        .place_hotkey(&"one".to_string(), first, Ok(()))
        .expect("first placement succeeds");
    let r = built.place_hotkey(&"two".to_string(), second, Ok(()));
    match r {
        Err(ClientError::DuplicateHotkeyId { plugin, id: dup }) => {
            assert_eq!(plugin, "two".to_string());
            assert_eq!(dup, id);
        }
        _ => panic!("expected a duplicate-id error"),
    }
    assert_eq!(built.hotkey_plugins.len(), 1);
}

#[test]
fn dispatch_scenario_safe_switch() {
    // server = {host: 127.0.0.1, port: 4455},
    // plugin.safe = {type: switch_scene, hotkey: Ctrl+Shift+S,
    //                safe_scene_name: SAFE}; the current scene is Gameplay.
    let options = ClientOptions {
        server: ServerOptions {
            host: "127.0.0.1".to_string(),
            port: 4455,
            password: None,
        },
        plugins: vec![("safe".to_string(), switch_scene_cfg("Ctrl+Shift+S", "SAFE"))],
    };
    let registry = PluginRegistry::with_builtins();

    let mut built = ClientAssembly::new();
    let (name, cfg) = &options.plugins[0];
    let type_id = cfg.get_text(&"type".to_string()).unwrap();
    let kind = registry.lookup(&type_id).expect("switch_scene is registered");
    let inst = construct_plugin(kind, name, cfg).expect("construction succeeds");
    let id = inst.hotkey().unwrap().id;
    built
        .place_hotkey(name, inst, Ok(()))
        .expect("registration outcome is success");
    assert_eq!(built.hotkey_plugins.len(), 1);
    assert_eq!(built.backgrounds.len(), 0);
    assert_eq!(built.skipped.len(), 0);

    let mut dispatcher = Dispatcher::new(built.hotkey_plugins);

    assert!(dispatcher.on_event(id));
    let target = dispatcher.plan_action("Gameplay".to_string());
    assert_eq!(target, "SAFE".to_string());
    let output = dispatcher.finish();
    assert!(output.contains("Gameplay"));
    assert!(output.contains("SAFE"));

    assert!(dispatcher.on_event(id));
    let target = dispatcher.plan_action("SAFE".to_string());
    assert_eq!(target, "Gameplay".to_string());
    let output = dispatcher.finish();
    assert_eq!(output, "Switch back from SAFE to Gameplay".to_string());
}

#[test]
fn dispatch_serializes_back_to_back_events() {
    let one = build_switch_scene("one", "Ctrl+Shift+S", "SAFE");
    let two = build_switch_scene("two", "Ctrl+Shift+D", "BRB");
    let id_one = one.hotkey().unwrap().id;
    let id_two = two.hotkey().unwrap().id;
    let mut dispatcher = Dispatcher::new(vec![(id_one, one), (id_two, two)]);

    // Two events delivered back to back: the first execution runs to
    // completion, through `finish`, before the second may begin.
    assert!(dispatcher.on_event(id_one));
    let first_target = dispatcher.plan_action("Gameplay".to_string());
    let first_output = dispatcher.finish();

    assert!(dispatcher.on_event(id_two));
    let second_target = dispatcher.plan_action(first_target.clone());
    let second_output = dispatcher.finish();

    assert_eq!(first_target, "SAFE".to_string());
    assert_eq!(second_target, "BRB".to_string());
    assert_eq!(first_output, "Active SAFE! from Gameplay to SAFE".to_string());
    assert_eq!(second_output, "Active SAFE! from SAFE to BRB".to_string());
}

#[test]
fn unknown_event_id_is_ignored() {
    let inst = build_switch_scene("safe", "Ctrl+Shift+S", "SAFE");
    let id = inst.hotkey().unwrap().id;
    let mut dispatcher = Dispatcher::new(vec![(id, inst)]);

    let foreign = id.wrapping_add(1);
    assert!(!dispatcher.on_event(foreign));
    assert!(dispatcher.on_event(id));
}

#[test]
fn error_messages_name_the_plugin() {
    let missing = ClientError::BadPluginConfig {
        plugin: "overlay".to_string(),
        field: "hotkey".to_string(),
    };
    assert_eq!(
        missing.message(),
        "bad plugin configuration for overlay: missing or malformed field hotkey".to_string()
    );

    let dup = ClientError::DuplicateHotkeyId {
        plugin: "overlay".to_string(),
        id: 7,
    };
    assert_eq!(
        dup.message(),
        "hotkey id already in the table, for overlay".to_string()
    );
}
