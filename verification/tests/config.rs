//! Settings: what is remembered, and what follows from it.

use std::path::PathBuf;

use roommute::config::{
    config_path, log_dir, Config, ModelChoice, ModelFiles, PathPart, StoredConfig,
    DEFAULT_ATTENUATION_BITS, MAX_REMEMBERED, MODEL_ARCHIVE, MODEL_FOLDER, MODEL_GRAPH,
    MODEL_LEGACY,
};

/// A file that holds nothing.
fn nothing_stored() -> StoredConfig {
    StoredConfig {
        input_device: None,
        microphones: None,
        output_device: None,
        enabled: None,
        attenuation_bits: None,
        model_path: None,
        use_onnx: None,
        welcomed: None,
    }
}

fn no_files() -> ModelFiles {
    ModelFiles {
        configured: false,
        loose: false,
        archive: false,
        legacy: false,
    }
}

/// Shown once means once, including across a restart, so it has to be
/// written down rather than held in memory.
#[test]
fn the_welcome_is_remembered_as_seen() {
    let mut c = Config::default();
    assert!(!c.welcomed, "a fresh install has not seen it");
    c.welcomed = true;

    let stored = c.store();
    assert_eq!(stored.welcomed, Some(true));
    assert!(
        Config::parse(stored).welcomed,
        "reloading must not show it a second time"
    );
}

/// Someone upgrading has a config.toml with no such key. They have never
/// seen the welcome, so they should get it.
#[test]
fn a_config_from_before_this_key_still_gets_the_welcome() {
    let c = Config::parse(StoredConfig {
        microphones: Some(vec!["Yeti".into()]),
        ..nothing_stored()
    });
    assert!(!c.welcomed);
}

#[test]
fn preferring_a_microphone_moves_it_to_the_front() {
    let mut c = Config::default();
    c.prefer_microphone("A");
    c.prefer_microphone("B");
    assert_eq!(c.microphones, vec!["B", "A"]);

    // Choosing an existing one promotes rather than duplicates.
    c.prefer_microphone("A");
    assert_eq!(c.microphones, vec!["A", "B"]);
}

#[test]
fn the_remembered_list_does_not_grow_without_bound() {
    let mut c = Config::default();
    for i in 0..12 {
        c.prefer_microphone(&format!("mic {i}"));
    }
    assert_eq!(c.microphones.len(), 5);
    assert_eq!(c.microphones[0], "mic 11", "most recent first");
    assert_eq!(MAX_REMEMBERED, 5);
}

/// The CLI override and the tray both have to write where the pipeline
/// reads. Writing to the legacy single field made --mic a no-op.
#[test]
fn a_legacy_single_choice_becomes_the_first_preference() {
    let cfg = Config::parse(StoredConfig {
        input_device: Some("Microphone (fifine Microphone)".into()),
        enabled: Some(true),
        ..nothing_stored()
    });
    assert_eq!(cfg.microphones, vec!["Microphone (fifine Microphone)"]);
    assert!(cfg.input_device.is_empty(), "moved, not copied");

    // A list already present wins; the legacy field is not prepended on
    // top of it every time the file is read.
    let cfg = Config::parse(StoredConfig {
        input_device: Some("Old Mic".into()),
        microphones: Some(vec!["New Mic".into()]),
        ..nothing_stored()
    });
    assert_eq!(cfg.microphones, vec!["New Mic"]);
}

/// Everything the tray writes has to come back on the next launch.
#[test]
fn settings_survive_a_save_and_reload() {
    let mut saved = Config {
        microphones: vec!["Yeti".into(), "Webcam".into()],
        output_device: "CABLE Input".into(),
        enabled: false,
        attenuation_bits: 42.5f32.to_bits(),
        use_onnx: false,
        ..Config::default()
    };
    saved.prefer_microphone("Webcam");

    let loaded = Config::load::<String>(Some(Ok(saved.store()))).unwrap();
    assert_eq!(loaded.microphones, vec!["Webcam", "Yeti"]);
    assert_eq!(loaded.output_device, "CABLE Input");
    assert!(!loaded.enabled);
    assert!(!loaded.use_onnx);
    assert_eq!(f32::from_bits(loaded.attenuation_bits), 42.5);
}

/// A first run, and a file someone edited into nonsense. Neither may stop
/// the app starting — the tray is how you'd fix the config in the first
/// place.
#[test]
fn a_missing_file_is_defaults_and_a_broken_one_is_an_error() {
    let cfg = Config::load::<String>(None).unwrap();
    assert!(cfg.enabled && cfg.use_onnx, "defaults are on");

    let broken: Option<Result<StoredConfig, String>> = Some(Err("not a list".into()));
    assert_eq!(Config::load(broken.clone()).unwrap_err(), "not a list");
    assert!(Config::load_or_default(broken).enabled);
}

/// Config files predate every field added since; missing keys must fall
/// back rather than refusing to load.
#[test]
fn an_old_config_missing_new_keys_still_loads() {
    let cfg = Config::parse(StoredConfig {
        enabled: Some(true),
        ..nothing_stored()
    });
    assert!(cfg.use_onnx, "ONNX is the default for anyone upgrading");
    assert_eq!(f32::from_bits(cfg.attenuation_bits), 100.0);
    assert!(cfg.microphones.is_empty());
    assert_eq!(f32::from_bits(DEFAULT_ATTENUATION_BITS), 100.0);
}

fn path_of(parts: &[PathPart]) -> PathBuf {
    let mut path = PathBuf::new();
    for part in parts {
        match part {
            PathPart::ConfigDir => path.push("/home/someone/.config"),
            PathPart::Named(name) => path.push(name),
        }
    }
    path
}

#[test]
fn the_config_lives_somewhere_named_and_takes_the_logs_with_it() {
    for has_config_dir in [false, true] {
        let cfg = path_of(&config_path(has_config_dir));
        assert!(cfg.ends_with("RoomMute/config.toml") || cfg.ends_with(r"RoomMute\config.toml"));
        assert_eq!(
            path_of(&log_dir(has_config_dir)).parent(),
            cfg.parent(),
            "logs sit beside the config"
        );
    }
    assert_eq!(
        path_of(&config_path(false)),
        PathBuf::from("./RoomMute/config.toml")
    );
    assert_eq!(
        path_of(&log_dir(true)),
        PathBuf::from("/home/someone/.config/RoomMute/logs")
    );
}

/// A `model_path` pointing at a file that has been moved or deleted must
/// not disable the model outright.
#[test]
fn a_stale_model_path_falls_back_to_the_bundled_model() {
    let c = Config {
        model_path: "moved-away.onnx".into(),
        ..Config::default()
    };
    let beside = ModelFiles {
        archive: true,
        ..no_files()
    };
    assert_eq!(
        c.available_model(&beside),
        Some(ModelChoice::Archive),
        "a configured path that no longer exists should fall through to \
         what is shipped, not leave the user with no model"
    );
    assert_eq!(ModelChoice::Archive.file_name(), Some("dfn3_ours.tar.gz"));
}

/// What the installer actually lays down.
#[test]
fn a_model_directory_beside_the_exe_wins() {
    let files = ModelFiles {
        loose: true,
        archive: true,
        ..no_files()
    };
    assert_eq!(
        Config::default().available_model(&files),
        Some(ModelChoice::Loose),
        "loose files are what we ship; the archive is only for compatibility"
    );
    assert_eq!(ModelChoice::Loose.file_name(), Some("model"));
}

/// A bare `model` folder with nothing in it must not be mistaken for one.
#[test]
fn an_empty_model_folder_is_not_a_model() {
    let hollow = ModelFiles::found(false, &vec!["model".to_string()]);
    assert_eq!(Config::default().available_model(&hollow), None);

    let other = ModelFiles::found(false, &vec!["model".into(), "model/readme.txt".into()]);
    assert_eq!(Config::default().available_model(&other), None);
}

#[test]
fn what_lies_beside_the_executable_says_what_there_is() {
    assert_eq!(MODEL_FOLDER, "model");
    assert_eq!(MODEL_GRAPH, "model/enc.onnx");
    for (name, choice) in [
        (MODEL_GRAPH, ModelChoice::Loose),
        (MODEL_ARCHIVE, ModelChoice::Archive),
        (MODEL_LEGACY, ModelChoice::Legacy),
    ] {
        let files = ModelFiles::found(false, &vec!["roommute.exe".into(), name.into()]);
        assert_eq!(Config::default().available_model(&files), Some(choice));
    }
    let files = ModelFiles::found(true, &vec![]);
    assert!(files.configured && !files.loose && !files.archive && !files.legacy);
}

/// The export we build ourselves wins over a single-file `model.onnx` left
/// behind by an older install.
#[test]
fn the_bundled_export_is_preferred_over_a_legacy_model() {
    let files = ModelFiles {
        archive: true,
        legacy: true,
        ..no_files()
    };
    assert_eq!(
        Config::default().available_model(&files),
        Some(ModelChoice::Archive)
    );
}

#[test]
fn a_legacy_model_is_still_found_when_it_is_all_there_is() {
    let files = ModelFiles {
        legacy: true,
        ..no_files()
    };
    assert_eq!(
        Config::default().available_model(&files),
        Some(ModelChoice::Legacy),
        "installs from before the switch must keep working"
    );
    assert_eq!(ModelChoice::Legacy.file_name(), Some("model.onnx"));
}

#[test]
fn an_empty_directory_offers_no_model() {
    assert_eq!(Config::default().available_model(&no_files()), None);
}

/// The tray offers whatever `model_path` points at, but only if it is
/// really there — a stale path must fall back to RNNoise, not fail.
#[test]
fn a_model_is_only_offered_when_the_file_exists() {
    let c = Config {
        model_path: "dfn3.onnx".into(),
        ..Config::default()
    };
    let there = ModelFiles {
        configured: true,
        ..no_files()
    };
    assert_eq!(c.available_model(&there), Some(ModelChoice::Configured));
    assert_eq!(
        c.active_model(&there),
        Some(ModelChoice::Configured),
        "use_onnx defaults on"
    );
    assert!(
        c.available_model(&no_files()).is_none(),
        "a stale path with nothing beside it offers nothing"
    );
    assert_eq!(ModelChoice::Configured.file_name(), None);
    // An empty path is no path, whatever is said to be there.
    assert_eq!(Config::default().available_model(&there), None);
}

#[test]
fn an_onnx_model_is_only_active_when_switched_on() {
    let there = ModelFiles {
        configured: true,
        ..no_files()
    };
    let mut c = Config {
        model_path: "present.onnx".into(),
        use_onnx: false,
        ..Config::default()
    };
    assert!(c.active_model(&there).is_none(), "off means off");

    c.use_onnx = true;
    assert_eq!(
        c.active_model(&there),
        Some(ModelChoice::Configured),
        "on means the chosen model"
    );
}

// ---- more -----------------------------------------------------------------

#[test]
fn choosing_the_leader_again_changes_nothing() {
    let mut c = Config::default();
    for name in ["E", "D", "C", "B", "A"] {
        c.prefer_microphone(name);
    }
    let before = c.microphones.clone();
    c.prefer_microphone("A");
    assert_eq!(c.microphones, before);
    c.prefer_microphone("C");
    assert_eq!(c.microphones, vec!["C", "A", "B", "D", "E"]);
    c.prefer_microphone("F");
    assert_eq!(c.microphones, vec!["F", "C", "A", "B", "D"]);
}

#[test]
fn folding_happens_only_once() {
    let c = Config {
        input_device: "Old".into(),
        ..Config::default()
    };
    let once = c.fold_legacy();
    assert_eq!(once.microphones, vec!["Old"]);
    let twice = once.fold_legacy();
    assert_eq!(twice.microphones, vec!["Old"]);
    assert_eq!(twice.input_device, "");
}

#[test]
fn everything_stored_is_complete() {
    let stored = Config::default().store();
    assert_eq!(stored.input_device.as_deref(), Some(""));
    assert_eq!(stored.microphones, Some(vec![]));
    assert_eq!(stored.output_device.as_deref(), Some(""));
    assert_eq!(stored.enabled, Some(true));
    assert_eq!(stored.attenuation_bits, Some(DEFAULT_ATTENUATION_BITS));
    assert_eq!(stored.model_path.as_deref(), Some(""));
    assert_eq!(stored.use_onnx, Some(true));
    assert_eq!(stored.welcomed, Some(false));
}
