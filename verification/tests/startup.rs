//! The command line, and what becomes of a launch.

use roommute::cli::{is_number, offline_model, parse_args_from, CliArgs, HELP};
use roommute::config::Config;
use roommute::devices::{Device, DeviceDirection, DeviceList};
use roommute::error::{AudioError, StartError};
use roommute::pipeline::{wire, DspState, DspStep};
use roommute::resources::ProcessMeter;
use roommute::startup::{
    acquire, apply_mic, launch, list_devices, resolve_mic_by_substring, startup, AlreadyRunning,
    Launch, Lock, MutexOutcome, Startup,
};
use roommute::tray::TrayState;
use roommute::watchdog::{elapsed, FailureLog, Health, HealthAction};

fn parse(args: &[&str]) -> CliArgs {
    parse_args_from(&args.iter().map(|s| s.to_string()).collect())
}

#[test]
fn rnnoise_can_be_forced_for_comparison() {
    assert_eq!(
        offline_model(None, Some("configured.tar.gz".to_string()), true),
        None,
        "--rnnoise has to reach the built-in backend even when a model is configured"
    );
    assert!(parse(&["--rnnoise"]).rnnoise);
}

#[test]
fn denoise_falls_back_to_the_configured_model() {
    let configured = Some(std::path::PathBuf::from("beside-the-exe.tar.gz"));

    assert_eq!(
        offline_model(None, configured.clone(), false),
        configured,
        "without --model, offline denoising must use the same model as the tray"
    );
}

#[test]
fn an_explicit_model_flag_wins_over_the_config() {
    assert_eq!(
        offline_model(
            Some(std::path::PathBuf::from("chosen.onnx")),
            Some("configured.tar.gz".into()),
            false
        ),
        Some(std::path::PathBuf::from("chosen.onnx"))
    );
}

#[test]
fn no_flag_and_no_config_means_the_built_in_fallback() {
    assert_eq!(offline_model::<String>(None, None, false), None);
}

#[test]
fn cli_parses_mic_in_both_spellings() {
    // `--mic X` and `--mic=X` must resolve identically, and unknown flags
    // stay ignored rather than being swallowed as a device name.
    let split = parse(&["--mic", "Yeti"]);
    let joined = parse(&["--mic=Yeti"]);
    assert_eq!(split.mic.as_deref(), Some("Yeti"));
    assert_eq!(joined.mic.as_deref(), Some("Yeti"));

    let listed = parse(&["--list-devices", "--nonsense"]);
    assert!(listed.list_devices);
    assert!(listed.mic.is_none());
}

#[test]
fn cli_parses_the_two_argument_flags() {
    let a = parse(&["--record", "60", "out.wav"]);
    let (seconds, path) = a.record.unwrap();
    assert_eq!(seconds.parse::<f32>().unwrap(), 60.0);
    assert_eq!(path, "out.wav");

    let b = parse(&["--denoise", "in.wav", "out.wav"]);
    assert_eq!(b.denoise, Some(("in.wav".into(), "out.wav".into())));

    let c = parse(&["--model", "m.onnx", "--atten", "12.5"]);
    assert_eq!(c.model.as_deref(), Some("m.onnx"));
    assert_eq!(c.atten.unwrap().parse::<f32>().unwrap(), 12.5);

    for flag in ["-h", "--help"] {
        assert!(parse(&[flag]).help);
    }
}

/// Nothing here should ever consume the *next* flag as a value, and a
/// duration that isn't a number must not silently become a no-op recording.
#[test]
fn cli_does_not_invent_values_for_incomplete_flags() {
    assert!(parse(&["--record", "abc", "out.wav"]).record.is_none());
    assert!(parse(&["--record", "60"]).record.is_none());
    assert!(parse(&["--denoise", "only-one.wav"]).denoise.is_none());
    assert!(parse(&["--atten", "loud"]).atten.is_none());
    assert!(parse(&["--mic"]).mic.is_none());

    // Empty command line: the tray launch. Everything off.
    let none = parse(&[]);
    assert!(!none.help && !none.list_devices);
    assert!(none.mic.is_none() && none.record.is_none() && none.denoise.is_none());
}

/// The help text is the only documentation most people will read, and it
/// once advertised config keys (`input_device_id`) that no longer existed.
/// Tie it to the struct that actually gets parsed.
#[test]
fn help_describes_the_config_keys_that_exist() {
    let help = HELP;
    let cfg = format!("{:?}", Config::default());
    for key in ["microphones", "output_device", "enabled", "use_onnx"] {
        assert!(cfg.contains(key), "{key} is not a real config key any more");
        assert!(help.contains(key), "help does not mention `{key}`");
    }
    assert!(
        !help.contains("device_id"),
        "help still advertises id-based config; devices are named now"
    );
    for flag in ["--list-devices", "--mic", "--record", "--denoise"] {
        assert!(help.contains(flag), "help does not mention {flag}");
    }
}

/// Subtracting from a fresh clock panics when the machine has been up for less
/// than the offset, and RoomMute starts at login, so boot is exactly when that
/// happens. Here the clock stands at zero throughout.
#[test]
fn no_time_arithmetic_on_a_fresh_instant() {
    assert_eq!(elapsed(60_000_000_000, 0), 0);

    let mut health = Health::new_at(0);
    assert_eq!(health.observe(0, 0, 0), HealthAction::default());
    assert_eq!(health.observe_stopped(0), HealthAction::default());
    assert!(FailureLog::default().should_report("no microphone", 0));

    let (_sink, mut stage, mut source) = wire(0);
    assert!(source.on_underrun(0), "never logged, so it reports at once");
    let frame = [0u32; 480];
    for _ in 0..8 {
        stage.deliver(frame, 0);
    }
    assert!(stage.deliver(frame, 0).report);
    assert!(matches!(
        DspState::new(0).on_popped(None, false, 0),
        DspStep::Wait { gap_ms: None }
    ));
    assert!(ProcessMeter::new().sample(0, Some(0)).is_none());
    assert!(!TrayState::new(Config::default(), None, None, 0).tooltip_due(0));
}

/// The whole point of the feature: the second tray must lose, and the
/// name must free up once the winner exits.
#[test]
fn only_one_holder_at_a_time() {
    let mut held = false;
    let mut ask = |held: &mut bool| {
        let outcome = if *held {
            MutexOutcome::Existed
        } else {
            MutexOutcome::Created
        };
        let lock = acquire(outcome);
        if lock.is_ok() {
            *held = true;
        }
        lock
    };
    let first = ask(&mut held).expect("nothing else holds the test name");
    assert!(first.open);
    assert_eq!(
        ask(&mut held),
        Err(AlreadyRunning),
        "a second instance must bow out"
    );

    held = false;
    assert!(
        ask(&mut held).is_ok(),
        "the name must be reusable after the holder exits, or a crash \
         would lock the user out until they log off"
    );
}

/// When the mutex could not be created at all, we start anyway, and there is
/// nothing to close in the end.
#[test]
fn dropping_a_lock_we_never_opened_is_harmless() {
    assert_eq!(acquire(MutexOutcome::Failed), Ok(Lock { open: false }));
}

// ---- more -----------------------------------------------------------------

#[test]
fn numbers_are_what_the_standard_library_parses() {
    for s in [
        "", "+", "-", ".", "1", "-1", "+1", "1.", ".5", "1.5", "1e5", "1e+5", "1e-5", "1E5", "1e",
        "1e+", "e5", ".e5", "1.5e3", "1.5e3.2", "inf", "-inf", "+Infinity", "INFINITY", "nan",
        "NaN", "-nan", "infi", "nano", " 1", "1 ", "0x10", "1_000", "--1", "60", "abc", "loud",
        "12.5", "1..2", "٣",
    ] {
        assert_eq!(is_number(s), s.parse::<f32>().is_ok(), "{s:?}");
    }
}

#[test]
fn an_option_is_never_taken_as_a_value() {
    let a = parse(&["--mic", "--list-devices"]);
    assert!(a.mic.is_none());
    assert!(a.list_devices);
    for flag in ["--mic", "--model", "--atten", "--record", "--denoise"] {
        let p = parse(&[flag, "-h"]);
        assert!(p.help, "{flag}");
        assert!(p.mic.is_none() && p.model.is_none() && p.atten.is_none());
        assert!(p.record.is_none() && p.denoise.is_none());
    }
    let b = parse(&["--record", "60", "--rnnoise", "out.wav"]);
    assert!(b.record.is_none() && b.rnnoise);
    let c = parse(&["--denoise", "in.wav", "--model", "m.onnx"]);
    assert!(c.denoise.is_none());
    assert_eq!(c.model.as_deref(), Some("m.onnx"));
    let d = parse(&["--model", "--mic=Yeti", "--atten", "--record", "1", "a.wav"]);
    assert!(d.model.is_none() && d.atten.is_none());
    assert_eq!(d.mic.as_deref(), Some("Yeti"));
    assert_eq!(d.record, Some(("1".into(), "a.wav".into())));
    // An unknown option is an option too.
    let e = parse(&["--mic", "--nonsense", "--mic=--odd"]);
    assert_eq!(e.mic.as_deref(), Some("--odd"));
    assert!(parse(&["--mic", "--nonsense"]).mic.is_none());
    // One dash is not: numbers are negative with it.
    assert_eq!(parse(&["--atten", "-6"]).atten.as_deref(), Some("-6"));
}

#[test]
fn the_last_complete_request_counts() {
    let b = parse(&["--mic=", "--mic=x", "--mic"]);
    assert!(b.mic.is_none(), "the last one counts");
    let c = parse(&["--record", "abc", "out.wav", "--record", "1", "b.wav"]);
    assert_eq!(c.record, Some(("1".into(), "b.wav".into())));
    let d = parse(&["--record", "1", "a.wav", "--record", "x", "b.wav"]);
    assert!(d.record.is_none());
    let e = parse(&["--denoise", "a", "b", "--denoise", "c"]);
    assert_eq!(e.denoise, Some(("a".into(), "b".into())));
}

#[test]
fn the_first_thing_asked_for_is_done() {
    assert_eq!(launch(&parse(&[])), Launch::Tray);
    assert_eq!(launch(&parse(&["--mic", "x"])), Launch::Tray);
    assert_eq!(launch(&parse(&["--record", "1", "a"])), Launch::Record);
    assert_eq!(
        launch(&parse(&["--record", "1", "a", "--denoise", "b", "c"])),
        Launch::Denoise
    );
    assert_eq!(
        launch(&parse(&["--denoise", "b", "c", "--list-devices"])),
        Launch::ListDevices
    );
    assert_eq!(launch(&parse(&["--list-devices", "-h"])), Launch::Help);
}

fn device(name: &str, direction: DeviceDirection, is_default: bool) -> Device {
    Device {
        id: format!("id-{name}"),
        friendly_name: name.into(),
        direction,
        is_default,
    }
}

fn machine() -> DeviceList {
    DeviceList {
        capture: vec![
            device("USB Mic One", DeviceDirection::Capture, true),
            device("Usb mic Two", DeviceDirection::Capture, false),
            device("Headset", DeviceDirection::Capture, false),
        ],
        render: vec![
            device("Speakers", DeviceDirection::Render, true),
            device(
                "CABLE Input (VB-Audio Virtual Cable)",
                DeviceDirection::Render,
                false,
            ),
        ],
    }
}

#[test]
fn devices_are_listed_with_their_marks() {
    assert_eq!(
        list_devices(&machine()),
        "Capture (input) devices:\n\
         \x20 - USB Mic One [default]\n    id: id-USB Mic One\n\
         \x20 - Usb mic Two\n    id: id-Usb mic Two\n\
         \x20 - Headset\n    id: id-Headset\n\
         \nRender (output) devices:\n\
         \x20 - Speakers [default]\n    id: id-Speakers\n\
         \x20 - CABLE Input (VB-Audio Virtual Cable)  [VB-Cable]\n    \
         id: id-CABLE Input (VB-Audio Virtual Cable)\n"
    );
}

#[test]
fn a_microphone_is_found_by_part_of_its_name_or_not_guessed() {
    let list = Ok(machine());
    assert_eq!(
        resolve_mic_by_substring(&list, "HEAD"),
        Ok("Headset".to_string())
    );
    assert_eq!(
        resolve_mic_by_substring(&list, "nothing"),
        Err("no capture device matched".to_string())
    );
    assert_eq!(
        resolve_mic_by_substring(&list, "usb"),
        Err(
            "ambiguous: 2 devices matched (USB Mic One, Usb mic Two). Refine the substring."
                .to_string()
        )
    );
    assert_eq!(
        resolve_mic_by_substring(&Err(AudioError::Stalled), "usb"),
        Err("the audio device stopped delivering audio".to_string())
    );
}

#[test]
fn an_override_leads_and_is_refused_when_it_matches_nothing() {
    let mut cfg = Config {
        microphones: vec!["USB Mic One".into()],
        ..Config::default()
    };
    let list = Ok(machine());
    apply_mic(&mut cfg, &list, None).unwrap();
    assert_eq!(cfg.microphones, vec!["USB Mic One"]);
    apply_mic(&mut cfg, &list, Some("headset")).unwrap();
    assert_eq!(cfg.microphones, vec!["Headset", "USB Mic One"]);
    assert_eq!(
        apply_mic(&mut cfg, &list, Some("x y")).unwrap_err(),
        "--mic 'x y' did not match any input device: no capture device matched"
    );
    assert_eq!(cfg.microphones, vec!["Headset", "USB Mic One"]);
}

#[test]
fn a_missing_cable_ends_the_launch_and_anything_else_shows_the_tray() {
    assert!(matches!(startup(Ok(7)), Startup::Running(7)));
    let missing = StartError::audio(AudioError::VirtualCableMissing).context("starting");
    assert!(matches!(startup::<u8>(Err(missing)), Startup::CableMissing));
    match startup::<u8>(Err(StartError::message("no microphone is available"))) {
        Startup::Problem(problem) => assert_eq!(
            problem.message,
            "RoomMute is running, but audio isn't:\n\nno microphone is available"
        ),
        other => panic!("{other:?}"),
    }
}
