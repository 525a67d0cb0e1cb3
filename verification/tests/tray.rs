//! The tray: its menu, its icon, its tooltip, and what clicks do.

use roommute::config::{Config, ModelChoice, ModelFiles};
use roommute::devices::{Device, DeviceDirection, DeviceList};
use roommute::error::{AudioError, StartError};
use roommute::icon::{icon_rgba, ACTIVE, BYPASSED, CLEAR, DARK, ICON_SIZE};
use roommute::menu::{
    build_menu, choose_denoiser, choose_microphone, default_entry, mic_entry, model_entry, Items,
    MenuId, ModelOffer,
};
use roommute::pipeline::pick_devices;
use roommute::startup::StartupProblem;
use roommute::tray::{
    backend, initial_tooltip, status_text, tooltip_text, Backend, Command, DenoiserChoice,
    IconState, TrayEvent, TrayState, TOOLTIP_EVERY,
};
use roommute::watchdog::{RECOVERY_INTERVAL, STALL_AFTER};

#[test]
fn system_default_mic_is_marked_in_the_label() {
    // Unranked entries are padded so their names line up under ranked ones.
    let (label, enabled) = mic_entry("Yeti", false, None, None);
    assert_eq!(label.trim(), "Yeti");
    assert!(
        !label.trim_start().starts_with(char::is_numeric),
        "no rank: {label}"
    );
    assert!(enabled);

    let (label, enabled) = mic_entry("Yeti", true, None, Some(0));
    assert!(label.contains("Yeti") && label.contains("system default"));
    assert!(
        label.trim_start().starts_with("1."),
        "rank should lead: {label}"
    );
    assert!(enabled);
}

/// Selecting a cable's output would have RoomMute record from the cable
/// it writes to. Not selectable, and the menu says why.
#[test]
fn a_cables_own_output_cannot_be_chosen_as_the_microphone() {
    let (label, enabled) = mic_entry(
        "CABLE Output (VB-Audio Virtual Cable)",
        false,
        Some("VB-Cable"),
        None,
    );
    assert!(!enabled, "must be greyed out");
    assert!(label.contains("loop"), "should say why: {label}");
    assert!(
        label.contains("VB-Cable"),
        "should name the product: {label}"
    );
}

/// The trap that actually bit: installing a cable makes it the system
/// default, so "Windows default" silently becomes the looping choice.
#[test]
fn windows_default_is_disabled_when_the_default_is_a_cable() {
    let (label, enabled) = default_entry(None);
    assert_eq!(label, "Windows default");
    assert!(enabled);

    let (label, enabled) = default_entry(Some("VB-Cable"));
    assert!(!enabled, "following the default would loop here");
    assert!(
        label.contains("VB-Cable") && label.contains("loop"),
        "{label}"
    );
}

/// A cable being present must not disable ordinary microphones.
#[test]
fn real_microphones_stay_selectable_alongside_a_cable() {
    let (_, enabled) = mic_entry("Microphone (fifine Microphone)", true, None, Some(1));
    assert!(enabled);
}

fn count(px: &[u8], colour: [u8; 4]) -> usize {
    px.chunks(4).filter(|p| *p == colour).count()
}

#[test]
fn every_icon_is_the_size_tray_icon_expects() {
    for enabled in [false, true] {
        for warning in [false, true] {
            assert_eq!(icon_rgba(enabled, warning).len(), ICON_SIZE * ICON_SIZE * 4);
        }
    }
}

#[test]
fn on_and_off_are_different_colours_not_just_different_brightness() {
    let on = icon_rgba(true, false);
    let off = icon_rgba(false, false);
    assert_ne!(on, off);
    assert!(count(&on, ACTIVE) > 400 && count(&on, BYPASSED) == 0);
    assert!(count(&off, BYPASSED) > 400 && count(&off, ACTIVE) == 0);

    // Hue must actually differ: at tray size a brightness-only change is
    // invisible. Teal is green-dominant, the bypass colour red-dominant.
    assert!(ACTIVE[1] > ACTIVE[0], "active should be green-dominant");
    assert!(BYPASSED[0] > BYPASSED[1], "bypassed should be red-dominant");
}

#[test]
fn the_warning_badge_is_visible_in_both_toggle_states() {
    const AMBER: [u8; 4] = [0xf5, 0xa6, 0x23, 0xff];
    for enabled in [false, true] {
        let ok = icon_rgba(enabled, false);
        let bad = icon_rgba(enabled, true);
        assert_ne!(ok, bad, "error state must look different");
        assert!(
            count(&bad, AMBER) > 20,
            "badge too small to see: {} px",
            count(&bad, AMBER)
        );
        assert_eq!(count(&ok, AMBER), 0);
    }
}

#[test]
fn the_badge_sits_in_the_corner_not_over_the_whole_icon() {
    let bad = icon_rgba(true, true);
    // Top-left must stay the plain disc colour, so the icon is still
    // recognisable and the on/off hue still readable.
    let i = (8 * ICON_SIZE + 12) * 4;
    assert_eq!(&bad[i..i + 4], &ACTIVE);
}

// ---- menu choices -------------------------------------------------

#[test]
fn choosing_windows_default_stops_expressing_a_preference() {
    let mut cfg = Config {
        microphones: vec!["Yeti".into(), "Webcam".into()],
        ..Config::default()
    };
    choose_microphone(&mut cfg, "");
    assert!(
        cfg.microphones.is_empty(),
        "the default entry means follow Windows, not remember a name"
    );
}

#[test]
fn choosing_a_microphone_promotes_it_above_the_rest() {
    let mut cfg = Config {
        microphones: vec!["Yeti".into(), "Webcam".into()],
        ..Config::default()
    };
    choose_microphone(&mut cfg, "Webcam");
    assert_eq!(cfg.microphones, vec!["Webcam", "Yeti"]);
}

/// Switching to RNNoise and back must not lose where the model was, or
/// the user has to configure it again every time they experiment.
#[test]
fn switching_away_from_the_model_remembers_where_it_was() {
    let model = "/tmp/roommute/dfn3.onnx";

    let mut cfg = Config {
        model_path: model.to_string(),
        use_onnx: false,
        ..Config::default()
    };

    choose_denoiser(&mut cfg, true, Some(model));
    assert!(cfg.use_onnx);
    assert_eq!(cfg.model_path, model);

    choose_denoiser(&mut cfg, false, Some(model));
    assert!(!cfg.use_onnx);
    assert_eq!(cfg.model_path, model, "path was forgotten");
}

// ---- what the tooltip says ----------------------------------------

#[test]
fn the_tooltip_says_whether_denoising_is_on() {
    let on = tooltip_text("DeepFilterNet3", true, &format!("{:.1}", 4.25), &format!("{:.1}", 1.5));
    assert!(on.contains("DeepFilterNet3") && on.contains("ON"));
    assert!(on.contains("4.2") || on.contains("4.3"), "{on}");

    let off = tooltip_text("RNNoise", false, &format!("{:.1}", 0.0), &format!("{:.1}", 0.0));
    assert!(off.contains("BYPASS"));
    assert!(!off.contains("ON  "), "BYPASS must not also read as ON");
}

/// The two states where there are no statistics worth showing have to say
/// something useful instead — "stopped" with no hint is a support ticket.
#[test]
fn a_broken_pipeline_explains_itself_in_the_tooltip() {
    assert!(status_text(true, true).unwrap().contains("no audio"));
    assert!(status_text(false, false)
        .unwrap()
        .contains("pick a microphone"));
    assert!(
        status_text(true, false).is_none(),
        "a healthy pipeline should show its real statistics"
    );
}

#[test]
fn the_tooltip_is_spelled_out() {
    assert_eq!(
        tooltip_text("RNNoise", true, "4.2", "1.5"),
        "RoomMute (RNNoise)\nON  |  CPU: 4.2%  peak: 1.5ms"
    );
    assert_eq!(
        initial_tooltip(Some("RNNoise")),
        "RoomMute (RNNoise) — starting"
    );
    assert_eq!(initial_tooltip(None), "RoomMute — stopped");
}

// ---- the icon, pixel by pixel ---------------------------------------------

/// Inside a triangle with its apex at the top that widens linearly.
fn in_triangle(x: usize, y: usize, top: usize, bottom: usize, cx: usize, max_half: f32) -> bool {
    if y < top || y > bottom {
        return false;
    }
    let t = (y - top) as f32 / (bottom - top) as f32;
    (x as f32 - cx as f32).abs() <= t * max_half
}

#[test]
fn every_pixel_is_where_the_geometry_puts_it() {
    const AMBER: [u8; 4] = [0xf5, 0xa6, 0x23, 0xff];
    for enabled in [false, true] {
        for warning in [false, true] {
            let px = icon_rgba(enabled, warning);
            for y in 0..ICON_SIZE {
                for x in 0..ICON_SIZE {
                    let d2 = (x as i32 - 16).pow(2) + (y as i32 - 16).pow(2);
                    let mut want = CLEAR;
                    if d2 <= 14 * 14 {
                        want = if enabled { ACTIVE } else { BYPASSED };
                    }
                    if warning {
                        if in_triangle(x, y, 14, 31, 23, 9.0) {
                            want = DARK;
                        }
                        if in_triangle(x, y, 17, 29, 23, 6.0) {
                            want = AMBER;
                        }
                        if (x == 22 || x == 23)
                            && ((20..=25).contains(&y) || (27..=28).contains(&y))
                        {
                            want = DARK;
                        }
                    }
                    let i = (y * ICON_SIZE + x) * 4;
                    assert_eq!(&px[i..i + 4], &want, "pixel {x},{y}");
                }
            }
        }
    }
}

// ---- the menu -------------------------------------------------------------

fn mic(name: &str, default: bool) -> Device {
    Device {
        id: format!("id of {name}"),
        friendly_name: name.into(),
        direction: DeviceDirection::Capture,
        is_default: default,
    }
}

fn machine() -> DeviceList {
    DeviceList {
        capture: vec![
            mic("Webcam", true),
            mic("Yeti", false),
            mic("CABLE Output (VB-Audio Virtual Cable)", false),
        ],
        render: vec![],
    }
}

fn preferring(names: &[&str]) -> Config {
    Config {
        microphones: names.iter().map(|n| n.to_string()).collect(),
        ..Config::default()
    }
}

fn labels(items: &Items) -> Vec<(&str, bool, bool)> {
    items
        .mics
        .iter()
        .map(|m| (m.item.label.as_str(), m.item.enabled, m.item.checked))
        .collect()
}

#[test]
fn the_microphone_menu_lists_the_default_and_every_device() {
    let items = build_menu(&preferring(&["Yeti", "Webcam"]), Some(&machine()), None, true);
    assert_eq!(
        labels(&items),
        vec![
            ("Windows default", true, false),
            ("2.  Webcam  (system default)", true, false),
            ("1.  Yeti", true, true),
            (
                "CABLE Output (VB-Audio Virtual Cable)  — VB-Cable's own output, would loop",
                false,
                false
            ),
        ]
    );
    assert!(!items.mics_unknown);
    assert!(items.enable.checked && items.auto_start.checked);
    assert_eq!(items.mics[0].device_id, "");
    assert_eq!(items.mics[2].device_id, "id of Yeti");
}

#[test]
fn a_replugged_favourite_keeps_its_rank_in_the_menu() {
    let list = DeviceList {
        capture: vec![mic("Mic (4- Yeti)", false)],
        render: vec![],
    };
    let items = build_menu(&preferring(&["Mic (Yeti)"]), Some(&list), None, false);
    assert_eq!(labels(&items)[1], ("1.  Mic (4- Yeti)", true, true));
    assert!(!items.auto_start.checked);
}

#[test]
fn without_a_list_only_the_default_is_offered() {
    let items = build_menu(&Config::default(), None, None, false);
    assert_eq!(labels(&items), vec![("Windows default", true, true)]);
    assert!(items.mics_unknown);
}

#[test]
fn following_a_default_that_is_a_cable_is_greyed_out() {
    let list = DeviceList {
        capture: vec![mic("CABLE Output (VB-Audio Virtual Cable)", true)],
        render: vec![],
    };
    let items = build_menu(&Config::default(), Some(&list), None, false);
    assert_eq!(
        labels(&items)[0],
        (
            "Windows default  — currently VB-Cable, would loop",
            false,
            true
        )
    );
}

#[test]
fn the_denoiser_menu_ticks_what_runs() {
    let offer = ModelOffer {
        file_name: "model.onnx".into(),
        directory: false,
    };
    let on = build_menu(&Config::default(), None, Some(&offer), false);
    let on: Vec<(&str, bool)> = on
        .denoisers
        .iter()
        .map(|d| (d.item.label.as_str(), d.item.checked))
        .collect();
    assert_eq!(
        on,
        vec![("RNNoise (built-in)", false), ("model.onnx (ONNX)", true)]
    );

    let switched_off = Config {
        use_onnx: false,
        ..Config::default()
    };
    let off = build_menu(&switched_off, None, Some(&offer), false);
    assert!(off.denoisers[0].item.checked && !off.denoisers[1].item.checked);

    let none = build_menu(&Config::default(), None, None, false);
    assert_eq!(none.denoisers.len(), 1);
    assert!(none.denoisers[0].item.checked);
}

#[test]
fn models_are_named_after_their_backend() {
    assert_eq!(model_entry("model", true), "DeepFilterNet3");
    assert_eq!(model_entry("dfn3_ours.tar.gz", false), "DeepFilterNet3");
    assert_eq!(model_entry("a.gz", false), "DeepFilterNet3");
    assert_eq!(model_entry(".gz", false), ".gz (ONNX)");
    assert_eq!(model_entry("gz", false), "gz (ONNX)");
    assert_eq!(model_entry("model.gzip", false), "model.gzip (ONNX)");
    assert_eq!(model_entry("", false), " (ONNX)");
    for name in ["dfn3_ours.tar.gz", "a.gz", ".gz", "gz", "x.GZ", "..gz"] {
        let archive = std::path::Path::new(name)
            .extension()
            .is_some_and(|e| e == "gz");
        assert_eq!(model_entry(name, false) == "DeepFilterNet3", archive, "{name}");
    }
}

// ---- clicks ---------------------------------------------------------------

fn tray(cfg: Config, running: bool) -> TrayState {
    let offer = ModelOffer {
        file_name: "model".into(),
        directory: true,
    };
    let items = build_menu(&cfg, Some(&machine()), Some(&offer), false);
    let runs = if running {
        Some(backend(if cfg.use_onnx { Some(&offer) } else { None }))
    } else {
        None
    };
    let mut t = TrayState::new(cfg, runs, None, 0);
    assert!(t.resumed(items).is_none());
    t
}

fn ticked(t: &TrayState) -> Vec<&str> {
    let items = t.items.as_ref().unwrap();
    items
        .mics
        .iter()
        .filter(|m| m.item.checked)
        .map(|m| m.friendly_name.as_str())
        .collect()
}

#[test]
fn a_left_click_toggles_and_every_surface_agrees() {
    let mut t = tray(Config::default(), true);
    for on in [false, true] {
        let wanted = match t.user_event(TrayEvent::LeftRelease) {
            Some(Command::SetEnabled(wanted)) => wanted,
            other => panic!("{other:?}"),
        };
        assert_eq!(wanted, on);
        t.set_enabled(wanted);
        assert_eq!(t.cfg.enabled, on);
        assert_eq!(t.items.as_ref().unwrap().enable.checked, on);
        assert_eq!(
            t.icon(),
            IconState {
                enabled: on,
                warning: false
            }
        );
    }
    assert!(t.user_event(TrayEvent::Other).is_none());
}

#[test]
fn clicks_ask_for_what_they_show() {
    let t = tray(Config::default(), true);
    let click = |id| t.user_event(TrayEvent::Menu { id, checked: true });
    assert!(matches!(
        click(MenuId::Enable),
        Some(Command::SetEnabled(true))
    ));
    assert!(matches!(
        click(MenuId::AutoStart),
        Some(Command::SetAutoStart(true))
    ));
    assert!(matches!(click(MenuId::Help), Some(Command::ShowWelcome)));
    assert!(matches!(click(MenuId::OpenLogs), Some(Command::OpenLogs)));
    assert!(matches!(click(MenuId::Quit), Some(Command::Quit)));
    match click(MenuId::Microphone(2)) {
        Some(Command::SelectMic { device_id, name }) => {
            assert_eq!(device_id, "id of Yeti");
            assert_eq!(name, "Yeti");
        }
        other => panic!("{other:?}"),
    }
    match click(MenuId::Microphone(0)) {
        Some(Command::SelectMic { device_id, name }) => {
            assert!(device_id.is_empty() && name.is_empty());
        }
        other => panic!("{other:?}"),
    }
    assert!(click(MenuId::Microphone(9)).is_none());
    assert!(matches!(
        click(MenuId::Denoiser { onnx: true }),
        Some(Command::SelectDenoiser { onnx: true })
    ));
    let bare = TrayState::new(Config::default(), Some(Backend::BuiltIn), None, 0);
    assert!(bare
        .user_event(TrayEvent::Menu {
            id: MenuId::Quit,
            checked: false
        })
        .is_none());
}

#[test]
fn choosing_a_microphone_moves_the_tick_and_the_preference() {
    let mut t = tray(preferring(&["Webcam"]), true);
    t.select_mic("id of Yeti", "Yeti");
    assert_eq!(t.cfg.microphones, vec!["Yeti", "Webcam"]);
    assert_eq!(ticked(&t), vec!["Yeti"]);
    t.select_mic("", "");
    assert!(t.cfg.microphones.is_empty());
    assert_eq!(ticked(&t), vec![""]);
}

#[test]
fn declining_the_licence_leaves_the_built_in_denoiser() {
    let off = Config {
        use_onnx: false,
        ..Config::default()
    };
    let mut t = tray(off, true);
    assert_eq!(
        t.select_denoiser(true, false, Some("/m")),
        DenoiserChoice::Declined { restart: false }
    );
    assert!(!t.cfg.use_onnx && t.cfg.model_path.is_empty());
    assert_eq!(
        t.select_denoiser(true, true, None),
        DenoiserChoice::Missing { restart: false }
    );
    assert!(!t.cfg.use_onnx);
    let ticks = |t: &TrayState| {
        let items = t.items.as_ref().unwrap();
        (items.denoisers[0].item.checked, items.denoisers[1].item.checked)
    };
    assert_eq!(ticks(&t), (true, false));
    assert_eq!(
        t.select_denoiser(true, true, Some("/m")),
        DenoiserChoice::Chosen
    );
    assert!(t.cfg.use_onnx);
    assert_eq!(t.cfg.model_path, "/m");
    assert_eq!(ticks(&t), (false, true));
    assert_eq!(
        t.select_denoiser(false, false, None),
        DenoiserChoice::Chosen
    );
    assert!(!t.cfg.use_onnx);
    assert_eq!(ticks(&t), (true, false));
}

#[test]
fn declining_the_licence_stops_a_model_that_runs() {
    let on = Config {
        use_onnx: true,
        ..Config::default()
    };
    let files = ModelFiles {
        configured: false,
        loose: true,
        archive: false,
        legacy: false,
    };
    let mut t = tray(on, true);
    assert!(matches!(t.active_model(&files), Some(ModelChoice::Loose)));
    assert_eq!(
        t.select_denoiser(true, false, Some("/m")),
        DenoiserChoice::Declined { restart: true }
    );
    // The settings stay; what runs is the built-in one, and it is ticked.
    assert!(t.cfg.use_onnx && t.cfg.model_path.is_empty());
    assert!(t.active_model(&files).is_none());
    let ticks = |t: &TrayState| {
        let items = t.items.as_ref().unwrap();
        (items.denoisers[0].item.checked, items.denoisers[1].item.checked)
    };
    assert_eq!(ticks(&t), (true, false));
    // Whatever else is clicked on, and declining again, restart no model.
    t.set_enabled(false);
    t.select_mic("id of Yeti", "Yeti");
    assert!(t.restarted(Ok(Backend::BuiltIn)).is_none());
    assert!(t.restarted_quietly(Ok((Backend::BuiltIn, 0, 0)), 1).is_none());
    assert!(t.active_model(&files).is_none());
    assert_eq!(
        t.select_denoiser(true, false, Some("/m")),
        DenoiserChoice::Declined { restart: false }
    );
    // A choice that is taken counts again.
    assert_eq!(
        t.select_denoiser(true, true, Some("/m")),
        DenoiserChoice::Chosen
    );
    assert!(t.active_model(&files).is_some());
    assert_eq!(ticks(&t), (false, true));
}

#[test]
fn the_first_menu_ticks_the_denoiser_that_runs() {
    for use_onnx in [true, false] {
        let cfg = Config {
            use_onnx,
            ..Config::default()
        };
        let t = tray(cfg, true);
        let on_model = t.runs == Some(Backend::Model);
        assert_eq!(on_model, use_onnx);
        for d in &t.items.as_ref().unwrap().denoisers {
            assert_eq!(d.item.checked, d.onnx == on_model);
        }
    }
}

/// A model stays loaded when its file goes away, so what runs is not read off the
/// files.
#[test]
fn a_model_whose_file_is_gone_is_stopped_too() {
    let on = Config {
        use_onnx: true,
        ..Config::default()
    };
    let mut t = tray(on, true);
    assert_eq!(t.runs, Some(Backend::Model));
    assert_eq!(
        t.select_denoiser(true, false, None),
        DenoiserChoice::Declined { restart: true }
    );
    assert!(t.restarted(Ok(Backend::BuiltIn)).is_none());
    assert_eq!(t.runs, Some(Backend::BuiltIn));
    assert_eq!(
        t.select_denoiser(true, true, None),
        DenoiserChoice::Missing { restart: false }
    );
    // Nothing runs: there is nothing to stop.
    assert!(t.restarted(Err(StartError::message("no"))).is_some());
    assert_eq!(t.runs, None);
    assert_eq!(
        t.select_denoiser(true, false, Some("/m")),
        DenoiserChoice::Declined { restart: false }
    );
    // The watchdog says what runs as well.
    assert!(t
        .restarted_quietly(Ok((Backend::Model, 0, 0)), 1)
        .is_none());
    assert_eq!(
        t.select_denoiser(true, false, Some("/m")),
        DenoiserChoice::Declined { restart: true }
    );
}

#[test]
fn without_a_model_the_built_in_denoiser_runs_until_one_is_picked() {
    let on = Config {
        use_onnx: true,
        ..Config::default()
    };
    let later = ModelFiles {
        configured: false,
        loose: false,
        archive: true,
        legacy: false,
    };
    let mut t = tray(on, true);
    assert_eq!(
        t.select_denoiser(true, true, None),
        DenoiserChoice::Missing { restart: true }
    );
    assert!(t.cfg.use_onnx);
    assert!(t.active_model(&later).is_none());
    assert_eq!(
        t.select_denoiser(true, true, Some("/m")),
        DenoiserChoice::Chosen
    );
    assert!(matches!(t.active_model(&later), Some(ModelChoice::Archive)));
}

#[test]
fn the_welcome_is_shown_once_and_only_while_audio_runs() {
    let mut t = tray(Config::default(), false);
    assert!(!t.welcome_once());
    assert!(!t.cfg.welcomed);
    assert!(t.restarted(Ok(Backend::BuiltIn)).is_none());
    assert!(t.welcome_once());
    assert!(t.cfg.welcomed);
    assert!(!t.welcome_once());
}

#[test]
fn the_welcome_names_what_is_there_right_now() {
    let t = tray(preferring(&["Gone", "Yeti"]), true);
    let (mic, cable) = t.welcome_names(Some(&machine()), None);
    assert_eq!(mic, "Yeti");
    assert_eq!(
        cable.as_deref(),
        Some("CABLE Output (VB-Audio Virtual Cable)")
    );
    let (mic, cable) = t.welcome_names(None, Some("id of Yeti"));
    assert_eq!(mic, "your default microphone");
    assert!(cable.is_none());
    let (mic, _) = t.welcome_names(Some(&DeviceList::default()), Some("id of Yeti"));
    assert_eq!(mic, "your default microphone");
}

#[test]
fn the_welcome_names_the_microphone_in_use() {
    // The first choice is there but would not open; the next one runs.
    let t = tray(preferring(&["Yeti", "Webcam"]), true);
    let (mic, _) = t.welcome_names(Some(&machine()), Some("id of Webcam"));
    assert_eq!(mic, "Webcam");
    // One that has gone meanwhile cannot be named.
    let (mic, _) = t.welcome_names(Some(&machine()), Some("id of nothing"));
    assert_eq!(mic, "Yeti");
}

#[test]
fn a_startup_problem_is_told_once_the_icon_is_up() {
    let problem = StartupProblem {
        message: "no".into(),
    };
    let mut t = TrayState::new(Config::default(), None, Some(problem), 0);
    let items = build_menu(&t.cfg, None, None, false);
    assert_eq!(t.resumed(items).unwrap().message, "no");
    assert!(t.startup_error.is_none());
    assert!(t.audio_is_broken());
}

#[test]
fn a_device_that_does_not_start_is_told_about() {
    let mut t = tray(Config::default(), true);
    let e = StartError::audio(AudioError::Stalled).context("opening");
    assert_eq!(
        t.restarted(Err(e)).unwrap(),
        "Could not start audio with that device:\n\nopening: the audio device stopped \
         delivering audio"
    );
    assert!(t.runs.is_none() && t.icon().warning);
}

#[test]
fn the_watchdog_restarts_quietly_until_it_works() {
    let mut t = tray(Config::default(), true);
    assert!(!t.check_health(0, 0, STALL_AFTER - 1).redraw);
    let action = t.check_health(0, 0, RECOVERY_INTERVAL);
    assert!(action.redraw && action.restart);
    assert!(t.icon().warning);

    let failed = || Err(StartError::message("no microphone is available"));
    assert_eq!(
        t.restarted_quietly(failed(), RECOVERY_INTERVAL).as_deref(),
        Some("no microphone is available")
    );
    assert!(t.runs.is_none());
    assert!(!t.check_health(0, 0, RECOVERY_INTERVAL + 1).restart);
    assert!(t.check_health(0, 0, 2 * RECOVERY_INTERVAL).restart);
    assert!(t
        .restarted_quietly(failed(), 2 * RECOVERY_INTERVAL)
        .is_none());

    assert!(t.check_health(0, 0, 3 * RECOVERY_INTERVAL).restart);
    assert!(t
        .restarted_quietly(Ok((Backend::BuiltIn, 0, 0)), 3 * RECOVERY_INTERVAL)
        .is_none());
    assert!(t.runs.is_some() && !t.audio_is_broken());
    assert!(t.failures.last.is_none());
}

#[test]
fn the_tooltip_is_renewed_once_a_second() {
    let mut t = tray(Config::default(), true);
    assert!(!t.tooltip_due(TOOLTIP_EVERY - 1));
    assert!(t.tooltip_due(TOOLTIP_EVERY));
    assert!(!t.tooltip_due(TOOLTIP_EVERY + 1));
    assert!(t.tooltip_due(2 * TOOLTIP_EVERY));
}

#[test]
fn the_autostart_checkbox_reflects_what_is() {
    let mut t = tray(Config::default(), true);
    assert!(t.autostart_changed(true, Ok(())).is_none());
    assert!(t.items.as_ref().unwrap().auto_start.checked);
    assert_eq!(
        t.autostart_changed(false, Err("denied")).unwrap(),
        "Could not change start-with-Windows:\n\ndenied"
    );
    assert!(t.items.as_ref().unwrap().auto_start.checked);
}

#[test]
fn a_chosen_microphone_is_tried_first_from_then_on() {
    let mut list = machine();
    list.render.push(Device {
        id: "out".into(),
        friendly_name: "CABLE Input (VB-Audio Virtual Cable)".into(),
        direction: DeviceDirection::Render,
        is_default: false,
    });
    let mut t = tray(preferring(&["Webcam"]), true);
    t.select_mic("id of Yeti", "Yeti");
    let (inputs, output) = pick_devices(&list, &t.cfg).unwrap();
    assert_eq!(inputs, vec!["id of Yeti", "id of Webcam"]);
    assert_eq!(output, "out");
}
