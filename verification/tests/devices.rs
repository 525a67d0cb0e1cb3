//! Finding the devices to use in an inventory.

use roommute::devices::{
    known_cable_products, same_device_name, strip_instance_prefix, Device, DeviceDirection,
    DeviceList,
};
use roommute::error::AudioError;

/// The reported install had its preferred microphone and the Windows
/// default both fail to open, while a working one sat unused. The owner
/// fixed it by choosing that one from the menu; the app should get there
/// on its own before it starts retrying forever.
#[test]
fn every_microphone_is_a_candidate_once_the_likely_ones_are_exhausted() {
    let list = DeviceList {
        capture: vec![
            capture("Microphone (Broken)"),
            capture("Microphone (Works)"),
        ],
        render: vec![render("CABLE Input (VB-Audio Virtual Cable)")],
    };
    let names: Vec<&str> = list
        .capture_candidates(&["Microphone (Broken)".to_string()])
        .iter()
        .map(|d| d.friendly_name.as_str())
        .collect();

    assert_eq!(
        names.first(),
        Some(&"Microphone (Broken)"),
        "the preference still leads: {names:?}"
    );
    assert!(
        names.contains(&"Microphone (Works)"),
        "a microphone nobody named is still better than giving up: {names:?}"
    );
}

/// Trying the same device twice wastes a model load and doubles the log.
#[test]
fn no_microphone_is_offered_twice() {
    let list = DeviceList {
        capture: vec![capture("Microphone (Yeti)")],
        render: vec![render("CABLE Input (VB-Audio Virtual Cable)")],
    };
    let c = list.capture_candidates(&["Microphone (Yeti)".to_string()]);
    assert_eq!(
        c.len(),
        1,
        "preference, default and the sweep are the same device"
    );
}

/// Naming the wrong half of the cable is the difference between working
/// and silent, so this pins which one we hand to the user.
#[test]
fn the_endpoint_offered_to_other_apps_is_the_capture_half() {
    let list = DeviceList {
        capture: vec![
            capture("Microphone (Yeti)"),
            capture("CABLE Output (VB-Audio Virtual Cable)"),
        ],
        render: vec![render("CABLE Input (VB-Audio Virtual Cable)")],
    };
    let offered = list
        .virtual_cable_output_device()
        .expect("the cable is installed, so there is one");
    assert!(
        offered.friendly_name.starts_with("CABLE Output"),
        "apps record from the Output half; we render into the Input half: {}",
        offered.friendly_name
    );
}

#[test]
fn no_cable_means_nothing_to_offer() {
    let list = DeviceList {
        capture: vec![capture("Microphone (Yeti)")],
        render: vec![render("Speakers")],
    };
    assert!(list.virtual_cable_output_device().is_none());
}

fn render(name: &str) -> Device {
    Device {
        id: format!("{{0.0.0.00000000}}.{name}"),
        friendly_name: name.into(),
        direction: DeviceDirection::Render,
        is_default: false,
    }
}

fn capture(name: &str) -> Device {
    Device {
        direction: DeviceDirection::Capture,
        ..render(name)
    }
}

/// The exact failure seen in the wild: a USB mic replugged mid-session
/// comes back with a new GUID and a "4- " instance prefix, so the stored
/// id is dead while the hardware is still sitting there.
#[test]
fn a_replugged_mic_is_found_by_name_when_its_id_dies() {
    let list = DeviceList {
        capture: vec![capture("Microphone (4- fifine Microphone)")],
        render: vec![],
    };
    let found = list
        .resolve_capture("Microphone (fifine Microphone)")
        .expect("should recover by name");
    assert_eq!(found.friendly_name, "Microphone (4- fifine Microphone)");
}

#[test]
fn instance_prefixes_do_not_make_devices_different() {
    assert!(same_device_name(
        "Microphone (fifine Microphone)",
        "Microphone (4- fifine Microphone)"
    ));
    assert!(same_device_name(
        "Microphone (2- USB Audio Device)",
        "Microphone (7- USB Audio Device)"
    ));
    // Genuinely different hardware must not collapse together.
    assert!(!same_device_name(
        "Microphone (fifine Microphone)",
        "Microphone (Realtek Audio)"
    ));
    // A leading number that isn't an instance prefix is left alone.
    assert!(!same_device_name("Line 1 (VAC)", "Line 2 (VAC)"));
}

#[test]
fn an_exact_name_wins_over_a_prefix_insensitive_one() {
    let list = DeviceList {
        capture: vec![
            capture("Microphone (4- fifine Microphone)"),
            capture("Microphone (fifine Microphone)"),
        ],
        render: vec![],
    };
    let got = list
        .resolve_capture("Microphone (fifine Microphone)")
        .unwrap();
    assert_eq!(got.friendly_name, "Microphone (fifine Microphone)");
}

#[test]
fn an_empty_name_means_the_windows_default() {
    let mut chosen = capture("Microphone (Realtek Audio)");
    chosen.is_default = true;
    let list = DeviceList {
        capture: vec![capture("Microphone (fifine Microphone)"), chosen],
        render: vec![],
    };
    assert_eq!(
        list.resolve_capture("").unwrap().friendly_name,
        "Microphone (Realtek Audio)"
    );
}

#[test]
fn a_name_that_matches_nothing_stays_unresolved() {
    let list = DeviceList {
        capture: vec![capture("Microphone (Realtek Audio)")],
        render: vec![],
    };
    assert!(list.resolve_capture("Microphone (Gone)").is_none());
}

#[test]
fn matches_the_real_vb_cable_endpoint() {
    assert_eq!(
        render("CABLE Input (VB-Audio Virtual Cable)").virtual_cable_input(),
        Some("VB-Cable")
    );
}

#[test]
fn ignores_lookalikes_and_the_wrong_direction() {
    // Name-squatting: anything can call itself "CABLE Input".
    assert_eq!(
        render("CABLE Input (Totally Not A Recorder)").virtual_cable_input(),
        None
    );
    // The side other apps capture from, not the side we render into.
    assert_eq!(
        render("CABLE Output (VB-Audio Virtual Cable)").virtual_cable_input(),
        None
    );
    // Right name, wrong direction.
    assert_eq!(
        capture("CABLE Input (VB-Audio Virtual Cable)").virtual_cable_input(),
        None
    );
}

/// The loop guard depends on this: installing a cable tends to make its
/// output the default capture device, and recording from that while
/// rendering into the same cable feeds it into itself.
#[test]
fn recognises_the_capture_side_of_a_cable() {
    assert_eq!(
        capture("CABLE Output (VB-Audio Virtual Cable)").virtual_cable_output(),
        Some("VB-Cable")
    );
    assert_eq!(
        capture("Microphone (fifine Microphone)").virtual_cable_output(),
        None
    );
    // Render side is not a capture side.
    assert_eq!(
        render("CABLE Output (VB-Audio Virtual Cable)").virtual_cable_output(),
        None
    );
}

/// VB-Cable also installs "CABLE In 16ch", which must not be confused for
/// the endpoint we render into.
#[test]
fn ignores_the_multichannel_sibling_endpoint() {
    assert_eq!(
        render("CABLE In 16ch (VB-Audio Virtual Cable)").virtual_cable_input(),
        None
    );
}

/// Error text that names a setting is only useful if the setting exists.
/// Devices moved from ids to names; `output_device_id` never came with
/// them, so following this advice edited a key nothing reads.
#[test]
fn the_ambiguous_cable_error_names_a_config_key_that_exists() {
    let list = DeviceList {
        capture: vec![],
        render: vec![
            render("CABLE Input (VB-Audio Virtual Cable)"),
            render("VoiceMeeter Input (VB-Audio VoiceMeeter VAIO)"),
        ],
    };
    let msg = list
        .find_virtual_cable_input()
        .expect_err("two cables must be ambiguous")
        .text();

    assert!(
        msg.contains("output_device"),
        "should say what to set: {msg}"
    );
    assert!(
        !msg.contains("_id"),
        "config keys are device *names* now, not ids: {msg}"
    );
}

#[test]
fn refuses_to_guess_between_two_cables() {
    let list = DeviceList {
        capture: vec![],
        render: vec![
            render("CABLE Input (VB-Audio Virtual Cable)"),
            render("CABLE Input (VB-Audio Virtual Cable) 2"),
        ],
    };
    assert!(list.find_virtual_cable_input().is_err());
}

#[test]
fn reports_missing_cable() {
    let list = DeviceList {
        capture: vec![],
        render: vec![render("Speakers (Realtek Audio)")],
    };
    assert!(matches!(
        list.find_virtual_cable_input(),
        Err(AudioError::VirtualCableMissing)
    ));
}

// ---- ranking --------------------------------------------------------------

fn ranked(name: &str) -> Device {
    Device {
        id: format!("{{0.0.1.00000000}}.{name}"),
        friendly_name: name.into(),
        direction: DeviceDirection::Capture,
        is_default: false,
    }
}

fn list(names: &[&str], default: &str) -> DeviceList {
    DeviceList {
        capture: names
            .iter()
            .map(|n| {
                let mut d = ranked(n);
                d.is_default = *n == default;
                d
            })
            .collect(),
        render: vec![],
    }
}

fn prefs(v: &[&str]) -> Vec<String> {
    v.iter().map(|s| s.to_string()).collect()
}

#[test]
fn takes_the_highest_ranked_device_that_is_present() {
    let l = list(
        &["Headset (Sennheiser)", "Microphone (fifine)"],
        "Headset (Sennheiser)",
    );
    let got = l
        .resolve_capture_ranked(&prefs(&["Microphone (fifine)", "Headset (Sennheiser)"]))
        .unwrap();
    assert_eq!(
        got.friendly_name, "Microphone (fifine)",
        "rank must beat system default"
    );
}

/// The case from the wild: the preferred mic is unplugged mid-session.
/// It should drop to the next one rather than stopping to ask.
#[test]
fn falls_through_to_the_next_when_the_preferred_one_is_gone() {
    let l = list(&["Headset (Sennheiser)"], "Headset (Sennheiser)");
    let got = l
        .resolve_capture_ranked(&prefs(&["Microphone (fifine)", "Headset (Sennheiser)"]))
        .unwrap();
    assert_eq!(got.friendly_name, "Headset (Sennheiser)");
}

#[test]
fn windows_default_is_the_floor_when_nothing_ranked_is_present() {
    let l = list(&["Microphone (Realtek)"], "Microphone (Realtek)");
    let got = l
        .resolve_capture_ranked(&prefs(&["Microphone (fifine)"]))
        .unwrap();
    assert_eq!(
        got.friendly_name, "Microphone (Realtek)",
        "must not strand the user"
    );
}

#[test]
fn an_empty_preference_list_means_the_windows_default() {
    let l = list(&["A (x)", "B (y)"], "B (y)");
    assert_eq!(
        l.resolve_capture_ranked(&[]).unwrap().friendly_name,
        "B (y)"
    );
}

#[test]
fn ranking_survives_a_replug_that_renumbers_the_device() {
    // Stored as "fifine", comes back as "4- fifine".
    let l = list(
        &["Microphone (4- fifine Microphone)"],
        "Microphone (4- fifine Microphone)",
    );
    let got = l
        .resolve_capture_ranked(&prefs(&["Microphone (fifine Microphone)"]))
        .unwrap();
    assert_eq!(got.friendly_name, "Microphone (4- fifine Microphone)");
}

#[test]
fn no_devices_at_all_resolves_to_nothing() {
    let l = DeviceList {
        capture: vec![],
        render: vec![],
    };
    assert!(l.resolve_capture_ranked(&prefs(&["anything"])).is_none());
}

// ---- more ----------------------------------------------------------------

#[test]
fn stripping_goes_part_by_part() {
    assert_eq!(
        strip_instance_prefix("Microphone (4- fifine Microphone)"),
        "Microphone(fifine Microphone)"
    );
    assert_eq!(strip_instance_prefix("2- Mic (3- USB (11- x))"), "Mic(USB(x))");
    assert_eq!(strip_instance_prefix("  plain  "), "plain");
    assert_eq!(strip_instance_prefix("x- y"), "x- y");
    assert_eq!(strip_instance_prefix("- y"), "- y");
    assert_eq!(strip_instance_prefix(""), "");
}

#[test]
fn a_name_numbered_already_loses_only_the_first_number() {
    assert!(!same_device_name("Mic (2- foo)", "Mic (4- 2- foo)"));
    assert_eq!(strip_instance_prefix("Mic (4- 2- foo)"), "Mic(2- foo)");
}

#[test]
fn same_device_is_an_equivalence_on_names() {
    let names = ["A (1- x)", "A (2- x)", "A (x)", "B (x)"];
    for a in names {
        assert!(same_device_name(a, a));
        for b in names {
            assert_eq!(same_device_name(a, b), same_device_name(b, a));
            for c in names {
                if same_device_name(a, b) && same_device_name(b, c) {
                    assert!(same_device_name(a, c));
                }
            }
        }
    }
}

#[test]
fn every_known_product_is_named() {
    assert_eq!(
        known_cable_products(),
        vec!["VB-Cable", "VoiceMeeter", "Virtual Audio Cable"]
    );
}

#[test]
fn other_cables_are_recognised_on_both_sides() {
    assert_eq!(
        render("VoiceMeeter Input (VB-Audio VoiceMeeter VAIO)").virtual_cable_input(),
        Some("VoiceMeeter")
    );
    assert_eq!(
        capture("VoiceMeeter Output (VB-Audio VoiceMeeter VAIO)").virtual_cable_output(),
        Some("VoiceMeeter")
    );
    assert_eq!(
        render("Line 1 (Virtual Audio Cable)").virtual_cable_input(),
        Some("Virtual Audio Cable")
    );
    assert_eq!(
        capture("LINE 1 (VIRTUAL AUDIO CABLE)").virtual_cable_output(),
        Some("Virtual Audio Cable")
    );
}

#[test]
fn candidates_come_in_order_and_once() {
    let mut list = DeviceList {
        capture: vec![capture("C"), capture("A"), capture("B")],
        render: vec![],
    };
    list.capture[2].is_default = true;
    let prefs = vec!["Gone".to_string(), "A".to_string(), "A".to_string()];
    let names: Vec<&str> = list
        .capture_candidates(&prefs)
        .iter()
        .map(|d| d.friendly_name.as_str())
        .collect();
    assert_eq!(names, vec!["A", "B", "C"]);
}

#[test]
fn microphones_can_be_looked_up_by_id() {
    let list = DeviceList {
        capture: vec![capture("A"), capture("B")],
        render: vec![],
    };
    let id = list.capture[1].id.clone();
    assert_eq!(list.capture_by_id(&id).unwrap().friendly_name, "B");
    assert!(list.capture_by_id("nothing").is_none());
    assert!(list.default_capture().is_none());
    assert!(DeviceList::default().capture_by_id(&id).is_none());
}

#[test]
fn a_named_output_is_found_or_reported() {
    let list = DeviceList {
        capture: vec![],
        render: vec![
            render("Speakers"),
            render("CABLE Input (VB-Audio Virtual Cable)"),
        ],
    };
    assert_eq!(
        list.resolve_render("Speakers").unwrap().friendly_name,
        "Speakers"
    );
    assert_eq!(
        list.resolve_render("").unwrap().friendly_name,
        "CABLE Input (VB-Audio Virtual Cable)"
    );
    match list.resolve_render("Headphones") {
        Err(AudioError::DeviceNotFound(name)) => assert_eq!(name, "Headphones"),
        other => panic!("{other:?}"),
    }
}

#[test]
fn no_endpoint_is_both_sides_of_a_cable() {
    for name in [
        "CABLE Input (VB-Audio Virtual Cable)",
        "CABLE Output (VB-Audio Virtual Cable)",
        "Line 1 (Virtual Audio Cable)",
        "VoiceMeeter Input Output",
    ] {
        for d in [render(name), capture(name)] {
            assert!(d.virtual_cable_input().is_none() || d.virtual_cable_output().is_none());
        }
    }
}
