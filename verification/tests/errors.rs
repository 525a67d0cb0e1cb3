//! What is said about what goes wrong.

use roommute::error::{explain, is_missing_cable, AudioError, Cause, StartError};

#[test]
fn invalidation_and_stalls_are_worth_retrying() {
    assert!(AudioError::DeviceInvalidated { context: "x" }.is_recoverable());
    assert!(AudioError::Stalled.is_recoverable());
    assert!(!AudioError::VirtualCableMissing.is_recoverable());
    assert!(!AudioError::UnsupportedFormat("16-bit".into()).is_recoverable());
}

/// ERROR_MOD_NOT_FOUND out of GetMixFormat, reported from a real machine.
/// Windows renders it as "The specified module could not be found", which
/// sounds like RoomMute is missing a DLL of its own. It is not: that
/// endpoint has an effect DLL Windows cannot load.
///
/// The reporter fixed it by choosing another microphone, not by touching
/// any driver, so that is what the text leads with. RoomMute now tries the
/// other microphones itself before anyone sees this at all.
#[test]
fn a_missing_audio_effect_dll_says_so_rather_than_blaming_us() {
    let e = AudioError::wasapi(
        "GetMixFormat",
        0x8007_007E,
        "The specified module could not be found.",
    );
    let text = e.text();
    assert!(
        text.contains("different microphone"),
        "lead with the fix that actually worked — choosing another mic: {text}"
    );
    assert!(
        !text.contains("specified module could not be found"),
        "Windows' own wording reads as a missing RoomMute DLL: {text}"
    );
}

#[test]
fn known_codes_read_as_english_and_never_dangle() {
    // The exact failure from a re-enumerated USB mic.
    let e = AudioError::wasapi(
        "IMMDevice::Activate",
        0x8889_0004, "",
    );
    let text = e.text();
    assert!(text.contains("disconnected"), "{text}");
    assert!(!text.contains("0x88890004"), "raw HRESULT leaked: {text}");

    // An unmapped code still says something, and never ends in a bare colon.
    let odd = AudioError::wasapi(
        "GetBuffer",
        0x8889_0099, "",
    );
    let text = odd.text();
    assert!(text.contains("0x88890099"), "{text}");
    assert!(!text.trim_end().ends_with(':'), "dangling colon: {text}");
}

#[test]
fn privacy_block_explains_where_to_look() {
    let e = AudioError::wasapi(
        "Activate",
        0x8007_0005, "",
    );
    assert!(e.text().contains("Microphone"), "{}", e.text());
}

#[test]
fn every_error_has_its_sentence() {
    let texts = [
        (
            AudioError::DeviceNotFound("Yeti".into()),
            "device not found: Yeti",
        ),
        (
            AudioError::VirtualCableMissing,
            "no virtual audio cable is installed",
        ),
        (
            AudioError::UnsupportedFormat("16-bit".into()),
            "unsupported audio format: 16-bit",
        ),
        (
            AudioError::AmbiguousDevice("two".into()),
            "ambiguous device selection: two",
        ),
        (
            AudioError::DeviceInvalidated { context: "x" },
            "the audio device was disconnected or reconfigured (x)",
        ),
        (
            AudioError::Wasapi {
                context: "Start",
                detail: "no".into(),
            },
            "Start failed: no",
        ),
        (
            AudioError::Stalled,
            "the audio device stopped delivering audio",
        ),
        (
            AudioError::ThreadDied,
            "audio thread panicked or exited unexpectedly",
        ),
        (AudioError::Other("odd".into()), "odd"),
    ];
    for (e, text) in texts {
        assert_eq!(e.text(), text);
    }
}

#[test]
fn details_carry_the_code_in_eight_digits() {
    let explained = AudioError::wasapi("Start", 0x8889_000A, "ignored");
    assert_eq!(
        explained.text(),
        "Start failed: the audio device is in use by another application in exclusive mode \
         (0x8889000A)"
    );
    let told = AudioError::wasapi("Start", 0x1F, "  A device is not working.\r\n");
    assert_eq!(
        told.text(),
        "Start failed: A device is not working. (0x0000001F)"
    );
    let silent = AudioError::wasapi("Start", 0xFEDC_BA98, " \t ");
    assert_eq!(silent.text(), "Start failed: HRESULT 0xFEDCBA98");
}

#[test]
fn only_known_codes_are_explained() {
    for code in [
        0x8889_0001u32,
        0x8889_0002,
        0x8889_0003,
        0x8889_0006,
        0x8889_0008,
        0x8889_000A,
        0x8889_0010,
        0x8889_0015,
        0x8007_0005,
        0x8007_0490,
        0x8007_007E,
    ] {
        assert!(explain(code).is_some(), "{code:#x}");
    }
    assert!(explain(0).is_none());
    assert!(explain(0x8889_0004).is_none());
}

#[test]
fn the_story_is_told_outermost_first() {
    let e = StartError::audio(AudioError::Stalled)
        .context("opening")
        .context("starting");
    assert_eq!(
        e.text(),
        "starting: opening: the audio device stopped delivering audio"
    );
    assert!(matches!(e.cause, Cause::Audio(AudioError::Stalled)));
    assert_eq!(StartError::message("plain").text(), "plain");
}

#[test]
fn is_missing_cable_looks_through_the_whole_chain() {
    let buried = StartError::audio(AudioError::VirtualCableMissing)
        .context("opening the render device")
        .context("starting the audio pipeline");
    assert!(is_missing_cable(&buried), "must survive being wrapped");

    let other = StartError::audio(AudioError::DeviceInvalidated {
        context: "starting capture",
    })
    .context("starting the audio pipeline");
    assert!(!is_missing_cable(&other));
    assert!(!is_missing_cable(&StartError::message("plain string error")));
}
