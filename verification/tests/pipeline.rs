//! The pipeline: which devices it uses, how it starts, and what becomes of a
//! frame.

use roommute::config::Config;
use roommute::devices::{Device, DeviceDirection, DeviceList};
use roommute::error::{is_missing_cable, AudioError, StartError};
use roommute::pipeline::{
    pick_devices, resolve_devices, stepped_down, wire, Build, DspStage, DspState, DspStep,
    RankedStart, RenderSource, StageStep, GAP_AFTER, QUIET_BETWEEN, RING_FRAMES,
};
use roommute::ring::{Frame, FRAME_SAMPLES};

/// Deterministic tone plus hiss. Generated rather than checked in: no
/// binary in git, no licence to honour, and identical on every machine.
fn test_signal(frames: usize) -> Vec<Frame> {
    let mut seed = 0x2545_F491_4F6C_DD1Du64;
    (0..frames)
        .map(|i| {
            let mut f = [0u32; FRAME_SAMPLES];
            for (j, s) in f.iter_mut().enumerate() {
                let t = (i * FRAME_SAMPLES + j) as f32 / 48_000.0;
                // xorshift, so the "noise" is reproducible.
                seed ^= seed << 13;
                seed ^= seed >> 7;
                seed ^= seed << 17;
                let hiss = (seed >> 40) as f32 / 8_388_608.0 - 1.0;
                *s = ((t * 220.0 * std::f32::consts::TAU).sin() * 0.25 + hiss * 0.02).to_bits();
            }
            f
        })
        .collect()
}

/// Runs `input` through the three stages, one frame at a time, and gives what
/// was rendered.
fn run(input: &[Frame], bypass: bool) -> (Vec<Frame>, DspStage, RenderSource) {
    let (mut sink, mut stage, mut source) = wire(0);
    let mut out = Vec::new();
    for (i, frame) in input.iter().enumerate() {
        let now = i as u64 * 10_000_000;
        assert!(sink.on_frame(frame));
        match stage.step(false, bypass, now) {
            StageStep::Passed { delivery, .. } => assert!(bypass && delivery.kept),
            StageStep::Denoise { frame, .. } => {
                assert!(!bypass);
                assert!(stage.deliver(frame, now).kept);
            }
            other => panic!("{other:?}"),
        }
        while let Some(f) = source.next_frame() {
            out.push(f);
        }
    }
    (out, stage, source)
}

#[test]
fn audio_flows_from_capture_through_to_render() {
    let (out, _, _) = run(&test_signal(40), false);
    assert!(!out.is_empty(), "nothing reached the render side");
    assert_eq!(out.len(), 40);
}

/// Bypass must be a true passthrough, not "denoising turned down". This is
/// the assertion a real recording could not make any more strongly.
#[test]
fn bypass_passes_audio_through_bit_exactly() {
    let input = test_signal(30);
    let (out, _, _) = run(&input, true);

    assert!(!out.is_empty());
    for (i, frame) in out.iter().enumerate() {
        assert_eq!(
            frame.as_slice(),
            input[i].as_slice(),
            "frame {i} was altered while bypassed"
        );
    }
}

/// The render side needs its own pulse: the frame counter is bumped by
/// the DSP thread and keeps climbing happily while the output endpoint is
/// dead, which is precisely the failure the tray watchdog exists to catch.
#[test]
fn render_polls_advance_alongside_the_frame_counter() {
    let (_, _, source) = run(&test_signal(25), false);
    assert!(
        source.polls > 0,
        "the render thread's liveness signal never moved"
    );
    assert_eq!(source.polls, 50, "every poll counts, empty ones too");
}

#[test]
fn frames_processed_counts_what_went_through() {
    let (_, stage, _) = run(&test_signal(25), false);
    let n = stage.state.frames;
    assert!(n > 0, "frame counter never advanced");
    assert!(n <= 25, "counted more frames than were fed: {n}");
}

/// The watchdog's signal: a device that stops delivering must stop
/// advancing the counter, while one that is merely quiet keeps going.
#[test]
fn the_frame_counter_stops_when_capture_stops_delivering() {
    let (_, mut stage, _) = run(&test_signal(10), false); // then silence forever
    let first = stage.state.frames;
    for i in 0..100u64 {
        assert!(matches!(
            stage.step(false, false, 100_000_000 + i * 2_000_000),
            StageStep::Wait { .. }
        ));
    }
    let second = stage.state.frames;
    assert!(first > 0, "should have processed the frames it was given");
    assert_eq!(first, second, "counter advanced after capture went silent");
}

#[test]
fn dropping_the_pipeline_stops_its_threads() {
    let (mut sink, mut stage, mut source) = wire(0);
    assert!(sink.on_frame(&test_signal(1)[0]));
    for _ in 0..3 {
        assert!(matches!(stage.step(true, true, 1), StageStep::Exit));
    }
    assert!(
        source.next_frame().is_none(),
        "frames kept arriving after the pipeline was dropped"
    );
    assert_eq!(stage.state.frames, 0);
}

fn device(name: &str, direction: DeviceDirection) -> Device {
    Device {
        id: format!("{{0.0.0.00000000}}.{name}"),
        friendly_name: name.into(),
        direction,
        is_default: false,
    }
}

/// The first entry in each list is the Windows default, as it would be on
/// a real machine — without one, "follow the default" resolves to nothing.
fn inventory(mics: &[&str], outputs: &[&str]) -> DeviceList {
    let mark_first = |mut devices: Vec<Device>| {
        if let Some(d) = devices.first_mut() {
            d.is_default = true;
        }
        devices
    };
    DeviceList {
        capture: mark_first(
            mics.iter()
                .map(|n| device(n, DeviceDirection::Capture))
                .collect(),
        ),
        render: mark_first(
            outputs
                .iter()
                .map(|n| device(n, DeviceDirection::Render))
                .collect(),
        ),
    }
}

fn with_mics(mics: &[&str]) -> Config {
    Config {
        microphones: mics.iter().map(|s| s.to_string()).collect(),
        ..Config::default()
    }
}

#[test]
fn the_highest_ranked_microphone_that_is_present_wins() {
    let devices = inventory(
        &["Webcam Mic", "Yeti"],
        &["CABLE Input (VB-Audio Virtual Cable)"],
    );
    let (inputs, output) = pick_devices(&devices, &with_mics(&["Yeti", "Webcam Mic"])).unwrap();
    assert!(inputs[0].ends_with("Yeti"), "got {inputs:?}");
    assert!(output.contains("CABLE Input"));
    // The rest stay behind it as fallbacks, in preference order, so a mic
    // that enumerates but will not open is not the end of the road.
    assert!(
        inputs.len() > 1 && inputs[1].ends_with("Webcam Mic"),
        "the runner-up has to survive as a fallback: {inputs:?}"
    );

    // Unplug the Yeti: the next one down takes over rather than failing.
    let devices = inventory(&["Webcam Mic"], &["CABLE Input (VB-Audio Virtual Cable)"]);
    let (inputs, _) = pick_devices(&devices, &with_mics(&["Yeti", "Webcam Mic"])).unwrap();
    assert!(inputs[0].ends_with("Webcam Mic"), "got {inputs:?}");
}

/// Installing a cable usually makes it the default capture device too, so
/// "follow the Windows default" silently becomes the cable feeding itself.
/// Nothing real is in that loop and the user hears nothing.
#[test]
fn capturing_from_the_cables_own_output_is_refused() {
    let devices = inventory(
        &["CABLE Output (VB-Audio Virtual Cable)"],
        &["CABLE Input (VB-Audio Virtual Cable)"],
    );
    let err =
        pick_devices(&devices, &Config::default()).expect_err("must not wire the cable to itself");
    let msg = err.text();
    assert!(msg.contains("loop"), "should explain the loop: {msg}");
    assert!(msg.contains("tray menu"), "should say how to fix it: {msg}");
    assert_eq!(
        msg,
        "the selected microphone is VB-Cable's own output, which is where RoomMute sends audio — \
         routing it back in would loop. Pick a real microphone from the tray menu"
    );
}

/// Failing closed matters here: falling back to the default render device
/// would play the microphone out of whatever speakers or meeting-room
/// display happens to be default.
#[test]
fn no_cable_is_an_error_rather_than_a_fallback_to_the_speakers() {
    let devices = inventory(&["Yeti"], &["Speakers (Realtek)", "Headphones"]);
    let err = pick_devices(&devices, &with_mics(&["Yeti"]))
        .expect_err("must not fall back to the speakers");
    let msg = err.text();
    assert!(msg.contains("VB-Cable"), "{msg}");
    assert!(
        !msg.contains("Speakers"),
        "picked the speakers anyway: {msg}"
    );
    assert_eq!(
        msg,
        "no virtual audio cable is installed (looked for VB-Cable, VoiceMeeter, Virtual Audio \
         Cable). Cleaned audio needs one so other apps can hear it as a microphone. Install \
         VB-Cable, or name one in output_device: no virtual audio cable is installed"
    );
    assert!(is_missing_cable(&err));
}

#[test]
fn no_microphone_at_all_is_reported_as_such() {
    let devices = inventory(&[], &["CABLE Input (VB-Audio Virtual Cable)"]);
    let err = pick_devices(&devices, &Config::default()).unwrap_err();
    assert!(err.text().contains("no microphone"));
}

/// A named output wins over auto-detection — the escape hatch for anyone
/// running a cable we do not recognise.
#[test]
fn a_named_output_device_overrides_cable_detection() {
    let devices = inventory(&["Yeti"], &["Line 1 (Some Other Cable)"]);
    let cfg = Config {
        output_device: "Line 1 (Some Other Cable)".into(),
        ..with_mics(&["Yeti"])
    };
    let (_, output) = pick_devices(&devices, &cfg).unwrap();
    assert!(output.contains("Line 1"), "got {output}");
}

/// A sound card on which one named device exists but refuses to open.
fn start_with_one_bad_mic(bad: &str, ids: &[&str]) -> (Vec<String>, Result<String, StartError>) {
    let mut attempts = Vec::new();
    let mut ranked = RankedStart::new(ids.iter().map(|s| s.to_string()).collect());
    loop {
        let id = match ranked.next() {
            Some(id) => id.to_string(),
            None => return (attempts, Err(ranked.give_up())),
        };
        attempts.push(id.clone());
        if id == bad {
            ranked.failed(StartError::message(
                "GetMixFormat failed: the device's audio enhancements could not be \
                 loaded (0x8007007E)",
            ));
        } else {
            assert_eq!(ranked.is_fallback(), attempts.len() > 1);
            return (attempts, Ok(id));
        }
    }
}

#[test]
fn a_microphone_that_will_not_open_falls_through_to_the_next() {
    let (attempts, p) = start_with_one_bad_mic("broken-mic", &["broken-mic", "good-mic"]);
    assert!(
        p.is_ok(),
        "a working microphone was available; refusing to start is the bug"
    );
    assert_eq!(
        attempts,
        vec!["broken-mic", "good-mic"],
        "it has to try the next candidate, in order"
    );
}

#[test]
fn the_error_survives_when_every_microphone_fails() {
    let (_, err) = start_with_one_bad_mic("broken-mic", &["broken-mic"]);
    let Err(err) = err else {
        panic!("nothing could open, so this must fail");
    };
    let text = err.text();
    assert!(
        text.contains("0x8007007E"),
        "the last real reason has to reach the user: {text}"
    );
}

/// The DSP thread owns the denoiser, so one that outlives a failed start costs
/// both memory and a core. It is spawned once everything else has worked.
#[test]
fn a_failed_start_leaves_no_thread_behind() {
    let dead_card = || Err(StartError::message("GetMixFormat failed (0x8007007E)"));
    let no_render = || Err(StartError::message("no such render endpoint"));
    for outcomes in [
        vec![dead_card()],
        vec![Ok(()), no_render()],
        vec![Ok(()), Ok(()), Err(StartError::message("no such model"))],
    ] {
        let mut threads = 0;
        let mut build = Build::new();
        for outcome in outcomes {
            if matches!(build, Build::SpawnDsp) {
                threads += 1;
            }
            build = build.advance(outcome);
        }
        assert!(matches!(build, Build::Failed(_)));
        assert_eq!(threads, 0, "a failed start left a DSP thread running");
    }
}

// ---- more -----------------------------------------------------------------

#[test]
fn starting_goes_step_by_step() {
    let mut build = Build::new();
    assert!(matches!(build, Build::OpenCapture));
    build = build.advance(Ok(()));
    assert!(matches!(build, Build::OpenRender));
    build = build.advance(Ok(()));
    assert!(matches!(build, Build::LoadDenoiser));
    build = build.advance(Ok(()));
    assert!(matches!(build, Build::SpawnDsp));
    build = build.advance(Ok(()));
    assert!(matches!(build, Build::Running));
    build = build.advance(Err(StartError::message("too late")));
    assert!(matches!(build, Build::Running));
}

#[test]
fn failures_say_what_was_being_done() {
    let says = |steps: usize| {
        let mut build = Build::new();
        for _ in 0..steps {
            build = build.advance(Ok(()));
        }
        match build.advance(Err(StartError::message("no"))) {
            Build::Failed(e) => e.text(),
            other => panic!("{other:?}"),
        }
    };
    assert_eq!(says(0), "no");
    assert_eq!(says(1), "no");
    assert_eq!(says(2), "loading denoiser: no");
    assert_eq!(says(3), "spawn dsp thread: no");
}

#[test]
fn nothing_to_try_is_reported_as_such() {
    let ranked = RankedStart::new(vec![]);
    assert!(ranked.next().is_none());
    assert!(!ranked.is_fallback());
    assert_eq!(ranked.give_up().text(), "no microphone is available");
}

#[test]
fn a_cable_is_left_out_of_the_fallbacks() {
    let devices = inventory(
        &[
            "Yeti",
            "CABLE Output (VB-Audio Virtual Cable)",
            "Webcam Mic",
        ],
        &["CABLE Input (VB-Audio Virtual Cable)"],
    );
    let (inputs, _) = pick_devices(&devices, &Config::default()).unwrap();
    assert_eq!(
        inputs,
        vec![
            "{0.0.0.00000000}.Yeti".to_string(),
            "{0.0.0.00000000}.Webcam Mic".to_string()
        ]
    );
}

#[test]
fn a_list_that_could_not_be_had_is_reported() {
    let err = resolve_devices(Err(AudioError::ThreadDied), &Config::default()).unwrap_err();
    assert_eq!(
        err.text(),
        "enumerating audio devices: audio thread panicked or exited unexpectedly"
    );
    let devices = inventory(&["Yeti"], &["CABLE Input (VB-Audio Virtual Cable)"]);
    assert!(resolve_devices(Ok(devices), &Config::default()).is_ok());
}

#[test]
fn stepping_down_is_noticed() {
    let cfg = with_mics(&["Mic (Yeti)", "Webcam"]);
    assert!(!stepped_down(&cfg, "Mic (3- Yeti)"));
    assert!(stepped_down(&cfg, "Webcam"));
    assert!(!stepped_down(&Config::default(), "Webcam"));
}

#[test]
fn a_ring_holds_so_many_frames_and_keeps_their_order() {
    let input = test_signal(RING_FRAMES + 2);
    let (mut sink, mut stage, _source) = wire(0);
    let kept: Vec<bool> = input.iter().map(|f| sink.on_frame(f)).collect();
    assert_eq!(kept.iter().filter(|k| **k).count(), 8);
    assert!(!kept[8] && !kept[9], "a full ring drops what comes next");
    for (k, frame) in input.iter().take(8).enumerate() {
        match stage.step(false, false, 1) {
            StageStep::Denoise { frame: got, .. } => assert_eq!(&got, frame, "frame {k}"),
            other => panic!("{other:?}"),
        }
    }
    assert!(matches!(
        stage.step(false, false, 1),
        StageStep::Wait { gap_ms: None }
    ));
    assert!(sink.on_frame(&input[0]), "and takes more once emptied");
}

/// Far more frames than a ring has room for, as long as the other end keeps up:
/// every one goes in, and every one comes out in its turn.
#[test]
fn a_ring_that_is_emptied_in_time_drops_nothing() {
    let input = test_signal(5 * RING_FRAMES);
    let (mut sink, mut stage, mut source) = wire(0);
    for burst in input.chunks(RING_FRAMES) {
        for frame in burst {
            assert!(sink.on_frame(frame));
        }
        for _ in burst {
            match stage.step(false, true, 1) {
                StageStep::Passed { delivery, .. } => assert!(delivery.kept),
                other => panic!("{other:?}"),
            }
        }
        assert!(matches!(
            stage.step(false, true, 1),
            StageStep::Wait { gap_ms: None }
        ));
        for frame in burst {
            assert_eq!(source.next_frame().as_ref(), Some(frame));
        }
        assert!(source.next_frame().is_none());
    }
}

#[test]
fn dropping_towards_render_is_logged_sparingly() {
    let frame = test_signal(1)[0];
    let (_sink, mut stage, mut source) = wire(0);
    for _ in 0..RING_FRAMES {
        let d = stage.deliver(frame, 5);
        assert!(d.kept && !d.report);
    }
    let first = stage.deliver(frame, 10);
    assert!(!first.kept && first.report);
    assert!(!stage.deliver(frame, 10 + QUIET_BETWEEN).report);
    assert!(stage.deliver(frame, 11 + QUIET_BETWEEN).report);
    assert_eq!(source.next_frame(), Some(frame));
    assert!(stage.deliver(frame, 12 + QUIET_BETWEEN).kept);
}

#[test]
fn underruns_are_logged_sparingly() {
    let (_sink, _stage, mut source) = wire(0);
    assert!(source.on_underrun(0), "the first one reports at once");
    assert!(!source.on_underrun(QUIET_BETWEEN));
    assert!(source.on_underrun(QUIET_BETWEEN + 1));
    assert_eq!(source.polls, 0);
}

#[test]
fn a_long_gap_is_reported_once_and_so_is_its_end() {
    let frame = test_signal(1)[0];
    let mut state = DspState::new(0);
    let wait = |s: &mut DspState, now| match s.on_popped(None, false, now) {
        DspStep::Wait { gap_ms } => gap_ms,
        other => panic!("{other:?}"),
    };
    assert_eq!(wait(&mut state, GAP_AFTER), None);
    assert_eq!(wait(&mut state, GAP_AFTER + 1_000_000), Some(2001));
    assert_eq!(wait(&mut state, 10 * GAP_AFTER), None);
    match state.on_popped(Some(frame), false, 11 * GAP_AFTER) {
        DspStep::Denoise { resumed, .. } => assert!(resumed),
        other => panic!("{other:?}"),
    }
    match state.on_popped(Some(frame), true, 11 * GAP_AFTER) {
        DspStep::Pass { resumed, .. } => assert!(!resumed),
        other => panic!("{other:?}"),
    }
    assert_eq!(state.frames, 2);
    assert!(!state.on_offered(true, 1));
    assert!(state.on_offered(false, 1));
}
