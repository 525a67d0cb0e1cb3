//! The watchdog and the log of failures, driven by an explicit clock.

use roommute::watchdog::{
    elapsed, FailureLog, Health, HealthAction, Progress, RECOVERY_INTERVAL, REPEAT_FAILURE_AFTER,
    STALL_AFTER, TICK,
};

// ---- the watchdog -------------------------------------------------
//
// This is the app's most important safety feature. WASAPI reports a dead
// capture stream by simply never signalling again: no error, no callback,
// the icon stays teal and the log says "running" while the microphone has
// been off the air for a quarter of an hour. Driving `observe` with an
// explicit clock is what makes those timings testable at all.

/// Nanoseconds on the clock, `secs` seconds after `base`.
fn at(base: u64, secs: f32) -> u64 {
    base + (f64::from(secs) * 1e9).round() as u64
}

/// Some time after boot.
const BASE: u64 = 7_000_000_000_000;

#[test]
fn a_counter_that_keeps_moving_is_never_disturbed() {
    let base = BASE;
    let mut h = Health::new_at(base);
    for i in 1..=20u64 {
        let action = h.observe(i, i, at(base, i as f32));
        assert_eq!(action, HealthAction::default(), "tick {i} was acted on");
    }
    assert!(!h.stalled);
}

/// A quiet room still produces frames — silence is data. Only a frozen
/// counter means the stream itself has died.
#[test]
fn a_brief_gap_is_not_a_stall() {
    let base = BASE;
    let mut h = Health::new_at(base);
    h.observe(1, 1, base);
    assert_eq!(h.observe(1, 1, at(base, 1.9)), HealthAction::default());
    assert!(!h.stalled, "1.9s is under the 2s threshold");
}

#[test]
fn a_frozen_counter_badges_the_icon_immediately() {
    let base = BASE;
    let mut h = Health::new_at(base);
    h.observe(1, 1, base);

    let action = h.observe(1, 1, at(base, 2.1));
    assert!(action.redraw, "the icon must stop looking healthy");
    assert!(h.stalled);
}

/// The badge appears as soon as the stall is detected, but the first
/// recovery attempt waits for the recovery interval measured from
/// start-up. That grace matters: a device still settling in the first
/// seconds after launch should not be torn down and reopened.
///
/// A device that dies *later* is not delayed — its last recovery is by
/// then long past, so the attempt goes out on the same tick as the badge.
#[test]
fn recovery_waits_out_the_start_up_grace_but_not_a_later_failure() {
    let base = BASE;
    let mut h = Health::new_at(base);
    h.observe(1, 1, base);
    assert!(
        !h.observe(1, 1, at(base, 2.1)).restart,
        "still within grace"
    );
    assert!(h.observe(1, 1, at(base, 5.1)).restart, "grace is over");

    // Now the same failure arriving after ten minutes of healthy audio.
    let base = BASE;
    let mut h = Health::new_at(base);
    h.observe(1, 1, at(base, 600.0));
    let action = h.observe(1, 1, at(base, 602.1));
    assert!(action.redraw && action.restart, "must not wait: {action:?}");
}

/// A device that stays gone must not be reopened every tick.
#[test]
fn recovery_is_not_attempted_more_than_once_per_interval() {
    let base = BASE;
    let mut h = Health::new_at(base);
    h.observe(1, 1, base);

    assert!(h.observe(1, 1, at(base, 5.1)).restart);

    // Ticks arrive every 500 ms; none of these may retry.
    for t in [5.6, 6.1, 7.0, 9.0, 10.0] {
        let action = h.observe(1, 1, at(base, t));
        assert!(!action.restart, "retried after only {}s", t - 5.1);
        assert!(!action.redraw, "already badged at 2.1s");
    }

    // Past the interval, try again.
    assert!(h.observe(1, 1, at(base, 10.2)).restart);
}

/// The counter moving again is the only evidence of recovery there is.
#[test]
fn audio_coming_back_clears_the_badge() {
    let base = BASE;
    let mut h = Health::new_at(base);
    h.observe(1, 1, base);
    assert!(h.observe(1, 1, at(base, 2.1)).redraw);
    assert!(h.stalled);

    let action = h.observe(2, 2, at(base, 2.5));
    assert!(action.redraw, "the badge has to come off");
    assert!(!action.restart);
    assert!(!h.stalled);

    // And a later freeze is treated as a fresh stall, not a continuation.
    assert_eq!(h.observe(2, 2, at(base, 3.0)), HealthAction::default());
    assert!(h.observe(2, 2, at(base, 4.6)).redraw, "must badge again");
}

/// The first observation happens before any audio has flowed. Starting
/// from zero must not read as an immediate stall.
#[test]
fn a_pipeline_that_has_not_produced_anything_yet_is_given_time() {
    let base = BASE;
    let mut h = Health::new_at(base);
    assert_eq!(h.observe(0, 0, base), HealthAction::default());
    assert_eq!(h.observe(0, 0, at(base, 1.0)), HealthAction::default());
    // But a pipeline that never produces a single frame is still broken.
    assert!(h.observe(0, 0, at(base, 2.5)).redraw);
}

/// The output half can die on its own: reconfigure the virtual cable in
/// Windows sound settings and its endpoint is invalidated while the
/// microphone is untouched. Capture and DSP carry on, so the frame counter
/// keeps climbing — and everyone on the call stops hearing anything.
/// Watching only that counter reports perfect health throughout.
#[test]
fn a_dead_output_is_caught_even_while_capture_keeps_running() {
    let base = BASE;
    let mut h = Health::new_at(base);

    // Healthy: both sides moving.
    for i in 1..=4u64 {
        let t = at(base, i as f32 * 0.5);
        assert_eq!(h.observe(i, i, t), HealthAction::default());
    }

    // Render stops asking for audio. Capture carries on regardless.
    let action = h.observe(20, 4, at(base, 4.6));
    assert!(
        action.redraw,
        "a dead output must badge the icon even though frames still flow"
    );
    assert!(h.stalled);
}

/// And the mirror image, so the two counters are not silently swapped.
#[test]
fn a_dead_capture_is_caught_even_while_the_output_keeps_polling() {
    let base = BASE;
    let mut h = Health::new_at(base);
    h.observe(1, 1, base);

    // Ring B empties, so render keeps polling and underrunning.
    let action = h.observe(1, 50, at(base, 2.1));
    assert!(action.redraw, "a dead microphone must still be caught");
}

/// The bug this branch exists to fix, one level up: when a restart fails
/// there is no pipeline left, so there are no counters to watch. Giving up
/// there means a mic unplugged for a few seconds is never picked up again
/// and the only way out is the menu — for the rest of the session.
#[test]
fn recovery_keeps_trying_when_there_is_no_pipeline_at_all() {
    let base = BASE;
    let mut h = Health::new_at(base);

    // A restart has just failed; nothing is running.
    assert!(!h.observe_stopped(at(base, 1.0)).restart, "within grace");
    assert!(h.stalled, "and it must not look healthy meanwhile");

    let first = h.observe_stopped(at(base, 5.1));
    assert!(first.restart, "the retry loop must keep running");

    // Still paced, not hammering the device.
    for t in [5.6, 7.0, 9.9] {
        assert!(!h.observe_stopped(at(base, t)).restart, "retried too soon");
    }
    assert!(h.observe_stopped(at(base, 10.2)).restart, "and again after");
}

/// Once a retry succeeds, the counters restart from whatever the new
/// pipeline reports — not from the dead one's values, which would read as
/// an immediate stall.
#[test]
fn a_successful_restart_rebases_both_counters() {
    let base = BASE;
    let mut h = Health::new_at(base);
    h.observe(900, 900, base);
    h.observe(900, 900, at(base, 2.1));
    assert!(h.stalled);

    // A fresh pipeline starts its counters at zero.
    let now = at(base, 6.0);
    h.rebase(0, 0, now);

    assert_eq!(
        h.observe(1, 1, at(base, 6.2)),
        HealthAction::default(),
        "the new pipeline's low counter must not read as a stall"
    );
}

// ---- the log of failures --------------------------------------------------

/// A machine with no working microphone retries every five seconds for as
/// long as it is switched on. One real report arrived with 6,000 copies of
/// a single sentence, which is how the lines that mattered got lost.
#[test]
fn the_same_failure_is_not_repeated_every_five_seconds() {
    let base = BASE;
    let mut log = FailureLog::default();

    assert!(log.should_report("no microphone is available", base));
    for i in 1..60 {
        assert!(
            !log.should_report("no microphone is available", at(base, i as f32 * 5.0)),
            "attempt {i} said the same thing; saying it again helps nobody"
        );
    }
}

/// A different reason means something changed, and that is worth knowing
/// straight away — it is the difference between "no microphone" and "this
/// microphone will not open".
#[test]
fn a_changed_reason_is_reported_at_once() {
    let base = BASE;
    let mut log = FailureLog::default();

    assert!(log.should_report("no microphone is available", base));
    assert!(
        log.should_report("GetMixFormat failed (0x8007007E)", at(base, 5.0)),
        "the reason changed, so it is news"
    );
}

/// Silence for hours is its own failure: an outage still has to be visible
/// to anyone reading the log later.
#[test]
fn a_long_outage_is_repeated_occasionally() {
    let base = BASE;
    let mut log = FailureLog::default();
    let reason = "no microphone is available";

    assert!(log.should_report(reason, base));
    let repeat = (REPEAT_FAILURE_AFTER / 1_000_000_000) as f32;
    let just_before = repeat - 1.0;
    assert!(!log.should_report(reason, at(base, just_before)));
    assert!(
        log.should_report(reason, at(base, repeat + 0.1)),
        "a five-minute reminder keeps a long outage visible"
    );
}

/// Recovering resets it, so the next failure is reported immediately
/// rather than swallowed as a repeat of something hours old.
#[test]
fn recovery_makes_the_next_failure_news_again() {
    let base = BASE;
    let mut log = FailureLog::default();
    let reason = "no microphone is available";

    assert!(log.should_report(reason, base));
    log.clear();
    assert!(log.should_report(reason, at(base, 5.0)));
}

// ---- more -----------------------------------------------------------------

#[test]
fn the_clock_never_runs_backwards() {
    assert_eq!(elapsed(3, 10), 7);
    assert_eq!(elapsed(10, 3), 0);
    assert_eq!(TICK, 500_000_000);
    assert_eq!(STALL_AFTER, 2_000_000_000);
    assert_eq!(RECOVERY_INTERVAL, 5_000_000_000);
    assert_eq!(REPEAT_FAILURE_AFTER, 300_000_000_000);
}

#[test]
fn a_counter_moves_until_it_has_stood_long_enough() {
    let mut p = Progress::new(0);
    assert!(p.moving(0, STALL_AFTER - 1));
    assert!(!p.moving(0, STALL_AFTER));
    assert!(p.moving(1, STALL_AFTER + 1));
    assert_eq!(
        p,
        Progress {
            last: 1,
            last_change: STALL_AFTER + 1
        }
    );
    p.reset(9, 5);
    assert_eq!(
        p,
        Progress {
            last: 9,
            last_change: 5
        }
    );
}

#[test]
fn the_log_names_the_side_that_went_quiet() {
    let mut h = Health::new_at(0);
    h.observe(1, 1, 0);
    assert_eq!(h.quiet_side(0), None);
    let later = STALL_AFTER;
    assert_eq!(h.quiet_side(later), Some("capture and output"));
    let mut capture_dead = h;
    capture_dead.render.reset(2, later);
    assert_eq!(capture_dead.quiet_side(later), Some("the capture device"));
    let mut output_dead = h;
    output_dead.capture.reset(2, later);
    assert_eq!(output_dead.quiet_side(later), Some("the output device"));
}

#[test]
fn redraw_says_exactly_that_the_state_changed() {
    let mut h = Health::new_at(0);
    for (frames, polls, t) in [
        (1u64, 1u64, 100u64),
        (1, 1, STALL_AFTER + 200),
        (1, 2, STALL_AFTER + 300),
        (2, 3, STALL_AFTER + 400),
        (3, 3, STALL_AFTER * 3),
    ] {
        let before = h.stalled;
        let action = h.observe(frames, polls, t);
        assert_eq!(action.redraw, before != h.stalled, "at {t}");
    }
}

#[test]
fn a_failure_log_remembers_what_it_said() {
    let mut log = FailureLog::default();
    assert!(log.should_report("a", 1));
    assert!(!log.should_report("a", REPEAT_FAILURE_AFTER));
    assert!(log.should_report("a", REPEAT_FAILURE_AFTER + 1));
    assert_eq!(log.last, Some(("a".to_string(), REPEAT_FAILURE_AFTER + 1)));
}

#[test]
fn requests_for_a_restart_are_never_crowded() {
    let mut h = Health::new_at(0);
    let mut asked: Vec<u64> = Vec::new();
    for tick in 1..200u64 {
        let now = tick * TICK;
        let action = if tick % 3 == 0 {
            h.observe_stopped(now)
        } else {
            h.observe(0, tick, now)
        };
        if action.restart {
            asked.push(now);
        }
    }
    assert!(asked.len() > 10);
    for pair in asked.windows(2) {
        assert!(pair[1] - pair[0] >= RECOVERY_INTERVAL);
    }
}
