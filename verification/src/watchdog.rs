//! Noticing that audio has stopped, and deciding when to try again.
//!
//! A dead stream is reported by the audio engine simply never signalling again:
//! no error, no callback. Counters are the only honest signal, because silence
//! still produces frames.
//!
//! Times are nanoseconds of a monotonic clock. A span between two of them is
//! zero when they come in the wrong order.

use vstd::prelude::*;
use vstd::string::*;

use crate::text::same_text;

verus! {

/// How often the event loop wakes to check health and refresh the tooltip.
pub const TICK: u64 = 500_000_000;

/// Frames stop for this long: the stream is dead, not the room quiet.
pub const STALL_AFTER: u64 = 2_000_000_000;

/// The device is not hammered if it stays gone.
pub const RECOVERY_INTERVAL: u64 = 5_000_000_000;

/// How often a failure that has not changed is worth repeating in the log.
pub const REPEAT_FAILURE_AFTER: u64 = 300_000_000_000;

/// The span from `earlier` to `later`.
pub open spec fn span(earlier: u64, later: u64) -> int {
    if later >= earlier {
        later - earlier
    } else {
        0
    }
}

pub fn elapsed(earlier: u64, later: u64) -> (r: u64)
    ensures
        r == span(earlier, later),
{
    if later >= earlier {
        later - earlier
    } else {
        0
    }
}

// ---- one counter ----------------------------------------------------------

/// A counter that is supposed to keep moving, and when it last did.
#[derive(Debug, Clone, Copy, PartialEq, Eq, Structural)]
pub struct Progress {
    pub last: u64,
    pub last_change: u64,
}

impl Progress {
    /// The counter after `value` was read at `now`.
    pub open spec fn fed(self, value: u64, now: u64) -> Progress {
        if value != self.last {
            Progress { last: value, last_change: now }
        } else {
            self
        }
    }

    /// It has changed recently enough.
    pub open spec fn alive(self, now: u64) -> bool {
        span(self.last_change, now) < STALL_AFTER
    }

    pub fn new(now: u64) -> (r: Self)
        ensures
            r == (Progress { last: 0, last_change: now }),
    {
        Progress { last: 0, last_change: now }
    }

    /// Feeds the current value; `true` while it is still moving.
    pub fn moving(&mut self, value: u64, now: u64) -> (r: bool)
        ensures
            *final(self) == old(self).fed(value, now),
            r == old(self).fed(value, now).alive(now),
    {
        if value != self.last {
            self.last = value;
            self.last_change = now;
        }
        elapsed(self.last_change, now) < STALL_AFTER
    }

    /// Starts over from `value`.
    pub fn reset(&mut self, value: u64, now: u64)
        ensures
            *final(self) == (Progress { last: value, last_change: now }),
    {
        self.last = value;
        self.last_change = now;
    }
}

// ---- both halves ----------------------------------------------------------

/// What the watchdog wants done about what it just saw. Two independent flags
/// rather than one verdict because the badge has to go up *before* a recovery
/// attempt: if the restart fails we must already have stopped looking healthy.
#[derive(Debug, Clone, Copy, PartialEq, Eq, Structural)]
pub struct HealthAction {
    /// The stall state changed; the icon no longer matches it.
    pub redraw: bool,
    /// Rebuild the pipeline.
    pub restart: bool,
}

impl Default for HealthAction {
    fn default() -> (r: Self)
        ensures
            r == (HealthAction { redraw: false, restart: false }),
    {
        HealthAction { redraw: false, restart: false }
    }
}

/// Watches for the pipeline going quiet without saying so.
///
/// Both halves need watching: when the output endpoint dies, capture and DSP
/// carry on and their counter keeps climbing while nobody on the call hears
/// anything again.
#[derive(Debug, Clone, Copy, PartialEq, Eq, Structural)]
pub struct Health {
    /// The DSP thread draining captured frames: proves capture is alive.
    pub capture: Progress,
    /// The render thread asking for audio: proves the *output* is alive.
    pub render: Progress,
    pub last_recovery: u64,
    pub stalled: bool,
}

impl Health {
    /// Both counters were read.
    pub open spec fn fed(self, frames: u64, render_polls: u64, now: u64) -> Health {
        Health {
            capture: self.capture.fed(frames, now),
            render: self.render.fed(render_polls, now),
            ..self
        }
    }

    /// Both sides are moving.
    pub open spec fn flowing(self, now: u64) -> bool {
        self.capture.alive(now) && self.render.alive(now)
    }

    /// The last recovery attempt is long enough ago for another.
    pub open spec fn recovery_due(self, now: u64) -> bool {
        span(self.last_recovery, now) >= RECOVERY_INTERVAL
    }

    /// The watchdog after an observation.
    pub open spec fn observed(self, frames: u64, render_polls: u64, now: u64) -> Health {
        let fed = self.fed(frames, render_polls, now);
        Health {
            stalled: !fed.flowing(now),
            last_recovery: if !fed.flowing(now) && fed.recovery_due(now) {
                now
            } else {
                fed.last_recovery
            },
            ..fed
        }
    }

    /// What is to be done about an observation: redraw when the stall state
    /// changes, restart when nothing flows and an attempt is due.
    pub open spec fn response(self, frames: u64, render_polls: u64, now: u64) -> HealthAction {
        let fed = self.fed(frames, render_polls, now);
        HealthAction {
            redraw: self.stalled == fed.flowing(now),
            restart: !fed.flowing(now) && fed.recovery_due(now),
        }
    }

    /// The watchdog after finding that nothing is running.
    pub open spec fn observed_stopped(self, now: u64) -> Health {
        Health {
            stalled: true,
            last_recovery: if self.recovery_due(now) {
                now
            } else {
                self.last_recovery
            },
            ..self
        }
    }

    /// The watchdog after a restart that worked.
    pub open spec fn restarted(self, frames: u64, render_polls: u64, now: u64) -> Health {
        Health {
            capture: Progress { last: frames, last_change: now },
            render: Progress { last: render_polls, last_change: now },
            stalled: false,
            ..self
        }
    }

    /// A watchdog that starts to watch.
    pub open spec fn fresh(now: u64) -> Health {
        Health {
            capture: Progress { last: 0, last_change: now },
            render: Progress { last: 0, last_change: now },
            last_recovery: now,
            stalled: false,
        }
    }

    /// Which side has gone quiet.
    pub open spec fn quiet(self, now: u64) -> Option<Seq<char>> {
        if self.flowing(now) {
            None
        } else if !self.capture.alive(now) && !self.render.alive(now) {
            Some("capture and output"@)
        } else if !self.capture.alive(now) {
            Some("the capture device"@)
        } else {
            Some("the output device"@)
        }
    }

    pub fn new_at(now: u64) -> (r: Self)
        ensures
            r == Health::fresh(now),
    {
        Health {
            capture: Progress::new(now),
            render: Progress::new(now),
            last_recovery: now,
            stalled: false,
        }
    }

    /// Feeds the watchdog one observation of both counters.
    pub fn observe(&mut self, frames: u64, render_polls: u64, now: u64) -> (action: HealthAction)
        ensures
            *final(self) == old(self).observed(frames, render_polls, now),
            action == old(self).response(frames, render_polls, now),
    {
        // Both must be evaluated: each records its own last-changed time.
        let capture_moving: bool = self.capture.moving(frames, now);
        let render_moving: bool = self.render.moving(render_polls, now);

        // Silence still produces frames and the engine still asks for them, so
        // movement on both sides means the stream is alive.
        if capture_moving && render_moving {
            if self.stalled {
                self.stalled = false;
                return HealthAction { redraw: true, restart: false };
            }
            return HealthAction { redraw: false, restart: false };
        }
        let mut action: HealthAction = HealthAction { redraw: false, restart: false };
        if !self.stalled {
            self.stalled = true;
            action.redraw = true;
        }
        if elapsed(self.last_recovery, now) >= RECOVERY_INTERVAL {
            self.last_recovery = now;
            action.restart = true;
        }
        action
    }

    /// Nothing is running, so there are no counters to watch. Recovery still
    /// has to keep trying: a restart that failed because the microphone was
    /// unplugged must succeed once it is plugged back in.
    pub fn observe_stopped(&mut self, now: u64) -> (action: HealthAction)
        ensures
            *final(self) == old(self).observed_stopped(now),
            action == (HealthAction { redraw: false, restart: old(self).recovery_due(now) }),
    {
        self.stalled = true;
        if elapsed(self.last_recovery, now) < RECOVERY_INTERVAL {
            return HealthAction { redraw: false, restart: false };
        }
        self.last_recovery = now;
        HealthAction { redraw: false, restart: true }
    }

    /// A restart worked: the counters start over from what the new pipeline
    /// reports, not from the dead one's values.
    pub fn rebase(&mut self, frames: u64, render_polls: u64, now: u64)
        ensures
            *final(self) == old(self).restarted(frames, render_polls, now),
    {
        self.capture.reset(frames, now);
        self.render.reset(render_polls, now);
        self.stalled = false;
    }

    /// Which side has gone quiet, for the log.
    pub fn quiet_side(&self, now: u64) -> (r: Option<&'static str>)
        ensures
            crate::text::said(r) == self.quiet(now),
    {
        let capture: bool = elapsed(self.capture.last_change, now) < STALL_AFTER;
        let render: bool = elapsed(self.render.last_change, now) < STALL_AFTER;
        if capture && render {
            None
        } else if !capture && !render {
            Some("capture and output")
        } else if !capture {
            Some("the capture device")
        } else {
            Some("the output device")
        }
    }
}

// ---- the log of failures --------------------------------------------------

/// Decides whether a recovery failure is news.
///
/// Retrying every few seconds forever is right: plug a microphone in and audio
/// recovers with no restart. Logging every attempt is not. So: say it the first
/// time, say it again whenever the reason changes, and otherwise once every five
/// minutes so that a long outage is still visible.
#[derive(Debug, Clone)]
pub struct FailureLog {
    pub last: Option<(String, u64)>,
}

impl FailureLog {
    /// The failure reported last, and when.
    pub open spec fn view(&self) -> Option<(Seq<char>, u64)> {
        match self.last {
            Some((reason, at)) => Some((reason@, at)),
            None => None,
        }
    }

    pub fn should_report(&mut self, reason: &str, now: u64) -> (news: bool)
        ensures
            news == is_news(old(self)@, reason@, now),
            final(self)@ == reported(old(self)@, reason@, now),
    {
        let news: bool = match &self.last {
            Some((seen, at)) => !same_text(seen.as_str(), reason) || elapsed(*at, now)
                >= REPEAT_FAILURE_AFTER,
            None => true,
        };
        if news {
            self.last = Some((reason.to_owned(), now));
        }
        news
    }

    /// Audio came back, so the next failure is news again.
    pub fn clear(&mut self)
        ensures
            final(self)@ is None,
    {
        self.last = None;
    }
}

impl Default for FailureLog {
    fn default() -> (r: Self)
        ensures
            r@ is None,
    {
        FailureLog { last: None }
    }
}

/// A failure for `reason` is worth a line, given what was reported last.
pub open spec fn is_news(last: Option<(Seq<char>, u64)>, reason: Seq<char>, now: u64) -> bool {
    match last {
        Some((seen, at)) => seen != reason || span(at, now) >= REPEAT_FAILURE_AFTER,
        None => true,
    }
}

/// What was reported last, after a failure for `reason`.
pub open spec fn reported(last: Option<(Seq<char>, u64)>, reason: Seq<char>, now: u64) -> Option<
    (Seq<char>, u64),
> {
    if is_news(last, reason, now) {
        Some((reason, now))
    } else {
        last
    }
}

// ---- laws -----------------------------------------------------------------

/// Counters that both moved since the last look are never acted on, and an icon
/// that showed a stall is put right.
pub proof fn moving_counters_are_left_alone(h: Health, frames: u64, render_polls: u64, now: u64)
    requires
        frames != h.capture.last,
        render_polls != h.render.last,
    ensures
        !h.response(frames, render_polls, now).restart,
        h.response(frames, render_polls, now).redraw == h.stalled,
        !h.observed(frames, render_polls, now).stalled,
{
}

/// Either side alone going quiet for long enough is a stall, whatever the other
/// does, and the icon stops looking healthy at once.
pub proof fn either_side_alone_is_caught(h: Health, frames: u64, render_polls: u64, now: u64)
    requires
        (frames == h.capture.last && span(h.capture.last_change, now) >= STALL_AFTER) || (
        render_polls == h.render.last && span(h.render.last_change, now) >= STALL_AFTER),
    ensures
        h.observed(frames, render_polls, now).stalled,
        h.response(frames, render_polls, now).redraw == !h.stalled,
{
}

/// A gap shorter than the threshold on both sides is not a stall.
pub proof fn a_brief_gap_is_no_stall(h: Health, frames: u64, render_polls: u64, now: u64)
    requires
        span(h.capture.last_change, now) < STALL_AFTER,
        span(h.render.last_change, now) < STALL_AFTER,
    ensures
        !h.observed(frames, render_polls, now).stalled,
        !h.response(frames, render_polls, now).restart,
{
}

/// The redraw flag says exactly that the stall state changed, so the icon always
/// matches it.
pub proof fn the_icon_follows_the_state(h: Health, frames: u64, render_polls: u64, now: u64)
    ensures
        h.response(frames, render_polls, now).redraw == (h.stalled != h.observed(
            frames,
            render_polls,
            now,
        ).stalled),
{
}

/// Two restarts are never closer together than the recovery interval, whichever
/// way each was asked for.
pub proof fn restarts_are_paced(h: Health, at: u64, frames: u64, render_polls: u64, now: u64)
    requires
        h.last_recovery == at,
        span(at, now) < RECOVERY_INTERVAL,
    ensures
        !h.response(frames, render_polls, now).restart,
        !h.recovery_due(now),
        h.observed(frames, render_polls, now).last_recovery == at,
        h.observed_stopped(now).last_recovery == at,
        h.restarted(frames, render_polls, now).last_recovery == at,
{
}

/// Asking for a restart records when, so that the pacing holds from there.
pub proof fn a_restart_is_remembered(h: Health, frames: u64, render_polls: u64, now: u64)
    ensures
        h.response(frames, render_polls, now).restart ==> h.observed(
            frames,
            render_polls,
            now,
        ).last_recovery == now,
        h.recovery_due(now) ==> h.observed_stopped(now).last_recovery == now,
{
}

/// Something the watchdog is told.
pub enum Sight {
    /// The counters of a running pipeline.
    Running { frames: u64, render_polls: u64, now: u64 },
    /// There is no pipeline.
    Stopped { now: u64 },
    /// A restart worked.
    Restarted { frames: u64, render_polls: u64, now: u64 },
}

impl Sight {
    pub open spec fn at(self) -> u64 {
        match self {
            Sight::Running { now, .. } => now,
            Sight::Stopped { now } => now,
            Sight::Restarted { now, .. } => now,
        }
    }
}

/// The watchdog after it was told something.
pub open spec fn after_sight(h: Health, sight: Sight) -> Health {
    match sight {
        Sight::Running { frames, render_polls, now } => h.observed(frames, render_polls, now),
        Sight::Stopped { now } => h.observed_stopped(now),
        Sight::Restarted { frames, render_polls, now } => h.restarted(frames, render_polls, now),
    }
}

/// It asks for a restart in response.
pub open spec fn asks(h: Health, sight: Sight) -> bool {
    match sight {
        Sight::Running { frames, render_polls, now } => h.response(
            frames,
            render_polls,
            now,
        ).restart,
        Sight::Stopped { now } => h.recovery_due(now),
        Sight::Restarted { .. } => false,
    }
}

/// The watchdog after it was told all of these.
pub open spec fn after_sights(h: Health, sights: Seq<Sight>) -> Health
    decreases sights.len(),
{
    if sights.len() == 0 {
        h
    } else {
        after_sight(after_sights(h, sights.drop_last()), sights.last())
    }
}

/// Over a whole run, two requests for a restart are never closer together than
/// the recovery interval, whatever is seen in between.
pub proof fn restarts_never_crowd(h: Health, sights: Seq<Sight>, i: int, j: int)
    requires
        0 <= i < j < sights.len(),
        forall|a: int, b: int|
            0 <= a <= b < sights.len() ==> (#[trigger] sights[a]).at() <= (
            #[trigger] sights[b]).at(),
        asks(after_sights(h, sights.take(i)), sights[i]),
        asks(after_sights(h, sights.take(j)), sights[j]),
    ensures
        span(sights[i].at(), sights[j].at()) >= RECOVERY_INTERVAL,
{
    lemma_recovery_kept(h, sights, i, j);
}

proof fn lemma_recovery_kept(h: Health, sights: Seq<Sight>, i: int, j: int)
    requires
        0 <= i < j <= sights.len(),
        forall|a: int, b: int|
            0 <= a <= b < sights.len() ==> (#[trigger] sights[a]).at() <= (
            #[trigger] sights[b]).at(),
        asks(after_sights(h, sights.take(i)), sights[i]),
    ensures
        after_sights(h, sights.take(j)).last_recovery >= sights[i].at(),
    decreases j,
{
    assert(sights.take(j).drop_last() =~= sights.take(j - 1));
    assert(sights.take(j).last() == sights[j - 1]);
    if j > i + 1 {
        lemma_recovery_kept(h, sights, i, j - 1);
        assert(sights[i].at() <= sights[j - 1].at());
    }
}

/// Every one of these is a running pipeline whose capture counter, or whose
/// render counter, stands at `value`.
pub open spec fn frozen(sights: Seq<Sight>, render: bool, value: u64) -> bool {
    forall|i: int|
        0 <= i < sights.len() ==> match #[trigger] sights[i] {
            Sight::Running { frames, render_polls, now } => value == if render {
                render_polls
            } else {
                frames
            },
            _ => false,
        }
}

/// A counter that stands still is noticed, whichever side it is on and whatever
/// the other side does meanwhile: once it has stood for the threshold, the next
/// look calls it a stall.
pub proof fn a_frozen_counter_is_noticed(
    h: Health,
    sights: Seq<Sight>,
    render: bool,
    value: u64,
)
    requires
        sights.len() > 0,
        frozen(sights, render, value),
        h.capture.last_change <= sights[0].at(),
        h.render.last_change <= sights[0].at(),
        sights[0].at() + STALL_AFTER <= sights.last().at(),
    ensures
        after_sights(h, sights).stalled,
{
    lemma_frozen(h, sights, render, value);
}

proof fn lemma_frozen(h: Health, sights: Seq<Sight>, render: bool, value: u64)
    requires
        sights.len() > 0,
        frozen(sights, render, value),
        h.capture.last_change <= sights[0].at(),
        h.render.last_change <= sights[0].at(),
    ensures
        ({
            let after = after_sights(h, sights);
            let side = if render {
                after.render
            } else {
                after.capture
            };
            &&& side.last == value
            &&& side.last_change <= sights[0].at()
            &&& sights[0].at() + STALL_AFTER <= sights.last().at() ==> after.stalled
        }),
    decreases sights.len(),
{
    let rest = sights.drop_last();
    assert(sights[sights.len() - 1] == sights.last());
    if rest.len() > 0 {
        assert(rest[0] == sights[0]);
        assert(frozen(rest, render, value)) by {
            assert forall|i: int| 0 <= i < rest.len() implies match #[trigger] rest[i] {
                Sight::Running { frames, render_polls, now } => value == if render {
                    render_polls
                } else {
                    frames
                },
                _ => false,
            } by {
                assert(rest[i] == sights[i]);
            }
        }
        lemma_frozen(h, rest, render, value);
    } else {
        assert(after_sights(h, rest) == h);
    }
}

/// As long as nothing flows, a restart is asked for as soon as one is due: the
/// retrying never gives up.
pub proof fn recovery_never_gives_up(h: Health, frames: u64, render_polls: u64, now: u64)
    requires
        span(h.last_recovery, now) >= RECOVERY_INTERVAL,
    ensures
        h.observed(frames, render_polls, now).stalled ==> h.response(
            frames,
            render_polls,
            now,
        ).restart,
        h.recovery_due(now),
{
}

/// A pipeline that has just been restarted is given time, whatever its counters
/// say.
pub proof fn a_fresh_pipeline_is_given_time(
    h: Health,
    frames: u64,
    render_polls: u64,
    started: u64,
    seen: u64,
    polled: u64,
    now: u64,
)
    requires
        span(started, now) < STALL_AFTER,
    ensures
        h.restarted(frames, render_polls, started).response(seen, polled, now) == (HealthAction {
            redraw: false,
            restart: false,
        }),
{
}

/// An unchanged failure is reported again after the repeat interval and not
/// before; a changed one at once.
pub proof fn failures_are_reported_sparingly(
    reason: Seq<char>,
    at: u64,
    other: Seq<char>,
    now: u64,
)
    ensures
        is_news(None, reason, now),
        is_news(Some((reason, at)), reason, now) == (span(at, now) >= REPEAT_FAILURE_AFTER),
        other != reason ==> is_news(Some((reason, at)), other, now),
{
}

/// A side has stood still: the same number as at the last look, for two seconds or more
/// since it last changed.
pub open spec fn stood_still(side: Progress, value: u64, now: u64) -> bool {
    value == side.last && now - side.last_change >= 2_000_000_000
}

/// Audio is called stalled exactly when either side has stood still, the icon is redrawn
/// exactly when that is a change, and a restart is asked for exactly when it is stalled
/// and the last one is five seconds ago or more; asking starts the five seconds again.
pub proof fn a_stall_is_either_side_standing_still(
    h: Health,
    frames: u64,
    render_polls: u64,
    now: u64,
)
    ensures
        ({
            let stalled = stood_still(h.capture, frames, now) || stood_still(
                h.render,
                render_polls,
                now,
            );
            let due = now - h.last_recovery >= 5_000_000_000;
            let after = h.observed(frames, render_polls, now);
            let action = h.response(frames, render_polls, now);
            &&& after.stalled == stalled
            &&& action.redraw == (stalled != h.stalled)
            &&& action.restart == (stalled && due)
            &&& after.last_recovery == if stalled && due {
                now
            } else {
                h.last_recovery
            }
        }),
{
}

/// What a counter showed and when it last changed is remembered, each side for itself.
pub proof fn each_side_is_remembered(h: Health, frames: u64, render_polls: u64, now: u64)
    ensures
        ({
            let after = h.observed(frames, render_polls, now);
            &&& after.capture.last == frames
            &&& after.render.last == render_polls
            &&& after.capture.last_change == if frames == h.capture.last {
                h.capture.last_change
            } else {
                now
            }
            &&& after.render.last_change == if render_polls == h.render.last {
                h.render.last_change
            } else {
                now
            }
        }),
{
}

/// With no pipeline at all the audio is stalled, and a restart is asked for exactly when
/// the last one is five seconds ago or more.
pub proof fn a_missing_pipeline_is_retried(h: Health, now: u64)
    ensures
        h.observed_stopped(now).stalled,
        h.recovery_due(now) == (now - h.last_recovery >= 5_000_000_000),
        h.observed_stopped(now).last_recovery == if now - h.last_recovery >= 5_000_000_000 {
            now
        } else {
            h.last_recovery
        },
        h.observed_stopped(now).capture == h.capture,
        h.observed_stopped(now).render == h.render,
{
}

/// A restart that worked clears the stall and starts both counters over from what the
/// new pipeline reports; when the next restart may come is not its matter.
pub proof fn a_restart_starts_over(h: Health, frames: u64, render_polls: u64, now: u64)
    ensures
        ({
            let after = h.restarted(frames, render_polls, now);
            &&& !after.stalled
            &&& after.capture.last == frames && after.capture.last_change == now
            &&& after.render.last == render_polls && after.render.last_change == now
            &&& after.last_recovery == h.last_recovery
        }),
{
}

/// The side named in the log is the one that has stood still for two seconds.
pub proof fn the_quiet_side_is_named(h: Health, now: u64)
    ensures
        ({
            let capture = now - h.capture.last_change >= 2_000_000_000;
            let render = now - h.render.last_change >= 2_000_000_000;
            &&& !capture && !render ==> h.quiet(now) is None
            &&& capture && render ==> h.quiet(now) == Some("capture and output"@)
            &&& capture && !render ==> h.quiet(now) == Some("the capture device"@)
            &&& !capture && render ==> h.quiet(now) == Some("the output device"@)
        }),
{
}

/// The same failure is news again after five minutes and not a moment sooner; another
/// one is news at once, and so is the first.
pub proof fn a_failure_is_repeated_every_five_minutes(
    last: Option<(Seq<char>, u64)>,
    reason: Seq<char>,
    now: u64,
)
    ensures
        is_news(last, reason, now) == (match last {
            Some((seen, at)) => seen != reason || now - at >= 300_000_000_000,
            None => true,
        }),
{
}

/// A failure that was news is what was reported last, from that moment on; one that was not
/// leaves that as it was. So the five minutes are counted from the line in the log.
pub proof fn a_reported_failure_is_remembered(
    last: Option<(Seq<char>, u64)>,
    reason: Seq<char>,
    now: u64,
    later: u64,
)
    ensures
        is_news(last, reason, now) ==> reported(last, reason, now) == Some((reason, now)),
        !is_news(last, reason, now) ==> reported(last, reason, now) == last,
        is_news(last, reason, now) && now <= later < now + 300_000_000_000 ==> !is_news(
            reported(last, reason, now),
            reason,
            later,
        ),
{
}

/// A device still settling in after launch is left alone: nothing is a stall within two
/// seconds of the start, whatever the counters say, and no restart is asked for within
/// five.
pub proof fn a_launch_is_given_time(started: u64, frames: u64, render_polls: u64, now: u64)
    ensures
        !Health::fresh(started).stalled,
        now - started < 2_000_000_000 ==> Health::fresh(started).response(
            frames,
            render_polls,
            now,
        ) == (HealthAction { redraw: false, restart: false }),
        now - started < 5_000_000_000 ==> !Health::fresh(started).response(
            frames,
            render_polls,
            now,
        ).restart && !Health::fresh(started).recovery_due(now),
        now - started >= 5_000_000_000 ==> Health::fresh(started).response(0, render_polls, now).restart
            && Health::fresh(started).response(frames, 0, now).restart,
{
}

/// Time that has passed is what lies between, and none where the clock seems to have
/// gone back.
pub proof fn time_does_not_run_backwards(earlier: u64, later: u64)
    ensures
        later >= earlier ==> span(earlier, later) + earlier == later,
        later < earlier ==> span(earlier, later) == 0,
{
}

} // verus!
