//! From the microphone to the virtual cable: which devices to use, how to start
//! them, and what each of the audio threads does with a frame.
//!
//! Capture fills the first ring, the DSP thread empties it into the second, and
//! render empties that one.

use vstd::prelude::*;
use vstd::string::*;

use crate::config::{Config, ConfigView};
use crate::devices;
use crate::devices::{known_cable_products, same_device_name, Device, DeviceList};
use crate::error::{AudioError, CauseView, StartError, StartErrorView};
use crate::ring;
use crate::ring::{Consuming, Frame, Producing};
use crate::text;
use crate::text::join_words;
use crate::watchdog;
use crate::watchdog::elapsed;

verus! {

/// Frames a ring has room for, about 80 ms: enough to absorb a scheduler
/// hiccup, small enough not to hide actual problems.
pub const RING_FRAMES: usize = 8;

// ---- which devices --------------------------------------------------------

/// What is said when there is nothing to record from.
pub const NO_MICROPHONE: &'static str = "no microphone is available";

/// Before the name of the cable whose own output was chosen.
pub const LOOP_HEAD: &'static str = "the selected microphone is ";

/// After it.
pub const LOOP_TAIL: &'static str = "'s own output, which is where RoomMute sends audio — routing it \
back in would loop. Pick a real microphone from the tray menu";

/// Before the names of the cables that were looked for.
pub const NO_CABLE_HEAD: &'static str = "no virtual audio cable is installed (looked for ";

/// After them.
pub const NO_CABLE_TAIL: &'static str = "). Cleaned audio needs one so other apps can hear it as a \
microphone. Install VB-Cable, or name one in output_device";

/// What is being done while devices are listed.
pub const ENUMERATING: &'static str = "enumerating audio devices";

/// Why a cable's own output is not recorded from.
pub open spec fn loop_text(product: Seq<char>) -> Seq<char> {
    LOOP_HEAD@ + product + LOOP_TAIL@
}

/// The products of the cables we know.
pub open spec fn products() -> Seq<Seq<char>> {
    Seq::new(devices::known_cables().len(), |i: int| devices::known_cables()[i].product)
}

/// What is said when there is nowhere to send audio.
pub open spec fn no_cable_text() -> Seq<char> {
    NO_CABLE_HEAD@ + text::join(products(), ", "@) + NO_CABLE_TAIL@
}

/// The ids of those that are not a cable's own output, in order.
pub open spec fn safe_ids(s: Seq<Device>) -> Seq<Seq<char>>
    decreases s.len(),
{
    if s.len() == 0 {
        Seq::empty()
    } else if s.last().cable_output() is None {
        safe_ids(s.drop_last()).push(s.last().id@)
    } else {
        safe_ids(s.drop_last())
    }
}

/// The microphones to try, best first, and the output to use; or why there are
/// none.
pub open spec fn selection(list: DeviceList, cfg: ConfigView) -> Result<
    (Seq<Seq<char>>, Seq<char>),
    StartErrorView,
> {
    let candidates = list.candidates(cfg.microphones);
    if candidates.len() == 0 {
        Err(StartErrorView { cause: CauseView::Message(NO_MICROPHONE@), contexts: Seq::empty() })
    } else {
        match candidates[0].cable_output() {
            Some(product) => Err(
                StartErrorView {
                    cause: CauseView::Message(loop_text(product)),
                    contexts: Seq::empty(),
                },
            ),
            None => match list.output(cfg.output_device) {
                Ok(output) => Ok((safe_ids(candidates), output.id@)),
                Err(e) => Err(
                    StartErrorView { cause: CauseView::Audio(e), contexts: seq![no_cable_text()] },
                ),
            },
        }
    }
}

/// A selection of devices with its strings read as texts.
pub open spec fn selected(r: Result<(Vec<String>, String), StartError>) -> Result<
    (Seq<Seq<char>>, Seq<char>),
    StartErrorView,
> {
    match r {
        Ok((inputs, output)) => Ok((text::texts(inputs@), output@)),
        Err(e) => Err(e@),
    }
}

fn no_cable_message() -> (s: String)
    ensures
        s@ == no_cable_text(),
{
    let names: Vec<&'static str> = known_cable_products();
    assert(text::words(names@) =~= products());
    let mut s: String = String::new();
    s.append(NO_CABLE_HEAD);
    s.append(join_words(&names, ", ").as_str());
    s.append(NO_CABLE_TAIL);
    assert(s@ =~= no_cable_text());
    s
}

/// Chooses input and output from an inventory.
///
/// Every candidate, not just the winner: a device can be listed and still refuse
/// to open, and the caller tries them in turn. What would feed a cable into
/// itself is refused as first choice and left out as a fallback. Without a cable
/// nothing falls back to the default output: that would play the microphone out
/// of whatever speakers happen to be default.
pub fn pick_devices(list: &DeviceList, cfg: &Config) -> (r: Result<(Vec<String>, String), StartError>)
    ensures
        selected(r) == selection(*list, cfg@),
{
    let candidates: Vec<&Device> = list.capture_candidates(cfg.microphones.as_slice());
    if candidates.len() == 0 {
        return Err(StartError::message(NO_MICROPHONE));
    }
    let ghost all = list.candidates(cfg@.microphones);
    assert(devices::values(candidates@) == all);
    assert(*candidates@[0] == all[0]);
    match candidates[0].virtual_cable_output() {
        Some(product) => {
            let mut what: String = String::new();
            what.append(LOOP_HEAD);
            what.append(product);
            what.append(LOOP_TAIL);
            assert(what@ =~= loop_text(product@));
            return Err(StartError::message(what.as_str()));
        },
        None => {},
    }
    match list.resolve_render(cfg.output_device.as_str()) {
        Ok(output) => {
            let mut inputs: Vec<String> = Vec::new();
            assert(text::texts(inputs@) =~= safe_ids(all.take(0)));
            for i in 0..candidates.len()
                invariant
                    devices::values(candidates@) == all,
                    text::texts(inputs@) == safe_ids(all.take(i as int)),
            {
                assert(*candidates@[i as int] == all[i as int]);
                assert(all.take(i + 1).drop_last() =~= all.take(i as int));
                if candidates[i].virtual_cable_output().is_none() {
                    let ghost before = text::texts(inputs@);
                    inputs.push(candidates[i].id.clone());
                    assert(text::texts(inputs@) =~= before.push(all[i as int].id@));
                }
            }
            assert(all.take(all.len() as int) =~= all);
            Ok((inputs, output.id.clone()))
        },
        Err(e) => {
            let r: StartError = StartError::audio(e).context(no_cable_message().as_str());
            assert(r@.contexts =~= seq![no_cable_text()]);
            Err(r)
        },
    }
}

/// The devices to use, given what listing them came to.
pub open spec fn resolution(list: Result<DeviceList, AudioError>, cfg: ConfigView) -> Result<
    (Seq<Seq<char>>, Seq<char>),
    StartErrorView,
> {
    match list {
        Ok(l) => selection(l, cfg),
        Err(e) => Err(StartErrorView { cause: CauseView::Audio(e@), contexts: seq![ENUMERATING@] }),
    }
}

/// Chooses input and output from what listing the devices came to.
pub fn resolve_devices(list: Result<DeviceList, AudioError>, cfg: &Config) -> (r: Result<
    (Vec<String>, String),
    StartError,
>)
    ensures
        selected(r) == resolution(list, cfg@),
{
    match list {
        Ok(l) => pick_devices(&l, cfg),
        Err(e) => {
            let r: StartError = StartError::audio(e).context(ENUMERATING);
            assert(r@.contexts =~= seq![ENUMERATING@]);
            Err(r)
        },
    }
}

/// There is a first choice, and the microphone in use is not it.
pub open spec fn is_step_down(cfg: ConfigView, using: Seq<char>) -> bool {
    cfg.microphones.len() > 0 && !devices::same_device(cfg.microphones[0], using)
}

/// Is the microphone in use another one than the user prefers? Worth saying, so
/// that a silent step down to the built-in microphone is no mystery later.
pub fn stepped_down(cfg: &Config, using: &str) -> (r: bool)
    ensures
        r == is_step_down(cfg@, using@),
{
    if cfg.microphones.len() == 0 {
        false
    } else {
        !same_device_name(cfg.microphones[0].as_str(), using)
    }
}

// ---- starting -------------------------------------------------------------

/// How far starting on one microphone has come, and so what is to be done next.
///
/// The denoiser is loaded after both devices are open, because loading takes a
/// while and most failed starts fail on a device. The DSP thread, which owns the
/// denoiser, is spawned last: until then a failure has nothing to stop.
#[derive(Debug)]
pub enum Build {
    OpenCapture,
    OpenRender,
    LoadDenoiser,
    SpawnDsp,
    Running,
    Failed(StartError),
}

/// A [`Build`] with its strings read as texts.
pub enum BuildView {
    OpenCapture,
    OpenRender,
    LoadDenoiser,
    SpawnDsp,
    Running,
    Failed(StartErrorView),
}

impl View for Build {
    type V = BuildView;

    open spec fn view(&self) -> BuildView {
        match *self {
            Build::OpenCapture => BuildView::OpenCapture,
            Build::OpenRender => BuildView::OpenRender,
            Build::LoadDenoiser => BuildView::LoadDenoiser,
            Build::SpawnDsp => BuildView::SpawnDsp,
            Build::Running => BuildView::Running,
            Build::Failed(e) => BuildView::Failed(e@),
        }
    }
}

/// What was being done when a step failed, where that needs saying.
pub open spec fn step_context(b: BuildView) -> Option<Seq<char>> {
    match b {
        BuildView::LoadDenoiser => Some("loading denoiser"@),
        BuildView::SpawnDsp => Some("spawn dsp thread"@),
        _ => None,
    }
}

/// What became of a step, with its strings read as texts.
pub open spec fn step_outcome(r: Result<(), StartError>) -> Result<(), StartErrorView> {
    match r {
        Ok(_) => Ok(()),
        Err(e) => Err(e@),
    }
}

/// How far starting has come once a step came out so.
pub open spec fn advanced(b: BuildView, outcome: Result<(), StartErrorView>) -> BuildView {
    match b {
        BuildView::Running => BuildView::Running,
        BuildView::Failed(e) => BuildView::Failed(e),
        _ => match outcome {
            Err(e) => BuildView::Failed(
                match step_context(b) {
                    Some(what) => StartErrorView {
                        cause: e.cause,
                        contexts: e.contexts.push(what),
                    },
                    None => e,
                },
            ),
            Ok(_) => match b {
                BuildView::OpenCapture => BuildView::OpenRender,
                BuildView::OpenRender => BuildView::LoadDenoiser,
                BuildView::LoadDenoiser => BuildView::SpawnDsp,
                _ => BuildView::Running,
            },
        },
    }
}

impl Build {
    pub fn new() -> (r: Self)
        ensures
            r@ == BuildView::OpenCapture,
    {
        Build::OpenCapture
    }

    /// Takes what became of the step that was to be done. A start that is
    /// running or has failed stays so.
    pub fn advance(self, outcome: Result<(), StartError>) -> (r: Self)
        ensures
            r@ == advanced(self@, step_outcome(outcome)),
    {
        match self {
            Build::Running => Build::Running,
            Build::Failed(e) => Build::Failed(e),
            Build::OpenCapture => match outcome {
                Ok(_) => Build::OpenRender,
                Err(e) => Build::Failed(e),
            },
            Build::OpenRender => match outcome {
                Ok(_) => Build::LoadDenoiser,
                Err(e) => Build::Failed(e),
            },
            Build::LoadDenoiser => match outcome {
                Ok(_) => Build::SpawnDsp,
                Err(e) => Build::Failed(e.context("loading denoiser")),
            },
            Build::SpawnDsp => match outcome {
                Ok(_) => Build::Running,
                Err(e) => Build::Failed(e.context("spawn dsp thread")),
            },
        }
    }
}

/// Trying each microphone in turn and keeping the first that actually opens.
///
/// A device being listed does not mean it can be used: an endpoint whose effects
/// chain is broken is listed perfectly and then fails to open. Only when every
/// candidate has failed does an error reach the user, and it is the last real
/// failure rather than a summary.
#[derive(Debug)]
pub struct RankedStart {
    pub ids: Vec<String>,
    /// How many have failed.
    pub tried: usize,
    /// Why the last of them failed.
    pub last: Option<StartError>,
}

/// A [`RankedStart`] with its strings read as texts.
pub struct RankedStartView {
    pub ids: Seq<Seq<char>>,
    pub tried: nat,
    pub last: Option<StartErrorView>,
}

impl View for RankedStart {
    type V = RankedStartView;

    open spec fn view(&self) -> RankedStartView {
        RankedStartView {
            ids: text::texts(self.ids@),
            tried: self.tried as nat,
            last: match self.last {
                Some(e) => Some(e@),
                None => None,
            },
        }
    }
}

/// What is said when there was nothing to try.
pub open spec fn nothing_to_try() -> StartErrorView {
    StartErrorView { cause: CauseView::Message(NO_MICROPHONE@), contexts: Seq::empty() }
}

impl RankedStartView {
    /// The one to try next: the first that has not been tried.
    pub open spec fn next(self) -> Option<Seq<char>> {
        if self.tried < self.ids.len() {
            Some(self.ids[self.tried as int])
        } else {
            None
        }
    }

    /// What to say when there is none.
    pub open spec fn verdict(self) -> StartErrorView {
        match self.last {
            Some(e) => e,
            None => nothing_to_try(),
        }
    }

    /// Another has failed before the next one.
    pub open spec fn fallen_back(self) -> bool {
        self.last is Some
    }

    /// The next one failed too.
    pub open spec fn after(self, e: StartErrorView) -> RankedStartView {
        RankedStartView { ids: self.ids, tried: self.tried + 1, last: Some(e) }
    }
}

impl RankedStart {
    pub fn new(ids: Vec<String>) -> (r: Self)
        ensures
            r@ == (RankedStartView { ids: text::texts(ids@), tried: 0, last: None }),
    {
        RankedStart { ids, tried: 0, last: None }
    }

    /// The id of the microphone to try next, if any is left.
    pub fn next(&self) -> (r: Option<&str>)
        ensures
            text::said(r) == self@.next(),
    {
        if self.tried < self.ids.len() {
            Some(self.ids[self.tried].as_str())
        } else {
            None
        }
    }

    /// What to say when none is left.
    pub fn give_up(self) -> (r: StartError)
        ensures
            r@ == self@.verdict(),
    {
        match self.last {
            Some(e) => e,
            None => StartError::message(NO_MICROPHONE),
        }
    }

    /// The microphone that was to be tried did not start.
    pub fn failed(&mut self, e: StartError)
        requires
            old(self)@.next() is Some,
        ensures
            final(self)@ == old(self)@.after(e@),
    {
        assert(self.tried < self.ids.len());
        self.tried = self.tried + 1;
        self.last = Some(e);
    }

    /// Has another microphone failed before this one? Worth saying once one
    /// starts.
    pub fn is_fallback(&self) -> (r: bool)
        ensures
            r == self@.fallen_back(),
    {
        self.last.is_some()
    }
}

// ---- the audio threads ----------------------------------------------------

/// No audio for longer than this is worth a line in the log.
pub const GAP_AFTER: u64 = 2_000_000_000;

/// How far apart lines about the same trouble have to be, at least.
pub const QUIET_BETWEEN: u64 = 5_000_000_000;

/// A line is due: there was none yet, or the last one is long enough ago.
pub open spec fn due(last: Option<u64>, now: u64) -> bool {
    match last {
        None => true,
        Some(at) => watchdog::span(at, now) > QUIET_BETWEEN,
    }
}

/// When the last line was written, after trouble.
pub open spec fn logged(last: Option<u64>, now: u64) -> Option<u64> {
    if due(last, now) {
        Some(now)
    } else {
        last
    }
}

fn is_due(last: Option<u64>, now: u64) -> (r: bool)
    ensures
        r == due(last, now),
{
    match last {
        None => true,
        Some(at) => elapsed(at, now) > QUIET_BETWEEN,
    }
}

/// A frame was offered to a ring, which kept it or was full. Where room is known
/// of, the frame is kept; a frame is refused only by a ring that is full as far as
/// its half can see.
pub open spec fn offered(before: Producing, after: Producing, frame: Frame, kept: bool) -> bool {
    &&& ring::outbound(after) == ring::outbound(before)
    &&& ring::room(after) == ring::room(before)
    &&& kept ==> ring::outbound(before)[ring::sent(before) as int] == frame
    &&& ring::sent(after) == ring::sent(before) + if kept {
        1nat
    } else {
        0
    }
    &&& ring::sent(before) - ring::freed(before) < ring::room(before) ==> kept && ring::freed(after)
        == ring::freed(before)
    &&& !kept ==> ring::sent(after) - ring::freed(after) == ring::room(after)
    &&& ring::freed(before) <= ring::freed(after) <= ring::sent(after)
    &&& ring::sent(after) - ring::freed(after) <= ring::room(after)
}

/// The next frame was asked for, and there was one or not. A frame that is known
/// of is never skipped; there is none only where the ring is empty as far as its
/// half can see.
pub open spec fn asked(before: Consuming, after: Consuming, popped: Option<Frame>) -> bool {
    &&& ring::inbound(after) == ring::inbound(before)
    &&& match popped {
        Some(frame) => {
            &&& ring::inbound(before)[ring::received(before) as int] == frame
            &&& ring::received(after) == ring::received(before) + 1
        },
        None => {
            &&& ring::received(after) == ring::received(before)
            &&& ring::received(before) >= ring::seen(before)
            &&& ring::received(after) == ring::seen(after)
        },
    }
    &&& ring::received(before) < ring::seen(before) ==> ring::seen(after) == ring::seen(before)
    &&& ring::seen(before) <= ring::seen(after)
    &&& ring::received(after) <= ring::seen(after)
}

/// Where captured frames go.
pub struct CaptureSink {
    pub output: Producing,
}

impl CaptureSink {
    /// Takes a captured frame; `false` when the DSP thread is so far behind that
    /// it had to be dropped. Audible as a tiny click, and far better than
    /// blocking the audio engine.
    pub fn on_frame(&mut self, frame: &Frame) -> (kept: bool)
        ensures
            offered(old(self).output, final(self).output, *frame, kept),
    {
        match ring::try_push(&mut self.output, *frame) {
            Ok(_) => true,
            Err(_frame) => false,
        }
    }
}

/// Audio was asked for, and a frame came or not.
pub open spec fn polled(before: RenderSource, after: RenderSource, r: Option<Frame>) -> bool {
    &&& asked(before.input, after.input, r)
    &&& after.polls == before.polls.wrapping_add(1)
    &&& after.last_underrun_log == before.last_underrun_log
}

/// Where rendered frames come from.
pub struct RenderSource {
    pub input: Consuming,
    /// When an underrun was last logged.
    pub last_underrun_log: Option<u64>,
    /// How often audio was asked for: the pulse of the render thread, which only
    /// asks while it is alive and its device is signalling.
    pub polls: u64,
}

impl RenderSource {
    /// The next frame to play, if the DSP thread has delivered one.
    pub fn next_frame(&mut self) -> (r: Option<Frame>)
        ensures
            polled(*old(self), *final(self), r),
    {
        self.polls = self.polls.wrapping_add(1);
        ring::try_pop(&mut self.input)
    }

    /// There was nothing to play: is that worth a line in the log?
    pub fn on_underrun(&mut self, now: u64) -> (report: bool)
        ensures
            report == due(old(self).last_underrun_log, now),
            final(self).last_underrun_log == logged(old(self).last_underrun_log, now),
            final(self).input == old(self).input,
            final(self).polls == old(self).polls,
    {
        let report: bool = is_due(self.last_underrun_log, now);
        if report {
            self.last_underrun_log = Some(now);
        }
        report
    }
}

/// What the DSP thread remembers between frames.
#[derive(Debug, Clone, Copy)]
pub struct DspState {
    pub last_frame_at: u64,
    pub reported_gap: bool,
    /// When dropping frames was last logged.
    pub last_drop_log: Option<u64>,
    /// Frames taken so far. Silence still produces frames, so a counter that
    /// stops tells a dead device from a quiet room.
    pub frames: u64,
}

/// What the DSP thread does about having found a frame, or none.
#[derive(Debug, Clone, Copy)]
pub enum DspStep {
    /// Nothing there: sleep a little. With `gap_ms`, say that the microphone has
    /// been silent for that long.
    Wait { gap_ms: Option<u64> },
    /// Pass the frame on as it is. With `resumed`, say that audio is back.
    Pass { frame: Frame, resumed: bool },
    /// Denoise the frame, then pass it on.
    Denoise { frame: Frame, resumed: bool },
}

impl DspState {
    /// The state after a frame was found, or none.
    pub open spec fn found(self, popped: Option<Frame>, now: u64) -> DspState {
        match popped {
            None => DspState { reported_gap: self.reported_gap || self.gap(now) is Some, ..self },
            Some(_frame) => DspState {
                last_frame_at: now,
                reported_gap: false,
                frames: self.frames.wrapping_add(1),
                ..self
            },
        }
    }

    /// The gap to report, in milliseconds: one that is long enough and has not
    /// been reported.
    pub open spec fn gap(self, now: u64) -> Option<u64> {
        if !self.reported_gap && watchdog::span(self.last_frame_at, now) > GAP_AFTER {
            Some((watchdog::span(self.last_frame_at, now) / 1_000_000) as u64)
        } else {
            None
        }
    }

    /// What to do about it.
    pub open spec fn step(self, popped: Option<Frame>, bypass: bool, now: u64) -> DspStep {
        match popped {
            None => DspStep::Wait { gap_ms: self.gap(now) },
            Some(frame) => if bypass {
                DspStep::Pass { frame, resumed: self.reported_gap }
            } else {
                DspStep::Denoise { frame, resumed: self.reported_gap }
            },
        }
    }

    /// The state after the next ring kept a frame, or had no room for it.
    pub open spec fn offered(self, kept: bool, now: u64) -> DspState {
        DspState {
            last_drop_log: if !kept && due(self.last_drop_log, now) {
                Some(now)
            } else {
                self.last_drop_log
            },
            ..self
        }
    }

    pub fn new(now: u64) -> (r: Self)
        ensures
            r == (DspState {
                last_frame_at: now,
                reported_gap: false,
                last_drop_log: None,
                frames: 0,
            }),
    {
        DspState { last_frame_at: now, reported_gap: false, last_drop_log: None, frames: 0 }
    }

    /// A frame was found, or none. An empty ring is not news: this thread looks
    /// far more often than frames arrive. Only a long gap means anything.
    pub fn on_popped(&mut self, popped: Option<Frame>, bypass: bool, now: u64) -> (r: DspStep)
        ensures
            *final(self) == old(self).found(popped, now),
            r == old(self).step(popped, bypass, now),
    {
        match popped {
            None => {
                let gap: u64 = elapsed(self.last_frame_at, now);
                if !self.reported_gap && gap > GAP_AFTER {
                    self.reported_gap = true;
                    DspStep::Wait { gap_ms: Some(gap / 1_000_000) }
                } else {
                    DspStep::Wait { gap_ms: None }
                }
            },
            Some(frame) => {
                let resumed: bool = self.reported_gap;
                self.reported_gap = false;
                self.last_frame_at = now;
                self.frames = self.frames.wrapping_add(1);
                if bypass {
                    DspStep::Pass { frame, resumed }
                } else {
                    DspStep::Denoise { frame, resumed }
                }
            },
        }
    }

    /// The next ring kept a frame, or had no room for it: is that worth a line?
    /// When the render side dies the ring stays full, and one line per frame is
    /// a hundred a second.
    pub fn on_offered(&mut self, kept: bool, now: u64) -> (report: bool)
        ensures
            *final(self) == old(self).offered(kept, now),
            report == (!kept && due(old(self).last_drop_log, now)),
    {
        if !kept && is_due(self.last_drop_log, now) {
            self.last_drop_log = Some(now);
            true
        } else {
            false
        }
    }
}

/// What became of passing a frame on.
#[derive(Debug, Clone, Copy)]
pub struct Delivery {
    pub kept: bool,
    /// Say that frames are being dropped.
    pub report: bool,
}

/// One round of the DSP thread.
#[derive(Debug, Clone, Copy)]
pub enum StageStep {
    /// The pipeline is going away.
    Exit,
    /// See [`DspStep::Wait`].
    Wait { gap_ms: Option<u64> },
    /// The frame was passed on as it is.
    Passed { frame: Frame, resumed: bool, delivery: Delivery },
    /// Denoise the frame, then [`DspStage::deliver`] it.
    Denoise { frame: Frame, resumed: bool },
}

/// The DSP thread between its two rings.
pub struct DspStage {
    pub input: Consuming,
    pub output: Producing,
    pub state: DspState,
}

/// A frame was passed on, whatever happened to it before.
pub open spec fn delivered(
    before: DspStage,
    after: DspStage,
    frame: Frame,
    delivery: Delivery,
    now: u64,
) -> bool {
    &&& after.input == before.input
    &&& offered(before.output, after.output, frame, delivery.kept)
    &&& after.state == before.state.offered(delivery.kept, now)
    &&& delivery.report == (!delivery.kept && due(before.state.last_drop_log, now))
}

/// A frame was taken from one ring and offered to the other as it is.
pub open spec fn passed(
    before: DspStage,
    after: DspStage,
    frame: Frame,
    delivery: Delivery,
    now: u64,
) -> bool {
    &&& asked(before.input, after.input, Some(frame))
    &&& offered(before.output, after.output, frame, delivery.kept)
    &&& after.state == before.state.found(Some(frame), now).offered(delivery.kept, now)
    &&& delivery.report == (!delivery.kept && due(before.state.last_drop_log, now))
}

/// One round of the DSP thread came to this.
pub open spec fn stepped(
    before: DspStage,
    after: DspStage,
    shutdown: bool,
    bypass: bool,
    now: u64,
    r: StageStep,
) -> bool {
    &&& (r is Exit) == shutdown
    &&& match r {
        StageStep::Exit => after == before,
        StageStep::Wait { gap_ms } => {
            &&& asked(before.input, after.input, None)
            &&& after.output == before.output
            &&& after.state == before.state.found(None, now)
            &&& gap_ms == before.state.gap(now)
        },
        StageStep::Denoise { frame, resumed } => {
            &&& !bypass
            &&& asked(before.input, after.input, Some(frame))
            &&& after.output == before.output
            &&& after.state == before.state.found(Some(frame), now)
            &&& resumed == before.state.reported_gap
        },
        StageStep::Passed { frame, resumed, delivery } => {
            &&& bypass
            &&& passed(before, after, frame, delivery, now)
            &&& resumed == before.state.reported_gap
        },
    }
}

impl DspStage {
    /// One round: looks for a frame, and passes it on where it needs no
    /// denoising.
    pub fn step(&mut self, shutdown: bool, bypass: bool, now: u64) -> (r: StageStep)
        ensures
            stepped(*old(self), *final(self), shutdown, bypass, now, r),
    {
        if shutdown {
            return StageStep::Exit;
        }
        let popped: Option<Frame> = ring::try_pop(&mut self.input);
        match self.state.on_popped(popped, bypass, now) {
            DspStep::Wait { gap_ms } => StageStep::Wait { gap_ms },
            DspStep::Denoise { frame, resumed } => StageStep::Denoise { frame, resumed },
            DspStep::Pass { frame, resumed } => {
                let delivery: Delivery = self.deliver(frame, now);
                StageStep::Passed { frame, resumed, delivery }
            },
        }
    }

    /// Passes a frame on to render. One that finds no room is dropped: audible
    /// as a click, and better than blocking the thread.
    pub fn deliver(&mut self, frame: Frame, now: u64) -> (r: Delivery)
        ensures
            delivered(*old(self), *final(self), frame, r, now),
    {
        let kept: bool = match ring::try_push(&mut self.output, frame) {
            Ok(_) => true,
            Err(_frame) => false,
        };
        let report: bool = self.state.on_offered(kept, now);
        Delivery { kept, report }
    }
}

/// The three stages of the pipeline, connected by two empty rings.
pub fn wire(now: u64) -> (r: (CaptureSink, DspStage, RenderSource))
    ensures
        ring::outbound(r.0.output) == ring::inbound(r.1.input),
        ring::outbound(r.1.output) == ring::inbound(r.2.input),
        ring::sent(r.0.output) == 0 && ring::received(r.1.input) == 0,
        ring::sent(r.1.output) == 0 && ring::received(r.2.input) == 0,
        ring::freed(r.0.output) == 0 && ring::seen(r.1.input) == 0,
        ring::freed(r.1.output) == 0 && ring::seen(r.2.input) == 0,
        ring::room(r.0.output) == RING_FRAMES && ring::room(r.1.output) == RING_FRAMES,
        r.1.state == (DspState {
            last_frame_at: now,
            reported_gap: false,
            last_drop_log: None,
            frames: 0,
        }),
        r.2.last_underrun_log is None,
        r.2.polls == 0,
{
    let (prod_a, cons_a) = ring::ring(RING_FRAMES);
    let (prod_b, cons_b) = ring::ring(RING_FRAMES);
    (
        CaptureSink { output: prod_a },
        DspStage { input: cons_a, output: prod_b, state: DspState::new(now) },
        RenderSource { input: cons_b, last_underrun_log: None, polls: 0 },
    )
}

} // verus!
