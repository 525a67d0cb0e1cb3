//! What holds of every start and of every frame.

use vstd::prelude::*;

use crate::config::ConfigView;
use crate::device_laws;
use crate::devices;
use crate::devices::{Device, DeviceList};
use crate::error;
use crate::error::{AudioError, AudioErrorView, CauseView, StartErrorView};
use crate::pipeline;
use crate::pipeline::{
    BuildView, CaptureSink, Delivery, DspStage, DspState, DspStep, RankedStartView, RenderSource,
    StageStep,
};
use crate::ring;
use crate::ring::{Consuming, Frame, Producing};
use crate::text;
use crate::text_laws;

verus! {

// ---- which devices --------------------------------------------------------

/// One of `s` that is not a cable's own output has this id.
pub open spec fn safe(s: Seq<Device>, id: Seq<char>) -> bool {
    exists|k: int| 0 <= k < s.len() && (#[trigger] s[k]).cable_output() is None && s[k].id@ == id
}

proof fn lemma_safe_ids(s: Seq<Device>)
    ensures
        forall|i: int|
            0 <= i < pipeline::safe_ids(s).len() ==> safe(s, #[trigger] pipeline::safe_ids(s)[i]),
        forall|k: int|
            0 <= k < s.len() && (#[trigger] s[k]).cable_output() is None
                ==> pipeline::safe_ids(s).contains(s[k].id@),
        s.len() > 0 && s[0].cable_output() is None ==> pipeline::safe_ids(s).len() > 0
            && pipeline::safe_ids(s)[0] == s[0].id@,
    decreases s.len(),
{
    if s.len() > 0 {
        let rest = s.drop_last();
        let before = pipeline::safe_ids(rest);
        let after = pipeline::safe_ids(s);
        lemma_safe_ids(rest);
        assert forall|i: int| 0 <= i < after.len() implies safe(s, #[trigger] after[i]) by {
            if i < before.len() {
                assert(safe(rest, before[i]));
                let k = choose|k: int|
                    0 <= k < rest.len() && (#[trigger] rest[k]).cable_output() is None && rest[k].id@
                        == before[i];
                assert(s[k] == rest[k]);
            } else {
                assert(s[s.len() - 1].id@ == after[i]);
            }
        }
        assert forall|k: int|
            0 <= k < s.len() && (#[trigger] s[k]).cable_output() is None implies after.contains(
            s[k].id@,
        ) by {
            if k < rest.len() {
                assert(rest[k] == s[k]);
                let i = choose|i: int| 0 <= i < before.len() && before[i] == s[k].id@;
                assert(after[i] == s[k].id@);
            } else {
                assert(after[after.len() - 1] == s[k].id@);
            }
        }
        if rest.len() > 0 {
            assert(rest[0] == s[0]);
        }
    }
}

/// Audio is never routed into a loop: whatever microphone may be tried, first or
/// as a fallback, is one of the machine that is not a cable's own output. There
/// is always one to try, and the best-ranked that is present comes first.
pub proof fn a_cable_is_never_fed_into_itself(list: DeviceList, cfg: ConfigView)
    ensures
        pipeline::selection(list, cfg) matches Ok((inputs, output)) ==> {
            &&& inputs.len() > 0
            &&& inputs[0] == list.candidates(cfg.microphones)[0].id@
            &&& forall|i: int| 0 <= i < inputs.len() ==> safe(list.capture@, #[trigger] inputs[i])
        },
{
    if let Ok((inputs, output)) = pipeline::selection(list, cfg) {
        let c = list.candidates(cfg.microphones);
        lemma_safe_ids(c);
        device_laws::every_microphone_is_a_candidate(list, cfg.microphones);
        assert forall|i: int| 0 <= i < inputs.len() implies safe(
            list.capture@,
            #[trigger] inputs[i],
        ) by {
            let k = choose|k: int|
                0 <= k < c.len() && (#[trigger] c[k]).cable_output() is None && c[k].id@
                    == inputs[i];
            assert(list.capture@.contains(c[k]));
            let m = choose|m: int| 0 <= m < list.capture@.len() && list.capture@[m] == c[k];
            assert(list.capture@[m].id@ == inputs[i]);
        }
    }
}

/// Every other candidate survives as a fallback, unless it is a cable's own
/// output.
pub proof fn no_working_microphone_is_left_out(list: DeviceList, cfg: ConfigView, k: int)
    requires
        0 <= k < list.candidates(cfg.microphones).len(),
        list.candidates(cfg.microphones)[k].cable_output() is None,
    ensures
        pipeline::selection(list, cfg) matches Ok((inputs, output)) ==> inputs.contains(
            list.candidates(cfg.microphones)[k].id@,
        ),
{
    lemma_safe_ids(list.candidates(cfg.microphones));
}

/// Audio goes to the output that was named, or to a cable; with neither there is
/// no start. A start that fails for want of a cable is recognised as such.
pub proof fn starting_fails_closed(list: DeviceList, cfg: ConfigView)
    ensures
        pipeline::selection(list, cfg) matches Ok((inputs, output)) ==> exists|d: Device| #[trigger]
            list.render@.contains(d) && d.id@ == output && (if cfg.output_device.len() == 0 {
                d.cable_input() is Some
            } else {
                devices::same_device(d.friendly_name@, cfg.output_device)
            }),
        pipeline::selection(list, cfg) matches Err(e) ==> (error::missing_cable(e)
            ==> cfg.output_device.len() == 0 && list.cable() is Err),
        (list.candidates(cfg.microphones).len() > 0 && list.candidates(
            cfg.microphones,
        )[0].cable_output() is None && cfg.output_device.len() == 0 && list.cable() == Err::<
            Device,
            AudioErrorView,
        >(AudioErrorView::VirtualCableMissing)) ==> (pipeline::selection(list, cfg) matches Err(e)
            && error::missing_cable(e)),
{
    device_laws::no_fallback_to_the_speakers(list, cfg.output_device);
    if let Ok((inputs, output)) = pipeline::selection(list, cfg) {
        let d = list.output(cfg.output_device)->Ok_0;
        assert(list.render@.contains(d));
    }
}

proof fn lemma_safe_filtered(s: Seq<Device>)
    ensures
        pipeline::safe_ids(s) == s.filter(|d: Device| d.cable_output() is None).map_values(
            |d: Device| d.id@,
        ),
    decreases s.len(),
{
    reveal(Seq::filter);
    let p = |d: Device| d.cable_output() is None;
    let f = |d: Device| d.id@;
    if s.len() > 0 {
        lemma_safe_filtered(s.drop_last());
        let front = s.drop_last().filter(p);
        if s.last().cable_output() is None {
            assert(s.filter(p) == front.push(s.last()));
            assert(front.push(s.last()).map_values(f) =~= front.map_values(f).push(s.last().id@));
        }
    } else {
        assert(s.filter(p).map_values(f) =~= Seq::empty());
    }
}

/// Devices are chosen exactly when there is a microphone to try first, it is not a
/// cable's own output, and there is an output. Then every candidate that is not a
/// cable's own output is to be tried, in order, and that output is used.
pub proof fn devices_are_chosen_when_there_are_some(list: DeviceList, cfg: ConfigView)
    ensures
        ({
            let c = list.candidates(cfg.microphones);
            let fit = c.len() > 0 && c[0].cable_output() is None;
            &&& pipeline::selection(list, cfg) is Ok <==> fit && list.output(
                cfg.output_device,
            ) is Ok
            &&& pipeline::selection(list, cfg) matches Ok((inputs, output)) ==> {
                &&& inputs == c.filter(|d: Device| d.cable_output() is None).map_values(
                    |d: Device| d.id@,
                )
                &&& output == (list.output(cfg.output_device)->Ok_0).id@
            }
        }),
{
    lemma_safe_filtered(list.candidates(cfg.microphones));
}

/// A refusal says why: that there is no microphone, that the microphone is a cable's own
/// output and which cable's, or what is the matter with the output.
pub proof fn a_refusal_says_why(list: DeviceList, cfg: ConfigView)
    ensures
        ({
            let c = list.candidates(cfg.microphones);
            match pipeline::selection(list, cfg) {
                Ok(_) => true,
                Err(e) => if c.len() == 0 {
                    e.cause == CauseView::Message("no microphone is available"@)
                } else if c[0].cable_output() is Some {
                    e.cause matches CauseView::Message(words) && text::contains(
                        words,
                        c[0].cable_output()->0,
                    )
                } else {
                    e.cause == CauseView::Audio(list.output(cfg.output_device)->Err_0)
                },
            }
        }),
{
    let c = list.candidates(cfg.microphones);
    if c.len() > 0 && c[0].cable_output() is Some {
        let product = c[0].cable_output()->0;
        let words = pipeline::loop_text(product);
        let at = pipeline::LOOP_HEAD@.len() as int;
        assert(words.subrange(at, at + product.len()) =~= product);
        assert(text::stands_at(words, product, at));
    }
}

/// What is said where there is no cable names every cable that was looked for.
pub proof fn a_missing_cable_names_what_would_do(k: int)
    requires
        0 <= k < devices::known_cables().len(),
    ensures
        text::contains(pipeline::no_cable_text(), devices::known_cables()[k].product),
{
    let names = pipeline::products();
    text_laws::every_joined_text_is_there(names, ", "@, k);
    let all = text::join(names, ", "@);
    let whole = pipeline::no_cable_text();
    let at = choose|at: int| text::stands_at(all, names[k], at);
    let from = pipeline::NO_CABLE_HEAD@.len() as int;
    assert(whole.subrange(from + at, from + at + names[k].len()) =~= all.subrange(
        at,
        at + names[k].len(),
    ));
    assert(text::stands_at(whole, names[k], from + at));
}

/// Stepping down is noticed exactly when there is a first choice and other hardware is in
/// use.
pub proof fn a_step_down_is_other_hardware(cfg: ConfigView, using: Seq<char>)
    ensures
        cfg.microphones.len() == 0 ==> !pipeline::is_step_down(cfg, using),
        cfg.microphones.len() > 0 ==> pipeline::is_step_down(cfg, using) == (devices::bare_name(
            cfg.microphones[0],
        ) != devices::bare_name(using)),
{
}

/// A list that could be had decides as it is; one that could not is told as what went
/// wrong, and that devices were being listed.
pub proof fn an_inventory_that_fails_is_told(list: DeviceList, e: AudioError, cfg: ConfigView)
    ensures
        pipeline::resolution(Ok(list), cfg) == pipeline::selection(list, cfg),
        pipeline::resolution(Err(e), cfg) matches Err(told) && told.cause == CauseView::Audio(e@)
            && told.contexts.len() == 1 && told.contexts[0] == "enumerating audio devices"@,
{
}

// ---- starting -------------------------------------------------------------

/// How far starting has come after so many steps came out as they did.
pub open spec fn built(outcomes: Seq<Result<(), StartErrorView>>) -> BuildView
    decreases outcomes.len(),
{
    if outcomes.len() == 0 {
        BuildView::OpenCapture
    } else {
        pipeline::advanced(built(outcomes.drop_last()), outcomes.last())
    }
}

/// The DSP thread is spawned last: it is asked for only when both devices are
/// open and the denoiser is loaded, and once it runs nothing can fail any more.
/// So a start that failed has left no thread behind.
pub proof fn a_failed_start_leaves_no_thread(outcomes: Seq<Result<(), StartErrorView>>)
    ensures
        built(outcomes) is SpawnDsp ==> outcomes.len() == 3 && forall|i: int|
            0 <= i < 3 ==> (#[trigger] outcomes[i]) is Ok,
        built(outcomes) is Failed ==> exists|i: int|
            0 <= i < 4 && i < outcomes.len() && (#[trigger] outcomes[i]) is Err && forall|j: int|
                0 <= j < i ==> (#[trigger] outcomes[j]) is Ok,
        built(outcomes) is Running ==> outcomes.len() >= 4 && forall|i: int|
            0 <= i < 4 ==> (#[trigger] outcomes[i]) is Ok,
        built(outcomes) is OpenCapture ==> outcomes.len() == 0,
        built(outcomes) is OpenRender ==> outcomes.len() == 1 && outcomes[0] is Ok,
        built(outcomes) is LoadDenoiser ==> outcomes.len() == 2 && outcomes[0] is Ok
            && outcomes[1] is Ok,
    decreases outcomes.len(),
{
    if outcomes.len() > 0 {
        let rest = outcomes.drop_last();
        a_failed_start_leaves_no_thread(rest);
        assert(forall|i: int| 0 <= i < rest.len() ==> rest[i] == #[trigger] outcomes[i]);
        let n = outcomes.len() - 1;
        if built(outcomes) is Failed {
            if built(rest) is Failed {
                let i = choose|i: int|
                    0 <= i < 4 && i < rest.len() && (#[trigger] rest[i]) is Err && forall|j: int|
                        0 <= j < i ==> (#[trigger] rest[j]) is Ok;
                assert(outcomes[i] is Err);
                assert forall|j: int| 0 <= j < i implies (#[trigger] outcomes[j]) is Ok by {
                    assert(rest[j] is Ok);
                }
            } else {
                assert(outcomes[n] is Err);
                assert forall|j: int| 0 <= j < n implies (#[trigger] outcomes[j]) is Ok by {
                    assert(rest[j] is Ok);
                }
            }
        }
        assert(forall|j: int| 0 <= j < n && (#[trigger] rest[j]) is Ok ==> outcomes[j] is Ok);
    }
}

/// A step that fails ends the start with what went wrong: its cause, what was already
/// said about it, and for loading the denoiser and for starting its thread, that. A
/// start that is running, or has failed, stays so whatever comes.
pub proof fn a_failed_step_keeps_its_cause(
    b: BuildView,
    e: StartErrorView,
    outcome: Result<(), StartErrorView>,
)
    ensures
        b is OpenCapture || b is OpenRender ==> pipeline::advanced(b, Err(e)) == BuildView::Failed(
            e,
        ),
        b is LoadDenoiser ==> pipeline::advanced(b, Err(e)) == BuildView::Failed(
            StartErrorView { cause: e.cause, contexts: e.contexts.push("loading denoiser"@) },
        ),
        b is SpawnDsp ==> pipeline::advanced(b, Err(e)) == BuildView::Failed(
            StartErrorView { cause: e.cause, contexts: e.contexts.push("spawn dsp thread"@) },
        ),
        b is Running || b is Failed ==> pipeline::advanced(b, outcome) == b,
{
}

/// The search for a microphone after so many have failed.
pub open spec fn searched(ids: Seq<Seq<char>>, failures: Seq<StartErrorView>) -> RankedStartView
    decreases failures.len(),
{
    if failures.len() == 0 {
        RankedStartView { ids, tried: 0, last: None }
    } else {
        searched(ids, failures.drop_last()).after(failures.last())
    }
}

/// Every microphone gets its turn, in order, as long as those before it failed;
/// and when all have, the last real failure is what is said.
pub proof fn every_microphone_gets_its_turn(ids: Seq<Seq<char>>, failures: Seq<StartErrorView>)
    ensures
        searched(ids, failures).next() == (if failures.len() < ids.len() {
            Some(ids[failures.len() as int])
        } else {
            None
        }),
        searched(ids, failures).verdict() == (if failures.len() > 0 {
            failures.last()
        } else {
            pipeline::nothing_to_try()
        }),
        searched(ids, failures).fallen_back() == (failures.len() > 0),
        searched(ids, failures).tried == failures.len(),
        searched(ids, failures).ids == ids,
    decreases failures.len(),
{
    if failures.len() > 0 {
        every_microphone_gets_its_turn(ids, failures.drop_last());
    }
}

// ---- frames ---------------------------------------------------------------

/// Frames come out of a ring in the order and with the samples with which they
/// went in: what comes out as number `k` went in as number `k`.
pub proof fn frames_keep_their_order(
    sending: Producing,
    sent: Producing,
    put: Frame,
    receiving: Consuming,
    received: Consuming,
    got: Frame,
)
    requires
        ring::outbound(sending) == ring::inbound(receiving),
        pipeline::offered(sending, sent, put, true),
        pipeline::asked(receiving, received, Some(got)),
        ring::sent(sending) == ring::received(receiving),
    ensures
        got == put,
        ring::sent(sent) == ring::received(received),
        ring::outbound(sent) == ring::inbound(received),
{
}

/// Frames were asked for one after the other; `halves` is the ring before the
/// first time, and after each.
pub open spec fn asked_in_turn(halves: Seq<Consuming>, popped: Seq<Option<Frame>>) -> bool {
    &&& halves.len() == popped.len() + 1
    &&& forall|i: int|
        0 <= i < popped.len() ==> pipeline::asked(
            #[trigger] halves[i],
            halves[i + 1],
            popped[i],
        )
}

/// Every frame that a half knows of comes out, each at its turn and with its
/// samples: asking so often never comes back with nothing.
pub proof fn every_known_frame_comes_out(
    halves: Seq<Consuming>,
    popped: Seq<Option<Frame>>,
    k: int,
)
    requires
        asked_in_turn(halves, popped),
        0 <= k < popped.len(),
        ring::received(halves[0]) + k < ring::seen(halves[0]),
    ensures
        popped[k] == Some(ring::inbound(halves[0])[ring::received(halves[0]) + k]),
        ring::received(halves[k + 1]) == ring::received(halves[0]) + k + 1,
        ring::seen(halves[k + 1]) == ring::seen(halves[0]),
        ring::inbound(halves[k + 1]) == ring::inbound(halves[0]),
    decreases k,
{
    if k > 0 {
        every_known_frame_comes_out(halves, popped, k - 1);
    }
    assert(pipeline::asked(halves[k], halves[k + 1], popped[k]));
}

/// Frames were offered one after the other; `halves` is the ring before the first
/// time, and after each.
pub open spec fn offered_in_turn(
    halves: Seq<Producing>,
    frames: Seq<Frame>,
    kept: Seq<bool>,
) -> bool {
    &&& halves.len() == frames.len() + 1
    &&& kept.len() == frames.len()
    &&& forall|i: int|
        0 <= i < frames.len() ==> pipeline::offered(
            #[trigger] halves[i],
            halves[i + 1],
            frames[i],
            kept[i],
        )
}

/// Nothing is dropped while a half knows of room: so many frames all go in, in
/// order. A fresh ring knows of all its room.
pub proof fn nothing_is_dropped_while_there_is_room(
    halves: Seq<Producing>,
    frames: Seq<Frame>,
    kept: Seq<bool>,
    k: int,
)
    requires
        offered_in_turn(halves, frames, kept),
        0 <= k < frames.len(),
        ring::sent(halves[0]) + k - ring::freed(halves[0]) < ring::room(halves[0]),
    ensures
        kept[k],
        ring::outbound(halves[0])[ring::sent(halves[0]) + k] == frames[k],
        ring::sent(halves[k + 1]) == ring::sent(halves[0]) + k + 1,
        ring::freed(halves[k + 1]) == ring::freed(halves[0]),
        ring::room(halves[k + 1]) == ring::room(halves[0]),
        ring::outbound(halves[k + 1]) == ring::outbound(halves[0]),
    decreases k,
{
    if k > 0 {
        nothing_is_dropped_while_there_is_room(halves, frames, kept, k - 1);
    }
    assert(pipeline::offered(halves[k], halves[k + 1], frames[k], kept[k]));
}

/// So far, what went out is what came in, frame by frame.
pub open spec fn untouched(stage: DspStage) -> bool {
    &&& ring::sent(stage.output) == ring::received(stage.input)
    &&& forall|k: int|
        0 <= k < ring::sent(stage.output) ==> (#[trigger] ring::outbound(stage.output)[k])
            == ring::inbound(stage.input)[k]
}

/// Bypassed audio is passed through bit by bit: as long as nothing is dropped,
/// the frames that went out are the frames that came in, in order. Even where
/// frames were dropped before, the one passed on is the one taken.
pub proof fn bypass_is_a_true_passthrough(
    before: DspStage,
    after: DspStage,
    frame: Frame,
    delivery: Delivery,
    now: u64,
)
    requires
        pipeline::passed(before, after, frame, delivery, now),
    ensures
        frame == ring::inbound(before.input)[ring::received(before.input) as int],
        delivery.kept ==> ring::outbound(after.output)[ring::sent(before.output) as int] == frame,
        untouched(before) && delivery.kept ==> untouched(after),
{
}

/// Bypassed audio arrives as it was captured: what render gets as number `k` is
/// what capture put in as number `k`, through both rings, as long as nothing was
/// dropped on the way.
pub proof fn bypassed_audio_arrives_as_captured(
    sink: CaptureSink,
    stage: DspStage,
    source: RenderSource,
    k: int,
)
    requires
        ring::outbound(sink.output) == ring::inbound(stage.input),
        ring::outbound(stage.output) == ring::inbound(source.input),
        untouched(stage),
        0 <= k < ring::sent(stage.output),
    ensures
        ring::inbound(source.input)[k] == ring::outbound(sink.output)[k],
{
    assert(ring::outbound(stage.output)[k] == ring::inbound(stage.input)[k]);
}

/// Every frame that is taken is counted, and nothing else is.
pub proof fn only_frames_are_counted(s: DspState, popped: Option<Frame>, now: u64)
    ensures
        s.found(popped, now).frames == (if popped is Some {
            s.frames.wrapping_add(1)
        } else {
            s.frames
        }),
{
}

/// A gap is reported once, however long it lasts, and the end of it exactly when
/// it had been reported.
pub proof fn a_gap_is_reported_once(s: DspState, now: u64, later: u64, frame: Frame, bypass: bool)
    ensures
        s.gap(now) is Some ==> s.found(None, now).gap(later) is None,
        s.gap(now) is Some ==> s.found(None, now).found(None, later).reported_gap,
        match s.step(Some(frame), bypass, now) {
            pipeline::DspStep::Pass { frame: f, resumed } => f == frame && resumed
                == s.reported_gap,
            pipeline::DspStep::Denoise { frame: f, resumed } => f == frame && resumed
                == s.reported_gap,
            pipeline::DspStep::Wait { gap_ms } => false,
        },
        !s.found(Some(frame), now).reported_gap,
{
}

/// Two lines about dropped frames, or about underruns, are never close together.
pub proof fn trouble_is_logged_sparingly(s: DspState, now: u64, later: u64)
    requires
        now <= later <= now + pipeline::QUIET_BETWEEN,
    ensures
        !pipeline::due(Some(now), later),
        s.last_drop_log is None ==> s.offered(false, now).last_drop_log == Some(now),
        s.offered(true, now) == s,
{
}

/// A frame that was found is passed on untouched when denoising is bypassed, and to the
/// denoiser when it is not; with none found there is nothing to do but wait.
pub proof fn a_frame_goes_where_it_should(s: DspState, frame: Frame, now: u64)
    ensures
        s.step(Some(frame), true, now) == (DspStep::Pass { frame, resumed: s.reported_gap }),
        s.step(Some(frame), false, now) == (DspStep::Denoise { frame, resumed: s.reported_gap }),
        s.step(None, true, now) == s.step(None, false, now),
        s.step(None, true, now) is Wait,
{
}

/// A gap is reported exactly when it has not been and is longer than two seconds, with
/// its length in milliseconds; and finding a frame ends it.
pub proof fn a_gap_is_two_seconds(s: DspState, frame: Frame, now: u64)
    ensures
        s.step(None, true, now) == (DspStep::Wait {
            gap_ms: if !s.reported_gap && now - s.last_frame_at > 2_000_000_000 {
                Some(((now - s.last_frame_at) / 1_000_000) as u64)
            } else {
                None
            },
        }),
        s.found(None, now).reported_gap == (s.reported_gap || now - s.last_frame_at
            > 2_000_000_000),
        s.found(None, now).last_frame_at == s.last_frame_at,
        s.found(None, now).frames == s.frames,
        s.found(Some(frame), now).last_frame_at == now,
        !s.found(Some(frame), now).reported_gap,
        s.found(Some(frame), now).frames == s.frames.wrapping_add(1),
        s.found(Some(frame), now).last_drop_log == s.last_drop_log,
        s.found(None, now).last_drop_log == s.last_drop_log,
{
}

/// Trouble is worth a line the first time, and again once more than five seconds have
/// passed since the last line; a frame that was kept is no trouble.
pub proof fn a_line_every_five_seconds(s: DspState, last: Option<u64>, now: u64)
    ensures
        pipeline::due(None, now),
        pipeline::logged(last, now) == if pipeline::due(last, now) {
            Some(now)
        } else {
            last
        },
        last matches Some(at) ==> pipeline::due(last, now) == (now - at > 5_000_000_000),
        s.offered(true, now) == s,
        s.offered(false, now).last_drop_log == if pipeline::due(s.last_drop_log, now) {
            Some(now)
        } else {
            s.last_drop_log
        },
        s.offered(false, now) == (DspState {
            last_drop_log: s.offered(false, now).last_drop_log,
            ..s
        }),
        pipeline::RING_FRAMES == 8,
{
}

/// Passing a frame on takes nothing from the ring before, puts that very frame into the
/// ring behind where it is kept, and a frame that is dropped is worth a line exactly when
/// none was written in the last five seconds.
pub proof fn a_delivery_is_one_frame(
    before: DspStage,
    after: DspStage,
    frame: Frame,
    delivery: Delivery,
    now: u64,
)
    requires
        pipeline::delivered(before, after, frame, delivery, now),
    ensures
        after.input == before.input,
        delivery.kept ==> ring::outbound(after.output)[ring::sent(before.output) as int] == frame
            && ring::sent(after.output) == ring::sent(before.output) + 1,
        !delivery.kept ==> ring::sent(after.output) == ring::sent(before.output),
        delivery.report == (!delivery.kept && (before.state.last_drop_log matches Some(at)
            ==> now - at > 5_000_000_000)),
        after.state.frames == before.state.frames,
        after.state.last_frame_at == before.state.last_frame_at,
{
}

/// A frame that is passed through is taken once and counted once, and ends any gap.
pub proof fn a_frame_passed_through_is_counted(
    before: DspStage,
    after: DspStage,
    frame: Frame,
    delivery: Delivery,
    now: u64,
)
    requires
        pipeline::passed(before, after, frame, delivery, now),
    ensures
        ring::received(after.input) == ring::received(before.input) + 1,
        after.state.frames == before.state.frames.wrapping_add(1),
        after.state.last_frame_at == now,
        !after.state.reported_gap,
        delivery.report == (!delivery.kept && (before.state.last_drop_log matches Some(at)
            ==> now - at > 5_000_000_000)),
{
}

/// A round of the DSP thread ends it exactly when the pipeline is going away, and then
/// touches nothing. Otherwise it takes a frame wherever one is known of, hands it to be
/// denoised or, bypassed, passes it on as it is; and only an empty ring makes it wait. A
/// frame that is to be denoised does not go anywhere before that.
pub proof fn a_round_does_one_thing(
    before: DspStage,
    after: DspStage,
    shutdown: bool,
    bypass: bool,
    now: u64,
    r: StageStep,
)
    requires
        pipeline::stepped(before, after, shutdown, bypass, now, r),
    ensures
        shutdown <==> r is Exit,
        shutdown ==> after == before,
        !shutdown && ring::received(before.input) < ring::seen(before.input) ==> (if bypass {
            r is Passed
        } else {
            r is Denoise
        }),
        r is Passed ==> bypass,
        r is Denoise ==> !bypass,
        r is Wait ==> ring::received(after.input) == ring::received(before.input)
            && ring::received(after.input) == ring::seen(after.input) && after.output
            == before.output && after.state.frames == before.state.frames,
        r matches StageStep::Denoise { frame, resumed } ==> {
            &&& frame == ring::inbound(before.input)[ring::received(before.input) as int]
            &&& ring::received(after.input) == ring::received(before.input) + 1
            &&& after.output == before.output
            &&& after.state.frames == before.state.frames.wrapping_add(1)
            &&& resumed == before.state.reported_gap
        },
        r matches StageStep::Passed { frame, resumed, delivery } ==> {
            &&& frame == ring::inbound(before.input)[ring::received(before.input) as int]
            &&& ring::received(after.input) == ring::received(before.input) + 1
            &&& delivery.kept ==> ring::outbound(after.output)[ring::sent(before.output) as int]
                == frame
            &&& resumed == before.state.reported_gap
        },
        r matches StageStep::Wait { gap_ms } ==> gap_ms == (if !before.state.reported_gap && now
            - before.state.last_frame_at > 2_000_000_000 {
            Some(((now - before.state.last_frame_at) / 1_000_000) as u64)
        } else {
            None
        }),
{
}

/// Every time audio is asked for is counted, frame or no frame; a frame that is known of
/// is handed out, and it is the next one.
pub proof fn every_poll_is_counted(before: RenderSource, after: RenderSource, r: Option<Frame>)
    requires
        pipeline::polled(before, after, r),
    ensures
        after.polls == before.polls.wrapping_add(1),
        ring::received(before.input) < ring::seen(before.input) ==> r is Some,
        r matches Some(frame) ==> frame == ring::inbound(before.input)[ring::received(
            before.input,
        ) as int] && ring::received(after.input) == ring::received(before.input) + 1,
        r is None ==> ring::received(after.input) == ring::received(before.input),
        after.last_underrun_log == before.last_underrun_log,
{
}

} // verus!
