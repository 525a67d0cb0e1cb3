//! What holds of every launch.

use vstd::prelude::*;

use crate::cli::CliArgsView;
use crate::config;
use crate::config::ConfigView;
use crate::devices::{Device, DeviceList};
use crate::error;
use crate::error::{AudioError, AudioErrorView, CauseView, StartErrorView};
use crate::firstrun;
use crate::startup;
use crate::startup::{Launch, MutexOutcome};
use crate::text;
use crate::text_laws;

verus! {

// ---- what a launch is for -------------------------------------------------

/// Asking for help gives help, whatever else was asked for; then listing devices, then
/// denoising a file, then recording; and a launch that asks for none of these is for
/// the tray.
pub proof fn a_launch_does_what_was_asked(a: CliArgsView)
    ensures
        startup::launch_of(a) == Launch::Help <==> a.help,
        startup::launch_of(a) == Launch::ListDevices <==> !a.help && a.list_devices,
        startup::launch_of(a) == Launch::Denoise <==> !a.help && !a.list_devices
            && a.denoise is Some,
        startup::launch_of(a) == Launch::Record <==> !a.help && !a.list_devices
            && a.denoise is None && a.record is Some,
        startup::launch_of(a) == Launch::Tray <==> !a.help && !a.list_devices && a.denoise is None
            && a.record is None,
{
}

/// Only another tray that is known to hold the name makes this one bow out; a name that
/// could not be asked for does not, and leaves nothing to close.
pub proof fn only_another_tray_is_in_the_way(outcome: MutexOutcome)
    ensures
        startup::lock_of(outcome) is Err <==> outcome == MutexOutcome::Existed,
        startup::lock_of(outcome) matches Ok(lock) ==> lock.open == (outcome
            == MutexOutcome::Created),
{
}

/// Without a cable, Yes opens the page and changes nothing; No opens nothing, and stops
/// starting with the system where that was on.
pub proof fn no_stops_the_question(yes: bool, autostart_enabled: bool)
    ensures
        ({
            let answer = startup::prompt_of(firstrun::answered(yes), autostart_enabled);
            &&& answer.open_site == yes
            &&& answer.disable_autostart == (!yes && autostart_enabled)
        }),
{
}

/// What is said of audio that did not start tells the whole story, and that the tray
/// is there all the same.
pub proof fn a_failed_start_is_told_in_full(e: StartErrorView)
    ensures
        text::contains(startup::problem_text(e), error::full_text(e.cause, e.contexts)),
        text::contains(startup::problem_text(e), "RoomMute is running, but audio isn't"@),
{
    let p = startup::problem_text(e);
    let head = "RoomMute is running, but audio isn't:\n\n"@;
    reveal_strlit("RoomMute is running, but audio isn't:\n\n");
    reveal_strlit("RoomMute is running, but audio isn't");
    let full = error::full_text(e.cause, e.contexts);
    assert(p.subrange(head.len() as int, (head.len() + full.len()) as int) =~= full);
    assert(text::stands_at(p, full, head.len() as int));
    let begins = "RoomMute is running, but audio isn't"@;
    assert(p.subrange(0, begins.len() as int) =~= begins);
    assert(text::stands_at(p, begins, 0));
}

/// Only a missing cable is asked about; every other failure is told, and the tray comes up
/// with it.
pub proof fn only_a_missing_cable_ends_the_launch(e: StartErrorView)
    ensures
        startup::told(e) is None <==> e.cause == CauseView::Audio(
            AudioErrorView::VirtualCableMissing,
        ),
        startup::told(e) matches Some(message) ==> text::contains(
            message,
            error::full_text(e.cause, e.contexts),
        ),
{
    a_failed_start_is_told_in_full(e);
}

// ---- the list of devices --------------------------------------------------

/// Devices are listed in order, each on its own: what is listed of two groups is what
/// is listed of the one and then of the other.
pub proof fn devices_are_listed_in_order(s: Seq<Device>, t: Seq<Device>, output: bool)
    ensures
        startup::listed(s + t, output) == startup::listed(s, output) + startup::listed(t, output),
    decreases t.len(),
{
    let both = s + t;
    if t.len() == 0 {
        assert(both =~= s);
        assert(startup::listed(s, output) + startup::listed(t, output) =~= startup::listed(
            s,
            output,
        ));
    } else {
        devices_are_listed_in_order(s, t.drop_last(), output);
        assert(both.drop_last() =~= s + t.drop_last());
        assert(both.last() == t.last());
        assert(startup::listed(both, output) =~= startup::listed(s, output) + startup::listed(
            t,
            output,
        ));
    }
}

/// One device is listed with its name, marked where it is the default, an output also
/// with the cable it is the input of, and with its id.
pub proof fn a_device_is_listed_with_its_id(d: Device)
    ensures
        startup::listed(seq![d], false) == "  - "@ + d.friendly_name@ + (if d.is_default {
            " [default]"@
        } else {
            ""@
        }) + ""@ + "\n    id: "@ + d.id@ + "\n"@,
        d.cable_input() is None ==> startup::listed(seq![d], true) == startup::listed(
            seq![d],
            false,
        ),
        d.cable_input() matches Some(product) ==> startup::listed(seq![d], true) == "  - "@
            + d.friendly_name@ + (if d.is_default {
            " [default]"@
        } else {
            ""@
        }) + ("  ["@ + product + "]"@) + "\n    id: "@ + d.id@ + "\n"@,
{
    let one = seq![d];
    assert(one.drop_last() =~= Seq::empty());
    assert(one.last() == d);
    reveal_with_fuel(startup::listed, 2);
    assert(startup::listed(one, false) =~= startup::device_lines(d, false));
    assert(startup::listed(one, true) =~= startup::device_lines(d, true));
}

/// The list is the microphones under their heading, then the outputs under theirs.
pub proof fn the_list_has_both_kinds(list: DeviceList)
    ensures
        startup::listing(list) == "Capture (input) devices:\n"@ + startup::listed(
            list.capture@,
            false,
        ) + "\nRender (output) devices:\n"@ + startup::listed(list.render@, true),
{
}

// ---- the microphone asked for ---------------------------------------------

/// The name of the device contains what was asked for, whatever the case of letters.
pub open spec fn meant(d: Device, needle: Seq<char>) -> bool {
    text::contains(text::lower(d.friendly_name@), text::lower(needle))
}

/// The names found are those of the devices whose name contains what was asked for,
/// wherever in the name it stands: each once, in order, and no other.
pub proof fn every_matching_name_is_found(s: Seq<Device>, needle: Seq<char>)
    ensures
        startup::names_with(s, needle) == s.filter(|d: Device| meant(d, needle)).map_values(
            |d: Device| d.friendly_name@,
        ),
    decreases s.len(),
{
    reveal(Seq::filter);
    let p = |d: Device| meant(d, needle);
    let f = |d: Device| d.friendly_name@;
    if s.len() > 0 {
        every_matching_name_is_found(s.drop_last(), needle);
        let front = s.drop_last().filter(p);
        if meant(s.last(), needle) {
            assert(s.filter(p) == front.push(s.last()));
            assert(front.push(s.last()).map_values(f) =~= front.map_values(f).push(
                s.last().friendly_name@,
            ));
        }
    } else {
        assert(s.filter(p).map_values(f) =~= Seq::empty());
    }
}

proof fn lemma_none_match(s: Seq<Device>, needle: Seq<char>)
    requires
        forall|j: int| 0 <= j < s.len() ==> !meant(#[trigger] s[j], needle),
    ensures
        startup::names_with(s, needle).len() == 0,
    decreases s.len(),
{
    if s.len() > 0 {
        let rest = s.drop_last();
        assert forall|j: int| 0 <= j < rest.len() implies !meant(#[trigger] rest[j], needle) by {
            assert(rest[j] == s[j]);
        }
        lemma_none_match(rest, needle);
        assert(!meant(s[s.len() - 1], needle));
    }
}

proof fn lemma_one_matches(s: Seq<Device>, needle: Seq<char>, i: int)
    requires
        0 <= i < s.len(),
        meant(s[i], needle),
        forall|j: int| 0 <= j < s.len() && j != i ==> !meant(#[trigger] s[j], needle),
    ensures
        startup::names_with(s, needle) == seq![s[i].friendly_name@],
    decreases s.len(),
{
    let rest = s.drop_last();
    if i == s.len() - 1 {
        assert forall|j: int| 0 <= j < rest.len() implies !meant(#[trigger] rest[j], needle) by {
            assert(rest[j] == s[j]);
        }
        lemma_none_match(rest, needle);
        assert(startup::names_with(s, needle) =~= seq![s[i].friendly_name@]);
    } else {
        assert forall|j: int| 0 <= j < rest.len() && j != i implies !meant(
            #[trigger] rest[j],
            needle,
        ) by {
            assert(rest[j] == s[j]);
        }
        assert(rest[i] == s[i]);
        lemma_one_matches(rest, needle, i);
        assert(!meant(s[s.len() - 1], needle));
    }
}

proof fn lemma_match_is_found(s: Seq<Device>, needle: Seq<char>, i: int) -> (k: int)
    requires
        0 <= i < s.len(),
        meant(s[i], needle),
    ensures
        0 <= k < startup::names_with(s, needle).len(),
        k <= i,
        startup::names_with(s, needle)[k] == s[i].friendly_name@,
        startup::names_with(s.take(i), needle).len() == k,
    decreases s.len(),
{
    let rest = s.drop_last();
    if i == s.len() - 1 {
        lemma_fewer_names(rest, needle);
        assert(s.take(i) =~= rest);
        startup::names_with(rest, needle).len() as int
    } else {
        assert(rest[i] == s[i]);
        assert(s.take(i) =~= rest.take(i));
        lemma_match_is_found(rest, needle, i)
    }
}

proof fn lemma_fewer_names(s: Seq<Device>, needle: Seq<char>)
    ensures
        startup::names_with(s, needle).len() <= s.len(),
    decreases s.len(),
{
    if s.len() > 0 {
        lemma_fewer_names(s.drop_last(), needle);
    }
}

/// The one microphone whose name contains what was asked for is the one chosen,
/// wherever in its name that stands.
pub proof fn the_one_microphone_is_found(list: DeviceList, needle: Seq<char>, i: int)
    requires
        0 <= i < list.capture@.len(),
        meant(list.capture@[i], needle),
        forall|j: int|
            0 <= j < list.capture@.len() && j != i ==> !meant(
                #[trigger] list.capture@[j],
                needle,
            ),
    ensures
        startup::microphone_with(Ok(list), needle) == Ok::<Seq<char>, Seq<char>>(
            list.capture@[i].friendly_name@,
        ),
{
    lemma_one_matches(list.capture@, needle, i);
}

/// Where no name contains it, that is what is said; and a list that could not be had is
/// reported as what went wrong.
pub proof fn no_microphone_is_made_up(
    list: DeviceList,
    needle: Seq<char>,
    e: AudioError,
)
    requires
        forall|j: int|
            0 <= j < list.capture@.len() ==> !meant(#[trigger] list.capture@[j], needle),
    ensures
        startup::microphone_with(Ok(list), needle) == Err::<Seq<char>, Seq<char>>(
            "no capture device matched"@,
        ),
        startup::microphone_with(Err(e), needle) == Err::<Seq<char>, Seq<char>>(
            error::error_text(e@),
        ),
{
    lemma_none_match(list.capture@, needle);
}

/// Where several names contain it, none is chosen: all of them are named, and how many
/// they are.
pub proof fn several_microphones_are_named(list: DeviceList, needle: Seq<char>, i: int, j: int)
    requires
        0 <= i < j < list.capture@.len(),
        meant(list.capture@[i], needle),
        meant(list.capture@[j], needle),
    ensures
        startup::microphone_with(Ok(list), needle) matches Err(why) && text::contains(
            why,
            list.capture@[i].friendly_name@,
        ) && text::contains(why, list.capture@[j].friendly_name@) && text::contains(
            why,
            text::decimal(
                list.capture@.filter(|d: Device| meant(d, needle)).len(),
            ) + " devices matched"@,
        ),
{
    let s = list.capture@;
    let names = startup::names_with(s, needle);
    every_matching_name_is_found(s, needle);
    let a = lemma_match_is_found(s, needle, i);
    let b = lemma_match_is_found(s, needle, j);
    lemma_names_grow(s, needle, i, j);
    let why = startup::ambiguous(names);
    lemma_ambiguous_names(names, a);
    lemma_ambiguous_names(names, b);
    let head = "ambiguous: "@;
    let count = text::decimal(names.len());
    let words = " devices matched ("@;
    let part = " devices matched"@;
    reveal_strlit(" devices matched (");
    reveal_strlit(" devices matched");
    let at = head.len() as int;
    assert(why.subrange(at, at + (count + part).len()) =~= count + part);
    assert(text::stands_at(why, count + part, at));
    assert(names.len() == s.filter(|d: Device| meant(d, needle)).len());
}

proof fn lemma_names_grow(s: Seq<Device>, needle: Seq<char>, i: int, j: int)
    requires
        0 <= i < j <= s.len(),
        meant(s[i], needle),
    ensures
        startup::names_with(s.take(i), needle).len() < startup::names_with(s.take(j), needle).len(),
    decreases j - i,
{
    assert(s.take(j).drop_last() =~= s.take(j - 1));
    assert(s.take(j).last() == s[j - 1]);
    if j > i + 1 {
        lemma_names_grow(s, needle, i, j - 1);
    }
}

proof fn lemma_ambiguous_names(names: Seq<Seq<char>>, k: int)
    requires
        0 <= k < names.len(),
    ensures
        text::contains(startup::ambiguous(names), names[k]),
{
    let why = startup::ambiguous(names);
    let all = text::join(names, ", "@);
    text_laws::every_joined_text_is_there(names, ", "@, k);
    let at = choose|at: int| text::stands_at(all, names[k], at);
    let before = ("ambiguous: "@ + text::decimal(names.len()) + " devices matched ("@).len();
    assert(why.subrange(before + at, before + at + names[k].len()) =~= all.subrange(
        at,
        at + names[k].len(),
    ));
    assert(text::stands_at(why, names[k], before + at));
}

/// What was asked for with `--mic` is put in front of the preferences and nothing else
/// changes; and what is not found is said, with what was asked for and why.
pub proof fn an_override_changes_one_thing(
    c: ConfigView,
    list: Result<DeviceList, AudioError>,
    filter: Seq<char>,
)
    ensures
        match (startup::microphone_with(list, filter), startup::overridden(c, list, Some(filter))) {
            (Ok(name), Ok(o)) => {
                &&& o.microphones == config::promoted(c.microphones, name)
                &&& o == (ConfigView { microphones: o.microphones, ..c })
            },
            (Err(why), Err(what)) => text::contains(what, why) && text::contains(what, filter),
            _ => false,
        },
{
    if let Err(why) = startup::microphone_with(list, filter) {
        let head = "--mic '"@;
        let middle = "' did not match any input device: "@;
        let what = head + filter + middle + why;
        let at = head.len() as int;
        assert(what.subrange(at, at + filter.len()) =~= filter);
        assert(text::stands_at(what, filter, at));
        let at = (head.len() + filter.len() + middle.len()) as int;
        assert(what.subrange(at, at + why.len()) =~= why);
        assert(text::stands_at(what, why, at));
    }
}

} // verus!
