//! How values are read in every statement of this library: as what they hold.

use vstd::prelude::*;

use crate::cli;
use crate::cli::CliArgs;
use crate::config::{Config, PathPart, PathPartView};
use crate::devices;
use crate::devices::Device;
use crate::error::{AudioError, AudioErrorView, Cause, CauseView, StartError};
use crate::menu;
use crate::menu::Items;
use crate::pipeline;
use crate::pipeline::{Build, BuildView, RankedStart};
use crate::startup;
use crate::text;
use crate::tray;
use crate::tray::{Command, CommandView, TrayState};
use crate::watchdog::FailureLog;

verus! {

/// Strings are read as their characters, each in its place.
pub proof fn strings_are_read_as_they_are(
    s: &str,
    list: Seq<String>,
    words: Seq<&str>,
    i: int,
)
    ensures
        text::said(Some(s)) == Some(s@),
        text::said(None) is None,
        text::texts(list).len() == list.len(),
        0 <= i < list.len() ==> text::texts(list)[i] == list[i]@,
        text::words(words).len() == words.len(),
        0 <= i < words.len() ==> text::words(words)[i] == words[i]@,
{
}

/// Settings are read field by field.
pub proof fn settings_are_read_as_they_are(c: Config)
    ensures
        c@.input_device == c.input_device@,
        c@.microphones == text::texts(c.microphones@),
        c@.output_device == c.output_device@,
        c@.enabled == c.enabled,
        c@.attenuation_bits == c.attenuation_bits,
        c@.model_path == c.model_path@,
        c@.use_onnx == c.use_onnx,
        c@.welcomed == c.welcomed,
{
}

/// A path is read step by step.
pub proof fn paths_are_read_as_they_are(path: Seq<PathPart>, name: &'static str, i: int)
    ensures
        crate::config::steps(path).len() == path.len(),
        0 <= i < path.len() ==> crate::config::steps(path)[i] == path[i]@,
        PathPart::ConfigDir@ == PathPartView::ConfigDir,
        PathPart::Named(name)@ == PathPartView::Named(name@),
{
}

/// What was asked for on the command line is read field by field.
pub proof fn arguments_are_read_as_they_are(a: CliArgs, s: String, t: String)
    ensures
        a@.help == a.help,
        a@.list_devices == a.list_devices,
        a@.rnnoise == a.rnnoise,
        a@.mic == cli::text_in(a.mic),
        a@.model == cli::text_in(a.model),
        a@.atten == cli::text_in(a.atten),
        a@.record == cli::texts_in(a.record),
        a@.denoise == cli::texts_in(a.denoise),
        cli::text_in(Some(s)) == Some(s@),
        cli::text_in(None) is None,
        cli::texts_in(Some((s, t))) == Some((s@, t@)),
        cli::texts_in(None) is None,
{
}

/// Devices that were found are read as those devices, in order; and what was not found as
/// what went wrong.
pub proof fn devices_are_read_as_they_are(d: &Device, e: AudioError, s: Seq<&Device>, i: int)
    ensures
        devices::found(Some(d)) == Some(*d),
        devices::found(None) is None,
        devices::resolved(Ok(d)) == Ok::<Device, AudioErrorView>(*d),
        devices::resolved(Err(e)) == Err::<Device, AudioErrorView>(e@),
        devices::values(s).len() == s.len(),
        0 <= i < s.len() ==> devices::values(s)[i] == *s[i],
{
}

/// Errors are read as what they are and what they say.
pub proof fn errors_are_read_as_they_are(
    s: String,
    t: String,
    context: &'static str,
    a: AudioError,
    e: StartError,
)
    ensures
        AudioError::DeviceNotFound(s)@ == AudioErrorView::DeviceNotFound(s@),
        AudioError::VirtualCableMissing@ == AudioErrorView::VirtualCableMissing,
        AudioError::UnsupportedFormat(s)@ == AudioErrorView::UnsupportedFormat(s@),
        AudioError::AmbiguousDevice(s)@ == AudioErrorView::AmbiguousDevice(s@),
        (AudioError::DeviceInvalidated { context })@ == (AudioErrorView::DeviceInvalidated {
            context: context@,
        }),
        (AudioError::Wasapi { context, detail: t })@ == (AudioErrorView::Wasapi {
            context: context@,
            detail: t@,
        }),
        AudioError::Stalled@ == AudioErrorView::Stalled,
        AudioError::ThreadDied@ == AudioErrorView::ThreadDied,
        AudioError::Other(s)@ == AudioErrorView::Other(s@),
        Cause::Audio(a)@ == CauseView::Audio(a@),
        Cause::Message(s)@ == CauseView::Message(s@),
        e@.cause == e.cause@,
        e@.contexts == text::texts(e.contexts@),
        startup::spelled(Ok(s)) == Ok::<Seq<char>, Seq<char>>(s@),
        startup::spelled(Err(s)) == Err::<Seq<char>, Seq<char>>(s@),
{
}

/// A start is read as how far it has come, and the choice of devices as those devices.
pub proof fn starts_are_read_as_they_are(
    inputs: Vec<String>,
    output: String,
    e: StartError,
    r: RankedStart,
)
    ensures
        pipeline::selected(Ok((inputs, output))) == Ok::<
            (Seq<Seq<char>>, Seq<char>),
            crate::error::StartErrorView,
        >((text::texts(inputs@), output@)),
        pipeline::selected(Err(e)) == Err::<
            (Seq<Seq<char>>, Seq<char>),
            crate::error::StartErrorView,
        >(e@),
        pipeline::step_outcome(Ok(())) == Ok::<(), crate::error::StartErrorView>(()),
        pipeline::step_outcome(Err(e)) == Err::<(), crate::error::StartErrorView>(e@),
        Build::OpenCapture@ == BuildView::OpenCapture,
        Build::OpenRender@ == BuildView::OpenRender,
        Build::LoadDenoiser@ == BuildView::LoadDenoiser,
        Build::SpawnDsp@ == BuildView::SpawnDsp,
        Build::Running@ == BuildView::Running,
        Build::Failed(e)@ == BuildView::Failed(e@),
        r@.ids == text::texts(r.ids@),
        r@.tried == r.tried,
        r@.last is Some <==> r.last is Some,
        r.last matches Some(why) ==> r@.last == Some(why@),
{
}

/// The menu is read entry by entry.
pub proof fn menus_are_read_as_they_are(items: Items, label: String, b: bool, i: int, n: usize)
    ensures
        menu::labelled((label, b)) == (label@, b),
        menu::place(Some(n)) == Some(n as int),
        menu::place(None) is None,
        items@.mics.len() == items.mics@.len(),
        items@.denoisers.len() == items.denoisers@.len(),
        items@.mics_unknown == items.mics_unknown,
        items@.enable.checked == items.enable.checked,
        items@.enable.enabled == items.enable.enabled,
        items@.enable.label == items.enable.label@,
        items@.auto_start.checked == items.auto_start.checked,
        items@.auto_start.enabled == items.auto_start.enabled,
        items@.auto_start.label == items.auto_start.label@,
        0 <= i < items.mics@.len() ==> {
            let m = items.mics@[i];
            &&& items@.mics[i].device_id == m.device_id@
            &&& items@.mics[i].friendly_name == m.friendly_name@
            &&& items@.mics[i].item.checked == m.item.checked
            &&& items@.mics[i].item.enabled == m.item.enabled
            &&& items@.mics[i].item.label == m.item.label@
        },
        0 <= i < items.denoisers@.len() ==> {
            let d = items.denoisers@[i];
            &&& items@.denoisers[i].onnx == d.onnx
            &&& items@.denoisers[i].item.checked == d.item.checked
            &&& items@.denoisers[i].item.enabled == d.item.enabled
            &&& items@.denoisers[i].item.label == d.item.label@
        },
{
}

/// The tray and what it is asked for are read field by field.
pub proof fn the_tray_is_read_as_it_is(s: TrayState, on: bool, id: String, name: String, log: FailureLog)
    ensures
        s@.cfg == s.cfg@,
        s@.built_in == s.built_in,
        s@.runs == s.runs,
        s@.last_tooltip_update == s.last_tooltip_update,
        s@.health == s.health,
        s@.failures == s.failures@,
        s@.items is Some <==> s.items is Some,
        s.items matches Some(items) ==> s@.items == Some(items@),
        s@.startup_error is Some <==> s.startup_error is Some,
        s.startup_error matches Some(p) ==> s@.startup_error == Some(p.message@),
        log.last is None ==> log@ is None,
        log.last matches Some((reason, at)) ==> log@ == Some((reason@, at)),
        tray::command_in(None) is None,
        tray::command_in(Some(Command::SetEnabled(on))) == Some(CommandView::SetEnabled(on)),
        tray::command_in(Some(Command::SetAutoStart(on))) == Some(CommandView::SetAutoStart(on)),
        tray::command_in(Some(Command::ShowWelcome)) == Some(CommandView::ShowWelcome),
        tray::command_in(Some(Command::OpenLogs)) == Some(CommandView::OpenLogs),
        tray::command_in(Some(Command::Quit)) == Some(CommandView::Quit),
        tray::command_in(Some(Command::SelectMic { device_id: id, name })) == Some(
            CommandView::SelectMic { device_id: id@, name: name@ },
        ),
        tray::command_in(Some(Command::SelectDenoiser { onnx: on })) == Some(
            CommandView::SelectDenoiser { onnx: on },
        ),
{
}

} // verus!
