//! From the command line to the tray: what a launch is for, and what is done
//! about a start that fails.

use vstd::prelude::*;
use vstd::string::*;

use crate::cli::{CliArgs, CliArgsView};
use crate::config;
use crate::config::{Config, ConfigView};
use crate::devices::{Device, DeviceList};
use crate::error;
use crate::error::{is_missing_cable, AudioError, StartError, StartErrorView};
use crate::firstrun::CableChoice;
use crate::text;
use crate::text::{has, join_words, push_range, to_decimal, to_lower};

verus! {

// ---- what a launch is for -------------------------------------------------

/// What a launch is for.
#[derive(Debug, Clone, Copy, PartialEq, Eq, Structural)]
pub enum Launch {
    Help,
    ListDevices,
    Denoise,
    Record,
    Tray,
}

/// The first of these that was asked for; with none of them, the tray.
pub open spec fn launch_of(a: CliArgsView) -> Launch {
    if a.help {
        Launch::Help
    } else if a.list_devices {
        Launch::ListDevices
    } else if a.denoise is Some {
        Launch::Denoise
    } else if a.record is Some {
        Launch::Record
    } else {
        Launch::Tray
    }
}

pub fn launch(args: &CliArgs) -> (r: Launch)
    ensures
        r == launch_of(args@),
{
    if args.help {
        Launch::Help
    } else if args.list_devices {
        Launch::ListDevices
    } else if args.denoise.is_some() {
        Launch::Denoise
    } else if args.record.is_some() {
        Launch::Record
    } else {
        Launch::Tray
    }
}

// ---- the list of devices --------------------------------------------------

/// One device as listed: its name, whether it is the default, for an output the
/// cable whose input it is, and its id on a line of its own.
pub open spec fn device_lines(d: Device, output: bool) -> Seq<char> {
    "  - "@ + d.friendly_name@ + (if d.is_default {
        " [default]"@
    } else {
        ""@
    }) + cable_mark(d, output) + "\n    id: "@ + d.id@ + "\n"@
}

/// Devices as listed, one after the other.
pub open spec fn listed(s: Seq<Device>, output: bool) -> Seq<char>
    decreases s.len(),
{
    if s.len() == 0 {
        Seq::empty()
    } else {
        listed(s.drop_last(), output) + device_lines(s.last(), output)
    }
}

/// All devices as listed.
pub open spec fn listing(list: DeviceList) -> Seq<char> {
    "Capture (input) devices:\n"@ + listed(list.capture@, false) + "\nRender (output) devices:\n"@
        + listed(list.render@, true)
}

/// The cable an output is marked with.
pub open spec fn cable_mark(d: Device, output: bool) -> Seq<char> {
    match d.cable_input() {
        Some(product) => if output {
            "  ["@ + product + "]"@
        } else {
            ""@
        },
        None => ""@,
    }
}

fn mark(d: &Device, output: bool) -> (s: String)
    ensures
        s@ == cable_mark(*d, output),
{
    match d.virtual_cable_input() {
        Some(product) => if output {
            let mut s: String = String::new();
            s.append("  [");
            s.append(product);
            s.append("]");
            assert(s@ =~= "  ["@ + product@ + "]"@);
            s
        } else {
            "".to_owned()
        },
        None => "".to_owned(),
    }
}

fn push_device(out: &mut String, d: &Device, output: bool)
    ensures
        final(out)@ == old(out)@ + device_lines(*d, output),
{
    let ghost before = out@;
    out.append("  - ");
    out.append(d.friendly_name.as_str());
    out.append(
        if d.is_default {
            " [default]"
        } else {
            ""
        },
    );
    out.append(mark(d, output).as_str());
    out.append("\n    id: ");
    out.append(d.id.as_str());
    out.append("\n");
    assert(out@ =~= before + device_lines(*d, output));
}

fn push_devices(out: &mut String, s: &Vec<Device>, output: bool)
    ensures
        final(out)@ == old(out)@ + listed(s@, output),
{
    let ghost before = out@;
    assert(out@ =~= before + listed(s@.take(0), output));
    for i in 0..s.len()
        invariant
            out@ == before + listed(s@.take(i as int), output),
    {
        let ghost now = out@;
        push_device(out, &s[i], output);
        proof {
            let line = device_lines(s@[i as int], output);
            assert(s@.take(i + 1).drop_last() =~= s@.take(i as int));
            assert(listed(s@.take(i + 1), output) == listed(s@.take(i as int), output) + line);
            assert(now + line =~= before + (listed(s@.take(i as int), output) + line));
        }
    }
    assert(s@.take(s@.len() as int) =~= s@);
}

/// The text that `--list-devices` prints.
pub fn list_devices(list: &DeviceList) -> (s: String)
    ensures
        s@ == listing(*list),
{
    let mut s: String = String::new();
    s.append("Capture (input) devices:\n");
    push_devices(&mut s, &list.capture, false);
    s.append("\nRender (output) devices:\n");
    push_devices(&mut s, &list.render, true);
    assert(s@ =~= listing(*list));
    s
}

// ---- the microphone asked for ---------------------------------------------

/// The names that contain `needle` whatever the case of ASCII letters, in order.
pub open spec fn names_with(s: Seq<Device>, needle: Seq<char>) -> Seq<Seq<char>>
    decreases s.len(),
{
    if s.len() == 0 {
        Seq::empty()
    } else if text::contains(text::lower(s.last().friendly_name@), text::lower(needle)) {
        names_with(s.drop_last(), needle).push(s.last().friendly_name@)
    } else {
        names_with(s.drop_last(), needle)
    }
}

/// What is said when several microphones could be meant.
pub open spec fn ambiguous(names: Seq<Seq<char>>) -> Seq<char> {
    "ambiguous: "@ + text::decimal(names.len()) + " devices matched ("@ + text::join(names, ", "@)
        + "). Refine the substring."@
}

/// The one microphone whose name contains `needle`, or why there is not one.
pub open spec fn microphone_with(list: Result<DeviceList, AudioError>, needle: Seq<char>) -> Result<
    Seq<char>,
    Seq<char>,
> {
    match list {
        Err(e) => Err(error::error_text(e@)),
        Ok(l) => {
            let names = names_with(l.capture@, needle);
            if names.len() == 0 {
                Err("no capture device matched"@)
            } else if names.len() == 1 {
                Ok(names[0])
            } else {
                Err(ambiguous(names))
            }
        },
    }
}

/// A result with its strings read as texts.
pub open spec fn spelled(r: Result<String, String>) -> Result<Seq<char>, Seq<char>> {
    match r {
        Ok(s) => Ok(s@),
        Err(s) => Err(s@),
    }
}

/// The one microphone whose name contains `needle`, whatever the case of ASCII
/// letters, given what listing the devices came to. Several are not guessed
/// between.
pub fn resolve_mic_by_substring(list: &Result<DeviceList, AudioError>, needle: &str) -> (r: Result<
    String,
    String,
>)
    ensures
        spelled(r) == microphone_with(*list, needle@),
{
    let all: &Vec<Device> = match list {
        Ok(l) => &l.capture,
        Err(e) => {
            return Err(e.text());
        },
    };
    let small: Vec<char> = to_lower(needle);
    let mut pattern: String = String::new();
    push_range(&mut pattern, &small, 0, small.len());
    assert(pattern@ =~= text::lower(needle@));
    let mut names: Vec<&str> = Vec::new();
    assert(text::words(names@) =~= names_with(all@.take(0), needle@));
    for i in 0..all.len()
        invariant
            pattern@ == text::lower(needle@),
            text::words(names@) == names_with(all@.take(i as int), needle@),
    {
        assert(all@.take(i + 1).drop_last() =~= all@.take(i as int));
        let name: &str = all[i].friendly_name.as_str();
        if has(&to_lower(name), pattern.as_str()) {
            let ghost before = text::words(names@);
            names.push(name);
            assert(text::words(names@) =~= before.push(name@));
        }
    }
    assert(all@.take(all@.len() as int) =~= all@);
    assert(text::words(names@).len() == names.len());
    if names.len() == 0 {
        return Err("no capture device matched".to_owned());
    }
    if names.len() == 1 {
        assert(names@[0]@ == text::words(names@)[0]);
        return Ok(names[0].to_owned());
    }
    let mut what: String = String::new();
    what.append("ambiguous: ");
    what.append(to_decimal(names.len()).as_str());
    what.append(" devices matched (");
    what.append(join_words(&names, ", ").as_str());
    what.append("). Refine the substring.");
    assert(what@ =~= ambiguous(text::words(names@)));
    Err(what)
}

/// The settings with the microphone that was asked for in front, or why not.
pub open spec fn overridden(
    c: ConfigView,
    list: Result<DeviceList, AudioError>,
    filter: Option<Seq<char>>,
) -> Result<ConfigView, Seq<char>> {
    match filter {
        None => Ok(c),
        Some(f) => match microphone_with(list, f) {
            Ok(name) => Ok(
                ConfigView {
                    microphones: config::promoted(c.microphones, name),
                    ..c
                },
            ),
            Err(why) => Err("--mic '"@ + f + "' did not match any input device: "@ + why),
        },
    }
}

/// Puts the microphone asked for with `--mic` in front of the preferences,
/// without saving that. The rest of the list stays as the usual fallbacks.
pub fn apply_mic(
    cfg: &mut Config,
    list: &Result<DeviceList, AudioError>,
    filter: Option<&str>,
) -> (r: Result<(), String>)
    ensures
        match r {
            Ok(_) => overridden(old(cfg)@, *list, text::said(filter)) == Ok::<
                ConfigView,
                Seq<char>,
            >(final(cfg)@),
            Err(why) => overridden(old(cfg)@, *list, text::said(filter)) == Err::<
                ConfigView,
                Seq<char>,
            >(why@) && final(cfg)@ == old(cfg)@,
        },
{
    match filter {
        None => Ok(()),
        Some(f) => match resolve_mic_by_substring(list, f) {
            Ok(name) => {
                cfg.prefer_microphone(name.as_str());
                Ok(())
            },
            Err(why) => {
                let mut what: String = String::new();
                what.append("--mic '");
                what.append(f);
                what.append("' did not match any input device: ");
                what.append(why.as_str());
                assert(what@ =~= "--mic '"@ + f@ + "' did not match any input device: "@ + why@);
                Err(what)
            },
        },
    }
}

// ---- one tray at a time ---------------------------------------------------

/// What asking the system for the name of the one tray came to.
#[derive(Debug, Clone, Copy, PartialEq, Eq, Structural)]
pub enum MutexOutcome {
    /// It could not be asked for.
    Failed,
    /// Another tray holds it; we were handed it all the same.
    Existed,
    Created,
}

/// Another tray holds the name. Not an error: the existing one is already doing
/// the job.
#[derive(Debug, Clone, Copy, PartialEq, Eq, Structural)]
pub struct AlreadyRunning;

/// The name of the one tray, held while this lives.
#[derive(Debug, Clone, Copy, PartialEq, Eq, Structural)]
pub struct Lock {
    /// There is a handle to close in the end.
    pub open: bool,
}

/// Who may run: only a name that another tray is known to hold is refused.
pub open spec fn lock_of(outcome: MutexOutcome) -> Result<Lock, AlreadyRunning> {
    match outcome {
        MutexOutcome::Failed => Ok::<Lock, AlreadyRunning>(Lock { open: false }),
        MutexOutcome::Existed => Err(AlreadyRunning),
        MutexOutcome::Created => Ok(Lock { open: true }),
    }
}

/// Are we the one tray? When that cannot be told, starting anyway is the lesser
/// evil.
pub fn acquire(outcome: MutexOutcome) -> (r: Result<Lock, AlreadyRunning>)
    ensures
        r == lock_of(outcome),
{
    match outcome {
        MutexOutcome::Failed => Ok(Lock { open: false }),
        MutexOutcome::Existed => Err(AlreadyRunning),
        MutexOutcome::Created => Ok(Lock { open: true }),
    }
}

// ---- a start that fails ---------------------------------------------------

/// What went wrong at startup, shown once the tray icon is there.
#[derive(Debug, Clone)]
pub struct StartupProblem {
    pub message: String,
}

/// What the first start of the audio came to.
#[derive(Debug)]
pub enum Startup<P> {
    /// Audio runs: show the tray.
    Running(P),
    /// There is no cable: ask about it, and end the run either way.
    CableMissing,
    /// Show the tray all the same, since the microphone picker is the usual way
    /// out, and tell what happened.
    Problem(StartupProblem),
}

/// What is said of audio that did not start.
pub open spec fn problem_text(e: StartErrorView) -> Seq<char> {
    "RoomMute is running, but audio isn't:\n\n"@ + error::full_text(e.cause, e.contexts)
}

/// What to tell of audio that did not start; `None` where there is no cable, which is
/// asked about instead.
pub open spec fn told(e: StartErrorView) -> Option<Seq<char>> {
    if error::missing_cable(e) {
        None
    } else {
        Some(problem_text(e))
    }
}

/// Decides what becomes of a launch once audio was started, or was not.
pub fn startup<P>(result: Result<P, StartError>) -> (r: Startup<P>)
    ensures
        match result {
            Ok(p) => r == Startup::Running(p),
            Err(e) => match told(e@) {
                None => r is CableMissing,
                Some(message) => r matches Startup::Problem(problem) && problem.message@ == message,
            },
        },
{
    match result {
        Ok(p) => Startup::Running(p),
        Err(e) => if is_missing_cable(&e) {
            Startup::CableMissing
        } else {
            let mut message: String = String::new();
            message.append("RoomMute is running, but audio isn't:\n\n");
            message.append(e.text().as_str());
            assert(message@ =~= problem_text(e@));
            Startup::Problem(StartupProblem { message })
        },
    }
}

/// What to do once the question about the missing cable was answered.
#[derive(Debug, Clone, Copy, PartialEq, Eq, Structural)]
pub struct AfterPrompt {
    /// Open the page where the cable can be had.
    pub open_site: bool,
    /// Stop starting with the system, or the question greets the user on every
    /// single boot.
    pub disable_autostart: bool,
}

/// What an answer asks for.
pub open spec fn prompt_of(choice: CableChoice, autostart_enabled: bool) -> AfterPrompt {
    AfterPrompt {
        open_site: choice == CableChoice::OpenSite,
        disable_autostart: choice == CableChoice::Close && autostart_enabled,
    }
}

pub fn after_cable_prompt(choice: CableChoice, autostart_enabled: bool) -> (r: AfterPrompt)
    ensures
        r == prompt_of(choice, autostart_enabled),
{
    match choice {
        CableChoice::OpenSite => AfterPrompt { open_site: true, disable_autostart: false },
        CableChoice::Close => AfterPrompt {
            open_site: false,
            disable_autostart: autostart_enabled,
        },
    }
}

} // verus!
