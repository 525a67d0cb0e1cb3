//! The tray: what it shows, and what each click and each tick of the clock does.
//!
//! The state here is everything the tray decides by. Opening devices, drawing,
//! asking the user and reading the clock happen outside, and what they come to
//! is handed in.

use vstd::prelude::*;
use vstd::string::*;

use crate::config;
use crate::config::{Config, ConfigView, ModelChoice, ModelFiles};
use crate::devices;
use crate::devices::{Device, DeviceList};
use crate::error;
use crate::error::{StartError, StartErrorView};
use crate::menu;
use crate::menu::{choose_denoiser, choose_microphone, Items, ItemsView, MenuId};
use crate::startup::StartupProblem;
use crate::text;
use crate::watchdog;
use crate::watchdog::{elapsed, FailureLog, Health, HealthAction};

verus! {

// ---- what the tray says ---------------------------------------------------

/// What the tooltip says of audio that does not flow.
pub open spec fn status_of(running: bool, stalled: bool) -> Option<Seq<char>> {
    if !running {
        Some("RoomMute — stopped (pick a microphone)"@)
    } else if stalled {
        Some("RoomMute — no audio from the microphone"@)
    } else {
        None
    }
}

/// What the tray should say about the audio, given whether a pipeline exists and
/// whether the watchdog thinks it has gone quiet. `None` when all is well: there
/// are real statistics to show instead.
pub fn status_text(running: bool, stalled: bool) -> (r: Option<&'static str>)
    ensures
        text::said(r) == status_of(running, stalled),
{
    if !running {
        Some("RoomMute — stopped (pick a microphone)")
    } else if stalled {
        Some("RoomMute — no audio from the microphone")
    } else {
        None
    }
}

/// The tooltip of a running denoiser.
pub open spec fn tooltip(
    denoiser: Seq<char>,
    enabled: bool,
    cpu_pct: Seq<char>,
    peak_ms: Seq<char>,
) -> Seq<char> {
    "RoomMute ("@ + denoiser + ")\n"@ + (if enabled {
        "ON"@
    } else {
        "BYPASS"@
    }) + "  |  CPU: "@ + cpu_pct + "%  peak: "@ + peak_ms + "ms"@
}

/// The tooltip of a running denoiser. The two numbers come written out, with one
/// digit after the point.
pub fn tooltip_text(denoiser: &str, enabled: bool, cpu_pct: &str, peak_ms: &str) -> (s: String)
    ensures
        s@ == tooltip(denoiser@, enabled, cpu_pct@, peak_ms@),
{
    let mut s: String = String::new();
    s.append("RoomMute (");
    s.append(denoiser);
    s.append(")\n");
    s.append(
        if enabled {
            "ON"
        } else {
            "BYPASS"
        },
    );
    s.append("  |  CPU: ");
    s.append(cpu_pct);
    s.append("%  peak: ");
    s.append(peak_ms);
    s.append("ms");
    assert(s@ =~= tooltip(denoiser@, enabled, cpu_pct@, peak_ms@));
    s
}

/// The tooltip before there is anything to report.
pub open spec fn first_tooltip(denoiser: Option<Seq<char>>) -> Seq<char> {
    match denoiser {
        Some(name) => "RoomMute ("@ + name + ") — starting"@,
        None => "RoomMute — stopped"@,
    }
}

/// The tooltip before there is anything to report; `None` when audio did not
/// start.
pub fn initial_tooltip(denoiser: Option<&str>) -> (s: String)
    ensures
        s@ == first_tooltip(text::said(denoiser)),
{
    match denoiser {
        Some(name) => {
            let mut s: String = String::new();
            s.append("RoomMute (");
            s.append(name);
            s.append(") — starting");
            assert(s@ =~= first_tooltip(text::said(denoiser)));
            s
        },
        None => "RoomMute — stopped".to_owned(),
    }
}

// ---- the state ------------------------------------------------------------

/// How far apart tooltips are renewed.
pub const TOOLTIP_EVERY: u64 = 1_000_000_000;

/// What cleans the audio.
#[derive(Debug, Clone, Copy, PartialEq, Eq, Structural)]
pub enum Backend {
    BuiltIn,
    Model,
}

/// What audio runs on that is started with a model, or without one.
pub open spec fn backend_of(model: bool) -> Backend {
    if model {
        Backend::Model
    } else {
        Backend::BuiltIn
    }
}

/// What audio runs on that was started with this model; without one it is the
/// built-in denoiser.
pub fn backend<P>(model: Option<P>) -> (r: Backend)
    ensures
        r == backend_of(model is Some),
{
    match model {
        Some(_p) => Backend::Model,
        None => Backend::BuiltIn,
    }
}

/// Everything the tray decides by.
#[derive(Debug)]
pub struct TrayState {
    pub cfg: Config,
    /// The built-in denoiser is to run, whatever the settings say: the model was
    /// asked for and not taken. Holds until a denoiser is chosen, or the program
    /// ends.
    pub built_in: bool,
    /// What the pipeline that runs was started with. None while there is none,
    /// since a restart has failed: the tray stays alive either way so that the
    /// user can pick again.
    pub runs: Option<Backend>,
    /// Shown once, after the icon is up.
    pub startup_error: Option<StartupProblem>,
    /// The menu, once there is one.
    pub items: Option<Items>,
    pub last_tooltip_update: u64,
    pub health: Health,
    pub failures: FailureLog,
}

/// A [`TrayState`] with its strings read as texts.
pub struct TrayStateView {
    pub cfg: ConfigView,
    pub built_in: bool,
    pub runs: Option<Backend>,
    pub startup_error: Option<Seq<char>>,
    pub items: Option<ItemsView>,
    pub last_tooltip_update: u64,
    pub health: Health,
    pub failures: Option<(Seq<char>, u64)>,
}

pub open spec fn problem_in(p: Option<StartupProblem>) -> Option<Seq<char>> {
    match p {
        Some(problem) => Some(problem.message@),
        None => None,
    }
}

pub open spec fn items_in(items: Option<Items>) -> Option<ItemsView> {
    match items {
        Some(i) => Some(i@),
        None => None,
    }
}

impl View for TrayState {
    type V = TrayStateView;

    open spec fn view(&self) -> TrayStateView {
        TrayStateView {
            cfg: self.cfg@,
            built_in: self.built_in,
            runs: self.runs,
            startup_error: problem_in(self.startup_error),
            items: items_in(self.items),
            last_tooltip_update: self.last_tooltip_update,
            health: self.health,
            failures: self.failures@,
        }
    }
}

/// Something that happened to the tray.
#[derive(Debug, Clone, Copy)]
pub enum TrayEvent {
    /// An entry was clicked on; `checked` is how its tick stands now.
    Menu { id: MenuId, checked: bool },
    /// The left button was released on the icon. Releases only, so that pressing
    /// and dragging away is not a toggle.
    LeftRelease,
    Other,
}

/// What an event asks for.
#[derive(Debug)]
pub enum Command {
    SetEnabled(bool),
    SetAutoStart(bool),
    ShowWelcome,
    OpenLogs,
    Quit,
    SelectMic { device_id: String, name: String },
    SelectDenoiser { onnx: bool },
}

/// A [`Command`] with its strings read as texts.
pub enum CommandView {
    SetEnabled(bool),
    SetAutoStart(bool),
    ShowWelcome,
    OpenLogs,
    Quit,
    SelectMic { device_id: Seq<char>, name: Seq<char> },
    SelectDenoiser { onnx: bool },
}

impl View for Command {
    type V = CommandView;

    open spec fn view(&self) -> CommandView {
        match *self {
            Command::SetEnabled(on) => CommandView::SetEnabled(on),
            Command::SetAutoStart(on) => CommandView::SetAutoStart(on),
            Command::ShowWelcome => CommandView::ShowWelcome,
            Command::OpenLogs => CommandView::OpenLogs,
            Command::Quit => CommandView::Quit,
            Command::SelectMic { device_id, name } => CommandView::SelectMic {
                device_id: device_id@,
                name: name@,
            },
            Command::SelectDenoiser { onnx } => CommandView::SelectDenoiser { onnx },
        }
    }
}

pub open spec fn command_in(c: Option<Command>) -> Option<CommandView> {
    match c {
        Some(command) => Some(command@),
        None => None,
    }
}

/// What the icon shows.
#[derive(Debug, Clone, Copy, PartialEq, Eq, Structural)]
pub struct IconState {
    pub enabled: bool,
    pub warning: bool,
}

/// What became of choosing a denoiser.
#[derive(Debug, Clone, Copy, PartialEq, Eq, Structural)]
pub enum DenoiserChoice {
    /// The licence was declined: the built-in denoiser is to run. Where a model
    /// runs, the audio has to be restarted for that.
    Declined { restart: bool },
    /// There is no model to use: say where to put one. The built-in denoiser is
    /// to run, and a model may still be running whose file is gone.
    Missing { restart: bool },
    /// Restart the audio with it.
    Chosen,
}

/// The audio is to be restarted for a choice.
pub open spec fn restarts(choice: DenoiserChoice) -> bool {
    match choice {
        DenoiserChoice::Declined { restart } => restart,
        DenoiserChoice::Missing { restart } => restart,
        DenoiserChoice::Chosen => true,
    }
}

impl TrayStateView {
    /// There is a pipeline.
    pub open spec fn running(self) -> bool {
        self.runs is Some
    }

    /// No pipeline at all, or one that has stopped delivering.
    pub open spec fn broken(self) -> bool {
        !self.running() || self.health.stalled
    }

    /// What the icon shows: colour for on and off, the badge for broken audio.
    pub open spec fn icon(self) -> IconState {
        IconState { enabled: self.cfg.enabled, warning: self.broken() }
    }

    /// What an event asks for.
    pub open spec fn asked(self, event: TrayEvent) -> Option<CommandView> {
        match event {
            TrayEvent::LeftRelease => Some(CommandView::SetEnabled(!self.cfg.enabled)),
            TrayEvent::Other => None,
            TrayEvent::Menu { id, checked } => match self.items {
                None => None,
                Some(items) => match id {
                    MenuId::Enable => Some(CommandView::SetEnabled(checked)),
                    MenuId::AutoStart => Some(CommandView::SetAutoStart(checked)),
                    MenuId::Help => Some(CommandView::ShowWelcome),
                    MenuId::OpenLogs => Some(CommandView::OpenLogs),
                    MenuId::Quit => Some(CommandView::Quit),
                    MenuId::Microphone(_i) => match items.mic_at(id) {
                        Some(m) => Some(
                            CommandView::SelectMic {
                                device_id: m.device_id,
                                name: m.friendly_name,
                            },
                        ),
                        None => None,
                    },
                    MenuId::Denoiser { onnx: _o } => match items.denoiser_at(id) {
                        Some(d) => Some(CommandView::SelectDenoiser { onnx: d.onnx }),
                        None => None,
                    },
                },
            },
        }
    }

    /// Denoising switched on or off.
    pub open spec fn enabled(self, on: bool) -> TrayStateView {
        TrayStateView {
            cfg: ConfigView { enabled: on, ..self.cfg },
            items: match self.items {
                Some(items) => Some(
                    ItemsView { enable: menu::ticked(items.enable, on), ..items },
                ),
                None => None,
            },
            ..self
        }
    }

    /// A microphone chosen.
    pub open spec fn with_mic(self, device_id: Seq<char>, name: Seq<char>) -> TrayStateView {
        TrayStateView {
            cfg: menu::with_microphone(self.cfg, name),
            items: match self.items {
                Some(items) => Some(items.with_mic(device_id)),
                None => None,
            },
            ..self
        }
    }

    /// The model that the audio is to run with; `None` for the built-in denoiser.
    pub open spec fn model(self, files: ModelFiles) -> Option<ModelChoice> {
        if self.built_in {
            None
        } else {
            config::active_model_of(self.cfg, files)
        }
    }

    /// The audio started anew, with these files there.
    pub open spec fn started(self, files: ModelFiles) -> TrayStateView {
        TrayStateView { runs: Some(backend_of(self.model(files) is Some)), ..self }
    }

    /// A model runs, whatever has become of its file.
    pub open spec fn runs_model(self) -> bool {
        self.runs == Some(Backend::Model)
    }

    /// What becomes of choosing a denoiser.
    pub open spec fn choice(self, onnx: bool, licence: bool, available: bool) -> DenoiserChoice {
        if onnx && !licence {
            DenoiserChoice::Declined { restart: self.runs_model() }
        } else if onnx && !available {
            DenoiserChoice::Missing { restart: self.runs_model() }
        } else {
            DenoiserChoice::Chosen
        }
    }

    /// A denoiser chosen, or not.
    pub open spec fn with_denoiser(
        self,
        onnx: bool,
        licence: bool,
        available: Option<Seq<char>>,
    ) -> TrayStateView {
        let chosen = self.choice(onnx, licence, available is Some) == DenoiserChoice::Chosen;
        TrayStateView {
            cfg: if chosen {
                menu::with_denoiser(self.cfg, onnx, available)
            } else {
                self.cfg
            },
            built_in: !chosen,
            items: match self.items {
                Some(items) => Some(items.with_denoiser(chosen && onnx)),
                None => None,
            },
            ..self
        }
    }

    /// The icon is up, with this menu.
    pub open spec fn shown(self, items: ItemsView) -> TrayStateView {
        TrayStateView { startup_error: None, items: Some(items), ..self }
    }

    /// The welcome was offered: shown, if it was due.
    pub open spec fn greeted(self) -> TrayStateView {
        TrayStateView {
            cfg: ConfigView { welcomed: self.cfg.welcomed || self.welcome_due(), ..self.cfg },
            ..self
        }
    }

    /// A restart that the user asked for came to this; `None` when it failed.
    pub open spec fn restarted(self, runs: Option<Backend>) -> TrayStateView {
        TrayStateView { runs, ..self }
    }

    /// A restart that the watchdog asked for worked.
    pub open spec fn recovered(
        self,
        b: Backend,
        frames: u64,
        polls: u64,
        now: u64,
    ) -> TrayStateView {
        TrayStateView {
            runs: Some(b),
            health: self.health.restarted(frames, polls, now),
            failures: None,
            ..self
        }
    }

    /// A restart that the watchdog asked for failed.
    pub open spec fn still_stopped(self, reason: Seq<char>, now: u64) -> TrayStateView {
        TrayStateView {
            runs: None,
            failures: if watchdog::is_news(self.failures, reason, now) {
                Some((reason, now))
            } else {
                self.failures
            },
            ..self
        }
    }

    /// What the watchdog wants done, given the counters of the pipeline if there is
    /// one.
    pub open spec fn wants(self, frames: u64, render_polls: u64, now: u64) -> HealthAction {
        if self.running() {
            self.health.response(frames, render_polls, now)
        } else {
            HealthAction { redraw: false, restart: self.health.recovery_due(now) }
        }
    }

    /// The watchdog has looked.
    pub open spec fn watched(self, frames: u64, render_polls: u64, now: u64) -> TrayStateView {
        TrayStateView {
            health: if self.running() {
                self.health.observed(frames, render_polls, now)
            } else {
                self.health.observed_stopped(now)
            },
            ..self
        }
    }

    /// The tooltip is old enough to be renewed.
    pub open spec fn tooltip_old(self, now: u64) -> bool {
        watchdog::span(self.last_tooltip_update, now) >= TOOLTIP_EVERY
    }

    /// The tooltip was renewed, if it was old enough.
    pub open spec fn tooltip_renewed(self, now: u64) -> TrayStateView {
        TrayStateView {
            last_tooltip_update: if self.tooltip_old(now) {
                now
            } else {
                self.last_tooltip_update
            },
            ..self
        }
    }

    /// Starting with the system was to be changed, and was or was not.
    pub open spec fn with_autostart(self, wanted: bool, done: bool) -> TrayStateView {
        TrayStateView {
            items: match self.items {
                Some(items) => Some(
                    ItemsView { auto_start: menu::ticked(items.auto_start, wanted == done), ..items },
                ),
                None => None,
            },
            ..self
        }
    }

    /// The welcome is to be shown: audio runs, and it has not been shown before.
    pub open spec fn welcome_due(self) -> bool {
        self.running() && !self.cfg.welcomed
    }
}

/// What is said when the chosen device does not start.
pub open spec fn restart_text(e: StartErrorView) -> Seq<char> {
    "Could not start audio with that device:\n\n"@ + error::full_text(e.cause, e.contexts)
}

/// What is said when starting with the system could not be changed.
pub open spec fn autostart_text(why: Seq<char>) -> Seq<char> {
    "Could not change start-with-Windows:\n\n"@ + why
}

/// The microphone in use, of those there are; `id` is what it was opened by.
pub open spec fn in_use(list: DeviceList, id: Option<Seq<char>>) -> Option<Device> {
    match id {
        Some(id) => devices::pick(list.capture@, devices::by_id(id)),
        None => None,
    }
}

/// Which microphone the welcome names: the one in use, and where there is none,
/// the one that is tried first.
pub open spec fn welcome_mic(
    cfg: ConfigView,
    list: Option<&DeviceList>,
    id: Option<Seq<char>>,
) -> Seq<char> {
    match list {
        Some(l) => match in_use(*l, id) {
            Some(d) => d.friendly_name@,
            None => if l.candidates(cfg.microphones).len() > 0 {
                l.candidates(cfg.microphones)[0].friendly_name@
            } else {
                "your default microphone"@
            },
        },
        None => "your default microphone"@,
    }
}

/// Which device the welcome says to select elsewhere: the capture half of a
/// cable.
pub open spec fn welcome_cable(list: Option<&DeviceList>) -> Option<Seq<char>> {
    match list {
        Some(l) => match devices::pick(l.capture@, devices::by_cable_output()) {
            Some(d) => Some(d.friendly_name@),
            None => None,
        },
        None => None,
    }
}

impl TrayState {
    pub fn new(
        cfg: Config,
        runs: Option<Backend>,
        startup_error: Option<StartupProblem>,
        now: u64,
    ) -> (r: Self)
        ensures
            r@ == (TrayStateView {
                cfg: cfg@,
                built_in: false,
                runs,
                startup_error: problem_in(startup_error),
                items: None,
                last_tooltip_update: now,
                health: r.health,
                failures: None,
            }),
            r.health == Health::fresh(now),
    {
        TrayState {
            cfg,
            built_in: false,
            runs,
            startup_error,
            items: None,
            last_tooltip_update: now,
            health: Health::new_at(now),
            failures: FailureLog::default(),
        }
    }

    /// The icon is up: takes the menu, and hands out what went wrong at startup.
    /// Told only now, since a dialog with nothing behind it reads as an error
    /// from nowhere.
    pub fn resumed(&mut self, items: Items) -> (r: Option<StartupProblem>)
        ensures
            problem_in(r) == old(self)@.startup_error,
            final(self)@ == old(self)@.shown(items@),
    {
        self.items = Some(items);
        self.startup_error.take()
    }

    /// No pipeline at all, or one that has stopped delivering. Both mean the
    /// microphone isn't reaching anybody, which is what the badge is for.
    pub fn audio_is_broken(&self) -> (r: bool)
        ensures
            r == self@.broken(),
    {
        self.runs.is_none() || self.health.stalled
    }

    /// What the icon has to show.
    pub fn icon(&self) -> (r: IconState)
        ensures
            r == self@.icon(),
    {
        IconState { enabled: self.cfg.enabled, warning: self.audio_is_broken() }
    }

    /// What an event asks for, if anything.
    pub fn user_event(&self, event: TrayEvent) -> (r: Option<Command>)
        ensures
            command_in(r) == self@.asked(event),
    {
        match event {
            TrayEvent::LeftRelease => Some(Command::SetEnabled(!self.cfg.enabled)),
            TrayEvent::Other => None,
            TrayEvent::Menu { id, checked } => match &self.items {
                None => None,
                Some(items) => match id {
                    MenuId::Enable => Some(Command::SetEnabled(checked)),
                    MenuId::AutoStart => Some(Command::SetAutoStart(checked)),
                    MenuId::Help => Some(Command::ShowWelcome),
                    MenuId::OpenLogs => Some(Command::OpenLogs),
                    MenuId::Quit => Some(Command::Quit),
                    MenuId::Microphone(_i) => match items.mic_by_id(id) {
                        Some(m) => Some(
                            Command::SelectMic {
                                device_id: m.device_id.clone(),
                                name: m.friendly_name.clone(),
                            },
                        ),
                        None => None,
                    },
                    MenuId::Denoiser { onnx: _o } => match items.denoiser_by_id(id) {
                        Some(d) => Some(Command::SelectDenoiser { onnx: d.onnx }),
                        None => None,
                    },
                },
            },
        }
    }

    /// The single path for turning denoising on and off, whichever surface
    /// asked. The checkbox, the icon and the settings agree afterwards.
    pub fn set_enabled(&mut self, enabled: bool)
        ensures
            final(self)@ == old(self)@.enabled(enabled),
    {
        self.cfg.enabled = enabled;
        match &mut self.items {
            Some(items) => {
                items.enable.checked = enabled;
            },
            None => {},
        }
    }

    /// Should the welcome be shown now? Only when audio is actually running: it
    /// says which microphone is in use, which is not true yet otherwise. The
    /// settings say that it was shown before it is, so that a crash meanwhile
    /// does not bring it back on every start.
    pub fn welcome_once(&mut self) -> (show: bool)
        ensures
            show == old(self)@.welcome_due(),
            final(self)@ == old(self)@.greeted(),
    {
        if self.runs.is_none() || self.cfg.welcomed {
            return false;
        }
        self.cfg.welcomed = true;
        true
    }

    /// The two names the welcome is made of, given the devices there are right
    /// now and the id of the microphone in use: the name of that microphone,
    /// which need not be the one that is tried first, and the capture half of
    /// the cable, which is the half other applications select.
    pub fn welcome_names(&self, list: Option<&DeviceList>, in_use: Option<&str>) -> (r: (
        String,
        Option<String>,
    ))
        ensures
            r.0@ == welcome_mic(self@.cfg, list, text::said(in_use)),
            match r.1 {
                Some(name) => welcome_cable(list) == Some(name@),
                None => welcome_cable(list) is None,
            },
    {
        match list {
            Some(l) => {
                let open: Option<&Device> = match in_use {
                    Some(id) => l.capture_by_id(id),
                    None => None,
                };
                let named: Option<&Device> = match open {
                    Some(d) => Some(d),
                    None => l.resolve_capture_ranked(self.cfg.microphones.as_slice()),
                };
                let mic: String = match named {
                    Some(d) => d.friendly_name.clone(),
                    None => "your default microphone".to_owned(),
                };
                let cable: Option<String> = match l.virtual_cable_output_device() {
                    Some(d) => Some(d.friendly_name.clone()),
                    None => None,
                };
                (mic, cable)
            },
            None => ("your default microphone".to_owned(), None),
        }
    }

    /// Clicking a microphone makes it first choice; everything else shifts down.
    /// One rule, and it builds the fallback order out of ordinary use. The audio
    /// is to be restarted afterwards.
    pub fn select_mic(&mut self, device_id: &str, name: &str)
        ensures
            final(self)@ == old(self)@.with_mic(device_id@, name@),
    {
        choose_microphone(&mut self.cfg, name);
        match &mut self.items {
            Some(items) => {
                items.tick_mic(device_id);
            },
            None => {},
        }
    }

    /// Choosing the model means accepting someone else's licence, so that is
    /// asked every time; `licence` is the answer, `available` where the model
    /// is. Declining leaves the built-in denoiser running rather than nothing,
    /// and so does there being no model, until a denoiser is chosen; the
    /// settings stay as they are. A model that runs is stopped for it by a
    /// restart.
    pub fn select_denoiser(&mut self, onnx: bool, licence: bool, available: Option<&str>) -> (r:
        DenoiserChoice)
        ensures
            r == old(self)@.choice(onnx, licence, available is Some),
            final(self)@ == old(self)@.with_denoiser(onnx, licence, text::said(available)),
    {
        let restart: bool = match self.runs {
            Some(b) => b == Backend::Model,
            None => false,
        };
        let choice: DenoiserChoice = if onnx && !licence {
            DenoiserChoice::Declined { restart }
        } else if onnx && available.is_none() {
            DenoiserChoice::Missing { restart }
        } else {
            DenoiserChoice::Chosen
        };
        let mut model: bool = false;
        match choice {
            DenoiserChoice::Chosen => {
                choose_denoiser(&mut self.cfg, onnx, available);
                self.built_in = false;
                model = onnx;
            },
            _ => {
                self.built_in = true;
            },
        }
        match &mut self.items {
            Some(items) => {
                items.tick_denoiser(model);
            },
            None => {},
        }
        choice
    }

    /// The model to run the audio with, given what files there are; `None` for
    /// the built-in denoiser.
    pub fn active_model(&self, files: &ModelFiles) -> (r: Option<ModelChoice>)
        ensures
            r == self@.model(*files),
    {
        if self.built_in {
            None
        } else {
            self.cfg.active_model(files)
        }
    }

    /// The audio was restarted because the user chose something; with it comes
    /// what it runs on. What to say when it did not start: the fix is to choose differently from the very
    /// menu that is still there.
    pub fn restarted(&mut self, result: Result<Backend, StartError>) -> (r: Option<String>)
        ensures
            final(self)@ == old(self)@.restarted(
                match result {
                    Ok(b) => Some(b),
                    Err(_e) => None,
                },
            ),
            match (result, r) {
                (Ok(_), None) => true,
                (Err(e), Some(what)) => what@ == restart_text(e@),
                _ => false,
            },
    {
        match result {
            Ok(b) => {
                self.runs = Some(b);
                None
            },
            Err(e) => {
                self.runs = None;
                let mut what: String = String::new();
                what.append("Could not start audio with that device:\n\n");
                what.append(e.text().as_str());
                assert(what@ =~= restart_text(e@));
                Some(what)
            },
        }
    }

    /// The audio was restarted because the watchdog asked; with it come what it
    /// runs on and the counters of the new pipeline. The user is not told, since a dialog every
    /// few seconds would be its own kind of failure; what comes back is worth a
    /// line in the log.
    pub fn restarted_quietly(
        &mut self,
        result: Result<(Backend, u64, u64), StartError>,
        now: u64,
    ) -> (r: Option<String>)
        ensures
            match result {
                Ok((b, frames, polls)) => {
                    &&& r is None
                    &&& final(self)@ == old(self)@.recovered(b, frames, polls, now)
                },
                Err(e) => {
                    let reason = error::full_text(e@.cause, e@.contexts);
                    &&& (r is Some) == watchdog::is_news(old(self)@.failures, reason, now)
                    &&& r matches Some(what) ==> what@ == reason
                    &&& final(self)@ == old(self)@.still_stopped(reason, now)
                },
            },
    {
        match result {
            Ok((b, frames, polls)) => {
                self.failures.clear();
                self.health.rebase(frames, polls, now);
                self.runs = Some(b);
                None
            },
            Err(e) => {
                self.runs = None;
                let reason: String = e.text();
                if self.failures.should_report(reason.as_str(), now) {
                    Some(reason)
                } else {
                    None
                }
            },
        }
    }

    /// Watches the counters and asks for a restart when they stop. A restart
    /// that failed leaves no pipeline, and then it keeps asking: the usual
    /// reason is a device that was still missing.
    pub fn check_health(&mut self, frames: u64, render_polls: u64, now: u64) -> (r: HealthAction)
        ensures
            r == old(self)@.wants(frames, render_polls, now),
            final(self)@ == old(self)@.watched(frames, render_polls, now),
    {
        if self.runs.is_some() {
            self.health.observe(frames, render_polls, now)
        } else {
            self.health.observe_stopped(now)
        }
    }

    /// Is the tooltip to be renewed now?
    pub fn tooltip_due(&mut self, now: u64) -> (r: bool)
        ensures
            r == old(self)@.tooltip_old(now),
            final(self)@ == old(self)@.tooltip_renewed(now),
    {
        if elapsed(self.last_tooltip_update, now) >= TOOLTIP_EVERY {
            self.last_tooltip_update = now;
            true
        } else {
            false
        }
    }

    /// Starting with the system was asked for, or no longer; `result` is what
    /// changing it came to. The checkbox reflects what is, not what was wished
    /// for. What comes back is to be told.
    pub fn autostart_changed(&mut self, wanted: bool, result: Result<(), &str>) -> (r: Option<
        String,
    >)
        ensures
            match (result, r) {
                (Ok(_), None) => true,
                (Err(why), Some(what)) => what@ == autostart_text(why@),
                _ => false,
            },
            final(self)@ == old(self)@.with_autostart(wanted, result is Ok),
    {
        let done: bool = result.is_ok();
        match &mut self.items {
            Some(items) => {
                items.auto_start.checked = wanted == done;
            },
            None => {},
        }
        match result {
            Ok(_) => None,
            Err(why) => {
                let mut what: String = String::new();
                what.append("Could not change start-with-Windows:\n\n");
                what.append(why);
                assert(what@ =~= autostart_text(why@));
                Some(what)
            },
        }
    }
}

} // verus!
