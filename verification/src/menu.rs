//! The tray menu: what it offers, and what choosing from it does to the
//! settings.

use vstd::prelude::*;
use vstd::string::*;

use crate::config;
use crate::config::{Config, ConfigView};
use crate::devices;
use crate::devices::{same_device_name, Device, DeviceList};
use crate::text;
use crate::text::{chars_of, same_text, to_decimal};

verus! {

// ---- labels ---------------------------------------------------------------

/// How a capture device appears in the picker, and whether it can be chosen.
pub open spec fn mic_label(
    name: Seq<char>,
    is_system_default: bool,
    cable: Option<Seq<char>>,
    rank: Option<int>,
) -> (Seq<char>, bool) {
    match cable {
        Some(product) => (name + "  — "@ + product + "'s own output, would loop"@, false),
        None => (
            (match rank {
                Some(i) => text::decimal((i + 1) as nat) + ".  "@,
                None => "     "@,
            }) + name + (if is_system_default {
                "  (system default)"@
            } else {
                ""@
            }),
            true,
        ),
    }
}

/// A rank as a number.
pub open spec fn place(rank: Option<usize>) -> Option<int> {
    match rank {
        Some(i) => Some(i as int),
        None => None,
    }
}

/// A label and whether it can be chosen, with its string read as a text.
pub open spec fn labelled(r: (String, bool)) -> (Seq<char>, bool) {
    (r.0@, r.1)
}

/// How a capture device should appear in the picker.
///
/// A virtual cable's output side is listed like any other microphone, but
/// choosing it would have us record from the very cable we write to. Greyed out
/// with the reason attached beats an error dialog after the fact. Ranks come
/// first so that the preference order reads down the menu.
pub fn mic_entry(
    name: &str,
    is_system_default: bool,
    cable: Option<&str>,
    rank: Option<usize>,
) -> (r: (String, bool))
    requires
        rank matches Some(i) ==> i < usize::MAX,
    ensures
        labelled(r) == mic_label(name@, is_system_default, text::said(cable), place(rank)),
{
    let mut s: String = String::new();
    match cable {
        Some(product) => {
            s.append(name);
            s.append("  — ");
            s.append(product);
            s.append("'s own output, would loop");
            assert(s@ =~= mic_label(name@, is_system_default, text::said(cable), place(rank)).0);
            return (s, false);
        },
        None => {},
    }
    match rank {
        Some(i) => {
            s.append(to_decimal(i + 1).as_str());
            s.append(".  ");
        },
        None => {
            s.append("     ");
        },
    }
    s.append(name);
    if is_system_default {
        s.append("  (system default)");
    } else {
        s.append("");
    }
    assert(s@ =~= mic_label(name@, is_system_default, text::said(cable), place(rank)).0);
    (s, true)
}

/// How the entry for the system's default microphone appears.
pub open spec fn default_label(current_default: Option<Seq<char>>) -> (Seq<char>, bool) {
    match current_default {
        Some(product) => ("Windows default  — currently "@ + product + ", would loop"@, false),
        None => ("Windows default"@, true),
    }
}

/// The "Windows default" entry, which is the subtle one: following the system
/// default is fine until the system default *is* a cable, which is precisely
/// what installing one does. Then the safe-looking option is the trap.
pub fn default_entry(current_default: Option<&str>) -> (r: (String, bool))
    ensures
        labelled(r) == default_label(text::said(current_default)),
{
    match current_default {
        Some(product) => {
            let mut s: String = String::new();
            s.append("Windows default  — currently ");
            s.append(product);
            s.append(", would loop");
            assert(s@ =~= default_label(text::said(current_default)).0);
            (s, false)
        },
        None => ("Windows default".to_owned(), true),
    }
}

/// A file whose name ends in ".gz", with something before that.
pub open spec fn gzipped(file_name: Seq<char>) -> bool {
    file_name.len() > 3 && file_name.skip(file_name.len() - 3) == seq!['.', 'g', 'z']
}

/// How the model appears: named after the backend that will load it. A folder or
/// an archive is DeepFilterNet3, anything else is loaded as it is.
pub open spec fn model_label(file_name: Seq<char>, directory: bool) -> Seq<char> {
    if directory || gzipped(file_name) {
        "DeepFilterNet3"@
    } else {
        file_name + " (ONNX)"@
    }
}

fn is_gzipped(file_name: &str) -> (r: bool)
    ensures
        r == gzipped(file_name@),
{
    let chars: Vec<char> = chars_of(file_name);
    let n: usize = chars.len();
    if n <= 3 {
        return false;
    }
    let r: bool = chars[n - 3] == '.' && chars[n - 2] == 'g' && chars[n - 1] == 'z';
    proof {
        let end = file_name@.skip(n - 3);
        assert(end[0] == chars@[n - 3] && end[1] == chars@[n - 2] && end[2] == chars@[n - 1]);
        if r {
            assert(end =~= seq!['.', 'g', 'z']);
        }
    }
    r
}

pub fn model_entry(file_name: &str, directory: bool) -> (s: String)
    ensures
        s@ == model_label(file_name@, directory),
{
    if directory || is_gzipped(file_name) {
        "DeepFilterNet3".to_owned()
    } else {
        let mut s: String = String::new();
        s.append(file_name);
        s.append(" (ONNX)");
        assert(s@ =~= file_name@ + " (ONNX)"@);
        s
    }
}

// ---- choices --------------------------------------------------------------

/// The settings after a microphone was chosen by name; the empty name is the
/// system's default.
pub open spec fn with_microphone(c: ConfigView, name: Seq<char>) -> ConfigView {
    ConfigView {
        microphones: if name.len() == 0 {
            Seq::empty()
        } else {
            config::promoted(c.microphones, name)
        },
        ..c
    }
}

/// Records a microphone choice. An empty name is the "Windows default" entry,
/// which means *stop* expressing a preference rather than remembering one.
pub fn choose_microphone(cfg: &mut Config, name: &str)
    ensures
        final(cfg)@ == with_microphone(old(cfg)@, name@),
{
    if name.is_empty() {
        cfg.microphones.clear();
        assert(cfg@.microphones =~= Seq::empty());
    } else {
        cfg.prefer_microphone(name);
    }
}

/// The settings after a denoiser was chosen; `available` is where a model was
/// found.
pub open spec fn with_denoiser(
    c: ConfigView,
    onnx: bool,
    available: Option<Seq<char>>,
) -> ConfigView {
    ConfigView {
        use_onnx: onnx,
        model_path: match available {
            Some(path) => if onnx {
                path
            } else {
                c.model_path
            },
            None => c.model_path,
        },
        ..c
    }
}

/// Records a denoiser choice, remembering where the model was found so that
/// switching back to it later does not ask for it again.
pub fn choose_denoiser(cfg: &mut Config, onnx: bool, available: Option<&str>)
    ensures
        final(cfg)@ == with_denoiser(old(cfg)@, onnx, text::said(available)),
{
    if onnx {
        match available {
            Some(path) => {
                cfg.model_path = path.to_owned();
            },
            None => {},
        }
    }
    cfg.use_onnx = onnx;
}

// ---- the menu -------------------------------------------------------------

/// What is clicked on.
#[derive(Debug, Clone, Copy, PartialEq, Eq, Structural)]
pub enum MenuId {
    Enable,
    /// A microphone, by its place in the list.
    Microphone(usize),
    /// The model, or the built-in denoiser.
    Denoiser { onnx: bool },
    AutoStart,
    Help,
    OpenLogs,
    Quit,
}

pub const ENABLE_LABEL: &'static str = "Enabled";

pub const MICROPHONE_LABEL: &'static str = "Microphone";

pub const DENOISER_LABEL: &'static str = "Denoiser";

pub const BUILT_IN_LABEL: &'static str = "RNNoise (built-in)";

pub const AUTO_START_LABEL: &'static str = "Start with Windows";

pub const HELP_LABEL: &'static str = "Help — how to use this";

pub const OPEN_LOGS_LABEL: &'static str = "Open log folder";

pub const QUIT_LABEL: &'static str = "Quit RoomMute";

/// Stands among the microphones when they could not be listed.
pub const NO_MICROPHONES_LABEL: &'static str = "(no microphones found)";

/// Stands among the denoisers when there is no model: the absence is explained
/// rather than one option silently offered.
pub const NO_MODEL_LABEL: &'static str = "(no model found next to the app)";

/// An entry that can be ticked.
#[derive(Debug)]
pub struct CheckItem {
    pub label: String,
    pub enabled: bool,
    pub checked: bool,
}

/// A [`CheckItem`] with its string read as a text.
pub struct CheckItemView {
    pub label: Seq<char>,
    pub enabled: bool,
    pub checked: bool,
}

impl View for CheckItem {
    type V = CheckItemView;

    open spec fn view(&self) -> CheckItemView {
        CheckItemView { label: self.label@, enabled: self.enabled, checked: self.checked }
    }
}

/// One entry in the microphone submenu.
#[derive(Debug)]
pub struct MicEntry {
    pub item: CheckItem,
    /// Empty = follow the system's default device.
    pub device_id: String,
    pub friendly_name: String,
}

/// A [`MicEntry`] with its strings read as texts.
pub struct MicEntryView {
    pub item: CheckItemView,
    pub device_id: Seq<char>,
    pub friendly_name: Seq<char>,
}

impl View for MicEntry {
    type V = MicEntryView;

    open spec fn view(&self) -> MicEntryView {
        MicEntryView {
            item: self.item@,
            device_id: self.device_id@,
            friendly_name: self.friendly_name@,
        }
    }
}

/// One entry in the denoiser submenu.
#[derive(Debug)]
pub struct DenoiserEntry {
    pub item: CheckItem,
    /// True for the model, false for the built-in denoiser.
    pub onnx: bool,
}

/// A [`DenoiserEntry`] with its string read as a text.
pub struct DenoiserEntryView {
    pub item: CheckItemView,
    pub onnx: bool,
}

impl View for DenoiserEntry {
    type V = DenoiserEntryView;

    open spec fn view(&self) -> DenoiserEntryView {
        DenoiserEntryView { item: self.item@, onnx: self.onnx }
    }
}

/// The entries of the menu that change. Help, the log folder and Quit are always
/// there and always the same.
#[derive(Debug)]
pub struct Items {
    pub enable: CheckItem,
    pub mics: Vec<MicEntry>,
    /// The microphones could not be listed.
    pub mics_unknown: bool,
    /// The built-in denoiser, then the model if there is one.
    pub denoisers: Vec<DenoiserEntry>,
    pub auto_start: CheckItem,
}

/// [`Items`] with their strings read as texts.
pub struct ItemsView {
    pub enable: CheckItemView,
    pub mics: Seq<MicEntryView>,
    pub mics_unknown: bool,
    pub denoisers: Seq<DenoiserEntryView>,
    pub auto_start: CheckItemView,
}

pub open spec fn mic_views(s: Seq<MicEntry>) -> Seq<MicEntryView> {
    Seq::new(s.len(), |i: int| s[i]@)
}

pub open spec fn denoiser_views(s: Seq<DenoiserEntry>) -> Seq<DenoiserEntryView> {
    Seq::new(s.len(), |i: int| s[i]@)
}

impl View for Items {
    type V = ItemsView;

    open spec fn view(&self) -> ItemsView {
        ItemsView {
            enable: self.enable@,
            mics: mic_views(self.mics@),
            mics_unknown: self.mics_unknown,
            denoisers: denoiser_views(self.denoisers@),
            auto_start: self.auto_start@,
        }
    }
}

/// A model that is there to be chosen.
#[derive(Debug, Clone)]
pub struct ModelOffer {
    /// The last step of its path.
    pub file_name: String,
    pub directory: bool,
}

/// The first of `preferences`, number `from` or later, that is the same hardware
/// as `name`.
pub open spec fn rank_of(preferences: Seq<Seq<char>>, name: Seq<char>, from: int) -> Option<int>
    decreases preferences.len() - from,
{
    if from >= preferences.len() {
        None
    } else if devices::same_device(preferences[from], name) {
        Some(from)
    } else {
        rank_of(preferences, name, from + 1)
    }
}

fn find_rank(preferences: &Vec<String>, name: &str) -> (r: Option<usize>)
    ensures
        place(r) == rank_of(text::texts(preferences@), name@, 0),
        r matches Some(i) ==> i < preferences.len(),
{
    let ghost all = text::texts(preferences@);
    for i in 0..preferences.len()
        invariant
            all == text::texts(preferences@),
            rank_of(all, name@, 0) == rank_of(all, name@, i as int),
    {
        if same_device_name(preferences[i].as_str(), name) {
            return Some(i);
        }
    }
    None
}

/// The cable whose own output is the system's default microphone.
pub open spec fn default_cable(list: Option<&DeviceList>) -> Option<Seq<char>> {
    match list {
        Some(l) => match l.system_default() {
            Some(d) => d.cable_output(),
            None => None,
        },
        None => None,
    }
}

/// The entry that follows the system's default.
pub open spec fn default_item(c: ConfigView, list: Option<&DeviceList>) -> MicEntryView {
    MicEntryView {
        item: CheckItemView {
            label: default_label(default_cable(list)).0,
            enabled: default_label(default_cable(list)).1,
            checked: c.microphones.len() == 0,
        },
        device_id: Seq::empty(),
        friendly_name: Seq::empty(),
    }
}

/// The entry of one microphone; the first choice is ticked.
pub open spec fn mic_item(c: ConfigView, d: Device) -> MicEntryView {
    let rank = rank_of(c.microphones, d.friendly_name@, 0);
    let label = mic_label(d.friendly_name@, d.is_default, d.cable_output(), rank);
    MicEntryView {
        item: CheckItemView { label: label.0, enabled: label.1, checked: rank == Some(0int) },
        device_id: d.id@,
        friendly_name: d.friendly_name@,
    }
}

/// All microphone entries: the default, then the devices in order.
pub open spec fn mic_items(c: ConfigView, list: Option<&DeviceList>) -> Seq<MicEntryView> {
    seq![default_item(c, list)] + match list {
        Some(l) => Seq::new(l.capture@.len(), |i: int| mic_item(c, l.capture@[i])),
        None => Seq::empty(),
    }
}

/// All denoiser entries; the one in use is ticked.
pub open spec fn denoiser_items(c: ConfigView, model: Option<&ModelOffer>) -> Seq<
    DenoiserEntryView,
> {
    let active = c.use_onnx && model is Some;
    let built_in = DenoiserEntryView {
        item: CheckItemView { label: BUILT_IN_LABEL@, enabled: true, checked: !active },
        onnx: false,
    };
    match model {
        None => seq![built_in],
        Some(m) => seq![
            built_in,
            DenoiserEntryView {
                item: CheckItemView {
                    label: model_label(m.file_name@, m.directory),
                    enabled: true,
                    checked: active,
                },
                onnx: true,
            },
        ],
    }
}

/// The menu, given the settings, the devices (`None` when they could not be
/// listed), the model there is, and whether we start with the system.
pub open spec fn items_of(
    c: ConfigView,
    list: Option<&DeviceList>,
    model: Option<&ModelOffer>,
    auto_start: bool,
) -> ItemsView {
    ItemsView {
        enable: CheckItemView { label: ENABLE_LABEL@, enabled: true, checked: c.enabled },
        mics: mic_items(c, list),
        mics_unknown: list is None,
        denoisers: denoiser_items(c, model),
        auto_start: CheckItemView { label: AUTO_START_LABEL@, enabled: true, checked: auto_start },
    }
}

fn build_mics(cfg: &Config, list: Option<&DeviceList>) -> (mics: Vec<MicEntry>)
    ensures
        mic_views(mics@) == mic_items(cfg@, list),
{
    // Is the system default itself a cable? Then following it is a trap.
    let cable: Option<&'static str> = match list {
        Some(l) => match l.default_capture() {
            Some(d) => d.virtual_cable_output(),
            None => None,
        },
        None => None,
    };
    assert(text::said(cable) == default_cable(list));
    let (label, enabled) = default_entry(cable);
    let mut mics: Vec<MicEntry> = Vec::new();
    mics.push(
        MicEntry {
            item: CheckItem { label, enabled, checked: cfg.microphones.len() == 0 },
            device_id: String::new(),
            friendly_name: String::new(),
        },
    );
    assert(mics@[0]@ == default_item(cfg@, list));
    match list {
        Some(l) => {
            assert(mic_views(mics@) =~= mic_items(cfg@, list).take(1));
            for i in 0..l.capture.len()
                invariant
                    list == Some(l),
                    mics.len() == i + 1,
                    mic_views(mics@) == mic_items(cfg@, list).take(i + 1),
            {
                let d: &Device = &l.capture[i];
                let rank: Option<usize> = find_rank(&cfg.microphones, d.friendly_name.as_str());
                let checked: bool = match rank {
                    Some(k) => k == 0,
                    None => false,
                };
                let (label, enabled) = mic_entry(
                    d.friendly_name.as_str(),
                    d.is_default,
                    d.virtual_cable_output(),
                    rank,
                );
                let ghost before = mic_views(mics@);
                mics.push(
                    MicEntry {
                        item: CheckItem { label, enabled, checked },
                        device_id: d.id.clone(),
                        friendly_name: d.friendly_name.clone(),
                    },
                );
                proof {
                    assert(mics@[i + 1]@ == mic_item(cfg@, l.capture@[i as int]));
                    assert(mic_views(mics@) =~= before.push(mic_item(cfg@, l.capture@[i as int])));
                    assert(mic_views(mics@) =~= mic_items(cfg@, list).take(i + 2));
                }
            }
            assert(mic_views(mics@) =~= mic_items(cfg@, list));
        },
        None => {
            assert(mic_views(mics@) =~= mic_items(cfg@, list));
        },
    }
    mics
}

/// Builds the menu. Whether we start with the system is asked rather than
/// remembered: the user may have changed it elsewhere.
pub fn build_menu(
    cfg: &Config,
    list: Option<&DeviceList>,
    model: Option<&ModelOffer>,
    auto_start: bool,
) -> (r: Items)
    ensures
        r@ == items_of(cfg@, list, model, auto_start),
{
    let active: bool = cfg.use_onnx && model.is_some();
    let mut denoisers: Vec<DenoiserEntry> = Vec::new();
    denoisers.push(
        DenoiserEntry {
            item: CheckItem {
                label: BUILT_IN_LABEL.to_owned(),
                enabled: true,
                checked: !active,
            },
            onnx: false,
        },
    );
    match model {
        Some(m) => {
            denoisers.push(
                DenoiserEntry {
                    item: CheckItem {
                        label: model_entry(m.file_name.as_str(), m.directory),
                        enabled: true,
                        checked: active,
                    },
                    onnx: true,
                },
            );
        },
        None => {},
    }
    assert(denoiser_views(denoisers@) =~= denoiser_items(cfg@, model));
    Items {
        enable: CheckItem {
            label: ENABLE_LABEL.to_owned(),
            enabled: true,
            checked: cfg.enabled,
        },
        mics: build_mics(cfg, list),
        mics_unknown: list.is_none(),
        denoisers,
        auto_start: CheckItem {
            label: AUTO_START_LABEL.to_owned(),
            enabled: true,
            checked: auto_start,
        },
    }
}

/// An entry ticked or not.
pub open spec fn ticked(item: CheckItemView, checked: bool) -> CheckItemView {
    CheckItemView { checked, ..item }
}

impl ItemsView {
    /// Exactly the microphones with this id ticked.
    pub open spec fn with_mic(self, device_id: Seq<char>) -> ItemsView {
        ItemsView {
            mics: Seq::new(
                self.mics.len(),
                |i: int|
                    MicEntryView {
                        item: ticked(self.mics[i].item, self.mics[i].device_id == device_id),
                        ..self.mics[i]
                    },
            ),
            ..self
        }
    }

    /// Exactly the denoisers of this kind ticked.
    pub open spec fn with_denoiser(self, onnx: bool) -> ItemsView {
        ItemsView {
            denoisers: Seq::new(
                self.denoisers.len(),
                |i: int|
                    DenoiserEntryView {
                        item: ticked(self.denoisers[i].item, self.denoisers[i].onnx == onnx),
                        ..self.denoisers[i]
                    },
            ),
            ..self
        }
    }

    /// The microphone entry that was clicked on.
    pub open spec fn mic_at(self, id: MenuId) -> Option<MicEntryView> {
        match id {
            MenuId::Microphone(i) => if i < self.mics.len() {
                Some(self.mics[i as int])
            } else {
                None
            },
            _ => None,
        }
    }

    /// The first denoiser entry of a kind.
    pub open spec fn denoiser_from(self, onnx: bool, from: int) -> Option<DenoiserEntryView>
        decreases self.denoisers.len() - from,
    {
        if from >= self.denoisers.len() {
            None
        } else if self.denoisers[from].onnx == onnx {
            Some(self.denoisers[from])
        } else {
            self.denoiser_from(onnx, from + 1)
        }
    }

    /// The denoiser entry that was clicked on.
    pub open spec fn denoiser_at(self, id: MenuId) -> Option<DenoiserEntryView> {
        match id {
            MenuId::Denoiser { onnx } => self.denoiser_from(onnx, 0),
            _ => None,
        }
    }
}

impl Items {
    /// The microphone entry that was clicked on.
    pub fn mic_by_id(&self, id: MenuId) -> (r: Option<&MicEntry>)
        ensures
            match r {
                Some(m) => self@.mic_at(id) == Some(m@),
                None => self@.mic_at(id) is None,
            },
    {
        match id {
            MenuId::Microphone(i) => if i < self.mics.len() {
                Some(&self.mics[i])
            } else {
                None
            },
            _ => None,
        }
    }

    /// The denoiser entry that was clicked on.
    pub fn denoiser_by_id(&self, id: MenuId) -> (r: Option<&DenoiserEntry>)
        ensures
            match r {
                Some(d) => self@.denoiser_at(id) == Some(d@),
                None => self@.denoiser_at(id) is None,
            },
    {
        match id {
            MenuId::Denoiser { onnx } => {
                for i in 0..self.denoisers.len()
                    invariant
                        id == (MenuId::Denoiser { onnx }),
                        self@.denoiser_from(onnx, 0) == self@.denoiser_from(onnx, i as int),
                {
                    assert(self@.denoisers[i as int] == self.denoisers@[i as int]@);
                    if self.denoisers[i].onnx == onnx {
                        return Some(&self.denoisers[i]);
                    }
                }
                None
            },
            _ => None,
        }
    }

    /// Ticks the microphone with this id and no other: these are radio buttons
    /// wearing checkbox clothing.
    pub fn tick_mic(&mut self, device_id: &str)
        ensures
            final(self)@ == old(self)@.with_mic(device_id@),
    {
        let ghost before = self@;
        let ghost wanted = before.with_mic(device_id@);
        let n: usize = self.mics.len();
        assert(self@.mics =~= wanted.mics.take(0) + before.mics.skip(0));
        for i in 0..n
            invariant
                n == before.mics.len(),
                wanted == before.with_mic(device_id@),
                self@ == (ItemsView {
                    mics: wanted.mics.take(i as int) + before.mics.skip(i as int),
                    ..before
                }),
                self.mics.len() == before.mics.len(),
        {
            let checked: bool = same_text(self.mics[i].device_id.as_str(), device_id);
            assert(self@.mics[i as int] == before.mics[i as int]);
            let ghost now = self@.mics;
            self.mics[i].item.checked = checked;
            proof {
                assert(self@.mics =~= now.update(i as int, wanted.mics[i as int]));
                assert(self@.mics =~= wanted.mics.take(i + 1) + before.mics.skip(i + 1));
            }
        }
        assert(self@.mics =~= wanted.mics);
    }

    /// Ticks the denoiser of this kind and no other.
    pub fn tick_denoiser(&mut self, onnx: bool)
        ensures
            final(self)@ == old(self)@.with_denoiser(onnx),
    {
        let ghost before = self@;
        let ghost wanted = before.with_denoiser(onnx);
        let n: usize = self.denoisers.len();
        assert(self@.denoisers =~= wanted.denoisers.take(0) + before.denoisers.skip(0));
        for i in 0..n
            invariant
                n == before.denoisers.len(),
                wanted == before.with_denoiser(onnx),
                self@ == (ItemsView {
                    denoisers: wanted.denoisers.take(i as int) + before.denoisers.skip(i as int),
                    ..before
                }),
                self.denoisers.len() == before.denoisers.len(),
        {
            let checked: bool = self.denoisers[i].onnx == onnx;
            assert(self@.denoisers[i as int] == before.denoisers[i as int]);
            let ghost now = self@.denoisers;
            self.denoisers[i].item.checked = checked;
            proof {
                assert(self@.denoisers =~= now.update(i as int, wanted.denoisers[i as int]));
                assert(self@.denoisers =~= wanted.denoisers.take(i + 1) + before.denoisers.skip(
                    i + 1,
                ));
            }
        }
        assert(self@.denoisers =~= wanted.denoisers);
    }
}

} // verus!
