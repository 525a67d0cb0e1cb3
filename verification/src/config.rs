//! The settings, and what follows from them.

use vstd::prelude::*;
use vstd::string::*;

use crate::text;
use crate::text::same_text;

verus! {

/// The settings of the user.
#[derive(Debug, Clone)]
pub struct Config {
    /// The single microphone that earlier versions remembered, by name. Folded
    /// into `microphones` when settings are read.
    pub input_device: String,
    /// Microphones in order of preference, by name, best first.
    ///
    /// A list rather than one choice because devices come and go: unplug the
    /// USB microphone mid-call and the next one down takes over instead of the
    /// application stopping to ask.
    pub microphones: Vec<String>,
    /// Where cleaned audio goes, by name. Empty = find the virtual cable.
    pub output_device: String,
    /// Master switch. When false, audio passes through untouched.
    pub enabled: bool,
    /// Attenuation limit in dB, 6 = subtle, 100 = maximum, as the bit pattern
    /// of a single-precision number.
    pub attenuation_bits: u32,
    /// Where the model lives. Empty = look beside the executable.
    pub model_path: String,
    /// Run the model rather than the built-in denoiser.
    pub use_onnx: bool,
    /// Whether the welcome has been shown.
    pub welcomed: bool,
}

/// The settings with their strings read as texts.
pub struct ConfigView {
    pub input_device: Seq<char>,
    pub microphones: Seq<Seq<char>>,
    pub output_device: Seq<char>,
    pub enabled: bool,
    pub attenuation_bits: u32,
    pub model_path: Seq<char>,
    pub use_onnx: bool,
    pub welcomed: bool,
}

impl View for Config {
    type V = ConfigView;

    open spec fn view(&self) -> ConfigView {
        ConfigView {
            input_device: self.input_device@,
            microphones: text::texts(self.microphones@),
            output_device: self.output_device@,
            enabled: self.enabled,
            attenuation_bits: self.attenuation_bits,
            model_path: self.model_path@,
            use_onnx: self.use_onnx,
            welcomed: self.welcomed,
        }
    }
}

/// 100.0 as the bit pattern of a single-precision number.
pub const DEFAULT_ATTENUATION_BITS: u32 = 0x42c8_0000;

/// The settings of a first run.
pub open spec fn defaults() -> ConfigView {
    ConfigView {
        input_device: Seq::empty(),
        microphones: Seq::empty(),
        output_device: Seq::empty(),
        enabled: true,
        attenuation_bits: DEFAULT_ATTENUATION_BITS,
        model_path: Seq::empty(),
        use_onnx: true,
        welcomed: false,
    }
}

impl Default for Config {
    fn default() -> (r: Self)
        ensures
            r@ == defaults(),
    {
        let r: Config = Config {
            input_device: String::new(),
            microphones: Vec::new(),
            output_device: String::new(),
            enabled: true,
            attenuation_bits: DEFAULT_ATTENUATION_BITS,
            model_path: String::new(),
            use_onnx: true,
            welcomed: false,
        };
        assert(r@.microphones =~= Seq::empty());
        r
    }
}

/// How many microphones are remembered.
pub const MAX_REMEMBERED: usize = 5;

/// `list` without the entries equal to `name`.
pub open spec fn without(list: Seq<Seq<char>>, name: Seq<char>) -> Seq<Seq<char>>
    decreases list.len(),
{
    if list.len() == 0 {
        list
    } else if list.last() == name {
        without(list.drop_last(), name)
    } else {
        without(list.drop_last(), name).push(list.last())
    }
}

/// The first entries of `list`, as many as are remembered.
pub open spec fn capped(list: Seq<Seq<char>>) -> Seq<Seq<char>> {
    if list.len() > MAX_REMEMBERED {
        list.take(MAX_REMEMBERED as int)
    } else {
        list
    }
}

/// `list` with `name` moved, or put, to the front.
pub open spec fn promoted(list: Seq<Seq<char>>, name: Seq<char>) -> Seq<Seq<char>> {
    capped(seq![name] + without(list, name))
}

/// Settings as they are used, from settings as they were stored: a single
/// remembered microphone becomes the list, unless there is a list already.
pub open spec fn folded(c: ConfigView) -> ConfigView {
    if c.microphones.len() == 0 && c.input_device.len() != 0 {
        ConfigView { input_device: Seq::empty(), microphones: seq![c.input_device], ..c }
    } else {
        c
    }
}

/// The settings as a file holds them. Files predate every setting added since,
/// so any of them may be missing.
#[derive(Debug, Clone)]
pub struct StoredConfig {
    pub input_device: Option<String>,
    pub microphones: Option<Vec<String>>,
    pub output_device: Option<String>,
    pub enabled: Option<bool>,
    pub attenuation_bits: Option<u32>,
    pub model_path: Option<String>,
    pub use_onnx: Option<bool>,
    pub welcomed: Option<bool>,
}

/// A stored text; a missing one is empty.
pub open spec fn text_or_empty(s: Option<String>) -> Seq<char> {
    match s {
        Some(t) => t@,
        None => Seq::empty(),
    }
}

/// A stored value, or the one to use where it is missing.
pub open spec fn value_or<T>(v: Option<T>, missing: T) -> T {
    match v {
        Some(x) => x,
        None => missing,
    }
}

impl StoredConfig {
    /// What is stored, with the settings of a first run for what is missing.
    pub open spec fn filled(self) -> ConfigView {
        ConfigView {
            input_device: text_or_empty(self.input_device),
            microphones: match self.microphones {
                Some(list) => text::texts(list@),
                None => Seq::empty(),
            },
            output_device: text_or_empty(self.output_device),
            enabled: value_or(self.enabled, true),
            attenuation_bits: value_or(self.attenuation_bits, DEFAULT_ATTENUATION_BITS),
            model_path: text_or_empty(self.model_path),
            use_onnx: value_or(self.use_onnx, true),
            welcomed: value_or(self.welcomed, false),
        }
    }

    /// Nothing is missing.
    pub open spec fn complete(self) -> bool {
        &&& self.input_device is Some
        &&& self.microphones is Some
        &&& self.output_device is Some
        &&& self.enabled is Some
        &&& self.attenuation_bits is Some
        &&& self.model_path is Some
        &&& self.use_onnx is Some
        &&& self.welcomed is Some
    }
}

/// What reading the settings comes to: no file is the defaults, a file that
/// cannot be read is an error.
pub open spec fn loaded<E>(file: Option<Result<StoredConfig, E>>) -> Result<ConfigView, E> {
    match file {
        None => Ok(defaults()),
        Some(Ok(stored)) => Ok(folded(stored.filled())),
        Some(Err(e)) => Err(e),
    }
}

/// The settings to use, whatever became of reading them.
pub open spec fn usable<E>(file: Option<Result<StoredConfig, E>>) -> ConfigView {
    match loaded(file) {
        Ok(c) => c,
        Err(_e) => defaults(),
    }
}

/// The folder beside the executable that the installer lays a model down in.
pub const MODEL_FOLDER: &'static str = "model";

/// The file that makes that folder a model: a graph inside the folder rather than
/// the folder alone, so that an unrelated folder of that name is not mistaken for
/// one.
pub const MODEL_GRAPH: &'static str = "model/enc.onnx";

/// The same model in one archive.
pub const MODEL_ARCHIVE: &'static str = "dfn3_ours.tar.gz";

/// The single file of earlier installs.
pub const MODEL_LEGACY: &'static str = "model.onnx";

/// Which of the places where a model may be do hold one.
#[derive(Debug, Clone, Copy)]
pub struct ModelFiles {
    /// The configured path exists.
    pub configured: bool,
    /// [`MODEL_GRAPH`] is beside the executable.
    pub loose: bool,
    /// [`MODEL_ARCHIVE`] is beside the executable.
    pub archive: bool,
    /// [`MODEL_LEGACY`] is beside the executable.
    pub legacy: bool,
}

/// What there is, by what exists beside the executable: paths from there, with
/// slashes.
pub open spec fn files_among(configured: bool, beside: Seq<Seq<char>>) -> ModelFiles {
    ModelFiles {
        configured,
        loose: beside.contains(MODEL_GRAPH@),
        archive: beside.contains(MODEL_ARCHIVE@),
        legacy: beside.contains(MODEL_LEGACY@),
    }
}

fn is_among(names: &Vec<String>, name: &str) -> (r: bool)
    ensures
        r == text::texts(names@).contains(name@),
{
    let ghost all = text::texts(names@);
    for i in 0..names.len()
        invariant
            all == text::texts(names@),
            forall|j: int| 0 <= j < i ==> all[j] != name@,
    {
        if same_text(names[i].as_str(), name) {
            assert(all[i as int] == name@);
            return true;
        }
        assert(all[i as int] == names@[i as int]@);
    }
    false
}

impl ModelFiles {
    /// What there is: `configured` says whether the configured path exists, and
    /// `beside` lists what exists beside the executable.
    pub fn found(configured: bool, beside: &Vec<String>) -> (r: Self)
        ensures
            r == files_among(configured, text::texts(beside@)),
    {
        ModelFiles {
            configured,
            loose: is_among(beside, MODEL_GRAPH),
            archive: is_among(beside, MODEL_ARCHIVE),
            legacy: is_among(beside, MODEL_LEGACY),
        }
    }
}

/// A folder that holds no graph is not a model: with none of the three files there
/// is nothing to use, whatever else lies beside the executable.
pub proof fn a_folder_alone_is_not_a_model(c: ConfigView, beside: Seq<Seq<char>>)
    requires
        !beside.contains(MODEL_GRAPH@),
    ensures
        model_of(c, files_among(false, beside)) != Some(ModelChoice::Loose),
        !beside.contains(MODEL_ARCHIVE@) && !beside.contains(MODEL_LEGACY@) ==> model_of(
            c,
            files_among(false, beside),
        ) is None,
{
}

/// Where the model to use is.
#[derive(Debug, Clone, Copy, PartialEq, Eq, Structural)]
pub enum ModelChoice {
    /// At the configured path.
    Configured,
    /// In the folder beside the executable.
    Loose,
    /// In the archive beside the executable.
    Archive,
    /// In the single file that earlier installs have beside the executable.
    Legacy,
}

impl ModelChoice {
    /// What stands beside the executable for this choice.
    pub open spec fn beside(self) -> Option<Seq<char>> {
        match self {
            ModelChoice::Configured => None,
            ModelChoice::Loose => Some(MODEL_FOLDER@),
            ModelChoice::Archive => Some(MODEL_ARCHIVE@),
            ModelChoice::Legacy => Some(MODEL_LEGACY@),
        }
    }

    /// The file or folder beside the executable that this choice means; `None`
    /// for the configured path.
    pub fn file_name(self) -> (r: Option<&'static str>)
        ensures
            text::said(r) == self.beside(),
    {
        match self {
            ModelChoice::Configured => None,
            ModelChoice::Loose => Some(MODEL_FOLDER),
            ModelChoice::Archive => Some(MODEL_ARCHIVE),
            ModelChoice::Legacy => Some(MODEL_LEGACY),
        }
    }
}

/// The model that is there to be used: the configured one, else the first one
/// beside the executable.
pub open spec fn model_of(c: ConfigView, files: ModelFiles) -> Option<ModelChoice> {
    if c.model_path.len() != 0 && files.configured {
        Some(ModelChoice::Configured)
    } else if files.loose {
        Some(ModelChoice::Loose)
    } else if files.archive {
        Some(ModelChoice::Archive)
    } else if files.legacy {
        Some(ModelChoice::Legacy)
    } else {
        None
    }
}

/// The model to load.
pub open spec fn active_model_of(c: ConfigView, files: ModelFiles) -> Option<ModelChoice> {
    if c.use_onnx {
        model_of(c, files)
    } else {
        None
    }
}

fn string_or_empty(s: Option<String>) -> (r: String)
    ensures
        r@ == text_or_empty(s),
{
    match s {
        Some(t) => t,
        None => String::new(),
    }
}

impl Config {
    /// Settings as they are used, whatever became of reading them: a file that
    /// cannot be read must not stop the application, which is how one would
    /// mend it.
    pub fn load_or_default<E>(file: Option<Result<StoredConfig, E>>) -> (r: Self)
        ensures
            r@ == usable(file),
    {
        match Self::load(file) {
            Ok(c) => c,
            Err(_e) => Config::default(),
        }
    }

    /// Settings as they are used, from what the file holds; `None` when there
    /// is no file, as on a first run.
    pub fn load<E>(file: Option<Result<StoredConfig, E>>) -> (r: Result<Self, E>)
        ensures
            match r {
                Ok(c) => loaded(file) == Ok::<ConfigView, E>(c@),
                Err(e) => loaded(file) == Err::<ConfigView, E>(e),
            },
    {
        match file {
            None => Ok(Config::default()),
            Some(Ok(stored)) => Ok(Config::parse(stored)),
            Some(Err(e)) => Err(e),
        }
    }

    /// Settings as they are used, from settings as they were stored.
    pub fn parse(stored: StoredConfig) -> (r: Self)
        ensures
            r@ == folded(stored.filled()),
    {
        let cfg: Config = Config {
            input_device: string_or_empty(stored.input_device),
            microphones: match stored.microphones {
                Some(list) => list,
                None => Vec::new(),
            },
            output_device: string_or_empty(stored.output_device),
            enabled: match stored.enabled {
                Some(b) => b,
                None => true,
            },
            attenuation_bits: match stored.attenuation_bits {
                Some(bits) => bits,
                None => DEFAULT_ATTENUATION_BITS,
            },
            model_path: string_or_empty(stored.model_path),
            use_onnx: match stored.use_onnx {
                Some(b) => b,
                None => true,
            },
            welcomed: match stored.welcomed {
                Some(b) => b,
                None => false,
            },
        };
        assert(cfg@.microphones =~= stored.filled().microphones);
        cfg.fold_legacy()
    }

    /// The settings to store: all of them.
    pub fn store(&self) -> (r: StoredConfig)
        ensures
            r.complete(),
            r.filled() == self@,
    {
        let mut microphones: Vec<String> = Vec::new();
        let ghost all = text::texts(self.microphones@);
        for i in 0..self.microphones.len()
            invariant
                all == text::texts(self.microphones@),
                microphones.len() == i,
                text::texts(microphones@) == all.take(i as int),
        {
            let ghost before = text::texts(microphones@);
            microphones.push(self.microphones[i].clone());
            assert(text::texts(microphones@) =~= before.push(all[i as int]));
            assert(text::texts(microphones@) =~= all.take(i + 1));
        }
        assert(text::texts(microphones@) =~= all);
        StoredConfig {
            input_device: Some(self.input_device.clone()),
            microphones: Some(microphones),
            output_device: Some(self.output_device.clone()),
            enabled: Some(self.enabled),
            attenuation_bits: Some(self.attenuation_bits),
            model_path: Some(self.model_path.clone()),
            use_onnx: Some(self.use_onnx),
            welcomed: Some(self.welcomed),
        }
    }

    /// Folds a single remembered microphone into the list. Moved, not copied,
    /// and a list already present wins.
    pub fn fold_legacy(self) -> (r: Self)
        ensures
            r@ == folded(self@),
    {
        if self.microphones.len() == 0 && !self.input_device.as_str().is_empty() {
            let mut microphones: Vec<String> = Vec::new();
            microphones.push(self.input_device);
            let r: Config = Config {
                input_device: String::new(),
                microphones,
                output_device: self.output_device,
                enabled: self.enabled,
                attenuation_bits: self.attenuation_bits,
                model_path: self.model_path,
                use_onnx: self.use_onnx,
                welcomed: self.welcomed,
            };
            assert(r@.microphones =~= seq![self@.input_device]);
            r
        } else {
            self
        }
    }

    /// Moves `name` to the front, keeping the rest in order and capping the
    /// list so that it does not grow forever with devices seen once.
    pub fn prefer_microphone(&mut self, name: &str)
        ensures
            final(self)@ == (ConfigView {
                microphones: promoted(old(self)@.microphones, name@),
                ..old(self)@
            }),
    {
        let ghost before = text::texts(self.microphones@);
        let mut list: Vec<String> = Vec::new();
        list.push(name.to_owned());
        assert(text::texts(list@) =~= seq![name@] + without(before.take(0), name@));
        for i in 0..self.microphones.len()
            invariant
                before == text::texts(self.microphones@),
                text::texts(list@) == seq![name@] + without(before.take(i as int), name@),
        {
            assert(before.take(i + 1).drop_last() =~= before.take(i as int));
            if !same_text(self.microphones[i].as_str(), name) {
                let ghost so_far = text::texts(list@);
                list.push(self.microphones[i].clone());
                assert(text::texts(list@) =~= so_far.push(before[i as int]));
                assert(so_far.push(before[i as int]) =~= seq![name@] + without(
                    before.take(i + 1),
                    name@,
                ));
            }
        }
        assert(before.take(before.len() as int) =~= before);
        let ghost whole = text::texts(list@);
        list.truncate(MAX_REMEMBERED);
        assert(text::texts(list@) =~= capped(whole));
        self.microphones = list;
    }

    /// The model that is there to be used, given which files exist.
    ///
    /// A configured path that no longer exists falls through rather than giving
    /// up: it may predate an upgrade or a moved install, and dropping to the
    /// built-in denoiser would lose the one thing the application is for while
    /// a usable model sits beside it.
    pub fn available_model(&self, files: &ModelFiles) -> (r: Option<ModelChoice>)
        ensures
            r == model_of(self@, *files),
    {
        if !self.model_path.as_str().is_empty() && files.configured {
            return Some(ModelChoice::Configured);
        }
        if files.loose {
            return Some(ModelChoice::Loose);
        }
        if files.archive {
            return Some(ModelChoice::Archive);
        }
        if files.legacy {
            return Some(ModelChoice::Legacy);
        }
        None
    }

    /// The model to actually load, honouring the switch.
    pub fn active_model(&self, files: &ModelFiles) -> (r: Option<ModelChoice>)
        ensures
            r == active_model_of(self@, *files),
    {
        if self.use_onnx {
            self.available_model(files)
        } else {
            None
        }
    }
}

// ---- where things are kept ------------------------------------------------

/// One step of a path.
#[derive(Debug, Clone, Copy)]
pub enum PathPart {
    /// The configuration folder of the user.
    ConfigDir,
    Named(&'static str),
}

/// A [`PathPart`] with its string read as a text.
pub enum PathPartView {
    ConfigDir,
    Named(Seq<char>),
}

impl View for PathPart {
    type V = PathPartView;

    open spec fn view(&self) -> PathPartView {
        match *self {
            PathPart::ConfigDir => PathPartView::ConfigDir,
            PathPart::Named(n) => PathPartView::Named(n@),
        }
    }
}

/// A path with its strings read as texts.
pub open spec fn steps(path: Seq<PathPart>) -> Seq<PathPartView> {
    Seq::new(path.len(), |i: int| path[i]@)
}

/// The folder everything is kept in: below the configuration folder of the
/// user where the system names one, else below the current folder.
pub open spec fn base(has_config_dir: bool) -> Seq<PathPartView> {
    seq![
        if has_config_dir {
            PathPartView::ConfigDir
        } else {
            PathPartView::Named("."@)
        },
        PathPartView::Named("RoomMute"@),
    ]
}

fn base_dir(has_config_dir: bool) -> (r: Vec<PathPart>)
    ensures
        steps(r@) == base(has_config_dir),
{
    let mut r: Vec<PathPart> = Vec::new();
    r.push(
        if has_config_dir {
            PathPart::ConfigDir
        } else {
            PathPart::Named(".")
        },
    );
    r.push(PathPart::Named("RoomMute"));
    assert(steps(r@) =~= base(has_config_dir));
    r
}

/// Where the settings are kept.
pub fn config_path(has_config_dir: bool) -> (r: Vec<PathPart>)
    ensures
        steps(r@) == base(has_config_dir).push(PathPartView::Named("config.toml"@)),
{
    let mut r: Vec<PathPart> = base_dir(has_config_dir);
    r.push(PathPart::Named("config.toml"));
    assert(steps(r@) =~= base(has_config_dir).push(PathPartView::Named("config.toml"@)));
    r
}

/// The folder the logs are kept in, beside the settings.
pub fn log_dir(has_config_dir: bool) -> (r: Vec<PathPart>)
    ensures
        steps(r@) == base(has_config_dir).push(PathPartView::Named("logs"@)),
{
    let mut r: Vec<PathPart> = base_dir(has_config_dir);
    r.push(PathPart::Named("logs"));
    assert(steps(r@) =~= base(has_config_dir).push(PathPartView::Named("logs"@)));
    r
}

// ---- laws -----------------------------------------------------------------

proof fn lemma_without(list: Seq<Seq<char>>, name: Seq<char>)
    ensures
        without(list, name).len() <= list.len(),
        forall|i: int|
            0 <= i < without(list, name).len() ==> (#[trigger] without(list, name)[i]) != name
                && list.contains(without(list, name)[i]),
        !list.contains(name) ==> without(list, name) == list,
    decreases list.len(),
{
    if list.len() > 0 {
        let rest = list.drop_last();
        lemma_without(rest, name);
        let w = without(list, name);
        let v = without(rest, name);
        assert forall|i: int| 0 <= i < w.len() implies (#[trigger] w[i]) != name && list.contains(
            w[i],
        ) by {
            if i < v.len() {
                assert(w[i] == v[i]);
                assert(rest.contains(v[i]));
                let k = choose|k: int| 0 <= k < rest.len() && rest[k] == v[i];
                assert(list[k] == w[i]);
            } else {
                assert(list[list.len() - 1] == w[i]);
            }
        }
        if !list.contains(name) {
            assert(list[list.len() - 1] != name);
            assert(!rest.contains(name)) by {
                if rest.contains(name) {
                    let k = choose|k: int| 0 <= k < rest.len() && rest[k] == name;
                    assert(list[k] == name);
                }
            }
            assert(rest.push(list.last()) =~= list);
        }
    }
}

proof fn lemma_without_keeps_distinct(list: Seq<Seq<char>>, name: Seq<char>)
    requires
        list.no_duplicates(),
    ensures
        without(list, name).no_duplicates(),
    decreases list.len(),
{
    if list.len() > 0 {
        let rest = list.drop_last();
        lemma_without_keeps_distinct(rest, name);
        lemma_without(rest, name);
        let v = without(rest, name);
        if list.last() != name {
            assert forall|i: int| 0 <= i < v.len() implies (#[trigger] v[i]) != list.last() by {
                assert(rest.contains(v[i]));
                let k = choose|k: int| 0 <= k < rest.len() && rest[k] == v[i];
                assert(list[k] == v[i] && list[list.len() - 1] == list.last());
            }
        }
    }
}

/// The microphone chosen last leads, choosing it again changes nothing, the
/// list never holds more than it should remember, and no name stands in it
/// twice that did not before.
pub proof fn the_chosen_microphone_leads(list: Seq<Seq<char>>, name: Seq<char>)
    ensures
        promoted(list, name).len() > 0,
        promoted(list, name)[0] == name,
        promoted(list, name).len() <= MAX_REMEMBERED,
        promoted(promoted(list, name), name) == promoted(list, name),
        list.no_duplicates() ==> promoted(list, name).no_duplicates(),
{
    lemma_without(list, name);
    let p = promoted(list, name);
    let tail = p.skip(1);
    assert(p =~= seq![name] + tail);
    assert(!tail.contains(name)) by {
        if tail.contains(name) {
            let k = choose|k: int| 0 <= k < tail.len() && tail[k] == name;
            assert(tail[k] == without(list, name)[k]);
        }
    }
    lemma_front(name, tail);
    lemma_without(tail, name);
    assert(seq![name] + without(p, name) =~= p);
    if list.no_duplicates() {
        lemma_without_keeps_distinct(list, name);
        let whole = seq![name] + without(list, name);
        assert forall|i: int, j: int|
            0 <= i < whole.len() && 0 <= j < whole.len() && i != j implies whole[i] != whole[j] by {
            if i == 0 {
                assert(whole[j] == without(list, name)[j - 1]);
            } else if j == 0 {
                assert(whole[i] == without(list, name)[i - 1]);
            } else {
                assert(whole[i] == without(list, name)[i - 1]);
                assert(whole[j] == without(list, name)[j - 1]);
            }
        }
    }
}

proof fn lemma_front(name: Seq<char>, tail: Seq<Seq<char>>)
    ensures
        without(seq![name] + tail, name) == without(tail, name),
    decreases tail.len(),
{
    let s = seq![name] + tail;
    if tail.len() == 0 {
        assert(s.drop_last() =~= tail);
    } else {
        assert(s.drop_last() =~= seq![name] + tail.drop_last());
        lemma_front(name, tail.drop_last());
    }
}

/// The others keep their order, whether the chosen microphone is new or comes
/// from further down; what no longer fits is forgotten from the end.
pub proof fn the_rest_shift_down(list: Seq<Seq<char>>, name: Seq<char>)
    requires
        list.no_duplicates(),
    ensures
        !list.contains(name) ==> promoted(list, name) == capped(seq![name] + list),
        forall|i: int|
            0 <= i < list.len() && #[trigger] list[i] == name ==> promoted(list, name) == capped(
                seq![name] + list.take(i) + list.skip(i + 1),
            ),
{
    lemma_without(list, name);
    assert forall|i: int|
        0 <= i < list.len() && #[trigger] list[i] == name implies promoted(list, name) == capped(
        seq![name] + list.take(i) + list.skip(i + 1),
    ) by {
        lemma_removed(list, name, i);
        assert(seq![name] + (list.take(i) + list.skip(i + 1)) =~= seq![name] + list.take(i)
            + list.skip(i + 1));
    }
}

proof fn lemma_removed(list: Seq<Seq<char>>, name: Seq<char>, i: int)
    requires
        list.no_duplicates(),
        0 <= i < list.len(),
        list[i] == name,
    ensures
        without(list, name) == list.take(i) + list.skip(i + 1),
    decreases list.len(),
{
    let rest = list.drop_last();
    if i == list.len() - 1 {
        assert(!rest.contains(name)) by {
            if rest.contains(name) {
                let k = choose|k: int| 0 <= k < rest.len() && rest[k] == name;
                assert(list[k] == list[i]);
            }
        }
        lemma_without(rest, name);
        assert(rest =~= list.take(i) + list.skip(i + 1));
    } else {
        assert(rest[i] == name);
        lemma_removed(rest, name, i);
        assert(list.last() != name);
        assert((rest.take(i) + rest.skip(i + 1)).push(list.last()) =~= list.take(i) + list.skip(
            i + 1,
        ));
    }
}

proof fn lemma_filtered(list: Seq<Seq<char>>, name: Seq<char>)
    ensures
        without(list, name) == list.filter(|x: Seq<char>| x != name),
    decreases list.len(),
{
    reveal(Seq::filter);
    if list.len() > 0 {
        lemma_filtered(list.drop_last(), name);
    }
}

/// Whatever the list held, the chosen microphone comes first, once, then the others
/// in the order they had; of all these, the first five are remembered.
pub proof fn five_are_remembered(list: Seq<Seq<char>>, name: Seq<char>)
    ensures
        ({
            let others = list.filter(|x: Seq<char>| x != name);
            let kept = promoted(list, name);
            &&& kept.len() == (if others.len() < 4 {
                others.len() + 1
            } else {
                5
            })
            &&& kept[0] == name
            &&& forall|i: int| 1 <= i < kept.len() ==> #[trigger] kept[i] == others[i - 1]
        }),
{
    lemma_filtered(list, name);
}

/// A microphone left over from earlier versions becomes the only preference, and is
/// moved rather than copied; nothing else changes, and nothing at all where there is a
/// list or nothing left over.
pub proof fn a_single_microphone_becomes_the_list(c: ConfigView)
    ensures
        c.microphones.len() == 0 && c.input_device.len() > 0 ==> {
            &&& folded(c).microphones.len() == 1
            &&& folded(c).microphones[0] == c.input_device
            &&& folded(c).input_device.len() == 0
        },
        c.microphones.len() > 0 || c.input_device.len() == 0 ==> folded(c) == c,
        folded(c).output_device == c.output_device,
        folded(c).enabled == c.enabled,
        folded(c).attenuation_bits == c.attenuation_bits,
        folded(c).model_path == c.model_path,
        folded(c).use_onnx == c.use_onnx,
        folded(c).welcomed == c.welcomed,
{
}

/// What the file holds is what is used, each setting under its own name.
pub proof fn stored_settings_are_used(stored: StoredConfig)
    ensures
        stored.input_device matches Some(s) ==> stored.filled().input_device == s@,
        stored.microphones matches Some(list) ==> stored.filled().microphones.len() == list@.len()
            && forall|i: int|
            0 <= i < list@.len() ==> #[trigger] stored.filled().microphones[i] == list@[i]@,
        stored.output_device matches Some(s) ==> stored.filled().output_device == s@,
        stored.enabled matches Some(b) ==> stored.filled().enabled == b,
        stored.attenuation_bits matches Some(bits) ==> stored.filled().attenuation_bits == bits,
        stored.model_path matches Some(s) ==> stored.filled().model_path == s@,
        stored.use_onnx matches Some(b) ==> stored.filled().use_onnx == b,
        stored.welcomed matches Some(b) ==> stored.filled().welcomed == b,
{
}

/// A first run cleans with the model, at full strength, from the default microphone
/// into the cable, and welcomes the user.
pub proof fn a_first_run_is_ready_to_use()
    ensures
        defaults().enabled,
        defaults().use_onnx,
        !defaults().welcomed,
        defaults().attenuation_bits == 0x42c8_0000,
        defaults().microphones.len() == 0,
        defaults().input_device.len() == 0,
        defaults().output_device.len() == 0,
        defaults().model_path.len() == 0,
{
}

/// No file is a first run; a file that cannot be read is an error, the very one; and a
/// file that can be read is used, with what is missing filled in and folded.
pub proof fn a_file_is_read_as_it_is<E>(stored: StoredConfig, e: E)
    ensures
        loaded::<E>(None) == Ok::<ConfigView, E>(defaults()),
        loaded(Some(Err(e))) == Err::<ConfigView, E>(e),
        loaded::<E>(Some(Ok(stored))) == Ok::<ConfigView, E>(folded(stored.filled())),
        usable::<E>(None) == defaults(),
        usable(Some(Err(e))) == defaults(),
        usable::<E>(Some(Ok(stored))) == folded(stored.filled()),
{
}

/// Settings that were read once read the same again: folding has nothing left
/// to do, and it never touches a list that is there.
pub proof fn folding_happens_once(c: ConfigView)
    ensures
        folded(folded(c)) == folded(c),
        c.microphones.len() > 0 ==> folded(c) == c,
        folded(c).input_device.len() == 0 || folded(c).microphones.len() > 0,
{
}

/// What is stored comes back: settings that were stored are read as they were,
/// but for a microphone left over from earlier versions, which is folded.
pub proof fn settings_survive_being_stored(c: ConfigView, stored: StoredConfig)
    requires
        stored.filled() == c,
    ensures
        loaded::<()>(Some(Ok(stored))) == Ok::<ConfigView, ()>(folded(c)),
        c.input_device.len() == 0 || c.microphones.len() > 0 ==> loaded::<()>(Some(Ok(stored)))
            == Ok::<ConfigView, ()>(c),
{
}

/// A setting that the file does not hold has the value of a first run.
pub proof fn missing_settings_fall_back(stored: StoredConfig)
    ensures
        stored.enabled is None ==> stored.filled().enabled == defaults().enabled,
        stored.use_onnx is None ==> stored.filled().use_onnx == defaults().use_onnx,
        stored.welcomed is None ==> stored.filled().welcomed == defaults().welcomed,
        stored.attenuation_bits is None ==> stored.filled().attenuation_bits
            == defaults().attenuation_bits,
        stored.microphones is None ==> stored.filled().microphones == defaults().microphones,
        stored.input_device is None ==> stored.filled().input_device == defaults().input_device,
        stored.output_device is None ==> stored.filled().output_device
            == defaults().output_device,
        stored.model_path is None ==> stored.filled().model_path == defaults().model_path,
{
}

/// With no model anywhere nothing is offered, with the switch off nothing is
/// loaded, and whatever is loaded is there.
pub proof fn a_model_is_only_used_where_there_is_one(c: ConfigView, files: ModelFiles)
    ensures
        active_model_of(c, files) is Some ==> active_model_of(c, files) == model_of(c, files),
        !c.use_onnx ==> active_model_of(c, files) is None,
        match model_of(c, files) {
            Some(ModelChoice::Configured) => files.configured && c.model_path.len() > 0,
            Some(ModelChoice::Loose) => files.loose,
            Some(ModelChoice::Archive) => files.archive && !files.loose,
            Some(ModelChoice::Legacy) => files.legacy && !files.archive && !files.loose,
            None => !files.loose && !files.archive && !files.legacy,
        },
{
}

/// A configured model that exists is the one used, whatever lies beside the
/// executable. Otherwise the folder of the installer comes before the archive, and the
/// archive before the single file of earlier installs; and there is none only where
/// there is none of these.
pub proof fn the_configured_model_comes_first(c: ConfigView, files: ModelFiles)
    ensures
        c.model_path.len() > 0 && files.configured ==> model_of(c, files) == Some(
            ModelChoice::Configured,
        ),
        c.model_path.len() == 0 || !files.configured ==> {
            &&& files.loose ==> model_of(c, files) == Some(ModelChoice::Loose)
            &&& !files.loose && files.archive ==> model_of(c, files) == Some(ModelChoice::Archive)
            &&& !files.loose && !files.archive && files.legacy ==> model_of(c, files) == Some(
                ModelChoice::Legacy,
            )
            &&& !files.loose && !files.archive && !files.legacy ==> model_of(c, files) is None
        },
{
}

/// With the switch on, the model that is there is the one loaded; with it off, none.
pub proof fn the_switch_decides(c: ConfigView, files: ModelFiles)
    ensures
        c.use_onnx ==> active_model_of(c, files) == model_of(c, files),
        !c.use_onnx ==> active_model_of(c, files) is None,
{
}

/// A file beside the executable counts exactly when it is there, under its own name;
/// the folder counts by the graph inside it.
pub proof fn files_count_by_their_names(configured: bool, beside: Seq<Seq<char>>)
    ensures
        files_among(configured, beside).configured == configured,
        files_among(configured, beside).loose == (exists|i: int|
            0 <= i < beside.len() && #[trigger] beside[i] == "model/enc.onnx"@),
        files_among(configured, beside).archive == (exists|i: int|
            0 <= i < beside.len() && #[trigger] beside[i] == "dfn3_ours.tar.gz"@),
        files_among(configured, beside).legacy == (exists|i: int|
            0 <= i < beside.len() && #[trigger] beside[i] == "model.onnx"@),
{
}

/// Each choice is loaded from its own place.
pub proof fn a_choice_says_where_it_is()
    ensures
        ModelChoice::Configured.beside() is None,
        ModelChoice::Loose.beside() == Some("model"@),
        ModelChoice::Archive.beside() == Some("dfn3_ours.tar.gz"@),
        ModelChoice::Legacy.beside() == Some("model.onnx"@),
{
}

/// Everything is kept in a folder of the application's own, below the configuration
/// folder of the user where there is one, else below the current folder.
pub proof fn everything_is_kept_in_one_folder(has_config_dir: bool)
    ensures
        base(has_config_dir).len() == 2,
        base(has_config_dir)[1] == PathPartView::Named("RoomMute"@),
        base(true)[0] == PathPartView::ConfigDir,
        base(false)[0] == PathPartView::Named("."@),
{
}

/// The logs are kept beside the settings.
pub proof fn logs_sit_beside_the_settings(has_config_dir: bool)
    ensures
        base(has_config_dir).push(PathPartView::Named("config.toml"@)).drop_last() == base(
            has_config_dir,
        ).push(PathPartView::Named("logs"@)).drop_last(),
{
    assert(base(has_config_dir).push(PathPartView::Named("config.toml"@)).drop_last() =~= base(
        has_config_dir,
    ));
    assert(base(has_config_dir).push(PathPartView::Named("logs"@)).drop_last() =~= base(
        has_config_dir,
    ));
}

} // verus!
