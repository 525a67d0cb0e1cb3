//! The command line.

use vstd::prelude::*;
use vstd::string::*;

use crate::text;
use crate::text::{chars_of, is_ascii_digit, same_text, to_lower};

verus! {

/// What was asked for on the command line. Numbers stay as they were written.
#[derive(Debug, Clone)]
pub struct CliArgs {
    pub help: bool,
    pub list_devices: bool,
    pub mic: Option<String>,
    /// `--record <SECONDS> <FILE.wav>`
    pub record: Option<(String, String)>,
    /// `--denoise <IN.wav> <OUT.wav>`
    pub denoise: Option<(String, String)>,
    /// `--model <FILE>`: overrides the settings for the offline tools.
    pub model: Option<String>,
    /// `--rnnoise`: ignore any model and use the built-in denoiser.
    pub rnnoise: bool,
    /// `--atten <DB>`: attenuation limit for models that support one.
    pub atten: Option<String>,
}

/// A [`CliArgs`] with its strings read as texts.
pub struct CliArgsView {
    pub help: bool,
    pub list_devices: bool,
    pub mic: Option<Seq<char>>,
    pub record: Option<(Seq<char>, Seq<char>)>,
    pub denoise: Option<(Seq<char>, Seq<char>)>,
    pub model: Option<Seq<char>>,
    pub rnnoise: bool,
    pub atten: Option<Seq<char>>,
}

pub open spec fn text_in(s: Option<String>) -> Option<Seq<char>> {
    match s {
        Some(t) => Some(t@),
        None => None,
    }
}

pub open spec fn texts_in(s: Option<(String, String)>) -> Option<(Seq<char>, Seq<char>)> {
    match s {
        Some((a, b)) => Some((a@, b@)),
        None => None,
    }
}

impl View for CliArgs {
    type V = CliArgsView;

    open spec fn view(&self) -> CliArgsView {
        CliArgsView {
            help: self.help,
            list_devices: self.list_devices,
            mic: text_in(self.mic),
            record: texts_in(self.record),
            denoise: texts_in(self.denoise),
            model: text_in(self.model),
            rnnoise: self.rnnoise,
            atten: text_in(self.atten),
        }
    }
}

/// An empty command line: the tray launch. Everything off.
pub open spec fn nothing_asked() -> CliArgsView {
    CliArgsView {
        help: false,
        list_devices: false,
        mic: None,
        record: None,
        denoise: None,
        model: None,
        rnnoise: false,
        atten: None,
    }
}

impl Default for CliArgs {
    fn default() -> (r: Self)
        ensures
            r@ == nothing_asked(),
    {
        CliArgs {
            help: false,
            list_devices: false,
            mic: None,
            record: None,
            denoise: None,
            model: None,
            rnnoise: false,
            atten: None,
        }
    }
}

// ---- numbers --------------------------------------------------------------

/// How many digits stand in `s` from `i` on.
pub open spec fn digits_at(s: Seq<char>, i: int) -> int
    decreases s.len() - i,
{
    if 0 <= i < s.len() && text::ascii_digit(s[i]) {
        1 + digits_at(s, i + 1)
    } else {
        0
    }
}

/// The position after an optional sign at `i`.
pub open spec fn after_sign(s: Seq<char>, i: int) -> int {
    if 0 <= i < s.len() && (s[i] == '+' || s[i] == '-') {
        i + 1
    } else {
        i
    }
}

/// From `i` on there is nothing, or an exponent and nothing more.
pub open spec fn exponent(s: Seq<char>, i: int) -> bool {
    ||| i == s.len()
    ||| 0 <= i < s.len() && s[i] == 'e' && digits_at(s, after_sign(s, i + 1)) > 0 && after_sign(
        s,
        i + 1,
    ) + digits_at(s, after_sign(s, i + 1)) == s.len()
}

/// From `i` on `s` is digits, with or without a decimal point among or beside
/// them, and an optional exponent.
pub open spec fn plain_number(s: Seq<char>, i: int) -> bool {
    let whole = digits_at(s, i);
    let point = i + whole;
    if 0 <= point < s.len() && s[point] == '.' {
        let part = digits_at(s, point + 1);
        whole + part > 0 && exponent(s, point + 1 + part)
    } else {
        whole > 0 && exponent(s, point)
    }
}

/// `s` is the text of a floating-point number: an optional sign, then `inf`,
/// `infinity`, `nan` or a plain number, in small or capital letters.
pub open spec fn number(s: Seq<char>) -> bool {
    let t = text::lower(s);
    let i = after_sign(t, 0);
    ||| t.skip(i) == seq!['i', 'n', 'f']
    ||| t.skip(i) == seq!['i', 'n', 'f', 'i', 'n', 'i', 't', 'y']
    ||| t.skip(i) == seq!['n', 'a', 'n']
    ||| plain_number(t, i)
}

fn count_digits(s: &Vec<char>, from: usize) -> (n: usize)
    requires
        from <= s.len(),
    ensures
        n == digits_at(s@, from as int),
        from + n <= s.len(),
{
    let mut i: usize = from;
    while i < s.len() && is_ascii_digit(s[i])
        invariant
            from <= i <= s.len(),
            digits_at(s@, from as int) == (i - from) + digits_at(s@, i as int),
        decreases s.len() - i,
    {
        i = i + 1;
    }
    i - from
}

fn skip_sign(s: &Vec<char>, from: usize) -> (i: usize)
    requires
        from <= s.len(),
    ensures
        i == after_sign(s@, from as int),
        from <= i <= s.len(),
{
    if from < s.len() && (s[from] == '+' || s[from] == '-') {
        from + 1
    } else {
        from
    }
}

fn is_exponent(s: &Vec<char>, from: usize) -> (r: bool)
    requires
        from <= s.len(),
    ensures
        r == exponent(s@, from as int),
{
    if from == s.len() {
        return true;
    }
    if s[from] != 'e' {
        return false;
    }
    let i: usize = skip_sign(s, from + 1);
    let n: usize = count_digits(s, i);
    n > 0 && i + n == s.len()
}

fn ends_in(s: &Vec<char>, from: usize, word: &str) -> (r: bool)
    requires
        from <= s.len(),
    ensures
        r == (s@.skip(from as int) == word@),
{
    let w: Vec<char> = chars_of(word);
    if s.len() - from != w.len() {
        return false;
    }
    for k in 0..w.len()
        invariant
            from <= s.len(),
            w@ == word@,
            s.len() - from == w.len(),
            forall|j: int| 0 <= j < k ==> s@.skip(from as int)[j] == w@[j],
    {
        if s[from + k] != w[k] {
            assert(s@.skip(from as int)[k as int] != word@[k as int]);
            return false;
        }
    }
    assert(s@.skip(from as int) =~= word@);
    true
}

/// Is `s` the text of a floating-point number?
pub fn is_number(s: &str) -> (r: bool)
    ensures
        r == number(s@),
{
    let t: Vec<char> = to_lower(s);
    let i: usize = skip_sign(&t, 0);
    proof {
        reveal_strlit("inf");
        reveal_strlit("infinity");
        reveal_strlit("nan");
        assert("inf"@ =~= seq!['i', 'n', 'f']);
        assert("infinity"@ =~= seq!['i', 'n', 'f', 'i', 'n', 'i', 't', 'y']);
        assert("nan"@ =~= seq!['n', 'a', 'n']);
    }
    if ends_in(&t, i, "inf") || ends_in(&t, i, "infinity") || ends_in(&t, i, "nan") {
        return true;
    }
    let whole: usize = count_digits(&t, i);
    let point: usize = i + whole;
    if point < t.len() && t[point] == '.' {
        let part: usize = count_digits(&t, point + 1);
        (whole > 0 || part > 0) && is_exponent(&t, point + 1 + part)
    } else {
        whole > 0 && is_exponent(&t, point)
    }
}

// ---- the arguments --------------------------------------------------------

/// The argument at `i`, if there is one.
pub open spec fn arg(args: Seq<Seq<char>>, i: int) -> Option<Seq<char>> {
    if 0 <= i < args.len() {
        Some(args[i])
    } else {
        None
    }
}

/// `s` starts with `prefix`.
pub open spec fn starts_with(s: Seq<char>, prefix: Seq<char>) -> bool {
    prefix.len() <= s.len() && s.take(prefix.len() as int) == prefix
}

/// `a` is an option rather than a value: `-h`, or anything that starts with two
/// dashes, whether or not it is one we know.
pub open spec fn is_option(a: Seq<char>) -> bool {
    a == "-h"@ || starts_with(a, "--"@)
}

/// The value at `i`, if there is one: an option is never a value.
pub open spec fn value(args: Seq<Seq<char>>, i: int) -> Option<Seq<char>> {
    match arg(args, i) {
        Some(a) => if is_option(a) {
            None
        } else {
            Some(a)
        },
        None => None,
    }
}

/// The position after a value at `i`, if there is one.
pub open spec fn past(args: Seq<Seq<char>>, i: int) -> int {
    if value(args, i) is Some {
        i + 1
    } else {
        i
    }
}

/// The two values from `i` on, if there are two.
pub open spec fn two_values(args: Seq<Seq<char>>, i: int) -> Option<(Seq<char>, Seq<char>)> {
    match (value(args, i), value(args, i + 1)) {
        (Some(a), Some(b)) => Some((a, b)),
        _ => None,
    }
}

/// The position after the values from `i` on, at most two.
pub open spec fn past_two(args: Seq<Seq<char>>, i: int) -> int {
    if value(args, i) is Some {
        past(args, i + 1)
    } else {
        i
    }
}

/// What the option at `i` asks for, on top of `asked`, and where the next one
/// stands. An option never takes the next option as its value; one that needs
/// two values and does not get them asks for nothing; an unknown one is ignored.
pub open spec fn option_at(args: Seq<Seq<char>>, i: int, asked: CliArgsView) -> (CliArgsView, int) {
    let a = args[i];
    if a == "-h"@ || a == "--help"@ {
        (CliArgsView { help: true, ..asked }, i + 1)
    } else if a == "--list-devices"@ {
        (CliArgsView { list_devices: true, ..asked }, i + 1)
    } else if a == "--mic"@ {
        (CliArgsView { mic: value(args, i + 1), ..asked }, past(args, i + 1))
    } else if starts_with(a, "--mic="@) {
        (CliArgsView { mic: Some(a.skip("--mic="@.len() as int)), ..asked }, i + 1)
    } else if a == "--model"@ {
        (CliArgsView { model: value(args, i + 1), ..asked }, past(args, i + 1))
    } else if a == "--rnnoise"@ {
        (CliArgsView { rnnoise: true, ..asked }, i + 1)
    } else if a == "--atten"@ {
        (
            CliArgsView {
                atten: match value(args, i + 1) {
                    Some(v) => if number(v) {
                        Some(v)
                    } else {
                        None
                    },
                    None => None,
                },
                ..asked
            },
            past(args, i + 1),
        )
    } else if a == "--record"@ {
        (
            match two_values(args, i + 1) {
                Some((seconds, path)) => CliArgsView {
                    record: if number(seconds) {
                        Some((seconds, path))
                    } else {
                        None
                    },
                    ..asked
                },
                None => asked,
            },
            past_two(args, i + 1),
        )
    } else if a == "--denoise"@ {
        (
            match two_values(args, i + 1) {
                Some((input, output)) => CliArgsView {
                    denoise: Some((input, output)),
                    ..asked
                },
                None => asked,
            },
            past_two(args, i + 1),
        )
    } else {
        (asked, i + 1)
    }
}

/// What the options from `i` on ask for, on top of `asked`.
pub open spec fn options_from(args: Seq<Seq<char>>, i: int, asked: CliArgsView) -> CliArgsView
    decreases args.len() - i,
{
    if 0 <= i < args.len() {
        let (next, j) = option_at(args, i, asked);
        options_from(args, j, next)
    } else {
        asked
    }
}

fn prefixed(s: &Vec<char>, prefix: &str) -> (r: Option<String>)
    ensures
        match r {
            Some(rest) => starts_with(s@, prefix@) && rest@ == s@.skip(prefix@.len() as int),
            None => !starts_with(s@, prefix@),
        },
{
    let p: Vec<char> = chars_of(prefix);
    if p.len() > s.len() {
        return None;
    }
    for k in 0..p.len()
        invariant
            p@ == prefix@,
            p.len() <= s.len(),
            forall|j: int| 0 <= j < k ==> s@[j] == p@[j],
    {
        if s[k] != p[k] {
            assert(s@.take(prefix@.len() as int)[k as int] != prefix@[k as int]);
            return None;
        }
    }
    assert(s@.take(prefix@.len() as int) =~= prefix@);
    let mut rest: String = String::new();
    text::push_range(&mut rest, s, p.len(), s.len());
    assert(rest@ =~= s@.skip(prefix@.len() as int));
    Some(rest)
}

fn is_value(args: &Vec<String>, i: usize) -> (r: bool)
    ensures
        r == (value(text::texts(args@), i as int) is Some),
        r ==> i < args.len() && value(text::texts(args@), i as int) == Some(args@[i as int]@),
{
    if i >= args.len() {
        return false;
    }
    let a: &str = args[i].as_str();
    assert(text::texts(args@)[i as int] == a@);
    !same_text(a, "-h") && prefixed(&chars_of(a), "--").is_none()
}

/// Reads a command line.
pub fn parse_args_from(args: &Vec<String>) -> (out: CliArgs)
    ensures
        out@ == options_from(text::texts(args@), 0, nothing_asked()),
{
    let ghost all = text::texts(args@);
    let mut out: CliArgs = CliArgs::default();
    let mut i: usize = 0;
    while i < args.len()
        invariant
            all == text::texts(args@),
            i <= args.len(),
            options_from(all, i as int, out@) == options_from(all, 0, nothing_asked()),
        decreases args.len() - i,
    {
        let a: &str = args[i].as_str();
        let ghost before = out@;
        let ghost at = i as int;
        assert(all[at] == a@);
        let first: bool = is_value(args, i + 1);
        let second: bool = first && is_value(args, i + 2);
        if same_text(a, "-h") || same_text(a, "--help") {
            out.help = true;
            i = i + 1;
        } else if same_text(a, "--list-devices") {
            out.list_devices = true;
            i = i + 1;
        } else if same_text(a, "--mic") {
            out.mic = if first {
                Some(args[i + 1].clone())
            } else {
                None
            };
            i = i + if first { 2 } else { 1 };
        } else if let Some(name) = prefixed(&chars_of(a), "--mic=") {
            out.mic = Some(name);
            i = i + 1;
        } else if same_text(a, "--model") {
            out.model = if first {
                Some(args[i + 1].clone())
            } else {
                None
            };
            i = i + if first { 2 } else { 1 };
        } else if same_text(a, "--rnnoise") {
            out.rnnoise = true;
            i = i + 1;
        } else if same_text(a, "--atten") {
            out.atten = if first && is_number(args[i + 1].as_str()) {
                Some(args[i + 1].clone())
            } else {
                None
            };
            i = i + if first { 2 } else { 1 };
        } else if same_text(a, "--record") {
            if second {
                out.record = if is_number(args[i + 1].as_str()) {
                    Some((args[i + 1].clone(), args[i + 2].clone()))
                } else {
                    None
                };
            }
            i = i + if second { 3 } else if first { 2 } else { 1 };
        } else if same_text(a, "--denoise") {
            if second {
                out.denoise = Some((args[i + 1].clone(), args[i + 2].clone()));
            }
            i = i + if second { 3 } else if first { 2 } else { 1 };
        } else {
            // Unknown, and ignored.
            i = i + 1;
        }
        assert(option_at(all, at, before) == (out@, i as int));
    }
    out
}

/// Which model offline denoising loads.
pub open spec fn model_for<P>(flag: Option<P>, configured: Option<P>, force_rnnoise: bool) -> Option<
    P,
> {
    if force_rnnoise {
        None
    } else if flag is Some {
        flag
    } else {
        configured
    }
}

/// Which model offline denoising should load.
///
/// Forcing the built-in denoiser wins, then the model named on the command line,
/// then whatever the tray would run: denoising a file is how people check what
/// the application does, so it has to do the same.
pub fn offline_model<P>(flag: Option<P>, configured: Option<P>, force_rnnoise: bool) -> (r: Option<
    P,
>)
    ensures
        r == model_for(flag, configured, force_rnnoise),
{
    if force_rnnoise {
        return None;
    }
    match flag {
        Some(p) => Some(p),
        None => configured,
    }
}

/// What the command line understands, and what the settings are called.
pub const HELP: &'static str = "RoomMute — real-time mic noise cancellation\n\
         \n\
         USAGE:\n\
             roommute.exe [OPTIONS]\n\
         \n\
         With no options it starts in the tray and cleans your microphone.\n\
         \n\
         OPTIONS:\n\
             --list-devices         Print all input/output devices and exit.\n\
             --mic <SUBSTRING>      Pick the input device whose friendly name contains\n\
                                    SUBSTRING (case-insensitive). Useful when your\n\
                                    default mic is a Bluetooth headset and you want\n\
                                    a USB mic instead.\n\
             --record <SECS> <WAV>  Record from the chosen mic straight to a WAV file.\n\
             --denoise <IN> <OUT>   Clean up an existing mono 48 kHz WAV file.\n\
             --model <FILE>         Use this model for --denoise.\n\
             --atten <DB>           Attenuation limit for models that support one.\n\
             -h, --help             Show this help.\n\
         \n\
         CONFIG FILE:\n\
             %APPDATA%\\RoomMute\\config.toml\n\
             \n\
             microphones     list of mic names, best first; falls down the list\n\
                             as devices come and go, Windows' default is the\n\
                             final fallback\n\
             output_device   where cleaned audio goes; empty auto-detects the\n\
                             virtual cable\n\
             enabled         master on/off\n\
             use_onnx        run the high-quality model rather than RNNoise\n\
             model_path      where that model lives\n\
             attenuation_db  how hard to suppress, 6 = subtle, 100 = maximum\n\
             \n\
             Devices are named, not numbered: ids are opaque GUIDs that change\n\
             whenever you replug the device.\n";

// ---- laws -----------------------------------------------------------------

/// Both ways to write the microphone mean the same. The one name this cannot hold
/// of is one that reads as an option itself: only `--mic=` can give it.
pub proof fn both_spellings_of_mic_agree(name: Seq<char>)
    requires
        !is_option(name),
    ensures
        options_from(seq!["--mic"@, name], 0, nothing_asked()) == options_from(
            seq!["--mic="@ + name],
            0,
            nothing_asked(),
        ),
        options_from(seq!["--mic"@, name], 0, nothing_asked()).mic == Some(name),
{
    let split = seq!["--mic"@, name];
    let joined = seq!["--mic="@ + name];
    reveal_strlit("--mic");
    reveal_strlit("--mic=");
    reveal_strlit("-h");
    reveal_strlit("--help");
    reveal_strlit("--list-devices");
    let a = joined[0];
    assert(a.take("--mic="@.len() as int) =~= "--mic="@);
    assert(a.skip("--mic="@.len() as int) =~= name);
    assert(a[5] == '=');
    assert("--list-devices"@[5] == 't');
    assert("--help"@[2] == 'h' && a[2] == 'm');
    assert("--mic"@[2] == 'm');
    assert("-h"@.len() == 2 && "--mic"@.len() == 5);
    assert(options_from(split, 2, option_at(split, 0, nothing_asked()).0) == option_at(
        split,
        0,
        nothing_asked(),
    ).0);
    assert(options_from(joined, 1, option_at(joined, 0, nothing_asked()).0) == option_at(
        joined,
        0,
        nothing_asked(),
    ).0);
}

/// No option consumes a later one as a value: reading goes on at or before the
/// next option, known or not.
pub proof fn an_option_leaves_the_next_one(args: Seq<Seq<char>>, i: int, asked: CliArgsView, k: int)
    requires
        0 <= i < k < args.len(),
        is_option(args[k]),
    ensures
        i < option_at(args, i, asked).1 <= k,
{
}

/// Options that were understood stay so, whatever follows.
proof fn lemma_switches_stay(args: Seq<Seq<char>>, i: int, asked: CliArgsView)
    ensures
        asked.help ==> options_from(args, i, asked).help,
        asked.list_devices ==> options_from(args, i, asked).list_devices,
        asked.rnnoise ==> options_from(args, i, asked).rnnoise,
    decreases args.len() - i,
{
    if 0 <= i < args.len() {
        let (next, j) = option_at(args, i, asked);
        lemma_switches_stay(args, j, next);
    }
}

proof fn lemma_reached(args: Seq<Seq<char>>, i: int, asked: CliArgsView, k: int)
    requires
        0 <= i <= k < args.len(),
        is_option(args[k]),
    ensures
        exists|after: CliArgsView|
            options_from(args, i, asked) == #[trigger] options_from(args, k, after),
    decreases k - i,
{
    if i == k {
        assert(options_from(args, i, asked) == options_from(args, k, asked));
    } else {
        an_option_leaves_the_next_one(args, i, asked, k);
        let (next, j) = option_at(args, i, asked);
        lemma_reached(args, j, next, k);
    }
}

/// No option is ever taken as the value of another: wherever a switch stands on
/// the command line, it is understood.
pub proof fn no_option_is_swallowed(args: Seq<Seq<char>>, k: int)
    requires
        0 <= k < args.len(),
    ensures
        args[k] == "-h"@ || args[k] == "--help"@ ==> options_from(args, 0, nothing_asked()).help,
        args[k] == "--list-devices"@ ==> options_from(args, 0, nothing_asked()).list_devices,
        args[k] == "--rnnoise"@ ==> options_from(args, 0, nothing_asked()).rnnoise,
{
    reveal_strlit("--");
    reveal_strlit("-h");
    reveal_strlit("--help");
    reveal_strlit("--list-devices");
    reveal_strlit("--rnnoise");
    reveal_strlit("--mic");
    reveal_strlit("--mic=");
    reveal_strlit("--model");
    assert("--help"@.take(2) =~= "--"@);
    assert("--list-devices"@.take(2) =~= "--"@);
    assert("--rnnoise"@.take(2) =~= "--"@);
    let a = args[k];
    if a == "-h"@ || a == "--help"@ || a == "--list-devices"@ || a == "--rnnoise"@ {
        lemma_reached(args, 0, nothing_asked(), k);
        let after = choose|after: CliArgsView|
            options_from(args, 0, nothing_asked()) == #[trigger] options_from(args, k, after);
        if a == "--rnnoise"@ {
            assert(a[2] == 'r' && a.len() == 9);
            assert("--mic="@[2] == 'm' && "--help"@[2] == 'h' && "--list-devices"@[2] == 'l'
                && "--mic"@[2] == 'm' && "--model"@[2] == 'm' && "-h"@.len() == 2);
            if starts_with(a, "--mic="@) {
                assert(a.take(6)[2] == 'm');
            }
        } else if a == "--list-devices"@ {
            assert("--help"@[2] == 'h' && a[2] == 'l' && "-h"@.len() == 2);
        }
        let (next, j) = option_at(args, k, after);
        lemma_switches_stay(args, j, next);
    }
}

/// A recording is only ever asked for with a length that is a number, and an
/// attenuation is one too.
pub proof fn numbers_are_numbers(args: Seq<Seq<char>>, i: int, asked: CliArgsView)
    requires
        asked.record matches Some((seconds, _path)) ==> number(seconds),
        asked.atten matches Some(v) ==> number(v),
    ensures
        options_from(args, i, asked).record matches Some((seconds, _path)) ==> number(seconds),
        options_from(args, i, asked).atten matches Some(v) ==> number(v),
    decreases args.len() - i,
{
    if 0 <= i < args.len() {
        let (next, j) = option_at(args, i, asked);
        numbers_are_numbers(args, j, next);
    }
}

/// Forcing the built-in denoiser wins over any model; a model named on the command line
/// wins over the one of the settings; and with neither, denoising a file does what the
/// tray does.
pub proof fn a_named_model_wins<P>(named: P, configured: Option<P>)
    ensures
        model_for(Some(named), configured, true) is None,
        model_for(None, configured, true) is None,
        model_for(Some(named), configured, false) == Some(named),
        model_for(None, configured, false) == configured,
{
}

/// An option is `-h`, or begins with two dashes; nothing else is one.
pub proof fn an_option_begins_with_dashes(a: Seq<char>)
    ensures
        is_option(a) == (a == seq!['-', 'h'] || a.len() >= 2 && a[0] == '-' && a[1] == '-'),
{
    reveal_strlit("-h");
    reveal_strlit("--");
    assert("-h"@ =~= seq!['-', 'h']);
    if a.len() >= 2 {
        assert(a.take(2)[0] == a[0] && a.take(2)[1] == a[1]);
        if a[0] == '-' && a[1] == '-' {
            assert(a.take(2) =~= "--"@);
        }
    }
}

/// `a` is one way to name the microphone.
pub open spec fn names_mic(a: Seq<char>) -> bool {
    a == "--mic"@ || starts_with(a, "--mic="@)
}

/// The options that take values are spelled so that none is mistaken for another.
proof fn lemma_spellings(a: Seq<char>)
    ensures
        a == "--mic"@ ==> is_option(a) && a != "-h"@ && a != "--help"@ && a != "--list-devices"@,
        starts_with(a, "--mic="@) ==> is_option(a) && a != "-h"@ && a != "--help"@ && a
            != "--list-devices"@ && a != "--mic"@,
        a == "--model"@ || a == "--atten"@ || a == "--record"@ || a == "--denoise"@ ==> is_option(a)
            && a != "-h"@ && a != "--help"@ && a != "--list-devices"@ && a != "--mic"@
            && !starts_with(a, "--mic="@) && a != "--rnnoise"@,
        a == "--atten"@ || a == "--record"@ || a == "--denoise"@ ==> a != "--model"@,
        a == "--record"@ || a == "--denoise"@ ==> a != "--atten"@,
        a == "--denoise"@ ==> a != "--record"@,
{
    reveal_strlit("-h");
    reveal_strlit("--help");
    reveal_strlit("--list-devices");
    reveal_strlit("--mic");
    reveal_strlit("--mic=");
    reveal_strlit("--model");
    reveal_strlit("--rnnoise");
    reveal_strlit("--atten");
    reveal_strlit("--record");
    reveal_strlit("--denoise");
    an_option_begins_with_dashes(a);
    assert("-h"@.len() == 2 && "--help"@.len() == 6 && "--list-devices"@.len() == 14
        && "--mic"@.len() == 5 && "--mic="@.len() == 6 && "--model"@.len() == 7
        && "--rnnoise"@.len() == 9 && "--atten"@.len() == 7 && "--record"@.len() == 8
        && "--denoise"@.len() == 9);
    assert("--help"@[2] == 'h' && "--list-devices"@[2] == 'l' && "--mic"@[2] == 'm' && "--mic="@[2]
        == 'm' && "--model"@[2] == 'm' && "--rnnoise"@[2] == 'r' && "--atten"@[2] == 'a'
        && "--record"@[2] == 'r' && "--denoise"@[2] == 'd');
    assert("--mic"@[0] == '-' && "--mic"@[1] == '-' && "--mic="@[0] == '-' && "--mic="@[1] == '-');
    assert("--model"@[0] == '-' && "--model"@[1] == '-' && "--atten"@[0] == '-' && "--atten"@[1]
        == '-' && "--record"@[0] == '-' && "--record"@[1] == '-' && "--denoise"@[0] == '-'
        && "--denoise"@[1] == '-');
    assert("--mic="@[3] == 'i' && "--model"@[3] == 'o');
    if starts_with(a, "--mic="@) {
        assert(forall|i: int| 0 <= i < 6 ==> #[trigger] a.take(6)[i] == a[i]);
        assert(a.take(6)[0] == "--mic="@[0] && a.take(6)[1] == "--mic="@[1] && a.take(6)[2]
            == "--mic="@[2] && a.take(6)[3] == "--mic="@[3]);
    }
}

proof fn lemma_kept(args: Seq<Seq<char>>, i: int, asked: CliArgsView)
    requires
        0 <= i,
    ensures
        ({
            let r = options_from(args, i, asked);
            &&& (forall|j: int| i <= j < args.len() ==> #[trigger] args[j] != "--model"@) ==> r.model
                == asked.model
            &&& (forall|j: int| i <= j < args.len() ==> #[trigger] args[j] != "--atten"@) ==> r.atten
                == asked.atten
            &&& (forall|j: int| i <= j < args.len() ==> #[trigger] args[j] != "--record"@)
                ==> r.record == asked.record
            &&& (forall|j: int| i <= j < args.len() ==> #[trigger] args[j] != "--denoise"@)
                ==> r.denoise == asked.denoise
            &&& (forall|j: int| i <= j < args.len() ==> !names_mic(#[trigger] args[j])) ==> r.mic
                == asked.mic
            &&& (forall|j: int|
                i <= j < args.len() ==> #[trigger] args[j] != "-h"@ && args[j] != "--help"@)
                ==> r.help == asked.help
            &&& (forall|j: int| i <= j < args.len() ==> #[trigger] args[j] != "--list-devices"@)
                ==> r.list_devices == asked.list_devices
            &&& (forall|j: int| i <= j < args.len() ==> #[trigger] args[j] != "--rnnoise"@)
                ==> r.rnnoise == asked.rnnoise
        }),
    decreases args.len() - i,
{
    if i < args.len() {
        let a = args[i];
        let (next, j) = option_at(args, i, asked);
        assert(j > i);
        lemma_kept(args, j, next);
        assert(a == args[i]);
    }
}

/// What is not asked for is not done: an option that does not stand on the command line
/// has no effect, whatever else does.
pub proof fn nothing_is_asked_for_unsaid(args: Seq<Seq<char>>)
    ensures
        ({
            let r = options_from(args, 0, nothing_asked());
            &&& (forall|j: int|
                0 <= j < args.len() ==> #[trigger] args[j] != "-h"@ && args[j] != "--help"@)
                ==> !r.help
            &&& (forall|j: int| 0 <= j < args.len() ==> #[trigger] args[j] != "--list-devices"@)
                ==> !r.list_devices
            &&& (forall|j: int| 0 <= j < args.len() ==> #[trigger] args[j] != "--rnnoise"@)
                ==> !r.rnnoise
            &&& (forall|j: int| 0 <= j < args.len() ==> #[trigger] args[j] != "--model"@)
                ==> r.model is None
            &&& (forall|j: int| 0 <= j < args.len() ==> #[trigger] args[j] != "--atten"@)
                ==> r.atten is None
            &&& (forall|j: int| 0 <= j < args.len() ==> #[trigger] args[j] != "--record"@)
                ==> r.record is None
            &&& (forall|j: int| 0 <= j < args.len() ==> #[trigger] args[j] != "--denoise"@)
                ==> r.denoise is None
            &&& (forall|j: int| 0 <= j < args.len() ==> !names_mic(#[trigger] args[j]))
                ==> r.mic is None
        }),
{
    lemma_kept(args, 0, nothing_asked());
}

/// There is a value at `k`: something, and not an option.
pub open spec fn has_value(args: Seq<Seq<char>>, k: int) -> bool {
    k < args.len() && !is_option(args[k])
}

/// Wherever an option with one value stands last, what follows it is its value; an
/// option, or nothing, is no value. What is no number is no attenuation.
pub proof fn an_option_takes_what_follows_it(args: Seq<Seq<char>>, k: int)
    requires
        0 <= k < args.len(),
    ensures
        ({
            let r = options_from(args, 0, nothing_asked());
            &&& args[k] == "--model"@ && (forall|j: int|
                k < j < args.len() ==> #[trigger] args[j] != "--model"@) ==> r.model
                == if has_value(args, k + 1) {
                Some(args[k + 1])
            } else {
                None
            }
            &&& args[k] == "--atten"@ && (forall|j: int|
                k < j < args.len() ==> #[trigger] args[j] != "--atten"@) ==> r.atten
                == if has_value(args, k + 1) && number(args[k + 1]) {
                Some(args[k + 1])
            } else {
                None
            }
            &&& args[k] == "--mic"@ && (forall|j: int|
                k < j < args.len() ==> !names_mic(#[trigger] args[j])) ==> r.mic == if has_value(
                args,
                k + 1,
            ) {
                Some(args[k + 1])
            } else {
                None
            }
            &&& starts_with(args[k], "--mic="@) && (forall|j: int|
                k < j < args.len() ==> !names_mic(#[trigger] args[j])) ==> r.mic == Some(
                args[k].skip(6),
            )
        }),
{
    let a = args[k];
    lemma_spellings(a);
    reveal_strlit("--mic=");
    if a == "--model"@ || a == "--atten"@ || names_mic(a) {
        lemma_reached(args, 0, nothing_asked(), k);
        let after = choose|after: CliArgsView|
            options_from(args, 0, nothing_asked()) == #[trigger] options_from(args, k, after);
        let (next, j) = option_at(args, k, after);
        assert(j > k);
        lemma_kept(args, j, next);
    }
}

/// Wherever an option with two values stands last and has both, they are what it is
/// about; a recording only with a length that is a number.
pub proof fn an_option_takes_both_that_follow_it(args: Seq<Seq<char>>, k: int)
    requires
        0 <= k < args.len(),
        has_value(args, k + 1),
        has_value(args, k + 2),
    ensures
        ({
            let r = options_from(args, 0, nothing_asked());
            &&& args[k] == "--denoise"@ && (forall|j: int|
                k < j < args.len() ==> #[trigger] args[j] != "--denoise"@) ==> r.denoise == Some(
                (args[k + 1], args[k + 2]),
            )
            &&& args[k] == "--record"@ && (forall|j: int|
                k < j < args.len() ==> #[trigger] args[j] != "--record"@) ==> r.record
                == if number(args[k + 1]) {
                Some((args[k + 1], args[k + 2]))
            } else {
                None
            }
        }),
{
    let a = args[k];
    lemma_spellings(a);
    if a == "--denoise"@ || a == "--record"@ {
        lemma_reached(args, 0, nothing_asked(), k);
        let after = choose|after: CliArgsView|
            options_from(args, 0, nothing_asked()) == #[trigger] options_from(args, k, after);
        let (next, j) = option_at(args, k, after);
        assert(j > k);
        lemma_kept(args, j, next);
    }
}

/// An option with two values that does not get both changes nothing, wherever it stands.
pub proof fn half_an_option_changes_nothing(args: Seq<Seq<char>>, k: int, asked: CliArgsView)
    requires
        0 <= k < args.len(),
        args[k] == "--denoise"@ || args[k] == "--record"@,
        !has_value(args, k + 1) || !has_value(args, k + 2),
    ensures
        option_at(args, k, asked).0 == asked,
{
    lemma_spellings(args[k]);
}

/// All of these are digits.
pub open spec fn digits(s: Seq<char>) -> bool {
    forall|i: int| 0 <= i < s.len() ==> '0' <= #[trigger] s[i] && s[i] <= '9'
}

proof fn lemma_digits_at(s: Seq<char>, i: int, n: int)
    requires
        0 <= i,
        0 <= n,
        i + n <= s.len(),
        digits(s.subrange(i, i + n)),
        i + n < s.len() ==> !('0' <= s[i + n] && s[i + n] <= '9'),
    ensures
        digits_at(s, i) == n,
    decreases n,
{
    if n > 0 {
        assert(s.subrange(i, i + n)[0] == s[i]);
        assert forall|k: int| 0 <= k < n - 1 implies '0' <= #[trigger] s.subrange(i + 1, i + n)[k]
            && s.subrange(i + 1, i + n)[k] <= '9' by {
            assert(s.subrange(i + 1, i + n)[k] == s.subrange(i, i + n)[k + 1]);
        }
        lemma_digit(s[i]);
        lemma_digits_at(s, i + 1, n - 1);
    } else if i < s.len() {
        lemma_digit(s[i]);
    }
}

proof fn lemma_digit(c: char)
    ensures
        text::ascii_digit(c) == ('0' <= c && c <= '9'),
{
}

/// No sign, or one.
pub open spec fn sign(s: Seq<char>) -> bool {
    s.len() == 0 || s.len() == 1 && (s[0] == '+' || s[0] == '-')
}

/// Nothing, or an `e` with a sign or none and at least one digit.
pub open spec fn power(s: Seq<char>, of: Seq<char>, by: Seq<char>) -> bool {
    s.len() == 0 || sign(of) && by.len() > 0 && digits(by) && s == seq!['e'] + of + by
}

proof fn lemma_power(t: Seq<char>, at: int, s: Seq<char>, of: Seq<char>, by: Seq<char>)
    requires
        0 <= at <= t.len(),
        t.skip(at) == s,
        power(s, of, by),
    ensures
        exponent(t, at),
        at < t.len() ==> t[at] == 'e',
{
    if s.len() > 0 {
        assert(t[at] == s[0] && s[0] == 'e');
        let i = at + 1 + of.len();
        if of.len() > 0 {
            assert(t[at + 1] == s[1] && s[1] == of[0]);
        } else {
            assert(t[at + 1] == s[1] && s[1] == by[0]);
        }
        assert(after_sign(t, at + 1) == i);
        assert(t.subrange(i, i + by.len()) =~= by) by {
            assert forall|k: int| 0 <= k < by.len() implies t.subrange(i, i + by.len())[k]
                == by[k] by {
                assert(t[i + k] == s[1 + of.len() + k]);
            }
        }
        lemma_digits_at(t, i, by.len() as int);
    } else {
        assert(t.len() == at);
    }
}

/// Every way to write a number is understood, in small letters or in capitals: a sign or
/// none, digits before a point, after it, or on both sides, or no point at all, and a
/// power of ten or none.
pub proof fn every_number_is_understood(
    s: Seq<char>,
    first: Seq<char>,
    whole: Seq<char>,
    point: bool,
    part: Seq<char>,
    last: Seq<char>,
    of: Seq<char>,
    by: Seq<char>,
)
    requires
        sign(first),
        digits(whole),
        digits(part),
        whole.len() + part.len() > 0,
        point || part.len() == 0,
        power(last, of, by),
        text::lower(s) == first + whole + (if point {
            seq!['.']
        } else {
            Seq::empty()
        }) + part + last,
    ensures
        number(s),
{
    let t = text::lower(s);
    let dot = if point {
        seq!['.']
    } else {
        Seq::empty()
    };
    let i = first.len() as int;
    let p = i + whole.len();
    assert(t.len() == first.len() + whole.len() + dot.len() + part.len() + last.len());
    if first.len() > 0 {
        assert(t[0] == first[0]);
    } else if whole.len() > 0 {
        assert(t[0] == whole[0]);
    } else {
        assert(t[0] == '.');
    }
    assert(after_sign(t, 0) == i);
    assert(t.subrange(i, p) =~= whole);
    if point {
        assert(t[p] == '.');
        lemma_digits_at(t, i, whole.len() as int);
        let q = p + 1 + part.len();
        assert(t.subrange(p + 1, q) =~= part);
        assert(t.skip(q) =~= last);
        lemma_power(t, q, last, of, by);
        lemma_digits_at(t, p + 1, part.len() as int);
        assert(plain_number(t, i));
    } else {
        assert(t.skip(p) =~= last);
        lemma_power(t, p, last, of, by);
        lemma_digits_at(t, i, whole.len() as int);
        assert(plain_number(t, i));
    }
}

/// The words for what is no finite number are understood too, with a sign or without.
pub proof fn the_words_for_numbers_are_understood(s: Seq<char>, first: Seq<char>)
    requires
        sign(first),
        text::lower(s) == first + "inf"@ || text::lower(s) == first + "infinity"@ || text::lower(s)
            == first + "nan"@,
    ensures
        number(s),
{
    reveal_strlit("inf");
    reveal_strlit("infinity");
    reveal_strlit("nan");
    let t = text::lower(s);
    let i = first.len() as int;
    if first.len() > 0 {
        assert(t[0] == first[0]);
    } else {
        assert(t[0] == 'i' || t[0] == 'n');
    }
    assert(after_sign(t, 0) == i);
    if t == first + "inf"@ {
        assert(t.skip(i) =~= seq!['i', 'n', 'f']);
    } else if t == first + "infinity"@ {
        assert(t.skip(i) =~= seq!['i', 'n', 'f', 'i', 'n', 'i', 't', 'y']);
    } else {
        assert(t.skip(i) =~= seq!['n', 'a', 'n']);
    }
}

proof fn lemma_digits_shape(s: Seq<char>, i: int)
    requires
        0 <= i <= s.len(),
    ensures
        0 <= digits_at(s, i),
        i + digits_at(s, i) <= s.len(),
        digits(s.subrange(i, i + digits_at(s, i))),
    decreases s.len() - i,
{
    let n = digits_at(s, i);
    if i < s.len() && text::ascii_digit(s[i]) {
        lemma_digits_shape(s, i + 1);
        lemma_digit(s[i]);
        let d = s.subrange(i, i + n);
        assert forall|k: int| 0 <= k < d.len() implies '0' <= #[trigger] d[k] && d[k] <= '9' by {
            if k > 0 {
                assert(d[k] == s.subrange(i + 1, i + n)[k - 1]);
            }
        }
    }
}

/// Nothing else is a number: what is understood as one is one of the words, or holds no
/// other character than digits, signs, a point and an `e`, and at least one digit.
pub proof fn only_numbers_are_understood(s: Seq<char>, k: int)
    requires
        number(s),
        0 <= k < s.len(),
    ensures
        ({
            let t = text::lower(s);
            let c = t[k];
            ||| exists|first: Seq<char>| #[trigger]
                sign(first) && (t == first + "inf"@ || t == first + "infinity"@ || t == first
                    + "nan"@)
            ||| ('0' <= c && c <= '9') || c == '+' || c == '-' || c == '.' || c == 'e'
        }),
{
    reveal_strlit("inf");
    reveal_strlit("infinity");
    reveal_strlit("nan");
    let t = text::lower(s);
    let i = after_sign(t, 0);
    let first = t.take(i);
    assert(sign(first));
    assert(t =~= first + t.skip(i));
    assert("inf"@ =~= seq!['i', 'n', 'f']);
    assert("infinity"@ =~= seq!['i', 'n', 'f', 'i', 'n', 'i', 't', 'y']);
    assert("nan"@ =~= seq!['n', 'a', 'n']);
    if !(t.skip(i) == seq!['i', 'n', 'f'] || t.skip(i) == seq![
        'i',
        'n',
        'f',
        'i',
        'n',
        'i',
        't',
        'y',
    ] || t.skip(i) == seq!['n', 'a', 'n']) {
        let whole = digits_at(t, i);
        let point = i + whole;
        lemma_digits_shape(t, i);
        if i <= k < point {
            assert(t.subrange(i, point)[k - i] == t[k]);
        }
        let end = if 0 <= point < t.len() && t[point] == '.' {
            let part = digits_at(t, point + 1);
            lemma_digits_shape(t, point + 1);
            if point + 1 <= k < point + 1 + part {
                assert(t.subrange(point + 1, point + 1 + part)[k - point - 1] == t[k]);
            }
            point + 1 + part
        } else {
            point
        };
        if end < t.len() {
            let j = after_sign(t, end + 1);
            let n = digits_at(t, j);
            lemma_digits_shape(t, j);
            if j <= k < j + n {
                assert(t.subrange(j, j + n)[k - j] == t[k]);
            }
        }
    }
}

} // verus!
