//! What can go wrong with audio, and how it is told.

use vstd::prelude::*;
use vstd::string::*;

use crate::text;
use crate::text::{chars_of, drop_white_space, push_range, skip_white_space, to_hex8};

verus! {

/// A failure of the audio devices.
#[derive(Debug, Clone)]
pub enum AudioError {
    DeviceNotFound(String),
    VirtualCableMissing,
    UnsupportedFormat(String),
    AmbiguousDevice(String),
    /// The endpoint went away underneath us: unplugged, re-enumerated, or
    /// reconfigured. Its own variant because it is the one failure that is both
    /// common and recoverable: resolve the device again and reopen it.
    DeviceInvalidated { context: &'static str },
    Wasapi { context: &'static str, detail: String },
    Stalled,
    ThreadDied,
    Other(String),
}

/// An [`AudioError`] with its strings read as texts.
pub enum AudioErrorView {
    DeviceNotFound(Seq<char>),
    VirtualCableMissing,
    UnsupportedFormat(Seq<char>),
    AmbiguousDevice(Seq<char>),
    DeviceInvalidated { context: Seq<char> },
    Wasapi { context: Seq<char>, detail: Seq<char> },
    Stalled,
    ThreadDied,
    Other(Seq<char>),
}

impl View for AudioError {
    type V = AudioErrorView;

    open spec fn view(&self) -> AudioErrorView {
        match *self {
            AudioError::DeviceNotFound(name) => AudioErrorView::DeviceNotFound(name@),
            AudioError::VirtualCableMissing => AudioErrorView::VirtualCableMissing,
            AudioError::UnsupportedFormat(what) => AudioErrorView::UnsupportedFormat(what@),
            AudioError::AmbiguousDevice(what) => AudioErrorView::AmbiguousDevice(what@),
            AudioError::DeviceInvalidated { context } => AudioErrorView::DeviceInvalidated {
                context: context@,
            },
            AudioError::Wasapi { context, detail } => AudioErrorView::Wasapi {
                context: context@,
                detail: detail@,
            },
            AudioError::Stalled => AudioErrorView::Stalled,
            AudioError::ThreadDied => AudioErrorView::ThreadDied,
            AudioError::Other(what) => AudioErrorView::Other(what@),
        }
    }
}

/// The sentence an error is reported with.
pub open spec fn error_text(e: AudioErrorView) -> Seq<char> {
    match e {
        AudioErrorView::DeviceNotFound(name) => "device not found: "@ + name,
        AudioErrorView::VirtualCableMissing => "no virtual audio cable is installed"@,
        AudioErrorView::UnsupportedFormat(what) => "unsupported audio format: "@ + what,
        AudioErrorView::AmbiguousDevice(what) => "ambiguous device selection: "@ + what,
        AudioErrorView::DeviceInvalidated { context } =>
            "the audio device was disconnected or reconfigured ("@ + context + ")"@,
        AudioErrorView::Wasapi { context, detail } => context + " failed: "@ + detail,
        AudioErrorView::Stalled => "the audio device stopped delivering audio"@,
        AudioErrorView::ThreadDied => "audio thread panicked or exited unexpectedly"@,
        AudioErrorView::Other(what) => what,
    }
}

/// Plain English for the result codes users actually meet.
pub open spec fn explanation(code: u32) -> Option<Seq<char>> {
    if code == 0x8889_0001 {
        Some("the audio client was not initialised"@)
    } else if code == 0x8889_0002 {
        Some("the audio device is already in use in exclusive mode"@)
    } else if code == 0x8889_0003 {
        Some("wrong endpoint type (a capture call on a playback device, or vice versa)"@)
    } else if code == 0x8889_0006 {
        Some("the audio buffer was too large for the device"@)
    } else if code == 0x8889_0008 {
        Some("the device does not support this audio format"@)
    } else if code == 0x8889_000A {
        Some("the audio device is in use by another application in exclusive mode"@)
    } else if code == 0x8889_0010 {
        Some("the audio endpoint was unplugged"@)
    } else if code == 0x8889_0015 {
        Some("Windows Audio (the audio service) is not running"@)
    } else if code == 0x8007_0005 {
        Some("access denied — check Settings, Privacy & Security, Microphone, and that 'Let desktop apps access your microphone' is on"@)
    } else if code == 0x8007_0490 {
        Some("no such device — it may have been unplugged"@)
    } else if code == 0x8007_007E {
        Some("this microphone could not be opened — Windows could not load one of its              effect DLLs. Pick a different microphone from the tray menu; turning off              that device's audio enhancements also fixes it"@)
    } else {
        None
    }
}

/// Plain English for the result codes users actually meet, because
/// "HRESULT 0x88890004" in a dialog box helps nobody. `None` for codes we have
/// nothing better to say about than the number.
pub fn explain(code: u32) -> (r: Option<&'static str>)
    ensures
        text::said(r) == explanation(code),
{
    match code {
        0x8889_0001 => Some("the audio client was not initialised"),
        0x8889_0002 => Some("the audio device is already in use in exclusive mode"),
        0x8889_0003 => Some("wrong endpoint type (a capture call on a playback device, or vice versa)"),
        0x8889_0006 => Some("the audio buffer was too large for the device"),
        0x8889_0008 => Some("the device does not support this audio format"),
        0x8889_000A => Some("the audio device is in use by another application in exclusive mode"),
        0x8889_0010 => Some("the audio endpoint was unplugged"),
        0x8889_0015 => Some("Windows Audio (the audio service) is not running"),
        0x8007_0005 => Some("access denied — check Settings, Privacy & Security, Microphone, and that 'Let desktop apps access your microphone' is on"),
        0x8007_0490 => Some("no such device — it may have been unplugged"),
        // ERROR_MOD_NOT_FOUND. It is the endpoint's own effects chain: an audio
        // enhancement whose DLL Windows cannot load. Windows' wording for it
        // reads as a missing DLL of the application's own.
        0x8007_007E => Some("this microphone could not be opened — Windows could not load one of its              effect DLLs. Pick a different microphone from the tray menu; turning off              that device's audio enhancements also fixes it"),
        _ => None,
    }
}

/// The code with which the engine says that the device went away.
pub const DEVICE_INVALIDATED: u32 = 0x8889_0004;

/// What is said of a failed call: the explanation of its code where there is
/// one, else the system's own message where it has one, and the code itself
/// always.
pub open spec fn failure_detail(code: u32, message: Seq<char>) -> Seq<char> {
    match explanation(code) {
        Some(words) => words + " (0x"@ + text::hex8(code) + ")"@,
        None => if text::trim(message).len() == 0 {
            "HRESULT 0x"@ + text::hex8(code)
        } else {
            text::trim(message) + " (0x"@ + text::hex8(code) + ")"@
        },
    }
}

/// How a failed system call is classified.
pub open spec fn wasapi_error(context: Seq<char>, code: u32, message: Seq<char>) -> AudioErrorView {
    if code == DEVICE_INVALIDATED {
        AudioErrorView::DeviceInvalidated { context }
    } else {
        AudioErrorView::Wasapi { context, detail: failure_detail(code, message) }
    }
}

/// Worth retrying with a freshly resolved device: it went away, or fell silent.
pub open spec fn recoverable(e: AudioErrorView) -> bool {
    e is DeviceInvalidated || e is Stalled
}

impl AudioError {
    /// Is this worth retrying with a freshly resolved device?
    pub fn is_recoverable(&self) -> (r: bool)
        ensures
            r == recoverable(self@),
    {
        match self {
            AudioError::DeviceInvalidated { .. } => true,
            AudioError::Stalled => true,
            _ => false,
        }
    }

    /// The error for a system call that failed with `code`; `message` is what
    /// the system itself says about it, which may be nothing.
    pub fn wasapi(context: &'static str, code: u32, message: &str) -> (e: Self)
        ensures
            e@ == wasapi_error(context@, code, message@),
    {
        // The endpoint is gone: recoverable, so it gets its own variant.
        if code == DEVICE_INVALIDATED {
            return AudioError::DeviceInvalidated { context };
        }
        let mut detail: String = String::new();
        match explain(code) {
            Some(words) => {
                detail.append(words);
                detail.append(" (0x");
                detail.append(to_hex8(code).as_str());
                detail.append(")");
            },
            None => {
                // The message is often empty; a trailing bare colon helps nobody.
                let chars: Vec<char> = chars_of(message);
                let from: usize = skip_white_space(&chars, 0, chars.len());
                assert(chars@.subrange(0, chars@.len() as int) =~= chars@);
                let to: usize = drop_white_space(&chars, from, chars.len());
                if from == to {
                    detail.append("HRESULT 0x");
                    detail.append(to_hex8(code).as_str());
                } else {
                    push_range(&mut detail, &chars, from, to);
                    detail.append(" (0x");
                    detail.append(to_hex8(code).as_str());
                    detail.append(")");
                }
            },
        }
        assert(detail@ =~= failure_detail(code, message@));
        AudioError::Wasapi { context, detail }
    }

    /// The sentence this error is reported with.
    pub fn text(&self) -> (s: String)
        ensures
            s@ == error_text(self@),
    {
        let mut s: String = String::new();
        match self {
            AudioError::DeviceNotFound(name) => {
                s.append("device not found: ");
                s.append(name.as_str());
            },
            AudioError::VirtualCableMissing => {
                s.append("no virtual audio cable is installed");
            },
            AudioError::UnsupportedFormat(what) => {
                s.append("unsupported audio format: ");
                s.append(what.as_str());
            },
            AudioError::AmbiguousDevice(what) => {
                s.append("ambiguous device selection: ");
                s.append(what.as_str());
            },
            AudioError::DeviceInvalidated { context } => {
                s.append("the audio device was disconnected or reconfigured (");
                s.append(context);
                s.append(")");
            },
            AudioError::Wasapi { context, detail } => {
                s.append(context);
                s.append(" failed: ");
                s.append(detail.as_str());
            },
            AudioError::Stalled => {
                s.append("the audio device stopped delivering audio");
            },
            AudioError::ThreadDied => {
                s.append("audio thread panicked or exited unexpectedly");
            },
            AudioError::Other(what) => {
                s.append(what.as_str());
            },
        }
        assert(s@ =~= error_text(self@));
        s
    }
}

/// What a failed start comes down to.
#[derive(Debug, Clone)]
pub enum Cause {
    Audio(AudioError),
    Message(String),
}

/// A [`Cause`] with its strings read as texts.
pub enum CauseView {
    Audio(AudioErrorView),
    Message(Seq<char>),
}

impl View for Cause {
    type V = CauseView;

    open spec fn view(&self) -> CauseView {
        match *self {
            Cause::Audio(e) => CauseView::Audio(e@),
            Cause::Message(what) => CauseView::Message(what@),
        }
    }
}

/// Why audio could not be started: the cause, and what was being done at the
/// time, the innermost step first.
#[derive(Debug, Clone)]
pub struct StartError {
    pub cause: Cause,
    pub contexts: Vec<String>,
}

/// A [`StartError`] with its strings read as texts.
pub struct StartErrorView {
    pub cause: CauseView,
    pub contexts: Seq<Seq<char>>,
}

impl View for StartError {
    type V = StartErrorView;

    open spec fn view(&self) -> StartErrorView {
        StartErrorView { cause: self.cause@, contexts: text::texts(self.contexts@) }
    }
}

/// The words of the cause alone.
pub open spec fn cause_text(c: CauseView) -> Seq<char> {
    match c {
        CauseView::Audio(e) => error_text(e),
        CauseView::Message(what) => what,
    }
}

/// The whole story on one line, the outermost step first.
pub open spec fn full_text(cause: CauseView, contexts: Seq<Seq<char>>) -> Seq<char>
    decreases contexts.len(),
{
    if contexts.len() == 0 {
        cause_text(cause)
    } else {
        contexts.last() + ": "@ + full_text(cause, contexts.drop_last())
    }
}

/// The start failed because there is no virtual cable, whatever was being done
/// at the time.
pub open spec fn missing_cable(e: StartErrorView) -> bool {
    e.cause == CauseView::Audio(AudioErrorView::VirtualCableMissing)
}

impl StartError {
    pub fn audio(e: AudioError) -> (r: Self)
        ensures
            r@ == (StartErrorView { cause: CauseView::Audio(e@), contexts: Seq::empty() }),
    {
        let r: StartError = StartError { cause: Cause::Audio(e), contexts: Vec::new() };
        assert(r@.contexts =~= Seq::empty());
        r
    }

    pub fn message(what: &str) -> (r: Self)
        ensures
            r@ == (StartErrorView { cause: CauseView::Message(what@), contexts: Seq::empty() }),
    {
        let r: StartError = StartError {
            cause: Cause::Message(what.to_owned()),
            contexts: Vec::new(),
        };
        assert(r@.contexts =~= Seq::empty());
        r
    }

    /// Says what was being done when this happened.
    pub fn context(self, what: &str) -> (r: Self)
        ensures
            r@ == (StartErrorView { cause: self@.cause, contexts: self@.contexts.push(what@) }),
    {
        let mut r: StartError = self;
        r.contexts.push(what.to_owned());
        assert(r@.contexts =~= self@.contexts.push(what@));
        r
    }

    /// The whole story on one line, the outermost step first.
    pub fn text(&self) -> (s: String)
        ensures
            s@ == full_text(self@.cause, self@.contexts),
    {
        let mut s: String = String::new();
        let ghost all = self@.contexts;
        let mut n: usize = self.contexts.len();
        assert(all.take(n as int) =~= all);
        while 0 < n
            invariant
                n <= self.contexts.len(),
                all == self@.contexts,
                all.len() == self.contexts.len(),
                s@ + full_text(self@.cause, all.take(n as int)) == full_text(self@.cause, all),
            decreases n,
        {
            let ghost before = s@;
            s.append(self.contexts[n - 1].as_str());
            s.append(": ");
            proof {
                let part = all.take(n as int);
                assert(part.drop_last() =~= all.take(n - 1));
                assert(s@ + full_text(self@.cause, all.take(n - 1)) =~= before + full_text(
                    self@.cause,
                    part,
                ));
            }
            n = n - 1;
        }
        let words: String = match &self.cause {
            Cause::Audio(e) => e.text(),
            Cause::Message(what) => what.clone(),
        };
        s.append(words.as_str());
        s
    }
}

/// Does this come down to "no virtual cable installed"?
pub fn is_missing_cable(e: &StartError) -> (r: bool)
    ensures
        r == missing_cable(e@),
{
    match &e.cause {
        Cause::Audio(AudioError::VirtualCableMissing) => true,
        _ => false,
    }
}

/// However much is said about what was being done, a missing cable stays
/// recognisable, and nothing else turns into one.
pub proof fn missing_cable_survives_context(e: StartErrorView, what: Seq<char>)
    ensures
        missing_cable(StartErrorView { cause: e.cause, contexts: e.contexts.push(what) })
            == missing_cable(e),
{
}

/// Only a device that went away or fell silent is worth retrying, and of the
/// failed system calls only the one that says so.
pub proof fn only_invalidation_is_retried(context: Seq<char>, code: u32, message: Seq<char>)
    ensures
        (wasapi_error(context, code, message) is DeviceInvalidated) == (code == DEVICE_INVALIDATED),
        !(wasapi_error(context, code, message) is Stalled),
        recoverable(wasapi_error(context, code, message)) == (code == 0x8889_0004),
        recoverable(AudioErrorView::Stalled),
        !recoverable(AudioErrorView::ThreadDied),
        !recoverable(AudioErrorView::VirtualCableMissing),
        !recoverable(AudioErrorView::DeviceNotFound(message)),
        !recoverable(AudioErrorView::UnsupportedFormat(message)),
        !recoverable(AudioErrorView::AmbiguousDevice(message)),
        !recoverable(AudioErrorView::Other(message)),
{
}

/// A failed call never reads as a bare colon: some detail always follows.
pub proof fn a_failure_always_says_something(context: Seq<char>, code: u32, message: Seq<char>)
    ensures
        wasapi_error(context, code, message) matches AudioErrorView::Wasapi { detail, .. }
            ==> detail.len() > 0 && text::contains(detail, text::hex8(code)),
{
    let w = wasapi_error(context, code, message);
    if let AudioErrorView::Wasapi { detail, .. } = w {
        reveal_strlit(" (0x");
        reveal_strlit(")");
        reveal_strlit("HRESULT 0x");
        let hex = text::hex8(code);
        let at: int = match explanation(code) {
            Some(words) => (words.len() + 4) as int,
            None => if text::trim(message).len() == 0 {
                10
            } else {
                (text::trim(message).len() + 4) as int
            },
        };
        assert(detail.subrange(at, at + hex.len()) =~= hex);
        assert(text::stands_at(detail, hex, at));
    }
}

/// The whole story names the outermost step first and ends with the cause; what was
/// being done last when an error passed by is what is said first.
pub proof fn the_story_is_told_from_the_outside(
    cause: CauseView,
    contexts: Seq<Seq<char>>,
    what: Seq<char>,
)
    ensures
        full_text(cause, contexts.push(what)) == what + ": "@ + full_text(cause, contexts),
        full_text(cause, Seq::empty()) == (match cause {
            CauseView::Audio(e) => error_text(e),
            CauseView::Message(words) => words,
        }),
{
    assert(contexts.push(what).drop_last() =~= contexts);
}

/// Every step and the cause stand in the story.
pub proof fn the_story_leaves_nothing_out(cause: CauseView, contexts: Seq<Seq<char>>, k: int)
    ensures
        text::contains(full_text(cause, contexts), cause_text(cause)),
        0 <= k < contexts.len() ==> text::contains(full_text(cause, contexts), contexts[k]),
    decreases contexts.len(),
{
    let all = full_text(cause, contexts);
    if contexts.len() == 0 {
        let words = cause_text(cause);
        assert(all.subrange(0, words.len() as int) =~= words);
        assert(text::stands_at(all, words, 0));
    } else {
        let rest = full_text(cause, contexts.drop_last());
        let from = (contexts.last().len() + ": "@.len()) as int;
        the_story_leaves_nothing_out(cause, contexts.drop_last(), k);
        assert(all.skip(from) =~= rest);
        lemma_still_there(all, rest, cause_text(cause), from);
        if 0 <= k < contexts.len() - 1 {
            assert(contexts.drop_last()[k] == contexts[k]);
            lemma_still_there(all, rest, contexts[k], from);
        } else if k == contexts.len() - 1 {
            assert(all.subrange(0, contexts[k].len() as int) =~= contexts[k]);
            assert(text::stands_at(all, contexts[k], 0));
        }
    }
}

proof fn lemma_still_there(all: Seq<char>, rest: Seq<char>, piece: Seq<char>, from: int)
    requires
        0 <= from,
        from + rest.len() == all.len(),
        all.skip(from) == rest,
        text::contains(rest, piece),
    ensures
        text::contains(all, piece),
{
    let at = choose|at: int| text::stands_at(rest, piece, at);
    assert(all.subrange(from + at, from + at + piece.len()) =~= rest.subrange(
        at,
        at + piece.len(),
    ));
    assert(text::stands_at(all, piece, from + at));
}

/// Each failure is reported with its own sentence and what it is about.
pub proof fn each_failure_says_what_it_is(what: Seq<char>, detail: Seq<char>)
    ensures
        error_text(AudioErrorView::DeviceNotFound(what)) == "device not found: "@ + what,
        error_text(AudioErrorView::VirtualCableMissing) == "no virtual audio cable is installed"@,
        error_text(AudioErrorView::UnsupportedFormat(what)) == "unsupported audio format: "@ + what,
        error_text(AudioErrorView::AmbiguousDevice(what)) == "ambiguous device selection: "@ + what,
        error_text(AudioErrorView::DeviceInvalidated { context: what })
            == "the audio device was disconnected or reconfigured ("@ + what + ")"@,
        error_text(AudioErrorView::Wasapi { context: what, detail }) == what + " failed: "@ + detail,
        error_text(AudioErrorView::Stalled) == "the audio device stopped delivering audio"@,
        error_text(AudioErrorView::ThreadDied) == "audio thread panicked or exited unexpectedly"@,
        error_text(AudioErrorView::Other(what)) == what,
{
}

/// A start failed for want of a cable exactly when that is its cause, whatever was being
/// done.
pub proof fn only_a_missing_cable_is_one(e: StartErrorView)
    ensures
        missing_cable(e) == (e.cause matches CauseView::Audio(a) && a is VirtualCableMissing),
{
}

/// Of the failed calls, the one code that says that the device went away is an error of
/// its own; every other keeps what was being done, and tells, in this order, our own
/// words for the code, else what the system says of it, else the code alone; and always
/// the code.
pub proof fn a_code_is_told_in_words(context: Seq<char>, code: u32, message: Seq<char>)
    ensures
        code == 0x8889_0004 ==> wasapi_error(context, code, message)
            == (AudioErrorView::DeviceInvalidated { context }),
        code != 0x8889_0004 ==> wasapi_error(context, code, message) == (AudioErrorView::Wasapi {
            context,
            detail: match explanation(code) {
                Some(words) => words + " (0x"@ + text::hex8(code) + ")"@,
                None => if text::trim(message).len() > 0 {
                    text::trim(message) + " (0x"@ + text::hex8(code) + ")"@
                } else {
                    "HRESULT 0x"@ + text::hex8(code)
                },
            },
        }),
        (explanation(code) is Some) == (code == 0x8889_0001 || code == 0x8889_0002 || code
            == 0x8889_0003 || code == 0x8889_0006 || code == 0x8889_0008 || code == 0x8889_000A
            || code == 0x8889_0010 || code == 0x8889_0015 || code == 0x8007_0005 || code
            == 0x8007_0490 || code == 0x8007_007E),
{
}

/// A microphone that may not be used is told from one that is busy and from one that is
/// gone, and each with what to do or what happened.
pub proof fn the_common_codes_are_explained()
    ensures
        explanation(0x8889_0001) == Some("the audio client was not initialised"@),
        explanation(0x8889_0002) == Some("the audio device is already in use in exclusive mode"@),
        explanation(0x8889_0003) == Some(
            "wrong endpoint type (a capture call on a playback device, or vice versa)"@,
        ),
        explanation(0x8889_0006) == Some("the audio buffer was too large for the device"@),
        explanation(0x8889_0008) == Some("the device does not support this audio format"@),
        explanation(0x8889_000A) == Some(
            "the audio device is in use by another application in exclusive mode"@,
        ),
        explanation(0x8889_0010) == Some("the audio endpoint was unplugged"@),
        explanation(0x8889_0015) == Some("Windows Audio (the audio service) is not running"@),
        explanation(0x8007_0490) == Some("no such device — it may have been unplugged"@),
        explanation(0x8007_0005) == Some(
            "access denied — check Settings, Privacy & Security, Microphone, and that 'Let desktop apps access your microphone' is on"@,
        ),
        explanation(0x8007_007E) == Some(
            "this microphone could not be opened — Windows could not load one of its              effect DLLs. Pick a different microphone from the tray menu; turning off              that device's audio enhancements also fixes it"@,
        ),
{
}

} // verus!
