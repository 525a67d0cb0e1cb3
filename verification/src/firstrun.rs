//! First-run conversations: the things the application cannot do for the user.
//!
//! Deliberately plain-language. Someone installing a noise-cancelling program
//! has no reason to know what a virtual audio endpoint is.

use vstd::prelude::*;
use vstd::string::*;

use crate::text;

verus! {

/// Vendor page rather than a direct installer link: the licence terms and the
/// current signed build both live there.
pub const CABLE_URL: &'static str = "https://vb-audio.com/Cable/";

/// Where the model comes from, shown before anything is fetched.
pub const MODEL_SOURCE_URL: &'static str = "https://github.com/Rikorose/DeepFilterNet";

#[derive(Debug, Clone, Copy, PartialEq, Eq, Structural)]
pub enum CableChoice {
    OpenSite,
    Close,
}

/// Explains the missing cable without jargon, and offers the only two useful
/// actions.
pub const CABLE_TEXT: &'static str = "RoomMute cleans up your microphone, but it needs one more \
free program to pass the cleaned sound on to Zoom, Teams, Discord and so on.\n\n\
That program is called VB-Cable. It acts like a second microphone that other \
apps can listen to. Without it, RoomMute has nowhere to send your voice.\n\n\
It takes about two minutes to install and it's free. Windows will ask for \
administrator permission while it installs, which is normal for anything that \
adds a microphone to your system. RoomMute itself never asks for that.\n\n\
    Yes  —  open the VB-Cable download page\n\
    No   —  close RoomMute for now\n\n\
(Choosing No also stops RoomMute starting with Windows, so you won't see \
this message every time you switch on your PC.)";

/// What an answer to [`CABLE_TEXT`] means.
pub open spec fn answered(yes: bool) -> CableChoice {
    if yes {
        CableChoice::OpenSite
    } else {
        CableChoice::Close
    }
}

/// What the answer to [`CABLE_TEXT`] means. There is no cancel.
pub fn cable_missing(yes: bool) -> (r: CableChoice)
    ensures
        r == answered(yes),
{
    if yes {
        CableChoice::OpenSite
    } else {
        CableChoice::Close
    }
}

/// Before the address of the model.
pub const LICENCE_HEAD: &'static str = "The high-quality noise removal uses DeepFilterNet3, a speech model \
published by its authors at:\n\n    ";

/// After it.
pub const LICENCE_TAIL: &'static str = "\n\n\
It is a separate work from RoomMute, by Hendrik Schröter and contributors, \
and is included under its MIT / Apache-2.0 licence — see NOTICE.md next to the \
program. Nothing is downloaded.\n\n\
    Yes  —  use it (recommended)\n\
    No   —  stay on the simpler built-in noise removal\n\n\
You can change this later from the tray menu.";

/// The question asked before the high-quality model is used.
pub open spec fn licence() -> Seq<char> {
    LICENCE_HEAD@ + MODEL_SOURCE_URL@ + LICENCE_TAIL@
}

/// The question asked before the high-quality model is used, naming whose terms
/// are being accepted and where it comes from.
pub fn licence_text() -> (s: String)
    ensures
        s@ == licence(),
{
    let mut s: String = String::new();
    s.append(LICENCE_HEAD);
    s.append(MODEL_SOURCE_URL);
    s.append(LICENCE_TAIL);
    assert(s@ =~= licence());
    s
}

/// Before the address of the model.
pub const MISSING_HEAD: &'static str = "The high-quality model isn't installed yet.\n\n\
         Download the DeepFilterNet3 ONNX export from:\n\n    ";

/// Between the address and the folder.
pub const MISSING_MIDDLE: &'static str = "\n\n\
         and unpack it into this folder, so enc.onnx, erb_dec.onnx, df_dec.onnx \
         and config.ini sit inside it:\n\n    ";

/// After the folder.
pub const MISSING_TAIL: &'static str = "\n\n\
         RoomMute will use it the next time you pick it from the Denoiser menu. \
         Until then it stays on the built-in noise removal.";

/// Where to put a model that is not there.
pub open spec fn missing(expected: Seq<char>) -> Seq<char> {
    MISSING_HEAD@ + MODEL_SOURCE_URL@ + MISSING_MIDDLE@ + expected + MISSING_TAIL@
}

/// Tells where to put the model, since we cannot fetch it.
pub fn missing_text(expected: &str) -> (s: String)
    ensures
        s@ == missing(expected@),
{
    let mut s: String = String::new();
    s.append(MISSING_HEAD);
    s.append(MODEL_SOURCE_URL);
    s.append(MISSING_MIDDLE);
    s.append(expected);
    s.append(MISSING_TAIL);
    assert(s@ =~= missing(expected@));
    s
}

/// Before the microphone.
pub const WELCOME_HEAD: &'static str = "Thanks for using RoomMute.\n\n\
         Your microphone is set to\n\n    ";

/// Between the microphone and the routing.
pub const WELCOME_MIDDLE: &'static str = "\n\n\
         and you can change it any time from the RoomMute icon near the clock, at the \
         bottom right of your screen.\n\n";

/// After the routing.
pub const WELCOME_TAIL: &'static str = "\n\n\
         This is shown once. You can read it again from Help in the same menu.";

/// Before the device to select elsewhere.
pub const ROUTING_HEAD: &'static str = "To let other apps hear the cleaned sound, pick\n\n    ";

/// After it.
pub const ROUTING_TAIL: &'static str = "\n\n\
             as the microphone in Discord, Zoom, Teams, OBS or whatever you use. \
             Selecting RoomMute itself will not work — it is not a microphone.";

/// In place of the routing when there is no cable.
pub const NO_CABLE_YET: &'static str = "No virtual audio cable is installed yet, so other apps cannot hear the \
                 cleaned sound. RoomMute will offer to set that up.";

/// How other applications get at the cleaned sound.
pub open spec fn routing(cable: Option<Seq<char>>) -> Seq<char> {
    match cable {
        Some(name) => ROUTING_HEAD@ + name + ROUTING_TAIL@,
        None => NO_CABLE_YET@,
    }
}

/// The welcome.
pub open spec fn welcome(mic: Seq<char>, cable: Option<Seq<char>>) -> Seq<char> {
    WELCOME_HEAD@ + mic + WELCOME_MIDDLE@ + routing(cable) + WELCOME_TAIL@
}

/// Shown once, after the first successful start, and from Help afterwards.
///
/// It exists because a tray program that is working perfectly still looks
/// broken: the audio goes somewhere the user has not pointed anything at yet.
///
/// `cable` must be the capture half. We render *into* "CABLE Input"; naming that
/// here would send people to the endpoint that produces silence.
pub fn welcome_text(mic: &str, cable: Option<&str>) -> (s: String)
    ensures
        s@ == welcome(mic@, text::said(cable)),
{
    let mut s: String = String::new();
    s.append(WELCOME_HEAD);
    s.append(mic);
    s.append(WELCOME_MIDDLE);
    match cable {
        Some(name) => {
            s.append(ROUTING_HEAD);
            s.append(name);
            s.append(ROUTING_TAIL);
        },
        // Nothing to point anyone at.
        None => {
            s.append(NO_CABLE_YET);
        },
    }
    s.append(WELCOME_TAIL);
    assert(s@ =~= welcome(mic@, text::said(cable)));
    s
}

/// The welcome names the microphone in use and, where there is a cable, the
/// device to select elsewhere.
pub proof fn the_welcome_names_both_devices(mic: Seq<char>, cable: Option<Seq<char>>)
    ensures
        text::contains(welcome(mic, cable), mic),
        cable matches Some(name) ==> text::contains(welcome(mic, cable), name),
{
    let w = welcome(mic, cable);
    let at = WELCOME_HEAD@.len() as int;
    assert(w.subrange(at, at + mic.len()) =~= mic);
    assert(text::stands_at(w, mic, at));
    if let Some(name) = cable {
        let at = (WELCOME_HEAD@.len() + mic.len() + WELCOME_MIDDLE@.len() + ROUTING_HEAD@.len()) as int;
        assert(w.subrange(at, at + name.len()) =~= name);
        assert(text::stands_at(w, name, at));
    }
}

/// The message about a missing model gives the exact place and the source.
pub proof fn the_missing_model_message_gives_the_place(expected: Seq<char>)
    ensures
        text::contains(missing(expected), expected),
        text::contains(missing(expected), MODEL_SOURCE_URL@),
{
    let m = missing(expected);
    let at = (MISSING_HEAD@.len() + MODEL_SOURCE_URL@.len() + MISSING_MIDDLE@.len()) as int;
    assert(m.subrange(at, at + expected.len()) =~= expected);
    assert(text::stands_at(m, expected, at));
    let at = MISSING_HEAD@.len() as int;
    assert(m.subrange(at, at + MODEL_SOURCE_URL@.len()) =~= MODEL_SOURCE_URL@);
    assert(text::stands_at(m, MODEL_SOURCE_URL@, at));
}

/// The licence question names where the model comes from; without a cable the welcome
/// says that there is none, and with one it points at it and at nothing else.
pub proof fn the_texts_say_what_matters(mic: Seq<char>, cable: Seq<char>)
    ensures
        text::contains(licence(), "https://github.com/Rikorose/DeepFilterNet"@),
        text::contains(welcome(mic, None), NO_CABLE_YET@),
        text::contains(welcome(mic, Some(cable)), ROUTING_HEAD@ + cable + ROUTING_TAIL@),
        welcome(mic, Some(cable)).len() == WELCOME_HEAD@.len() + mic.len() + WELCOME_MIDDLE@.len()
            + ROUTING_HEAD@.len() + cable.len() + ROUTING_TAIL@.len() + WELCOME_TAIL@.len(),
{
    let l = licence();
    let url = "https://github.com/Rikorose/DeepFilterNet"@;
    let at = LICENCE_HEAD@.len() as int;
    assert(l.subrange(at, at + url.len()) =~= url);
    assert(text::stands_at(l, url, at));
    let w = welcome(mic, None);
    let at = (WELCOME_HEAD@.len() + mic.len() + WELCOME_MIDDLE@.len()) as int;
    assert(w.subrange(at, at + NO_CABLE_YET@.len()) =~= NO_CABLE_YET@);
    assert(text::stands_at(w, NO_CABLE_YET@, at));
    let w = welcome(mic, Some(cable));
    let r = ROUTING_HEAD@ + cable + ROUTING_TAIL@;
    assert(w.subrange(at, at + r.len()) =~= r);
    assert(text::stands_at(w, r, at));
}

} // verus!
