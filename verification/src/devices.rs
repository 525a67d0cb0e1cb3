//! The sound devices of the machine, and which of them to use.

use vstd::prelude::*;
use vstd::string::*;

use crate::error::{AudioError, AudioErrorView};
use crate::text;
use crate::text::{chars_of, drop_white_space, find, has, is_ascii_digit, push_range, same_text,
    skip_white_space, to_lower};

verus! {

#[derive(Debug, Clone, Copy, PartialEq, Eq, Structural)]
pub enum DeviceDirection {
    Capture,
    Render,
}

/// A sound endpoint as the system lists it.
#[derive(Debug, Clone)]
pub struct Device {
    /// The system's own id of the endpoint. Unique, but renewed when a device
    /// is plugged in again, so it is never remembered across runs.
    pub id: String,
    pub friendly_name: String,
    pub direction: DeviceDirection,
    pub is_default: bool,
}

// ---- virtual cables -------------------------------------------------------

/// A virtual audio cable we know how to drive.
///
/// A cable is two endpoints: a render one we push cleaned audio into, and a
/// capture one that other applications select as their microphone. Each side
/// lists the words that must *all* appear in the friendly name. Matching on one
/// word alone would let any device claim to be a cable, and this decides where
/// the microphone ends up.
struct Cable {
    product: &'static str,
    /// Render side, where we write.
    input: [&'static str; 2],
    /// Capture side, where other applications read.
    output: [&'static str; 2],
}

/// A cable with its strings read as texts.
pub struct CableView {
    pub product: Seq<char>,
    pub input: Seq<Seq<char>>,
    pub output: Seq<Seq<char>>,
}

impl View for Cable {
    type V = CableView;

    closed spec fn view(&self) -> CableView {
        CableView {
            product: self.product@,
            input: seq![self.input[0]@, self.input[1]@],
            output: seq![self.output[0]@, self.output[1]@],
        }
    }
}

/// The cables we know how to drive, the first match wins.
pub open spec fn known_cables() -> Seq<CableView> {
    seq![
        CableView {
            product: "VB-Cable"@,
            input: seq!["cable input"@, "vb-audio"@],
            output: seq!["cable output"@, "vb-audio"@],
        },
        CableView {
            product: "VoiceMeeter"@,
            input: seq!["voicemeeter"@, "input"@],
            output: seq!["voicemeeter"@, "output"@],
        },
        CableView {
            product: "Virtual Audio Cable"@,
            input: seq!["virtual audio cable"@, "line "@],
            output: seq!["virtual audio cable"@, "line "@],
        },
    ]
}

fn cables() -> (r: Vec<Cable>)
    ensures
        r.len() == known_cables().len(),
        forall|i: int| 0 <= i < r.len() ==> (#[trigger] r[i])@ == known_cables()[i],
{
    let mut r: Vec<Cable> = Vec::new();
    r.push(
        Cable {
            product: "VB-Cable",
            input: ["cable input", "vb-audio"],
            output: ["cable output", "vb-audio"],
        },
    );
    r.push(
        Cable {
            product: "VoiceMeeter",
            input: ["voicemeeter", "input"],
            output: ["voicemeeter", "output"],
        },
    );
    r.push(
        Cable {
            product: "Virtual Audio Cable",
            input: ["virtual audio cable", "line "],
            output: ["virtual audio cable", "line "],
        },
    );
    r
}

/// Every product we can route through, for error messages.
pub fn known_cable_products() -> (r: Vec<&'static str>)
    ensures
        r.len() == known_cables().len(),
        forall|i: int| 0 <= i < r.len() ==> (#[trigger] r[i])@ == known_cables()[i].product,
{
    let all: Vec<Cable> = cables();
    let mut r: Vec<&'static str> = Vec::new();
    for i in 0..all.len()
        invariant
            all.len() == known_cables().len(),
            forall|k: int| 0 <= k < all.len() ==> (#[trigger] all[k])@ == known_cables()[k],
            r.len() == i,
            forall|k: int| 0 <= k < i ==> (#[trigger] r[k])@ == known_cables()[k].product,
    {
        r.push(all[i].product);
        assert(all[i as int]@ == known_cables()[i as int]);
    }
    r
}

/// All of `words` appear in `name`, whatever the case of its ASCII letters.
pub open spec fn mentions_all(name: Seq<char>, words: Seq<Seq<char>>) -> bool {
    forall|i: int| 0 <= i < words.len() ==> text::contains(text::lower(name), #[trigger] words[i])
}

fn matches_all(name: &str, words: &[&'static str; 2]) -> (r: bool)
    ensures
        r == mentions_all(name@, seq![words[0]@, words[1]@]),
{
    let lower: Vec<char> = to_lower(name);
    let first: bool = has(&lower, words[0]);
    let second: bool = has(&lower, words[1]);
    proof {
        let w = seq![words[0]@, words[1]@];
        assert(w[0] == words[0]@ && w[1] == words[1]@);
    }
    first && second
}

/// The product of the first cable, from number `i` on, whose side is called
/// `name`: the input side when `input`, else the output side.
pub open spec fn cable_called(name: Seq<char>, input: bool, i: int) -> Option<Seq<char>>
    decreases known_cables().len() - i,
{
    if i < 0 || i >= known_cables().len() {
        None
    } else {
        let c = known_cables()[i];
        if mentions_all(
            name,
            if input {
                c.input
            } else {
                c.output
            },
        ) {
            Some(c.product)
        } else {
            cable_called(name, input, i + 1)
        }
    }
}

fn find_cable(name: &str, input: bool) -> (r: Option<&'static str>)
    ensures
        text::said(r) == cable_called(name@, input, 0),
{
    let all: Vec<Cable> = cables();
    for i in 0..all.len()
        invariant
            all.len() == known_cables().len(),
            forall|k: int| 0 <= k < all.len() ==> (#[trigger] all[k])@ == known_cables()[k],
            cable_called(name@, input, 0) == cable_called(name@, input, i as int),
    {
        let hit: bool = if input {
            matches_all(name, &all[i].input)
        } else {
            matches_all(name, &all[i].output)
        };
        assert(all[i as int]@ == known_cables()[i as int]);
        if hit {
            return Some(all[i].product);
        }
    }
    None
}

impl Device {
    /// The cable whose input side this is.
    pub open spec fn cable_input(self) -> Option<Seq<char>> {
        if self.direction == DeviceDirection::Render {
            cable_called(self.friendly_name@, true, 0)
        } else {
            None
        }
    }

    /// The cable whose output side this is.
    pub open spec fn cable_output(self) -> Option<Seq<char>> {
        if self.direction == DeviceDirection::Capture {
            cable_called(self.friendly_name@, false, 0)
        } else {
            None
        }
    }

    /// The cable whose **input** side this is: the endpoint we render cleaned
    /// audio into. VB-Audio names it "CABLE Input (VB-Audio Virtual Cable)".
    pub fn virtual_cable_input(&self) -> (r: Option<&'static str>)
        ensures
            text::said(r) == self.cable_input(),
    {
        if self.direction != DeviceDirection::Render {
            return None;
        }
        find_cable(self.friendly_name.as_str(), true)
    }

    /// The cable whose **output** side this is: the endpoint other applications
    /// pick as their microphone.
    ///
    /// Worth detecting because a freshly installed cable tends to become the
    /// default capture device. Recording from it while rendering into the same
    /// cable feeds the thing into itself.
    pub fn virtual_cable_output(&self) -> (r: Option<&'static str>)
        ensures
            text::said(r) == self.cable_output(),
    {
        if self.direction != DeviceDirection::Capture {
            return None;
        }
        find_cable(self.friendly_name.as_str(), false)
    }
}

// ---- names ----------------------------------------------------------------

/// The mark between an instance number and the rest of a name.
pub open spec fn instance_mark() -> Seq<char> {
    seq!['-', ' ']
}

/// What opens a parenthesised part of a name.
pub open spec fn opening() -> Seq<char> {
    seq!['(']
}

pub open spec fn all_digits(s: Seq<char>) -> bool {
    forall|i: int| 0 <= i < s.len() ==> text::ascii_digit(#[trigger] s[i])
}

/// `s` starts with an instance number: digits up to the first mark.
pub open spec fn numbered(s: Seq<char>) -> bool {
    match text::first_at(s, instance_mark(), 0) {
        Some(i) => i > 0 && all_digits(s.take(i)),
        None => false,
    }
}

/// A part of a name without its instance number and the white space around it.
pub open spec fn bare_part(part: Seq<char>) -> Seq<char> {
    let t = text::trim_start(part);
    if numbered(t) {
        text::trim(t.skip(text::first_at(t, instance_mark(), 0)->0 + 2))
    } else {
        text::trim(t)
    }
}

/// A name with every part bare; an opening parenthesis starts a new part.
pub open spec fn bare_name(name: Seq<char>) -> Seq<char>
    decreases name.len(),
{
    match text::first_at(name, opening(), 0) {
        Some(i) => {
            proof {
                text::lemma_first_at(name, opening(), 0);
            }
            bare_part(name.take(i)) + opening() + bare_name(name.skip(i + 1))
        },
        None => bare_part(name),
    }
}

fn copy_range(chars: &Vec<char>, from: usize, to: usize) -> (r: Vec<char>)
    requires
        from <= to <= chars.len(),
    ensures
        r@ == chars@.subrange(from as int, to as int),
{
    let mut r: Vec<char> = Vec::new();
    let mut i: usize = from;
    while i < to
        invariant
            from <= i <= to <= chars.len(),
            r@ == chars@.subrange(from as int, i as int),
        decreases to - i,
    {
        r.push(chars[i]);
        assert(chars@.subrange(from as int, i as int).push(chars@[i as int]) =~= chars@.subrange(
            from as int,
            i + 1,
        ));
        i = i + 1;
    }
    r
}

fn are_digits(chars: &Vec<char>, to: usize) -> (r: bool)
    requires
        to <= chars.len(),
    ensures
        r == all_digits(chars@.take(to as int)),
{
    for i in 0..to
        invariant
            to <= chars.len(),
            forall|k: int| 0 <= k < i ==> text::ascii_digit(#[trigger] chars@[k]),
    {
        if !is_ascii_digit(chars[i]) {
            assert(!text::ascii_digit(chars@.take(to as int)[i as int]));
            return false;
        }
    }
    true
}

fn strip_part(part: &Vec<char>, out: &mut String)
    ensures
        final(out)@ == old(out)@ + bare_part(part@),
{
    let start: usize = skip_white_space(part, 0, part.len());
    assert(part@.subrange(0, part@.len() as int) =~= part@);
    let t: Vec<char> = copy_range(part, start, part.len());
    let mut mark: Vec<char> = Vec::new();
    mark.push('-');
    mark.push(' ');
    assert(mark@ =~= instance_mark());
    proof {
        text::lemma_first_at(t@, instance_mark(), 0);
    }
    let from: usize = match find(&t, &mark, 0) {
        Some(i) => if 0 < i && are_digits(&t, i) {
            i + 2
        } else {
            0
        },
        None => 0,
    };
    let ghost kept = t@.skip(from as int);
    assert(t@.skip(0) =~= t@);
    assert(t@.subrange(from as int, t@.len() as int) =~= kept);
    let first: usize = skip_white_space(&t, from, t.len());
    let last: usize = drop_white_space(&t, first, t.len());
    push_range(out, &t, first, last);
}

/// Drops a leading "<digits>- " from each parenthesised part.
pub fn strip_instance_prefix(name: &str) -> (r: String)
    ensures
        r@ == bare_name(name@),
{
    let mut open: Vec<char> = Vec::new();
    open.push('(');
    assert(open@ =~= opening());
    let mut out: String = String::new();
    let mut rest: Vec<char> = chars_of(name);
    loop
        invariant
            open@ == opening(),
            out@ + bare_name(rest@) == bare_name(name@),
        decreases rest.len(),
    {
        proof {
            text::lemma_first_at(rest@, opening(), 0);
        }
        match find(&rest, &open, 0) {
            Some(i) => {
                let ghost before = out@;
                let part: Vec<char> = copy_range(&rest, 0, i);
                assert(part@ =~= rest@.take(i as int));
                strip_part(&part, &mut out);
                out.push('(');
                let next: Vec<char> = copy_range(&rest, i + 1, rest.len());
                assert(next@ =~= rest@.skip(i + 1));
                assert(out@ + bare_name(next@) =~= before + bare_name(rest@));
                rest = next;
            },
            None => {
                strip_part(&rest, &mut out);
                return out;
            },
        }
    }
}

/// Two names of the same hardware.
pub open spec fn same_device(a: Seq<char>, b: Seq<char>) -> bool {
    bare_name(a) == bare_name(b)
}

/// Compares device names ignoring the instance number that is put in when a
/// device is enumerated again: "Microphone (fifine Microphone)" and
/// "Microphone (4- fifine Microphone)" are the same hardware.
pub fn same_device_name(a: &str, b: &str) -> (r: bool)
    ensures
        r == same_device(a@, b@),
{
    strip_instance_prefix(a) == strip_instance_prefix(b)
}

// ---- the inventory --------------------------------------------------------

/// What is said when more than one cable could be meant.
pub const AMBIGUOUS_CABLES: &'static str =
    "several virtual cables are installed; set output_device in config.toml to the name of the one you want";

/// The sound devices of the machine, in the order the system lists them.
#[derive(Debug)]
pub struct DeviceList {
    pub capture: Vec<Device>,
    pub render: Vec<Device>,
}

impl Default for DeviceList {
    /// No devices at all.
    fn default() -> (r: Self)
        ensures
            r.capture@ == Seq::<Device>::empty(),
            r.render@ == Seq::<Device>::empty(),
    {
        DeviceList { capture: Vec::new(), render: Vec::new() }
    }
}

/// The first position, `from` or later, of a device that `p` holds of.
pub open spec fn first_where(s: Seq<Device>, p: spec_fn(Device) -> bool, from: int) -> Option<int>
    decreases s.len() - from,
{
    if from >= s.len() {
        None
    } else if p(s[from]) {
        Some(from)
    } else {
        first_where(s, p, from + 1)
    }
}

/// The first device that `p` holds of.
pub open spec fn pick(s: Seq<Device>, p: spec_fn(Device) -> bool) -> Option<Device> {
    match first_where(s, p, 0) {
        Some(i) => Some(s[i]),
        None => None,
    }
}

pub open spec fn by_default() -> spec_fn(Device) -> bool {
    |d: Device| d.is_default
}

pub open spec fn by_id(id: Seq<char>) -> spec_fn(Device) -> bool {
    |d: Device| d.id@ == id
}

pub open spec fn by_name(name: Seq<char>) -> spec_fn(Device) -> bool {
    |d: Device| d.friendly_name@ == name
}

pub open spec fn by_hardware(name: Seq<char>) -> spec_fn(Device) -> bool {
    |d: Device| same_device(d.friendly_name@, name)
}

pub open spec fn by_cable_input() -> spec_fn(Device) -> bool {
    |d: Device| d.cable_input() is Some
}

pub open spec fn by_cable_output() -> spec_fn(Device) -> bool {
    |d: Device| d.cable_output() is Some
}

/// The device called `name`: one with exactly that name if there is one, else
/// one that is the same hardware.
pub open spec fn called(s: Seq<Device>, name: Seq<char>) -> Option<Device> {
    match pick(s, by_name(name)) {
        Some(d) => Some(d),
        None => pick(s, by_hardware(name)),
    }
}

/// A device found, by value.
pub open spec fn found(r: Option<&Device>) -> Option<Device> {
    match r {
        Some(d) => Some(*d),
        None => None,
    }
}

/// A device resolved or the reason it was not, by value.
pub open spec fn resolved(r: Result<&Device, AudioError>) -> Result<Device, AudioErrorView> {
    match r {
        Ok(d) => Ok(*d),
        Err(e) => Err(e@),
    }
}

/// Devices by value.
pub open spec fn values(s: Seq<&Device>) -> Seq<Device> {
    Seq::new(s.len(), |i: int| *s[i])
}

/// One of `s` has this id.
pub open spec fn has_id(s: Seq<Device>, id: Seq<char>) -> bool {
    exists|i: int| 0 <= i < s.len() && (#[trigger] s[i]).id@ == id
}

/// `s` with `d` after it, unless one with the same id is there already.
pub open spec fn with_new(s: Seq<Device>, d: Device) -> Seq<Device> {
    if has_id(s, d.id@) {
        s
    } else {
        s.push(d)
    }
}

/// The first device of each id, in order.
pub open spec fn distinct(s: Seq<Device>) -> Seq<Device>
    decreases s.len(),
{
    if s.len() == 0 {
        s
    } else {
        with_new(distinct(s.drop_last()), s.last())
    }
}

/// A device as a sequence of one, or of none.
pub open spec fn one(d: Option<Device>) -> Seq<Device> {
    match d {
        Some(d) => seq![d],
        None => Seq::empty(),
    }
}

fn find_called<'a>(s: &'a Vec<Device>, name: &str) -> (r: Option<&'a Device>)
    ensures
        found(r) == called(s@, name@),
{
    for i in 0..s.len()
        invariant
            first_where(s@, by_name(name@), 0) == first_where(s@, by_name(name@), i as int),
    {
        if same_text(s[i].friendly_name.as_str(), name) {
            return Some(&s[i]);
        }
    }
    for i in 0..s.len()
        invariant
            first_where(s@, by_name(name@), 0) is None,
            first_where(s@, by_hardware(name@), 0) == first_where(
                s@,
                by_hardware(name@),
                i as int,
            ),
    {
        if same_device_name(s[i].friendly_name.as_str(), name) {
            return Some(&s[i]);
        }
    }
    None
}

fn keep_new<'a>(out: &mut Vec<&'a Device>, d: &'a Device)
    ensures
        values(final(out)@) == with_new(values(old(out)@), *d),
{
    let ghost before = values(out@);
    for i in 0..out.len()
        invariant
            before == values(out@),
            forall|k: int| 0 <= k < i ==> (#[trigger] before[k]).id@ != d.id@,
    {
        if same_text(out[i].id.as_str(), d.id.as_str()) {
            assert(before[i as int].id@ == d.id@);
            return;
        }
    }
    out.push(d);
    assert(values(out@) =~= before.push(*d));
}

impl DeviceList {
    /// The default microphone of the system.
    pub open spec fn system_default(self) -> Option<Device> {
        pick(self.capture@, by_default())
    }

    /// The microphone a preference stands for; an empty one is the default.
    pub open spec fn microphone(self, name: Seq<char>) -> Option<Device> {
        if name.len() == 0 {
            self.system_default()
        } else {
            called(self.capture@, name)
        }
    }

    /// The microphones that preferences stand for, as far as they are present.
    pub open spec fn preferred(self, preferences: Seq<Seq<char>>) -> Seq<Device>
        decreases preferences.len(),
    {
        if preferences.len() == 0 {
            Seq::empty()
        } else {
            self.preferred(preferences.drop_last()) + one(self.microphone(preferences.last()))
        }
    }

    /// Every microphone worth trying, best first: the preferences that are
    /// present, the default, then all the others, no id twice.
    pub open spec fn candidates(self, preferences: Seq<Seq<char>>) -> Seq<Device> {
        distinct(self.preferred(preferences) + one(self.system_default()) + self.capture@)
    }

    /// The one cable to render into, or why there is none.
    pub open spec fn cable(self) -> Result<Device, AudioErrorView> {
        match first_where(self.render@, by_cable_input(), 0) {
            None => Err(AudioErrorView::VirtualCableMissing),
            Some(i) => match first_where(self.render@, by_cable_input(), i + 1) {
                Some(_j) => Err(AudioErrorView::AmbiguousDevice(AMBIGUOUS_CABLES@)),
                None => Ok(self.render@[i]),
            },
        }
    }

    /// Where to render, or why not.
    pub open spec fn output(self, name: Seq<char>) -> Result<Device, AudioErrorView> {
        if name.len() == 0 {
            self.cable()
        } else {
            match called(self.render@, name) {
                Some(d) => Ok(d),
                None => Err(AudioErrorView::DeviceNotFound(name)),
            }
        }
    }

    /// The one virtual cable input to render into, if exactly one is present.
    pub fn find_virtual_cable_input(&self) -> (r: Result<&Device, AudioError>)
        ensures
            resolved(r) == self.cable(),
    {
        let mut first: Option<usize> = None;
        for i in 0..self.render.len()
            invariant
                match first {
                    None => first_where(self.render@, by_cable_input(), 0) == first_where(
                        self.render@,
                        by_cable_input(),
                        i as int,
                    ),
                    Some(k) => {
                        &&& k < i
                        &&& first_where(self.render@, by_cable_input(), 0) == Some(k as int)
                        &&& first_where(self.render@, by_cable_input(), k + 1) == first_where(
                            self.render@,
                            by_cable_input(),
                            i as int,
                        )
                    },
                },
        {
            if self.render[i].virtual_cable_input().is_some() {
                if first.is_some() {
                    // Don't guess which cable gets the microphone.
                    return Err(AudioError::AmbiguousDevice(AMBIGUOUS_CABLES.to_owned()));
                }
                first = Some(i);
            }
        }
        match first {
            Some(k) => Ok(&self.render[k]),
            None => Err(AudioError::VirtualCableMissing),
        }
    }

    pub fn default_capture(&self) -> (r: Option<&Device>)
        ensures
            found(r) == self.system_default(),
    {
        for i in 0..self.capture.len()
            invariant
                first_where(self.capture@, by_default(), 0) == first_where(
                    self.capture@,
                    by_default(),
                    i as int,
                ),
        {
            if self.capture[i].is_default {
                return Some(&self.capture[i]);
            }
        }
        None
    }

    pub fn capture_by_id(&self, id: &str) -> (r: Option<&Device>)
        ensures
            found(r) == pick(self.capture@, by_id(id@)),
    {
        for i in 0..self.capture.len()
            invariant
                first_where(self.capture@, by_id(id@), 0) == first_where(
                    self.capture@,
                    by_id(id@),
                    i as int,
                ),
        {
            if same_text(self.capture[i].id.as_str(), id) {
                return Some(&self.capture[i]);
            }
        }
        None
    }

    /// Resolves a remembered microphone by its name; the empty name means the
    /// system's default.
    ///
    /// Exact first, then ignoring the instance number that comes with being
    /// plugged in again: the same microphone is sitting right there. Two devices
    /// sharing a name is possible but rare; taking the first is better than
    /// refusing to start.
    pub fn resolve_capture(&self, name: &str) -> (r: Option<&Device>)
        ensures
            found(r) == self.microphone(name@),
    {
        if name.is_empty() {
            return self.default_capture();
        }
        find_called(&self.capture, name)
    }

    /// First available microphone from an ordered preference list, else the
    /// system's default, else any.
    ///
    /// Walking the list rather than insisting on one device is what makes an
    /// unplugged microphone a non-event: the next one down takes over.
    pub fn resolve_capture_ranked(&self, preferences: &[String]) -> (r: Option<&Device>)
        ensures
            match r {
                Some(d) => {
                    &&& self.candidates(text::texts(preferences@)).len() > 0
                    &&& *d == self.candidates(text::texts(preferences@))[0]
                },
                None => self.candidates(text::texts(preferences@)).len() == 0,
            },
    {
        let all: Vec<&Device> = self.capture_candidates(preferences);
        if all.len() == 0 {
            None
        } else {
            Some(all[0])
        }
    }

    /// Every microphone worth trying, best first: the preferences that exist,
    /// then the system's default, then all the others.
    ///
    /// A list rather than one choice, because being enumerated does not mean a
    /// device can be opened, and the caller needs somewhere to go next. No
    /// device is in it twice.
    pub fn capture_candidates(&self, preferences: &[String]) -> (r: Vec<&Device>)
        ensures
            values(r@) == self.candidates(text::texts(preferences@)),
    {
        let mut out: Vec<&Device> = Vec::new();
        let ghost wanted = text::texts(preferences@);
        assert(wanted.take(0) =~= Seq::empty());
        assert(values(out@) =~= distinct(self.preferred(wanted.take(0))));
        for i in 0..preferences.len()
            invariant
                wanted == text::texts(preferences@),
                values(out@) == distinct(self.preferred(wanted.take(i as int))),
        {
            assert(wanted.take(i + 1).drop_last() =~= wanted.take(i as int));
            match self.resolve_capture(preferences[i].as_str()) {
                Some(d) => {
                    keep_new(&mut out, d);
                    proof {
                        let so_far = self.preferred(wanted.take(i as int));
                        assert(self.preferred(wanted.take(i + 1)) =~= so_far.push(*d));
                        assert(so_far.push(*d).drop_last() =~= so_far);
                    }
                },
                None => {
                    assert(self.preferred(wanted.take(i + 1)) =~= self.preferred(
                        wanted.take(i as int),
                    ));
                },
            }
        }
        assert(wanted.take(wanted.len() as int) =~= wanted);
        let ghost mut likely = self.preferred(wanted);
        match self.default_capture() {
            Some(d) => {
                keep_new(&mut out, d);
                proof {
                    assert(likely.push(*d).drop_last() =~= likely);
                    assert(likely + one(self.system_default()) =~= likely.push(*d));
                }
            },
            None => {
                assert(likely + one(self.system_default()) =~= likely);
            },
        }
        proof {
            likely = likely + one(self.system_default());
            assert(likely + self.capture@.take(0) =~= likely);
        }
        // Every other microphone, as a last resort.
        for i in 0..self.capture.len()
            invariant
                values(out@) == distinct(likely + self.capture@.take(i as int)),
        {
            keep_new(&mut out, &self.capture[i]);
            proof {
                let so_far = likely + self.capture@.take(i as int);
                let d = self.capture@[i as int];
                assert(likely + self.capture@.take(i + 1) =~= so_far.push(d));
                assert(so_far.push(d).drop_last() =~= so_far);
            }
        }
        assert(self.capture@.take(self.capture@.len() as int) =~= self.capture@);
        out
    }

    /// The capture endpoint other applications must select to hear cleaned
    /// audio.
    ///
    /// The cable has two halves and they are easy to confuse: we render into
    /// "CABLE Input", so telling a user to pick that sends them to the wrong
    /// one and nothing works. This finds the real capture endpoint instead of
    /// deriving a name by swapping the word.
    pub fn virtual_cable_output_device(&self) -> (r: Option<&Device>)
        ensures
            found(r) == pick(self.capture@, by_cable_output()),
    {
        for i in 0..self.capture.len()
            invariant
                first_where(self.capture@, by_cable_output(), 0) == first_where(
                    self.capture@,
                    by_cable_output(),
                    i as int,
                ),
        {
            if self.capture[i].virtual_cable_output().is_some() {
                return Some(&self.capture[i]);
            }
        }
        None
    }

    /// Where to render: an explicitly named device, else the one virtual cable.
    pub fn resolve_render(&self, name: &str) -> (r: Result<&Device, AudioError>)
        ensures
            resolved(r) == self.output(name@),
    {
        if name.is_empty() {
            return self.find_virtual_cable_input();
        }
        match find_called(&self.render, name) {
            Some(d) => Ok(d),
            None => Err(AudioError::DeviceNotFound(name.to_owned())),
        }
    }
}

} // verus!
