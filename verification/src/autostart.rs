//! Start-at-login, as an entry of the user's `Run` key.
//!
//! The user's own key rather than the machine-wide one: it needs no elevation,
//! the user can inspect it, and uninstalling is deleting one value. There is no
//! setting of ours to drift from it: the key is the state.

use vstd::prelude::*;
use vstd::string::*;

use crate::text;
use crate::text::{chars_of, to_decimal};

verus! {

/// The status of a registry call that worked.
pub const SUCCESS: u32 = 0;

/// The command to run at login. Quoted, because a path with spaces in it would
/// otherwise be parsed as several arguments.
pub open spec fn command(exe: Seq<char>) -> Seq<char> {
    seq!['"'] + exe + seq!['"']
}

pub fn command_string(exe: &str) -> (s: String)
    ensures
        s@ == command(exe@),
{
    let mut s: String = String::new();
    s.push('"');
    s.append(exe);
    s.push('"');
    assert(s@ =~= command(exe@));
    s
}

/// A character in UTF-16: one unit, or a surrogate pair.
pub open spec fn units(c: char) -> Seq<u16> {
    let n = c as u32;
    if n < 0x1_0000 {
        seq![n as u16]
    } else {
        seq![(0xd800 + (n - 0x1_0000) / 0x400) as u16, (0xdc00 + (n - 0x1_0000) % 0x400) as u16]
    }
}

/// A text in UTF-16.
pub open spec fn utf16(s: Seq<char>) -> Seq<u16>
    decreases s.len(),
{
    if s.len() == 0 {
        Seq::empty()
    } else {
        units(s[0]) + utf16(s.skip(1))
    }
}

/// 16-bit units as bytes, the low one first.
pub open spec fn little_endian(u: Seq<u16>) -> Seq<u8> {
    Seq::new(
        2 * u.len(),
        |i: int|
            if i % 2 == 0 {
                (u[i / 2] % 256) as u8
            } else {
                (u[i / 2] / 256) as u8
            },
    )
}

/// A registry string: UTF-16 with a terminating NUL, as bytes.
pub open spec fn registry_string(s: Seq<char>) -> Seq<u8> {
    little_endian(utf16(s).push(0))
}

fn push_unit(bytes: &mut Vec<u8>, unit: u16)
    ensures
        forall|u: Seq<u16>|
            old(bytes)@ == #[trigger] little_endian(u) ==> final(bytes)@ == little_endian(
                u.push(unit),
            ),
{
    let ghost before = bytes@;
    bytes.push((unit % 256) as u8);
    bytes.push((unit / 256) as u8);
    assert forall|u: Seq<u16>| before == #[trigger] little_endian(u) implies bytes@
        == little_endian(u.push(unit)) by {
        let v = u.push(unit);
        assert forall|i: int| 0 <= i < bytes@.len() implies bytes@[i] == little_endian(v)[i] by {
            if i < before.len() {
                assert(little_endian(u)[i] == little_endian(v)[i]);
            }
        }
        assert(bytes@ =~= little_endian(v));
    }
}

/// The bytes of a registry string.
pub fn registry_bytes(s: &str) -> (bytes: Vec<u8>)
    ensures
        bytes@ == registry_string(s@),
{
    let chars: Vec<char> = chars_of(s);
    let mut bytes: Vec<u8> = Vec::new();
    let ghost mut done: Seq<u16> = Seq::empty();
    assert(bytes@ =~= little_endian(done));
    assert(s@.skip(0) =~= s@);
    assert(done + utf16(s@) =~= utf16(s@));
    for i in 0..chars.len()
        invariant
            chars@ == s@,
            bytes@ == little_endian(done),
            done + utf16(s@.skip(i as int)) == utf16(s@),
    {
        let n: u32 = chars[i] as u32;
        let ghost before = done;
        assert(s@.skip(i as int).skip(1) =~= s@.skip(i + 1));
        assert(s@.skip(i as int)[0] == chars@[i as int]);
        if n < 0x1_0000 {
            push_unit(&mut bytes, n as u16);
            proof {
                done = done.push(n as u16);
            }
        } else {
            let high: u16 = (0xd800 + (n - 0x1_0000) / 0x400) as u16;
            let low: u16 = (0xdc00 + (n - 0x1_0000) % 0x400) as u16;
            push_unit(&mut bytes, high);
            push_unit(&mut bytes, low);
            proof {
                done = done.push(high).push(low);
            }
        }
        assert(done =~= before + units(chars@[i as int]));
        assert(done + utf16(s@.skip(i + 1)) =~= before + utf16(s@.skip(i as int)));
    }
    assert(s@.skip(s@.len() as int) =~= Seq::empty());
    assert(done =~= utf16(s@));
    push_unit(&mut bytes, 0);
    bytes
}

/// What is to be done to the entry of the `Run` key.
#[derive(Debug, Clone)]
pub enum RunKeyChange {
    /// Set it to these bytes.
    Write(Vec<u8>),
    /// Delete it.
    Remove,
}

/// What has to be done to the key to switch start-at-login on or off.
pub open spec fn switches(change: RunKeyChange, enabled: bool, exe: Seq<char>) -> bool {
    match change {
        RunKeyChange::Write(bytes) => enabled && bytes@ == registry_string(command(exe)),
        RunKeyChange::Remove => !enabled,
    }
}

/// Registers or unregisters start-at-login: what has to be done to the key.
pub fn set(enabled: bool, exe: &str) -> (r: RunKeyChange)
    ensures
        switches(r, enabled, exe@),
{
    if enabled {
        let value: String = command_string(exe);
        RunKeyChange::Write(registry_bytes(value.as_str()))
    } else {
        RunKeyChange::Remove
    }
}

/// The key says that start-at-login is on: there is a value, whatever it holds.
pub open spec fn enabled_by(opened: bool, status: u32) -> bool {
    opened && status == SUCCESS
}

/// Is there an entry? `opened` says whether the key could be opened, `status`
/// what asking for the value came back with.
///
/// Only whether the value exists matters, not what it holds: a stale path from
/// a moved program still means that the user asked for this, and writing it
/// again renews it.
pub fn is_enabled(opened: bool, status: u32) -> (r: bool)
    ensures
        r == enabled_by(opened, status),
{
    opened && status == SUCCESS
}

/// The key could be changed. Deleting something that was never there is a
/// success as far as anyone is concerned.
pub open spec fn changed(enabled: bool, status: u32, still_there: bool) -> bool {
    status == SUCCESS || (!enabled && !still_there)
}

/// What is said when the key could not be changed.
pub open spec fn write_failure(status: u32) -> Seq<char> {
    "writing the Run key failed: error "@ + text::decimal(status as nat)
}

/// What became of a change: `status` is what the call came back with, and
/// `still_there` whether the entry exists afterwards.
pub fn outcome(enabled: bool, status: u32, still_there: bool) -> (r: Result<(), String>)
    ensures
        match r {
            Ok(_u) => changed(enabled, status, still_there),
            Err(e) => !changed(enabled, status, still_there) && e@ == write_failure(status),
        },
{
    if status == SUCCESS || (!enabled && !still_there) {
        Ok(())
    } else {
        let mut e: String = String::new();
        e.append("writing the Run key failed: error ");
        e.append(to_decimal(status as usize).as_str());
        assert(e@ =~= write_failure(status));
        Err(e)
    }
}

/// What is said when the key cannot be opened.
pub fn open_failure(status: u32) -> (e: String)
    ensures
        e@ == "opening the Run key failed: error "@ + text::decimal(status as nat),
{
    let mut e: String = String::new();
    e.append("opening the Run key failed: error ");
    e.append(to_decimal(status as usize).as_str());
    assert(e@ =~= "opening the Run key failed: error "@ + text::decimal(status as nat));
    e
}

// ---- reading the value back -----------------------------------------------

/// Bytes as 16-bit units, the low one first.
pub open spec fn units_of(bytes: Seq<u8>) -> Seq<u16> {
    Seq::new(bytes.len() / 2, |i: int| (bytes[2 * i] + 256 * bytes[2 * i + 1]) as u16)
}

/// UTF-16 units as a text, up to a NUL. A surrogate without its partner reads
/// as the replacement character.
pub open spec fn text_of(u: Seq<u16>) -> Seq<char>
    decreases u.len(),
{
    if u.len() == 0 || u[0] == 0 {
        Seq::empty()
    } else if 0xd800 <= u[0] < 0xdc00 && u.len() > 1 && 0xdc00 <= u[1] < 0xe000 {
        seq![(0x1_0000 + (u[0] - 0xd800) * 0x400 + (u[1] - 0xdc00)) as char] + text_of(u.skip(2))
    } else if 0xd800 <= u[0] < 0xe000 {
        seq!['\u{fffd}'] + text_of(u.skip(1))
    } else {
        seq![u[0] as char] + text_of(u.skip(1))
    }
}

proof fn lemma_scalar_value(c: char)
    ensures
        c as u32 <= 0x10_ffff,
        !(0xd800 <= c as u32 <= 0xdfff),
        (c as u32) as char == c,
{
}

proof fn lemma_units_read_back(s: Seq<char>)
    requires
        !s.contains('\0'),
    ensures
        text_of(utf16(s).push(0)) == s,
    decreases s.len(),
{
    let u = utf16(s).push(0);
    if s.len() > 0 {
        let rest = s.skip(1);
        assert(s[0] != '\0');
        assert(!rest.contains('\0')) by {
            if rest.contains('\0') {
                let k = choose|k: int| 0 <= k < rest.len() && rest[k] == '\0';
                assert(s[k + 1] == '\0');
            }
        }
        lemma_units_read_back(rest);
        let n = s[0] as u32;
        lemma_scalar_value(s[0]);
        if n < 0x1_0000 {
            assert(u.skip(1) =~= utf16(rest).push(0));
            assert(u[0] == n);
            assert(u[0] as char == s[0]);
            assert(seq![s[0]] + rest =~= s);
        } else {
            assert(n <= 0x10_ffff);
            let high = 0xd800 + (n - 0x1_0000) / 0x400;
            let low = 0xdc00 + (n - 0x1_0000) % 0x400;
            assert(u[0] == high);
            assert(u[1] == low);
            assert(u.skip(2) =~= utf16(rest).push(0));
            assert(0x1_0000 + (high - 0xd800) * 0x400 + (low - 0xdc00) == n);
            assert(seq![s[0]] + rest =~= s);
        }
    }
}

proof fn lemma_bytes_read_back(u: Seq<u16>)
    ensures
        units_of(little_endian(u)) == u,
{
    let b = little_endian(u);
    assert forall|i: int| 0 <= i < u.len() implies units_of(b)[i] == u[i] by {
        assert((2 * i) % 2 == 0 && (2 * i) / 2 == i);
        assert((2 * i + 1) % 2 == 1 && (2 * i + 1) / 2 == i);
        assert(b[2 * i] == (u[i] % 256) as u8);
        assert(b[2 * i + 1] == (u[i] / 256) as u8);
    }
    assert(units_of(b) =~= u);
}

/// The value written is the command that will run, character for character,
/// whatever is in the path; only a NUL, which ends a registry string and cannot
/// stand in a path, would cut it short.
pub proof fn the_value_written_is_the_command(exe: Seq<char>)
    requires
        !exe.contains('\0'),
    ensures
        text_of(units_of(registry_string(command(exe)))) == command(exe),
{
    let c = command(exe);
    assert(!c.contains('\0')) by {
        if c.contains('\0') {
            let k = choose|k: int| 0 <= k < c.len() && c[k] == '\0';
            assert(c[k] == exe[k - 1]);
        }
    }
    lemma_bytes_read_back(utf16(c).push(0));
    lemma_units_read_back(c);
}

/// The value of the entry once a change is made; `None` where there is no entry.
pub open spec fn value_after(change: RunKeyChange) -> Option<Seq<u8>> {
    match change {
        RunKeyChange::Write(bytes) => Some(bytes@),
        RunKeyChange::Remove => None,
    }
}

/// The key is the state: of a readable key, asking says whether there is an entry,
/// whatever it holds; and once a switch to `b` is made, it says `b`, whatever was
/// there before. `asked` is what asking comes back with: it finds an entry exactly
/// when there is one.
pub proof fn the_key_is_the_state(
    b: bool,
    exe: Seq<char>,
    change: RunKeyChange,
    value: Option<Seq<u8>>,
    asked: u32,
)
    requires
        (asked == SUCCESS) == (value is Some),
    ensures
        enabled_by(true, asked) == (value is Some),
        switches(change, b, exe) && value == value_after(change) ==> enabled_by(true, asked) == b
            && (b ==> value == Some(registry_string(command(exe)))),
{
}

/// What was set is what is read: after a change to `b` that worked, asking says
/// `b`. `status` is what the change came back with, `asked` what asking comes back
/// with, and `present` whether the value is there; asking finds it exactly when
/// it is, and a call that worked has done what it says.
pub proof fn what_was_set_is_what_is_read(b: bool, status: u32, asked: u32, present: bool)
    requires
        (asked == SUCCESS) == present,
        status == SUCCESS ==> present == b,
        changed(b, status, present),
    ensures
        enabled_by(true, asked) == b,
{
}

/// Turning start-at-login off works however often it is done: an entry that is
/// not there is no failure.
pub proof fn turning_off_twice_is_fine(status: u32)
    ensures
        changed(false, status, false),
{
}

/// The command is the path between two quotes.
pub proof fn the_command_is_quoted(exe: Seq<char>)
    ensures
        command(exe).len() == exe.len() + 2,
        command(exe)[0] == '"',
        command(exe)[exe.len() as int + 1] == '"',
        command(exe).subrange(1, exe.len() as int + 1) == exe,
{
    assert(command(exe).subrange(1, exe.len() as int + 1) =~= exe);
}

/// A change worked exactly when the call says so, or when something was to be removed
/// and is not there.
pub proof fn a_change_worked_or_not(enabled: bool, status: u32, still_there: bool)
    ensures
        changed(true, status, still_there) <==> status == 0,
        changed(false, status, still_there) <==> status == 0 || !still_there,
        enabled_by(true, status) <==> status == 0,
        !enabled_by(false, status),
{
}

/// A failed change is told with its status.
pub proof fn a_failed_change_gives_its_status(status: u32)
    ensures
        text::contains(write_failure(status), text::decimal(status as nat)),
{
    let e = write_failure(status);
    let d = text::decimal(status as nat);
    let at = "writing the Run key failed: error "@.len() as int;
    assert(e.subrange(at, at + d.len()) =~= d);
    assert(text::stands_at(e, d, at));
}

/// Switching on writes, switching off removes, and never the other way round.
pub proof fn on_writes_and_off_removes(change: RunKeyChange, exe: Seq<char>)
    ensures
        switches(change, true, exe) ==> change is Write,
        switches(change, false, exe) ==> change is Remove,
        change matches RunKeyChange::Write(bytes) ==> (switches(change, true, exe) <==> bytes@
            == registry_string(command(exe))),
        change is Remove ==> switches(change, false, exe),
{
}

} // verus!
