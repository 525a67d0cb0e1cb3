//! What holds of every inventory of devices.

use vstd::prelude::*;

use crate::devices;
use crate::devices::{Device, DeviceDirection, DeviceList};
use crate::error::AudioErrorView;
use crate::text;
use crate::text_laws;

verus! {

// ---- names ----------------------------------------------------------------

/// Being the same hardware is an equivalence of names.
pub proof fn same_device_is_an_equivalence(a: Seq<char>, b: Seq<char>, c: Seq<char>)
    ensures
        devices::same_device(a, a),
        devices::same_device(a, b) == devices::same_device(b, a),
        devices::same_device(a, b) && devices::same_device(b, c) ==> devices::same_device(a, c),
{
}

proof fn lemma_found(s: Seq<char>, pattern: Seq<char>, at: int)
    requires
        text::stands_at(s, pattern, at),
        forall|j: int| 0 <= j < at ==> !text::stands_at(s, pattern, j),
    ensures
        text::first_at(s, pattern, 0) == Some(at),
{
    text::lemma_first_at(s, pattern, 0);
}

/// A parenthesised part opens where its first parenthesis stands.
proof fn lemma_opens(s: Seq<char>, at: int)
    requires
        0 <= at < s.len(),
        s[at] == '(',
        forall|j: int| 0 <= j < at ==> s[j] != '(',
    ensures
        text::first_at(s, devices::opening(), 0) == Some(at),
{
    assert(s.subrange(at, at + 1) =~= devices::opening());
    assert forall|j: int| 0 <= j < at implies !text::stands_at(s, devices::opening(), j) by {
        if text::stands_at(s, devices::opening(), j) {
            assert(s.subrange(j, j + 1)[0] == devices::opening()[0]);
        }
    }
    lemma_found(s, devices::opening(), at);
}

/// What the search for an opening parenthesis comes back with.
proof fn lemma_first_opening(s: Seq<char>)
    ensures
        match text::first_at(s, devices::opening(), 0) {
            Some(i) => 0 <= i < s.len() && s[i] == '(' && forall|j: int|
                0 <= j < i ==> s[j] != '(',
            None => forall|j: int| 0 <= j < s.len() ==> s[j] != '(',
        },
{
    text::lemma_first_at(s, devices::opening(), 0);
    assert forall|j: int| 0 <= j < s.len() && s[j] == '(' implies text::stands_at(s, devices::opening(), j) by {
        assert(s.subrange(j, j + 1) =~= devices::opening());
    }
    if let Some(i) = text::first_at(s, devices::opening(), 0) {
        assert(s.subrange(i, i + 1)[0] == devices::opening()[0]);
    }
}

/// A name is stripped part by part.
proof fn lemma_parts(a: Seq<char>, b: Seq<char>)
    ensures
        devices::bare_name(a + devices::opening() + b) == devices::bare_name(a) + devices::opening() + devices::bare_name(b),
    decreases a.len(),
{
    let s = a + devices::opening() + b;
    lemma_first_opening(a);
    match text::first_at(a, devices::opening(), 0) {
        Some(i) => {
            assert forall|j: int| 0 <= j < i implies s[j] != '(' by {
                assert(s[j] == a[j]);
            }
            assert(s[i] == a[i]);
            lemma_opens(s, i);
            assert(s.take(i) =~= a.take(i));
            assert(s.skip(i + 1) =~= a.skip(i + 1) + devices::opening() + b);
            lemma_parts(a.skip(i + 1), b);
            assert(devices::bare_name(s) =~= devices::bare_name(a) + devices::opening() + devices::bare_name(b));
        },
        None => {
            let i = a.len() as int;
            assert forall|j: int| 0 <= j < i implies s[j] != '(' by {
                assert(s[j] == a[j]);
            }
            assert(s[i] == '(');
            lemma_opens(s, i);
            assert(s.take(i) =~= a);
            assert(s.skip(i + 1) =~= b);
        },
    }
}

proof fn lemma_trim_start_twice(s: Seq<char>)
    ensures
        text::trim_start(text::trim_start(s)) == text::trim_start(s),
    decreases s.len(),
{
    if s.len() > 0 && text::white_space(s[0]) {
        lemma_trim_start_twice(s.skip(1));
    }
}

proof fn lemma_numbered_part(number: Seq<char>, part: Seq<char>)
    requires
        number.len() > 0,
        devices::all_digits(number),
        !devices::numbered(text::trim_start(part)),
    ensures
        devices::bare_part(number + devices::instance_mark() + part) == devices::bare_part(part),
{
    let s = number + devices::instance_mark() + part;
    let n = number.len() as int;
    assert(s[0] == number[0]);
    assert(text::trim_start(s) == s);
    assert(s.subrange(n, n + 2) =~= devices::instance_mark());
    assert forall|j: int| 0 <= j < n implies !text::stands_at(s, devices::instance_mark(), j) by {
        if text::stands_at(s, devices::instance_mark(), j) {
            assert(s.subrange(j, j + 2)[0] == devices::instance_mark()[0]);
            assert(s[j] == number[j]);
        }
    }
    lemma_found(s, devices::instance_mark(), n);
    assert(s.take(n) =~= number);
    assert(s.skip(n + 2) =~= part);
    lemma_trim_start_twice(part);
}

/// The part of a name before its first parenthesis.
pub open spec fn first_part(name: Seq<char>) -> Seq<char> {
    match text::first_at(name, devices::opening(), 0) {
        Some(i) => name.take(i),
        None => name,
    }
}

/// A device that is plugged in again comes back with an instance number after
/// the parenthesis; its name still stands for the same hardware. The one name
/// this cannot hold of is one that already carries such a number there: it would
/// lose the new number and keep the old.
pub proof fn a_replugged_device_is_recognised(
    before: Seq<char>,
    number: Seq<char>,
    rest: Seq<char>,
)
    requires
        number.len() > 0,
        devices::all_digits(number),
        !devices::numbered(text::trim_start(first_part(rest))),
    ensures
        devices::same_device(
            before + devices::opening() + rest,
            before + devices::opening() + (number + devices::instance_mark() + rest),
        ),
{
    let again = number + devices::instance_mark() + rest;
    let n = number.len() as int;
    lemma_parts(before, rest);
    lemma_parts(before, again);
    lemma_first_opening(rest);
    lemma_numbered_part(number, first_part(rest));
    assert(devices::instance_mark()[0] == '-' && devices::instance_mark()[1] == ' ');
    match text::first_at(rest, devices::opening(), 0) {
        Some(i) => {
            let at = n + 2 + i;
            assert forall|j: int| 0 <= j < at implies again[j] != '(' by {
                if j < n {
                    assert(again[j] == number[j]);
                } else if j < n + 2 {
                    assert(again[j] == devices::instance_mark()[j - n]);
                } else {
                    assert(again[j] == rest[j - n - 2]);
                }
            }
            assert(again[at] == rest[i]);
            lemma_opens(again, at);
            assert(again.take(at) =~= number + devices::instance_mark() + rest.take(i));
            assert(again.skip(at + 1) =~= rest.skip(i + 1));
        },
        None => {
            lemma_first_opening(again);
            if let Some(j) = text::first_at(again, devices::opening(), 0) {
                if j < n {
                    assert(again[j] == number[j]);
                } else if j < n + 2 {
                    assert(again[j] == devices::instance_mark()[j - n]);
                } else {
                    assert(again[j] == rest[j - n - 2]);
                }
            }
        },
    }
}

/// A name is stripped part by part; an opening parenthesis ends one part and starts
/// the next, and stays.
pub proof fn a_name_is_stripped_part_by_part(a: Seq<char>, b: Seq<char>)
    ensures
        devices::bare_name(a + seq!['('] + b) == devices::bare_name(a) + seq!['(']
            + devices::bare_name(b),
{
    lemma_parts(a, b);
}

/// No part opens in `s`.
pub open spec fn one_part(s: Seq<char>) -> bool {
    forall|i: int| 0 <= i < s.len() ==> #[trigger] s[i] != '('
}

proof fn lemma_one_part(s: Seq<char>)
    requires
        one_part(s),
    ensures
        devices::bare_name(s) == devices::bare_part(s),
{
    lemma_first_opening(s);
}

/// `s` begins with `n` digits, a dash and a space.
pub open spec fn number_of(s: Seq<char>, n: int) -> bool {
    &&& 0 < n && n + 1 < s.len()
    &&& s[n] == '-' && s[n + 1] == ' '
    &&& forall|i: int| 0 <= i < n ==> '0' <= #[trigger] s[i] && s[i] <= '9'
}

/// `s` begins with an instance number.
pub open spec fn carries_number(s: Seq<char>) -> bool {
    exists|n: int| number_of(s, n)
}

proof fn lemma_numbered(s: Seq<char>)
    ensures
        devices::numbered(s) == carries_number(s),
{
    let mark = devices::instance_mark();
    assert(mark[0] == '-' && mark[1] == ' ');
    text::lemma_first_at(s, mark, 0);
    if devices::numbered(s) {
        let n = text::first_at(s, mark, 0)->0;
        assert(s.subrange(n, n + 2)[0] == mark[0] && s.subrange(n, n + 2)[1] == mark[1]);
        assert forall|i: int| 0 <= i < n implies '0' <= #[trigger] s[i] && s[i] <= '9' by {
            assert(text::ascii_digit(s.take(n)[i]));
            text_laws::there_are_ten_digits(s[i]);
        }
        assert(number_of(s, n));
    }
    if carries_number(s) {
        let n = choose|n: int| number_of(s, n);
        assert(s.subrange(n, n + 2) =~= mark);
        assert forall|j: int| 0 <= j < n implies !text::stands_at(s, mark, j) by {
            if text::stands_at(s, mark, j) {
                assert(s.subrange(j, j + 2)[0] == mark[0]);
                assert(s[j] == '-');
            }
        }
        lemma_found(s, mark, n);
        assert forall|i: int| 0 <= i < n implies text::ascii_digit(#[trigger] s.take(n)[i]) by {
            text_laws::there_are_ten_digits(s[i]);
        }
    }
}

/// A part loses the white space around it, and an instance number in front with what
/// separates it from the rest; nothing else. Only one number is lost.
pub proof fn a_part_loses_its_number(
    before: Seq<char>,
    number: Seq<char>,
    between: Seq<char>,
    core: Seq<char>,
    after: Seq<char>,
)
    requires
        text_laws::blank(before),
        number.len() > 0,
        forall|i: int| 0 <= i < number.len() ==> '0' <= #[trigger] number[i] && number[i] <= '9',
        text_laws::blank(between),
        text_laws::tight(core),
        one_part(core),
        text_laws::blank(after),
    ensures
        devices::bare_name(before + number + seq!['-', ' '] + between + core + after) == core,
{
    let s = before + number + seq!['-', ' '] + between + core + after;
    let t = number + seq!['-', ' '] + between + core + after;
    let kept = between + core + after;
    let n = number.len() as int;
    assert(s =~= before + t);
    lemma_blank_is_one_part(before);
    lemma_blank_is_one_part(between);
    lemma_blank_is_one_part(after);
    assert forall|i: int| 0 <= i < s.len() implies #[trigger] s[i] != '(' by {
        let b = before.len() as int;
        if i < b {
            assert(s[i] == before[i]);
        } else if i < b + n {
            assert(s[i] == number[i - b]);
        } else if i < b + n + 2 {
            assert(s[i] == seq!['-', ' '][i - b - n]);
        } else if i < b + n + 2 + between.len() {
            assert(s[i] == between[i - b - n - 2]);
        } else if i < b + n + 2 + between.len() + core.len() {
            assert(s[i] == core[i - b - n - 2 - between.len()]);
        } else {
            assert(s[i] == after[i - b - n - 2 - between.len() - core.len()]);
        }
    }
    lemma_one_part(s);
    text_laws::white_space_is_what_is_not_seen(number[0]);
    assert(t[0] == number[0]);
    text_laws::lemma_trim_start(before, t);
    assert(t[n] == '-' && t[n + 1] == ' ');
    assert forall|i: int| 0 <= i < n implies '0' <= #[trigger] t[i] && t[i] <= '9' by {
        assert(t[i] == number[i]);
    }
    assert(number_of(t, n));
    lemma_numbered(t);
    let mark = devices::instance_mark();
    assert(mark[0] == '-' && mark[1] == ' ');
    assert(t.subrange(n, n + 2) =~= mark);
    assert forall|j: int| 0 <= j < n implies !text::stands_at(t, mark, j) by {
        if text::stands_at(t, mark, j) {
            assert(t.subrange(j, j + 2)[0] == mark[0]);
            assert(t[j] == number[j]);
        }
    }
    lemma_found(t, mark, n);
    assert(t.skip(n + 2) =~= kept);
    text_laws::trimming_cuts_white_space_only(between, core, after);
}

proof fn lemma_blank_is_one_part(s: Seq<char>)
    requires
        text_laws::blank(s),
    ensures
        one_part(s),
{
    assert forall|i: int| 0 <= i < s.len() implies #[trigger] s[i] != '(' by {
        assert(text::white_space(s[i]));
    }
}

/// A part without an instance number loses the white space around it and nothing
/// else.
pub proof fn a_part_keeps_its_text(before: Seq<char>, core: Seq<char>, after: Seq<char>)
    requires
        text_laws::blank(before),
        text_laws::tight(core),
        one_part(core),
        text_laws::blank(after),
        !carries_number(core + after),
    ensures
        devices::bare_name(before + core + after) == core,
{
    let s = before + core + after;
    let t = core + after;
    assert(s =~= before + t);
    lemma_blank_is_one_part(before);
    lemma_blank_is_one_part(after);
    assert forall|i: int| 0 <= i < s.len() implies #[trigger] s[i] != '(' by {
        let b = before.len() as int;
        if i < b {
            assert(s[i] == before[i]);
        } else if i < b + core.len() {
            assert(s[i] == core[i - b]);
        } else {
            assert(s[i] == after[i - b - core.len()]);
        }
    }
    lemma_one_part(s);
    lemma_numbered(t);
    if core.len() > 0 {
        assert(t[0] == core[0]);
        text_laws::lemma_trim_start(before, t);
        let none = Seq::<char>::empty();
        assert(t =~= none + t);
        text_laws::lemma_trim_start(none, t);
        text_laws::lemma_trim_end(core, after);
    } else {
        assert(text_laws::blank(s)) by {
            assert forall|i: int| 0 <= i < s.len() implies text::white_space(#[trigger] s[i]) by {
                if i < before.len() {
                    assert(s[i] == before[i]);
                } else {
                    assert(s[i] == after[i - before.len()]);
                }
            }
        }
        let none = Seq::<char>::empty();
        assert(s =~= s + none);
        text_laws::lemma_trim_start(s, none);
        assert(none =~= core);
        assert(!devices::numbered(none)) by {
            lemma_numbered(none);
        }
    }
}

/// Two names are the same hardware exactly when they are the same text, character for
/// character, once every part has lost its instance number and the white space around
/// it.
pub proof fn same_hardware_is_same_bare_text(a: Seq<char>, b: Seq<char>)
    ensures
        devices::same_device(a, b) == (devices::bare_name(a) == devices::bare_name(b)),
{
}

/// A part of `s` starts at `p`.
pub open spec fn starts_part(s: Seq<char>, p: int) -> bool {
    p == 0 || 0 < p <= s.len() && s[p - 1] == '('
}

/// No part of `s` carries an instance number, and none has white space around it.
pub open spec fn plain(s: Seq<char>) -> bool {
    &&& forall|p: int| #[trigger]
        starts_part(s, p) ==> !carries_number(s.skip(p)) && (p < s.len() ==> !text::white_space(
            s[p],
        ))
    &&& forall|q: int|
        0 < q <= s.len() && (q == s.len() || s[q] == '(') ==> !text::white_space(
            #[trigger] s[q - 1],
        )
}

proof fn lemma_plain_stays(s: Seq<char>)
    requires
        plain(s),
    ensures
        devices::bare_name(s) == s,
    decreases s.len(),
{
    lemma_first_opening(s);
    assert(starts_part(s, 0));
    assert(s.skip(0) =~= s);
    let none = Seq::<char>::empty();
    match text::first_at(s, devices::opening(), 0) {
        Some(i) => {
            let part = s.take(i);
            let rest = s.skip(i + 1);
            assert(part + devices::opening() + rest =~= s);
            assert forall|p: int| #[trigger] starts_part(rest, p) implies !carries_number(
                rest.skip(p),
            ) && (p < rest.len() ==> !text::white_space(rest[p])) by {
                assert(starts_part(s, p + i + 1));
                assert(s.skip(p + i + 1) =~= rest.skip(p));
            }
            assert forall|q: int|
                0 < q <= rest.len() && (q == rest.len() || rest[q] == '(') implies !text::white_space(
                #[trigger] rest[q - 1],
            ) by {
                assert(rest[q - 1] == s[(q + i + 1) - 1]);
                if q < rest.len() {
                    assert(rest[q] == s[q + i + 1]);
                }
            }
            lemma_plain_stays(rest);
            if i > 0 {
                assert(s[i] == '(');
                assert(!text::white_space(s[i - 1]));
            }
            assert(!carries_number(part)) by {
                if carries_number(part) {
                    let n = choose|n: int| number_of(part, n);
                    assert forall|k: int| 0 <= k < n implies '0' <= #[trigger] s[k] && s[k]
                        <= '9' by {
                        assert(s[k] == part[k]);
                    }
                    assert(number_of(s, n));
                    assert(carries_number(s));
                }
            }
            assert(one_part(part));
            assert(none + part + none =~= part);
            assert(part + none =~= part);
            a_part_keeps_its_text(none, part, none);
            lemma_one_part(part);
        },
        None => {
            if s.len() > 0 {
                assert(!text::white_space(s[s.len() - 1]));
            }
            assert(one_part(s));
            assert(none + s + none =~= s);
            assert(s + none =~= s);
            a_part_keeps_its_text(none, s, none);
        },
    }
}

/// Genuinely different hardware does not collapse together: names that carry no
/// instance number and no white space around their parts are the same device only if
/// they are the same text, however long.
pub proof fn plain_names_differ_in_every_character(a: Seq<char>, b: Seq<char>)
    requires
        plain(a),
        plain(b),
    ensures
        devices::same_device(a, b) == (a == b),
{
    lemma_plain_stays(a);
    lemma_plain_stays(b);
}

// ---- looking things up ----------------------------------------------------

proof fn lemma_first_where(s: Seq<Device>, p: spec_fn(Device) -> bool, from: int)
    requires
        0 <= from,
    ensures
        match devices::first_where(s, p, from) {
            Some(i) => from <= i < s.len() && p(s[i]) && forall|j: int|
                from <= j < i ==> !p(#[trigger] s[j]),
            None => forall|j: int| from <= j < s.len() ==> !p(#[trigger] s[j]),
        },
    decreases s.len() - from,
{
    if from < s.len() && !p(s[from]) {
        lemma_first_where(s, p, from + 1);
    }
}

/// An exact name wins over one that is merely the same hardware.
pub proof fn an_exact_name_wins(s: Seq<Device>, name: Seq<char>)
    requires
        exists|i: int| 0 <= i < s.len() && (#[trigger] s[i]).friendly_name@ == name,
    ensures
        devices::called(s, name) is Some,
        (devices::called(s, name)->0).friendly_name@ == name,
{
    lemma_first_where(s, devices::by_name(name), 0);
    let i = choose|i: int| 0 <= i < s.len() && (#[trigger] s[i]).friendly_name@ == name;
    assert(devices::by_name(name)(s[i]));
}

/// Whatever a name resolves to is in the list and is the same hardware; and a
/// name resolves whenever the list holds the same hardware.
pub proof fn a_name_resolves_to_its_hardware(s: Seq<Device>, name: Seq<char>)
    ensures
        devices::called(s, name) matches Some(d) ==> s.contains(d) && devices::same_device(d.friendly_name@, name),
        (devices::called(s, name) is Some) == (exists|i: int|
            0 <= i < s.len() && devices::same_device((#[trigger] s[i]).friendly_name@, name)),
{
    lemma_first_where(s, devices::by_name(name), 0);
    lemma_first_where(s, devices::by_hardware(name), 0);
    if exists|i: int| 0 <= i < s.len() && devices::same_device((#[trigger] s[i]).friendly_name@, name) {
        let i = choose|i: int|
            0 <= i < s.len() && devices::same_device((#[trigger] s[i]).friendly_name@, name);
        assert(devices::by_hardware(name)(s[i]));
    }
    if let Some(i) = devices::first_where(s, devices::by_name(name), 0) {
        assert(devices::same_device(s[i].friendly_name@, name));
        assert(s[i] == s[i]);
    } else if let Some(i) = devices::first_where(s, devices::by_hardware(name), 0) {
        assert(devices::same_device(s[i].friendly_name@, name));
    }
}

proof fn lemma_is_first(s: Seq<Device>, p: spec_fn(Device) -> bool, i: int)
    requires
        0 <= i < s.len(),
        p(s[i]),
        forall|j: int| 0 <= j < i ==> !p(#[trigger] s[j]),
    ensures
        devices::pick(s, p) == Some(s[i]),
{
    lemma_first_where(s, p, 0);
}

/// A name finds the first device with exactly that name, wherever it stands.
pub proof fn a_name_finds_the_first_exactly_so_called(s: Seq<Device>, name: Seq<char>, i: int)
    requires
        0 <= i < s.len(),
        s[i].friendly_name@ == name,
        forall|j: int| 0 <= j < i ==> (#[trigger] s[j]).friendly_name@ != name,
    ensures
        devices::called(s, name) == Some(s[i]),
{
    lemma_is_first(s, devices::by_name(name), i);
}

/// Where no device has exactly that name, it finds the first that is the same
/// hardware.
pub proof fn a_name_finds_the_first_of_its_hardware(s: Seq<Device>, name: Seq<char>, i: int)
    requires
        0 <= i < s.len(),
        forall|j: int| 0 <= j < s.len() ==> (#[trigger] s[j]).friendly_name@ != name,
        devices::same_device(s[i].friendly_name@, name),
        forall|j: int|
            0 <= j < i ==> !devices::same_device((#[trigger] s[j]).friendly_name@, name),
    ensures
        devices::called(s, name) == Some(s[i]),
{
    lemma_first_where(s, devices::by_name(name), 0);
    lemma_is_first(s, devices::by_hardware(name), i);
}

/// A name of hardware that is not there finds nothing.
pub proof fn a_name_of_nothing_finds_nothing(s: Seq<Device>, name: Seq<char>)
    requires
        forall|j: int|
            0 <= j < s.len() ==> !devices::same_device((#[trigger] s[j]).friendly_name@, name),
    ensures
        devices::called(s, name) is None,
{
    a_name_resolves_to_its_hardware(s, name);
}

/// An id finds the first microphone that has it, and nothing where none has.
pub proof fn an_id_finds_its_device(list: DeviceList, id: Seq<char>, i: int)
    ensures
        0 <= i < list.capture@.len() && list.capture@[i].id@ == id && (forall|j: int|
            0 <= j < i ==> (#[trigger] list.capture@[j]).id@ != id) ==> devices::pick(
            list.capture@,
            devices::by_id(id),
        ) == Some(list.capture@[i]),
        (forall|j: int| 0 <= j < list.capture@.len() ==> (#[trigger] list.capture@[j]).id@ != id)
            ==> devices::pick(list.capture@, devices::by_id(id)) is None,
{
    lemma_first_where(list.capture@, devices::by_id(id), 0);
    if 0 <= i < list.capture@.len() && list.capture@[i].id@ == id && (forall|j: int|
        0 <= j < i ==> (#[trigger] list.capture@[j]).id@ != id) {
        lemma_is_first(list.capture@, devices::by_id(id), i);
    }
}

/// The default microphone is the first that the system marks so, and there is none
/// only where it marks none.
pub proof fn the_default_is_the_one_marked(list: DeviceList)
    ensures
        match list.system_default() {
            Some(d) => exists|i: int|
                0 <= i < list.capture@.len() && #[trigger] list.capture@[i] == d && d.is_default
                    && forall|j: int| 0 <= j < i ==> !(#[trigger] list.capture@[j]).is_default,
            None => forall|j: int|
                0 <= j < list.capture@.len() ==> !(#[trigger] list.capture@[j]).is_default,
        },
{
    let s = list.capture@;
    lemma_first_where(s, devices::by_default(), 0);
    match devices::first_where(s, devices::by_default(), 0) {
        Some(i) => {
            assert(devices::by_default()(s[i]));
            assert forall|j: int| 0 <= j < i implies !(#[trigger] s[j]).is_default by {
                assert(!devices::by_default()(s[j]));
            }
            assert(s[i] == list.system_default()->0);
        },
        None => {
            assert forall|j: int| 0 <= j < s.len() implies !(#[trigger] s[j]).is_default by {
                assert(!devices::by_default()(s[j]));
            }
        },
    }
}

/// An empty preference stands for the default of the system, any other for the
/// microphone of that name.
pub proof fn a_preference_is_a_name_or_the_default(list: DeviceList, name: Seq<char>)
    ensures
        list.microphone(Seq::empty()) == list.system_default(),
        name.len() > 0 ==> list.microphone(name) == devices::called(list.capture@, name),
{
}

// ---- microphones ----------------------------------------------------------

proof fn lemma_distinct(s: Seq<Device>)
    ensures
        forall|i: int, j: int|
            0 <= i < j < devices::distinct(s).len() ==> (#[trigger] devices::distinct(s)[i]).id@ != (
            #[trigger] devices::distinct(s)[j]).id@,
        forall|i: int| 0 <= i < devices::distinct(s).len() ==> s.contains(#[trigger] devices::distinct(s)[i]),
        forall|i: int| 0 <= i < s.len() ==> devices::has_id(devices::distinct(s), (#[trigger] s[i]).id@),
        s.len() > 0 ==> devices::distinct(s).len() > 0 && devices::distinct(s)[0] == s[0],
    decreases s.len(),
{
    if s.len() > 0 {
        let rest = s.drop_last();
        let before = devices::distinct(rest);
        let after = devices::distinct(s);
        lemma_distinct(rest);
        assert(after == devices::with_new(before, s.last()));
        assert forall|i: int| 0 <= i < after.len() implies s.contains(#[trigger] after[i]) by {
            if i < before.len() {
                assert(rest.contains(before[i]));
                let k = choose|k: int| 0 <= k < rest.len() && rest[k] == before[i];
                assert(s[k] == after[i]);
            } else {
                assert(s[s.len() - 1] == after[i]);
            }
        }
        assert forall|i: int| 0 <= i < s.len() implies devices::has_id(after, (#[trigger] s[i]).id@) by {
            if i < rest.len() {
                assert(rest[i] == s[i]);
                let k = choose|k: int| 0 <= k < before.len() && (#[trigger] before[k]).id@
                    == s[i].id@;
                assert(after[k] == before[k]);
            } else if !devices::has_id(before, s.last().id@) {
                assert(after[before.len() as int].id@ == s[i].id@);
            }
        }
        if rest.len() > 0 {
            assert(rest[0] == s[0]);
            assert(after[0] == before[0]);
        } else {
            assert(before.len() == 0);
            assert(!devices::has_id(before, s.last().id@));
        }
    }
}

proof fn lemma_preferred(list: DeviceList, preferences: Seq<Seq<char>>)
    ensures
        forall|i: int|
            0 <= i < list.preferred(preferences).len() ==> list.capture@.contains(
                #[trigger] list.preferred(preferences)[i],
            ),
    decreases preferences.len(),
{
    if preferences.len() > 0 {
        lemma_preferred(list, preferences.drop_last());
        lemma_microphone(list, preferences.last());
        let before = list.preferred(preferences.drop_last());
        let after = list.preferred(preferences);
        assert forall|i: int| 0 <= i < after.len() implies list.capture@.contains(
            #[trigger] after[i],
        ) by {
            if i < before.len() {
                assert(after[i] == before[i]);
            }
        }
    }
}

proof fn lemma_microphone(list: DeviceList, name: Seq<char>)
    ensures
        list.microphone(name) matches Some(d) ==> list.capture@.contains(d),
{
    lemma_first_where(list.capture@, devices::by_default(), 0);
    a_name_resolves_to_its_hardware(list.capture@, name);
}

/// No microphone is offered twice.
pub proof fn no_microphone_is_offered_twice(list: DeviceList, preferences: Seq<Seq<char>>)
    ensures
        forall|i: int, j: int|
            0 <= i < j < list.candidates(preferences).len() ==> (#[trigger] list.candidates(
                preferences,
            )[i]).id@ != (#[trigger] list.candidates(preferences)[j]).id@,
{
    lemma_distinct(list.preferred(preferences) + devices::one(list.system_default()) + list.capture@);
}

/// Every microphone of the machine is a candidate once the likely ones are
/// exhausted, and nothing else ever is.
pub proof fn every_microphone_is_a_candidate(list: DeviceList, preferences: Seq<Seq<char>>)
    ensures
        forall|i: int|
            0 <= i < list.capture@.len() ==> devices::has_id(
                list.candidates(preferences),
                (#[trigger] list.capture@[i]).id@,
            ),
        forall|i: int|
            0 <= i < list.candidates(preferences).len() ==> list.capture@.contains(
                #[trigger] list.candidates(preferences)[i],
            ),
        (list.candidates(preferences).len() == 0) == (list.capture@.len() == 0),
{
    let likely = list.preferred(preferences) + devices::one(list.system_default());
    let all = likely + list.capture@;
    lemma_distinct(all);
    lemma_preferred(list, preferences);
    lemma_first_where(list.capture@, devices::by_default(), 0);
    assert forall|i: int| 0 <= i < list.capture@.len() implies devices::has_id(
        list.candidates(preferences),
        (#[trigger] list.capture@[i]).id@,
    ) by {
        assert(all[likely.len() + i] == list.capture@[i]);
    }
    assert forall|i: int| 0 <= i < all.len() implies list.capture@.contains(#[trigger] all[i]) by {
        let p = list.preferred(preferences);
        if i < p.len() {
            assert(all[i] == p[i]);
        } else if i < likely.len() {
            assert(all[i] == list.system_default()->0);
        } else {
            assert(all[i] == list.capture@[i - likely.len()]);
        }
    }
    let c = list.candidates(preferences);
    assert forall|i: int| 0 <= i < c.len() implies list.capture@.contains(#[trigger] c[i]) by {
        assert(all.contains(c[i]));
        let k = choose|k: int| 0 <= k < all.len() && all[k] == c[i];
        assert(list.capture@.contains(all[k]));
    }
    if c.len() > 0 {
        assert(list.capture@.contains(c[0]));
    }
}

proof fn lemma_first_preferred(list: DeviceList, preferences: Seq<Seq<char>>, k: int)
    requires
        0 <= k < preferences.len(),
        list.microphone(preferences[k]) is Some,
        forall|j: int| 0 <= j < k ==> list.microphone(#[trigger] preferences[j]) is None,
    ensures
        list.preferred(preferences).len() > 0,
        list.preferred(preferences)[0] == list.microphone(preferences[k])->0,
    decreases preferences.len(),
{
    let rest = preferences.drop_last();
    if k < rest.len() {
        assert(rest[k] == preferences[k]);
        assert forall|j: int| 0 <= j < k implies list.microphone(#[trigger] rest[j]) is None by {
            assert(rest[j] == preferences[j]);
        }
        lemma_first_preferred(list, rest, k);
    } else {
        assert forall|j: int| 0 <= j < rest.len() implies list.microphone(
            #[trigger] rest[j],
        ) is None by {
            assert(rest[j] == preferences[j]);
        }
        lemma_none_preferred(list, rest);
    }
}

proof fn lemma_none_preferred(list: DeviceList, preferences: Seq<Seq<char>>)
    requires
        forall|j: int|
            0 <= j < preferences.len() ==> list.microphone(#[trigger] preferences[j]) is None,
    ensures
        list.preferred(preferences).len() == 0,
    decreases preferences.len(),
{
    if preferences.len() > 0 {
        let rest = preferences.drop_last();
        assert forall|j: int| 0 <= j < rest.len() implies list.microphone(
            #[trigger] rest[j],
        ) is None by {
            assert(rest[j] == preferences[j]);
        }
        lemma_none_preferred(list, rest);
        assert(list.microphone(preferences[preferences.len() - 1]) is None);
    }
}

/// The highest-ranked microphone that is present leads: the first preference
/// that stands for one, however many before it are unplugged.
pub proof fn the_next_one_down_takes_over(list: DeviceList, preferences: Seq<Seq<char>>, k: int)
    requires
        0 <= k < preferences.len(),
        list.microphone(preferences[k]) is Some,
        forall|j: int| 0 <= j < k ==> list.microphone(#[trigger] preferences[j]) is None,
    ensures
        list.candidates(preferences).len() > 0,
        list.candidates(preferences)[0] == list.microphone(preferences[k])->0,
{
    lemma_first_preferred(list, preferences, k);
    let all = list.preferred(preferences) + devices::one(list.system_default()) + list.capture@;
    lemma_distinct(all);
    assert(all[0] == list.preferred(preferences)[0]);
}

/// The favourite leads whenever its hardware is there, under whatever instance
/// number it was plugged in again.
pub proof fn a_replugged_favourite_leads_again(list: DeviceList, preferences: Seq<Seq<char>>, i: int)
    requires
        preferences.len() > 0,
        preferences[0].len() > 0,
        0 <= i < list.capture@.len(),
        devices::same_device(list.capture@[i].friendly_name@, preferences[0]),
    ensures
        list.candidates(preferences).len() > 0,
        devices::same_device(list.candidates(preferences)[0].friendly_name@, preferences[0]),
{
    a_name_resolves_to_its_hardware(list.capture@, preferences[0]);
    the_next_one_down_takes_over(list, preferences, 0);
}

/// With no preference present, the default of the system leads.
pub proof fn the_default_is_the_floor(list: DeviceList, preferences: Seq<Seq<char>>)
    requires
        forall|j: int|
            0 <= j < preferences.len() ==> list.microphone(#[trigger] preferences[j]) is None,
        list.system_default() is Some,
    ensures
        list.candidates(preferences).len() > 0,
        list.candidates(preferences)[0] == list.system_default()->0,
{
    lemma_none_preferred(list, preferences);
    let all = list.preferred(preferences) + devices::one(list.system_default()) + list.capture@;
    lemma_distinct(all);
    assert(all[0] == list.system_default()->0);
}

/// In `c` a device with one id comes before one with the other.
pub open spec fn comes_before(c: Seq<Device>, first: Seq<char>, second: Seq<char>) -> bool {
    exists|a: int, b: int|
        0 <= a < b < c.len() && (#[trigger] c[a]).id@ == first && (#[trigger] c[b]).id@ == second
}

proof fn lemma_distinct_order(s: Seq<Device>, a: int, b: int)
    requires
        0 <= a < b < s.len(),
        forall|k: int| 0 <= k <= a ==> (#[trigger] s[k]).id@ != s[b].id@,
    ensures
        comes_before(devices::distinct(s), s[a].id@, s[b].id@),
    decreases s.len(),
{
    let rest = s.drop_last();
    let before = devices::distinct(rest);
    let after = devices::distinct(s);
    lemma_distinct(rest);
    assert(rest[a] == s[a]);
    assert(s.last() == s[s.len() - 1]);
    assert forall|k: int| 0 <= k < before.len() implies #[trigger] after[k] == before[k] by {
    }
    if b < rest.len() {
        assert(rest[b] == s[b]);
        assert forall|k: int| 0 <= k <= a implies (#[trigger] rest[k]).id@ != rest[b].id@ by {
            assert(rest[k] == s[k]);
        }
        lemma_distinct_order(rest, a, b);
        let (p, q) = choose|p: int, q: int|
            0 <= p < q < before.len() && (#[trigger] before[p]).id@ == s[a].id@ && (
            #[trigger] before[q]).id@ == s[b].id@;
        assert(after[p].id@ == s[a].id@ && after[q].id@ == s[b].id@);
    } else if devices::has_id(before, s[b].id@) {
        let q = choose|q: int| 0 <= q < before.len() && (#[trigger] before[q]).id@ == s[b].id@;
        assert(rest.contains(before[q]));
        let c = choose|c: int| 0 <= c < rest.len() && rest[c] == before[q];
        assert(rest[c].id@ == s[b].id@ && rest[c] == s[c]);
        assert(c > a) by {
            if c <= a {
                assert(s[c].id@ != s[b].id@);
            }
        }
        assert forall|k: int| 0 <= k <= a implies (#[trigger] rest[k]).id@ != rest[c].id@ by {
            assert(rest[k] == s[k]);
        }
        lemma_distinct_order(rest, a, c);
        let (p, q) = choose|p: int, q: int|
            0 <= p < q < before.len() && (#[trigger] before[p]).id@ == s[a].id@ && (
            #[trigger] before[q]).id@ == s[b].id@;
        assert(after[p].id@ == s[a].id@ && after[q].id@ == s[b].id@);
    } else {
        assert(devices::has_id(before, rest[a].id@));
        let p = choose|p: int| 0 <= p < before.len() && (#[trigger] before[p]).id@ == rest[a].id@;
        assert(after[p].id@ == s[a].id@);
        assert(after[before.len() as int].id@ == s[b].id@);
    }
}

/// One of the first preferences, up to number `upto`, stands for a device with this
/// id.
pub open spec fn wanted(
    list: DeviceList,
    preferences: Seq<Seq<char>>,
    upto: int,
    id: Seq<char>,
) -> bool {
    exists|k: int|
        0 <= k < upto && k < preferences.len() && (list.microphone(
            #[trigger] preferences[k],
        ) matches Some(d) && d.id@ == id)
}

proof fn lemma_preferred_from(list: DeviceList, preferences: Seq<Seq<char>>, k: int)
    requires
        0 <= k < list.preferred(preferences).len(),
    ensures
        wanted(
            list,
            preferences,
            preferences.len() as int,
            list.preferred(preferences)[k].id@,
        ),
    decreases preferences.len(),
{
    let rest = preferences.drop_last();
    let n = preferences.len() - 1;
    let id = list.preferred(preferences)[k].id@;
    if k < list.preferred(rest).len() {
        lemma_preferred_from(list, rest, k);
        let m = choose|m: int|
            0 <= m < rest.len() && (list.microphone(#[trigger] rest[m]) matches Some(d) && d.id@
                == id);
        assert(rest[m] == preferences[m]);
    } else {
        assert(preferences[n] == preferences.last());
    }
}

proof fn lemma_preferred_at(list: DeviceList, preferences: Seq<Seq<char>>, i: int) -> (a: int)
    requires
        0 <= i < preferences.len(),
        list.microphone(preferences[i]) is Some,
    ensures
        0 <= a < list.preferred(preferences).len(),
        list.preferred(preferences)[a] == list.microphone(preferences[i])->0,
        forall|k: int|
            0 <= k <= a ==> wanted(
                list,
                preferences,
                i + 1,
                (#[trigger] list.preferred(preferences)[k]).id@,
            ),
    decreases preferences.len(),
{
    let rest = preferences.drop_last();
    let all = list.preferred(preferences);
    let front = list.preferred(rest);
    if i < rest.len() {
        assert(rest[i] == preferences[i]);
        let a = lemma_preferred_at(list, rest, i);
        assert forall|k: int| 0 <= k <= a implies wanted(
            list,
            preferences,
            i + 1,
            (#[trigger] all[k]).id@,
        ) by {
            assert(all[k] == front[k]);
            let m = choose|m: int|
                0 <= m < i + 1 && m < rest.len() && (list.microphone(
                    #[trigger] rest[m],
                ) matches Some(d) && d.id@ == front[k].id@);
            assert(rest[m] == preferences[m]);
        }
        a
    } else {
        assert(preferences[i] == preferences.last());
        let a = front.len() as int;
        assert forall|k: int| 0 <= k <= a implies wanted(
            list,
            preferences,
            i + 1,
            (#[trigger] all[k]).id@,
        ) by {
            lemma_preferred_from(list, preferences, k);
        }
        a
    }
}

/// Preferences are tried in their order: of two that stand for different microphones
/// that are present, the earlier one's comes first, unless the other microphone was
/// wanted even before that.
pub proof fn preferences_are_tried_in_order(
    list: DeviceList,
    preferences: Seq<Seq<char>>,
    i: int,
    j: int,
)
    requires
        0 <= i < j < preferences.len(),
        list.microphone(preferences[i]) is Some,
        list.microphone(preferences[j]) is Some,
        !wanted(list, preferences, i + 1, (list.microphone(preferences[j])->0).id@),
    ensures
        comes_before(
            list.candidates(preferences),
            (list.microphone(preferences[i])->0).id@,
            (list.microphone(preferences[j])->0).id@,
        ),
{
    let p = list.preferred(preferences);
    let all = p + devices::one(list.system_default()) + list.capture@;
    let a = lemma_preferred_at(list, preferences, i);
    let b = lemma_preferred_at(list, preferences, j);
    assert(all[a] == p[a] && all[b] == p[b]);
    assert forall|k: int| 0 <= k <= a implies (#[trigger] all[k]).id@ != all[b].id@ by {
        assert(all[k] == p[k]);
        assert(wanted(list, preferences, i + 1, p[k].id@));
    }
    assert(a < b) by {
        if b <= a {
            assert(all[b].id@ != all[b].id@);
        }
    }
    lemma_distinct_order(all, a, b);
}

/// Every microphone that a preference stands for comes before every microphone that
/// none stands for, the default of the system among them.
pub proof fn preferences_come_before_the_rest(
    list: DeviceList,
    preferences: Seq<Seq<char>>,
    i: int,
    j: int,
)
    requires
        0 <= i < preferences.len(),
        list.microphone(preferences[i]) is Some,
        0 <= j < list.capture@.len(),
        !wanted(list, preferences, preferences.len() as int, list.capture@[j].id@),
    ensures
        comes_before(
            list.candidates(preferences),
            (list.microphone(preferences[i])->0).id@,
            list.capture@[j].id@,
        ),
{
    let p = list.preferred(preferences);
    let likely = p + devices::one(list.system_default());
    let all = likely + list.capture@;
    let a = lemma_preferred_at(list, preferences, i);
    let b = likely.len() + j;
    assert(all[a] == p[a] && all[b] == list.capture@[j]);
    assert forall|k: int| 0 <= k <= a implies (#[trigger] all[k]).id@ != all[b].id@ by {
        assert(all[k] == p[k]);
        lemma_preferred_from(list, preferences, k);
    }
    lemma_distinct_order(all, a, b);
}

/// The default of the system comes before every other microphone that no preference
/// stands for.
pub proof fn the_default_comes_before_the_rest(
    list: DeviceList,
    preferences: Seq<Seq<char>>,
    j: int,
)
    requires
        list.system_default() is Some,
        0 <= j < list.capture@.len(),
        list.capture@[j].id@ != (list.system_default()->0).id@,
        !wanted(list, preferences, preferences.len() as int, list.capture@[j].id@),
    ensures
        comes_before(
            list.candidates(preferences),
            (list.system_default()->0).id@,
            list.capture@[j].id@,
        ),
{
    let p = list.preferred(preferences);
    let likely = p + devices::one(list.system_default());
    let all = likely + list.capture@;
    let a = p.len() as int;
    let b = likely.len() + j;
    assert(all[a] == list.system_default()->0 && all[b] == list.capture@[j]);
    assert forall|k: int| 0 <= k <= a implies (#[trigger] all[k]).id@ != all[b].id@ by {
        if k < a {
            assert(all[k] == p[k]);
            lemma_preferred_from(list, preferences, k);
        }
    }
    lemma_distinct_order(all, a, b);
}

/// The others follow in the order of the system.
pub proof fn the_rest_keep_their_order(
    list: DeviceList,
    preferences: Seq<Seq<char>>,
    i: int,
    j: int,
)
    requires
        0 <= i < j < list.capture@.len(),
        !wanted(list, preferences, preferences.len() as int, list.capture@[j].id@),
        list.system_default() matches Some(d) ==> d.id@ != list.capture@[j].id@,
        forall|k: int|
            0 <= k <= i ==> (#[trigger] list.capture@[k]).id@ != list.capture@[j].id@,
    ensures
        comes_before(list.candidates(preferences), list.capture@[i].id@, list.capture@[j].id@),
{
    let p = list.preferred(preferences);
    let likely = p + devices::one(list.system_default());
    let all = likely + list.capture@;
    let a = likely.len() + i;
    let b = likely.len() + j;
    assert(all[a] == list.capture@[i] && all[b] == list.capture@[j]);
    assert forall|k: int| 0 <= k <= a implies (#[trigger] all[k]).id@ != all[b].id@ by {
        if k < p.len() {
            assert(all[k] == p[k]);
            lemma_preferred_from(list, preferences, k);
        } else if k < likely.len() {
            assert(all[k] == list.system_default()->0);
        } else {
            assert(all[k] == list.capture@[k - likely.len()]);
        }
    }
    lemma_distinct_order(all, a, b);
}

// ---- cables ---------------------------------------------------------------

/// No endpoint is both sides of a cable.
pub proof fn the_two_sides_of_a_cable_differ(d: Device)
    ensures
        !(d.cable_input() is Some && d.cable_output() is Some),
{
}

/// The cable is never guessed: it is used exactly when one, and only one,
/// render device is a cable's input side; with none it is missing, with more
/// it is ambiguous.
pub proof fn the_cable_is_never_guessed(list: DeviceList)
    ensures
        list.cable() matches Ok(d) ==> list.render@.contains(d) && d.cable_input() is Some,
        (list.cable() is Ok) == (exists|i: int|
            0 <= i < list.render@.len() && (#[trigger] list.render@[i]).cable_input() is Some
                && forall|j: int|
                0 <= j < list.render@.len() && j != i ==> (
                #[trigger] list.render@[j]).cable_input() is None),
        (list.cable() == Err::<Device, AudioErrorView>(AudioErrorView::VirtualCableMissing)) == (
        forall|i: int|
            0 <= i < list.render@.len() ==> (#[trigger] list.render@[i]).cable_input() is None),
{
    let s = list.render@;
    lemma_first_where(s, devices::by_cable_input(), 0);
    match devices::first_where(s, devices::by_cable_input(), 0) {
        None => {
            assert forall|i: int| 0 <= i < s.len() implies (#[trigger] s[i]).cable_input() is None by {
                assert(!devices::by_cable_input()(s[i]));
            }
        },
        Some(i) => {
            assert(devices::by_cable_input()(s[i]));
            assert(s[i].cable_input() is Some);
            lemma_first_where(s, devices::by_cable_input(), i + 1);
            match devices::first_where(s, devices::by_cable_input(), i + 1) {
                None => {
                    assert forall|j: int| 0 <= j < s.len() && j != i implies (
                    #[trigger] s[j]).cable_input() is None by {
                        assert(!devices::by_cable_input()(s[j]));
                    }
                },
                Some(k) => {
                    assert(devices::by_cable_input()(s[k]));
                    assert(s[k].cable_input() is Some);
                    if exists|m: int|
                        0 <= m < s.len() && (#[trigger] s[m]).cable_input() is Some && forall|j: int|
                            0 <= j < s.len() && j != m ==> (
                            #[trigger] s[j]).cable_input() is None {
                        let m = choose|m: int|
                            0 <= m < s.len() && (#[trigger] s[m]).cable_input() is Some
                                && forall|j: int|
                                0 <= j < s.len() && j != m ==> (
                                #[trigger] s[j]).cable_input() is None;
                        assert(m != i || m != k);
                        assert(false);
                    }
                },
            }
        },
    }
}

/// A name mentions these words, whatever the case of its letters.
pub open spec fn mentions(name: Seq<char>, first: Seq<char>, second: Seq<char>) -> bool {
    text::contains(text::lower(name), first) && text::contains(text::lower(name), second)
}

proof fn lemma_mentions(name: Seq<char>, first: Seq<char>, second: Seq<char>)
    ensures
        devices::mentions_all(name, seq![first, second]) == mentions(name, first, second),
{
    let w = seq![first, second];
    assert(w[0] == first && w[1] == second);
}

/// A cable is recognised by two words in its name, on the side it belongs to, and by
/// nothing else: an output to render into by its input side, a microphone by its
/// output side.
pub proof fn a_cable_is_known_by_its_name(d: Device)
    ensures
        d.direction == DeviceDirection::Capture ==> d.cable_input() is None,
        d.direction == DeviceDirection::Render ==> d.cable_output() is None,
        d.direction == DeviceDirection::Render ==> d.cable_input() == (if mentions(
            d.friendly_name@,
            "cable input"@,
            "vb-audio"@,
        ) {
            Some("VB-Cable"@)
        } else if mentions(d.friendly_name@, "voicemeeter"@, "input"@) {
            Some("VoiceMeeter"@)
        } else if mentions(d.friendly_name@, "virtual audio cable"@, "line "@) {
            Some("Virtual Audio Cable"@)
        } else {
            None
        }),
        d.direction == DeviceDirection::Capture ==> d.cable_output() == (if mentions(
            d.friendly_name@,
            "cable output"@,
            "vb-audio"@,
        ) {
            Some("VB-Cable"@)
        } else if mentions(d.friendly_name@, "voicemeeter"@, "output"@) {
            Some("VoiceMeeter"@)
        } else if mentions(d.friendly_name@, "virtual audio cable"@, "line "@) {
            Some("Virtual Audio Cable"@)
        } else {
            None
        }),
{
    let name = d.friendly_name@;
    reveal_with_fuel(devices::cable_called, 4);
    lemma_mentions(name, "cable input"@, "vb-audio"@);
    lemma_mentions(name, "cable output"@, "vb-audio"@);
    lemma_mentions(name, "voicemeeter"@, "input"@);
    lemma_mentions(name, "voicemeeter"@, "output"@);
    lemma_mentions(name, "virtual audio cable"@, "line "@);
}

/// Where a device was named, audio goes to that device, found as a microphone is; a
/// name that is not there is said to be missing. Where none was named, it goes to the
/// one cable.
pub proof fn a_named_output_is_used(list: DeviceList, name: Seq<char>)
    ensures
        list.output(Seq::empty()) == list.cable(),
        name.len() > 0 ==> list.output(name) == (match devices::called(list.render@, name) {
            Some(d) => Ok::<Device, AudioErrorView>(d),
            None => Err(AudioErrorView::DeviceNotFound(name)),
        }),
{
}

/// Two cables, or more, are ambiguous, and said to be.
pub proof fn two_cables_are_ambiguous(list: DeviceList, i: int, j: int)
    requires
        0 <= i < j < list.render@.len(),
        list.render@[i].cable_input() is Some,
        list.render@[j].cable_input() is Some,
    ensures
        list.cable() matches Err(AudioErrorView::AmbiguousDevice(_)),
{
    let s = list.render@;
    the_cable_is_never_guessed(list);
    lemma_first_where(s, devices::by_cable_input(), 0);
    assert(devices::by_cable_input()(s[i]) && devices::by_cable_input()(s[j]));
    let k = devices::first_where(s, devices::by_cable_input(), 0)->0;
    lemma_first_where(s, devices::by_cable_input(), k + 1);
}

/// Cleaned audio never falls back to some other output: it goes to the render
/// device that was named, or, with none named, to a cable.
pub proof fn no_fallback_to_the_speakers(list: DeviceList, name: Seq<char>)
    ensures
        list.output(name) matches Ok(d) ==> list.render@.contains(d) && (if name.len() == 0 {
            d.cable_input() is Some
        } else {
            devices::same_device(d.friendly_name@, name)
        }),
{
    the_cable_is_never_guessed(list);
    a_name_resolves_to_its_hardware(list.render@, name);
}

} // verus!
