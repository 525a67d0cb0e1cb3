//! What holds of every text.

use vstd::prelude::*;

use crate::text;

verus! {

/// White space is the tabulator to the carriage return, the space, and the spaces
/// and separators beyond ASCII; no printable ASCII character is among it.
pub proof fn white_space_is_what_is_not_seen(c: char)
    ensures
        c as u32 <= 0x7f ==> text::white_space(c) == (c == ' ' || c == '\t' || c == '\n' || c == '\r'
            || c == '\u{b}' || c == '\u{c}'),
        c as u32 > 0x7f ==> text::white_space(c) == (c == '\u{85}' || c == '\u{a0}' || c
            == '\u{1680}' || ('\u{2000}' <= c && c <= '\u{200a}') || c == '\u{2028}' || c
            == '\u{2029}' || c == '\u{202f}' || c == '\u{205f}' || c == '\u{3000}'),
{
}

/// A digit is one of ten characters.
pub proof fn there_are_ten_digits(c: char)
    ensures
        text::ascii_digit(c) == ('0' <= c && c <= '9'),
{
}

proof fn lemma_small_letter(c: char)
    ensures
        'A' <= c && c <= 'Z' ==> text::ascii_lower(c) as u32 - 'a' as u32 == c as u32 - 'A' as u32,
        !('A' <= c && c <= 'Z') ==> text::ascii_lower(c) == c,
{
}

/// Lowering replaces each ASCII capital by the small letter of the same place in the
/// alphabet, and leaves every other character, and the length, alone. So texts that
/// differ in the case of ASCII letters only come out the same.
pub proof fn lowering_touches_capitals_only(s: Seq<char>, t: Seq<char>, i: int)
    requires
        0 <= i < s.len(),
    ensures
        text::lower(s).len() == s.len(),
        'A' <= s[i] && s[i] <= 'Z' ==> text::lower(s)[i] as u32 - 'a' as u32 == s[i] as u32
            - 'A' as u32,
        !('A' <= s[i] && s[i] <= 'Z') ==> text::lower(s)[i] == s[i],
        text::lower(text::lower(s)) == text::lower(s),
        text::lower(s + t) == text::lower(s) + text::lower(t),
{
    lemma_small_letter(s[i]);
    assert(text::lower(text::lower(s)) =~= text::lower(s));
    assert(text::lower(s + t) =~= text::lower(s) + text::lower(t));
}

/// A text contains another exactly when it is that one with something before it and
/// something after it, either of which may be nothing.
pub proof fn containing_is_being_a_piece(s: Seq<char>, p: Seq<char>)
    ensures
        text::contains(s, p) == (exists|a: Seq<char>, b: Seq<char>| s == #[trigger] (a + p + b)),
{
    if text::contains(s, p) {
        let i = choose|i: int| text::stands_at(s, p, i);
        let a = s.take(i);
        let b = s.skip(i + p.len());
        assert(s =~= a + p + b) by {
            assert forall|k: int| 0 <= k < s.len() implies s[k] == (a + p + b)[k] by {
                if i <= k < i + p.len() {
                    assert(s.subrange(i, i + p.len())[k - i] == p[k - i]);
                }
            }
        }
    }
    if exists|a: Seq<char>, b: Seq<char>| s == #[trigger] (a + p + b) {
        let (a, b) = choose|a: Seq<char>, b: Seq<char>| s == #[trigger] (a + p + b);
        assert(s.subrange(a.len() as int, (a.len() + p.len()) as int) =~= p);
        assert(text::stands_at(s, p, a.len() as int));
    }
}

pub open spec fn blank(s: Seq<char>) -> bool {
    forall|i: int| 0 <= i < s.len() ==> text::white_space(#[trigger] s[i])
}

/// `s` neither begins nor ends with white space.
pub open spec fn tight(s: Seq<char>) -> bool {
    s.len() > 0 ==> !text::white_space(s[0]) && !text::white_space(s[s.len() - 1])
}

pub proof fn lemma_trim_start(a: Seq<char>, rest: Seq<char>)
    requires
        blank(a),
        rest.len() > 0 ==> !text::white_space(rest[0]),
    ensures
        text::trim_start(a + rest) == rest,
    decreases a.len(),
{
    let s = a + rest;
    if a.len() > 0 {
        assert(s[0] == a[0]);
        assert(s.skip(1) =~= a.skip(1) + rest);
        assert(blank(a.skip(1)));
        lemma_trim_start(a.skip(1), rest);
    } else {
        assert(s =~= rest);
    }
}

pub proof fn lemma_trim_end(rest: Seq<char>, b: Seq<char>)
    requires
        blank(b),
        rest.len() > 0 ==> !text::white_space(rest[rest.len() - 1]),
    ensures
        text::trim_end(rest + b) == rest,
    decreases b.len(),
{
    let s = rest + b;
    if b.len() > 0 {
        assert(s.last() == b[b.len() - 1]);
        assert(s.drop_last() =~= rest + b.drop_last());
        assert forall|i: int| 0 <= i < b.drop_last().len() implies text::white_space(
            #[trigger] b.drop_last()[i],
        ) by {
            assert(b.drop_last()[i] == b[i]);
        }
        lemma_trim_end(rest, b.drop_last());
    } else {
        assert(s =~= rest);
    }
}

/// Trimming cuts the white space at either end and nothing else.
pub proof fn trimming_cuts_white_space_only(a: Seq<char>, core: Seq<char>, b: Seq<char>)
    requires
        blank(a),
        tight(core),
        blank(b),
    ensures
        text::trim(a + core + b) == core,
{
    if core.len() > 0 {
        assert(a + core + b =~= a + (core + b));
        assert((core + b)[0] == core[0]);
        lemma_trim_start(a, core + b);
    } else {
        let all = a + core + b;
        assert(blank(all)) by {
            assert forall|i: int| 0 <= i < all.len() implies text::white_space(#[trigger] all[i]) by {
                if i < a.len() {
                    assert(all[i] == a[i]);
                } else {
                    assert(all[i] == b[i - a.len()]);
                }
            }
        }
        assert(all =~= all + Seq::<char>::empty());
        lemma_trim_start(all, Seq::empty());
        assert(Seq::<char>::empty() =~= core);
        assert(core + Seq::<char>::empty() =~= core);
        lemma_trim_end(core, Seq::empty());
    }
    if core.len() > 0 {
        lemma_trim_end(core, b);
    }
}

/// What a hexadecimal digit is worth.
pub open spec fn worth(c: char) -> int {
    if c <= '9' {
        c as u32 - '0' as u32
    } else {
        c as u32 - 'A' as u32 + 10
    }
}

/// The number that digits stand for, read from the left.
pub open spec fn read(s: Seq<char>, base: int) -> int
    decreases s.len(),
{
    if s.len() == 0 {
        0
    } else {
        read(s.drop_last(), base) * base + worth(s.last())
    }
}

/// A number written in decimal reads as that number, is made of digits, and has no
/// leading zero.
pub proof fn a_decimal_reads_as_its_number(n: nat)
    ensures
        read(text::decimal(n), 10) == n,
        text::decimal(n).len() > 0,
        forall|i: int|
            0 <= i < text::decimal(n).len() ==> '0' <= #[trigger] text::decimal(n)[i]
                && text::decimal(n)[i] <= '9',
        text::decimal(n)[0] == '0' ==> n == 0,
    decreases n,
{
    let s = text::decimal(n);
    reveal_with_fuel(read, 2);
    if n < 10 {
        assert(s.drop_last() =~= Seq::empty());
    } else {
        a_decimal_reads_as_its_number(n / 10);
        let front = text::decimal(n / 10);
        assert(s.drop_last() =~= front);
        assert forall|i: int| 0 <= i < s.len() implies '0' <= #[trigger] s[i] && s[i] <= '9' by {
            if i < front.len() {
                assert(s[i] == front[i]);
            }
        }
        assert(s[0] == front[0]);
    }
}

/// A code is written in eight hexadecimal digits, which read as that code.
pub proof fn a_code_reads_as_itself(code: u32)
    ensures
        text::hex8(code).len() == 8,
        read(text::hex8(code), 16) == code,
{
    let s = text::hex8(code);
    let n = code as int;
    assert(read(s.take(0), 16) == 0);
    assert forall|i: int| 0 <= i < 8 implies #[trigger] read(s.take(i + 1), 16) == read(
        s.take(i),
        16,
    ) * 16 + worth(s[i]) by {
        assert(s.take(i + 1).drop_last() =~= s.take(i));
        assert(s.take(i + 1).last() == s[i]);
    }
    assert(read(s.take(0int + 1), 16) == n / 0x1000_0000);
    assert(read(s.take(1int + 1), 16) == n / 0x100_0000);
    assert(read(s.take(2int + 1), 16) == n / 0x10_0000);
    assert(read(s.take(3int + 1), 16) == n / 0x1_0000);
    assert(read(s.take(4int + 1), 16) == n / 0x1000);
    assert(read(s.take(5int + 1), 16) == n / 0x100);
    assert(read(s.take(6int + 1), 16) == n / 0x10);
    assert(read(s.take(7int + 1), 16) == n);
    assert(s.take(8) =~= s);
}

/// Joined texts stand one after the other in order, with the separator between each
/// two and nowhere else.
pub proof fn joining_puts_the_separator_between(
    list: Seq<Seq<char>>,
    more: Seq<Seq<char>>,
    separator: Seq<char>,
    one: Seq<char>,
)
    ensures
        text::join(Seq::empty(), separator) == Seq::<char>::empty(),
        text::join(seq![one], separator) == one,
        list.len() > 0 && more.len() > 0 ==> text::join(list + more, separator) == text::join(
            list,
            separator,
        ) + separator + text::join(more, separator),
    decreases more.len(),
{
    if list.len() > 0 && more.len() > 0 {
        let both = list + more;
        assert(both.last() == more.last());
        assert(both.drop_last() =~= list + more.drop_last());
        if more.len() > 1 {
            joining_puts_the_separator_between(list, more.drop_last(), separator, one);
            assert(text::join(both, separator) =~= text::join(list, separator) + separator
                + text::join(more, separator));
        } else {
            assert(both.drop_last() =~= list);
            assert(more.last() == more[0]);
        }
    }
}

/// Every text that is joined stands in the result.
pub proof fn every_joined_text_is_there(list: Seq<Seq<char>>, separator: Seq<char>, k: int)
    requires
        0 <= k < list.len(),
    ensures
        text::contains(text::join(list, separator), list[k]),
    decreases list.len(),
{
    let all = text::join(list, separator);
    if list.len() == 1 {
        assert(all.subrange(0, all.len() as int) =~= list[k]);
        assert(text::stands_at(all, list[k], 0));
    } else {
        let front = text::join(list.drop_last(), separator);
        if k < list.len() - 1 {
            assert(list.drop_last()[k] == list[k]);
            every_joined_text_is_there(list.drop_last(), separator, k);
            let at = choose|at: int| text::stands_at(front, list[k], at);
            assert(all.subrange(at, at + list[k].len()) =~= front.subrange(
                at,
                at + list[k].len(),
            ));
            assert(text::stands_at(all, list[k], at));
        } else {
            let at = (front.len() + separator.len()) as int;
            assert(all.subrange(at, at + list[k].len()) =~= list[k]);
            assert(text::stands_at(all, list[k], at));
        }
    }
}

} // verus!
