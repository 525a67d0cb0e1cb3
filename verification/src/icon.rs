//! The tray icon, drawn pixel by pixel.
//!
//! A disc coloured by whether denoising is on, plus a warning badge when audio
//! is not running at all. Both matter because the icon is the only surface the
//! application has.

use vstd::prelude::*;

verus! {

/// The icon is this many pixels wide and high: the badge needs the room, and
/// scaling down is more graceful than scaling up.
pub const ICON_SIZE: usize = 32;

/// Denoising is on: blue-green.
pub const ACTIVE: [u8; 4] = [0x2a, 0xa1, 0x98, 0xff];

/// Denoising is bypassed. Orange rather than a dimmed teal: at tray size a
/// brightness difference is invisible, a hue change is not.
pub const BYPASSED: [u8; 4] = [0xd0, 0x6b, 0x18, 0xff];

/// The outline of the badge and its exclamation mark.
pub const DARK: [u8; 4] = [0x1c, 0x1c, 0x1c, 0xff];

/// The fill of the badge.
pub const AMBER: [u8; 4] = [0xf5, 0xa6, 0x23, 0xff];

/// Nothing drawn.
pub const CLEAR: [u8; 4] = [0, 0, 0, 0];

/// The distance of two columns.
pub open spec fn distance(x: int, cx: int) -> int {
    if x >= cx {
        x - cx
    } else {
        cx - x
    }
}

/// Inside a triangle that has its apex at the top and widens linearly to
/// `max_half` on either side of `cx` at `bottom`.
pub open spec fn triangle(x: int, y: int, top: int, bottom: int, cx: int, max_half: int) -> bool {
    top <= y <= bottom && distance(x, cx) * (bottom - top) <= (y - top) * max_half
}

/// Inside the disc.
pub open spec fn disc(x: int, y: int) -> bool {
    (x - 16) * (x - 16) + (y - 16) * (y - 16) <= 14 * 14
}

/// On the exclamation mark.
pub open spec fn mark(x: int, y: int) -> bool {
    22 <= x <= 23 && (20 <= y <= 25 || 27 <= y <= 28)
}

/// The colour of a pixel.
#[verifier::opaque]
pub open spec fn colour(enabled: bool, warning: bool, x: int, y: int) -> [u8; 4] {
    if warning && mark(x, y) {
        DARK
    } else if warning && triangle(x, y, 17, 29, 23, 6) {
        AMBER
    } else if warning && triangle(x, y, 14, 31, 23, 9) {
        DARK
    } else if disc(x, y) {
        if enabled {
            ACTIVE
        } else {
            BYPASSED
        }
    } else {
        CLEAR
    }
}

/// The whole icon: red, green, blue and opacity of each pixel, row by row.
pub open spec fn picture(enabled: bool, warning: bool) -> Seq<u8> {
    Seq::new(
        4096,
        |i: int| colour(enabled, warning, (i / 4) % 32, (i / 4) / 32)[i % 4],
    )
}

fn in_triangle(
    x: usize,
    y: usize,
    top: usize,
    bottom: usize,
    cx: usize,
    max_half: usize,
) -> (r: bool)
    requires
        x < 32,
        y < 32,
        top < bottom < 32,
        cx < 32,
        max_half < 32,
    ensures
        r == triangle(
            x as int,
            y as int,
            top as int,
            bottom as int,
            cx as int,
            max_half as int,
        ),
{
    if y < top || y > bottom {
        return false;
    }
    let away: usize = if x >= cx {
        x - cx
    } else {
        cx - x
    };
    let height: usize = bottom - top;
    let down: usize = y - top;
    assert(away * height <= 31 * 31) by (nonlinear_arith)
        requires
            0 <= away <= 31,
            0 <= height <= 31,
    ;
    assert(down * max_half <= 31 * 31) by (nonlinear_arith)
        requires
            0 <= down <= 31,
            0 <= max_half <= 31,
    ;
    away * height <= down * max_half
}

fn in_disc(x: usize, y: usize) -> (r: bool)
    requires
        x < 32,
        y < 32,
    ensures
        r == disc(x as int, y as int),
{
    let dx: i32 = x as i32 - 16;
    let dy: i32 = y as i32 - 16;
    assert(0 <= dx * dx <= 256) by (nonlinear_arith)
        requires
            -16 <= dx <= 16,
    ;
    assert(0 <= dy * dy <= 256) by (nonlinear_arith)
        requires
            -16 <= dy <= 16,
    ;
    dx * dx + dy * dy <= 14 * 14
}

fn colour_of(enabled: bool, warning: bool, x: usize, y: usize) -> (r: [u8; 4])
    requires
        x < 32,
        y < 32,
    ensures
        r == colour(enabled, warning, x as int, y as int),
{
    reveal(colour);
    if warning {
        // An exclamation mark, punched back out of the amber in the dark colour.
        if 22 <= x && x <= 23 && ((20 <= y && y <= 25) || (27 <= y && y <= 28)) {
            return DARK;
        }
        if in_triangle(x, y, 17, 29, 23, 6) {
            return AMBER;
        }
        if in_triangle(x, y, 14, 31, 23, 9) {
            return DARK;
        }
    }
    if in_disc(x, y) {
        if enabled {
            ACTIVE
        } else {
            BYPASSED
        }
    } else {
        CLEAR
    }
}

fn push_pixel(rgba: &mut Vec<u8>, c: [u8; 4])
    ensures
        final(rgba)@ == old(rgba)@ + c@,
{
    let ghost before = rgba@;
    rgba.push(c[0]);
    rgba.push(c[1]);
    rgba.push(c[2]);
    rgba.push(c[3]);
    assert(rgba@ =~= before + c@);
}

proof fn lemma_next_pixel(enabled: bool, warning: bool, n: int)
    requires
        0 <= n < 1024,
    ensures
        picture(enabled, warning).take(4 * n) + colour(enabled, warning, n % 32, n / 32)@
            == picture(enabled, warning).take(4 * (n + 1)),
{
    let p = picture(enabled, warning);
    let c = colour(enabled, warning, n % 32, n / 32);
    assert forall|k: int| 0 <= k < 4 implies #[trigger] p[4 * n + k] == c@[k] by {
        assert((4 * n + k) / 4 == n);
        assert((4 * n + k) % 4 == k);
    }
    let grown = p.take(4 * n) + c@;
    assert forall|i: int| 0 <= i < grown.len() implies grown[i] == p.take(4 * (n + 1))[i] by {
        if i >= 4 * n {
            assert(p[4 * n + (i - 4 * n)] == c@[i - 4 * n]);
        }
    }
    assert(grown =~= p.take(4 * (n + 1)));
}

/// The tray icon for a state: the colour says whether denoising is on, the
/// badge in the corner that audio is not running.
pub fn icon_rgba(enabled: bool, warning: bool) -> (rgba: Vec<u8>)
    ensures
        rgba@ == picture(enabled, warning),
{
    let mut rgba: Vec<u8> = Vec::new();
    for n in 0..1024usize
        invariant
            rgba@.len() == 4 * n,
            rgba@ == picture(enabled, warning).take(4 * n),
    {
        let c: [u8; 4] = colour_of(enabled, warning, n % 32, n / 32);
        push_pixel(&mut rgba, c);
        proof {
            lemma_next_pixel(enabled, warning, n as int);
        }
    }
    assert(picture(enabled, warning).take(4096) =~= picture(enabled, warning));
    rgba
}

/// On and off differ in hue, not only in brightness, wherever the disc shows,
/// and nowhere else.
pub proof fn on_and_off_differ_in_hue(warning: bool, x: int, y: int)
    ensures
        colour(true, warning, x, y) != colour(false, warning, x, y) ==> colour(
            true,
            warning,
            x,
            y,
        ) == ACTIVE && colour(false, warning, x, y) == BYPASSED,
        disc(x, y) && !warning ==> colour(true, warning, x, y) == ACTIVE && colour(
            false,
            warning,
            x,
            y,
        ) == BYPASSED,
        ACTIVE[1] > ACTIVE[0] && BYPASSED[0] > BYPASSED[1],
{
    reveal(colour);
}

/// The badge sits in the corner: left of column 14 and above row 14 the icon is
/// the one without it, so the hue of the disc stays readable.
pub proof fn the_badge_sits_in_the_corner(enabled: bool, x: int, y: int)
    requires
        x < 14 || y < 14,
    ensures
        colour(enabled, true, x, y) == colour(enabled, false, x, y),
{
    reveal(colour);
    if 14 <= y && x < 14 {
        assert(distance(x, 23) * 17 > (y - 14) * 9 || y > 31) by (nonlinear_arith)
            requires
                x < 14,
                14 <= y,
                distance(x, 23) == 23 - x,
        ;
        assert(distance(x, 23) * 12 > (y - 17) * 6 || y > 29) by (nonlinear_arith)
            requires
                x < 14,
                14 <= y,
                distance(x, 23) == 23 - x,
        ;
    }
}

/// A stopped application never looks like a working one, in either colour: the
/// badge shows at its centre, and its amber is in no icon without it.
pub proof fn the_badge_shows_in_both_colours(enabled: bool, x: int, y: int)
    ensures
        colour(enabled, true, 21, 26) == AMBER,
        colour(enabled, false, x, y) != AMBER,
{
    reveal(colour);
    assert(ACTIVE[0] != AMBER[0] && BYPASSED[0] != AMBER[0] && CLEAR[0] != AMBER[0]);
}

/// The icon is 32 by 32 pixels, row by row, each of them red, green, blue and opacity.
pub proof fn each_pixel_has_its_place(enabled: bool, warning: bool, x: int, y: int, k: int)
    requires
        0 <= x < 32,
        0 <= y < 32,
        0 <= k < 4,
    ensures
        picture(enabled, warning).len() == 32 * 32 * 4,
        picture(enabled, warning)[4 * (32 * y + x) + k] == colour(enabled, warning, x, y)[k],
{
    let i = 4 * (32 * y + x) + k;
    assert(i / 4 == 32 * y + x && i % 4 == k);
    assert((32 * y + x) % 32 == x && (32 * y + x) / 32 == y);
}

/// Without the badge the icon is a disc of radius 14 around its middle, blue-green while
/// denoising is on and orange while it is off, and nothing outside it.
pub proof fn the_disc_says_on_or_off(enabled: bool, x: int, y: int)
    ensures
        ({
            let inside = (x - 16) * (x - 16) + (y - 16) * (y - 16) <= 196;
            &&& inside && enabled ==> colour(enabled, false, x, y)@ == seq![
                0x2au8,
                0xa1,
                0x98,
                0xff,
            ]
            &&& inside && !enabled ==> colour(enabled, false, x, y)@ == seq![
                0xd0u8,
                0x6b,
                0x18,
                0xff,
            ]
            &&& !inside ==> colour(enabled, false, x, y)@ == seq![0u8, 0, 0, 0]
        }),
{
    reveal(colour);
    assert(ACTIVE@ =~= seq![0x2au8, 0xa1, 0x98, 0xff]);
    assert(BYPASSED@ =~= seq![0xd0u8, 0x6b, 0x18, 0xff]);
    assert(CLEAR@ =~= seq![0u8, 0, 0, 0]);
}

/// The badge is a dark triangle with an amber one inside it and a dark exclamation mark
/// on that, and the icon without it shows everywhere else.
pub proof fn the_badge_is_a_warning_triangle(enabled: bool, x: int, y: int)
    ensures
        ({
            let away = if x >= 23 {
                x - 23
            } else {
                23 - x
            };
            let mark = 22 <= x <= 23 && (20 <= y <= 25 || 27 <= y <= 28);
            let amber = 17 <= y <= 29 && away * 12 <= (y - 17) * 6;
            let outline = 14 <= y <= 31 && away * 17 <= (y - 14) * 9;
            let c = colour(enabled, true, x, y);
            &&& mark ==> c == DARK
            &&& !mark && amber ==> c == AMBER
            &&& !mark && !amber && outline ==> c == DARK
            &&& !mark && !amber && !outline ==> c == colour(enabled, false, x, y)
        }),
        DARK@ == seq![0x1cu8, 0x1c, 0x1c, 0xff],
        AMBER@ == seq![0xf5u8, 0xa6, 0x23, 0xff],
{
    reveal(colour);
    assert(DARK@ =~= seq![0x1cu8, 0x1c, 0x1c, 0xff]);
    assert(AMBER@ =~= seq![0xf5u8, 0xa6, 0x23, 0xff]);
}

} // verus!
