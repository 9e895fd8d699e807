//! Sizes in the ratio of a screen or of the picture: the size that fills the
//! host's screen, and the one that a window is brought back to.

use vstd::prelude::*;
use crate::rounding::{
    lemma_single_above, lemma_single_below, single, single_above, single_of, to_single,
    whole_to_single,
};
use crate::window::device::Resolution;
use crate::window::scaling::{
    aspect, aspect_of, lemma_made_whole, lemma_rounded, lemma_width, made_whole, rounded, whole,
};

verus! {

/// Bits of 4/3, the narrowest ratio of a screen, as a single-precision number.
pub const MIN_ASPECT_BITS: u32 = 0x3faa_aaab;

/// Bits of 4, the widest ratio that can be asked for.
pub const MAX_ASPECT_BITS: u32 = 0x4080_0000;

/// Bits of 2.4, the widest ratio where none was asked for.
pub const DEFAULT_ASPECT_BITS: u32 = 0x4019_999a;

/// Whether single-precision bits stand for no number.
pub open spec fn is_nan(bits: u32) -> bool {
    bits % 0x8000_0000 > 0x7f80_0000
}

/// The bits of the nearest number from 4/3 to 4; what is no number stays so.
pub open spec fn limited(bits: u32) -> u32 {
    if is_nan(bits) {
        bits
    } else if bits >= 0x8000_0000 || bits < MIN_ASPECT_BITS {
        MIN_ASPECT_BITS
    } else if bits > MAX_ASPECT_BITS {
        MAX_ASPECT_BITS
    } else {
        bits
    }
}

/// Bits of the widest ratio of the screen: the one asked for, else the one
/// set, else 2.4, but no less than 4/3 and no more than 4.
pub fn fill_max_aspect(res: &Resolution, setting: Option<u32>) -> (r: u32)
    ensures
        r == limited(
            match res.max_aspect {
                Some(bits) => bits,
                None => match setting {
                    Some(bits) => bits,
                    None => DEFAULT_ASPECT_BITS,
                },
            },
        ),
{
    let bits: u32 = match res.max_aspect {
        Some(bits) => bits,
        None => match setting {
            Some(bits) => bits,
            None => DEFAULT_ASPECT_BITS,
        },
    };
    if bits % 0x8000_0000 > 0x7f80_0000 {
        bits
    } else if bits >= 0x8000_0000 || bits < MIN_ASPECT_BITS {
        MIN_ASPECT_BITS
    } else if bits > MAX_ASPECT_BITS {
        MAX_ASPECT_BITS
    } else {
        bits
    }
}

/// The number that bits from those of 4/3 to those of 4 stand for.
pub open spec fn ratio_of(bits: u32) -> (int, int) {
    if bits < 0x4000_0000 {
        (bits - 0x3f00_0000, 0x80_0000)
    } else if bits < 0x4080_0000 {
        (bits - 0x3f80_0000, 0x40_0000)
    } else {
        (4, 1)
    }
}

pub open spec fn is_below(a: (int, int), b: (int, int)) -> bool {
    a.0 * b.1 < b.0 * a.1
}

/// A ratio, but no less than 4/3 and no more than a bound.
pub open spec fn clamped(a: (int, int), max_bits: u32) -> (int, int) {
    if is_below(a, ratio_of(MIN_ASPECT_BITS)) {
        ratio_of(MIN_ASPECT_BITS)
    } else if is_below(ratio_of(max_bits), a) {
        ratio_of(max_bits)
    } else {
        a
    }
}

/// The ratio of a screen of these sides.
pub open spec fn screen_ratio(long: u32, short: u32, max_bits: u32) -> (int, int) {
    clamped(
        if short > 0 {
            aspect((long, short))
        } else {
            ratio_of(MIN_ASPECT_BITS)
        },
        max_bits,
    )
}

/// A length times a ratio, made whole.
pub open spec fn stretched(length: u32, ratio: (int, int)) -> u32 {
    whole(single(single_of(length as int) * ratio.0, ratio.1))
}

fn ratio_from(bits: u32) -> (r: (u128, u128))
    requires
        MIN_ASPECT_BITS <= bits <= MAX_ASPECT_BITS,
    ensures
        (r.0 as int, r.1 as int) == ratio_of(bits),
        0 < r.0 <= 0x100_0000,
        0 < r.1 <= 0x80_0000,
{
    if bits < 0x4000_0000 {
        ((bits - 0x3f00_0000) as u128, 0x80_0000)
    } else if bits < 0x4080_0000 {
        ((bits - 0x3f80_0000) as u128, 0x40_0000)
    } else {
        (4, 1)
    }
}

fn is_less(a: (u128, u128), b: (u128, u128)) -> (r: bool)
    requires
        a.0 <= 0x8_0000_0000,
        b.0 <= 0x8_0000_0000,
        a.1 <= 0x200_0000_0000_0000,
        b.1 <= 0x200_0000_0000_0000,
    ensures
        r == is_below((a.0 as int, a.1 as int), (b.0 as int, b.1 as int)),
{
    let (p, k) = a;
    let (q, j) = b;
    assert(p * j <= 0x8_0000_0000 * 0x200_0000_0000_0000) by (nonlinear_arith)
        requires
            p <= 0x8_0000_0000,
            j <= 0x200_0000_0000_0000,
    ;
    assert(q * k <= 0x8_0000_0000 * 0x200_0000_0000_0000) by (nonlinear_arith)
        requires
            q <= 0x8_0000_0000,
            k <= 0x200_0000_0000_0000,
    ;
    p * j < q * k
}

fn stretch(length: u32, p: u128, k: u128) -> (r: u32)
    requires
        p <= 0x8_0000_0000,
        0 < k <= 0x200_0000_0000_0000,
    ensures
        r == stretched(length, (p as int, k as int)),
{
    let s: u128 = whole_to_single(length) as u128;
    assert(s * p <= 0x2_0000_0000 * 0x8_0000_0000) by (nonlinear_arith)
        requires
            s <= 0x2_0000_0000,
            p <= 0x8_0000_0000,
    ;
    let (y, i) = to_single(s * p, k);
    made_whole(y, i)
}

/// The size, upright, that fills a screen of these sides: the short side is
/// fixed, and the long side follows the screen's ratio, within its bounds.
pub fn compute_fill_portrait(base_short: u32, long: u32, short: u32, max_bits: u32) -> (r: (u32, u32))
    requires
        MIN_ASPECT_BITS <= max_bits <= MAX_ASPECT_BITS,
    ensures
        r == (base_short, stretched(base_short, screen_ratio(long, short, max_bits))),
{
    let least = ratio_from(MIN_ASPECT_BITS);
    let most = ratio_from(max_bits);
    let raw = if short > 0 {
        aspect_of((long, short))
    } else {
        least
    };
    let (p, k) = if is_less(raw, least) {
        least
    } else if is_less(most, raw) {
        most
    } else {
        raw
    };
    (base_short, stretch(base_short, p, k))
}

/// The larger of two ratios.
pub open spec fn larger(a: (int, int), b: (int, int)) -> (int, int) {
    if is_below(a, b) {
        b
    } else {
        a
    }
}

/// The least by which the picture is made smaller: 0.15 in single precision.
pub open spec fn least_scale() -> (int, int) {
    (10066330, 0x400_0000)
}

/// By how much the picture is made larger for a window: as the direction asks
/// in which it has grown more.
pub open spec fn window_scale(app: (u32, u32), window: (u32, u32)) -> (int, int) {
    larger(
        larger(aspect((window.0, app.0)), aspect((window.1, app.1))),
        least_scale(),
    )
}

/// A length, but at least one.
pub open spec fn some_length(n: u32) -> u32 {
    if n == 0 {
        1
    } else {
        n
    }
}

/// The size of the picture's ratio that a window is brought back to. A picture
/// without a width or height is made larger without bound.
pub open spec fn locked(app: (u32, u32), window: (u32, u32)) -> (u32, u32) {
    if app.0 == 0 || app.1 == 0 {
        (
            if app.0 == 0 {
                1
            } else {
                u32::MAX
            },
            if app.1 == 0 {
                1
            } else {
                u32::MAX
            },
        )
    } else {
        let scale = window_scale(app, window);
        (some_length(stretched(app.0, scale)), some_length(stretched(app.1, scale)))
    }
}

/// The size of the picture's ratio that a window is brought back to.
pub fn locked_size(app: (u32, u32), window: (u32, u32)) -> (r: (u32, u32))
    requires
        window.0 > 0,
        window.1 > 0,
    ensures
        r == locked(app, window),
{
    if app.0 == 0 || app.1 == 0 {
        let w: u32 = if app.0 == 0 { 1 } else { u32::MAX };
        let h: u32 = if app.1 == 0 { 1 } else { u32::MAX };
        return (w, h);
    }
    let a = aspect_of((window.0, app.0));
    let b = aspect_of((window.1, app.1));
    let c = if is_less(a, b) {
        b
    } else {
        a
    };
    let least: (u128, u128) = (10066330, 0x400_0000);
    let (p, k) = if is_less(c, least) {
        least
    } else {
        c
    };
    let w: u32 = stretch(app.0, p, k);
    let h: u32 = stretch(app.1, p, k);
    (if w == 0 { 1 } else { w }, if h == 0 { 1 } else { h })
}

/// A length times a ratio that stays below 2^22 is off by three quarters of a
/// pixel at most.
proof fn lemma_stretched(length: u32, p: int, k: int)
    requires
        length < 0x100_0000,
        p >= 0,
        k > 0,
        length * p <= 0x40_0000 * k,
    ensures
        -3 * k <= 4 * (stretched(length, (p, k)) * k - length * p) <= 3 * k,
{
    let n = length * p;
    let (q, j) = single(n, k);
    let r = rounded(q, j);
    if n <= 0 {
        assert(n == 0) by (nonlinear_arith)
            requires
                n == length * p,
                length >= 0,
                p >= 0,
                n <= 0,
        ;
        lemma_rounded(0, 1);
        assert(r == 0);
        assert(0 * k == 0);
    } else {
        lemma_single_below(n, k);
        lemma_rounded(q, j);
        lemma_made_whole(n, k, q, j, r);
        assert(r <= u32::MAX) by (nonlinear_arith)
            requires
                0x200_0000 * (r * k - n) <= 0x100_0000 * k + 2 * n,
                n <= 0x40_0000 * k,
                k > 0,
        ;
    }
}

/// The long side of a size that fills a screen is at least 4/3 of the short
/// side and at most four times it, but for less than a pixel.
pub proof fn law_filling_size_is_bounded(base_short: u32, long: u32, short: u32, max_bits: u32)
    requires
        MIN_ASPECT_BITS <= max_bits <= MAX_ASPECT_BITS,
        base_short <= 0x1_0000,
    ensures
        ({
            let filled = stretched(base_short, screen_ratio(long, short, max_bits));
            4 * base_short - 3 < 3 * filled && filled <= 4 * base_short
        }),
{
    let (p, k) = screen_ratio(long, short, max_bits);
    lemma_screen_ratio(long, short, max_bits);
    let s = base_short as int;
    assert(s * p <= 4 * (s * k)) by (nonlinear_arith)
        requires
            p <= 4 * k,
            s >= 0,
    ;
    assert(4 * (s * k) <= 3 * (s * p)) by (nonlinear_arith)
        requires
            4 * k <= 3 * p,
            s >= 0,
    ;
    assert(s * k <= 0x1_0000 * k) by (nonlinear_arith)
        requires
            s <= 0x1_0000,
            k > 0,
    ;
    lemma_stretched(base_short, p, k);
    let r = stretched(base_short, (p, k)) as int;
    assert(r <= 4 * s) by (nonlinear_arith)
        requires
            4 * (r * k - s * p) <= 3 * k,
            s * p <= 4 * (s * k),
            k > 0,
    ;
    assert(4 * s - 3 < 3 * r) by (nonlinear_arith)
        requires
            -3 * k <= 4 * (r * k - s * p),
            4 * (s * k) <= 3 * (s * p),
            k > 0,
    ;
}

proof fn lemma_screen_ratio(long: u32, short: u32, max_bits: u32)
    requires
        MIN_ASPECT_BITS <= max_bits <= MAX_ASPECT_BITS,
    ensures
        ({
            let (p, k) = screen_ratio(long, short, max_bits);
            &&& k > 0
            &&& p > 0
            &&& 4 * k <= 3 * p
            &&& p <= 4 * k
        }),
{
    let (p, k) = screen_ratio(long, short, max_bits);
    if short > 0 {
        lemma_aspect((long, short));
    }
    let (a, b) = ratio_of(MIN_ASPECT_BITS);
    let (c, d) = ratio_of(max_bits);
    if (p, k) != (a, b) && (p, k) != (c, d) {
        assert(4 * k <= 3 * p) by (nonlinear_arith)
            requires
                p * b >= a * k,
                a == 11184811,
                b == 0x80_0000,
                k > 0,
        ;
        assert(p <= 4 * k) by (nonlinear_arith)
            requires
                c * k >= p * d,
                c <= 4 * d,
                d > 0,
                k > 0,
        ;
    }
}

proof fn lemma_aspect(size: (u32, u32))
    requires
        size.1 > 0,
    ensures
        aspect(size).0 >= 0,
        aspect(size).1 > 0,
        size.0 > 0 ==> aspect(size).0 > 0,
{
    let (w, h) = (single_of(size.0 as int), single_of(size.1 as int));
    lemma_single_positive(size.0 as int);
    lemma_single_positive(size.1 as int);
    if w > 0 {
        if w < 0x100_0000 * h {
            lemma_single_below(w, h);
        } else {
            lemma_single_above(w, h);
        }
    }
}

proof fn lemma_single_positive(n: int)
    requires
        n >= 0,
    ensures
        single_of(n) >= 0,
        n > 0 ==> single_of(n) > 0,
{
    if n >= 0x100_0000 {
        lemma_single_above(n, 1);
    }
}

/// Where the screen's ratio lies within the bounds, the size that fills it has
/// the same ratio, but for less than a pixel: nothing is left empty or
/// stretched.
pub proof fn law_filling_size_has_the_screens_ratio(
    base_short: u32,
    long: u32,
    short: u32,
    max_bits: u32,
)
    requires
        MIN_ASPECT_BITS <= max_bits <= MAX_ASPECT_BITS,
        base_short <= 0x1_0000,
        0 < short < 0x100_0000,
        0 < long < 0x100_0000,
        screen_ratio(long, short, max_bits) == aspect((long, short)),
    ensures
        ({
            let filled = stretched(base_short, screen_ratio(long, short, max_bits));
            -short < filled * short - base_short * long < short
        }),
{
    let (p, k) = aspect((long, short));
    let (l, m, s) = (long as int, short as int, base_short as int);
    lemma_screen_ratio(long, short, max_bits);
    let r = stretched(base_short, (p, k)) as int;
    if s == 0 {
        assert(single_of(0) * p == 0) by (nonlinear_arith)
            requires
                single_of(0) == 0,
        ;
        lemma_rounded(0, 1);
        assert(r == 0);
        assert(r * m == 0 && s * l == 0) by (nonlinear_arith)
            requires
                r == 0,
                s == 0,
        ;
    } else {
        if l >= 0x100_0000 * m {
            lemma_single_above(l, m);
            let a = single_above(l, m);
            assert(false) by (nonlinear_arith)
                requires
                    a <= 4,
                    a >= 0x7f_ffff,
            ;
        }
        lemma_single_below(l, m);
        assert(l <= 5 * m) by (nonlinear_arith)
            requires
                0xff_ffff * (l * k) <= 0x100_0000 * (p * m),
                p <= 4 * k,
                k > 0,
                m > 0,
                l > 0,
        ;
        assert(2 * (s * l) <= 0x30_0000 * m) by (nonlinear_arith)
            requires
                l <= 5 * m,
                0 <= s <= 0x1_0000,
                m > 0,
        ;
        assert(0 < s * p < 0x100_0000 * k) by (nonlinear_arith)
            requires
                0 < s <= 0x1_0000,
                0 < p <= 4 * k,
        ;
        let (q, j) = single(s * p, k);
        lemma_single_below(s * p, k);
        lemma_rounded(q, j);
        let w = rounded(q, j);
        lemma_width(l, m, p, k, s, q, j, w);
        assert(w <= u32::MAX) by (nonlinear_arith)
            requires
                32 * (w * m - s * l) <= 25 * m,
                2 * (s * l) <= 0x30_0000 * m,
                m > 0,
        ;
    }
}

/// A window that is brought back to the picture's ratio has it, but for less
/// than a pixel in either direction or, where a side would vanish, one pixel.
/// So it is for windows and pictures of up to 2^19 pixels a side, of which none
/// is more than four times as long as wide.
pub proof fn law_locked_window_keeps_the_ratio(app: (u32, u32), window: (u32, u32))
    requires
        0 < app.0 <= 0x8_0000,
        0 < app.1 <= 0x8_0000,
        app.0 <= 4 * app.1,
        app.1 <= 4 * app.0,
        0 < window.0 <= 0x8_0000,
        0 < window.1 <= 0x8_0000,
    ensures
        ({
            let s = locked(app, window);
            let off = s.0 * app.1 - s.1 * app.0;
            -(app.0 + app.1) <= off <= app.0 + app.1
        }),
{
    let (aw, ah) = (app.0 as int, app.1 as int);
    let (p, k) = window_scale(app, window);
    lemma_window_scale(app, window);
    lemma_stretched(app.0, p, k);
    lemma_stretched(app.1, p, k);
    let (w, h) = (stretched(app.0, (p, k)) as int, stretched(app.1, (p, k)) as int);
    let s = locked(app, window);
    let (x, y) = (s.0 as int, s.1 as int);
    assert(aw * p >= 0 && ah * p >= 0) by (nonlinear_arith)
        requires
            aw > 0,
            ah > 0,
            p >= 0,
    ;
    assert(w == 0 ==> w * k == 0) by (nonlinear_arith);
    assert(h == 0 ==> h * k == 0) by (nonlinear_arith);
    assert(x == 1 ==> x * k == k) by (nonlinear_arith);
    assert(y == 1 ==> y * k == k) by (nonlinear_arith);
    let d = x * k - aw * p;
    let e = y * k - ah * p;
    assert(-k <= d <= k && -k <= e <= k);
    let off = x * ah - y * aw;
    assert(k * off == k * (x * ah) - k * (y * aw)) by (nonlinear_arith)
        requires
            off == x * ah - y * aw,
    ;
    assert(ah * d == ah * (x * k) - ah * (aw * p)) by (nonlinear_arith)
        requires
            d == x * k - aw * p,
    ;
    assert(aw * e == aw * (y * k) - aw * (ah * p)) by (nonlinear_arith)
        requires
            e == y * k - ah * p,
    ;
    assert(ah * (x * k) == k * (x * ah)) by (nonlinear_arith);
    assert(aw * (y * k) == k * (y * aw)) by (nonlinear_arith);
    assert(ah * (aw * p) == aw * (ah * p)) by (nonlinear_arith);
    assert(-(ah * k) <= ah * d <= ah * k) by (nonlinear_arith)
        requires
            -k <= d <= k,
            ah > 0,
    ;
    assert(-(aw * k) <= aw * e <= aw * k) by (nonlinear_arith)
        requires
            -k <= e <= k,
            aw > 0,
    ;
    assert(-(aw + ah) <= off <= aw + ah) by (nonlinear_arith)
        requires
            -(ah * k) - aw * k <= k * off <= ah * k + aw * k,
            k > 0,
    ;
}

proof fn lemma_part(side: u32, own: u32, other: u32, p: int, k: int)
    requires
        0 < side <= 0x8_0000,
        0 < own <= 0x8_0000,
        0 < other <= 4 * own,
        (p, k) == aspect((side, own)),
    ensures
        p >= 0,
        k > 0,
        own * p <= 0x40_0000 * k,
        other * p <= 0x40_0000 * k,
{
    lemma_single_below(side as int, own as int);
    assert(own * p == p * own) by (nonlinear_arith);
    assert(side * k <= 0x8_0000 * k) by (nonlinear_arith)
        requires
            side <= 0x8_0000,
            k > 0,
    ;
    assert(own * p <= 0x10_0000 * k);
    assert(other * p <= 4 * (own * p)) by (nonlinear_arith)
        requires
            other <= 4 * own,
            p >= 0,
    ;
}

proof fn lemma_window_scale(app: (u32, u32), window: (u32, u32))
    requires
        0 < app.0 <= 0x8_0000,
        0 < app.1 <= 0x8_0000,
        app.0 <= 4 * app.1,
        app.1 <= 4 * app.0,
        0 < window.0 <= 0x8_0000,
        0 < window.1 <= 0x8_0000,
    ensures
        ({
            let (p, k) = window_scale(app, window);
            &&& p >= 0
            &&& k > 0
            &&& app.0 * p <= 0x40_0000 * k
            &&& app.1 * p <= 0x40_0000 * k
        }),
{
    let (p, k) = aspect((window.0, app.0));
    let (q, j) = aspect((window.1, app.1));
    lemma_part(window.0, app.0, app.1, p, k);
    lemma_part(window.1, app.1, app.0, q, j);
}

/// The widest ratio that was asked for counts if it lies from 4/3 to 4, and else
/// the nearer of the two does; negative ones and zero are below. What is no
/// number is left for the caller.
pub proof fn law_widest_ratio(bits: u32)
    ensures
        0x3faa_aaab <= bits <= 0x4080_0000 ==> limited(bits) == bits,
        bits < 0x3faa_aaab ==> limited(bits) == 0x3faa_aaab,
        0x4080_0000 < bits <= 0x7f80_0000 ==> limited(bits) == 0x4080_0000,
        0x8000_0000 <= bits <= 0xff80_0000 ==> limited(bits) == 0x3faa_aaab,
        0x7f80_0000 < bits < 0x8000_0000 || 0xff80_0000 < bits ==> limited(bits) == bits,
        DEFAULT_ASPECT_BITS == 0x4019_999a,
{
}

/// The bits from 4/3 to 4 stand for the number with these bits: 23 of them for
/// the fraction, and the power of two above.
pub proof fn law_ratio_of_bits(bits: u32)
    requires
        0x3faa_aaab <= bits <= 0x4080_0000,
    ensures
        ({
            let (p, k) = ratio_of(bits);
            let fraction = bits % 0x80_0000;
            let power = bits / 0x80_0000;
            &&& power == 127 ==> p * 0x80_0000 == (0x80_0000 + fraction) * k
            &&& power == 128 ==> p * 0x80_0000 == 2 * (0x80_0000 + fraction) * k
            &&& power == 129 ==> p == 4 * k
        }),
{
}

/// A window that is brought back follows the direction in which it has grown
/// more: the picture's scale is neither below what its width asks for, nor below
/// what its height does, nor below 0.15; and it is one of the three. Each side is
/// the picture's times that scale, made whole, and one at least.
pub proof fn law_window_follows_the_larger_side(app: (u32, u32), window: (u32, u32))
    requires
        app.0 > 0,
        app.1 > 0,
        window.0 > 0,
        window.1 > 0,
    ensures
        ({
            let s = window_scale(app, window);
            let across = aspect((window.0, app.0));
            let down = aspect((window.1, app.1));
            let least = (10066330int, 67108864int);
            let r = locked(app, window);
            &&& s == across || s == down || s == least
            &&& s.0 * across.1 >= across.0 * s.1
            &&& s.0 * down.1 >= down.0 * s.1
            &&& s.0 * least.1 >= least.0 * s.1
            &&& r.0 >= 1 && r.1 >= 1
            &&& r.0 == stretched(app.0, s) || (r.0 == 1 && stretched(app.0, s) == 0)
            &&& r.1 == stretched(app.1, s) || (r.1 == 1 && stretched(app.1, s) == 0)
        }),
        locked((0, 0), window) == (1u32, 1u32),
        locked((0, app.1), window) == (1u32, u32::MAX),
        locked((app.0, 0), window) == (u32::MAX, 1u32),
{
    let a = aspect((window.0, app.0));
    let b = aspect((window.1, app.1));
    let c = least_scale();
    lemma_aspect((window.0, app.0));
    lemma_aspect((window.1, app.1));
    let ab = larger(a, b);
    let s = larger(ab, c);
    assert(s.0 * ab.1 >= ab.0 * s.1) by (nonlinear_arith)
        requires
            s == ab || (s == c && ab.0 * c.1 < c.0 * ab.1),
    ;
    assert(ab.0 * a.1 >= a.0 * ab.1 && ab.0 * b.1 >= b.0 * ab.1) by (nonlinear_arith)
        requires
            ab == a && a.0 * b.1 >= b.0 * a.1 || ab == b && a.0 * b.1 < b.0 * a.1,
    ;
    assert(s.0 * c.1 >= c.0 * s.1) by (nonlinear_arith)
        requires
            s == c || (s == ab && ab.0 * c.1 >= c.0 * ab.1),
    ;
    assert(s.0 * a.1 >= a.0 * s.1) by (nonlinear_arith)
        requires
            s.0 * ab.1 >= ab.0 * s.1,
            ab.0 * a.1 >= a.0 * ab.1,
            ab.1 > 0,
            a.1 > 0,
            s.1 > 0,
    ;
    assert(s.0 * b.1 >= b.0 * s.1) by (nonlinear_arith)
        requires
            s.0 * ab.1 >= ab.0 * s.1,
            ab.0 * b.1 >= b.0 * ab.1,
            ab.1 > 0,
            b.1 > 0,
            s.1 > 0,
    ;
}

} // verus!
