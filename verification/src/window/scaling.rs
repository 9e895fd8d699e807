//! Lengths in the ratio of a picture, computed in single precision and made
//! whole.

use vstd::prelude::*;
use crate::rounding::{single, single_of, to_single, whole_to_single};

verus! {

/// A fraction as the nearest whole number; a half is rounded up.
pub open spec fn rounded(n: int, d: int) -> int {
    (2 * n + d) / (2 * d)
}

/// The nearest whole number to a fraction in single precision, or the greatest
/// there is.
pub open spec fn whole(q: (int, int)) -> u32 {
    if rounded(q.0, q.1) > u32::MAX {
        u32::MAX
    } else {
        rounded(q.0, q.1) as u32
    }
}

/// Width by height, in single precision.
pub open spec fn aspect(size: (u32, u32)) -> (int, int) {
    single(single_of(size.0 as int), single_of(size.1 as int))
}

/// Whether `p / k` is `w / h` but for the 2^24th part of it.
pub open spec fn is_near(p: int, k: int, w: int, h: int) -> bool {
    -(w * k) <= 0x100_0000 * (p * h - w * k) <= w * k
}

/// The nearest whole number to a fraction is at most a half away.
pub proof fn lemma_rounded(n: int, d: int)
    requires
        0 <= n,
        0 < d,
    ensures
        0 <= rounded(n, d),
        -d <= 2 * (rounded(n, d) * d - n) <= d,
{
    let r = rounded(n, d);
    let m = (2 * n + d) % (2 * d);
    vstd::arithmetic::div_mod::lemma_fundamental_div_mod(2 * n + d, 2 * d);
    vstd::arithmetic::div_mod::lemma_mod_bound(2 * n + d, 2 * d);
    assert((2 * d) * r == 2 * (r * d)) by (nonlinear_arith);
    assert(0 <= r) by (nonlinear_arith)
        requires
            2 * n + d == 2 * (r * d) + m,
            m < 2 * d,
            0 <= n,
            0 < d,
    ;
}

/// A fraction in single precision, made whole: off by a half and the 2^24th
/// part of it.
pub proof fn lemma_made_whole(n: int, d: int, q: int, j: int, r: int)
    requires
        j > 0,
        d > 0,
        is_near(q, j, n, d),
        -j <= 2 * (r * j - q) <= j,
    ensures
        -(0x100_0000 * d + 2 * n) <= 0x200_0000 * (r * d - n) <= 0x100_0000 * d + 2 * n,
{
    let e = q * d - n * j;
    let h = r * j - q;
    let g = r * d - n;
    let b = 0x100_0000 * d + 2 * n;
    assert(g * j == h * d + e) by (nonlinear_arith)
        requires
            g == r * d - n,
            h == r * j - q,
            e == q * d - n * j,
    ;
    assert(-(j * d) <= 2 * (h * d) <= j * d) by (nonlinear_arith)
        requires
            -j <= 2 * h <= j,
            d > 0,
    ;
    assert(b * j == 0x100_0000 * (j * d) + 2 * (n * j)) by (nonlinear_arith)
        requires
            b == 0x100_0000 * d + 2 * n,
    ;
    assert(-b <= 0x200_0000 * g <= b) by (nonlinear_arith)
        requires
            -(b * j) <= 0x200_0000 * (g * j) <= b * j,
            j > 0,
    ;
}

/// The ratio of a picture that is at most half as long again as it is wide,
/// or as wide as it is long.
pub proof fn lemma_ratio(aw: int, ah: int, p: int, k: int)
    requires
        aw > 0,
        ah > 0,
        2 * aw <= 3 * ah,
        2 * ah <= 3 * aw,
        p > 0,
        k > 0,
        is_near(p, k, aw, ah),
    ensures
        p <= 3 * k,
        5 * k <= 8 * p,
{
    assert(aw * k > 0) by (nonlinear_arith)
        requires
            aw > 0,
            k > 0,
    ;
    assert(p <= 3 * k) by (nonlinear_arith)
        requires
            p * ah <= 2 * (aw * k),
            2 * aw <= 3 * ah,
            ah > 0,
            k > 0,
    ;
    assert(2 * (p * ah) <= 3 * (p * aw)) by (nonlinear_arith)
        requires
            2 * ah <= 3 * aw,
            p > 0,
    ;
    assert(5 * k <= 8 * p) by (nonlinear_arith)
        requires
            0xff_ffff * (aw * k) <= 0x180_0000 * (p * aw),
            aw > 0,
            p > 0,
            k > 0,
    ;
}

/// A height times the ratio, made whole, is the width that the ratio asks for,
/// but for less than a pixel.
pub proof fn lemma_width(aw: int, ah: int, p: int, k: int, s: int, q: int, j: int, w: int)
    requires
        aw > 0,
        ah > 0,
        p > 0,
        k > 0,
        j > 0,
        0 <= s,
        2 * (s * aw) <= 0x30_0000 * ah,
        is_near(p, k, aw, ah),
        is_near(q, j, s * p, k),
        -j <= 2 * (w * j - q) <= j,
    ensures
        -25 * ah <= 32 * (w * ah - s * aw) <= 25 * ah,
{
    lemma_made_whole(s * p, k, q, j, w);
    let d = p * ah - aw * k;
    let g = w * k - s * p;
    let off = w * ah - s * aw;
    let b = 0x100_0000 * k + 2 * (s * p);
    assert(k * off == k * (w * ah) - k * (s * aw)) by (nonlinear_arith)
        requires
            off == w * ah - s * aw,
    ;
    assert(ah * g == ah * (w * k) - ah * (s * p)) by (nonlinear_arith)
        requires
            g == w * k - s * p,
    ;
    assert(s * d == s * (p * ah) - s * (aw * k)) by (nonlinear_arith)
        requires
            d == p * ah - aw * k,
    ;
    assert(k * (w * ah) == ah * (w * k)) by (nonlinear_arith);
    assert(ah * (s * p) == s * (p * ah)) by (nonlinear_arith);
    assert(k * (s * aw) == s * (aw * k)) by (nonlinear_arith);
    assert(k * off == ah * g + s * d);
    assert(-(ah * b) <= 0x200_0000 * (ah * g) <= ah * b) by (nonlinear_arith)
        requires
            -b <= 0x200_0000 * g <= b,
            ah > 0,
    ;
    assert(ah * b == 0x100_0000 * (ah * k) + 2 * (s * (p * ah))) by (nonlinear_arith)
        requires
            b == 0x100_0000 * k + 2 * (s * p),
    ;
    let a = s * (aw * k);
    assert(aw * k > 0) by (nonlinear_arith)
        requires
            aw > 0,
            k > 0,
    ;
    assert(s * (p * ah) <= 2 * a) by (nonlinear_arith)
        requires
            a == s * (aw * k),
            p * ah <= 2 * (aw * k),
            s >= 0,
    ;
    assert(-a <= 0x100_0000 * (s * d) <= a) by (nonlinear_arith)
        requires
            a == s * (aw * k),
            -(aw * k) <= 0x100_0000 * d <= aw * k,
            s >= 0,
    ;
    assert(2 * a <= 0x30_0000 * (ah * k)) by (nonlinear_arith)
        requires
            a == s * (aw * k),
            2 * (s * aw) <= 0x30_0000 * ah,
            k > 0,
    ;
    assert(-25 * ah <= 32 * off <= 25 * ah) by (nonlinear_arith)
        requires
            -25 * (ah * k) <= 32 * (k * off) <= 25 * (ah * k),
            k > 0,
    ;
}

/// A width divided by the ratio, made whole, is the height that the ratio asks
/// for, but for less than a pixel.
pub proof fn lemma_height(aw: int, ah: int, p: int, k: int, s: int, q: int, j: int, h: int)
    requires
        aw > 0,
        ah > 0,
        2 * aw <= 3 * ah,
        2 * ah <= 3 * aw,
        p > 0,
        k > 0,
        j > 0,
        0 <= s <= 0x10_0000,
        is_near(p, k, aw, ah),
        is_near(q, j, s * k, p),
        -j <= 2 * (h * j - q) <= j,
        h >= 0,
    ensures
        -25 * aw <= 32 * (h * aw - s * ah) <= 25 * aw,
{
    lemma_ratio(aw, ah, p, k);
    lemma_made_whole(s * k, p, q, j, h);
    let d1 = p * ah - aw * k;
    let g = h * p - s * k;
    let off = h * aw - s * ah;
    let b = 0x100_0000 * p + 2 * (s * k);
    assert(5 * (s * k) <= 0x80_0000 * p) by (nonlinear_arith)
        requires
            5 * k <= 8 * p,
            0 <= s <= 0x10_0000,
            0 < k,
    ;
    assert(h <= 0x20_0000) by (nonlinear_arith)
        requires
            0x200_0000 * (h * p - s * k) <= 0x100_0000 * p + 2 * (s * k),
            5 * (s * k) <= 0x80_0000 * p,
            p > 0,
    ;
    assert(k * off == k * (h * aw) - k * (s * ah)) by (nonlinear_arith)
        requires
            off == h * aw - s * ah,
    ;
    assert(ah * g == ah * (h * p) - ah * (s * k)) by (nonlinear_arith)
        requires
            g == h * p - s * k,
    ;
    assert(h * d1 == h * (p * ah) - h * (aw * k)) by (nonlinear_arith)
        requires
            d1 == p * ah - aw * k,
    ;
    assert(ah * (h * p) == h * (p * ah)) by (nonlinear_arith);
    assert(ah * (s * k) == k * (s * ah)) by (nonlinear_arith);
    assert(h * (aw * k) == k * (h * aw)) by (nonlinear_arith);
    assert(k * off == ah * g - h * d1);
    let a = aw * k;
    assert(-(ah * b) <= 0x200_0000 * (ah * g) <= ah * b) by (nonlinear_arith)
        requires
            -b <= 0x200_0000 * g <= b,
            ah > 0,
    ;
    assert(ah * b == 0x100_0000 * (p * ah) + 2 * (s * (ah * k))) by (nonlinear_arith)
        requires
            b == 0x100_0000 * p + 2 * (s * k),
    ;
    assert(2 * (s * (ah * k)) <= 0x30_0000 * a) by (nonlinear_arith)
        requires
            a == aw * k,
            2 * ah <= 3 * aw,
            0 <= s <= 0x10_0000,
            k > 0,
            ah > 0,
    ;
    assert(-(0x20_0000 * a) <= 0x100_0000 * (h * d1) <= 0x20_0000 * a) by (nonlinear_arith)
        requires
            -a <= 0x100_0000 * d1 <= a,
            0 <= h <= 0x20_0000,
    ;
    assert(a > 0) by (nonlinear_arith)
        requires
            a == aw * k,
            aw > 0,
            k > 0,
    ;
    assert(-25 * aw <= 32 * off <= 25 * aw) by (nonlinear_arith)
        requires
            -25 * a <= 32 * (k * off) <= 25 * a,
            a == aw * k,
            k > 0,
    ;
}

/// Where one ratio is not above another in single precision, it is above it by
/// no more than single precision leaves out.
pub proof fn lemma_order(aw: int, ah: int, p: int, k: int, bw: int, bh: int, q: int, j: int)
    requires
        aw >= 0,
        ah > 0,
        bw >= 0,
        bh > 0,
        k > 0,
        j > 0,
        is_near(p, k, aw, ah),
        is_near(q, j, bw, bh),
        p * j <= q * k,
    ensures
        0xff_ffff * (aw * bh) <= 0x100_0001 * (bw * ah),
{
    let x = k * j;
    assert(0xff_ffff * ((aw * bh) * x) <= 0x100_0000 * ((p * j) * (ah * bh))) by (nonlinear_arith)
        requires
            0xff_ffff * (aw * k) <= 0x100_0000 * (p * ah),
            x == k * j,
            j > 0,
            bh > 0,
    ;
    assert((p * j) * (ah * bh) <= (q * k) * (ah * bh)) by (nonlinear_arith)
        requires
            p * j <= q * k,
            ah > 0,
            bh > 0,
    ;
    assert(0x100_0000 * ((q * k) * (ah * bh)) <= 0x100_0001 * ((bw * ah) * x)) by (nonlinear_arith)
        requires
            0x100_0000 * (q * bh) <= 0x100_0001 * (bw * j),
            x == k * j,
            k > 0,
            ah > 0,
    ;
    assert(x > 0) by (nonlinear_arith)
        requires
            x == k * j,
            k > 0,
            j > 0,
    ;
    assert(0xff_ffff * (aw * bh) <= 0x100_0001 * (bw * ah)) by (nonlinear_arith)
        requires
            0xff_ffff * ((aw * bh) * x) <= 0x100_0001 * ((bw * ah) * x),
            x > 0,
    ;
}

/// A length that is off by less than a pixel does not reach beyond a window
/// that is too narrow by less than a fifth of one.
pub proof fn lemma_within(l: int, side: int, a: int, asked: int)
    requires
        a > 0,
        0 <= side <= 0x10_0000,
        32 * (l * a - asked) <= 25 * a,
        0xff_ffff * asked <= 0x100_0001 * (side * a),
    ensures
        l <= side,
{
    assert(side * a <= 0x10_0000 * a) by (nonlinear_arith)
        requires
            0 <= side <= 0x10_0000,
            a > 0,
    ;
    assert(l <= side) by (nonlinear_arith)
        requires
            32 * (l * a - side * a) < 32 * a,
            a > 0,
    ;
}

/// The nearest whole number to a fraction, or the greatest there is.
pub fn made_whole(p: u128, k: u128) -> (r: u32)
    requires
        p <= 0x100_0000_0000_0000_0000_0000_0000,
        0 < k <= 0x100_0000_0000_0000_0000_0000_0000,
    ensures
        r == whole((p as int, k as int)),
{
    let r: u128 = (2 * p + k) / (2 * k);
    if r > 0xffff_ffff {
        0xffff_ffff
    } else {
        r as u32
    }
}

/// Width by height, in single precision.
pub fn aspect_of(size: (u32, u32)) -> (r: (u128, u128))
    requires
        size.1 > 0,
    ensures
        (r.0 as int, r.1 as int) == aspect(size),
        size.0 > 0 ==> r.0 > 0,
        r.0 <= 0x8_0000_0000,
        0 < r.1 <= 0x200_0000_0000_0000,
{
    to_single(whole_to_single(size.0) as u128, whole_to_single(size.1) as u128)
}

} // verus!
