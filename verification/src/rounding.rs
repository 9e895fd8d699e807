//! Rounding to the numbers that a given count of significant bits can hold, in
//! whole numbers: 24 bits for a number of single precision, 53 for one of
//! double precision. A number is held as a fraction; where two numbers are
//! equally near, the even one is taken.

use vstd::prelude::*;

verus! {

/// The nearest whole number to `n / d`; of two, the even one.
pub open spec fn half_even(n: int, d: int) -> int {
    let f = n / d;
    let r = n % d;
    if 2 * r < d || (2 * r == d && f % 2 == 0) {
        f
    } else {
        f + 1
    }
}

/// `n / d` with 24 significant bits, where it is 2^23 or more: a whole number.
pub open spec fn single_above(n: int, d: int) -> int
    decreases
            if n > d {
                n - d
            } else {
                0
            },
{
    if d <= 0 || n < 0x100_0000 * d {
        half_even(n, d)
    } else {
        2 * single_above(n, 2 * d)
    }
}

/// `n / d` with 24 significant bits, where it is below 2^24 and above zero.
pub open spec fn single_below(n: int, d: int) -> (int, int)
    decreases 0x100_0000 * d - n,
{
    if n <= 0 || n >= 0x80_0000 * d {
        (half_even(n, d), 1)
    } else {
        let (p, k) = single_below(2 * n, d);
        (p, 2 * k)
    }
}

/// `n / d` in single precision.
pub open spec fn single(n: int, d: int) -> (int, int) {
    if n <= 0 {
        (0, 1)
    } else if n < 0x100_0000 * d {
        single_below(n, d)
    } else {
        (single_above(n, d), 1)
    }
}

/// A whole number in single precision.
pub open spec fn single_of(n: int) -> int {
    if n < 0x100_0000 {
        n
    } else {
        single_above(n, 1)
    }
}

/// `n / d` with 53 significant bits, where it is 2^52 or more: a whole number.
pub open spec fn double_above(n: int, d: int) -> int
    decreases
            if n > d {
                n - d
            } else {
                0
            },
{
    if d <= 0 || n < 0x20_0000_0000_0000 * d {
        half_even(n, d)
    } else {
        2 * double_above(n, 2 * d)
    }
}

/// A whole number in double precision.
pub open spec fn double_of(n: int) -> int {
    if n <= -0x20_0000_0000_0000 {
        -double_above(-n, 1)
    } else if n < 0x20_0000_0000_0000 {
        n
    } else {
        double_above(n, 1)
    }
}

/// The nearest whole number is at most a half away.
pub proof fn lemma_half_even(n: int, d: int)
    requires
        d > 0,
    ensures
        -d <= 2 * (half_even(n, d) * d - n) <= d,
{
    let f = n / d;
    let h = half_even(n, d);
    vstd::arithmetic::div_mod::lemma_fundamental_div_mod(n, d);
    vstd::arithmetic::div_mod::lemma_mod_bound(n, d);
    assert(d * f == f * d) by (nonlinear_arith);
    assert((f + 1) * d == f * d + d) by (nonlinear_arith);
}

proof fn lemma_above(h: int, n: int, d: int)
    requires
        d > 0,
        n >= 0x80_0000 * d,
        -d <= 2 * (h * d - n) <= d,
    ensures
        h >= 0x7f_ffff,
{
    assert(h >= 0x7f_ffff) by (nonlinear_arith)
        requires
            d > 0,
            n >= 0x80_0000 * d,
            -d <= 2 * (h * d - n),
    ;
}

/// A number from 2^23 on stays about as large, and at most doubles.
pub proof fn lemma_single_above(n: int, d: int)
    requires
        d > 0,
        n >= 0x80_0000 * d,
    ensures
        single_above(n, d) >= 0x7f_ffff,
        single_above(n, d) * d <= 2 * n,
    decreases
            if n > d {
                n - d
            } else {
                0
            },
{
    if n < 0x100_0000 * d {
        lemma_half_even(n, d);
        lemma_above(half_even(n, d), n, d);
    } else {
        lemma_single_above(n, 2 * d);
        let r = single_above(n, 2 * d);
        assert((2 * r) * d == r * (2 * d)) by (nonlinear_arith);
    }
}

/// A whole number of 32 bits in single precision is off by at most 128.
pub proof fn lemma_single_of(n: int)
    requires
        0 <= n < 0x1_0000_0000,
    ensures
        single_of(n) <= 0x1_0000_0000,
        -128 <= single_of(n) - n <= 128,
{
    reveal_with_fuel(single_above, 10);
}

proof fn lemma_double_above(n: int, d: int)
    requires
        d > 0,
        n >= 0x10_0000_0000_0000 * d,
    ensures
        double_above(n, d) >= 0x10_0000_0000_0000,
        -n <= 0x20_0000_0000_0000 * (double_above(n, d) * d - n) <= n,
    decreases
            if n > d {
                n - d
            } else {
                0
            },
{
    if n < 0x20_0000_0000_0000 * d {
        lemma_half_even(n, d);
        lemma_half_even_order(0x10_0000_0000_0000 * d, n, d);
        lemma_half_even_exact(0x10_0000_0000_0000, d);
    } else {
        lemma_double_above(n, 2 * d);
        let r = double_above(n, 2 * d);
        assert((2 * r) * d == r * (2 * d)) by (nonlinear_arith);
    }
}

proof fn lemma_half_even_exact(m: int, d: int)
    requires
        d > 0,
    ensures
        half_even(m * d, d) == m,
{
    vstd::arithmetic::div_mod::lemma_div_multiples_vanish(m, d);
    vstd::arithmetic::div_mod::lemma_mod_multiples_basic(m, d);
    assert(m * d == d * m) by (nonlinear_arith);
}

proof fn lemma_half_even_order(x: int, y: int, d: int)
    requires
        d > 0,
        x <= y,
    ensures
        half_even(x, d) <= half_even(y, d),
{
    lemma_half_even(x, d);
    lemma_half_even(y, d);
    let (g, h) = (half_even(x, d), half_even(y, d));
    if g > h && x < y {
        assert(g * d >= h * d + d) by (nonlinear_arith)
            requires
                g >= h + 1,
                d > 0,
        ;
    }
}

proof fn lemma_double_above_order(x: int, y: int, d: int)
    requires
        d > 0,
        0x10_0000_0000_0000 * d <= x <= y,
    ensures
        double_above(x, d) <= double_above(y, d),
    decreases
            if y > d {
                y - d
            } else {
                0
            },
{
    if y < 0x20_0000_0000_0000 * d {
        lemma_half_even_order(x, y, d);
    } else if x < 0x20_0000_0000_0000 * d {
        lemma_half_even_order(x, 0x20_0000_0000_0000 * d, d);
        lemma_half_even_exact(0x20_0000_0000_0000, d);
        lemma_double_above(y, 2 * d);
    } else {
        lemma_double_above_order(x, y, 2 * d);
    }
}

/// Double precision keeps the order of whole numbers.
pub proof fn lemma_double_order(x: int, y: int)
    requires
        x <= y,
    ensures
        double_of(x) <= double_of(y),
{
    let top: int = 0x20_0000_0000_0000;
    if y >= top {
        lemma_double_above_order(top, y, 1);
        lemma_double_above(y, 2);
        if x >= top {
            lemma_double_above_order(x, y, 1);
        }
    }
    if x <= -top {
        lemma_double_above(-x, 2);
        if y <= -top {
            lemma_double_above_order(-y, -x, 1);
        }
    }
}

/// A whole number in double precision is off by at most the 2^53rd part of it.
pub proof fn lemma_double_of(n: int)
    ensures
        0x20_0000_0000_0000 * (double_of(n) - n) <= n || 0x20_0000_0000_0000 * (double_of(n) - n)
            <= -n,
        0x20_0000_0000_0000 * (double_of(n) - n) >= n || 0x20_0000_0000_0000 * (double_of(n) - n)
            >= -n,
{
    if n >= 0x20_0000_0000_0000 {
        lemma_double_above(n, 1);
    } else if n <= -0x20_0000_0000_0000 {
        lemma_double_above(-n, 1);
    }
}

/// 2^32 times a number of up to 33 bits is kept by double precision.
pub proof fn lemma_double_whole(m: int)
    requires
        -0x2_0000_0000 < m < 0x2_0000_0000,
    ensures
        double_of(m * 0x1_0000_0000) == m * 0x1_0000_0000,
{
    reveal_with_fuel(double_above, 14);
}

/// A number below 2^24 is off by at most the 2^24th part of it.
pub proof fn lemma_single_below(n: int, d: int)
    requires
        d > 0,
        0 < n < 0x100_0000 * d,
    ensures
        ({
            let (p, k) = single_below(n, d);
            &&& 0 < p <= 0x100_0000
            &&& 0 < k <= 0x100_0000 * d
            &&& k == 1 || k * n <= 0x100_0000 * d
            &&& -(n * k) <= 0x100_0000 * (p * d - n * k) <= n * k
        }),
    decreases 0x100_0000 * d - n,
{
    let (p, k) = single_below(n, d);
    if n >= 0x80_0000 * d {
        lemma_half_even(n, d);
        lemma_above(p, n, d);
        assert(p <= 0x100_0000) by (nonlinear_arith)
            requires
                2 * (p * d - n) <= d,
                n < 0x100_0000 * d,
                d > 0,
        ;
    } else {
        lemma_single_below(2 * n, d);
        let (q, j) = single_below(2 * n, d);
        assert(p == q && k == 2 * j);
        assert(k * n == j * (2 * n) && n * k == (2 * n) * j) by (nonlinear_arith)
            requires
                k == 2 * j,
        ;
        if j == 1 {
            assert(j * (2 * n) == 2 * n);
        }
        assert(k <= k * n) by (nonlinear_arith)
            requires
                k > 0,
                n > 0,
        ;
    }
}

fn half_even_of(n: u128, d: u128) -> (r: u128)
    requires
        0 < d <= 0x1000_0000_0000_0000_0000_0000_0000_0000,
    ensures
        r == half_even(n as int, d as int),
{
    let f: u128 = n / d;
    let r: u128 = n % d;
    if 2 * r < d || (2 * r == d && f % 2 == 0) {
        f
    } else {
        assert(f < u128::MAX) by {
            if d == 1 {
                assert(n % 1 == 0);
            } else {
                assert(f <= n / 2) by (nonlinear_arith)
                    requires
                        f == n / d,
                        d >= 2,
                ;
            }
        }
        f + 1
    }
}

fn single_above_of(n: u128, d: u128) -> (r: u128)
    requires
        0 < d,
        0x80_0000 * d <= n <= 0x1000_0000_0000_0000_0000_0000_0000_0000,
    ensures
        r == single_above(n as int, d as int),
    decreases
            if n > d {
                n - d
            } else {
                0
            },
{
    if n < 0x100_0000 * d {
        half_even_of(n, d)
    } else {
        let r: u128 = single_above_of(n, 2 * d);
        proof {
            lemma_single_above(n as int, 2 * d as int);
            assert(2 * r <= r * (2 * d)) by (nonlinear_arith)
                requires
                    r >= 0,
                    d > 0,
            ;
        }
        2 * r
    }
}

fn single_below_of(n: u128, d: u128) -> (r: (u128, u128))
    requires
        0 < d <= 0x10_0000_0000_0000_0000_0000_0000,
        0 < n < 0x100_0000 * d,
    ensures
        (r.0 as int, r.1 as int) == single_below(n as int, d as int),
    decreases 0x100_0000 * d - n,
{
    if n >= 0x80_0000 * d {
        (half_even_of(n, d), 1)
    } else {
        let (p, k) = single_below_of(2 * n, d);
        proof {
            lemma_single_below(n as int, d as int);
        }
        (p, 2 * k)
    }
}

/// `n / d` in single precision.
pub fn to_single(n: u128, d: u128) -> (r: (u128, u128))
    requires
        n <= 0x10_0000_0000_0000_0000_0000_0000,
        0 < d <= 0x10_0000_0000_0000_0000_0000_0000,
    ensures
        (r.0 as int, r.1 as int) == single(n as int, d as int),
        n > 0 ==> r.0 > 0,
        r.0 <= 0x100_0000 + 2 * n,
        0 < r.1 <= 0x100_0000 * d,
{
    if n == 0 {
        (0, 1)
    } else if n < 0x100_0000 * d {
        proof {
            lemma_single_below(n as int, d as int);
        }
        single_below_of(n, d)
    } else {
        let p: u128 = single_above_of(n, d);
        proof {
            lemma_single_above(n as int, d as int);
            assert(p <= p * d) by (nonlinear_arith)
                requires
                    p >= 0,
                    d > 0,
            ;
        }
        (p, 1)
    }
}

/// A whole number in single precision.
pub fn whole_to_single(n: u32) -> (r: u64)
    ensures
        r == single_of(n as int),
        r <= 0x1_0000_0000,
        n > 0 ==> r > 0,
{
    if n < 0x100_0000 {
        n as u64
    } else {
        proof {
            lemma_single_above(n as int, 1);
            lemma_single_of(n as int);
        }
        single_above_of(n as u128, 1) as u64
    }
}

fn double_above_of(n: u128, d: u128) -> (r: u128)
    requires
        0 < d,
        0x10_0000_0000_0000 * d <= n <= 0x1000_0000_0000_0000_0000_0000_0000_0000,
    ensures
        r == double_above(n as int, d as int),
    decreases
            if n > d {
                n - d
            } else {
                0
            },
{
    if n < 0x20_0000_0000_0000 * d {
        half_even_of(n, d)
    } else {
        let r: u128 = double_above_of(n, 2 * d);
        proof {
            lemma_double_above(n as int, 2 * d as int);
            assert(2 * r <= r * (2 * d)) by (nonlinear_arith)
                requires
                    r >= 0,
                    d > 0,
            ;
        }
        2 * r
    }
}

/// A whole number in double precision.
pub fn whole_to_double(n: i128) -> (r: i128)
    requires
        -0x1000_0000_0000_0000_0000_0000_0000_0000 < n < 0x1000_0000_0000_0000_0000_0000_0000_0000,
    ensures
        r == double_of(n as int),
{
    if n <= -0x20_0000_0000_0000 {
        proof {
            lemma_double_above(-n as int, 1);
        }
        let m: u128 = double_above_of((-n) as u128, 1);
        -(m as i128)
    } else if n < 0x20_0000_0000_0000 {
        n
    } else {
        proof {
            lemma_double_above(n as int, 1);
        }
        double_above_of(n as u128, 1) as i128
    }
}

/// Rounding is to the nearest, and of two to the even one: whole numbers stay,
/// less than a half goes down, more goes up, and a half goes to the even side.
pub proof fn law_rounding(q: int, r: int, d: int)
    requires
        d > 0,
        0 <= r < d,
    ensures
        2 * r < d ==> half_even(q * d + r, d) == q,
        2 * r > d ==> half_even(q * d + r, d) == q + 1,
        2 * r == d && q % 2 == 0 ==> half_even(q * d + r, d) == q,
        2 * r == d && q % 2 != 0 ==> half_even(q * d + r, d) == q + 1,
{
    vstd::arithmetic::div_mod::lemma_fundamental_div_mod_converse(q * d + r, d, q, r);
}

/// Whole numbers of up to 24 bits are numbers of single precision, and those of
/// up to 53 bits, with either sign, of double precision; from there on, every
/// second, fourth and so on is.
pub proof fn law_precision(n: int)
    ensures
        0 <= n < 0x100_0000 ==> single_of(n) == n,
        0x100_0000 <= n < 0x200_0000 && n % 2 == 0 ==> single_of(n) == n,
        -0x20_0000_0000_0000 < n < 0x20_0000_0000_0000 ==> double_of(n) == n,
        0x20_0000_0000_0000 <= n < 0x40_0000_0000_0000 && n % 2 == 0 ==> double_of(n) == n,
        double_of(-n) == -double_of(n),
{
    reveal_with_fuel(single_above, 2);
    reveal_with_fuel(double_above, 2);
}

} // verus!
