//! Points in time counted from 2001-01-01, the clock the game keeps, and the
//! repair of time stamps that were written with the 1970 clock by mistake.

use vstd::prelude::*;
use crate::rounding::{
    double_of, lemma_double_of, lemma_double_order, lemma_double_whole, whole_to_double,
};

verus! {

/// Seconds between the 1970 and the 2001 epoch.
pub const EPOCH_GAP: i64 = 978307200;

/// A stamp this far in the future is taken for one on the 1970 clock.
pub const RESIDUE_MIN_LEAD: i64 = 489153600;

/// The quest code's marker for "no time"; never repaired.
pub const TIME_SENTINEL: i64 = 4294967295;

/// Clock readings are expected within this many seconds of the 2001 epoch.
pub const CLOCK_BOUND: i64 = 0x4000_0000_0000_0000;

/// A moment: whole seconds since 2001-01-01 and a fraction in units of 2^-32 s.
#[derive(Clone, Copy, Debug, PartialEq, Eq, Structural)]
pub struct CfTime {
    pub secs: i64,
    pub frac: u32,
}

impl CfTime {
    /// The moment in units of 2^-32 seconds.
    pub open spec fn ticks(self) -> int {
        self.secs * 0x1_0000_0000 + self.frac
    }

    /// The same fraction of a second, `n` seconds later.
    pub open spec fn shifted(self, n: int) -> CfTime {
        CfTime { secs: (self.secs + n) as i64, frac: self.frac }
    }

    /// Whether a reading of the clock is in the range the repair works on.
    pub open spec fn is_reading(self) -> bool {
        -CLOCK_BOUND <= self.secs <= CLOCK_BOUND
    }

    /// A whole number of seconds.
    pub fn whole(secs: i64) -> (t: CfTime)
        ensures
            t == (CfTime { secs, frac: 0 }),
    {
        CfTime { secs, frac: 0 }
    }

    /// Whether the moment is not after the epoch.
    pub fn not_positive(self) -> (r: bool)
        ensures
            r == (self.ticks() <= 0),
    {
        self.secs < 0 || (self.secs == 0 && self.frac == 0)
    }
}

/// The moment so many units of 2^-32 seconds after 2001-01-01.
pub open spec fn moment(ticks: int) -> CfTime {
    CfTime { secs: (ticks / 0x1_0000_0000) as i64, frac: (ticks % 0x1_0000_0000) as u32 }
}

/// The latest stamp that is not taken for one on the 1970 clock at `now`: half
/// an epoch gap ahead, in double precision as stamps are.
pub open spec fn residue_floor(now: CfTime) -> int {
    double_of(now.ticks() + RESIDUE_MIN_LEAD * 0x1_0000_0000)
}

/// Whether `v`, read at `now`, is a stamp of the 1970 clock: more than half an
/// epoch gap ahead, and before the sentinel.
pub open spec fn is_residue(v: CfTime, now: CfTime) -> bool {
    &&& v.ticks() > residue_floor(now)
    &&& v.ticks() < TIME_SENTINEL * 0x1_0000_0000
}

/// A stamp of the 1970 clock on the 2001 clock, in double precision.
pub open spec fn recounted(v: CfTime) -> CfTime {
    moment(double_of(v.ticks() - EPOCH_GAP * 0x1_0000_0000))
}

/// What a stamp read at `now` should be.
pub open spec fn repaired(v: CfTime, now: CfTime) -> CfTime {
    if is_residue(v, now) {
        recounted(v)
    } else {
        v
    }
}

fn ticks_of(t: CfTime) -> (r: i128)
    ensures
        r == t.ticks(),
{
    t.secs as i128 * 0x1_0000_0000 + t.frac as i128
}

fn moment_of(ticks: i128) -> (r: CfTime)
    requires
        i64::MIN * 0x1_0000_0000 <= ticks <= i64::MAX * 0x1_0000_0000,
    ensures
        r == moment(ticks as int),
        r.ticks() == ticks,
{
    let up: u128 = (ticks + 0x8000_0000_0000_0000_0000_0000) as u128;
    let secs: i128 = (up / 0x1_0000_0000) as i128 - 0x8000_0000_0000_0000;
    CfTime { secs: secs as i64, frac: (up % 0x1_0000_0000) as u32 }
}

/// The stamp moved to the 2001 clock if it is a residue of the 1970 clock.
pub fn cf_fix_residue(v: CfTime, now: CfTime) -> (r: Option<CfTime>)
    requires
        now.is_reading(),
    ensures
        r == (if is_residue(v, now) { Some(recounted(v)) } else { None::<CfTime> }),
{
    let floor: i128 = whole_to_double(ticks_of(now) + RESIDUE_MIN_LEAD as i128 * 0x1_0000_0000);
    let ticks: i128 = ticks_of(v);
    if ticks > floor && ticks < TIME_SENTINEL as i128 * 0x1_0000_0000 {
        let there: i128 = ticks - EPOCH_GAP as i128 * 0x1_0000_0000;
        proof {
            lemma_double_of(now.ticks() + RESIDUE_MIN_LEAD * 0x1_0000_0000);
            lemma_double_of(there as int);
        }
        Some(moment_of(whole_to_double(there)))
    } else {
        None
    }
}

/// A whole number of seconds, of 33 bits, is recounted exactly.
proof fn lemma_recounted_whole(v: CfTime)
    requires
        v.frac == 0,
        -0x8000_0000 <= v.secs < 0x1_0000_0000,
    ensures
        recounted(v) == (CfTime { secs: (v.secs - EPOCH_GAP) as i64, frac: 0 }),
{
    lemma_double_whole(v.secs - EPOCH_GAP);
}

/// What a stamp held as whole unsigned seconds should be; a moment before the
/// epoch is stored as 0.
pub open spec fn repaired_u32(v: u32, now: CfTime) -> u32 {
    if is_residue(CfTime { secs: v as i64, frac: 0 }, now) {
        if v >= EPOCH_GAP { (v - EPOCH_GAP) as u32 } else { 0 }
    } else {
        v
    }
}

/// [`cf_fix_residue`] for a stamp held as whole unsigned seconds.
pub fn fix_residue_u32(v: u32, now: CfTime) -> (r: u32)
    requires
        now.is_reading(),
    ensures
        r == repaired_u32(v, now),
{
    proof {
        lemma_recounted_whole(CfTime { secs: v as i64, frac: 0 });
        lemma_double_of(now.ticks() + RESIDUE_MIN_LEAD * 0x1_0000_0000);
    }
    match cf_fix_residue(CfTime::whole(v as i64), now) {
        Some(t) => if t.secs < 0 { 0 } else { t.secs as u32 },
        None => v,
    }
}

/// What a stamp held as whole signed seconds should be; a moment before all
/// that can be held is stored as the first one.
pub open spec fn repaired_i32(v: i32, now: CfTime) -> i32 {
    if is_residue(CfTime { secs: v as i64, frac: 0 }, now) {
        if v - EPOCH_GAP >= i32::MIN { (v - EPOCH_GAP) as i32 } else { i32::MIN }
    } else {
        v
    }
}

/// [`cf_fix_residue`] for a stamp held as whole signed seconds.
pub fn fix_residue_i32(v: i32, now: CfTime) -> (r: i32)
    requires
        now.is_reading(),
    ensures
        r == repaired_i32(v, now),
{
    proof {
        lemma_recounted_whole(CfTime { secs: v as i64, frac: 0 });
        lemma_double_of(now.ticks() + RESIDUE_MIN_LEAD * 0x1_0000_0000);
    }
    match cf_fix_residue(CfTime::whole(v as i64), now) {
        Some(t) => if t.secs < -0x8000_0000 { i32::MIN } else { t.secs as i32 },
        None => v,
    }
}

/// [`cf_fix_residue`], keeping a stamp that needs no repair.
pub fn fix_residue(v: CfTime, now: CfTime) -> (r: CfTime)
    requires
        now.is_reading(),
    ensures
        r == repaired(v, now),
{
    match cf_fix_residue(v, now) {
        Some(t) => t,
        None => v,
    }
}

/// A moment of the last 15.5 years or the next 15.5 years that was written
/// with the 1970 clock is given back exactly, and is left alone afterwards:
/// every such moment of double precision, but for the one that the bound may
/// be rounded to.
pub proof fn law_residue_is_recovered(t: CfTime, now: CfTime)
    requires
        t.ticks() > now.ticks() - RESIDUE_MIN_LEAD * 0x1_0000_0000,
        t.ticks() <= now.ticks() + RESIDUE_MIN_LEAD * 0x1_0000_0000,
        t.ticks() + EPOCH_GAP * 0x1_0000_0000 < TIME_SENTINEL * 0x1_0000_0000,
        now.is_reading(),
        double_of(t.ticks()) == t.ticks(),
        double_of(t.shifted(EPOCH_GAP as int).ticks()) == t.shifted(EPOCH_GAP as int).ticks(),
        t.shifted(EPOCH_GAP as int).ticks() != residue_floor(now),
    ensures
        repaired(t.shifted(EPOCH_GAP as int), now) == t,
        repaired(t, now) == t,
{
    let v = t.shifted(EPOCH_GAP as int);
    let bound = now.ticks() + RESIDUE_MIN_LEAD * 0x1_0000_0000;
    lemma_double_order(t.ticks(), bound);
    lemma_double_order(bound, v.ticks());
    assert(v.ticks() - EPOCH_GAP * 0x1_0000_0000 == t.ticks());
    assert(moment(t.ticks()) == t);
}

/// No stamp at most 15.5 years ahead of the clock is touched, so moving the
/// clock back by less than that never spoils one.
pub proof fn law_near_future_is_kept(v: CfTime, now: CfTime)
    requires
        v.ticks() <= now.ticks() + RESIDUE_MIN_LEAD * 0x1_0000_0000,
        double_of(v.ticks()) == v.ticks(),
    ensures
        repaired(v, now) == v,
{
    lemma_double_order(v.ticks(), now.ticks() + RESIDUE_MIN_LEAD * 0x1_0000_0000);
}

/// A stamp on the 1970 clock: more than half the gap between the clocks, 15.5
/// years, ahead of the present, and before the marker for "no time". It and the
/// same moment on the 2001 clock are numbers of double precision, and it is not
/// the one that the bound may be rounded to.
pub open spec fn on_1970_clock(v: CfTime, now: CfTime) -> bool {
    let there = v.ticks() - 978307200 * 0x1_0000_0000;
    &&& v.ticks() > now.ticks() + 489153600 * 0x1_0000_0000
    &&& v.ticks() < 4294967295 * 0x1_0000_0000
    &&& double_of(v.ticks()) == v.ticks()
    &&& double_of(there) == there
    &&& v.ticks() != double_of(now.ticks() + 489153600 * 0x1_0000_0000)
}

/// A stamp that is no more than 15.5 years ahead of the present, or the marker
/// for "no time", or after it.
pub open spec fn on_2001_clock(v: CfTime, now: CfTime) -> bool {
    ||| double_of(v.ticks()) == v.ticks() && v.ticks() <= now.ticks() + 489153600 * 0x1_0000_0000
    ||| v.ticks() >= 4294967295 * 0x1_0000_0000
}

/// A stamp on the 1970 clock was moved back by exactly 978307200 seconds; one
/// on the 2001 clock was left alone.
pub open spec fn is_mended(before: CfTime, after: CfTime, now: CfTime) -> bool {
    &&& on_1970_clock(before, now) ==> after.ticks() == before.ticks() - 978307200 * 0x1_0000_0000
    &&& on_2001_clock(before, now) ==> after == before
}

/// The same for whole seconds, held as a number that is no less than `least`.
pub open spec fn is_mended_whole(before: int, after: int, least: int, now: CfTime) -> bool {
    let ticks = before * 0x1_0000_0000;
    let bound = now.ticks() + 489153600 * 0x1_0000_0000;
    &&& ticks > bound && before < 4294967295 && ticks != double_of(bound) ==> after == if before
        - 978307200 >= least {
        before - 978307200
    } else {
        least
    }
    &&& ticks <= bound || before >= 4294967295 ==> after == before
}

/// Every stamp comes out on the 2001 clock: whole or with a fraction, signed or
/// unsigned.
pub proof fn law_stamps_are_mended(v: CfTime, u: u32, i: i32, now: CfTime)
    requires
        now.is_reading(),
        i64::MIN + 978307200 <= v.secs,
    ensures
        is_mended(v, repaired(v, now), now),
        is_mended_whole(u as int, repaired_u32(u, now) as int, 0, now),
        is_mended_whole(i as int, repaired_i32(i, now) as int, -0x8000_0000, now),
{
    let bound = now.ticks() + 489153600 * 0x1_0000_0000;
    if v.ticks() > bound {
        lemma_double_order(bound, v.ticks());
    } else {
        lemma_double_order(v.ticks(), bound);
    }
    lemma_whole_order(u as int, bound);
    lemma_whole_order(i as int, bound);
}

/// Whole seconds of up to 33 bits are compared with a rounded bound as with the
/// bound itself, unless they are what it is rounded to.
proof fn lemma_whole_order(n: int, bound: int)
    requires
        -0x2_0000_0000 < n < 0x2_0000_0000,
    ensures
        n * 0x1_0000_0000 > bound ==> n * 0x1_0000_0000 >= double_of(bound),
        n * 0x1_0000_0000 <= bound ==> n * 0x1_0000_0000 <= double_of(bound),
{
    lemma_double_whole(n);
    if n * 0x1_0000_0000 > bound {
        lemma_double_order(bound, n * 0x1_0000_0000);
    } else {
        lemma_double_order(n * 0x1_0000_0000, bound);
    }
}

/// A stamp so early that it cannot be moved back is not on the 1970 clock.
pub proof fn lemma_mended(v: CfTime, now: CfTime)
    requires
        now.is_reading(),
    ensures
        is_mended(v, repaired(v, now), now),
{
    if v.secs >= i64::MIN + 978307200 {
        law_stamps_are_mended(v, 0, 0, now);
    } else {
        lemma_double_order(
            v.ticks(),
            now.ticks() + 489153600 * 0x1_0000_0000,
        );
    }
}

} // verus!
