//! Notices that the game has stopped drawing frames on the island.

use vstd::prelude::*;
use crate::state::CheatState;
use crate::island::session::island_session_active;

verus! {

/// Nanoseconds without a frame after which the game counts as stuck.
pub const STALL_AFTER: u64 = 3_000_000_000;

/// Nanoseconds between two reports.
pub const REPORT_EVERY: u64 = 1_000_000_000;

/// The longest chain of callers that is reported.
pub const CHAIN_MAX: usize = 10;

/// The number of frames drawn, and what was seen of it.
#[derive(Clone, Copy, Debug, PartialEq, Eq, Structural)]
pub struct Watchdog {
    pub frame: u64,
    pub seen_frame: u64,
    pub seen_at: Option<u64>,
    pub last_report: Option<u64>,
}

/// Notes that a frame was drawn.
pub fn watchdog_frame(st: &mut CheatState)
    ensures
        *final(st) == (CheatState {
            watchdog: Watchdog {
                frame: if old(st).watchdog.frame == u64::MAX {
                    0
                } else {
                    (old(st).watchdog.frame + 1) as u64
                },
                ..old(st).watchdog
            },
            ..*old(st)
        }),
{
    let next: u64 = st.watchdog.frame.wrapping_add(1);
    st.watchdog = Watchdog { frame: next, ..st.watchdog };
}

/// Nanoseconds from `t` to `now`, none where `t` is later.
pub open spec fn since(now: u64, t: u64) -> int {
    if now >= t {
        now - t
    } else {
        0
    }
}

/// Whether the game counts as stuck at `now`.
pub open spec fn is_stalled(w: Watchdog, now: u64) -> bool {
    w.frame == w.seen_frame && w.seen_at is Some && since(now, w.seen_at->0) >= STALL_AFTER
}

/// Whether a report is due.
pub open spec fn report_due(w: Watchdog, now: u64) -> bool {
    w.last_report is None || since(now, w.last_report->0) >= REPORT_EVERY
}

/// The watch after a look: a new frame is noted, and so is the first look; a
/// report too.
pub open spec fn watched(w: Watchdog, active: bool, now: u64) -> Watchdog {
    if active && w.frame != w.seen_frame {
        Watchdog { seen_frame: w.frame, seen_at: Some(now), ..w }
    } else if active && w.seen_at is None {
        Watchdog { seen_at: Some(now), ..w }
    } else if active && is_stalled(w, now) && report_due(w, now) {
        Watchdog { last_report: Some(now), ..w }
    } else {
        w
    }
}

/// The game is stuck if no frame was drawn for three seconds after the last one
/// that was seen; a report is due once a second. A frame that was drawn is
/// noted and ends the wait, and off the island nothing is noted.
pub proof fn law_standstill_is_noticed(w: Watchdog, now: u64, seen: u64)
    requires
        w.seen_at == Some(seen),
        seen <= now,
    ensures
        is_stalled(w, now) <==> w.frame == w.seen_frame && now - seen >= 3_000_000_000,
        w.last_report is None ==> report_due(w, now),
        w.last_report is Some && w.last_report->0 <= now ==> (report_due(w, now) <==> now
            - w.last_report->0 >= 1_000_000_000),
        watched(w, false, now) == w,
        w.frame != w.seen_frame ==> {
            let n = watched(w, true, now);
            &&& n.seen_frame == w.frame && n.seen_at == Some(now) && n.last_report == w.last_report
            &&& !is_stalled(n, now)
        },
        w.frame == w.seen_frame ==> watched(w, true, now).seen_at == Some(seen) && watched(
            w,
            true,
            now,
        ).seen_frame == w.seen_frame,
        is_stalled(w, now) && report_due(w, now) ==> watched(w, true, now).last_report == Some(now),
        watched(w, true, now).frame == w.frame,
{
}

/// The chain of callers: each record lies within the stack, at a multiple of
/// four, and holds the return address in its second word; the caller's record
/// lies higher. There are ten at most.
pub proof fn law_callers(fp: u32, base: u32, words: Seq<u32>, n: nat)
    ensures
        callers(fp, base, words, n).len() <= n,
        fp == 0 || n == 0 || fp % 4 != 0 || fp < base ==> callers(fp, base, words, n).len() == 0,
        n > 0 && fp != 0 && fp % 4 == 0 && base % 4 == 0 && base <= fp && fp + 8 <= base + 4
            * words.len() ==> {
            let at = (fp - base) / 4;
            let all = callers(fp, base, words, n);
            &&& all.len() >= 1 && all[0] == words[at + 1]
            &&& words[at] <= fp ==> all.len() == 1
            &&& words[at] > fp ==> all.skip(1) == callers(words[at], base, words, (n - 1) as nat)
        },
        CHAIN_MAX == 10,
    decreases n,
{
    if n > 0 && fp != 0 && in_stack(fp as int, base as int, words.len() as int) {
        let at = (fp - base) / 4;
        law_callers(words[at], base, words, (n - 1) as nat);
        assert(words[at] > fp ==> callers(fp, base, words, n).skip(1) =~= callers(
            words[at],
            base,
            words,
            (n - 1) as nat,
        ));
    }
}

/// Looks whether frames are still drawn. Outside the island nothing is looked
/// at; while the game is stuck, once a second a report is asked for, which
/// says for how many seconds it has been.
pub fn watchdog_check(st: &mut CheatState, now: u64) -> (report: Option<u64>)
    ensures
        ({
            let w = old(st).watchdog;
            let active = old(st).island.active();
            &&& report is Some <==> active && is_stalled(w, now) && report_due(w, now)
            &&& report is Some ==> report->0 == since(now, w.seen_at->0) / 1_000_000_000
            &&& final(st).watchdog == watched(w, active, now)
            &&& report is Some == report_of(w, active, now) is Some
            &&& report is Some ==> report->0 == report_of(w, active, now)->0
            &&& *final(st) == (CheatState {
                watchdog: if active && w.frame != w.seen_frame {
                    Watchdog { seen_frame: w.frame, seen_at: Some(now), ..w }
                } else if active && w.seen_at is None {
                    Watchdog { seen_at: Some(now), ..w }
                } else if report is Some {
                    Watchdog { last_report: Some(now), ..w }
                } else {
                    w
                },
                ..*old(st)
            })
        }),
{
    if !island_session_active(&st.island) {
        return None;
    }
    let cur: u64 = st.watchdog.frame;
    if cur != st.watchdog.seen_frame {
        st.watchdog = Watchdog { seen_frame: cur, seen_at: Some(now), ..st.watchdog };
        return None;
    }
    let seen_at: u64 = match st.watchdog.seen_at {
        Some(t) => t,
        None => {
            st.watchdog = Watchdog { seen_at: Some(now), ..st.watchdog };
            return None;
        },
    };
    let idle: u64 = now.saturating_sub(seen_at);
    if idle < STALL_AFTER {
        return None;
    }
    if let Some(t) = st.watchdog.last_report {
        if now.saturating_sub(t) < REPORT_EVERY {
            return None;
        }
    }
    st.watchdog = Watchdog { last_report: Some(now), ..st.watchdog };
    Some(idle / 1_000_000_000)
}

/// Whether a frame record at this address lies within the words from `base`.
pub open spec fn in_stack(fp: int, base: int, len: int) -> bool {
    fp % 4 == 0 && base <= fp && (fp - base) % 4 == 0 && fp + 8 <= base + 4 * len
}

/// The return addresses of at most `n` callers. The record at `fp` holds the
/// caller's record and the return address; callers' records lie higher.
pub open spec fn callers(fp: u32, base: u32, words: Seq<u32>, n: nat) -> Seq<u32>
    decreases n,
{
    if n == 0 || fp == 0 || !in_stack(fp as int, base as int, words.len() as int) {
        Seq::empty()
    } else {
        let at = (fp - base) / 4;
        let next = words[at];
        if next <= fp {
            seq![words[at + 1]]
        } else {
            seq![words[at + 1]] + callers(next, base, words, (n - 1) as nat)
        }
    }
}

/// The return addresses of the callers, nearest first, from the words of the
/// stack that start at `base`.
pub fn backtrace(fp: u32, base: u32, words: &Vec<u32>) -> (r: Vec<u32>)
    ensures
        r@ == callers(fp, base, words@, CHAIN_MAX as nat),
{
    let mut r: Vec<u32> = Vec::new();
    let mut cur: u32 = fp;
    let mut n: usize = CHAIN_MAX;
    let ghost all = callers(fp, base, words@, CHAIN_MAX as nat);
    while n > 0
        invariant
            n <= CHAIN_MAX,
            all == callers(fp, base, words@, CHAIN_MAX as nat),
            all == r@ + callers(cur, base, words@, n as nat),
        decreases n,
    {
        if cur == 0 || cur % 4 != 0 || cur < base || (cur - base) % 4 != 0 {
            assert(all =~= r@);
            return r;
        }
        let at: usize = ((cur - base) / 4) as usize;
        if words.len() < 2 || at > words.len() - 2 {
            assert(all =~= r@);
            return r;
        }
        r.push(words[at + 1]);
        let next: u32 = words[at];
        if next <= cur {
            assert(all =~= r@);
            return r;
        }
        assert(all =~= r@ + callers(next, base, words@, (n - 1) as nat));
        cur = next;
        n = n - 1;
    }
    assert(all =~= r@);
    r
}

/// Two reports are at least a second apart, and none comes within three
/// seconds of a frame.
pub proof fn law_reports_are_spaced(w: Watchdog, now: u64, before: u64)
    ensures
        w.last_report == Some(before) && report_due(w, now) ==> now - before >= REPORT_EVERY,
        w.seen_at == Some(before) && is_stalled(w, now) ==> now - before >= STALL_AFTER,
{
}

/// For how many whole seconds the game has been stuck, where a report is due.
pub open spec fn report_of(w: Watchdog, active: bool, now: u64) -> Option<int> {
    if active && is_stalled(w, now) && report_due(w, now) {
        Some(since(now, w.seen_at->0) / 1_000_000_000)
    } else {
        None
    }
}

/// A report tells the whole seconds since the last frame that was seen, three at
/// least, and comes only during a stay, while no frame is drawn, and not within
/// a second of the last one.
pub proof fn law_reports_tell_the_seconds(w: Watchdog, now: u64, seen: u64)
    requires
        w.seen_at == Some(seen),
        seen <= now,
    ensures
        report_of(w, false, now) is None,
        w.frame != w.seen_frame ==> report_of(w, true, now) is None,
        now - seen < 3_000_000_000 ==> report_of(w, true, now) is None,
        w.last_report is Some && now < w.last_report->0 + 1_000_000_000 ==> report_of(w, true, now)
            is None,
        w.frame == w.seen_frame && now - seen >= 3_000_000_000 && w.last_report is None
            ==> report_of(w, true, now) is Some,
        report_of(w, true, now) is Some ==> {
            let n = report_of(w, true, now)->0;
            n >= 3 && n * 1_000_000_000 <= now - seen < (n + 1) * 1_000_000_000
        },
{
}

} // verus!
