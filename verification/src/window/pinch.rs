//! A pinch with two fingers, made with the mouse wheel.

use vstd::prelude::*;
use crate::window::events::{Controls, Coords, Event, EventV, FingerId, Window};

verus! {

/// Half the distance of the fingers at the start, at least and at most.
pub const PINCH_HALF_START: i32 = 60;

pub const PINCH_HALF_MIN: i32 = 20;

pub const PINCH_HALF_MAX: i32 = 240;

/// How far from the edge the middle stays, where the screen is large enough.
pub const PINCH_EDGE_MARGIN: i64 = 150;

/// The longest side of a screen on which every point has coordinates.
pub const SIDE_MAX: u32 = 0x8000_0000;

/// Nanoseconds without a turn of the wheel after which the fingers are lifted.
pub const PINCH_IDLE_TIMEOUT: u64 = 150_000_000;

/// A pinch under way: two fingers on either side of a middle that stays, along
/// an axis of the screen.
#[derive(Clone, Copy, Debug, PartialEq, Eq)]
pub struct PinchState {
    pub center: Coords,
    /// One step to the right of the window: one of the two is 0, the other 1
    /// or -1.
    pub axis: Coords,
    /// Half the distance of the fingers.
    pub half: i32,
    /// The greatest half that keeps both fingers on the screen.
    pub max_half: i32,
    pub last_input: u64,
}

impl PinchState {
    /// The axis is one, the distance within its bounds, and the fingers have
    /// coordinates at every distance.
    pub open spec fn wf(self) -> bool {
        &&& (self.axis.0 == 0 && (self.axis.1 == 1 || self.axis.1 == -1)) || (self.axis.1 == 0 && (
        self.axis.0 == 1 || self.axis.0 == -1))
        &&& PINCH_HALF_MIN <= self.half <= self.max_half <= PINCH_HALF_MAX
        &&& self.axis.0 != 0 ==> self.center.0 - self.max_half >= i32::MIN && self.center.0
            + self.max_half <= i32::MAX
        &&& self.axis.1 != 0 ==> self.center.1 - self.max_half >= i32::MIN && self.center.1
            + self.max_half <= i32::MAX
    }

    /// Where the first finger is.
    pub open spec fn finger_a(self) -> Coords {
        (
            (self.center.0 - self.axis.0 * self.half) as i32,
            (self.center.1 - self.axis.1 * self.half) as i32,
        )
    }

    /// Where the second finger is.
    pub open spec fn finger_b(self) -> Coords {
        (
            (self.center.0 + self.axis.0 * self.half) as i32,
            (self.center.1 + self.axis.1 * self.half) as i32,
        )
    }

    /// Both fingers.
    pub open spec fn touches(self) -> Seq<(FingerId, Coords)> {
        seq![(FingerId::PinchA, self.finger_a()), (FingerId::PinchB, self.finger_b())]
    }

    /// Both fingers.
    pub fn touch_map(&self) -> (r: Vec<(FingerId, Coords)>)
        requires
            self.wf(),
        ensures
            r@ == self.touches(),
    {
        let (cx, cy) = self.center;
        let dx: i32 = if self.axis.0 == 0 {
            0
        } else if self.axis.0 == 1 {
            self.half
        } else {
            -self.half
        };
        let dy: i32 = if self.axis.1 == 0 {
            0
        } else if self.axis.1 == 1 {
            self.half
        } else {
            -self.half
        };
        assert(dx == self.axis.0 * self.half && dy == self.axis.1 * self.half) by (nonlinear_arith)
            requires
                self.axis.0 == 0 || self.axis.0 == 1 || self.axis.0 == -1,
                self.axis.1 == 0 || self.axis.1 == 1 || self.axis.1 == -1,
                dx == if self.axis.0 == 0 {
                    0int
                } else if self.axis.0 == 1 {
                    self.half as int
                } else {
                    -self.half
                },
                dy == if self.axis.1 == 0 {
                    0int
                } else if self.axis.1 == 1 {
                    self.half as int
                } else {
                    -self.half
                },
        ;
        let mut r: Vec<(FingerId, Coords)> = Vec::new();
        r.push((FingerId::PinchA, (cx - dx, cy - dy)));
        r.push((FingerId::PinchB, (cx + dx, cy + dy)));
        assert(r@ =~= self.touches());
        r
    }
}

/// A number brought between two others.
pub open spec fn between(v: int, low: int, high: int) -> int {
    if v < low {
        low
    } else if v > high {
        high
    } else {
        v
    }
}

/// How far from the edge the middle stays on a screen of this length.
pub open spec fn margin_of(dim: int) -> int {
    if (dim - 2) / 2 < PINCH_EDGE_MARGIN {
        (dim - 2) / 2
    } else {
        PINCH_EDGE_MARGIN as int
    }
}

/// The middle along the axis: away from the edge.
pub open spec fn along(v: int, dim: int) -> int {
    let m = margin_of(dim);
    between(v, m, if dim - 1 - m > m { dim - 1 - m } else { m })
}

/// The middle across the axis: on the screen.
pub open spec fn across(v: int, dim: int) -> int {
    between(v, 1, dim - 2)
}

/// The greatest half distance around a middle.
pub open spec fn room(pos: int, dim: int) -> int {
    let near = if pos < dim - 1 - pos {
        pos
    } else {
        dim - 1 - pos
    };
    if near < PINCH_HALF_MAX {
        near
    } else {
        PINCH_HALF_MAX as int
    }
}

/// The step to the right of the window, from a point and one to its right: the
/// larger of the two differences decides.
pub open spec fn axis_of(c: Coords, probe: Coords) -> Coords {
    let dx = probe.0 - c.0;
    let dy = probe.1 - c.1;
    let adx = if dx < 0 {
        -dx
    } else {
        dx
    };
    let ady = if dy < 0 {
        -dy
    } else {
        dy
    };
    if adx >= ady {
        (if dx < 0 { -1i32 } else { 1i32 }, 0i32)
    } else {
        (0i32, if dy < 0 { -1i32 } else { 1i32 })
    }
}

/// A new pinch on a screen of `w` by `h` points around the point `c`, where
/// `probe` lies to the right of it in the window. Nothing on a screen that is
/// too small.
pub open spec fn begun(w: int, h: int, c: Coords, probe: Coords, now: u64) -> Option<PinchState> {
    let axis = axis_of(c, probe);
    let along_x = axis.0 != 0;
    let center = if along_x {
        (along(c.0 as int, w), across(c.1 as int, h))
    } else {
        (across(c.0 as int, w), along(c.1 as int, h))
    };
    let max_half = if along_x {
        room(center.0, w)
    } else {
        room(center.1, h)
    };
    if w < 4 || h < 4 || max_half < PINCH_HALF_MIN + 1 {
        None
    } else {
        Some(
            PinchState {
                center: (center.0 as i32, center.1 as i32),
                axis,
                half: if max_half < PINCH_HALF_START {
                    max_half as i32
                } else {
                    PINCH_HALF_START
                },
                max_half: max_half as i32,
                last_input: now,
            },
        )
    }
}

fn clamp(v: i64, low: i64, high: i64) -> (r: i64)
    ensures
        r == between(v as int, low as int, high as int),
{
    if v < low {
        low
    } else if v > high {
        high
    } else {
        v
    }
}

fn clamp_along(v: i64, dim: i64) -> (r: i64)
    requires
        4 <= dim <= SIDE_MAX,
    ensures
        r == along(v as int, dim as int),
        0 <= r <= dim - 1,
{
    let mid: i64 = (dim - 2) / 2;
    let margin: i64 = if mid < PINCH_EDGE_MARGIN { mid } else { PINCH_EDGE_MARGIN };
    let high: i64 = if dim - 1 - margin > margin { dim - 1 - margin } else { margin };
    clamp(v, margin, high)
}

fn room_around(pos: i64, dim: i64) -> (r: i64)
    requires
        0 <= pos <= dim - 1,
        dim <= SIDE_MAX,
    ensures
        r == room(pos as int, dim as int),
        0 <= r <= PINCH_HALF_MAX,
{
    let near: i64 = if pos < dim - 1 - pos { pos } else { dim - 1 - pos };
    if near < PINCH_HALF_MAX as i64 {
        near
    } else {
        PINCH_HALF_MAX as i64
    }
}

/// A new pinch. `shown` tells whether the picture is on screen at all; the
/// points are missing where they cannot be told.
pub fn begin_wheel_pinch(
    size: (u32, u32),
    shown: bool,
    points: Option<(Coords, Coords)>,
    now: u64,
) -> (r: Option<PinchState>)
    requires
        size.0 <= SIDE_MAX,
        size.1 <= SIDE_MAX,
    ensures
        r == (match points {
            Some((c, probe)) => if shown {
                begun(size.0 as int, size.1 as int, c, probe, now)
            } else {
                None
            },
            None => None,
        }),
        r is Some ==> r->0.wf(),
{
    let w: i64 = size.0 as i64;
    let h: i64 = size.1 as i64;
    if w < 4 || h < 4 || !shown {
        return None;
    }
    let (c, probe) = match points {
        Some(p) => p,
        None => {
            return None;
        },
    };
    let dx: i64 = probe.0 as i64 - c.0 as i64;
    let dy: i64 = probe.1 as i64 - c.1 as i64;
    let adx: i64 = if dx < 0 { -dx } else { dx };
    let ady: i64 = if dy < 0 { -dy } else { dy };
    let along_x = adx >= ady;
    let axis: Coords = if along_x {
        (if dx < 0 { -1i32 } else { 1i32 }, 0i32)
    } else {
        (0i32, if dy < 0 { -1i32 } else { 1i32 })
    };
    let (cx, cy): (i64, i64) = if along_x {
        (clamp_along(c.0 as i64, w), clamp(c.1 as i64, 1, h - 2))
    } else {
        (clamp(c.0 as i64, 1, w - 2), clamp_along(c.1 as i64, h))
    };
    let max_half: i64 = if along_x { room_around(cx, w) } else { room_around(cy, h) };
    if max_half < PINCH_HALF_MIN as i64 + 1 {
        return None;
    }
    let half: i64 = if max_half < PINCH_HALF_START as i64 {
        max_half
    } else {
        PINCH_HALF_START as i64
    };
    Some(
        PinchState {
            center: (cx as i32, cy as i32),
            axis,
            half: half as i32,
            max_half: max_half as i32,
            last_input: now,
        },
    )
}

/// The fingers of a new pinch, and of every pinch that has moved since, are on
/// the screen, on either side of the middle and apart from each other.
pub proof fn law_pinch_stays_on_screen(w: int, h: int, c: Coords, probe: Coords, now: u64, half: i32)
    requires
        begun(w, h, c, probe, now) is Some,
        w <= SIDE_MAX,
        h <= SIDE_MAX,
        PINCH_HALF_MIN <= half <= begun(w, h, c, probe, now)->0.max_half,
    ensures
        ({
            let p = PinchState { half, ..begun(w, h, c, probe, now)->0 };
            let a = p.finger_a();
            let b = p.finger_b();
            &&& 0 <= a.0 < w && 0 <= a.1 < h
            &&& 0 <= b.0 < w && 0 <= b.1 < h
            &&& a.0 + b.0 == 2 * p.center.0 && a.1 + b.1 == 2 * p.center.1
            &&& a != b
        }),
{
    let p = PinchState { half, ..begun(w, h, c, probe, now)->0 };
    let (ax, ay) = (p.axis.0 as int, p.axis.1 as int);
    assert(ax * half == if ax == 0 {
        0
    } else if ax == 1 {
        half as int
    } else {
        -half
    }) by (nonlinear_arith)
        requires
            ax == 0 || ax == 1 || ax == -1,
    ;
    assert(ay * half == if ay == 0 {
        0
    } else if ay == 1 {
        half as int
    } else {
        -half
    }) by (nonlinear_arith)
        requires
            ay == 0 || ay == 1 || ay == -1,
    ;
}

/// Whether a turn of the wheel is part of a pinch.
#[derive(Clone, Copy, Debug, PartialEq, Eq, Structural)]
pub enum WheelReady {
    /// It is not.
    Ignored,
    /// It goes on with the pinch under way.
    Continued,
    /// It begins a new pinch.
    Started,
}

/// Why the wheel may not make a pinch.
#[derive(Clone, Copy, Debug, PartialEq, Eq, Structural)]
pub struct WheelFacts {
    pub enabled: bool,
    pub text_input: bool,
    pub menu_open: bool,
    /// The mouse says that its left button is held.
    pub left_held: bool,
    /// The wheel was turned.
    pub turned: bool,
}

/// Whether the wheel may make a pinch.
pub open spec fn may_pinch(c: Controls, f: WheelFacts) -> bool {
    f.enabled && !f.text_input && !f.menu_open && !(c.mouse_left_down && f.left_held) && f.turned
}

/// What a step of the wheel makes of a pinch: nothing for no step, the end of
/// it where the bound was reached before, and else the fingers further apart or
/// together.
pub open spec fn pinched(p: PinchState, step: int) -> Option<PinchState> {
    let half = between(p.half + step, PINCH_HALF_MIN as int, p.max_half as int);
    if step == 0 {
        Some(p)
    } else if half == p.half {
        None
    } else {
        Some(PinchState { half: half as i32, ..p })
    }
}

/// What a turn of the wheel is.
pub open spec fn wheel_ready(c: Controls, f: WheelFacts, fresh: bool) -> WheelReady {
    if !may_pinch(c, f) {
        WheelReady::Ignored
    } else if c.pinch is Some {
        WheelReady::Continued
    } else if fresh {
        WheelReady::Started
    } else {
        WheelReady::Ignored
    }
}

/// The events after a turn of the wheel: a new pinch puts both fingers down.
pub open spec fn wheel_queue(q: Seq<EventV>, r: WheelReady, fresh: Option<PinchState>) -> Seq<EventV> {
    if r == WheelReady::Started {
        q.push(EventV::TouchesDown(fresh->0.touches()))
    } else {
        q
    }
}

/// The pinch after a turn of the wheel, which counts as its last.
pub open spec fn wheel_pinch(
    pinch: Option<PinchState>,
    r: WheelReady,
    fresh: Option<PinchState>,
    now: u64,
) -> Option<PinchState> {
    match r {
        WheelReady::Ignored => pinch,
        WheelReady::Continued => Some(PinchState { last_input: now, ..pinch->0 }),
        WheelReady::Started => Some(PinchState { last_input: now, ..fresh->0 }),
    }
}

/// The events after a step: both fingers move, or are taken back where the pinch
/// ends.
pub open spec fn step_queue(q: Seq<EventV>, p: PinchState, step: int) -> Seq<EventV> {
    if step == 0 {
        q
    } else {
        match pinched(p, step) {
            Some(m) => q.push(EventV::TouchesMove(m.touches())),
            None => q.push(EventV::TouchesCancel(p.touches())),
        }
    }
}

/// The fingers go down once, where a pinch begins, at their first places; they
/// stay down while it goes on. A turn that does not count changes nothing. A step
/// moves both, or, at the bound, takes both back where they are.
pub proof fn law_fingers_follow_the_wheel(
    q: Seq<EventV>,
    p: PinchState,
    fresh: PinchState,
    now: u64,
    step: int,
)
    requires
        p.wf(),
    ensures
        wheel_queue(q, WheelReady::Started, Some(fresh)) == q.push(
            EventV::TouchesDown(fresh.touches()),
        ),
        wheel_queue(q, WheelReady::Continued, Some(fresh)) == q,
        wheel_queue(q, WheelReady::Ignored, Some(fresh)) == q,
        wheel_pinch(Some(p), WheelReady::Ignored, Some(fresh), now) == Some(p),
        wheel_pinch(None, WheelReady::Started, Some(fresh), now) == Some(
            PinchState { last_input: now, ..fresh },
        ),
        wheel_pinch(Some(p), WheelReady::Continued, Some(fresh), now) == Some(
            PinchState { last_input: now, ..p },
        ),
        step_queue(q, p, 0) == q,
        step != 0 && 20 <= p.half + step <= p.max_half ==> step_queue(q, p, step) == q.push(
            EventV::TouchesMove(PinchState { half: (p.half + step) as i32, ..p }.touches()),
        ),
        step > 0 && p.half == p.max_half ==> step_queue(q, p, step) == q.push(
            EventV::TouchesCancel(p.touches()),
        ),
        step < 0 && p.half == 20 ==> step_queue(q, p, step) == q.push(
            EventV::TouchesCancel(p.touches()),
        ),
{
}

/// The wheel makes a pinch only where it is turned and may: not while a text is
/// typed, the menu of switches is open, or the left button is held, by both what
/// was seen of it and what the mouse says. A pinch under way goes on, and else a
/// new one begins where there is room.
pub proof fn law_when_the_wheel_pinches(c: Controls, f: WheelFacts, fresh: bool)
    ensures
        ({
            let may = f.enabled && f.turned && !f.text_input && !f.menu_open && !(c.mouse_left_down
                && f.left_held);
            &&& !may ==> wheel_ready(c, f, fresh) == WheelReady::Ignored
            &&& may && c.pinch is Some ==> wheel_ready(c, f, fresh) == WheelReady::Continued
            &&& may && c.pinch is None && fresh ==> wheel_ready(c, f, fresh) == WheelReady::Started
            &&& may && c.pinch is None && !fresh ==> wheel_ready(c, f, fresh) == WheelReady::Ignored
        }),
{
}

/// A step moves both fingers by just as much, outwards for a positive one, but
/// never closer than 20 to the middle nor beyond the room there is; where they
/// already are at that bound, the pinch ends.
pub proof fn law_steps_of_a_pinch(p: PinchState, step: int)
    requires
        p.wf(),
    ensures
        step == 0 ==> pinched(p, step) == Some(p),
        step != 0 && 20 <= p.half + step <= p.max_half ==> pinched(p, step) == Some(
            PinchState { half: (p.half + step) as i32, ..p },
        ),
        step < 0 && p.half + step < 20 && p.half > 20 ==> pinched(p, step) == Some(
            PinchState { half: 20, ..p },
        ),
        step < 0 && p.half == 20 ==> pinched(p, step) is None,
        step > 0 && p.half + step > p.max_half && p.half < p.max_half ==> pinched(p, step) == Some(
            PinchState { half: p.max_half, ..p },
        ),
        step > 0 && p.half == p.max_half ==> pinched(p, step) is None,
{
}

/// Where the fingers are: as far on one side of the middle as on the other,
/// along the axis, the second in its direction.
pub proof fn law_fingers_of_a_pinch(p: PinchState)
    requires
        p.wf(),
    ensures
        p.touches() == seq![(FingerId::PinchA, p.finger_a()), (FingerId::PinchB, p.finger_b())],
        p.axis == (1i32, 0i32) ==> p.finger_a() == ((p.center.0 - p.half) as i32, p.center.1)
            && p.finger_b() == ((p.center.0 + p.half) as i32, p.center.1),
        p.axis == (-1i32, 0i32) ==> p.finger_a() == ((p.center.0 + p.half) as i32, p.center.1)
            && p.finger_b() == ((p.center.0 - p.half) as i32, p.center.1),
        p.axis == (0i32, 1i32) ==> p.finger_a() == (p.center.0, (p.center.1 - p.half) as i32)
            && p.finger_b() == (p.center.0, (p.center.1 + p.half) as i32),
        p.axis == (0i32, -1i32) ==> p.finger_a() == (p.center.0, (p.center.1 + p.half) as i32)
            && p.finger_b() == (p.center.0, (p.center.1 - p.half) as i32),
{
    let h = p.half as int;
    assert(0 * h == 0 && 1 * h == h && -1 * h == -h) by (nonlinear_arith);
}

/// A new pinch: along the direction that is to the right in the window, which is
/// that of the larger difference; around the point, but 150 from the edges along
/// the axis where there is room, and on the screen across it; 60 to each side at
/// first, or as much as there is room, at most 240. Without room for 21, or on a
/// screen below 4 by 4, there is none.
pub proof fn law_new_pinch(w: int, h: int, c: Coords, probe: Coords, now: u64)
    requires
        302 <= w <= SIDE_MAX,
        302 <= h <= SIDE_MAX,
        probe != c,
    ensures
        ({
            let dx = probe.0 - c.0;
            let dy = probe.1 - c.1;
            let level = (if dx < 0 { -dx } else { dx }) >= (if dy < 0 { -dy } else { dy });
            let p = begun(w, h, c, probe, now)->0;
            let (at, dim, along, side, across) = if level {
                (c.0 as int, w, p.center.0 as int, c.1 as int, p.center.1 as int)
            } else {
                (c.1 as int, h, p.center.1 as int, c.0 as int, p.center.0 as int)
            };
            let other = if level {
                h
            } else {
                w
            };
            let edge = if along < dim - 1 - along {
                along
            } else {
                dim - 1 - along
            };
            &&& begun(w, h, c, probe, now) is Some
            &&& level && dx > 0 ==> p.axis == (1i32, 0i32)
            &&& level && dx < 0 ==> p.axis == (-1i32, 0i32)
            &&& !level && dy > 0 ==> p.axis == (0i32, 1i32)
            &&& !level && dy < 0 ==> p.axis == (0i32, -1i32)
            &&& 150 <= at <= dim - 151 ==> along == at
            &&& at < 150 ==> along == 150
            &&& at > dim - 151 ==> along == dim - 151
            &&& 1 <= side <= other - 2 ==> across == side
            &&& side < 1 ==> across == 1
            &&& side > other - 2 ==> across == other - 2
            &&& p.half == 60
            &&& edge >= 240 ==> p.max_half == 240
            &&& edge < 240 ==> p.max_half == edge
            &&& p.last_input == now
        }),
        forall|v: int, u: int| v < 4 || u < 4 ==> #[trigger] begun(v, u, c, probe, now) is None,
{
}

/// On a small screen the middle is the middle of the screen, and without room
/// for 21 to each side there is no pinch.
pub proof fn law_small_screens(dim: int, v: int)
    requires
        4 <= dim < 302,
    ensures
        (dim - 2) / 2 <= along(v, dim) <= dim - 1 - (dim - 2) / 2,
        room(along(v, dim), dim) == (dim - 1) / 2 || room(along(v, dim), dim) == (dim - 2) / 2,
{
}

impl Window {
    /// The pinch under way, if any, is one.
    pub open spec fn pinch_wf(&self) -> bool {
        self.controls.pinch matches Some(p) ==> p.wf()
    }

    /// Begins or goes on with a pinch at a turn of the wheel. `fresh` is the
    /// pinch to begin where none is under way.
    pub fn pinch_ready(&mut self, facts: &WheelFacts, fresh: Option<PinchState>, now: u64) -> (r:
        WheelReady)
        requires
            old(self).pinch_wf(),
            fresh matches Some(p) ==> p.wf(),
        ensures
            final(self).pinch_wf(),
            final(self).high_priority_event == old(self).high_priority_event,
            final(self).frame == old(self).frame,
            final(self).controllers == old(self).controllers,
            r == wheel_ready(old(self).controls, *facts, fresh is Some),
            final(self).queue() == wheel_queue(old(self).queue(), r, fresh),
            final(self).controls.pinch == wheel_pinch(old(self).controls.pinch, r, fresh, now),
            r == (if !may_pinch(old(self).controls, *facts) {
                WheelReady::Ignored
            } else if old(self).controls.pinch is Some {
                WheelReady::Continued
            } else if fresh is Some {
                WheelReady::Started
            } else {
                WheelReady::Ignored
            }),
            final(self).controls == (Controls {
                pinch: match r {
                    WheelReady::Ignored => old(self).controls.pinch,
                    WheelReady::Continued => Some(
                        PinchState { last_input: now, ..old(self).controls.pinch->0 },
                    ),
                    WheelReady::Started => Some(PinchState { last_input: now, ..fresh->0 }),
                },
                ..old(self).controls
            }),
            final(self).queue() == (if r == WheelReady::Started {
                old(self).queue().push(EventV::TouchesDown(fresh->0.touches()))
            } else {
                old(self).queue()
            }),
    {
        if !facts.enabled || facts.text_input || facts.menu_open {
            return WheelReady::Ignored;
        }
        if self.controls.mouse_left_down && facts.left_held {
            return WheelReady::Ignored;
        }
        if !facts.turned {
            return WheelReady::Ignored;
        }
        let mut c = self.controls;
        match c.pinch {
            Some(p) => {
                c.pinch = Some(PinchState { last_input: now, ..p });
                self.controls = c;
                WheelReady::Continued
            },
            None => match fresh {
                None => WheelReady::Ignored,
                Some(p) => {
                    self.push(Event::TouchesDown(p.touch_map()));
                    c.pinch = Some(PinchState { last_input: now, ..p });
                    self.controls = c;
                    WheelReady::Started
                },
            },
        }
    }

    /// Ends the pinch under way: both fingers are taken back at once.
    pub fn end_wheel_pinch(&mut self)
        requires
            old(self).pinch_wf(),
        ensures
            final(self).controls == (Controls { pinch: None, ..old(self).controls }),
            final(self).queue() == ended_queue(old(self).queue(), old(self).controls),
            final(self).high_priority_event == old(self).high_priority_event,
            final(self).frame == old(self).frame,
            final(self).controllers == old(self).controllers,
    {
        if let Some(p) = self.controls.pinch {
            self.push(Event::TouchesCancel(p.touch_map()));
            self.controls = Controls { pinch: None, ..self.controls };
        }
    }

    /// Moves the fingers of a pinch apart, or together for a negative step. At
    /// a bound the pinch ends, so that the next turn begins a new one.
    pub fn pinch_step(&mut self, step: i32)
        requires
            old(self).pinch_wf(),
            -0x1000 <= step <= 0x1000,
        ensures
            final(self).pinch_wf(),
            final(self).high_priority_event == old(self).high_priority_event,
            final(self).frame == old(self).frame,
            final(self).controllers == old(self).controllers,
            old(self).controls.pinch is Some ==> final(self).controls.pinch == pinched(
                old(self).controls.pinch->0,
                step as int,
            ) && final(self).queue() == step_queue(
                old(self).queue(),
                old(self).controls.pinch->0,
                step as int,
            ),
            match old(self).controls.pinch {
                Some(p) => {
                    let half = between(p.half + step, PINCH_HALF_MIN as int, p.max_half as int);
                    if step == 0 {
                        final(self).controls == old(self).controls && final(self).queue() == old(self).queue()
                    } else if half == p.half {
                        final(self).controls == (Controls { pinch: None, ..old(self).controls })
                            && final(self).queue() == ended_queue(
                            old(self).queue(),
                            old(self).controls,
                        )
                    } else {
                        let moved = PinchState { half: half as i32, ..p };
                        final(self).controls == (Controls {
                            pinch: Some(moved),
                            ..old(self).controls
                        }) && final(self).queue() == old(self).queue().push(
                            EventV::TouchesMove(moved.touches()),
                        )
                    }
                },
                None => final(self).controls == old(self).controls && final(self).queue() == old(self).queue(),
            },
    {
        let p = match self.controls.pinch {
            Some(p) => p,
            None => {
                return;
            },
        };
        if step == 0 {
            return;
        }
        let half: i64 = clamp(
            p.half as i64 + step as i64,
            PINCH_HALF_MIN as i64,
            p.max_half as i64,
        );
        if half == p.half as i64 {
            self.end_wheel_pinch();
            return;
        }
        let moved = PinchState { half: half as i32, ..p };
        self.push(Event::TouchesMove(moved.touch_map()));
        self.controls = Controls { pinch: Some(moved), ..self.controls };
    }

    /// Whether the wheel has not been turned for a while.
    pub fn pinch_is_idle(&self, now: u64) -> (r: bool)
        ensures
            r == pinch_idle(self.controls, now),
    {
        match self.controls.pinch {
            Some(p) => now.saturating_sub(p.last_input) >= PINCH_IDLE_TIMEOUT,
            None => false,
        }
    }
}

/// Whether the wheel has not been turned for a while.
pub open spec fn pinch_idle(c: Controls, now: u64) -> bool {
    c.pinch matches Some(p) && now - p.last_input >= PINCH_IDLE_TIMEOUT
}

/// The queue once the pinch under way, if any, was ended.
pub open spec fn ended_queue(q: Seq<EventV>, c: Controls) -> Seq<EventV> {
    match c.pinch {
        Some(p) => q.push(EventV::TouchesCancel(p.touches())),
        None => q,
    }
}

/// Whenever the distance of the fingers changes, both of them move.
pub proof fn law_both_fingers_move(p: PinchState, half: i32)
    requires
        p.wf(),
        PINCH_HALF_MIN <= half <= p.max_half,
        half != p.half,
    ensures
        ({
            let q = PinchState { half, ..p };
            &&& q.wf()
            &&& q.finger_a() != p.finger_a()
            &&& q.finger_b() != p.finger_b()
        }),
{
    let (ax, ay) = (p.axis.0 as int, p.axis.1 as int);
    let (h, k) = (p.half as int, half as int);
    assert(ax * h == (if ax == 0 { 0 } else if ax == 1 { h } else { -h })) by (nonlinear_arith)
        requires
            ax == 0 || ax == 1 || ax == -1,
    ;
    assert(ax * k == (if ax == 0 { 0 } else if ax == 1 { k } else { -k })) by (nonlinear_arith)
        requires
            ax == 0 || ax == 1 || ax == -1,
    ;
    assert(ay * h == (if ay == 0 { 0 } else if ay == 1 { h } else { -h })) by (nonlinear_arith)
        requires
            ay == 0 || ay == 1 || ay == -1,
    ;
    assert(ay * k == (if ay == 0 { 0 } else if ay == 1 { k } else { -k })) by (nonlinear_arith)
        requires
            ay == 0 || ay == 1 || ay == -1,
    ;
}

} // verus!
