//! Translation of the host's events, one after the other, into events for the
//! app.

use vstd::prelude::*;
use crate::window::events::{
    Button, Controls, Coords, DpadState, Event, EventV, FingerId, Frame, TextInputEvent, Tilt,
    Touches, Window,
};
use crate::window::pinch::{ended_queue, pinch_idle};

verus! {

/// Nanoseconds between two times that events are asked for: half a frame.
pub const POLL_EVERY: u64 = 8_333_333;

/// What happened to a finger on a touch screen.
#[derive(Clone, Copy, Debug, PartialEq, Eq, Structural)]
pub enum FingerKind {
    Down,
    Motion,
    Up,
}

/// Keys that mean something.
#[derive(Clone, Copy, Debug, PartialEq, Eq, Structural)]
pub enum Key {
    T,
    F12,
    Backspace,
    Return,
    Other,
}

/// An event of the host. Places are points of the device's screen.
#[derive(Debug)]
pub enum HostEvent {
    Quit,
    LeftDown { at: Coords },
    LeftUp { at: Coords },
    RightDown { tilt: (u32, u32) },
    RightUp { tilt: (u32, u32) },
    /// The mouse moved, with the left button held where `left` is given, and
    /// with the right button held where `right` is.
    Motion { left: Option<Coords>, right: Option<(u32, u32)> },
    /// The window has a new height, where the host needs to know.
    Resized { height: Option<u32> },
    KeyDown(Key),
    Text(String),
    /// The window was minimized or hidden.
    Minimized,
    /// The window was restored, shown or maximized.
    Restored,
    /// A button of a controller. `dpad` gives the places for the nine
    /// directions, row by row, where direction buttons stand for touches;
    /// `mapped` is the button's own place, where it has one.
    ControllerButton {
        button: Option<Button>,
        pressed: bool,
        dpad: Option<[Coords; 9]>,
        mapped: Option<Coords>,
    },
    /// The left stick was moved, where it stands for touches.
    Stick { centered: bool, at: Coords },
    /// Another axis of a controller.
    OtherAxis,
    WillEnterBackground,
    Terminating,
    Finger { kind: FingerKind, timestamp: u32, id: i64, at: Coords },
    Gesture { timestamp: u32 },
    /// Anything else, and a turn of the wheel.
    Other,
}

/// Fingers that did the same at the same time.
#[derive(Debug)]
pub struct Batch {
    pub kind: FingerKind,
    pub timestamp: u32,
    pub touches: Touches,
}

/// Such fingers as a mathematical value.
#[verifier::ext_equal]
pub struct BatchV {
    pub kind: FingerKind,
    pub timestamp: u32,
    pub touches: Seq<(FingerId, Coords)>,
}

/// State of asking for events once.
#[derive(Debug)]
pub struct Poll {
    /// Fingers that more may join.
    pub batch: Option<Batch>,
    /// A controller was used.
    pub controller_updated: bool,
    /// Whether the window can be minimized, and a text is being typed.
    pub desktop: bool,
    pub text_input: bool,
}

/// What a window and its state of asking come to.
#[verifier::ext_equal]
pub struct PollV {
    pub queue: Seq<EventV>,
    pub urgent: Option<EventV>,
    pub controls: Controls,
    pub frame: Frame,
    pub batch: Option<BatchV>,
    pub controller_updated: bool,
}

impl Poll {
    /// Nothing has happened yet.
    pub fn new(desktop: bool, text_input: bool) -> (p: Poll)
        ensures
            p.batch is None,
            !p.controller_updated,
            p.desktop == desktop,
            p.text_input == text_input,
    {
        Poll { batch: None, controller_updated: false, desktop, text_input }
    }

    pub open spec fn batch_v(&self) -> Option<BatchV> {
        match self.batch {
            Some(b) => Some(
                BatchV { kind: b.kind, timestamp: b.timestamp, touches: b.touches@ },
            ),
            None => None,
        }
    }
}

/// The window and its state of asking, as a mathematical value.
pub open spec fn poll_v(w: Window, p: Poll) -> PollV {
    PollV {
        queue: w.queue(),
        urgent: w.urgent(),
        controls: w.controls,
        frame: w.frame,
        batch: p.batch_v(),
        controller_updated: p.controller_updated,
    }
}

/// Whether a finger is among the touches.
pub open spec fn has_finger(t: Seq<(FingerId, Coords)>, id: FingerId) -> bool {
    exists|i: int| 0 <= i < t.len() && (#[trigger] t[i]).0 == id
}

/// The touches with a finger put at a place; a finger that is there already is
/// moved.
pub open spec fn put(t: Seq<(FingerId, Coords)>, id: FingerId, at: Coords) -> Seq<
    (FingerId, Coords),
> {
    if has_finger(t, id) {
        t.update(choose|i: int| 0 <= i < t.len() && (#[trigger] t[i]).0 == id, (id, at))
    } else {
        t.push((id, at))
    }
}

/// No finger occurs twice.
pub open spec fn fingers_distinct(t: Seq<(FingerId, Coords)>) -> bool {
    forall|i: int, j: int|
        0 <= i < j < t.len() ==> (#[trigger] t[i]).0 != (#[trigger] t[j]).0
}

/// The event that fingers which did the same come to.
pub open spec fn batch_event(b: BatchV) -> EventV {
    match b.kind {
        FingerKind::Down => EventV::TouchesDown(b.touches),
        FingerKind::Motion => EventV::TouchesMove(b.touches),
        FingerKind::Up => EventV::TouchesUp(b.touches),
    }
}

/// One finger.
pub open spec fn one(id: FingerId, at: Coords) -> Seq<(FingerId, Coords)> {
    seq![(id, at)]
}

pub open spec fn pushed(s: PollV, e: EventV) -> PollV {
    PollV { queue: s.queue.push(e), ..s }
}

/// The pinch under way was ended.
pub open spec fn unpinched(s: PollV) -> PollV {
    PollV {
        queue: ended_queue(s.queue, s.controls),
        controls: Controls { pinch: None, ..s.controls },
        ..s
    }
}

/// The fingers that were waiting for others are on their way.
pub open spec fn flushed(s: PollV) -> PollV {
    match s.batch {
        Some(b) => PollV { queue: s.queue.push(batch_event(b)), batch: None, ..s },
        None => s,
    }
}

/// Whether fingers that wait stay waiting after an event: another finger that
/// did the same at the same time, or a gesture of that time.
pub open spec fn joins(b: BatchV, ev: HostEvent) -> bool {
    match ev {
        HostEvent::Finger { kind, timestamp, .. } => kind == b.kind && timestamp == b.timestamp,
        HostEvent::Gesture { timestamp } => timestamp == b.timestamp,
        _ => false,
    }
}

/// The direction buttons with one pressed or released.
pub open spec fn dpad_with(d: DpadState, button: Button, pressed: bool) -> DpadState {
    match button {
        Button::DPadLeft => DpadState { left: pressed, ..d },
        Button::DPadRight => DpadState { right: pressed, ..d },
        Button::DPadUp => DpadState { up: pressed, ..d },
        Button::DPadDown => DpadState { down: pressed, ..d },
        _ => d,
    }
}

/// Which of the nine places the held buttons point to.
pub open spec fn dpad_place(d: DpadState) -> int {
    let column: int = 1 + (if d.right { 1int } else { 0 }) - (if d.left { 1int } else { 0 });
    let row: int = 1 + (if d.down { 1int } else { 0 }) - (if d.up { 1int } else { 0 });
    row * 3 + column
}

pub open spec fn any_held(d: DpadState) -> bool {
    d.left || d.right || d.up || d.down
}

pub open spec fn is_direction(b: Button) -> bool {
    b == Button::DPadLeft || b == Button::DPadUp || b == Button::DPadRight || b == Button::DPadDown
}

/// What a direction button comes to: a finger goes down with the first, moves
/// with each change, and goes up with the last.
#[verifier::opaque]
pub open spec fn dpad_outcome(before: DpadState, button: Button, pressed: bool, places: Seq<Coords>) -> (
    DpadState,
    Option<EventV>,
) {
    let d = dpad_with(before, button, pressed);
    let held = any_held(d);
    let touch = one(FingerId::DpadToTouch, places[dpad_place(d)]);
    (
        DpadState { active: held, ..d },
        if held {
            Some(
                if before.active {
                    EventV::TouchesMove(touch)
                } else {
                    EventV::TouchesDown(touch)
                },
            )
        } else if before.active {
            Some(EventV::TouchesUp(touch))
        } else {
            None
        },
    )
}

/// What a movement of the stick comes to: a finger goes down when it leaves
/// the middle, and up when it is back.
#[verifier::opaque]
pub open spec fn stick_outcome(active: bool, centered: bool, at: Coords) -> Option<EventV> {
    let touch = one(FingerId::StickToTouch, at);
    if centered {
        if active {
            Some(EventV::TouchesUp(touch))
        } else {
            None
        }
    } else if active {
        Some(EventV::TouchesMove(touch))
    } else {
        Some(EventV::TouchesDown(touch))
    }
}

/// What a button of a controller comes to.
#[verifier::opaque]
pub open spec fn button_outcome(
    c: Controls,
    button: Option<Button>,
    pressed: bool,
    dpad: Option<[Coords; 9]>,
    mapped: Option<Coords>,
) -> (Controls, Option<EventV>) {
    match button {
        None => (c, None),
        Some(b) => if is_direction(b) && dpad is Some {
            let (d, e) = dpad_outcome(c.dpad, b, pressed, dpad->0@);
            (Controls { dpad: d, ..c }, e)
        } else {
            match mapped {
                Some(at) => {
                    let touch = one(FingerId::ButtonToTouch(b), at);
                    (
                        c,
                        Some(
                            if pressed {
                                EventV::TouchesDown(touch)
                            } else {
                                EventV::TouchesUp(touch)
                            },
                        ),
                    )
                },
                None => (c, None),
            }
        },
    }
}

/// A queue with an event at its end, where there is one.
pub open spec fn with_event(q: Seq<EventV>, e: Option<EventV>) -> Seq<EventV> {
    match e {
        Some(e) => q.push(e),
        None => q,
    }
}

pub open spec fn with_tilt(s: PollV, tilt: (u32, u32), held: bool) -> PollV {
    PollV {
        controls: Controls {
            tilt: Some(Tilt { x_bits: tilt.0, y_bits: tilt.1, held }),
            ..s.controls
        },
        ..s
    }
}

/// The frame once the window has a new height: the picture keeps its distance
/// from the greatest height there was.
pub open spec fn resized(f: Frame, height: Option<u32>) -> Frame {
    match height {
        Some(h) => {
            let m = if h > f.max_height {
                h
            } else {
                f.max_height
            };
            Frame { max_height: m, viewport_y_offset: (m - h) as u32, ..f }
        },
        None => f,
    }
}

/// What an event of the mouse comes to.
#[verifier::opaque]
pub open spec fn pointer_event(s: PollV, ev: HostEvent) -> PollV {
    match ev {
        HostEvent::LeftDown { at } => pushed(
            unpinched(
                PollV { controls: Controls { mouse_left_down: true, ..s.controls }, ..s },
            ),
            EventV::TouchesDown(one(FingerId::Mouse, at)),
        ),
        HostEvent::LeftUp { at } => pushed(
            PollV { controls: Controls { mouse_left_down: false, ..s.controls }, ..s },
            EventV::TouchesUp(one(FingerId::Mouse, at)),
        ),
        HostEvent::RightDown { tilt } => with_tilt(s, tilt, true),
        HostEvent::RightUp { tilt } => with_tilt(s, tilt, false),
        HostEvent::Motion { left, right } => {
            let t = match right {
                Some(tilt) => with_tilt(s, tilt, true),
                None => s,
            };
            match left {
                Some(at) => pushed(t, EventV::TouchesMove(one(FingerId::Mouse, at))),
                None => t,
            }
        },
        _ => s,
    }
}

/// What an event of the keyboard comes to.
#[verifier::opaque]
pub open spec fn key_event(s: PollV, ev: HostEvent, text_input: bool) -> PollV {
    match ev {
        HostEvent::KeyDown(key) => match key {
            Key::T => if text_input {
                s
            } else {
                pushed(unpinched(s), EventV::ToggleMoleMenu)
            },
            Key::F12 => pushed(s, EventV::EnterDebugger),
            Key::Backspace => pushed(s, EventV::Backspace),
            Key::Return => pushed(s, EventV::Return),
            Key::Other => s,
        },
        HostEvent::Text(t) => pushed(s, EventV::Text(t@)),
        _ => s,
    }
}

/// What an event of the window comes to.
#[verifier::opaque]
pub open spec fn window_event(s: PollV, ev: HostEvent, desktop: bool) -> PollV {
    match ev {
        HostEvent::Quit => pushed(s, EventV::Quit),
        HostEvent::Resized { height } => PollV { frame: resized(s.frame, height), ..s },
        HostEvent::Minimized => if desktop && !s.controls.window_minimized {
            let u = unpinched(s);
            pushed(
                PollV { controls: Controls { window_minimized: true, ..u.controls }, ..u },
                EventV::WindowMinimized,
            )
        } else {
            s
        },
        HostEvent::Restored => if desktop && s.controls.window_minimized {
            pushed(
                PollV { controls: Controls { window_minimized: false, ..s.controls }, ..s },
                EventV::WindowRestored,
            )
        } else {
            s
        },
        _ => s,
    }
}

/// What an event of a controller comes to.
#[verifier::opaque]
pub open spec fn controller_event(s: PollV, ev: HostEvent) -> PollV {
    match ev {
        HostEvent::ControllerButton { button, pressed, dpad, mapped } => {
            let (controls, e) = button_outcome(s.controls, button, pressed, dpad, mapped);
            PollV { controller_updated: true, controls, queue: with_event(s.queue, e), ..s }
        },
        HostEvent::Stick { centered, at } => PollV {
            controller_updated: true,
            controls: Controls { stick_active: !centered, ..s.controls },
            queue: with_event(s.queue, stick_outcome(s.controls.stick_active, centered, at)),
            ..s
        },
        HostEvent::OtherAxis => PollV { controller_updated: true, ..s },
        _ => s,
    }
}

/// What one event comes to while no fingers wait.
pub open spec fn translated(s: PollV, ev: HostEvent, desktop: bool, text_input: bool) -> PollV {
    match ev {
        HostEvent::LeftDown { .. }
        | HostEvent::LeftUp { .. }
        | HostEvent::RightDown { .. }
        | HostEvent::RightUp { .. }
        | HostEvent::Motion { .. } => pointer_event(s, ev),
        HostEvent::KeyDown(_)
        | HostEvent::Text(_) => key_event(s, ev, text_input),
        HostEvent::Quit
        | HostEvent::Resized { .. }
        | HostEvent::Minimized
        | HostEvent::Restored => window_event(s, ev, desktop),
        HostEvent::ControllerButton { .. }
        | HostEvent::Stick { .. }
        | HostEvent::OtherAxis => controller_event(s, ev),
        HostEvent::WillEnterBackground => PollV {
            urgent: Some(EventV::AppWillResignActive),
            controls: Controls { enable_event_polling: false, ..s.controls },
            ..s
        },
        HostEvent::Terminating => PollV {
            urgent: Some(EventV::AppWillTerminate),
            controls: Controls { enable_event_polling: false, ..s.controls },
            ..s
        },
        HostEvent::Finger { kind, timestamp, id, at } => PollV {
            batch: Some(
                BatchV { kind, timestamp, touches: one(FingerId::Touch(id), at) },
            ),
            ..s
        },
        HostEvent::Gesture { .. } => s,
        HostEvent::Other => s,
    }
}

/// What one event comes to.
pub open spec fn polled(s: PollV, ev: HostEvent, desktop: bool, text_input: bool) -> PollV {
    match s.batch {
        Some(b) => if joins(b, ev) {
            match ev {
                HostEvent::Finger { id, at, .. } => PollV {
                    batch: Some(
                        BatchV { touches: put(b.touches, FingerId::Touch(id), at), ..b },
                    ),
                    ..s
                },
                _ => s,
            }
        } else {
            translated(flushed(s), ev, desktop, text_input)
        },
        None => translated(s, ev, desktop, text_input),
    }
}

/// How a cursor moved with a controller has changed.
#[derive(Clone, Copy, Debug)]
pub struct CursorChange {
    pub pressed: bool,
    pub pressed_changed: bool,
    pub moved: bool,
    pub at: Coords,
}

/// The event that a change of the cursor comes to.
pub open spec fn cursor_event(c: CursorChange) -> Option<EventV> {
    let touch = one(FingerId::VirtualCursor, c.at);
    if c.pressed_changed {
        if c.pressed {
            Some(EventV::TouchesDown(touch))
        } else {
            Some(EventV::TouchesUp(touch))
        }
    } else if c.pressed && c.moved {
        Some(EventV::TouchesMove(touch))
    } else {
        None
    }
}

/// What asking for events comes to at its end: fingers that wait are on their
/// way, a pinch that has not moved for a while is ended, and then, where a
/// controller was used, the cursor is looked at.
pub open spec fn poll_ended(s: PollV, now: u64, cursor: Option<CursorChange>) -> PollV {
    let f = flushed(s);
    let u = if pinch_idle(f.controls, now) {
        unpinched(f)
    } else {
        f
    };
    match cursor {
        Some(c) => match cursor_event(c) {
            Some(e) => if s.controller_updated {
                pushed(u, e)
            } else {
                u
            },
            None => u,
        },
        None => u,
    }
}

fn single(id: FingerId, at: Coords) -> (r: Touches)
    ensures
        r@ == one(id, at),
{
    let mut r: Touches = Vec::new();
    r.push((id, at));
    assert(r@ =~= one(id, at));
    r
}

fn put_finger(t: &mut Touches, id: FingerId, at: Coords)
    requires
        fingers_distinct(old(t)@),
    ensures
        final(t)@ == put(old(t)@, id, at),
{
    let ghost all = t@;
    let mut n: usize = 0;
    while n < t.len()
        invariant
            n <= t@.len(),
            t@ == all,
            all == old(t)@,
            fingers_distinct(all),
            forall|i: int| 0 <= i < n ==> (#[trigger] all[i]).0 != id,
        decreases t.len() - n,
    {
        if t[n].0 == id {
            assert(all[n as int].0 == id);
            t[n] = (id, at);
            return;
        }
        n = n + 1;
    }
    t.push((id, at));
}

proof fn lemma_put(t: Seq<(FingerId, Coords)>, id: FingerId, at: Coords)
    requires
        fingers_distinct(t),
    ensures
        fingers_distinct(put(t, id, at)),
        put(t, id, at).contains((id, at)),
        forall|f: FingerId, c: Coords|
            f != id ==> (#[trigger] put(t, id, at).contains((f, c)) <==> t.contains((f, c))),
{
    let p = put(t, id, at);
    let k = if has_finger(t, id) {
        choose|i: int| 0 <= i < t.len() && (#[trigger] t[i]).0 == id
    } else {
        t.len() as int
    };
    assert(p[k] == (id, at));
    assert forall|i: int, j: int| 0 <= i < j < p.len() implies (#[trigger] p[i]).0 != (
    #[trigger] p[j]).0 by {
        if i < t.len() && j < t.len() {
            assert(t[i].0 != t[j].0);
        }
        if i < t.len() && !has_finger(t, id) {
            assert(t[i].0 != id);
        }
    }
    assert forall|f: FingerId, c: Coords| f != id implies (#[trigger] p.contains((f, c))
        <==> t.contains((f, c))) by {
        if p.contains((f, c)) {
            let i = choose|i: int| 0 <= i < p.len() && p[i] == (f, c);
            assert(i != k);
            assert(t[i] == (f, c));
        }
        if t.contains((f, c)) {
            let i = choose|i: int| 0 <= i < t.len() && t[i] == (f, c);
            assert(i != k);
            assert(p[i] == (f, c));
        }
    }
}

fn held_place(d: DpadState) -> (r: usize)
    ensures
        r == dpad_place(d),
        r < 9,
{
    let column: usize = if d.right == d.left {
        1
    } else if d.right {
        2
    } else {
        0
    };
    let row: usize = if d.down == d.up {
        1
    } else if d.down {
        2
    } else {
        0
    };
    row * 3 + column
}

fn dpad_change(before: DpadState, button: Button, pressed: bool, places: &[Coords; 9]) -> (r: (
    DpadState,
    Option<Event>,
))
    requires
        is_direction(button),
    ensures
        ({
            let (d, e) = dpad_outcome(before, button, pressed, places@);
            &&& r.0 == d
            &&& match r.1 {
                Some(v) => e == Some(v@),
                None => e is None,
            }
        }),
{
    proof {
        reveal(dpad_outcome);
    }
    let mut d = before;
    match button {
        Button::DPadLeft => d.left = pressed,
        Button::DPadRight => d.right = pressed,
        Button::DPadUp => d.up = pressed,
        _ => d.down = pressed,
    }
    let at = places[held_place(d)];
    let held = d.left || d.right || d.up || d.down;
    let was = d.active;
    d.active = held;
    let touch = single(FingerId::DpadToTouch, at);
    if !was && held {
        (d, Some(Event::TouchesDown(touch)))
    } else if was && held {
        (d, Some(Event::TouchesMove(touch)))
    } else if was && !held {
        (d, Some(Event::TouchesUp(touch)))
    } else {
        (d, None)
    }
}

/// Whether it is time to ask the host for events again.
pub open spec fn is_due(last_polled: Option<u64>, now: u64) -> bool {
    match last_polled {
        Some(t) => now - t >= POLL_EVERY,
        None => true,
    }
}

/// Events are asked for twice in a frame of a sixtieth of a second at most, and
/// at once where they must not be put off.
pub proof fn law_when_events_are_asked_for(t: u64, now: u64)
    ensures
        is_due(None, now),
        is_due(Some(t), now) <==> now - t >= 8_333_333,
{
}

impl Window {
    /// Whether it is time to ask the host for events again; notes it. Each
    /// event is then given to [`Window::poll_step`], as long as events are
    /// asked for, and at the end [`Window::poll_end`] is called.
    pub fn poll_for_events(&mut self, now: u64) -> (due: bool)
        requires
            old(self).frame.on_main_stack,
        ensures
            due == is_due(old(self).controls.last_polled, now),
            due == (old(self).controls.last_polled matches Some(t) ==> now - t >= POLL_EVERY),
            final(self).controls == (if due {
                Controls { last_polled: Some(now), ..old(self).controls }
            } else {
                old(self).controls
            }),
            final(self).event_queue == old(self).event_queue,
            final(self).high_priority_event == old(self).high_priority_event,
            final(self).frame == old(self).frame,
            final(self).controllers == old(self).controllers,
    {
        if let Some(t) = self.controls.last_polled {
            if now.saturating_sub(t) < POLL_EVERY {
                return false;
            }
        }
        self.controls = Controls { last_polled: Some(now), ..self.controls };
        true
    }

    fn flush(&mut self, poll: &mut Poll)
        ensures
            poll_v(*final(self), *final(poll)) == flushed(poll_v(*old(self), *old(poll))),
            final(self).controllers == old(self).controllers,
            final(poll).desktop == old(poll).desktop,
            final(poll).text_input == old(poll).text_input,
            final(poll).batch is None,
    {
        let ghost before = poll_v(*self, *poll);
        if let Some(b) = poll.batch.take() {
            let Batch { kind, timestamp: _, touches } = b;
            match kind {
                FingerKind::Down => self.push(Event::TouchesDown(touches)),
                FingerKind::Motion => self.push(Event::TouchesMove(touches)),
                FingerKind::Up => self.push(Event::TouchesUp(touches)),
            }
        }
        assert(poll_v(*self, *poll) =~= flushed(before));
    }

    fn dpad_button(&mut self, button: Button, pressed: bool, places: &[Coords; 9])
        requires
            is_direction(button),
        ensures
            ({
                let (d, e) = dpad_outcome(old(self).controls.dpad, button, pressed, places@);
                &&& final(self).controls == (Controls { dpad: d, ..old(self).controls })
                &&& final(self).queue() == with_event(old(self).queue(), e)
            }),
            final(self).high_priority_event == old(self).high_priority_event,
            final(self).frame == old(self).frame,
            final(self).controllers == old(self).controllers,
    {
        let (d, e) = dpad_change(self.controls.dpad, button, pressed, places);
        self.controls = Controls { dpad: d, ..self.controls };
        if let Some(e) = e {
            self.push(e);
        }
    }

    fn stick(&mut self, centered: bool, at: Coords)
        ensures
            final(self).controls == (Controls { stick_active: !centered, ..old(self).controls }),
            final(self).queue() == with_event(
                old(self).queue(),
                stick_outcome(old(self).controls.stick_active, centered, at),
            ),
            final(self).high_priority_event == old(self).high_priority_event,
            final(self).frame == old(self).frame,
            final(self).controllers == old(self).controllers,
    {
        proof {
            reveal(stick_outcome);
        }
        let touch = single(FingerId::StickToTouch, at);
        if centered {
            if self.controls.stick_active {
                self.controls = Controls { stick_active: false, ..self.controls };
                self.push(Event::TouchesUp(touch));
            }
        } else if !self.controls.stick_active {
            self.controls = Controls { stick_active: true, ..self.controls };
            self.push(Event::TouchesDown(touch));
        } else {
            self.push(Event::TouchesMove(touch));
        }
    }

    fn set_tilt(&mut self, tilt: (u32, u32), held: bool)
        ensures
            final(self).controls == (Controls {
                tilt: Some(Tilt { x_bits: tilt.0, y_bits: tilt.1, held }),
                ..old(self).controls
            }),
            final(self).event_queue == old(self).event_queue,
            final(self).high_priority_event == old(self).high_priority_event,
            final(self).frame == old(self).frame,
            final(self).controllers == old(self).controllers,
    {
        self.controls =
        Controls { tilt: Some(Tilt { x_bits: tilt.0, y_bits: tilt.1, held }), ..self.controls };
    }

    /// The window has a new height.
    pub fn note_height(&mut self, height: Option<u32>)
        ensures
            final(self).frame == resized(old(self).frame, height),
            final(self).controllers == old(self).controllers,
            final(self).controls == old(self).controls,
            final(self).event_queue == old(self).event_queue,
            final(self).high_priority_event == old(self).high_priority_event,
    {
        if let Some(h) = height {
            let mut f = self.frame;
            if h > f.max_height {
                f.max_height = h;
            }
            f.viewport_y_offset = f.max_height - h;
            self.frame = f;
        }
    }

    fn pointer(&mut self, poll: &mut Poll, ev: HostEvent)
        requires
            old(self).pinch_wf(),
            old(poll).batch is None,
        ensures
            poll_v(*final(self), *final(poll)) == pointer_event(
                poll_v(*old(self), *old(poll)),
                ev,
            ),
            final(self).pinch_wf(),
            final(self).controllers == old(self).controllers,
            final(poll).desktop == old(poll).desktop,
            final(poll).text_input == old(poll).text_input,
            final(poll).batch is None,
    {
        let ghost w0 = *self;
        let ghost p0 = *poll;
        let ghost e0 = ev;
        proof {
            reveal(pointer_event);
        }
        match ev {
            HostEvent::LeftDown { at } => {
                self.controls = Controls { mouse_left_down: true, ..self.controls };
                self.end_wheel_pinch();
                self.push(Event::TouchesDown(single(FingerId::Mouse, at)));
            },
            HostEvent::LeftUp { at } => {
                self.controls = Controls { mouse_left_down: false, ..self.controls };
                self.push(Event::TouchesUp(single(FingerId::Mouse, at)));
            },
            HostEvent::RightDown { tilt } => self.set_tilt(tilt, true),
            HostEvent::RightUp { tilt } => self.set_tilt(tilt, false),
            HostEvent::Motion { left, right } => {
                if let Some(tilt) = right {
                    self.set_tilt(tilt, true);
                }
                if let Some(at) = left {
                    self.push(Event::TouchesMove(single(FingerId::Mouse, at)));
                }
            },
            _ => {},
        }
        assert(poll_v(*self, *poll) =~= pointer_event(poll_v(w0, p0), e0));
    }

    fn key(&mut self, poll: &mut Poll, ev: HostEvent)
        requires
            old(self).pinch_wf(),
            old(poll).batch is None,
        ensures
            poll_v(*final(self), *final(poll)) == key_event(
                poll_v(*old(self), *old(poll)),
                ev, old(poll).text_input,
            ),
            final(self).pinch_wf(),
            final(self).controllers == old(self).controllers,
            final(poll).desktop == old(poll).desktop,
            final(poll).text_input == old(poll).text_input,
            final(poll).batch is None,
    {
        let ghost w0 = *self;
        let ghost p0 = *poll;
        let ghost e0 = ev;
        proof {
            reveal(key_event);
        }
        match ev {
            HostEvent::KeyDown(key) => match key {
                Key::T => {
                    if !poll.text_input {
                        self.end_wheel_pinch();
                        self.push(Event::ToggleMoleMenu);
                    }
                },
                Key::F12 => self.push(Event::EnterDebugger),
                Key::Backspace => self.push(Event::TextInput(TextInputEvent::Backspace)),
                Key::Return => self.push(Event::TextInput(TextInputEvent::Return)),
                Key::Other => {},
            },
            HostEvent::Text(t) => self.push(Event::TextInput(TextInputEvent::Text(t))),
            _ => {},
        }
        assert(poll_v(*self, *poll) =~= key_event(poll_v(w0, p0), e0, p0.text_input));
    }

    fn window(&mut self, poll: &mut Poll, ev: HostEvent)
        requires
            old(self).pinch_wf(),
            old(poll).batch is None,
        ensures
            poll_v(*final(self), *final(poll)) == window_event(
                poll_v(*old(self), *old(poll)),
                ev, old(poll).desktop,
            ),
            final(self).pinch_wf(),
            final(self).controllers == old(self).controllers,
            final(poll).desktop == old(poll).desktop,
            final(poll).text_input == old(poll).text_input,
            final(poll).batch is None,
    {
        let ghost w0 = *self;
        let ghost p0 = *poll;
        let ghost e0 = ev;
        proof {
            reveal(window_event);
        }
        match ev {
            HostEvent::Quit => self.push(Event::Quit),
            HostEvent::Resized { height } => self.note_height(height),
            HostEvent::Minimized => {
                if poll.desktop && !self.controls.window_minimized {
                    self.end_wheel_pinch();
                    self.controls = Controls { window_minimized: true, ..self.controls };
                    self.push(Event::WindowMinimized);
                }
            },
            HostEvent::Restored => {
                if poll.desktop && self.controls.window_minimized {
                    self.controls = Controls { window_minimized: false, ..self.controls };
                    self.push(Event::WindowRestored);
                }
            },
            _ => {},
        }
        assert(poll_v(*self, *poll) =~= window_event(poll_v(w0, p0), e0, p0.desktop));
    }

    fn controller(&mut self, poll: &mut Poll, ev: HostEvent)
        requires
            old(self).pinch_wf(),
            old(poll).batch is None,
        ensures
            poll_v(*final(self), *final(poll)) == controller_event(
                poll_v(*old(self), *old(poll)),
                ev,
            ),
            final(self).pinch_wf(),
            final(self).controllers == old(self).controllers,
            final(poll).desktop == old(poll).desktop,
            final(poll).text_input == old(poll).text_input,
            final(poll).batch is None,
    {
        let ghost w0 = *self;
        let ghost p0 = *poll;
        let ghost e0 = ev;
        proof {
            reveal(controller_event);
        }
        match ev {
            HostEvent::ControllerButton { button, pressed, dpad, mapped } => {
                poll.controller_updated = true;
                self.controller_button(button, pressed, &dpad, mapped);
            },
            HostEvent::Stick { centered, at } => {
                poll.controller_updated = true;
                self.stick(centered, at);
            },
            HostEvent::OtherAxis => {
                poll.controller_updated = true;
            },
            _ => {},
        }
        assert(poll_v(*self, *poll) =~= controller_event(poll_v(w0, p0), e0));
    }

    fn translate(&mut self, poll: &mut Poll, ev: HostEvent)
        requires
            old(self).pinch_wf(),
            old(poll).batch is None,
            ev is WillEnterBackground || ev is Terminating ==> old(self).urgent() is None,
        ensures
            poll_v(*final(self), *final(poll)) == translated(
                poll_v(*old(self), *old(poll)),
                ev,
                old(poll).desktop,
                old(poll).text_input,
            ),
            final(self).pinch_wf(),
            final(self).controllers == old(self).controllers,
            final(poll).desktop == old(poll).desktop,
            final(poll).text_input == old(poll).text_input,
            final(poll).batch matches Some(b) ==> fingers_distinct(b.touches@),
    {
        let ghost w0 = *self;
        let ghost p0 = *poll;
        let ghost e0 = ev;
        match ev {
            HostEvent::LeftDown { .. }
            | HostEvent::LeftUp { .. }
            | HostEvent::RightDown { .. }
            | HostEvent::RightUp { .. }
            | HostEvent::Motion { .. } => self.pointer(poll, ev),
            HostEvent::KeyDown(_)
            | HostEvent::Text(_) => self.key(poll, ev),
            HostEvent::Quit
            | HostEvent::Resized { .. }
            | HostEvent::Minimized
            | HostEvent::Restored => self.window(poll, ev),
            HostEvent::ControllerButton { .. }
            | HostEvent::Stick { .. }
            | HostEvent::OtherAxis => self.controller(poll, ev),
            HostEvent::WillEnterBackground => {
                self.high_priority_event = Some(Event::AppWillResignActive);
                self.controls = Controls { enable_event_polling: false, ..self.controls };
            },
            HostEvent::Terminating => {
                self.high_priority_event = Some(Event::AppWillTerminate);
                self.controls = Controls { enable_event_polling: false, ..self.controls };
            },
            HostEvent::Finger { kind, timestamp, id, at } => {
                poll.batch =
                Some(Batch { kind, timestamp, touches: single(FingerId::Touch(id), at) });
            },
            HostEvent::Gesture { .. } => {},
            HostEvent::Other => {},
        }
        proof {
            assert(poll_v(*self, *poll) =~= translated(
                poll_v(w0, p0),
                e0,
                p0.desktop,
                p0.text_input,
            ));
        }
    }

    fn controller_button(
        &mut self,
        button: Option<Button>,
        pressed: bool,
        dpad: &Option<[Coords; 9]>,
        mapped: Option<Coords>,
    )
        ensures
            ({
                let (controls, e) = button_outcome(
                    old(self).controls,
                    button,
                    pressed,
                    *dpad,
                    mapped,
                );
                &&& final(self).controls == controls
                &&& final(self).queue() == with_event(old(self).queue(), e)
            }),
            final(self).controls.pinch == old(self).controls.pinch,
            final(self).high_priority_event == old(self).high_priority_event,
            final(self).frame == old(self).frame,
            final(self).controllers == old(self).controllers,
    {
        proof {
            reveal(button_outcome);
        }
        if let Some(b) = button {
            let direction = match b {
                Button::DPadLeft | Button::DPadUp | Button::DPadRight | Button::DPadDown => true,
                _ => false,
            };
            if direction {
                if let Some(places) = dpad {
                    self.dpad_button(b, pressed, places);
                    return;
                }
            }
            if let Some(at) = mapped {
                let touch = single(FingerId::ButtonToTouch(b), at);
                if pressed {
                    self.push(Event::TouchesDown(touch));
                } else {
                    self.push(Event::TouchesUp(touch));
                }
            }
        }
    }

    /// Translates one event of the host.
    pub fn poll_step(&mut self, poll: &mut Poll, ev: HostEvent)
        requires
            old(self).pinch_wf(),
            old(poll).batch matches Some(b) ==> fingers_distinct(b.touches@),
            ev is WillEnterBackground || ev is Terminating ==> old(self).urgent() is None,
        ensures
            poll_v(*final(self), *final(poll)) == polled(
                poll_v(*old(self), *old(poll)),
                ev,
                old(poll).desktop,
                old(poll).text_input,
            ),
            final(self).pinch_wf(),
            final(self).controllers == old(self).controllers,
            final(poll).desktop == old(poll).desktop,
            final(poll).text_input == old(poll).text_input,
            final(poll).batch matches Some(b) ==> fingers_distinct(b.touches@),
    {
        let ghost w0 = *self;
        let ghost p0 = *poll;
        let ghost e0 = ev;
        if let Some(b) = &mut poll.batch {
            match &ev {
                HostEvent::Finger { kind, timestamp, id, at } => {
                    if *kind == b.kind && *timestamp == b.timestamp {
                        proof {
                            lemma_put(b.touches@, FingerId::Touch(*id), *at);
                        }
                        put_finger(&mut b.touches, FingerId::Touch(*id), *at);
                        assert(poll_v(*self, *poll) =~= polled(
                            poll_v(w0, p0),
                            e0,
                            p0.desktop,
                            p0.text_input,
                        ));
                        return;
                    }
                },
                HostEvent::Gesture { timestamp } => {
                    if *timestamp == b.timestamp {
                        return;
                    }
                },
                _ => {},
            }
        }
        self.flush(poll);
        self.translate(poll, ev);
    }

    /// Ends asking for events. `cursor` tells how a cursor moved with a
    /// controller has changed; it counts only where a controller was used.
    pub fn poll_end(&mut self, poll: Poll, now: u64, cursor: Option<CursorChange>)
        requires
            old(self).pinch_wf(),
        ensures
            poll_with(*final(self), None, poll.controller_updated) == poll_ended(
                poll_v(*old(self), poll),
                now,
                cursor,
            ),
            final(self).pinch_wf(),
            final(self).controllers == old(self).controllers,
    {
        let ghost w0 = *self;
        let ghost p0 = poll;
        let mut poll = poll;
        self.flush(&mut poll);
        if self.pinch_is_idle(now) {
            self.end_wheel_pinch();
        }
        let cursor_used = if poll.controller_updated {
            cursor
        } else {
            None
        };
        if let Some(c) = cursor_used {
            match (c.pressed, c.pressed_changed, c.moved) {
                (true, true, _) => self.push(
                    Event::TouchesDown(single(FingerId::VirtualCursor, c.at)),
                ),
                (false, true, _) => self.push(
                    Event::TouchesUp(single(FingerId::VirtualCursor, c.at)),
                ),
                (true, _, true) => self.push(
                    Event::TouchesMove(single(FingerId::VirtualCursor, c.at)),
                ),
                _ => {},
            }
        }
        assert(poll_with(*self, None, p0.controller_updated) =~= poll_ended(
            poll_v(w0, p0),
            now,
            cursor,
        ));
    }
}

/// The window with a given state of asking.
pub open spec fn poll_with(w: Window, batch: Option<BatchV>, controller_updated: bool) -> PollV {
    PollV {
        queue: w.queue(),
        urgent: w.urgent(),
        controls: w.controls,
        frame: w.frame,
        batch,
        controller_updated,
    }
}

proof fn lemma_push_grows(q: Seq<EventV>, e: EventV)
    ensures
        q.is_prefix_of(q.push(e)),
        q.is_prefix_of(q),
{
    assert(q =~= q.push(e).take(q.len() as int));
    assert(q =~= q.take(q.len() as int));
}

proof fn lemma_translated_grows(s: PollV, ev: HostEvent, desktop: bool, text_input: bool)
    ensures
        s.queue.is_prefix_of(translated(s, ev, desktop, text_input).queue),
{
    reveal(pointer_event);
    reveal(key_event);
    reveal(window_event);
    reveal(controller_event);
    let after = translated(s, ev, desktop, text_input).queue;
    assert(after.len() >= s.queue.len());
    assert forall|i: int| 0 <= i < s.queue.len() implies #[trigger] after[i] == s.queue[i] by {}
    assert(s.queue =~= after.take(s.queue.len() as int));
}

/// Nothing that waits is ever lost or changed by an event: the queue only
/// grows, at its end.
pub proof fn law_queue_only_grows(s: PollV, ev: HostEvent, desktop: bool, text_input: bool)
    ensures
        s.queue.is_prefix_of(polled(s, ev, desktop, text_input).queue),
{
    lemma_push_grows(s.queue, EventV::Quit);
    lemma_translated_grows(s, ev, desktop, text_input);
    if s.batch is Some {
        lemma_push_grows(s.queue, batch_event(s.batch->0));
        lemma_translated_grows(flushed(s), ev, desktop, text_input);
    }
}

/// Direction buttons stand for one finger that goes down before it moves and
/// goes up once: after each change it is on the screen if and only if a button
/// is held.
pub proof fn law_dpad_finger_follows_buttons(
    before: DpadState,
    button: Button,
    pressed: bool,
    places: Seq<Coords>,
)
    ensures
        ({
            let (d, e) = dpad_outcome(before, button, pressed, places);
            &&& d.active == any_held(d)
            &&& e is None <==> !before.active && !d.active
            &&& e is Some ==> match e->0 {
                EventV::TouchesDown(_) => !before.active && d.active,
                EventV::TouchesMove(_) => before.active && d.active,
                EventV::TouchesUp(_) => before.active && !d.active,
                _ => false,
            }
        }),
{
    reveal(dpad_outcome);
}

/// The stick stands for one finger in the same way.
pub proof fn law_stick_finger_follows_stick(active: bool, centered: bool, at: Coords)
    ensures
        ({
            let e = stick_outcome(active, centered, at);
            &&& e is None <==> !active && centered
            &&& e is Some ==> match e->0 {
                EventV::TouchesDown(_) => !active && !centered,
                EventV::TouchesMove(_) => active && !centered,
                EventV::TouchesUp(_) => active && centered,
                _ => false,
            }
        }),
{
    reveal(stick_outcome);
}

/// A finger that reports again within one moment replaces its earlier place;
/// no finger is reported twice in one event.
pub proof fn law_fingers_are_reported_once(t: Seq<(FingerId, Coords)>, id: FingerId, at: Coords)
    requires
        fingers_distinct(t),
    ensures
        fingers_distinct(put(t, id, at)),
        put(t, id, at).contains((id, at)),
        forall|f: FingerId, c: Coords|
            f != id ==> (#[trigger] put(t, id, at).contains((f, c)) <==> t.contains((f, c))),
{
    lemma_put(t, id, at);
}

} // verus!
