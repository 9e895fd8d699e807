//! Events for the app, and the state of the host's input.

use vstd::prelude::*;
use std::collections::VecDeque;
use crate::window::device::{upright_size, DeviceFamily, DeviceOrientation, Resolution};
use crate::window::pinch::PinchState;

verus! {

/// A point of the device's screen, held upright, in whole points.
pub type Coords = (i32, i32);

/// What a touch comes from.
#[derive(Clone, Copy, Debug, PartialEq, Eq, Hash, Structural)]
pub enum FingerId {
    Mouse,
    Touch(i64),
    VirtualCursor,
    ButtonToTouch(Button),
    StickToTouch,
    DpadToTouch,
    /// The first finger of a pinch made with the wheel.
    PinchA,
    /// The second finger of a pinch made with the wheel.
    PinchB,
}

/// Buttons of a controller that can stand for touches.
#[derive(Clone, Copy, Debug, PartialEq, Eq, Hash, Structural)]
pub enum Button {
    DPadLeft,
    DPadUp,
    DPadRight,
    DPadDown,
    Start,
    A,
    B,
    X,
    Y,
    LeftShoulder,
}

#[derive(Debug)]
pub enum TextInputEvent {
    Text(String),
    Backspace,
    Return,
}

/// Fingers and where they are; no finger occurs twice.
pub type Touches = Vec<(FingerId, Coords)>;

/// Events for the app.
#[derive(Debug)]
pub enum Event {
    /// The user asks to quit.
    Quit,
    /// The host is about to make the app inactive.
    AppWillResignActive,
    /// The host is about to end the app.
    AppWillTerminate,
    TouchesDown(Touches),
    TouchesMove(Touches),
    TouchesUp(Touches),
    TouchesCancel(Touches),
    /// The user asks for the debugger.
    EnterDebugger,
    /// The user asks for the menu of switches.
    ToggleMoleMenu,
    TextInput(TextInputEvent),
    WindowMinimized,
    WindowRestored,
}

/// An event as a mathematical value.
#[verifier::ext_equal]
pub enum EventV {
    Quit,
    AppWillResignActive,
    AppWillTerminate,
    TouchesDown(Seq<(FingerId, Coords)>),
    TouchesMove(Seq<(FingerId, Coords)>),
    TouchesUp(Seq<(FingerId, Coords)>),
    TouchesCancel(Seq<(FingerId, Coords)>),
    EnterDebugger,
    ToggleMoleMenu,
    Text(Seq<char>),
    Backspace,
    Return,
    WindowMinimized,
    WindowRestored,
}

impl View for Event {
    type V = EventV;

    open spec fn view(&self) -> EventV {
        match *self {
            Event::Quit => EventV::Quit,
            Event::AppWillResignActive => EventV::AppWillResignActive,
            Event::AppWillTerminate => EventV::AppWillTerminate,
            Event::TouchesDown(t) => EventV::TouchesDown(t@),
            Event::TouchesMove(t) => EventV::TouchesMove(t@),
            Event::TouchesUp(t) => EventV::TouchesUp(t@),
            Event::TouchesCancel(t) => EventV::TouchesCancel(t@),
            Event::EnterDebugger => EventV::EnterDebugger,
            Event::ToggleMoleMenu => EventV::ToggleMoleMenu,
            Event::TextInput(TextInputEvent::Text(s)) => EventV::Text(s@),
            Event::TextInput(TextInputEvent::Backspace) => EventV::Backspace,
            Event::TextInput(TextInputEvent::Return) => EventV::Return,
            Event::WindowMinimized => EventV::WindowMinimized,
            Event::WindowRestored => EventV::WindowRestored,
        }
    }
}

/// Whether an event is input of the user for the app.
pub open spec fn is_input(e: EventV) -> bool {
    match e {
        EventV::TouchesDown(_)
        | EventV::TouchesMove(_)
        | EventV::TouchesUp(_)
        | EventV::TouchesCancel(_)
        | EventV::Text(_)
        | EventV::Backspace
        | EventV::Return
        | EventV::ToggleMoleMenu => true,
        _ => false,
    }
}

fn event_is_input(e: &Event) -> (r: bool)
    ensures
        r == is_input(e@),
{
    match e {
        Event::TouchesDown(_)
        | Event::TouchesMove(_)
        | Event::TouchesUp(_)
        | Event::TouchesCancel(_)
        | Event::ToggleMoleMenu => true,
        Event::TextInput(TextInputEvent::Text(_)) => true,
        Event::TextInput(TextInputEvent::Backspace) => true,
        Event::TextInput(TextInputEvent::Return) => true,
        _ => false,
    }
}

/// The events of a queue.
pub open spec fn events_v(q: Seq<Event>) -> Seq<EventV> {
    Seq::new(q.len(), |i: int| q[i]@)
}

/// The direction buttons that are held, and whether they stand for a finger on
/// the screen.
#[derive(Clone, Copy, Debug, PartialEq, Eq, Structural)]
pub struct DpadState {
    pub left: bool,
    pub right: bool,
    pub up: bool,
    pub down: bool,
    pub active: bool,
}

/// A cursor moved with a controller; its place is a pair of single-precision
/// numbers, given by their bits.
#[derive(Clone, Copy, Debug, PartialEq, Eq, Structural)]
pub struct Cursor {
    pub x_bits: u32,
    pub y_bits: u32,
    pub pressed: bool,
    pub visible: bool,
}

/// A tilt made with the mouse, given by the bits of two single-precision
/// numbers, and whether it is still made.
#[derive(Clone, Copy, Debug, PartialEq, Eq, Structural)]
pub struct Tilt {
    pub x_bits: u32,
    pub y_bits: u32,
    pub held: bool,
}

/// State of the host's input. Times are nanoseconds of a clock that never goes
/// back.
#[derive(Clone, Copy, Debug, PartialEq, Eq)]
pub struct Controls {
    pub enable_event_polling: bool,
    /// When events were last asked for; missing where the next time must not
    /// be put off.
    pub last_polled: Option<u64>,
    pub mouse_left_down: bool,
    pub window_minimized: bool,
    pub stick_active: bool,
    pub dpad: DpadState,
    pub cursor: Option<Cursor>,
    pub tilt: Option<Tilt>,
    pub pinch: Option<PinchState>,
}

/// How the device is shown.
#[derive(Clone, Copy, Debug, PartialEq, Eq, Structural)]
pub struct Frame {
    pub fullscreen: bool,
    /// Whether the host has only one app on screen and turns it, as on Android.
    pub rotatable: bool,
    pub scale_hack: u32,
    pub lock_aspect: bool,
    pub device_family: DeviceFamily,
    pub device_orientation: DeviceOrientation,
    /// The greatest height the window has had, where the host needs to know.
    pub max_height: u32,
    pub viewport_y_offset: u32,
    pub default_framebuffer: u32,
    pub default_renderbuffer: u32,
    pub on_main_stack: bool,
}

/// The window's events and state.
#[derive(Debug)]
pub struct Window {
    pub event_queue: VecDeque<Event>,
    /// An event that goes before all others.
    pub high_priority_event: Option<Event>,
    pub controls: Controls,
    pub frame: Frame,
    /// The controllers in use, by the host's numbers for them.
    pub controllers: Vec<u32>,
}

/// The events that are not input.
pub open spec fn without_input(q: Seq<EventV>) -> Seq<EventV>
    decreases q.len(),
{
    if q.len() == 0 {
        Seq::empty()
    } else if is_input(q.last()) {
        without_input(q.drop_last())
    } else {
        without_input(q.drop_last()).push(q.last())
    }
}

/// The state with every key, finger and gesture released.
pub open spec fn released(c: Controls) -> Controls {
    Controls {
        pinch: None,
        mouse_left_down: false,
        dpad: DpadState { left: false, right: false, up: false, down: false, active: false },
        stick_active: false,
        cursor: match c.cursor {
            Some(p) => Some(Cursor { pressed: false, ..p }),
            None => None,
        },
        tilt: match c.tilt {
            Some(t) => Some(Tilt { held: false, ..t }),
            None => None,
        },
        ..c
    }
}

impl Window {
    /// The events that wait.
    pub open spec fn queue(&self) -> Seq<EventV> {
        events_v(self.event_queue@)
    }

    /// The event that goes before all others.
    pub open spec fn urgent(&self) -> Option<EventV> {
        match self.high_priority_event {
            Some(e) => Some(e@),
            None => None,
        }
    }

    /// A window without events.
    pub fn new(frame: Frame) -> (w: Window)
        ensures
            w.queue() == Seq::<EventV>::empty(),
            w.urgent() is None,
            w.frame == frame,
            w.controllers@.len() == 0,
            w.controls.enable_event_polling,
            w.controls.last_polled is None && w.controls.pinch is None && w.controls.cursor is None
                && w.controls.tilt is None,
            !w.controls.mouse_left_down && !w.controls.window_minimized
                && !w.controls.stick_active,
            w.controls.dpad == (DpadState {
                left: false,
                right: false,
                up: false,
                down: false,
                active: false,
            }),
    {
        let w = Window {
            event_queue: VecDeque::new(),
            high_priority_event: None,
            controls: Controls {
                enable_event_polling: true,
                last_polled: None,
                mouse_left_down: false,
                window_minimized: false,
                stick_active: false,
                dpad: DpadState { left: false, right: false, up: false, down: false, active: false },
                cursor: None,
                tilt: None,
                pinch: None,
            },
            frame,
            controllers: Vec::new(),
        };
        assert(w.queue() =~= Seq::<EventV>::empty());
        w
    }

    /// Puts an event at the end of the queue.
    pub fn push(&mut self, e: Event)
        ensures
            final(self).queue() == old(self).queue().push(e@),
            final(self).high_priority_event == old(self).high_priority_event,
            final(self).controls == old(self).controls,
            final(self).frame == old(self).frame,
            final(self).controllers == old(self).controllers,
    {
        let ghost before = self.queue();
        let ghost v = e@;
        self.event_queue.push_back(e);
        assert(self.queue() =~= before.push(v));
    }

    /// Takes the next event: an urgent one first, then the oldest.
    pub fn pop_event(&mut self) -> (r: Option<Event>)
        ensures
            ({
                let (e, rest) = next_event(old(self).urgent(), old(self).queue());
                &&& r is Some == e is Some
                &&& r is Some ==> r->0@ == e->0
                &&& final(self).queue() == rest
            }),
            match old(self).urgent() {
                Some(e) => r is Some && r->0@ == e && final(self).queue() == old(self).queue(),
                None => if old(self).queue().len() > 0 {
                    r is Some && r->0@ == old(self).queue()[0] && final(self).queue() == old(self).queue().skip(1)
                } else {
                    r is None && final(self).queue() == old(self).queue()
                },
            },
            final(self).urgent() is None,
            final(self).controls == old(self).controls,
            final(self).frame == old(self).frame,
            final(self).controllers == old(self).controllers,
    {
        let ghost before = self.queue();
        if self.high_priority_event.is_some() {
            return self.high_priority_event.take();
        }
        let r = self.event_queue.pop_front();
        assert(before.len() > 0 ==> self.queue() =~= before.skip(1));
        assert(before.len() == 0 ==> self.queue() =~= before);
        r
    }

    /// Drops the input that waits and releases every key, finger and gesture;
    /// says how many events were dropped. Other events stay, in order.
    pub fn discard_pending_input(&mut self) -> (dropped: usize)
        ensures
            final(self).queue() == without_input(old(self).queue()),
            dropped == old(self).queue().len() - without_input(old(self).queue()).len(),
            final(self).controls == released(old(self).controls),
            final(self).high_priority_event == old(self).high_priority_event,
            final(self).frame == old(self).frame,
            final(self).controllers == old(self).controllers,
    {
        let ghost all = self.queue();
        let count: usize = self.event_queue.len();
        let mut seen: usize = 0;
        let mut dropped: usize = 0;
        let ghost rest = self.queue();
        assert(all.take(0) =~= Seq::empty());
        assert(all.skip(0) + Seq::<EventV>::empty() =~= all);
        while seen < count
            invariant
                seen <= count,
                count == all.len(),
                all == old(self).queue(),
                self.queue() =~= all.skip(seen as int) + without_input(all.take(seen as int)),
                dropped + without_input(all.take(seen as int)).len() == seen,
                self.controls == old(self).controls,
                self.high_priority_event == old(self).high_priority_event,
                self.frame == old(self).frame,
                self.controllers == old(self).controllers,
            decreases count - seen,
        {
            let ghost before = self.queue();
            proof {
                assert(before[0] == all[seen as int]);
                assert(all.take(seen + 1).drop_last() =~= all.take(seen as int));
                assert(all.take(seen + 1).last() == all[seen as int]);
            }
            if let Some(e) = self.event_queue.pop_front() {
                assert(self.queue() =~= before.skip(1));
                if event_is_input(&e) {
                    dropped = dropped + 1;
                } else {
                    self.push(e);
                }
            }
            seen = seen + 1;
            assert(self.queue() =~= all.skip(seen as int) + without_input(all.take(seen as int)));
        }
        proof {
            assert(all.take(count as int) =~= all);
            assert(all.skip(count as int) =~= Seq::empty());
            assert(self.queue() =~= without_input(all));
        }
        let c = self.controls;
        self.controls =
        Controls {
            pinch: None,
            mouse_left_down: false,
            dpad: DpadState { left: false, right: false, up: false, down: false, active: false },
            stick_active: false,
            cursor: match c.cursor {
                Some(p) => Some(Cursor { pressed: false, ..p }),
                None => None,
            },
            tilt: match c.tilt {
                Some(t) => Some(Tilt { held: false, ..t }),
                None => None,
            },
            ..c
        };
        dropped
    }

    pub fn device_family(&self) -> (r: DeviceFamily)
        ensures
            r == self.frame.device_family,
    {
        self.frame.device_family
    }

    /// How the device is held.
    pub fn current_rotation(&self) -> (r: DeviceOrientation)
        ensures
            r == self.frame.device_orientation,
    {
        self.frame.device_orientation
    }

    /// The size of the device's screen, upright and not made larger.
    pub fn size_unrotated_unscaled(&self, res: &Resolution) -> (r: (u32, u32))
        ensures
            r == upright_size(self.frame.device_family, *res),
    {
        self.frame.device_family.portrait_size(res)
    }

    /// Whether the window's code runs on the program's main stack.
    pub fn on_main_stack(&self) -> (r: bool)
        ensures
            r == self.frame.on_main_stack,
    {
        self.frame.on_main_stack
    }

    pub fn default_framebuffer(&self) -> (r: u32)
        ensures
            r == self.frame.default_framebuffer,
    {
        self.frame.default_framebuffer
    }

    pub fn default_renderbuffer(&self) -> (r: u32)
        ensures
            r == self.frame.default_renderbuffer,
    {
        self.frame.default_renderbuffer
    }

    /// What to add to the height at which the picture is drawn.
    pub fn viewport_y_offset(&self) -> (r: u32)
        ensures
            r == self.frame.viewport_y_offset,
    {
        self.frame.viewport_y_offset
    }

    /// The place and the button of the cursor, where it is seen. `smooth` is
    /// its place before it was made to stick, where it was.
    pub fn virtual_cursor_visible_at(&self, smooth: Option<(u32, u32)>) -> (r: Option<
        (u32, u32, bool),
    >)
        ensures
            r == cursor_shown(self.controls.cursor, smooth),
            r == (match self.controls.cursor {
                Some(c) => if c.visible {
                    match smooth {
                        Some((x, y)) => Some((x, y, c.pressed)),
                        None => Some((c.x_bits, c.y_bits, c.pressed)),
                    }
                } else {
                    None
                },
                None => None,
            }),
    {
        match self.controls.cursor {
            Some(c) => {
                if !c.visible {
                    return None;
                }
                match smooth {
                    Some((x, y)) => Some((x, y, c.pressed)),
                    None => Some((c.x_bits, c.y_bits, c.pressed)),
                }
            },
            None => None,
        }
    }
}

proof fn lemma_without_input(q: Seq<EventV>)
    ensures
        forall|i: int| 0 <= i < without_input(q).len() ==> !is_input(#[trigger] without_input(q)[i]),
        without_input(q).len() <= q.len(),
        without_input(without_input(q)) == without_input(q),
        forall|e: EventV| #[trigger]
            without_input(q).contains(e) <==> q.contains(e) && !is_input(e),
    decreases q.len(),
{
    if q.len() > 0 {
        let h = q.drop_last();
        lemma_without_input(h);
        let w = without_input(h);
        if !is_input(q.last()) {
            assert(w.push(q.last()).drop_last() =~= w);
        }
        assert forall|e: EventV| #[trigger] without_input(q).contains(e) <==> q.contains(e)
            && !is_input(e) by {
            if without_input(q).contains(e) {
                let i = choose|i: int| 0 <= i < without_input(q).len() && without_input(q)[i] == e;
                if i < w.len() {
                    assert(w[i] == e);
                    assert(w.contains(e));
                    let j = choose|j: int| 0 <= j < h.len() && h[j] == e;
                    assert(q[j] == e);
                } else {
                    assert(q[q.len() - 1] == e);
                }
            }
            if q.contains(e) && !is_input(e) {
                let j = choose|j: int| 0 <= j < q.len() && q[j] == e;
                if j < h.len() {
                    assert(h[j] == e);
                    assert(w.contains(e));
                    let i = choose|i: int| 0 <= i < w.len() && w[i] == e;
                    assert(without_input(q)[i] == e);
                } else {
                    assert(without_input(q)[w.len() as int] == e);
                }
            }
        }
    }
}

/// After input was dropped none is left, every other event is still there, and
/// dropping again changes nothing.
pub proof fn law_discarded_input_is_gone(q: Seq<EventV>, c: Controls)
    ensures
        forall|i: int| 0 <= i < without_input(q).len() ==> !is_input(#[trigger] without_input(q)[i]),
        forall|e: EventV| !is_input(e) ==> (#[trigger] without_input(q).contains(e) <==> q.contains(e)),
        without_input(without_input(q)) == without_input(q),
        released(released(c)) == released(c),
{
    lemma_without_input(q);
}

/// The next event and what waits after it was taken.
pub open spec fn next_event(urgent: Option<EventV>, q: Seq<EventV>) -> (Option<EventV>, Seq<EventV>) {
    match urgent {
        Some(e) => (Some(e), q),
        None => if q.len() > 0 {
            (Some(q[0]), q.skip(1))
        } else {
            (None, q)
        },
    }
}

/// Events are taken in the order in which they came, one at a time; an urgent
/// one goes before all that wait, and they keep waiting. Where nothing waits,
/// there is none.
pub proof fn law_events_come_in_order(e: EventV, f: EventV, q: Seq<EventV>)
    ensures
        next_event(Some(e), q) == (Some(e), q),
        next_event(None, seq![e] + q) == (Some(e), q),
        next_event(None, Seq::empty()).0 is None,
        q.len() > 0 ==> next_event(None, q.push(f)).0 == next_event(None, q).0 && next_event(
            None,
            q.push(f),
        ).1 == next_event(None, q).1.push(f),
{
    assert((seq![e] + q).skip(1) =~= q);
    if q.len() > 0 {
        assert(q.push(f).skip(1) =~= q.skip(1).push(f));
    }
}

/// Where the cursor is seen: where it is not made to stick, at its own place,
/// otherwise where it was before; its button with it.
pub open spec fn cursor_shown(c: Option<Cursor>, smooth: Option<(u32, u32)>) -> Option<(u32, u32, bool)> {
    match c {
        Some(c) => if c.visible {
            match smooth {
                Some((x, y)) => Some((x, y, c.pressed)),
                None => Some((c.x_bits, c.y_bits, c.pressed)),
            }
        } else {
            None
        },
        None => None,
    }
}

/// A cursor that is not visible is not seen; one that is, is seen where it was
/// before it was made to stick, or at its own place.
pub proof fn law_where_the_cursor_is_seen(c: Cursor, at: (u32, u32))
    ensures
        cursor_shown(None, Some(at)) is None,
        !c.visible ==> cursor_shown(Some(c), Some(at)) is None && cursor_shown(Some(c), None) is None,
        c.visible ==> cursor_shown(Some(c), Some(at)) == Some((at.0, at.1, c.pressed)),
        c.visible ==> cursor_shown(Some(c), None) == Some((c.x_bits, c.y_bits, c.pressed)),
{
}

} // verus!
