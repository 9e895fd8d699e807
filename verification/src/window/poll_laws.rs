//! What each event of the host comes to for the app.

use vstd::prelude::*;
use crate::window::events::{
    is_input, released, without_input, Button, Controls, Coords, EventV, FingerId, Tilt,
};
use crate::window::poll::{
    button_outcome, controller_event, cursor_event, dpad_outcome, has_finger, key_event,
    pointer_event, poll_ended, polled, put, stick_outcome, window_event, CursorChange,
    FingerKind, HostEvent, Key, PollV,
};

verus! {

/// The queue once a pinch under way, if any, was called off.
pub open spec fn called_off(s: PollV) -> Seq<EventV> {
    match s.controls.pinch {
        Some(p) => s.queue.push(EventV::TouchesCancel(p.touches())),
        None => s.queue,
    }
}

/// The left button of the mouse is a finger: pressing it puts the finger down,
/// after a pinch under way was called off, moving the mouse with it held moves
/// the finger, and releasing it takes the finger up, each at the mouse's place.
pub proof fn law_mouse_is_a_finger(
    s: PollV,
    at: Coords,
    right: Option<(u32, u32)>,
    desktop: bool,
    text_input: bool,
)
    requires
        s.batch is None,
    ensures
        ({
            let down = polled(s, HostEvent::LeftDown { at }, desktop, text_input);
            let up = polled(s, HostEvent::LeftUp { at }, desktop, text_input);
            let moved = polled(
                s,
                HostEvent::Motion { left: Some(at), right },
                desktop,
                text_input,
            );
            let free = polled(s, HostEvent::Motion { left: None, right }, desktop, text_input);
            &&& down.queue == called_off(s).push(
                EventV::TouchesDown(seq![(FingerId::Mouse, at)]),
            )
            &&& down.controls.mouse_left_down && down.controls.pinch is None
            &&& up.queue == s.queue.push(EventV::TouchesUp(seq![(FingerId::Mouse, at)]))
            &&& !up.controls.mouse_left_down && up.controls.pinch == s.controls.pinch
            &&& moved.queue == s.queue.push(EventV::TouchesMove(seq![(FingerId::Mouse, at)]))
            &&& free.queue == s.queue
            &&& moved.controls.mouse_left_down == s.controls.mouse_left_down
        }),
{
    reveal(pointer_event);
}

/// The right button of the mouse tilts the device: as long as it is held, the
/// tilt is the one of the mouse's place; after its release the last one is
/// kept, no longer held. No finger is touched by it.
pub proof fn law_right_button_tilts(
    s: PollV,
    tilt: (u32, u32),
    left: Option<Coords>,
    desktop: bool,
    text_input: bool,
)
    requires
        s.batch is None,
    ensures
        ({
            let down = polled(s, HostEvent::RightDown { tilt }, desktop, text_input);
            let up = polled(s, HostEvent::RightUp { tilt }, desktop, text_input);
            let moved = polled(
                s,
                HostEvent::Motion { left, right: Some(tilt) },
                desktop,
                text_input,
            );
            let still = polled(s, HostEvent::Motion { left, right: None }, desktop, text_input);
            let held = Tilt { x_bits: tilt.0, y_bits: tilt.1, held: true };
            &&& down.controls == (Controls { tilt: Some(held), ..s.controls })
            &&& up.controls == (Controls {
                tilt: Some(Tilt { x_bits: tilt.0, y_bits: tilt.1, held: false }),
                ..s.controls
            })
            &&& down.queue == s.queue && up.queue == s.queue
            &&& moved.controls == (Controls { tilt: Some(held), ..s.controls })
            &&& still.controls == s.controls
        }),
{
    reveal(pointer_event);
}

/// Keys: T shows the menu of switches, after a pinch was called off, unless a
/// text is being typed; F12 asks for the debugger; Backspace and Return are
/// typed, and so is a text. No other key does anything.
pub proof fn law_keys(s: PollV, text: String, desktop: bool, text_input: bool)
    requires
        s.batch is None,
    ensures
        ({
            let key = |k: Key| polled(s, HostEvent::KeyDown(k), desktop, text_input).queue;
            &&& text_input ==> key(Key::T) == s.queue
            &&& !text_input ==> key(Key::T) == called_off(s).push(EventV::ToggleMoleMenu)
            &&& key(Key::F12) == s.queue.push(EventV::EnterDebugger)
            &&& key(Key::Backspace) == s.queue.push(EventV::Backspace)
            &&& key(Key::Return) == s.queue.push(EventV::Return)
            &&& key(Key::Other) == s.queue
            &&& polled(s, HostEvent::Text(text), desktop, text_input).queue == s.queue.push(
                EventV::Text(text@),
            )
        }),
{
    reveal(key_event);
}

/// The host's own events: the user's wish to quit is handed on. When the app
/// goes to the background or is ended, it is told before all else, and no more
/// events are asked for.
pub proof fn law_host_events(s: PollV, desktop: bool, text_input: bool)
    requires
        s.batch is None,
    ensures
        ({
            let quit = polled(s, HostEvent::Quit, desktop, text_input);
            let back = polled(s, HostEvent::WillEnterBackground, desktop, text_input);
            let end = polled(s, HostEvent::Terminating, desktop, text_input);
            &&& quit.queue == s.queue.push(EventV::Quit) && quit.urgent == s.urgent
            &&& back.urgent == Some(EventV::AppWillResignActive) && back.queue == s.queue
            &&& end.urgent == Some(EventV::AppWillTerminate) && end.queue == s.queue
            &&& !back.controls.enable_event_polling && !end.controls.enable_event_polling
            &&& polled(s, HostEvent::Other, desktop, text_input) == s
        }),
{
    reveal(window_event);
}

/// A minimized window is noted after a pinch was called off.
pub proof fn law_minimizing_calls_a_pinch_off(s: PollV, text_input: bool)
    requires
        s.batch is None,
        !s.controls.window_minimized,
    ensures
        ({
            let t = polled(s, HostEvent::Minimized, true, text_input);
            &&& t.queue == called_off(s).push(EventV::WindowMinimized)
            &&& t.controls.pinch is None
        }),
{
    reveal(window_event);
}

/// The greatest height the window had is kept, and the picture stands as far
/// below as the window is lower than that.
pub proof fn law_height_is_kept(s: PollV, h: u32, desktop: bool, text_input: bool)
    requires
        s.batch is None,
    ensures
        ({
            let t = polled(s, HostEvent::Resized { height: Some(h) }, desktop, text_input);
            let none = polled(s, HostEvent::Resized { height: None }, desktop, text_input);
            &&& t.frame.max_height >= h && t.frame.max_height >= s.frame.max_height
            &&& t.frame.max_height == h || t.frame.max_height == s.frame.max_height
            &&& t.frame.viewport_y_offset + h == t.frame.max_height
            &&& none == s
            &&& t.queue == s.queue
        }),
{
    reveal(window_event);
}

/// The direction buttons stand for one finger. Each of left, right, up and
/// down, held alone, puts it in the middle of its side; two neighbours put it
/// in the corner between them; two opposite ones cancel each other out. The
/// nine places are given row by row. The finger goes down with the first
/// button, moves with each change, and goes up with the last.
pub proof fn law_direction_buttons(
    s: PollV,
    button: Button,
    pressed: bool,
    places: [Coords; 9],
    mapped: Option<Coords>,
    desktop: bool,
    text_input: bool,
)
    requires
        s.batch is None,
        button == Button::DPadLeft || button == Button::DPadRight || button == Button::DPadUp
            || button == Button::DPadDown,
    ensures
        ({
            let t = polled(
                s,
                HostEvent::ControllerButton {
                    button: Some(button),
                    pressed,
                    dpad: Some(places),
                    mapped,
                },
                desktop,
                text_input,
            );
            let b = s.controls.dpad;
            let d = t.controls.dpad;
            let left = d.left && !d.right;
            let right = d.right && !d.left;
            let up = d.up && !d.down;
            let down = d.down && !d.up;
            let at = if up {
                if left {
                    places@[0]
                } else if right {
                    places@[2]
                } else {
                    places@[1]
                }
            } else if down {
                if left {
                    places@[6]
                } else if right {
                    places@[8]
                } else {
                    places@[7]
                }
            } else {
                if left {
                    places@[3]
                } else if right {
                    places@[5]
                } else {
                    places@[4]
                }
            };
            let held = d.left || d.right || d.up || d.down;
            let touch = seq![(FingerId::DpadToTouch, at)];
            &&& d.left == (if button == Button::DPadLeft { pressed } else { b.left })
            &&& d.right == (if button == Button::DPadRight { pressed } else { b.right })
            &&& d.up == (if button == Button::DPadUp { pressed } else { b.up })
            &&& d.down == (if button == Button::DPadDown { pressed } else { b.down })
            &&& d.active == held
            &&& held && !b.active ==> t.queue == s.queue.push(EventV::TouchesDown(touch))
            &&& held && b.active ==> t.queue == s.queue.push(EventV::TouchesMove(touch))
            &&& !held && b.active ==> t.queue == s.queue.push(EventV::TouchesUp(touch))
            &&& !held && !b.active ==> t.queue == s.queue
            &&& t.controller_updated
        }),
{
    reveal(controller_event);
    reveal(button_outcome);
    reveal(dpad_outcome);
}

/// Any other button with a place, and a direction button where directions do
/// not stand for touches, is a finger of its own: down when it is pressed and
/// up when it is released. A button without a place does nothing.
pub proof fn law_buttons_are_fingers(
    s: PollV,
    button: Button,
    pressed: bool,
    at: Coords,
    dpad: Option<[Coords; 9]>,
    desktop: bool,
    text_input: bool,
)
    requires
        s.batch is None,
        dpad is None || !(button == Button::DPadLeft || button == Button::DPadRight || button
            == Button::DPadUp || button == Button::DPadDown),
    ensures
        ({
            let event = |mapped: Option<Coords>|
                polled(
                    s,
                    HostEvent::ControllerButton { button: Some(button), pressed, dpad, mapped },
                    desktop,
                    text_input,
                );
            let touch = seq![(FingerId::ButtonToTouch(button), at)];
            let t = event(Some(at));
            &&& pressed ==> t.queue == s.queue.push(EventV::TouchesDown(touch))
            &&& !pressed ==> t.queue == s.queue.push(EventV::TouchesUp(touch))
            &&& t.controls == s.controls && t.controller_updated
            &&& event(None).queue == s.queue && event(None).controls == s.controls
                && event(None).controller_updated
        }),
{
    reveal(controller_event);
    reveal(button_outcome);
}

/// The stick is a finger: it goes down where the stick leaves the middle, moves
/// with it, and goes up where it is back.
pub proof fn law_stick_is_a_finger(
    s: PollV,
    centered: bool,
    at: Coords,
    desktop: bool,
    text_input: bool,
)
    requires
        s.batch is None,
    ensures
        ({
            let t = polled(s, HostEvent::Stick { centered, at }, desktop, text_input);
            let was = s.controls.stick_active;
            let touch = seq![(FingerId::StickToTouch, at)];
            &&& t.controls.stick_active == !centered
            &&& !was && !centered ==> t.queue == s.queue.push(EventV::TouchesDown(touch))
            &&& was && !centered ==> t.queue == s.queue.push(EventV::TouchesMove(touch))
            &&& was && centered ==> t.queue == s.queue.push(EventV::TouchesUp(touch))
            &&& !was && centered ==> t.queue == s.queue
            &&& t.controller_updated
            &&& polled(s, HostEvent::OtherAxis, desktop, text_input).controller_updated
        }),
{
    reveal(controller_event);
    reveal(stick_outcome);
}

/// Fingers on a touch screen: the first waits for others. One that does the
/// same at the same time joins it, and anything else, but a gesture of that
/// time, sends what waits on its way first.
pub proof fn law_fingers_wait_for_others(
    s: PollV,
    kind: FingerKind,
    timestamp: u32,
    id: i64,
    at: Coords,
    other: i64,
    there: Coords,
    later: u32,
    desktop: bool,
    text_input: bool,
)
    requires
        s.batch is None,
        id != other,
        later != timestamp,
    ensures
        ({
            let first = polled(
                s,
                HostEvent::Finger { kind, timestamp, id, at },
                desktop,
                text_input,
            );
            let second = polled(
                first,
                HostEvent::Finger { kind, timestamp, id: other, at: there },
                desktop,
                text_input,
            );
            let next = polled(
                first,
                HostEvent::Finger { kind, timestamp: later, id: other, at: there },
                desktop,
                text_input,
            );
            let one = seq![(FingerId::Touch(id), at)];
            let both = one.push((FingerId::Touch(other), there));
            let event = |t: Seq<(FingerId, Coords)>|
                match kind {
                    FingerKind::Down => EventV::TouchesDown(t),
                    FingerKind::Motion => EventV::TouchesMove(t),
                    FingerKind::Up => EventV::TouchesUp(t),
                };
            &&& first.queue == s.queue
            &&& second.queue == s.queue
            &&& poll_ended(first, 0, None).queue.len() > s.queue.len()
            &&& poll_ended(first, 0, None).queue[s.queue.len() as int] == event(one)
            &&& poll_ended(second, 0, None).queue[s.queue.len() as int] == event(both)
            &&& next.queue == s.queue.push(event(one))
            &&& polled(first, HostEvent::Gesture { timestamp }, desktop, text_input) == first
            &&& polled(first, HostEvent::Gesture { timestamp: later }, desktop, text_input).queue
                == s.queue.push(event(one))
            &&& polled(first, HostEvent::Quit, desktop, text_input).queue == s.queue.push(
                event(one),
            ).push(EventV::Quit)
        }),
{
    reveal(window_event);
    let one = seq![(FingerId::Touch(id), at)];
    assert(one[0].0 != FingerId::Touch(other));
    assert(!has_finger(one, FingerId::Touch(other)));
    assert(put(one, FingerId::Touch(other), there) == one.push((FingerId::Touch(other), there)));
}

/// A cursor moved with a controller is a finger: down when its button is
/// pressed, up when it is released, and moved where it moved while pressed.
pub proof fn law_cursor_is_a_finger(c: CursorChange)
    ensures
        ({
            let touch = seq![(FingerId::VirtualCursor, c.at)];
            let e = cursor_event(c);
            &&& c.pressed_changed && c.pressed ==> e == Some(EventV::TouchesDown(touch))
            &&& c.pressed_changed && !c.pressed ==> e == Some(EventV::TouchesUp(touch))
            &&& !c.pressed_changed && c.pressed && c.moved ==> e == Some(EventV::TouchesMove(touch))
            &&& !c.pressed_changed && !(c.pressed && c.moved) ==> e is None
        }),
{
}

/// At the end of asking, the cursor counts only where a controller was used;
/// a pinch without a turn of the wheel for 0.15 seconds is called off first.
pub proof fn law_end_of_asking(s: PollV, now: u64, c: CursorChange, e: EventV)
    requires
        s.batch is None,
        cursor_event(c) == Some(e),
    ensures
        ({
            let idle = s.controls.pinch is Some && now - s.controls.pinch->0.last_input
                >= 150_000_000;
            let none = poll_ended(s, now, None);
            let some = poll_ended(s, now, Some(c));
            &&& idle ==> none.queue == called_off(s) && none.controls.pinch is None
            &&& !idle ==> none == s
            &&& s.controller_updated ==> some.queue == none.queue.push(e)
            &&& !s.controller_updated ==> some == none
        }),
{
}

/// Input of the user is: touches, typed text and the wish for the menu of
/// switches. Quitting, the debugger, the window's marks and what the host says
/// of the app are none, and are never dropped with it.
pub proof fn law_what_input_is(t: Seq<(FingerId, Coords)>, text: Seq<char>)
    ensures
        is_input(EventV::TouchesDown(t)) && is_input(EventV::TouchesMove(t)) && is_input(
            EventV::TouchesUp(t),
        ) && is_input(EventV::TouchesCancel(t)),
        is_input(EventV::Text(text)) && is_input(EventV::Backspace) && is_input(EventV::Return)
            && is_input(EventV::ToggleMoleMenu),
        !is_input(EventV::Quit) && !is_input(EventV::EnterDebugger) && !is_input(
            EventV::AppWillResignActive,
        ) && !is_input(EventV::AppWillTerminate) && !is_input(EventV::WindowMinimized) && !is_input(
            EventV::WindowRestored,
        ),
{
}

/// Dropping input keeps the other events in their order, and releases every
/// finger, button and gesture; the window's state and the places of cursor and
/// tilt stay.
pub proof fn law_dropping_input(q: Seq<EventV>, e: EventV, c: Controls)
    ensures
        is_input(e) ==> without_input(q.push(e)) == without_input(q),
        !is_input(e) ==> without_input(q.push(e)) == without_input(q).push(e),
        ({
            let r = released(c);
            &&& r.pinch is None && !r.mouse_left_down && !r.stick_active && !r.dpad.active
            &&& !r.dpad.left && !r.dpad.right && !r.dpad.up && !r.dpad.down
            &&& r.window_minimized == c.window_minimized && r.last_polled == c.last_polled
                && r.enable_event_polling == c.enable_event_polling
            &&& r.cursor is Some <==> c.cursor is Some
            &&& c.cursor is Some ==> !r.cursor->0.pressed && r.cursor->0.x_bits
                == c.cursor->0.x_bits && r.cursor->0.y_bits == c.cursor->0.y_bits
                && r.cursor->0.visible == c.cursor->0.visible
            &&& r.tilt is Some <==> c.tilt is Some
            &&& c.tilt is Some ==> !r.tilt->0.held && r.tilt->0.x_bits == c.tilt->0.x_bits
                && r.tilt->0.y_bits == c.tilt->0.y_bits
        }),
{
    assert(q.push(e).drop_last() =~= q);
}

} // verus!
