use touchhle::window::device::{
    ambient_fill_active, apply_cli_resolution, custom_guest_size_active, fill_screen_target,
    is_widescreen, orientation_hint, physical_orientation, quarter_turns, rotate_fullscreen_size,
    set_ambient_fill, set_auto_portrait, size_for_orientation, DeviceFamily, DeviceOrientation,
    Resolution,
};
use touchhle::window::events::{
    Button, Coords, Cursor, Event, FingerId, Frame, TextInputEvent, Window,
};
use touchhle::window::fill::{compute_fill_portrait, fill_max_aspect, locked_size};
use touchhle::window::layout::{scaled_size, window_kind, WindowKind};
use touchhle::window::misc::{
    battery_state, crash_text, get_preferred_country_codes, gl_attributes, hidpi_enabled,
    mole_text_input_active, surface_from_image, swap_mode, wheel_pinch_enabled,
    wheel_pinch_inverted, BatteryState, GLVersion, SwapMode, TextInput, TiltNotice, TiltSource,
};
use touchhle::window::pinch::{begin_wheel_pinch, WheelFacts, WheelReady};
use touchhle::window::poll::{CursorChange, FingerKind, HostEvent, Key, Poll};
use touchhle::window::suspend::{
    SuspendEnd, SuspendEvent, SuspendOutcome, SuspendStep, Suspension,
};

fn frame() -> Frame {
    Frame {
        fullscreen: false,
        rotatable: false,
        scale_hack: 1,
        lock_aspect: true,
        device_family: DeviceFamily::iPhone,
        device_orientation: DeviceOrientation::Portrait,
        max_height: 480,
        viewport_y_offset: 0,
        default_framebuffer: 3,
        default_renderbuffer: 4,
        on_main_stack: true,
    }
}

fn window() -> Window {
    Window::new(frame())
}

fn show(e: &Event) -> String {
    format!("{:?}", e)
}

fn drain(w: &mut Window) -> Vec<String> {
    let mut r = vec![];
    while let Some(e) = w.pop_event() {
        r.push(show(&e));
    }
    r
}

fn down(id: FingerId, at: Coords) -> String {
    show(&Event::TouchesDown(vec![(id, at)]))
}

fn moved(id: FingerId, at: Coords) -> String {
    show(&Event::TouchesMove(vec![(id, at)]))
}

fn up(id: FingerId, at: Coords) -> String {
    show(&Event::TouchesUp(vec![(id, at)]))
}

fn poll(w: &mut Window, events: Vec<HostEvent>) -> Vec<String> {
    let mut p = Poll::new(true, false);
    for e in events {
        w.poll_step(&mut p, e);
    }
    w.poll_end(p, 0, None);
    drain(w)
}

#[test]
fn devices_have_their_own_sizes() {
    let res = Resolution::new();
    assert_eq!(DeviceFamily::iPhone.portrait_size(&res), (320, 480));
    assert_eq!(DeviceFamily::iPad.portrait_size(&res), (768, 1024));
    assert_eq!(DeviceFamily::from_number(1), Ok(DeviceFamily::iPhone));
    assert_eq!(DeviceFamily::from_number(2), Ok(DeviceFamily::iPad));
    assert_eq!(DeviceFamily::from_number(3), Err(()));
    assert_eq!(DeviceFamily::from_name("ipad"), Ok(DeviceFamily::iPad));
    assert_eq!(DeviceFamily::from_name("iphone"), Ok(DeviceFamily::iPhone));
    assert_eq!(DeviceFamily::from_name("iPad"), Err(()));
}

#[test]
fn the_first_size_asked_for_stays() {
    let mut res = Resolution::new();
    assert!(!custom_guest_size_active(&res) && !is_widescreen(&res));
    set_auto_portrait(&mut res, (768, 1365));
    set_auto_portrait(&mut res, (1, 2));
    assert_eq!(DeviceFamily::iPad.portrait_size(&res), (768, 1365));
    assert!(is_widescreen(&res));
    apply_cli_resolution(&mut res, Some((0, 5)), false, None);
    assert_eq!(res.cli_portrait, None);
    apply_cli_resolution(&mut res, Some((1024, 768)), true, Some(7));
    apply_cli_resolution(&mut res, Some((2, 3)), false, Some(8));
    assert_eq!(res.cli_portrait, Some((768, 1024)));
    assert_eq!(res.max_aspect, Some(7));
    assert!(res.fill_screen && custom_guest_size_active(&res) && !is_widescreen(&res));
    assert_eq!(DeviceFamily::iPhone.portrait_size(&res), (768, 1024));
    set_ambient_fill(&mut res, true);
    assert!(ambient_fill_active(&res));
}

#[test]
fn filling_needs_a_screen_and_no_size() {
    let mut res = Resolution::new();
    let target = |res: &Resolution, d| fill_screen_target(res, DeviceFamily::iPad, d);
    assert_eq!(target(&res, Some((1080, 2400))), None);
    apply_cli_resolution(&mut res, None, true, None);
    assert_eq!(target(&res, Some((1080, 2400))), Some((768, 2400, 1080)));
    assert_eq!(target(&res, Some((0, 2400))), None);
    assert_eq!(target(&res, None), None);
    apply_cli_resolution(&mut res, Some((2, 3)), true, None);
    assert_eq!(target(&res, Some((1080, 2400))), None);
}

#[test]
fn sizes_turn_with_the_device() {
    let res = Resolution::new();
    let size = |o, s| size_for_orientation(DeviceFamily::iPhone, o, s, &res);
    assert_eq!(size(DeviceOrientation::Portrait, 2), (640, 960));
    assert_eq!(size(DeviceOrientation::PortraitUpsideDown, 1), (320, 480));
    assert_eq!(size(DeviceOrientation::LandscapeLeft, 1), (480, 320));
    assert_eq!(size(DeviceOrientation::LandscapeRight, 3), (1440, 960));
    assert_eq!(rotate_fullscreen_size(DeviceOrientation::Portrait, (1920, 1080)), (1080, 1920));
    assert_eq!(
        rotate_fullscreen_size(DeviceOrientation::LandscapeLeft, (1080, 1920)),
        (1920, 1080)
    );
}

#[test]
fn the_host_turns_its_screen() {
    let (portrait, upside_down) =
        (DeviceOrientation::Portrait, DeviceOrientation::PortraitUpsideDown);
    let (left, right) = (DeviceOrientation::LandscapeLeft, DeviceOrientation::LandscapeRight);
    assert_eq!(orientation_hint(portrait, true), "Portrait");
    assert_eq!(orientation_hint(upside_down, false), "PortraitUpsideDown");
    assert_eq!(orientation_hint(left, false), "LandscapeRight");
    assert_eq!(orientation_hint(left, true), "LandscapeLeft");
    assert_eq!(orientation_hint(right, false), "LandscapeLeft");
    for o in [left, right, portrait, upside_down] {
        assert_eq!(physical_orientation(physical_orientation(o, true), true), o);
        assert_eq!(physical_orientation(o, false), o);
    }
    assert_eq!(
        [portrait, upside_down, left, right].map(quarter_turns),
        [0, 2, -1, 1]
    );
}

#[test]
fn urgent_events_go_first() {
    let mut w = window();
    w.push(Event::Quit);
    w.push(Event::EnterDebugger);
    w.high_priority_event = Some(Event::AppWillTerminate);
    assert_eq!(drain(&mut w), vec!["AppWillTerminate", "Quit", "EnterDebugger"]);
    assert!(w.pop_event().is_none());
}

#[test]
fn discarded_input_is_gone() {
    let mut w = window();
    w.push(Event::Quit);
    w.push(Event::TouchesDown(vec![(FingerId::Mouse, (1, 2))]));
    w.push(Event::WindowMinimized);
    w.push(Event::TextInput(TextInputEvent::Return));
    w.push(Event::ToggleMoleMenu);
    w.controls.mouse_left_down = true;
    w.controls.stick_active = true;
    w.controls.dpad.left = true;
    w.controls.cursor = Some(Cursor { x_bits: 1, y_bits: 2, pressed: true, visible: true });
    assert_eq!(w.discard_pending_input(), 3);
    assert_eq!(w.discard_pending_input(), 0);
    assert_eq!(drain(&mut w), vec!["Quit", "WindowMinimized"]);
    assert!(!w.controls.mouse_left_down && !w.controls.stick_active && !w.controls.dpad.left);
    assert_eq!(w.virtual_cursor_visible_at(None), Some((1, 2, false)));
    assert_eq!(w.virtual_cursor_visible_at(Some((5, 6))), Some((5, 6, false)));
    w.controls.cursor = Some(Cursor { x_bits: 1, y_bits: 2, pressed: true, visible: false });
    assert_eq!(w.virtual_cursor_visible_at(None), None);
}

#[test]
fn the_window_tells_its_state() {
    let w = window();
    assert_eq!(w.device_family(), DeviceFamily::iPhone);
    assert_eq!(w.current_rotation(), DeviceOrientation::Portrait);
    assert_eq!(w.size_unrotated_unscaled(&Resolution::new()), (320, 480));
    assert!(w.on_main_stack());
    assert_eq!((w.default_framebuffer(), w.default_renderbuffer()), (3, 4));
    assert_eq!(w.viewport_y_offset(), 0);
}

#[test]
fn events_are_asked_for_twice_a_frame() {
    let mut w = window();
    assert!(w.poll_for_events(0));
    assert!(!w.poll_for_events(8_333_332));
    assert!(w.poll_for_events(8_333_333));
    assert!(!w.poll_for_events(5));
}

#[test]
fn the_mouse_is_a_finger() {
    let mut w = window();
    let events = vec![
        HostEvent::LeftDown { at: (1, 2) },
        HostEvent::Motion { left: Some((3, 4)), right: None },
        HostEvent::LeftUp { at: (5, 6) },
        HostEvent::Motion { left: None, right: Some((7, 8)) },
    ];
    assert_eq!(
        poll(&mut w, events),
        vec![
            down(FingerId::Mouse, (1, 2)),
            moved(FingerId::Mouse, (3, 4)),
            up(FingerId::Mouse, (5, 6))
        ]
    );
    assert_eq!(w.get_acceleration(true, false), TiltSource::Mouse { x_bits: 7, y_bits: 8 });
    poll(&mut w, vec![HostEvent::RightUp { tilt: (0, 0) }]);
    assert_eq!(w.get_acceleration(true, false), TiltSource::Stick);
    assert_eq!(w.get_acceleration(true, true), TiltSource::Sensor);
}

#[test]
fn fingers_of_one_moment_come_together() {
    let finger = |kind, timestamp, id, at| HostEvent::Finger { kind, timestamp, id, at };
    let mut w = window();
    let events = vec![
        finger(FingerKind::Down, 1, 10, (0, 0)),
        finger(FingerKind::Down, 1, 11, (1, 1)),
        HostEvent::Gesture { timestamp: 1 },
        finger(FingerKind::Down, 1, 10, (2, 2)),
        finger(FingerKind::Motion, 1, 10, (3, 3)),
        finger(FingerKind::Motion, 2, 10, (4, 4)),
        HostEvent::Quit,
        finger(FingerKind::Up, 2, 10, (5, 5)),
    ];
    let both = vec![(FingerId::Touch(10), (2, 2)), (FingerId::Touch(11), (1, 1))];
    assert_eq!(
        poll(&mut w, events),
        vec![
            show(&Event::TouchesDown(both)),
            moved(FingerId::Touch(10), (3, 3)),
            moved(FingerId::Touch(10), (4, 4)),
            "Quit".to_string(),
            up(FingerId::Touch(10), (5, 5)),
        ]
    );
}

#[test]
fn keys_mean_something() {
    let mut w = window();
    let events = vec![
        HostEvent::KeyDown(Key::T),
        HostEvent::KeyDown(Key::F12),
        HostEvent::KeyDown(Key::Backspace),
        HostEvent::KeyDown(Key::Return),
        HostEvent::KeyDown(Key::Other),
        HostEvent::Text("hä".to_string()),
    ];
    assert_eq!(
        poll(&mut w, events),
        vec![
            "ToggleMoleMenu",
            "EnterDebugger",
            "TextInput(Backspace)",
            "TextInput(Return)",
            "TextInput(Text(\"hä\"))"
        ]
    );
    let mut typing = Poll::new(true, true);
    w.poll_step(&mut typing, HostEvent::KeyDown(Key::T));
    w.poll_end(typing, 0, None);
    assert!(w.pop_event().is_none());
}

#[test]
fn minimizing_is_told_once() {
    let mut w = window();
    let events = vec![
        HostEvent::Minimized,
        HostEvent::Minimized,
        HostEvent::Restored,
        HostEvent::Restored,
    ];
    assert_eq!(poll(&mut w, events), vec!["WindowMinimized", "WindowRestored"]);
    let mut phone = Poll::new(false, false);
    w.poll_step(&mut phone, HostEvent::Minimized);
    w.poll_end(phone, 0, None);
    assert!(w.pop_event().is_none());
}

#[test]
fn going_to_the_background_is_urgent() {
    let mut w = window();
    let mut p = Poll::new(true, false);
    w.poll_step(&mut p, HostEvent::WillEnterBackground);
    w.poll_end(p, 0, None);
    assert!(!w.controls.enable_event_polling);
    assert_eq!(drain(&mut w), vec!["AppWillResignActive"]);
    let mut p = Poll::new(true, false);
    w.poll_step(&mut p, HostEvent::Terminating);
    w.poll_end(p, 0, None);
    assert_eq!(drain(&mut w), vec!["AppWillTerminate"]);
}

fn nine() -> Option<[Coords; 9]> {
    Some([(0, 0), (1, 0), (2, 0), (0, 1), (1, 1), (2, 1), (0, 2), (1, 2), (2, 2)])
}

fn button(b: Button, pressed: bool) -> HostEvent {
    HostEvent::ControllerButton { button: Some(b), pressed, dpad: nine(), mapped: Some((9, 9)) }
}

#[test]
fn direction_buttons_are_one_finger() {
    let mut w = window();
    let events = vec![
        button(Button::DPadLeft, true),
        button(Button::DPadUp, true),
        button(Button::DPadRight, true),
        button(Button::DPadLeft, false),
        button(Button::DPadRight, false),
        button(Button::DPadUp, false),
        button(Button::DPadUp, false),
    ];
    let f = FingerId::DpadToTouch;
    assert_eq!(
        poll(&mut w, events),
        vec![
            down(f, (0, 1)),
            moved(f, (0, 0)),
            moved(f, (1, 0)),
            moved(f, (2, 0)),
            moved(f, (1, 0)),
            up(f, (1, 1)),
        ]
    );
}

#[test]
fn buttons_and_sticks_are_fingers() {
    let mut w = window();
    let unmapped = HostEvent::ControllerButton {
        button: Some(Button::DPadLeft),
        pressed: true,
        dpad: None,
        mapped: None,
    };
    let events = vec![
        button(Button::A, true),
        button(Button::A, false),
        unmapped,
        HostEvent::ControllerButton { button: None, pressed: true, dpad: nine(), mapped: None },
        HostEvent::Stick { centered: true, at: (0, 0) },
        HostEvent::Stick { centered: false, at: (1, 0) },
        HostEvent::Stick { centered: false, at: (2, 0) },
        HostEvent::Stick { centered: true, at: (0, 0) },
        HostEvent::OtherAxis,
    ];
    let a = FingerId::ButtonToTouch(Button::A);
    let s = FingerId::StickToTouch;
    assert_eq!(
        poll(&mut w, events),
        vec![
            down(a, (9, 9)),
            up(a, (9, 9)),
            down(s, (1, 0)),
            moved(s, (2, 0)),
            up(s, (0, 0)),
        ]
    );
}

#[test]
fn the_cursor_is_a_finger() {
    let c = |pressed, pressed_changed, moved| CursorChange {
        pressed,
        pressed_changed,
        moved,
        at: (7, 8),
    };
    let end = |change| {
        let mut w = window();
        let mut p = Poll::new(true, false);
        w.poll_step(&mut p, HostEvent::OtherAxis);
        w.poll_end(p, 0, Some(change));
        drain(&mut w)
    };
    let f = FingerId::VirtualCursor;
    assert_eq!(end(c(true, true, true)), vec![down(f, (7, 8))]);
    assert_eq!(end(c(false, true, true)), vec![up(f, (7, 8))]);
    assert_eq!(end(c(true, false, true)), vec![moved(f, (7, 8))]);
    assert!(end(c(true, false, false)).is_empty());
    assert!(end(c(false, false, true)).is_empty());
    // No controller was used.
    let mut w = window();
    w.poll_end(Poll::new(true, false), 0, Some(c(true, true, true)));
    assert!(drain(&mut w).is_empty());
}

#[test]
fn a_taller_window_keeps_the_picture_in_place() {
    let mut w = window();
    poll(&mut w, vec![HostEvent::Resized { height: Some(400) }]);
    assert_eq!(w.viewport_y_offset(), 80);
    w.note_height(Some(500));
    assert_eq!((w.frame.max_height, w.viewport_y_offset()), (500, 0));
    w.note_height(None);
    assert_eq!(w.viewport_y_offset(), 0);
}

fn wheel() -> WheelFacts {
    WheelFacts { enabled: true, text_input: false, menu_open: false, left_held: false, turned: true }
}

#[test]
fn a_pinch_starts_around_the_mouse() {
    let begin = |size, c, probe| begin_wheel_pinch(size, true, Some((c, probe)), 5);
    let p = begin((768, 1024), (400, 500), (416, 500)).unwrap();
    assert_eq!((p.center, p.axis, p.half, p.max_half), ((400, 500), (1, 0), 60, 240));
    let p = begin((768, 1024), (10, 2000), (-6, 2000)).unwrap();
    assert_eq!((p.center, p.axis, p.half, p.max_half), ((150, 1022), (-1, 0), 60, 150));
    let p = begin((320, 480), (0, 5), (0, 21)).unwrap();
    assert_eq!((p.center, p.axis, p.max_half), ((1, 150), (0, 1), 150));
    let p = begin((100, 100), (50, 50), (66, 50)).unwrap();
    assert_eq!((p.center.0, p.half, p.max_half), (50, 49, 49));
    assert!(begin((3, 480), (0, 0), (1, 0)).is_none());
    assert!(begin((40, 480), (0, 0), (1, 0)).is_none());
    assert!(begin_wheel_pinch((768, 1024), false, Some(((1, 1), (2, 1))), 0).is_none());
    assert!(begin_wheel_pinch((768, 1024), true, None, 0).is_none());
}

#[test]
fn the_wheel_pinches() {
    let fresh = begin_wheel_pinch((768, 1024), true, Some(((400, 500), (416, 500))), 0);
    let mut w = window();
    let two = |a: i32, b: i32| vec![(FingerId::PinchA, (a, 500)), (FingerId::PinchB, (b, 500))];
    for facts in [
        WheelFacts { enabled: false, ..wheel() },
        WheelFacts { text_input: true, ..wheel() },
        WheelFacts { menu_open: true, ..wheel() },
        WheelFacts { turned: false, ..wheel() },
    ] {
        assert_eq!(w.pinch_ready(&facts, fresh, 1), WheelReady::Ignored);
    }
    assert_eq!(w.pinch_ready(&wheel(), None, 1), WheelReady::Ignored);
    assert_eq!(w.pinch_ready(&wheel(), fresh, 1), WheelReady::Started);
    assert_eq!(w.pinch_ready(&wheel(), None, 2), WheelReady::Continued);
    w.pinch_step(10);
    w.pinch_step(0);
    w.pinch_step(-1000);
    w.pinch_step(-1);
    w.pinch_step(5);
    assert_eq!(
        drain(&mut w),
        vec![
            show(&Event::TouchesDown(two(340, 460))),
            show(&Event::TouchesMove(two(330, 470))),
            show(&Event::TouchesMove(two(380, 420))),
            show(&Event::TouchesCancel(two(380, 420))),
        ]
    );
    w.controls.mouse_left_down = true;
    let held = WheelFacts { left_held: true, ..wheel() };
    assert_eq!(w.pinch_ready(&held, fresh, 1), WheelReady::Ignored);
    assert_eq!(w.pinch_ready(&wheel(), fresh, 1), WheelReady::Started);
}

#[test]
fn a_pinch_at_rest_ends() {
    let fresh = begin_wheel_pinch((768, 1024), true, Some(((400, 500), (416, 500))), 0);
    let mut w = window();
    w.pinch_ready(&wheel(), fresh, 100);
    drain(&mut w);
    assert!(!w.pinch_is_idle(150_000_099));
    assert!(w.pinch_is_idle(150_000_100));
    w.poll_end(Poll::new(true, false), 150_000_100, None);
    assert_eq!(drain(&mut w).len(), 1);
    assert!(w.controls.pinch.is_none());
    w.pinch_ready(&wheel(), fresh, 0);
    drain(&mut w);
    let events = poll(&mut w, vec![HostEvent::LeftDown { at: (1, 1) }]);
    assert!(events[0].starts_with("TouchesCancel") && events[1].starts_with("TouchesDown"));
}

#[test]
fn the_background_lasts_until_the_foreground() {
    let mut w = window();
    w.push(Event::TouchesDown(vec![(FingerId::Mouse, (1, 2))]));
    let mut s = w.suspend_until_foreground(SuspendEnd::Foreground, 7, true);
    assert_eq!(
        s,
        Suspension { deadline: None, foreground: false, device_lost: false, round: 0, desktop: true }
    );
    assert!(w.pop_event().is_none());
    assert_eq!(s.round_over(8), SuspendStep::Again);
    assert_eq!(s.round_over(9), SuspendStep::Again);
    assert_eq!(s.round_over(9), SuspendStep::Rest(50_000_000));
    assert_eq!(w.suspend_event(&mut s, SuspendEvent::DidEnterForeground), None);
    assert_eq!(w.suspend_event(&mut s, SuspendEvent::Background), None);
    assert_eq!(s.round_over(9), SuspendStep::Rest(50_000_000));
    w.suspend_event(&mut s, SuspendEvent::DidEnterForeground);
    assert_eq!(s.round_over(9), SuspendStep::Done(SuspendOutcome::Resumed));
    w.suspend_event(&mut s, SuspendEvent::DeviceReset);
    assert_eq!(s.round_over(9), SuspendStep::Done(SuspendOutcome::RenderDeviceLost));
    assert_eq!(
        w.suspend_event(&mut s, SuspendEvent::Quit),
        Some(SuspendOutcome::Terminate)
    );
    assert_eq!(
        w.suspend_event(&mut s, SuspendEvent::Terminating),
        Some(SuspendOutcome::Terminate)
    );
    w.controls.enable_event_polling = false;
    w.suspend_finish();
    assert!(w.controls.enable_event_polling && w.controls.last_polled.is_none());
}

#[test]
fn a_timer_ends_the_background() {
    let mut w = window();
    let mut s = w.suspend_until_foreground(SuspendEnd::Timer(100_000_000), 0, true);
    s.round = 5;
    assert_eq!(s.round_over(10), SuspendStep::Rest(50_000_000));
    assert_eq!(s.round_over(99_999_999), SuspendStep::Rest(1));
    assert_eq!(s.round_over(100_000_000), SuspendStep::Done(SuspendOutcome::Resumed));
    let s = w.suspend_until_foreground(SuspendEnd::Timer(u64::MAX), 5, true);
    assert_eq!(s.deadline, Some(u64::MAX));
}

#[test]
fn the_window_is_watched_in_the_background() {
    let mut w = window();
    let mut s = w.suspend_until_foreground(SuspendEnd::Foreground, 0, true);
    for e in [
        SuspendEvent::Minimized,
        SuspendEvent::Minimized,
        SuspendEvent::Restored,
        SuspendEvent::Other,
        SuspendEvent::Resized { height: Some(470) },
    ] {
        assert_eq!(w.suspend_event(&mut s, e), None);
    }
    assert_eq!(drain(&mut w), vec!["WindowMinimized", "WindowRestored"]);
    assert_eq!(w.viewport_y_offset(), 10);
}

#[test]
fn minimized_and_restored_take_turns() {
    let mut w = window();
    assert_eq!(
        poll(&mut w, vec![HostEvent::Restored, HostEvent::Other, HostEvent::Minimized]),
        vec!["WindowMinimized"]
    );
    let mut s = w.suspend_until_foreground(SuspendEnd::Foreground, 0, true);
    for e in [
        SuspendEvent::Minimized,
        SuspendEvent::Restored,
        SuspendEvent::Restored,
        SuspendEvent::Minimized,
    ] {
        assert_eq!(w.suspend_event(&mut s, e), None);
    }
    w.suspend_finish();
    assert_eq!(drain(&mut w), vec!["WindowRestored", "WindowMinimized"]);
    assert_eq!(
        poll(&mut w, vec![HostEvent::Minimized, HostEvent::Restored, HostEvent::Restored]),
        vec!["WindowRestored"]
    );
    // Where the window cannot be minimized, nothing is told.
    let mut p = Poll::new(false, false);
    w.poll_step(&mut p, HostEvent::Minimized);
    w.poll_end(p, 0, None);
    assert!(drain(&mut w).is_empty() && !w.controls.window_minimized);
}

#[test]
fn a_whole_stay_in_the_background() {
    let stay = |end: SuspendEnd, rounds: &[(&[SuspendEvent], u64)]| {
        let mut w = window();
        let mut s = w.suspend_until_foreground(end, 10, true);
        for (n, (events, now)) in rounds.iter().enumerate() {
            for &e in events.iter() {
                if let Some(o) = w.suspend_event(&mut s, e) {
                    return Some((n, o));
                }
            }
            if let SuspendStep::Done(o) = s.round_over(*now) {
                return Some((n, o));
            }
        }
        None
    };
    let (front, back) = (SuspendEvent::DidEnterForeground, SuspendEvent::Background);
    let reset = SuspendEvent::DeviceReset;
    let fg = SuspendEnd::Foreground;
    // In front for a part of a round only.
    assert_eq!(stay(fg, &[(&[back], 1), (&[front, back], 2), (&[], 3)]), None);
    assert_eq!(
        stay(fg, &[(&[back], 1), (&[front, back, front], 2)]),
        Some((1, SuspendOutcome::Resumed))
    );
    // Graphics were lost rounds before.
    assert_eq!(
        stay(fg, &[(&[reset], 1), (&[back], 2), (&[front], 3)]),
        Some((2, SuspendOutcome::RenderDeviceLost))
    );
    // The end of the app goes before everything else.
    assert_eq!(
        stay(fg, &[(&[reset], 1), (&[front, SuspendEvent::Quit], 2)]),
        Some((1, SuspendOutcome::Terminate))
    );
    assert_eq!(
        stay(fg, &[(&[SuspendEvent::Terminating, front], 1)]),
        Some((0, SuspendOutcome::Terminate))
    );
    // A timer does not ask for the foreground.
    let timer = SuspendEnd::Timer(90);
    assert_eq!(stay(timer, &[(&[front], 99)]), None);
    assert_eq!(stay(timer, &[(&[back], 99), (&[], 100)]), Some((1, SuspendOutcome::Resumed)));
}

#[test]
fn the_picture_is_fitted_in_single_precision() {
    let mut w = window();
    w.frame.fullscreen = true;
    let res = Resolution::new();
    let fitted = |app: (u32, u32), (sw, sh): (u32, u32)| {
        let aspect = app.0 as f32 / app.1 as f32;
        if aspect < sw as f32 / sh as f32 {
            ((sh as f32 * aspect).round() as u32, sh)
        } else {
            (sw, (sw as f32 / aspect).round() as u32)
        }
    };
    let sides = [
        0, 1, 2, 3, 479, 480, 720, 1079, 1080, 1281, 1920, 65_537, 1_048_576, 9_999_999, 16_777_217,
        20_000_000, 123_456_789, 2_147_483_649, 4_294_967_295,
    ];
    let apps = [
        (320, 480),
        (1024, 768),
        (320 * 70_001, 480 * 70_001),
        (768 * 4_194_303, 1024 * 4_194_303),
    ];
    for app in apps {
        for sw in sides {
            for sh in sides {
                assert_eq!(scaled_size(app, (sw, sh)), fitted(app, (sw, sh)));
            }
        }
    }
    assert_eq!(scaled_size((768, 1024), (20_000_000, 16_777_217)), (12_582_912, 16_777_217));
    assert!(w.viewport_fits(&res, (1_048_576, 1)));
    w.frame.device_family = DeviceFamily::iPad;
    assert_eq!(
        w.viewport(&res, (20_000_000, 16_777_217)),
        (3_708_544, 0, 12_582_912, 16_777_217)
    );
    w.frame.scale_hack = 4_194_304;
    assert!(!w.viewport_fits(&res, (800, 600)));
    w.frame.scale_hack = 0;
    assert!(!w.viewport_fits(&res, (800, 600)));
    w.frame.fullscreen = false;
    assert!(w.viewport_fits(&res, (800, 600)));
}

#[test]
fn a_screen_is_filled_within_bounds() {
    let mut res = Resolution::new();
    assert_eq!(fill_max_aspect(&res, None), 2.4_f32.to_bits());
    assert_eq!(fill_max_aspect(&res, Some(3.0_f32.to_bits())), 3.0_f32.to_bits());
    for (wish, limit) in [(0.0_f32, 4.0_f32 / 3.0), (-2.0, 4.0 / 3.0), (1.0 / 0.0, 4.0), (5.0, 4.0)] {
        assert_eq!(fill_max_aspect(&res, Some(wish.to_bits())), limit.to_bits());
    }
    assert!(f32::from_bits(fill_max_aspect(&res, Some(f32::NAN.to_bits()))).is_nan());
    res.max_aspect = Some(2.0_f32.to_bits());
    assert_eq!(fill_max_aspect(&res, Some(3.0_f32.to_bits())), 2.0_f32.to_bits());

    let widest = 2.4_f32.to_bits();
    assert_eq!(compute_fill_portrait(768, 1920, 1080, widest), (768, 1365));
    assert_eq!(compute_fill_portrait(768, 3840, 1080, widest), (768, 1843));
    assert_eq!(compute_fill_portrait(320, 1000, 1000, widest), (320, 427));
    assert_eq!(compute_fill_portrait(320, 1000, 0, widest), (320, 427));
    for base in [0, 320, 768, 16_777_217, 4_294_967_295] {
        for (long, short) in [(1920, 1080), (2556, 1179), (16_777_219, 9_000_001), (7, 0), (0, 7)] {
            for max in [4.0 / 3.0, 1.5, 2.4, 3.999, 4.0_f32] {
                let raw = if short > 0 { long as f32 / short as f32 } else { 4.0 / 3.0 };
                let long_side = (base as f32 * raw.clamp(4.0 / 3.0, max)).round() as u32;
                let size = compute_fill_portrait(base, long, short, max.to_bits());
                assert_eq!(size, (base, long_side));
            }
        }
    }
}

#[test]
fn a_window_is_brought_back_to_the_ratio() {
    let locked = |(aw, ah): (u32, u32), (w, h): (u32, u32)| {
        let scale = (w as f32 / aw as f32).max(h as f32 / ah as f32).max(0.15);
        let side = |a: u32| ((a as f32 * scale).round() as u32).max(1);
        (side(aw), side(ah))
    };
    let apps = [(320, 480), (1024, 768), (768, 1365), (1, 1), (0, 480), (320, 0), (3, 4_294_967_295)];
    let windows = [(1, 1), (640, 481), (1001, 800), (2_147_483_647, 3), (33_554_433, 16_777_219)];
    for app in apps {
        for window in windows {
            assert_eq!(locked_size(app, window), locked(app, window));
        }
    }
    assert_eq!(locked_size((320, 480), (640, 481)), (640, 960));
    assert_eq!(locked_size((320, 480), (1, 1)), (48, 72));

    let mut w = window();
    let res = Resolution::new();
    assert_eq!(w.aspect_lock(&res, 640, 481, (640, 481)), Some((640, 960)));
    assert_eq!(w.aspect_lock(&res, 640, 481, (640, 960)), None);
    assert_eq!(w.aspect_lock(&res, 0, 481, (640, 481)), None);
    w.frame.lock_aspect = false;
    assert_eq!(w.aspect_lock(&res, 640, 481, (640, 481)), None);
}

#[test]
fn without_a_wish_the_device_is_an_iphone() {
    assert_eq!(DeviceFamily::asked_for(None), DeviceFamily::iPhone);
    assert_eq!(DeviceFamily::asked_for(Some(DeviceFamily::iPad)), DeviceFamily::iPad);
}

#[test]
fn the_picture_fills_or_is_centered() {
    let mut res = Resolution::new();
    let mut w = window();
    assert_eq!(w.viewport(&res, (1000, 800)), (0, 0, 1000, 800));
    w.frame.fullscreen = true;
    assert!(!w.viewport_fills(&res));
    assert_eq!(w.viewport(&res, (1001, 800)), (234, 0, 533, 800));
    assert_eq!(w.viewport(&res, (300, 800)), (0, 175, 300, 450));
    assert_eq!(w.viewport(&res, (301, 800)), (0, 174, 301, 452));
    assert_eq!(w.viewport(&res, (0, 0)), (0, 0, 0, 0));
    w.frame.device_orientation = DeviceOrientation::LandscapeLeft;
    w.frame.device_family = DeviceFamily::iPad;
    assert_eq!(w.viewport(&res, (1920, 1080)), (240, 0, 1440, 1080));
    w.frame = Frame { fullscreen: true, ..frame() };
    set_auto_portrait(&mut res, (768, 1365));
    set_ambient_fill(&mut res, true);
    assert!(w.viewport_fills(&res));
    let mut plain = Resolution::new();
    set_ambient_fill(&mut plain, true);
    w.frame.fullscreen = false;
    assert!(!w.viewport_fills(&plain));
    assert!(Window::rotatable_fullscreen("android") && !Window::rotatable_fullscreen("linux"));
}

#[test]
fn turning_the_device_resizes_the_window() {
    let res = Resolution::new();
    let mut w = window();
    let plan = w.rotate_device(DeviceOrientation::LandscapeLeft, &res, Some(480), true);
    assert_eq!((plan.resize, plan.turn_host, plan.redraw), (Some((480, 320)), false, true));
    assert_eq!((w.frame.max_height, w.viewport_y_offset()), (480, 160));
    let again = w.rotate_device(DeviceOrientation::LandscapeLeft, &res, Some(480), true);
    assert_eq!((again.resize, again.turn_host, again.redraw), (None, false, false));
    w.frame.rotatable = true;
    let plan = w.rotate_device(DeviceOrientation::Portrait, &res, None, false);
    assert_eq!((plan.resize, plan.turn_host, plan.redraw), (None, true, false));
}

#[test]
fn windows_are_opened_by_kind() {
    let res = Resolution::new();
    let f = Frame { device_orientation: DeviceOrientation::LandscapeRight, ..frame() };
    let kind = |f: Frame| window_kind(&f, &res, (1080, 1920));
    assert_eq!(kind(f), WindowKind::Windowed { size: (480, 320) });
    assert_eq!(kind(Frame { fullscreen: true, ..f }), WindowKind::Fullscreen { size: (1080, 1920) });
    assert_eq!(kind(Frame { rotatable: true, ..f }), WindowKind::Turning { size: (1920, 1080) });
    let w = Window::new(f);
    assert!(w.locks_aspect(10, 10) && !w.locks_aspect(0, 10));
    assert!(!Window::new(Frame { lock_aspect: false, ..f }).locks_aspect(10, 10));
}

#[test]
fn batteries_and_graphics_have_numbers() {
    assert_eq!(battery_state(1), BatteryState::OnBattery);
    assert_eq!(battery_state(2), BatteryState::NoBattery);
    assert_eq!(battery_state(3), BatteryState::Charging);
    assert_eq!(battery_state(4), BatteryState::Full);
    assert_eq!(battery_state(0), BatteryState::Unknown);
    assert_eq!(gl_attributes(GLVersion::GLES11), (1, 1, true));
    assert_eq!(gl_attributes(GLVersion::GL21Compat), (2, 1, false));
}

#[test]
fn window_settings_are_read() {
    assert_eq!(swap_mode(None), None);
    assert_eq!(swap_mode(Some("1")), Some(SwapMode::VSync));
    assert_eq!(swap_mode(Some("2")), Some(SwapMode::LateSwapTearing));
    assert_eq!(swap_mode(Some("0")), Some(SwapMode::Immediate));
    assert!(wheel_pinch_enabled(None) && !wheel_pinch_enabled(Some("0")));
    assert!(wheel_pinch_inverted(Some("1")) && !wheel_pinch_inverted(Some("")));
    assert!(!wheel_pinch_inverted(Some("0")) && !wheel_pinch_inverted(None));
    assert!(hidpi_enabled(None, true) && !hidpi_enabled(None, false));
}

#[test]
fn typing_is_noted() {
    let w = window();
    let mut t = TextInput { active: false };
    w.start_text_input(&mut t);
    assert!(mole_text_input_active(&t));
    w.stop_text_input(&mut t);
    assert!(!mole_text_input_active(&t));
}

#[test]
fn controllers_come_and_go() {
    let mut w = window();
    assert!(w.controller_added(4, "Pad", true));
    assert!(!w.controller_added(5, "uinput-fpc", true));
    assert!(w.controller_added(6, "uinput-fpc", false));
    assert_eq!(w.controllers, vec![4, 6]);
    assert_eq!(w.get_acceleration(true, true), TiltSource::Stick);
    assert_eq!(w.get_acceleration(false, true), TiltSource::Sensor);
    assert_eq!(w.controller_removed(6), Some(1));
    assert_eq!(w.controller_removed(6), None);
    assert_eq!(w.controllers, vec![4]);
}

#[test]
fn the_notice_tells_how_to_tilt() {
    let mut w = window();
    let lines = |w: &Window, stick, sensor| w.print_accelerometer_notice(stick, sensor);
    assert_eq!(
        lines(&w, true, false),
        vec![TiltNotice::ConnectController, TiltNotice::RightClickToo]
    );
    assert_eq!(lines(&w, true, true), vec![TiltNotice::SensorIsUsed, TiltNotice::ConnectForStick]);
    assert_eq!(lines(&w, false, false), vec![TiltNotice::RightClick]);
    w.controller_added(1, "Pad", false);
    assert_eq!(
        lines(&w, true, true),
        vec![TiltNotice::StickIsUsed, TiltNotice::DisconnectForSensor]
    );
    assert_eq!(lines(&w, true, false), vec![TiltNotice::StickIsUsed, TiltNotice::RightClickToo]);
}

#[test]
fn countries_are_taken_from_languages() {
    let given = vec![Some("US".to_string()), None, Some("CN".to_string())];
    assert_eq!(get_preferred_country_codes(&given), vec!["US", "CN"]);
    assert_eq!(crash_text("oops"), "touchHLE crashed with the following error: oops");
}

#[test]
fn pictures_are_copied_line_by_line() {
    let src: Vec<u8> = (1..=16).collect();
    let mut dst = vec![0u8; 25];
    surface_from_image(&src, 2, 2, 10, &mut dst);
    assert_eq!(
        dst,
        vec![1, 2, 3, 4, 5, 6, 7, 8, 0, 0, 9, 10, 11, 12, 13, 14, 15, 16, 0, 0, 0, 0, 0, 0, 0]
    );
}
