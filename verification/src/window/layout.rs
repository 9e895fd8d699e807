//! How the device's screen is laid out in the window, and how it is turned.

use vstd::prelude::*;
use crate::rounding::{lemma_single_below, single, single_of, to_single, whole_to_single};
use crate::text::same;
use crate::window::device::{
    native_size, rotate_fullscreen_size, size_for_orientation, turned, upright, upright_size,
    DeviceOrientation, Resolution,
};
use crate::window::events::{Frame, Window};
use crate::window::fill::{locked, locked_size};
use crate::window::scaling::{
    aspect, aspect_of, lemma_height, lemma_order, lemma_ratio, lemma_rounded, lemma_width,
    lemma_within, made_whole, rounded, whole,
};

verus! {

/// Whether the picture fills the whole window, whatever its ratio. In a window
/// it does, and always where the screen's size was chosen to fit; not where
/// the empty space is to be filled with a copy of the picture.
pub open spec fn fills(f: Frame, res: Resolution) -> bool {
    let custom = res.custom() is Some;
    let ambient = res.ambient_fill && !custom;
    ((!f.fullscreen && !f.rotatable) || custom) && !ambient
}

/// Whether a window with a new size is brought back to the picture's ratio.
pub open spec fn locks(f: Frame, width: i32, height: i32) -> bool {
    f.lock_aspect && !f.fullscreen && !f.rotatable && width > 0 && height > 0
}

/// Whether the screen's size, as it is held and made larger, can be told.
pub open spec fn size_fits(f: Frame, res: Resolution) -> bool {
    &&& upright_size(f.device_family, res).0 * f.scale_hack <= u32::MAX
    &&& upright_size(f.device_family, res).1 * f.scale_hack <= u32::MAX
}

/// The screen's size, as it is held and made larger.
pub open spec fn shown_size(f: Frame, o: DeviceOrientation, res: Resolution) -> (u32, u32) {
    turned(
        (
            (upright_size(f.device_family, res).0 * f.scale_hack) as u32,
            (upright_size(f.device_family, res).1 * f.scale_hack) as u32,
        ),
        o,
    )
}

/// Whether the window is wider than the picture, for its height.
pub open spec fn is_wider(window: (u32, u32), app: (u32, u32)) -> bool {
    if window.1 == 0 {
        window.0 > 0
    } else {
        aspect(app).0 * aspect(window).1 < aspect(window).0 * aspect(app).1
    }
}

/// The largest size of the picture's ratio that fits into the window: as high
/// as the window where the window is the wider one, otherwise as wide. The
/// other side is computed in single precision and then made whole.
pub open spec fn fitted(app: (u32, u32), window: (u32, u32)) -> (u32, u32) {
    let (p, k) = aspect(app);
    if is_wider(window, app) {
        (whole(single(single_of(window.1 as int) * p, k)), window.1)
    } else {
        (window.0, whole(single(single_of(window.0 as int) * k, p)))
    }
}

/// Whether the picture has a size that can be told, and lies within the window
/// once it is fitted into it. A window with sides of more than a million
/// pixels can be too narrow by what single precision leaves out.
pub open spec fn picture_fits(f: Frame, res: Resolution, window: (u32, u32)) -> bool {
    let s = fitted(shown_size(f, f.device_orientation, res), window);
    &&& f.scale_hack > 0
    &&& size_fits(f, res)
    &&& upright_size(f.device_family, res).0 > 0
    &&& upright_size(f.device_family, res).1 > 0
    &&& s.0 <= window.0
    &&& s.1 <= window.1
}

/// The part of the window that shows the picture: left, top, width and height.
pub open spec fn shown_area(f: Frame, res: Resolution, window: (u32, u32)) -> (u32, u32, u32, u32) {
    if fills(f, res) {
        (0, 0, window.0, window.1)
    } else {
        let scaled = fitted(shown_size(f, f.device_orientation, res), window);
        (
            ((window.0 - scaled.0) / 2) as u32,
            ((window.1 - scaled.1) / 2) as u32,
            scaled.0,
            scaled.1,
        )
    }
}

/// In a window of up to a million pixels a side the picture lies within the
/// window, reaches from edge to edge in one direction, and keeps its ratio to
/// less than a pixel.
proof fn lemma_fitted(app: (u32, u32), window: (u32, u32))
    requires
        0 < app.0 < 0x100_0000,
        0 < app.1 < 0x100_0000,
        2 * app.0 <= 3 * app.1,
        2 * app.1 <= 3 * app.0,
        window.0 <= 0x10_0000,
        window.1 <= 0x10_0000,
    ensures
        ({
            let s = fitted(app, window);
            let off = s.0 * app.1 - s.1 * app.0;
            &&& s.0 <= window.0 && s.1 <= window.1
            &&& (s.1 == window.1 && -25 * app.1 <= 32 * off <= 25 * app.1) || (s.0 == window.0
                && -25 * app.0 <= 32 * off <= 25 * app.0)
        }),
{
    let (aw, ah) = (app.0 as int, app.1 as int);
    let (sw, sh) = (window.0 as int, window.1 as int);
    let s = fitted(app, window);
    let (p, k) = aspect(app);
    lemma_single_below(aw, ah);
    lemma_ratio(aw, ah, p, k);
    if sw == 0 || sh == 0 {
        assert(single(0, k) == (0int, 1int) && single(0, p) == (0int, 1int));
        assert(sh == 0 ==> single_of(sh) * p == 0) by (nonlinear_arith)
            requires
                sh == 0 ==> single_of(sh) == 0,
        ;
        assert(sw == 0 ==> single_of(sw) * k == 0) by (nonlinear_arith)
            requires
                sw == 0 ==> single_of(sw) == 0,
        ;
        if sh > 0 {
            let (q, j) = aspect(window);
            assert(p * j >= q * k) by (nonlinear_arith)
                requires
                    q == 0,
                    j == 1,
                    p > 0,
            ;
        }
        lemma_rounded(0, 1);
        assert(whole((0int, 1int)) == 0);
        assert(s.0 == 0 && s.1 == 0);
        assert(s.0 * app.1 == 0 && s.1 * app.0 == 0) by (nonlinear_arith)
            requires
                s.0 == 0,
                s.1 == 0,
        ;
    } else {
        let (q, j) = aspect(window);
        lemma_single_below(sw, sh);
        assert(aw * sh == sh * aw && sw * ah == ah * sw) by (nonlinear_arith);
        if is_wider(window, app) {
            lemma_order(aw, ah, p, k, sw, sh, q, j);
            assert(0 < sh * p < 0x100_0000 * k) by (nonlinear_arith)
                requires
                    0 < sh <= 0x10_0000,
                    0 < p <= 3 * k,
            ;
            lemma_single_below(sh * p, k);
            let (y, i) = single(sh * p, k);
            lemma_rounded(y, i);
            let w = rounded(y, i);
            assert(2 * (sh * aw) <= 0x30_0000 * ah) by (nonlinear_arith)
                requires
                    0 < sh <= 0x10_0000,
                    0 < aw,
                    2 * aw <= 3 * ah,
            ;
            lemma_width(aw, ah, p, k, sh, y, i, w);
            lemma_within(w, sw, ah, sh * aw);
        } else {
            lemma_order(sw, sh, q, j, aw, ah, p, k);
            assert(0 < sw * k < 0x100_0000 * p) by (nonlinear_arith)
                requires
                    0 < sw <= 0x10_0000,
                    0 < k,
                    5 * k <= 8 * p,
            ;
            lemma_single_below(sw * k, p);
            let (y, i) = single(sw * k, p);
            lemma_rounded(y, i);
            let h = rounded(y, i);
            lemma_height(aw, ah, p, k, sw, y, i, h);
            lemma_within(h, sh, aw, sw * ah);
        }
    }
}

/// The largest size of the picture's ratio that fits into the window.
pub fn scaled_size(app: (u32, u32), window: (u32, u32)) -> (r: (u32, u32))
    requires
        app.0 > 0,
        app.1 > 0,
    ensures
        r == fitted(app, window),
{
    let (p, k) = aspect_of(app);
    let wider = if window.1 == 0 {
        window.0 > 0
    } else {
        let (q, j) = aspect_of(window);
        assert(p * j <= 0x8_0000_0000 * 0x200_0000_0000_0000) by (nonlinear_arith)
            requires
                p <= 0x8_0000_0000,
                j <= 0x200_0000_0000_0000,
        ;
        assert(q * k <= 0x8_0000_0000 * 0x200_0000_0000_0000) by (nonlinear_arith)
            requires
                q <= 0x8_0000_0000,
                k <= 0x200_0000_0000_0000,
        ;
        p * j < q * k
    };
    if wider {
        let s: u128 = whole_to_single(window.1) as u128;
        assert(s * p <= 0x2_0000_0000 * 0x8_0000_0000) by (nonlinear_arith)
            requires
                s <= 0x2_0000_0000,
                p <= 0x8_0000_0000,
        ;
        let (y, i) = to_single(s * p, k);
        (made_whole(y, i), window.1)
    } else {
        let s: u128 = whole_to_single(window.0) as u128;
        assert(s * k <= 0x2_0000_0000 * 0x200_0000_0000_0000) by (nonlinear_arith)
            requires
                s <= 0x2_0000_0000,
                k <= 0x200_0000_0000_0000,
        ;
        let (y, i) = to_single(s * k, p);
        (window.0, made_whole(y, i))
    }
}

/// What turning the device asks for.
#[derive(Clone, Copy, Debug, PartialEq, Eq)]
pub struct TurnPlan {
    /// The window gets this size.
    pub resize: Option<(u32, u32)>,
    /// The host turns its screen.
    pub turn_host: bool,
    /// The picture shown at the start has to be drawn again.
    pub redraw: bool,
}

/// The kind of window to open.
#[derive(Clone, Copy, Debug, PartialEq, Eq)]
pub enum WindowKind {
    /// The whole screen of a host that turns it.
    Turning { size: (u32, u32) },
    /// The whole screen.
    Fullscreen { size: (u32, u32) },
    /// A window whose size can be changed.
    Windowed { size: (u32, u32) },
}

impl Window {
    /// Whether the host has only one app on screen and turns it: on Android.
    pub fn rotatable_fullscreen(os: &str) -> (r: bool)
        ensures
            r == (os@ == "android"@),
    {
        same(os, "android")
    }

    /// Whether the picture fills the whole window.
    pub fn viewport_fills(&self, res: &Resolution) -> (r: bool)
        ensures
            r == fills(self.frame, *res),
    {
        let custom = res.cli_portrait.is_some() || res.auto_portrait.is_some();
        let ambient = res.ambient_fill && !custom;
        ((!self.frame.fullscreen && !self.frame.rotatable) || custom) && !ambient
    }

    /// The part of the window that shows the picture: left, top, width and
    /// height. Where the picture does not fill the window, it has its own
    /// ratio, is as large as the window allows, and stands in the middle.
    pub fn viewport(&self, res: &Resolution, window: (u32, u32)) -> (r: (u32, u32, u32, u32))
        requires
            fills(self.frame, *res) || picture_fits(self.frame, *res, window),
        ensures
            r == shown_area(self.frame, *res, window),
    {
        if self.viewport_fills(res) {
            return (0, 0, window.0, window.1);
        }
        let f = self.frame;
        proof {
            lemma_shown_size(f, *res);
        }
        let app = size_for_orientation(f.device_family, f.device_orientation, f.scale_hack, res);
        let scaled = scaled_size(app, window);
        let x: u32 = (window.0 - scaled.0) / 2;
        let y: u32 = (window.1 - scaled.1) / 2;
        (x, y, scaled.0, scaled.1)
    }

    /// Whether [`Window::viewport`] can be told: the picture fills the window,
    /// or lies within it once it is fitted.
    pub fn viewport_fits(&self, res: &Resolution, window: (u32, u32)) -> (r: bool)
        ensures
            r == (fills(self.frame, *res) || picture_fits(self.frame, *res, window)),
    {
        if self.viewport_fills(res) {
            return true;
        }
        let f = self.frame;
        let (w, h) = f.device_family.portrait_size(res);
        if f.scale_hack == 0 || w == 0 || h == 0 {
            return false;
        }
        if w.checked_mul(f.scale_hack).is_none() || h.checked_mul(f.scale_hack).is_none() {
            return false;
        }
        proof {
            lemma_shown_size(f, *res);
        }
        let app = size_for_orientation(f.device_family, f.device_orientation, f.scale_hack, res);
        let scaled = scaled_size(app, window);
        scaled.0 <= window.0 && scaled.1 <= window.1
    }

    /// Whether a window with a new size is brought back to the picture's ratio.
    pub fn locks_aspect(&self, width: i32, height: i32) -> (r: bool)
        ensures
            r == locks(self.frame, width, height),
    {
        self.frame.lock_aspect && !self.frame.fullscreen && !self.frame.rotatable && width > 0
            && height > 0
    }

    /// The size that a window is given which was made `width` by `height` large
    /// and now is `current` large, where it has to be brought back to the
    /// picture's ratio.
    pub fn aspect_lock(
        &self,
        res: &Resolution,
        width: i32,
        height: i32,
        current: (u32, u32),
    ) -> (r: Option<(u32, u32)>)
        requires
            locks(self.frame, width, height) ==> size_fits(self.frame, *res),
        ensures
            r == lock_request(self.frame, *res, width, height, current),
            ({
                let size = locked(
                    shown_size(self.frame, self.frame.device_orientation, *res),
                    (width as u32, height as u32),
                );
                r == if locks(self.frame, width, height) && size != current {
                    Some(size)
                } else {
                    None::<(u32, u32)>
                }
            }),
    {
        if !self.locks_aspect(width, height) {
            return None;
        }
        let f = self.frame;
        let app = size_for_orientation(f.device_family, f.device_orientation, f.scale_hack, res);
        let size = locked_size(app, (width as u32, height as u32));
        if size.0 != current.0 || size.1 != current.1 {
            Some(size)
        } else {
            None
        }
    }

    /// Turns the device. `height` is the window's height before, where the
    /// host needs it to be kept; `splash` whether a picture is shown at the
    /// start.
    pub fn rotate_device(
        &mut self,
        orientation: DeviceOrientation,
        res: &Resolution,
        height: Option<u32>,
        splash: bool,
    ) -> (plan: TurnPlan)
        requires
            old(self).frame.on_main_stack,
            size_fits(old(self).frame, *res),
        ensures
            (plan, final(self).frame) == turn_plan(
                old(self).frame,
                orientation,
                *res,
                height,
                splash,
            ),
            ({
                let f = old(self).frame;
                let turns = orientation != f.device_orientation;
                let window = turns && !f.fullscreen && !f.rotatable;
                let size = shown_size(f, orientation, *res);
                &&& plan.resize == (if window {
                    Some(size)
                } else {
                    None::<(u32, u32)>
                })
                &&& plan.turn_host == (turns && f.rotatable)
                &&& plan.redraw == (turns && splash)
                &&& final(self).frame == if window && height is Some {
                    let m = greatest(f.max_height, height->0, size.1);
                    Frame {
                        device_orientation: orientation,
                        max_height: m,
                        viewport_y_offset: (m - size.1) as u32,
                        ..f
                    }
                } else {
                    Frame { device_orientation: orientation, ..f }
                }
            }),
            final(self).controllers == old(self).controllers,
            final(self).controls == old(self).controls,
            final(self).event_queue == old(self).event_queue,
            final(self).high_priority_event == old(self).high_priority_event,
    {
        if orientation == self.frame.device_orientation {
            return TurnPlan { resize: None, turn_host: false, redraw: false };
        }
        let mut f = self.frame;
        let mut resize: Option<(u32, u32)> = None;
        if !f.fullscreen && !f.rotatable {
            let size = size_for_orientation(f.device_family, orientation, f.scale_hack, res);
            resize = Some(size);
            if let Some(h) = height {
                if h > f.max_height {
                    f.max_height = h;
                }
                if size.1 > f.max_height {
                    f.max_height = size.1;
                }
                f.viewport_y_offset = f.max_height - size.1;
            }
        }
        f.device_orientation = orientation;
        self.frame = f;
        TurnPlan { resize, turn_host: f.rotatable, redraw: splash }
    }
}

/// The greatest of three numbers.
pub open spec fn greatest(a: u32, b: u32, c: u32) -> u32 {
    let ab = if b > a {
        b
    } else {
        a
    };
    if c > ab {
        c
    } else {
        ab
    }
}

/// Which kind of window to open, and how large. `screen` is the size of the
/// host's screen.
pub fn window_kind(frame: &Frame, res: &Resolution, screen: (u32, u32)) -> (r: WindowKind)
    requires
        size_fits(*frame, *res),
    ensures
        r == kind_to_open(*frame, *res, screen),
        r == (if frame.rotatable {
            WindowKind::Turning {
                size: turned(upright(screen.0, screen.1), frame.device_orientation),
            }
        } else if frame.fullscreen {
            WindowKind::Fullscreen { size: screen }
        } else {
            WindowKind::Windowed {
                size: shown_size(*frame, frame.device_orientation, *res),
            }
        }),
{
    if frame.rotatable {
        WindowKind::Turning { size: rotate_fullscreen_size(frame.device_orientation, screen) }
    } else if frame.fullscreen {
        WindowKind::Fullscreen { size: screen }
    } else {
        WindowKind::Windowed {
            size: size_for_orientation(
                frame.device_family,
                frame.device_orientation,
                frame.scale_hack,
                res,
            ),
        }
    }
}

proof fn lemma_shown_size(f: Frame, res: Resolution)
    requires
        f.scale_hack > 0,
        size_fits(f, res),
        upright_size(f.device_family, res).0 > 0,
        upright_size(f.device_family, res).1 > 0,
    ensures
        shown_size(f, f.device_orientation, res).0 > 0,
        shown_size(f, f.device_orientation, res).1 > 0,
{
    let u = upright_size(f.device_family, res);
    assert(u.0 * f.scale_hack > 0 && u.1 * f.scale_hack > 0) by (nonlinear_arith)
        requires
            u.0 > 0,
            u.1 > 0,
            f.scale_hack > 0,
    ;
}

/// The picture lies within the window, and has as much space on one side as on
/// the other, but for a single line.
pub proof fn law_picture_is_centered(f: Frame, res: Resolution, window: (u32, u32))
    requires
        fills(f, res) || picture_fits(f, res, window),
    ensures
        ({
            let (x, y, w, h) = shown_area(f, res, window);
            let right = window.0 - w - x;
            let below = window.1 - h - y;
            &&& 0 <= right - x <= 1
            &&& 0 <= below - y <= 1
        }),
{
}

/// A picture that does not fill the window lies within it, reaches from edge
/// to edge in one direction, and in the other it has the length that its ratio
/// asks for, but for less than a pixel. So it is for every window of up to
/// 2^20 pixels a side, and a picture made larger up to 16383 times.
pub proof fn law_picture_keeps_its_ratio(f: Frame, res: Resolution, window: (u32, u32))
    requires
        !fills(f, res),
        0 < f.scale_hack < 0x4000,
        window.0 <= 0x10_0000,
        window.1 <= 0x10_0000,
    ensures
        picture_fits(f, res, window),
        ({
            let (aw, ah) = shown_size(f, f.device_orientation, res);
            let (_, _, w, h) = shown_area(f, res, window);
            let off = w * ah - h * aw;
            ||| h == window.1 && -ah < off < ah
            ||| w == window.0 && -aw < off < aw
        }),
{
    let n = native_size(f.device_family);
    assert(upright_size(f.device_family, res) == n);
    lemma_shown_size(f, res);
    lemma_fitted(shown_size(f, f.device_orientation, res), window);
}

/// The picture fills the window in a window of its own, and wherever the
/// screen's size was chosen to fit; not where the empty space is to be filled
/// with a copy of it, unless the size was chosen. On a full screen or a host that
/// turns it the picture otherwise keeps its ratio.
pub proof fn law_when_the_picture_fills(f: Frame, res: Resolution)
    ensures
        ({
            let chosen = res.cli_portrait is Some || res.auto_portrait is Some;
            &&& chosen ==> fills(f, res)
            &&& !chosen && res.ambient_fill ==> !fills(f, res)
            &&& !chosen && !res.ambient_fill ==> fills(f, res) == (!f.fullscreen && !f.rotatable)
        }),
{
}

/// The screen as it is held: its upright sides, each made larger, and exchanged
/// where it is held lengthwise. A window is brought back to its ratio only where
/// that was asked for, in a window of its own, and to a size above zero.
pub proof fn law_shown_size(f: Frame, res: Resolution)
    requires
        size_fits(f, res),
    ensures
        ({
            let (w, h) = upright_size(f.device_family, res);
            let up = shown_size(f, DeviceOrientation::Portrait, res);
            let side = shown_size(f, DeviceOrientation::LandscapeLeft, res);
            &&& up.0 == w * f.scale_hack && up.1 == h * f.scale_hack
            &&& side == (up.1, up.0)
            &&& shown_size(f, DeviceOrientation::PortraitUpsideDown, res) == up
            &&& shown_size(f, DeviceOrientation::LandscapeRight, res) == side
        }),
        forall|w: i32, h: i32| #[trigger]
            locks(f, w, h) <==> f.lock_aspect && !f.fullscreen && !f.rotatable && w >= 1 && h >= 1,
{
}

/// What turning the device asks for, and the frame after it.
pub open spec fn turn_plan(
    f: Frame,
    orientation: DeviceOrientation,
    res: Resolution,
    height: Option<u32>,
    splash: bool,
) -> (TurnPlan, Frame) {
    let turns = orientation != f.device_orientation;
    let window = turns && !f.fullscreen && !f.rotatable;
    let size = shown_size(f, orientation, res);
    (
        TurnPlan {
            resize: if window {
                Some(size)
            } else {
                None
            },
            turn_host: turns && f.rotatable,
            redraw: turns && splash,
        },
        if window && height is Some {
            let m = greatest(f.max_height, height->0, size.1);
            Frame {
                device_orientation: orientation,
                max_height: m,
                viewport_y_offset: (m - size.1) as u32,
                ..f
            }
        } else {
            Frame { device_orientation: orientation, ..f }
        },
    )
}

/// Turning the device: it is held as was asked. Nothing else happens where it
/// already was. A window gets the screen's new size; a host that turns its
/// screen is asked to; and the picture from the start is drawn again. The
/// greatest height of the window is kept, with the picture as far below as the
/// window is lower.
pub proof fn law_turning(
    f: Frame,
    orientation: DeviceOrientation,
    res: Resolution,
    h: u32,
    splash: bool,
)
    ensures
        ({
            let (plan, after) = turn_plan(f, orientation, res, Some(h), splash);
            let (same, kept) = turn_plan(f, f.device_orientation, res, Some(h), splash);
            let turns = orientation != f.device_orientation;
            let in_window = !f.fullscreen && !f.rotatable;
            let size = shown_size(f, orientation, res);
            &&& after.device_orientation == orientation
            &&& same.resize is None && !same.turn_host && !same.redraw && kept == f
            &&& turns && in_window ==> plan.resize == Some(size) && !plan.turn_host
            &&& turns && !in_window ==> plan.resize is None && plan.turn_host == f.rotatable
            &&& turns ==> plan.redraw == splash
            &&& turns && in_window ==> after.max_height >= h && after.max_height >= size.1
                && after.max_height >= f.max_height && (after.max_height == h || after.max_height
                == size.1 || after.max_height == f.max_height) && after.viewport_y_offset + size.1
                == after.max_height
            &&& !in_window ==> after.max_height == f.max_height && after.viewport_y_offset
                == f.viewport_y_offset
        }),
{
}

/// The kind of window to open, and how large.
pub open spec fn kind_to_open(f: Frame, res: Resolution, screen: (u32, u32)) -> WindowKind {
    if f.rotatable {
        WindowKind::Turning { size: turned(upright(screen.0, screen.1), f.device_orientation) }
    } else if f.fullscreen {
        WindowKind::Fullscreen { size: screen }
    } else {
        WindowKind::Windowed { size: shown_size(f, f.device_orientation, res) }
    }
}

/// A host that turns its screen gives all of it, turned as the device is held; a
/// full screen is the host's screen as it is; and any other window has the size
/// of the device's screen.
pub proof fn law_windows_to_open(f: Frame, res: Resolution, w: u32, h: u32)
    requires
        w <= h,
    ensures
        ({
            let lengthwise = f.device_orientation == DeviceOrientation::LandscapeLeft
                || f.device_orientation == DeviceOrientation::LandscapeRight;
            let k = kind_to_open(f, res, (w, h));
            &&& f.rotatable && lengthwise ==> k == (WindowKind::Turning { size: (h, w) })
            &&& f.rotatable && !lengthwise ==> k == (WindowKind::Turning { size: (w, h) })
            &&& f.rotatable ==> kind_to_open(f, res, (h, w)) == k
            &&& !f.rotatable && f.fullscreen ==> k == (WindowKind::Fullscreen { size: (w, h) })
            &&& !f.rotatable && !f.fullscreen ==> k == (WindowKind::Windowed {
                size: shown_size(f, f.device_orientation, res),
            })
        }),
{
}

/// A picture that fills the window covers all of it; any other has the fitted
/// size, and stands in the middle.
pub proof fn law_shown_area(f: Frame, res: Resolution, window: (u32, u32))
    ensures
        fills(f, res) ==> shown_area(f, res, window) == (0u32, 0u32, window.0, window.1),
        !fills(f, res) ==> (shown_area(f, res, window).2, shown_area(f, res, window).3) == fitted(
            shown_size(f, f.device_orientation, res),
            window,
        ),
{
}

/// The size that a window is given, where it has to be brought back.
pub open spec fn lock_request(
    f: Frame,
    res: Resolution,
    width: i32,
    height: i32,
    current: (u32, u32),
) -> Option<(u32, u32)> {
    let size = locked(
        shown_size(f, f.device_orientation, res),
        (width as u32, height as u32),
    );
    if locks(f, width, height) && size != current {
        Some(size)
    } else {
        None
    }
}

/// A window that already has the size it is brought back to is left alone, so
/// that bringing it back ends; so is one whose ratio is not kept.
pub proof fn law_bringing_back_ends(
    f: Frame,
    res: Resolution,
    width: i32,
    height: i32,
    current: (u32, u32),
)
    ensures
        ({
            let r = lock_request(f, res, width, height, current);
            &&& !locks(f, width, height) ==> r is None
            &&& r is Some ==> r->0 == locked(
                shown_size(f, f.device_orientation, res),
                (width as u32, height as u32),
            )
            &&& r is Some ==> lock_request(f, res, width, height, r->0) is None
            &&& locks(f, width, height) && r is None ==> current == locked(
                shown_size(f, f.device_orientation, res),
                (width as u32, height as u32),
            )
        }),
{
}

} // verus!
