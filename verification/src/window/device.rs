//! The emulated device, its screen, and how it is shown in the window.

use vstd::prelude::*;
use crate::text::same;

verus! {

#[derive(Clone, Copy, Debug, PartialEq, Eq, Structural)]
#[allow(non_camel_case_types)]
pub enum DeviceFamily {
    iPhone,
    iPad,
}

#[derive(Clone, Copy, Debug, PartialEq, Eq, Structural)]
pub enum DeviceOrientation {
    Portrait,
    PortraitUpsideDown,
    LandscapeLeft,
    LandscapeRight,
}

/// Settings of the screen. The two sizes and the widest ratio are set once;
/// setting them again has no effect.
#[derive(Clone, Copy, Debug, PartialEq, Eq)]
pub struct Resolution {
    /// The size asked for, upright: the short side and the long side.
    pub cli_portrait: Option<(u32, u32)>,
    /// The size that fills the host's screen, upright.
    pub auto_portrait: Option<(u32, u32)>,
    pub fill_screen: bool,
    /// Bits of the widest ratio asked for, a single-precision number.
    pub max_aspect: Option<u32>,
    pub ambient_fill: bool,
}

impl Resolution {
    /// Nothing asked for.
    pub fn new() -> (r: Resolution)
        ensures
            r.cli_portrait is None && r.auto_portrait is None && r.max_aspect is None,
            !r.fill_screen && !r.ambient_fill,
    {
        Resolution {
            cli_portrait: None,
            auto_portrait: None,
            fill_screen: false,
            max_aspect: None,
            ambient_fill: false,
        }
    }

    /// The size of the screen that was asked for or computed, upright.
    pub open spec fn custom(self) -> Option<(u32, u32)> {
        if self.cli_portrait is Some {
            self.cli_portrait
        } else {
            self.auto_portrait
        }
    }
}

/// The size of a device's screen, upright, unless another was asked for.
pub open spec fn native_size(family: DeviceFamily) -> (u32, u32) {
    match family {
        DeviceFamily::iPhone => (320, 480),
        DeviceFamily::iPad => (768, 1024),
    }
}

/// The size of the screen, upright.
pub open spec fn upright_size(family: DeviceFamily, res: Resolution) -> (u32, u32) {
    match res.custom() {
        Some(size) => size,
        None => native_size(family),
    }
}

impl DeviceFamily {
    /// The device asked for; without a wish, an iPhone.
    pub fn asked_for(asked: Option<DeviceFamily>) -> (r: DeviceFamily)
        ensures
            r == family_asked_for(asked),
            r == (match asked {
                Some(family) => family,
                None => DeviceFamily::iPhone,
            }),
    {
        match asked {
            Some(family) => family,
            None => DeviceFamily::iPhone,
        }
    }

    /// The size of the screen, upright: the one asked for, else the one that
    /// fills the host's screen, else the device's own.
    pub fn portrait_size(&self, res: &Resolution) -> (r: (u32, u32))
        ensures
            r == upright_size(*self, *res),
    {
        if let Some(size) = res.cli_portrait {
            return size;
        }
        if let Some(size) = res.auto_portrait {
            return size;
        }
        match self {
            DeviceFamily::iPhone => (320, 480),
            DeviceFamily::iPad => (768, 1024),
        }
    }

    /// The family with the number that an app's properties use.
    pub fn from_number(value: u64) -> (r: Result<DeviceFamily, ()>)
        ensures
            r is Ok == family_of(value) is Some,
            r is Ok ==> Some(r->Ok_0) == family_of(value),
            r == (if value == 1 {
                Ok::<DeviceFamily, ()>(DeviceFamily::iPhone)
            } else if value == 2 {
                Ok(DeviceFamily::iPad)
            } else {
                Err(())
            }),
    {
        match value {
            1 => Ok(DeviceFamily::iPhone),
            2 => Ok(DeviceFamily::iPad),
            _ => Err(()),
        }
    }

    /// The family with a name.
    pub fn from_name(value: &str) -> (r: Result<DeviceFamily, ()>)
        ensures
            r is Ok == family_named(value@) is Some,
            r is Ok ==> Some(r->Ok_0) == family_named(value@),
            r == (if value@ == "iphone"@ {
                Ok::<DeviceFamily, ()>(DeviceFamily::iPhone)
            } else if value@ == "ipad"@ {
                Ok(DeviceFamily::iPad)
            } else {
                Err(())
            }),
    {
        if same(value, "iphone") {
            Ok(DeviceFamily::iPhone)
        } else if same(value, "ipad") {
            Ok(DeviceFamily::iPad)
        } else {
            Err(())
        }
    }
}

/// Fills the empty space beside the picture with a dimmed copy of it, or not.
pub fn set_ambient_fill(res: &mut Resolution, on: bool)
    ensures
        *final(res) == (Resolution { ambient_fill: on, ..*old(res) }),
{
    res.ambient_fill = on;
}

/// Whether the empty space beside the picture is filled.
pub fn ambient_fill_active(res: &Resolution) -> (r: bool)
    ensures
        r == res.ambient_fill,
{
    res.ambient_fill
}

/// A size with the short side first.
pub open spec fn upright(w: u32, h: u32) -> (u32, u32) {
    if w < h {
        (w, h)
    } else {
        (h, w)
    }
}

/// Notes what was asked for when the program was started.
pub fn apply_cli_resolution(
    res: &mut Resolution,
    logical_size: Option<(u32, u32)>,
    fill_screen: bool,
    max_aspect: Option<u32>,
)
    ensures
        *final(res) == asked(*old(res), logical_size, fill_screen, max_aspect),
        *final(res) == (Resolution {
            cli_portrait: if old(res).cli_portrait is None && logical_size is Some && (
            logical_size->0).0 != 0 && (logical_size->0).1 != 0 {
                Some(upright((logical_size->0).0, (logical_size->0).1))
            } else {
                old(res).cli_portrait
            },
            fill_screen: old(res).fill_screen || fill_screen,
            max_aspect: if old(res).max_aspect is None {
                max_aspect
            } else {
                old(res).max_aspect
            },
            ..*old(res)
        }),
{
    if let Some((w, h)) = logical_size {
        if w != 0 && h != 0 && res.cli_portrait.is_none() {
            res.cli_portrait = Some(if w < h { (w, h) } else { (h, w) });
        }
    }
    if fill_screen {
        res.fill_screen = true;
    }
    if let Some(a) = max_aspect {
        if res.max_aspect.is_none() {
            res.max_aspect = Some(a);
        }
    }
}

/// Notes the size that fills the host's screen.
pub fn set_auto_portrait(res: &mut Resolution, size: (u32, u32))
    ensures
        *final(res) == with_auto(*old(res), size),
        *final(res) == (Resolution {
            auto_portrait: if old(res).auto_portrait is None {
                Some(size)
            } else {
                old(res).auto_portrait
            },
            ..*old(res)
        }),
{
    if res.auto_portrait.is_none() {
        res.auto_portrait = Some(size);
    }
}

/// What the size that fills the host's screen is computed from: the fixed short
/// side, and the host screen's long and short side. Nothing where filling was
/// not asked for, where a size was, or where the screen has no size.
pub fn fill_screen_target(res: &Resolution, family: DeviceFamily, display: Option<(u32, u32)>) -> (r:
    Option<(u32, u32, u32)>)
    ensures
        r == fill_target(*res, family, display),
        ({
            let asked = res.fill_screen && res.cli_portrait is None && display is Some;
            let (short, long) = upright((display->0).0, (display->0).1);
            r == if asked && short > 0 {
                Some((native_size(family).0, long, short))
            } else {
                None::<(u32, u32, u32)>
            }
        }),
{
    if !res.fill_screen || res.cli_portrait.is_some() {
        return None;
    }
    match display {
        None => None,
        Some((w, h)) => {
            let (long, short) = if w >= h { (w, h) } else { (h, w) };
            if short > 0 {
                let base: u32 = match family {
                    DeviceFamily::iPad => 768,
                    DeviceFamily::iPhone => 320,
                };
                Some((base, long, short))
            } else {
                None
            }
        },
    }
}

/// Whether a size other than the device's own is in use.
pub fn custom_guest_size_active(res: &Resolution) -> (r: bool)
    ensures
        r == res.custom() is Some,
{
    res.cli_portrait.is_some() || res.auto_portrait.is_some()
}

/// Whether the screen, held lengthwise, is wider than 1024 points.
pub fn is_widescreen(res: &Resolution) -> (r: bool)
    ensures
        r == is_wide(*res),
        r == (res.custom() is Some && (res.custom()->0).1 > 1024),
{
    if let Some((_, h)) = res.cli_portrait {
        return h > 1024;
    }
    match res.auto_portrait {
        Some((_, h)) => h > 1024,
        None => false,
    }
}

/// Whether the screen is held lengthwise.
pub open spec fn is_landscape(o: DeviceOrientation) -> bool {
    o == DeviceOrientation::LandscapeLeft || o == DeviceOrientation::LandscapeRight
}

/// A size, turned with the device.
pub open spec fn turned(size: (u32, u32), o: DeviceOrientation) -> (u32, u32) {
    if is_landscape(o) {
        (size.1, size.0)
    } else {
        size
    }
}

/// The size of the device's screen as it is held, made larger `scale` times.
pub fn size_for_orientation(
    family: DeviceFamily,
    orientation: DeviceOrientation,
    scale: u32,
    res: &Resolution,
) -> (r: (u32, u32))
    requires
        upright_size(family, *res).0 * scale <= u32::MAX,
        upright_size(family, *res).1 * scale <= u32::MAX,
    ensures
        r == turned(
            (
                (upright_size(family, *res).0 * scale) as u32,
                (upright_size(family, *res).1 * scale) as u32,
            ),
            orientation,
        ),
{
    let (width, height) = family.portrait_size(res);
    match orientation {
        DeviceOrientation::Portrait => (width * scale, height * scale),
        DeviceOrientation::PortraitUpsideDown => (width * scale, height * scale),
        DeviceOrientation::LandscapeLeft => (height * scale, width * scale),
        DeviceOrientation::LandscapeRight => (height * scale, width * scale),
    }
}

/// The host screen's size, turned as the device is held.
pub fn rotate_fullscreen_size(orientation: DeviceOrientation, screen: (u32, u32)) -> (r: (u32, u32))
    ensures
        r == turned(upright(screen.0, screen.1), orientation),
{
    let (short_side, long_side) = if screen.0 < screen.1 {
        (screen.0, screen.1)
    } else {
        (screen.1, screen.0)
    };
    match orientation {
        DeviceOrientation::Portrait | DeviceOrientation::PortraitUpsideDown => {
            (short_side, long_side)
        },
        DeviceOrientation::LandscapeLeft | DeviceOrientation::LandscapeRight => {
            (long_side, short_side)
        },
    }
}

/// How the host's screen is turned for an orientation. On Android, the two
/// ways to hold it lengthwise are exchanged.
pub open spec fn shown_orientation(o: DeviceOrientation, android: bool) -> DeviceOrientation {
    if !android {
        o
    } else {
        match o {
            DeviceOrientation::LandscapeLeft => DeviceOrientation::LandscapeRight,
            DeviceOrientation::LandscapeRight => DeviceOrientation::LandscapeLeft,
            _ => o,
        }
    }
}

/// How the host's screen is turned for an orientation.
pub fn physical_orientation(orientation: DeviceOrientation, android: bool) -> (r: DeviceOrientation)
    ensures
        r == shown_orientation(orientation, android),
{
    if !android {
        return orientation;
    }
    match orientation {
        DeviceOrientation::LandscapeLeft => DeviceOrientation::LandscapeRight,
        DeviceOrientation::LandscapeRight => DeviceOrientation::LandscapeLeft,
        other => other,
    }
}

/// The host's name for an orientation. Its names for the two ways to hold the
/// screen lengthwise are the other way round.
pub open spec fn hint_of(o: DeviceOrientation) -> Seq<char> {
    match o {
        DeviceOrientation::Portrait => "Portrait"@,
        DeviceOrientation::PortraitUpsideDown => "PortraitUpsideDown"@,
        DeviceOrientation::LandscapeLeft => "LandscapeRight"@,
        DeviceOrientation::LandscapeRight => "LandscapeLeft"@,
    }
}

/// The hint that has the host turn its screen.
pub fn orientation_hint(orientation: DeviceOrientation, android: bool) -> (r: &'static str)
    ensures
        r@ == hint_of(shown_orientation(orientation, android)),
{
    match physical_orientation(orientation, android) {
        DeviceOrientation::Portrait => "Portrait",
        DeviceOrientation::PortraitUpsideDown => "PortraitUpsideDown",
        DeviceOrientation::LandscapeLeft => "LandscapeRight",
        DeviceOrientation::LandscapeRight => "LandscapeLeft",
    }
}

/// By how many quarter turns the picture is turned to be shown upright.
pub fn quarter_turns(orientation: DeviceOrientation) -> (r: i32)
    ensures
        r == turns_of(orientation),
        r == (match orientation {
            DeviceOrientation::Portrait => 0i32,
            DeviceOrientation::PortraitUpsideDown => 2i32,
            DeviceOrientation::LandscapeLeft => -1i32,
            DeviceOrientation::LandscapeRight => 1i32,
        }),
{
    match orientation {
        DeviceOrientation::Portrait => 0,
        DeviceOrientation::PortraitUpsideDown => 2,
        DeviceOrientation::LandscapeLeft => -1,
        DeviceOrientation::LandscapeRight => 1,
    }
}

/// Turning the screen back and forth shows it as before.
pub proof fn law_exchange_is_its_own_inverse(o: DeviceOrientation, android: bool)
    ensures
        shown_orientation(shown_orientation(o, android), android) == o,
{
}

/// The first size that was asked for stays, with the short side first; filling
/// the screen does not override it.
pub proof fn law_first_size_stays(family: DeviceFamily, res: Resolution, w: u32, h: u32, auto: (u32, u32))
    requires
        res.cli_portrait == Some(upright(w, h)),
    ensures
        upright(w, h).0 <= upright(w, h).1,
        upright_size(family, res) == upright(w, h),
        upright_size(family, Resolution { auto_portrait: Some(auto), ..res }) == upright(w, h),
{
}

/// Turning the device by a half turn does not change the size; holding it
/// lengthwise exchanges the sides.
pub proof fn law_turning_keeps_the_sides(size: (u32, u32), o: DeviceOrientation)
    ensures
        turned(size, o) == size || turned(size, o) == (size.1, size.0),
        turned(turned(size, o), o) == size,
{
}

/// Where no other size was asked for or computed, the device has its own, and
/// the screen does not count as wide.
pub proof fn law_native_unless_asked(family: DeviceFamily, res: Resolution)
    requires
        res.cli_portrait is None,
        res.auto_portrait is None,
    ensures
        upright_size(family, res) == native_size(family),
        res.custom() is None,
{
}

/// An iPhone is 320 by 480 points, an iPad 768 by 1024.
pub proof fn law_screens_of_devices(family: DeviceFamily, res: Resolution)
    ensures
        native_size(DeviceFamily::iPhone) == (320u32, 480u32),
        native_size(DeviceFamily::iPad) == (768u32, 1024u32),
        res.cli_portrait is Some ==> upright_size(family, res) == res.cli_portrait->0,
        res.cli_portrait is None && res.auto_portrait is Some ==> upright_size(family, res)
            == res.auto_portrait->0,
        res.cli_portrait is None && res.auto_portrait is None ==> upright_size(family, res)
            == native_size(family),
{
}

/// Held upright, either way round, the screen is as wide as it is; held
/// lengthwise, either way, its sides are exchanged. The short side is the first
/// of an upright screen.
pub proof fn law_turned_screens(w: u32, h: u32)
    ensures
        turned((w, h), DeviceOrientation::Portrait) == (w, h),
        turned((w, h), DeviceOrientation::PortraitUpsideDown) == (w, h),
        turned((w, h), DeviceOrientation::LandscapeLeft) == (h, w),
        turned((w, h), DeviceOrientation::LandscapeRight) == (h, w),
        w <= h ==> upright(w, h) == (w, h) && upright(h, w) == (w, h),
{
}

/// The hint for the host names the orientation, but the two ways to hold the
/// screen lengthwise by each other's name; on Android by their own, as they are
/// exchanged there. Held upright nothing is exchanged.
pub proof fn law_hints(android: bool)
    ensures
        hint_of(shown_orientation(DeviceOrientation::Portrait, android)) == "Portrait"@,
        hint_of(shown_orientation(DeviceOrientation::PortraitUpsideDown, android))
            == "PortraitUpsideDown"@,
        hint_of(shown_orientation(DeviceOrientation::LandscapeLeft, false)) == "LandscapeRight"@,
        hint_of(shown_orientation(DeviceOrientation::LandscapeRight, false)) == "LandscapeLeft"@,
        hint_of(shown_orientation(DeviceOrientation::LandscapeLeft, true)) == "LandscapeLeft"@,
        hint_of(shown_orientation(DeviceOrientation::LandscapeRight, true)) == "LandscapeRight"@,
        shown_orientation(DeviceOrientation::LandscapeLeft, true)
            == DeviceOrientation::LandscapeRight,
        shown_orientation(DeviceOrientation::LandscapeRight, true)
            == DeviceOrientation::LandscapeLeft,
        forall|o: DeviceOrientation| #[trigger] shown_orientation(o, false) == o,
{
}

/// Quarter turns to show the picture upright.
pub open spec fn turns_of(o: DeviceOrientation) -> int {
    match o {
        DeviceOrientation::Portrait => 0,
        DeviceOrientation::PortraitUpsideDown => 2,
        DeviceOrientation::LandscapeLeft => -1,
        DeviceOrientation::LandscapeRight => 1,
    }
}

/// Upright needs no turn and upside down a half turn; the two ways lengthwise
/// need a quarter turn each, in opposite directions, the right one forwards.
pub proof fn law_quarter_turns()
    ensures
        turns_of(DeviceOrientation::Portrait) == 0,
        turns_of(DeviceOrientation::PortraitUpsideDown) == 2,
        turns_of(DeviceOrientation::LandscapeRight) == 1,
        turns_of(DeviceOrientation::LandscapeLeft) == -turns_of(DeviceOrientation::LandscapeRight),
{
}

/// The family with a number.
pub open spec fn family_of(value: u64) -> Option<DeviceFamily> {
    if value == 1 {
        Some(DeviceFamily::iPhone)
    } else if value == 2 {
        Some(DeviceFamily::iPad)
    } else {
        None
    }
}

/// The family with a name.
pub open spec fn family_named(value: Seq<char>) -> Option<DeviceFamily> {
    if value == "iphone"@ {
        Some(DeviceFamily::iPhone)
    } else if value == "ipad"@ {
        Some(DeviceFamily::iPad)
    } else {
        None
    }
}

/// An iPhone has the number 1 and the name `iphone`, an iPad 2 and `ipad`; no
/// other number or name stands for a device.
pub proof fn law_families(value: u64, name: Seq<char>)
    ensures
        family_of(value) == Some(DeviceFamily::iPhone) <==> value == 1,
        family_of(value) == Some(DeviceFamily::iPad) <==> value == 2,
        family_named(name) == Some(DeviceFamily::iPhone) <==> name == "iphone"@,
        family_named(name) == Some(DeviceFamily::iPad) <==> name == "ipad"@,
{
    reveal_strlit("iphone");
    reveal_strlit("ipad");
    assert("iphone"@.len() != "ipad"@.len());
}

/// What was asked for when the program was started, as it is noted.
pub open spec fn asked(
    res: Resolution,
    logical_size: Option<(u32, u32)>,
    fill_screen: bool,
    max_aspect: Option<u32>,
) -> Resolution {
    Resolution {
        cli_portrait: if res.cli_portrait is None && logical_size is Some && (logical_size->0).0 != 0
            && (logical_size->0).1 != 0 {
            Some(upright((logical_size->0).0, (logical_size->0).1))
        } else {
            res.cli_portrait
        },
        fill_screen: res.fill_screen || fill_screen,
        max_aspect: if res.max_aspect is None {
            max_aspect
        } else {
            res.max_aspect
        },
        ..res
    }
}

/// The first wish counts: a size with two sides above zero, short side first; a
/// widest ratio; and filling the screen, which no later word takes back.
pub proof fn law_first_wish_counts(
    res: Resolution,
    w: u32,
    h: u32,
    fill: bool,
    bits: u32,
)
    ensures
        ({
            let a = asked(res, Some((w, h)), fill, Some(bits));
            &&& res.cli_portrait is Some ==> a.cli_portrait == res.cli_portrait
            &&& res.cli_portrait is None && 0 < w <= h ==> a.cli_portrait == Some((w, h))
            &&& res.cli_portrait is None && 0 < h <= w ==> a.cli_portrait == Some((h, w))
            &&& res.cli_portrait is None && (w == 0 || h == 0) ==> a.cli_portrait is None
            &&& res.max_aspect is Some ==> a.max_aspect == res.max_aspect
            &&& res.max_aspect is None ==> a.max_aspect == Some(bits)
            &&& a.fill_screen == (res.fill_screen || fill)
            &&& a.auto_portrait == res.auto_portrait && a.ambient_fill == res.ambient_fill
        }),
        asked(res, None, false, None) == res,
{
}

/// What the size that fills the host's screen is computed from.
pub open spec fn fill_target(res: Resolution, family: DeviceFamily, display: Option<(u32, u32)>) -> Option<
    (u32, u32, u32),
> {
    let asked = res.fill_screen && res.cli_portrait is None && display is Some;
    let (short, long) = upright((display->0).0, (display->0).1);
    if asked && short > 0 {
        Some((native_size(family).0, long, short))
    } else {
        None
    }
}

/// The screen is filled only where that was asked for and no size was, and the
/// screen has one: from the device's own short side, and the screen's long and
/// short side.
pub proof fn law_when_the_screen_is_filled(
    res: Resolution,
    family: DeviceFamily,
    w: u32,
    h: u32,
)
    ensures
        fill_target(res, family, None) is None,
        !res.fill_screen || res.cli_portrait is Some || w == 0 || h == 0 ==> fill_target(
            res,
            family,
            Some((w, h)),
        ) is None,
        res.fill_screen && res.cli_portrait is None && 0 < w <= h ==> fill_target(
            res,
            family,
            Some((w, h)),
        ) == Some(
            (
                if family == DeviceFamily::iPad {
                    768u32
                } else {
                    320u32
                },
                h,
                w,
            ),
        ),
        fill_target(res, family, Some((w, h))) == fill_target(res, family, Some((h, w))),
{
}

/// The wishes once the size that fills the host's screen is known.
pub open spec fn with_auto(res: Resolution, size: (u32, u32)) -> Resolution {
    Resolution {
        auto_portrait: if res.auto_portrait is None {
            Some(size)
        } else {
            res.auto_portrait
        },
        ..res
    }
}

/// Whether the screen, held lengthwise, is wider than 1024 points.
pub open spec fn is_wide(res: Resolution) -> bool {
    res.custom() is Some && (res.custom()->0).1 > 1024
}

/// The device asked for; without a wish, an iPhone.
pub open spec fn family_asked_for(asked: Option<DeviceFamily>) -> DeviceFamily {
    match asked {
        Some(family) => family,
        None => DeviceFamily::iPhone,
    }
}

/// The first size that fills the screen stays, and changes no other wish. A
/// screen is wide if its long side, asked for or computed, has more than 1024
/// points; a device's own screen never is. Without a wish the device is an
/// iPhone.
pub proof fn law_sizes_in_use(res: Resolution, w: u32, h: u32, family: DeviceFamily)
    ensures
        res.auto_portrait is None ==> with_auto(res, (w, h)).auto_portrait == Some((w, h)),
        res.auto_portrait is Some ==> with_auto(res, (w, h)) == res,
        with_auto(res, (w, h)).cli_portrait == res.cli_portrait && with_auto(
            res,
            (w, h),
        ).fill_screen == res.fill_screen && with_auto(res, (w, h)).max_aspect == res.max_aspect
            && with_auto(res, (w, h)).ambient_fill == res.ambient_fill,
        res.cli_portrait == Some((w, h)) ==> is_wide(res) == (h >= 1025),
        res.cli_portrait is None && res.auto_portrait == Some((w, h)) ==> is_wide(res) == (h >= 1025),
        res.cli_portrait is None && res.auto_portrait is None ==> !is_wide(res),
        family_asked_for(None) == DeviceFamily::iPhone,
        family_asked_for(Some(family)) == family,
{
}

} // verus!
