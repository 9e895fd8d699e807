//! Smaller services of the host.

use vstd::prelude::*;
use crate::online::config::{opt_view, switch_of, switch_on};
use crate::text::{push_text, same, starts_with};
use crate::window::events::{Tilt, Window};

verus! {

/// What the battery does.
#[derive(Clone, Copy, Debug, PartialEq, Eq, Structural)]
pub enum BatteryState {
    Unknown,
    OnBattery,
    NoBattery,
    Charging,
    Full,
}

/// The battery's state by the host's number for it.
pub fn battery_state(code: u32) -> (r: BatteryState)
    ensures
        r == battery_of(code),
        r == (if code == 1 {
            BatteryState::OnBattery
        } else if code == 2 {
            BatteryState::NoBattery
        } else if code == 3 {
            BatteryState::Charging
        } else if code == 4 {
            BatteryState::Full
        } else {
            BatteryState::Unknown
        }),
{
    match code {
        1 => BatteryState::OnBattery,
        2 => BatteryState::NoBattery,
        3 => BatteryState::Charging,
        4 => BatteryState::Full,
        _ => BatteryState::Unknown,
    }
}

/// A kind of OpenGL.
#[derive(Clone, Copy, Debug, PartialEq, Eq, Structural)]
pub enum GLVersion {
    /// OpenGL ES 1.1
    GLES11,
    /// OpenGL 2.1 compatibility profile
    GL21Compat,
}

/// Version and, for the embedded kind, `true`, to ask the host for.
pub fn gl_attributes(version: GLVersion) -> (r: (u8, u8, bool))
    ensures
        r == gl_of(version),
        r == (match version {
            GLVersion::GLES11 => (1u8, 1u8, true),
            GLVersion::GL21Compat => (2u8, 1u8, false),
        }),
{
    match version {
        GLVersion::GLES11 => (1, 1, true),
        GLVersion::GL21Compat => (2, 1, false),
    }
}

/// When a picture goes on screen.
#[derive(Clone, Copy, Debug, PartialEq, Eq, Structural)]
pub enum SwapMode {
    Immediate,
    VSync,
    LateSwapTearing,
}

/// When a picture goes on screen, by the setting for it; nothing where it is
/// left to the host.
pub fn swap_mode(var: Option<&str>) -> (r: Option<SwapMode>)
    ensures
        r == swap_of(opt_view(var)),
        r == (match opt_view(var) {
            None => None::<SwapMode>,
            Some(v) => Some(
                if v == "1"@ {
                    SwapMode::VSync
                } else if v == "2"@ {
                    SwapMode::LateSwapTearing
                } else {
                    SwapMode::Immediate
                },
            ),
        }),
{
    match var {
        None => None,
        Some(v) => Some(
            if same(v, "1") {
                SwapMode::VSync
            } else if same(v, "2") {
                SwapMode::LateSwapTearing
            } else {
                SwapMode::Immediate
            },
        ),
    }
}

/// Whether the wheel makes pinches: unless it is turned off.
pub fn wheel_pinch_enabled(var: Option<&str>) -> (r: bool)
    ensures
        r == wheel_pinches(opt_view(var)),
{
    switch_on(var, true)
}

/// Whether the wheel's direction is the other way round: where it is set to
/// something, and not to "0".
pub fn wheel_pinch_inverted(var: Option<&str>) -> (r: bool)
    ensures
        r == wheel_inverted(opt_view(var)),
        r == (match opt_view(var) {
            Some(v) => v.len() > 0 && v != "0"@,
            None => false,
        }),
{
    match var {
        Some(v) => !v.is_empty() && !same(v, "0"),
        None => false,
    }
}

/// Whether the device's own pixels are used, rather than points: on phones
/// unless it is turned off, elsewhere if it is turned on.
pub fn hidpi_enabled(var: Option<&str>, ios: bool) -> (r: bool)
    ensures
        r == uses_pixels(opt_view(var), ios),
{
    switch_on(var, ios)
}

/// Whether a text is being typed.
#[derive(Clone, Copy, Debug, PartialEq, Eq, Structural)]
pub struct TextInput {
    pub active: bool,
}

/// Whether a text is being typed.
pub fn mole_text_input_active(t: &TextInput) -> (r: bool)
    ensures
        r == t.active,
{
    t.active
}

impl Window {
    /// Notes that a text is being typed.
    pub fn start_text_input(&self, t: &mut TextInput)
        requires
            self.frame.on_main_stack,
        ensures
            *final(t) == (TextInput { active: true }),
    {
        t.active = true;
    }

    /// Notes that no text is being typed any more.
    pub fn stop_text_input(&self, t: &mut TextInput)
        requires
            self.frame.on_main_stack,
        ensures
            *final(t) == (TextInput { active: false }),
    {
        t.active = false;
    }
}

impl Window {
    /// Takes a new controller into use. On Android, the sensors for
    /// fingerprints look like controllers and are left out.
    pub fn controller_added(&mut self, id: u32, name: &str, android: bool) -> (used: bool)
        ensures
            used == is_controller(name@, android),
            used == !(android && "uinput-"@.is_prefix_of(name@)),
            final(self).controllers@ == (if used {
                old(self).controllers@.push(id)
            } else {
                old(self).controllers@
            }),
            final(self).event_queue == old(self).event_queue,
            final(self).high_priority_event == old(self).high_priority_event,
            final(self).controls == old(self).controls,
            final(self).frame == old(self).frame,
    {
        if android && starts_with(name, "uinput-") {
            return false;
        }
        self.controllers.push(id);
        true
    }

    /// Takes a controller out of use; says at which place it was.
    pub fn controller_removed(&mut self, id: u32) -> (r: Option<usize>)
        ensures
            match r {
                Some(i) => {
                    let before = old(self).controllers@;
                    &&& i < before.len() && before[i as int] == id
                    &&& forall|j: int| 0 <= j < i ==> before[j] != id
                    &&& final(self).controllers@ == before.remove(i as int)
                },
                None => {
                    let before = old(self).controllers@;
                    !before.contains(id) && final(self).controllers@ == before
                },
            },
            final(self).event_queue == old(self).event_queue,
            final(self).high_priority_event == old(self).high_priority_event,
            final(self).controls == old(self).controls,
            final(self).frame == old(self).frame,
    {
        let mut i: usize = 0;
        while i < self.controllers.len()
            invariant
                i <= self.controllers@.len(),
                *self == *old(self),
                forall|j: int| 0 <= j < i ==> self.controllers@[j] != id,
            decreases self.controllers.len() - i,
        {
            if self.controllers[i] == id {
                let _gone: u32 = self.controllers.remove(i);
                return Some(i);
            }
            i = i + 1;
        }
        None
    }
}

/// A line of the notice on how the device can be tilted.
#[derive(Clone, Copy, Debug, PartialEq, Eq, Structural)]
pub enum TiltNotice {
    StickIsUsed,
    DisconnectForSensor,
    SensorIsUsed,
    ConnectForStick,
    ConnectController,
    RightClick,
    RightClickToo,
}

/// The lines of the notice, where controllers are in use, sticks may tilt the
/// device, and it has a sensor, or not.
pub open spec fn tilt_lines(controllers: bool, stick_tilts: bool, sensor: bool) -> Seq<TiltNotice> {
    let first = if controllers && stick_tilts {
        if sensor {
            seq![TiltNotice::StickIsUsed, TiltNotice::DisconnectForSensor]
        } else {
            seq![TiltNotice::StickIsUsed]
        }
    } else if sensor {
        if stick_tilts {
            seq![TiltNotice::SensorIsUsed, TiltNotice::ConnectForStick]
        } else {
            seq![TiltNotice::SensorIsUsed]
        }
    } else if !controllers && stick_tilts {
        seq![TiltNotice::ConnectController]
    } else {
        Seq::empty()
    };
    if sensor {
        first
    } else if stick_tilts {
        first.push(TiltNotice::RightClickToo)
    } else {
        first.push(TiltNotice::RightClick)
    }
}

impl Window {
    /// The lines of the notice on how the device can be tilted.
    pub fn print_accelerometer_notice(&self, stick_tilts: bool, sensor: bool) -> (r: Vec<TiltNotice>)
        ensures
            r@ == tilt_lines(self.controllers@.len() > 0, stick_tilts, sensor),
    {
        let controllers = self.controllers.len() > 0;
        let mut r: Vec<TiltNotice> = Vec::new();
        if controllers && stick_tilts {
            r.push(TiltNotice::StickIsUsed);
            if sensor {
                r.push(TiltNotice::DisconnectForSensor);
            }
        } else if sensor {
            r.push(TiltNotice::SensorIsUsed);
            if stick_tilts {
                r.push(TiltNotice::ConnectForStick);
            }
        } else if !controllers && stick_tilts {
            r.push(TiltNotice::ConnectController);
        }
        if !sensor {
            r.push(if stick_tilts { TiltNotice::RightClickToo } else { TiltNotice::RightClick });
        }
        assert(r@ =~= tilt_lines(controllers, stick_tilts, sensor));
        r
    }
}

/// What gives the device's tilt.
#[derive(Clone, Copy, Debug, PartialEq, Eq, Structural)]
pub enum TiltSource {
    Sensor,
    /// The mouse, held with its right button; the bits of the tilt.
    Mouse { x_bits: u32, y_bits: u32 },
    Stick,
}

impl Window {
    /// What gives the device's tilt: its sensor, unless a controller may; then
    /// the mouse while its right button is held, and else the stick.
    pub fn get_acceleration(&self, stick_tilts: bool, sensor: bool) -> (r: TiltSource)
        ensures
            r == tilt_source(
                self.controllers@.len() > 0,
                stick_tilts,
                sensor,
                self.controls.tilt,
            ),
            r == (if sensor && !(self.controllers@.len() > 0 && stick_tilts) {
                TiltSource::Sensor
            } else {
                match self.controls.tilt {
                    Some(t) => if t.held {
                        TiltSource::Mouse { x_bits: t.x_bits, y_bits: t.y_bits }
                    } else {
                        TiltSource::Stick
                    },
                    None => TiltSource::Stick,
                }
            }),
    {
        if (self.controllers.len() == 0 || !stick_tilts) && sensor {
            return TiltSource::Sensor;
        }
        match self.controls.tilt {
            Some(t) => {
                if t.held {
                    TiltSource::Mouse { x_bits: t.x_bits, y_bits: t.y_bits }
                } else {
                    TiltSource::Stick
                }
            },
            None => TiltSource::Stick,
        }
    }
}

/// The countries among the user's languages, where one is given, in order.
pub open spec fn countries_upto(countries: Seq<Option<String>>, n: int) -> Seq<Seq<char>>
    decreases n,
{
    if n <= 0 {
        Seq::empty()
    } else {
        match countries[n - 1] {
            Some(c) => countries_upto(countries, n - 1).push(c@),
            None => countries_upto(countries, n - 1),
        }
    }
}

/// Texts as characters.
pub open spec fn texts_v(v: Seq<String>) -> Seq<Seq<char>> {
    Seq::new(v.len(), |i: int| v[i]@)
}

/// The countries among the user's languages, where one is given, in order.
pub fn get_preferred_country_codes(countries: &Vec<Option<String>>) -> (r: Vec<String>)
    ensures
        texts_v(r@) == countries_upto(countries@, countries@.len() as int),
{
    let mut r: Vec<String> = Vec::new();
    let mut i: usize = 0;
    assert(texts_v(r@) =~= Seq::empty());
    while i < countries.len()
        invariant
            i <= countries@.len(),
            texts_v(r@) == countries_upto(countries@, i as int),
        decreases countries.len() - i,
    {
        let ghost before = texts_v(r@);
        if let Some(c) = &countries[i] {
            r.push(c.clone());
            assert(texts_v(r@) =~= before.push(c@));
        }
        i = i + 1;
    }
    r
}

/// The text of the box shown after a crash.
pub fn crash_text(error: &str) -> (r: String)
    ensures
        r@ == "touchHLE crashed with the following error: "@ + error@,
{
    let mut s: String = String::new();
    push_text(&mut s, "touchHLE crashed with the following error: ");
    assert(s@ =~= "touchHLE crashed with the following error: "@);
    push_text(&mut s, error);
    s
}

/// The first `rows` lines of `dst`, of `pitch` bytes each, begin with the lines
/// of `line` bytes of `src`, and go on as `before` does.
pub open spec fn lines_placed(
    src: Seq<u8>,
    line: int,
    rows: int,
    pitch: int,
    before: Seq<u8>,
    dst: Seq<u8>,
) -> bool {
    forall|y: int, k: int|
        0 <= y < rows && 0 <= k < pitch ==> #[trigger] dst[y * pitch + k] == if k < line {
            src[y * line + k]
        } else {
            before[y * pitch + k]
        }
}

proof fn lemma_row_end(y: int, rows: int, len: int)
    by (nonlinear_arith)
    requires
        0 <= y < rows,
        0 <= len,
    ensures
        0 <= y * len,
        y * len + len <= rows * len,
        (y + 1) * len == y * len + len,
{
}

proof fn lemma_rows_apart(y: int, k: int, row: int, pitch: int)
    by (nonlinear_arith)
    requires
        0 <= y < row,
        0 <= k < pitch,
    ensures
        0 <= y * pitch + k < row * pitch,
{
}

/// Copies a picture, whose pixels have four bytes and whose lines follow each
/// other without a gap, into lines of `pitch` bytes.
pub fn surface_from_image(
    src: &Vec<u8>,
    width: usize,
    height: usize,
    pitch: usize,
    dst: &mut Vec<u8>,
)
    requires
        4 * width <= pitch,
        src@.len() == height * (4 * width),
        height * pitch <= old(dst)@.len(),
    ensures
        final(dst)@.len() == old(dst)@.len(),
        lines_placed(
            src@,
            4 * width,
            height as int,
            pitch as int,
            old(dst)@,
            final(dst)@,
        ),
        forall|i: int|
            height * pitch <= i < old(dst)@.len() ==> #[trigger] final(dst)@[i] == old(dst)@[i],
{
    let ghost before = dst@;
    let line: usize = 4 * width;
    let size: usize = dst.len();
    let available: usize = src.len();
    let mut y: usize = 0;
    let mut from: usize = 0;
    let mut to: usize = 0;
    while y < height
        invariant
            y <= height,
            line == 4 * width,
            line <= pitch,
            src@.len() == height * line,
            before == old(dst)@,
            dst@.len() == before.len(),
            height * pitch <= before.len(),
            size == before.len(),
            available == src@.len(),
            from == y * line,
            to == y * pitch,
            lines_placed(src@, line as int, y as int, pitch as int, before, dst@),
            forall|i: int| to <= i < before.len() ==> #[trigger] dst@[i] == before[i],
        decreases height - y,
    {
        proof {
            lemma_row_end(y as int, height as int, line as int);
            lemma_row_end(y as int, height as int, pitch as int);
        }
        let ghost start = dst@;
        let mut k: usize = 0;
        while k < line
            invariant
                k <= line <= pitch,
                to + pitch <= before.len(),
                size == before.len(),
                available == src@.len(),
                from + line <= src@.len(),
                dst@.len() == before.len(),
                start.len() == before.len(),
                forall|i: int| 0 <= i < to ==> #[trigger] dst@[i] == start[i],
                forall|i: int| to <= i < to + k ==> #[trigger] dst@[i] == src@[from + i - to],
                forall|i: int| to + k <= i < before.len() ==> #[trigger] dst@[i] == start[i],
            decreases line - k,
        {
            dst[to + k] = src[from + k];
            k = k + 1;
        }
        proof {
            assert forall|r: int, c: int| 0 <= r < y + 1 && 0 <= c < pitch implies #[trigger] dst@[r
                * pitch + c] == if c < line {
                src@[r * line + c]
            } else {
                before[r * pitch + c]
            } by {
                if r < y {
                    lemma_rows_apart(r, c, y as int, pitch as int);
                    assert(start[r * pitch + c] == if c < line {
                        src@[r * line + c]
                    } else {
                        before[r * pitch + c]
                    });
                } else {
                    assert(start[to + c] == before[to + c]);
                }
            }
        }
        y = y + 1;
        from = from + line;
        to = to + pitch;
    }
}

/// The lines of the notice on tilting. A sensor is named where there is one,
/// unless a stick is used instead; a stick where one may tilt; and the mouse
/// where there is no sensor.
pub proof fn law_tilt_notice(controllers: bool)
    ensures
        tilt_lines(true, true, true) == seq![
            TiltNotice::StickIsUsed,
            TiltNotice::DisconnectForSensor,
        ],
        tilt_lines(true, true, false) == seq![TiltNotice::StickIsUsed, TiltNotice::RightClickToo],
        tilt_lines(false, true, true) == seq![
            TiltNotice::SensorIsUsed,
            TiltNotice::ConnectForStick,
        ],
        tilt_lines(false, true, false) == seq![
            TiltNotice::ConnectController,
            TiltNotice::RightClickToo,
        ],
        tilt_lines(controllers, false, true) == seq![TiltNotice::SensorIsUsed],
        tilt_lines(controllers, false, false) == seq![TiltNotice::RightClick],
{
    assert(tilt_lines(true, true, false) =~= seq![
        TiltNotice::StickIsUsed,
        TiltNotice::RightClickToo,
    ]);
    assert(tilt_lines(false, true, false) =~= seq![
        TiltNotice::ConnectController,
        TiltNotice::RightClickToo,
    ]);
    assert(tilt_lines(controllers, false, false) =~= seq![TiltNotice::RightClick]);
}

/// What gives the device's tilt.
pub open spec fn tilt_source(controllers: bool, stick_tilts: bool, sensor: bool, tilt: Option<Tilt>) -> TiltSource {
    if sensor && !(controllers && stick_tilts) {
        TiltSource::Sensor
    } else {
        match tilt {
            Some(t) => if t.held {
                TiltSource::Mouse { x_bits: t.x_bits, y_bits: t.y_bits }
            } else {
                TiltSource::Stick
            },
            None => TiltSource::Stick,
        }
    }
}

/// A sensor gives the tilt, unless a controller is there whose stick may; then,
/// and without a sensor, the mouse does while its button is held, and else the
/// stick.
pub proof fn law_what_tilts(stick_tilts: bool, controllers: bool, t: Tilt)
    ensures
        tilt_source(false, stick_tilts, true, Some(t)) == TiltSource::Sensor,
        tilt_source(controllers, false, true, Some(t)) == TiltSource::Sensor,
        t.held ==> tilt_source(true, true, true, Some(t)) == (TiltSource::Mouse {
            x_bits: t.x_bits,
            y_bits: t.y_bits,
        }),
        !t.held ==> tilt_source(true, true, true, Some(t)) == TiltSource::Stick,
        tilt_source(true, true, true, None) == TiltSource::Stick,
        t.held ==> tilt_source(controllers, stick_tilts, false, Some(t)) == (TiltSource::Mouse {
            x_bits: t.x_bits,
            y_bits: t.y_bits,
        }),
        !t.held ==> tilt_source(controllers, stick_tilts, false, Some(t)) == TiltSource::Stick,
        tilt_source(controllers, stick_tilts, false, None) == TiltSource::Stick,
{
}

/// The battery's state by the host's number for it.
pub open spec fn battery_of(code: u32) -> BatteryState {
    if code == 1 {
        BatteryState::OnBattery
    } else if code == 2 {
        BatteryState::NoBattery
    } else if code == 3 {
        BatteryState::Charging
    } else if code == 4 {
        BatteryState::Full
    } else {
        BatteryState::Unknown
    }
}

/// Each of the four known states has its own number.
pub proof fn law_battery_states(code: u32)
    ensures
        battery_of(code) == BatteryState::OnBattery <==> code == 1,
        battery_of(code) == BatteryState::NoBattery <==> code == 2,
        battery_of(code) == BatteryState::Charging <==> code == 3,
        battery_of(code) == BatteryState::Full <==> code == 4,
{
}

/// When a picture goes on screen, by the setting for it.
pub open spec fn swap_of(var: Option<Seq<char>>) -> Option<SwapMode> {
    match var {
        None => None,
        Some(v) => Some(
            if v == "1"@ {
                SwapMode::VSync
            } else if v == "2"@ {
                SwapMode::LateSwapTearing
            } else {
                SwapMode::Immediate
            },
        ),
    }
}

/// The setting 1 waits for the screen, 2 does unless it is late, and any other
/// does not wait; without a setting it is left to the host. The wheel is turned
/// round by any setting but none, an empty one and 0.
pub proof fn law_settings_of_the_host(v: Seq<char>)
    ensures
        swap_of(None) is None,
        swap_of(Some(v)) == Some(SwapMode::VSync) <==> v == "1"@,
        swap_of(Some(v)) == Some(SwapMode::LateSwapTearing) <==> v == "2"@,
        v != "1"@ && v != "2"@ ==> swap_of(Some(v)) == Some(SwapMode::Immediate),
        !wheel_inverted(None) && !wheel_inverted(Some(Seq::empty())) && !wheel_inverted(Some("0"@)),
        v.len() > 0 && v != "0"@ ==> wheel_inverted(Some(v)),
{
    reveal_strlit("1");
    reveal_strlit("2");
    assert("1"@[0] != "2"@[0]);
}

/// Whether the wheel's direction is the other way round.
pub open spec fn wheel_inverted(var: Option<Seq<char>>) -> bool {
    match var {
        Some(v) => v.len() > 0 && v != "0"@,
        None => false,
    }
}

/// The countries are those that are given, each once for each time, in order.
pub proof fn law_countries(countries: Seq<Option<String>>, n: int)
    requires
        0 < n <= countries.len(),
    ensures
        countries[n - 1] is Some ==> countries_upto(countries, n) == countries_upto(
            countries,
            n - 1,
        ).push(countries[n - 1]->0@),
        countries[n - 1] is None ==> countries_upto(countries, n) == countries_upto(
            countries,
            n - 1,
        ),
        countries_upto(countries, 0).len() == 0,
{
}

/// Whether a controller is taken into use.
pub open spec fn is_controller(name: Seq<char>, android: bool) -> bool {
    !(android && "uinput-"@.is_prefix_of(name))
}

/// Every controller is taken into use, but on Android what is named as a
/// fingerprint sensor, with `uinput-` in front.
pub proof fn law_what_controllers_are(name: Seq<char>, rest: Seq<char>)
    ensures
        is_controller(name, false),
        !is_controller("uinput-"@ + rest, true),
        name.len() < 7 || name.take(7) != "uinput-"@ ==> is_controller(name, true),
{
    reveal_strlit("uinput-");
    assert(("uinput-"@ + rest).take(7) =~= "uinput-"@);
    assert("uinput-"@.is_prefix_of("uinput-"@ + rest));
}

/// The copied picture: each of the four bytes of the pixel in column `x` of row
/// `y` stands in the same column of the same line, and what follows a line is
/// left as it was.
pub proof fn law_pixels_keep_their_places(
    src: Seq<u8>,
    width: int,
    rows: int,
    pitch: int,
    before: Seq<u8>,
    dst: Seq<u8>,
    x: int,
    y: int,
    c: int,
)
    requires
        lines_placed(src, 4 * width, rows, pitch, before, dst),
        0 <= x < width,
        0 <= y < rows,
        0 <= c < 4,
        4 * width <= pitch,
    ensures
        dst[y * pitch + 4 * x + c] == src[4 * (y * width + x) + c],
        forall|k: int|
            4 * width <= k < pitch ==> #[trigger] dst[y * pitch + k] == before[y * pitch + k],
{
    let k = 4 * x + c;
    assert(dst[y * pitch + k] == src[y * (4 * width) + k]);
    assert(y * (4 * width) == 4 * (y * width)) by (nonlinear_arith);
}

/// Whether the wheel makes pinches.
pub open spec fn wheel_pinches(var: Option<Seq<char>>) -> bool {
    switch_of(var, true)
}

/// Whether the device's own pixels are used.
pub open spec fn uses_pixels(var: Option<Seq<char>>, ios: bool) -> bool {
    switch_of(var, ios)
}

/// Version and kind of OpenGL to ask for.
pub open spec fn gl_of(version: GLVersion) -> (u8, u8, bool) {
    match version {
        GLVersion::GLES11 => (1u8, 1u8, true),
        GLVersion::GL21Compat => (2u8, 1u8, false),
    }
}

/// Without a setting the wheel makes pinches, and the device's own pixels are
/// used on phones only; 0 turns either off, and anything else on. OpenGL ES is
/// asked for in version 1.1, and the other kind in 2.1.
pub proof fn law_defaults_of_the_host(v: Seq<char>, ios: bool)
    ensures
        wheel_pinches(None),
        uses_pixels(None, ios) == ios,
        wheel_pinches(Some(v)) == (v != "0"@) && uses_pixels(Some(v), ios) == (v != "0"@),
        gl_of(GLVersion::GLES11) == (1u8, 1u8, true),
        gl_of(GLVersion::GL21Compat) == (2u8, 1u8, false),
{
}

} // verus!
