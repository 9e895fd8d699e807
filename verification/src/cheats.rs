//! The cheats a player can switch on and off, and the values they use.

use vstd::prelude::*;
use crate::state::CheatState;
use crate::text::same;

verus! {

/// The highest VIP level the game knows.
pub const VIP_LEVEL_MAX: i32 = 4;

/// The switches of the menu, one bit each, and the values the cheats use.
#[derive(Clone, Copy, Debug, PartialEq, Eq, Structural)]
pub struct Cheats {
    pub bits: u32,
    /// The fields of the sailing game have to be set again.
    pub caribbean_dirty: bool,
    /// The village is sent to the server.
    pub map_sync: bool,
    /// The patches of the game's code have to be applied again.
    pub patches_dirty: bool,
    pub vip_level: i32,
    /// The level to show for the player; 0 for the real one.
    pub force_level: i32,
}

/// The names of the switches.
#[derive(Clone, Copy, Debug, PartialEq, Eq, Structural)]
pub enum CheatKey {
    FreeShop,
    KillAnticheat,
    ForceVip,
    GoldX10,
    XpX10,
    InstantCrop,
    NoWither,
    NoCooldown,
    InstantBuild,
    AllUnlock,
    MaxFacility,
    HarvestMult,
    FreeQuest,
    SeabedBest,
    MinigameReward,
    AllAchieve,
    MagicBypass,
    FixGoldenIsland,
    GoldenWin,
    EnableNewsceneIsland,
    KillJailbreak,
    FixDivine,
    EnterHoliday,
    StoreNoVip,
    EnterNewislands,
    SkipParseCheck,
}

/// The switch with a name.
pub open spec fn key_of(name: Seq<char>) -> Option<CheatKey> {
    if name == "free_shop"@ {
        Some(CheatKey::FreeShop)
    } else if name == "kill_anticheat"@ {
        Some(CheatKey::KillAnticheat)
    } else if name == "force_vip"@ {
        Some(CheatKey::ForceVip)
    } else if name == "gold_x10"@ {
        Some(CheatKey::GoldX10)
    } else if name == "xp_x10"@ {
        Some(CheatKey::XpX10)
    } else if name == "instant_crop"@ {
        Some(CheatKey::InstantCrop)
    } else if name == "no_wither"@ {
        Some(CheatKey::NoWither)
    } else if name == "no_cooldown"@ {
        Some(CheatKey::NoCooldown)
    } else if name == "instant_build"@ {
        Some(CheatKey::InstantBuild)
    } else if name == "all_unlock"@ {
        Some(CheatKey::AllUnlock)
    } else if name == "max_facility"@ {
        Some(CheatKey::MaxFacility)
    } else if name == "harvest_mult"@ {
        Some(CheatKey::HarvestMult)
    } else if name == "free_quest"@ {
        Some(CheatKey::FreeQuest)
    } else if name == "seabed_best"@ {
        Some(CheatKey::SeabedBest)
    } else if name == "minigame_reward"@ {
        Some(CheatKey::MinigameReward)
    } else if name == "all_achieve"@ {
        Some(CheatKey::AllAchieve)
    } else if name == "magic_bypass"@ {
        Some(CheatKey::MagicBypass)
    } else if name == "fix_golden_island"@ {
        Some(CheatKey::FixGoldenIsland)
    } else if name == "golden_win"@ {
        Some(CheatKey::GoldenWin)
    } else if name == "enable_newscene_island"@ {
        Some(CheatKey::EnableNewsceneIsland)
    } else if name == "kill_jailbreak"@ {
        Some(CheatKey::KillJailbreak)
    } else if name == "fix_divine"@ {
        Some(CheatKey::FixDivine)
    } else if name == "enter_holiday"@ {
        Some(CheatKey::EnterHoliday)
    } else if name == "store_no_vip"@ {
        Some(CheatKey::StoreNoVip)
    } else if name == "enter_newislands"@ {
        Some(CheatKey::EnterNewislands)
    } else if name == "skip_parse_check"@ {
        Some(CheatKey::SkipParseCheck)
    } else {
        None
    }
}

fn parse_key(name: &str) -> (r: Option<CheatKey>)
    ensures
        r == key_of(name@),
{
    if same(name, "free_shop") {
        Some(CheatKey::FreeShop)
    } else if same(name, "kill_anticheat") {
        Some(CheatKey::KillAnticheat)
    } else if same(name, "force_vip") {
        Some(CheatKey::ForceVip)
    } else if same(name, "gold_x10") {
        Some(CheatKey::GoldX10)
    } else if same(name, "xp_x10") {
        Some(CheatKey::XpX10)
    } else if same(name, "instant_crop") {
        Some(CheatKey::InstantCrop)
    } else if same(name, "no_wither") {
        Some(CheatKey::NoWither)
    } else if same(name, "no_cooldown") {
        Some(CheatKey::NoCooldown)
    } else if same(name, "instant_build") {
        Some(CheatKey::InstantBuild)
    } else if same(name, "all_unlock") {
        Some(CheatKey::AllUnlock)
    } else if same(name, "max_facility") {
        Some(CheatKey::MaxFacility)
    } else if same(name, "harvest_mult") {
        Some(CheatKey::HarvestMult)
    } else if same(name, "free_quest") {
        Some(CheatKey::FreeQuest)
    } else if same(name, "seabed_best") {
        Some(CheatKey::SeabedBest)
    } else if same(name, "minigame_reward") {
        Some(CheatKey::MinigameReward)
    } else if same(name, "all_achieve") {
        Some(CheatKey::AllAchieve)
    } else if same(name, "magic_bypass") {
        Some(CheatKey::MagicBypass)
    } else if same(name, "fix_golden_island") {
        Some(CheatKey::FixGoldenIsland)
    } else if same(name, "golden_win") {
        Some(CheatKey::GoldenWin)
    } else if same(name, "enable_newscene_island") {
        Some(CheatKey::EnableNewsceneIsland)
    } else if same(name, "kill_jailbreak") {
        Some(CheatKey::KillJailbreak)
    } else if same(name, "fix_divine") {
        Some(CheatKey::FixDivine)
    } else if same(name, "enter_holiday") {
        Some(CheatKey::EnterHoliday)
    } else if same(name, "store_no_vip") {
        Some(CheatKey::StoreNoVip)
    } else if same(name, "enter_newislands") {
        Some(CheatKey::EnterNewislands)
    } else if same(name, "skip_parse_check") {
        Some(CheatKey::SkipParseCheck)
    } else {
        None
    }
}

impl CheatKey {
    /// The bit of the switch.
    pub open spec fn bit(self) -> u32 {
        match self {
            CheatKey::FreeShop => 0,
            CheatKey::KillAnticheat => 1,
            CheatKey::ForceVip => 2,
            CheatKey::GoldX10 => 3,
            CheatKey::XpX10 => 4,
            CheatKey::InstantCrop => 5,
            CheatKey::NoWither => 6,
            CheatKey::NoCooldown => 7,
            CheatKey::InstantBuild => 8,
            CheatKey::AllUnlock => 9,
            CheatKey::MaxFacility => 10,
            CheatKey::HarvestMult => 11,
            CheatKey::FreeQuest => 12,
            CheatKey::SeabedBest => 13,
            CheatKey::MinigameReward => 14,
            CheatKey::AllAchieve => 15,
            CheatKey::MagicBypass => 16,
            CheatKey::FixGoldenIsland => 17,
            CheatKey::GoldenWin => 18,
            CheatKey::EnableNewsceneIsland => 19,
            CheatKey::KillJailbreak => 20,
            CheatKey::FixDivine => 21,
            CheatKey::EnterHoliday => 22,
            CheatKey::StoreNoVip => 23,
            CheatKey::EnterNewislands => 24,
            CheatKey::SkipParseCheck => 25,
        }
    }

    fn bit_number(self) -> (r: u32)
        ensures
            r == self.bit(),
            r < 26,
    {
        match self {
            CheatKey::FreeShop => 0,
            CheatKey::KillAnticheat => 1,
            CheatKey::ForceVip => 2,
            CheatKey::GoldX10 => 3,
            CheatKey::XpX10 => 4,
            CheatKey::InstantCrop => 5,
            CheatKey::NoWither => 6,
            CheatKey::NoCooldown => 7,
            CheatKey::InstantBuild => 8,
            CheatKey::AllUnlock => 9,
            CheatKey::MaxFacility => 10,
            CheatKey::HarvestMult => 11,
            CheatKey::FreeQuest => 12,
            CheatKey::SeabedBest => 13,
            CheatKey::MinigameReward => 14,
            CheatKey::AllAchieve => 15,
            CheatKey::MagicBypass => 16,
            CheatKey::FixGoldenIsland => 17,
            CheatKey::GoldenWin => 18,
            CheatKey::EnableNewsceneIsland => 19,
            CheatKey::KillJailbreak => 20,
            CheatKey::FixDivine => 21,
            CheatKey::EnterHoliday => 22,
            CheatKey::StoreNoVip => 23,
            CheatKey::EnterNewislands => 24,
            CheatKey::SkipParseCheck => 25,
        }
    }

    /// Whether the switch governs a patch of the game's code.
    pub open spec fn is_patch(self) -> bool {
        self.bit() >= 20
    }
}

/// Whether a bit is set.
pub open spec fn bit_set(bits: u32, i: u32) -> bool {
    bits & (1u32 << i) != 0
}

impl Cheats {
    /// Whether a switch is on.
    pub open spec fn has(self, key: CheatKey) -> bool {
        bit_set(self.bits, key.bit())
    }

    /// Whether a switch is on.
    pub fn on(&self, key: CheatKey) -> (r: bool)
        ensures
            r == self.has(key),
    {
        let i: u32 = key.bit_number();
        self.bits & (1u32 << i) != 0
    }
}

/// Whether a switch counts as on. The offline island is off while the game is
/// online.
pub open spec fn cheat_on(c: Cheats, online: bool, key: CheatKey) -> bool {
    c.has(key) && !(key == CheatKey::EnableNewsceneIsland && online)
}

/// The switches after one was used. The offline island cannot be switched
/// while the game is online; sailing to the finish also turns on what it
/// needs.
pub open spec fn toggled(c: Cheats, online: bool, key: CheatKey) -> Cheats {
    if key == CheatKey::EnableNewsceneIsland && online {
        c
    } else {
        let flipped = c.bits ^ (1u32 << key.bit());
        Cheats {
            bits: if key == CheatKey::GoldenWin && bit_set(flipped, key.bit()) {
                flipped | (1u32 << CheatKey::FixGoldenIsland.bit())
            } else {
                flipped
            },
            caribbean_dirty: c.caribbean_dirty || key == CheatKey::GoldenWin,
            patches_dirty: c.patches_dirty || key.is_patch(),
            ..c
        }
    }
}

/// Uses the switch with a name; an unknown name changes nothing.
pub fn toggle(st: &mut CheatState, key: &str)
    ensures
        *final(st) == (CheatState {
            cheats: match key_of(key@) {
                Some(k) => toggled(old(st).cheats, old(st).online_mode, k),
                None => old(st).cheats,
            },
            ..*old(st)
        }),
{
    let k = match parse_key(key) {
        Some(k) => k,
        None => {
            return;
        },
    };
    if k == CheatKey::EnableNewsceneIsland && st.online_mode {
        return;
    }
    let mut c = st.cheats;
    let i: u32 = k.bit_number();
    c.bits = c.bits ^ (1u32 << i);
    if k == CheatKey::GoldenWin {
        c.caribbean_dirty = true;
        if c.on(CheatKey::GoldenWin) {
            let fix: u32 = CheatKey::FixGoldenIsland.bit_number();
            c.bits = c.bits | (1u32 << fix);
        }
    }
    if i >= 20 {
        c.patches_dirty = true;
    }
    st.cheats = c;
}

/// Whether the switch with a name is on; an unknown one is off.
pub fn is_on(st: &CheatState, key: &str) -> (r: bool)
    ensures
        r == (match key_of(key@) {
            Some(k) => cheat_on(st.cheats, st.online_mode, k),
            None => false,
        }),
{
    match parse_key(key) {
        Some(k) => st.cheats.on(k) && !(k == CheatKey::EnableNewsceneIsland && st.online_mode),
        None => false,
    }
}

proof fn lemma_flip(bits: u32, i: u32, j: u32)
    requires
        i < 32,
        j < 32,
    ensures
        bit_set(bits ^ (1u32 << i), j) == if i == j {
            !bit_set(bits, j)
        } else {
            bit_set(bits, j)
        },
        bit_set(bits | (1u32 << i), j) == if i == j {
            true
        } else {
            bit_set(bits, j)
        },
{
    assert(((bits ^ (1u32 << i)) & (1u32 << j) != 0) == if i == j {
        bits & (1u32 << j) == 0
    } else {
        bits & (1u32 << j) != 0
    }) by (bit_vector)
        requires
            i < 32,
            j < 32,
    ;
    assert(((bits | (1u32 << i)) & (1u32 << j) != 0) == if i == j {
        true
    } else {
        bits & (1u32 << j) != 0
    }) by (bit_vector)
        requires
            i < 32,
            j < 32,
    ;
}

/// Using a switch turns it over, and using it again turns it back. The one
/// exception is the offline island while the game is online: it stays off.
pub proof fn law_toggle_flips(c: Cheats, online: bool, key: CheatKey)
    ensures
        key == CheatKey::EnableNewsceneIsland && online ==> !cheat_on(c, online, key) && toggled(
            c,
            online,
            key,
        ) == c,
        !(key == CheatKey::EnableNewsceneIsland && online) ==> {
            let once = toggled(c, online, key);
            &&& cheat_on(once, online, key) == !cheat_on(c, online, key)
            &&& cheat_on(toggled(once, online, key), online, key) == cheat_on(c, online, key)
        },
{
    let fix = CheatKey::FixGoldenIsland.bit();
    let i = key.bit();
    let b1 = c.bits ^ (1u32 << i);
    lemma_flip(c.bits, i, i);
    lemma_flip(b1, fix, i);
    let once = toggled(c, online, key);
    let b2 = once.bits ^ (1u32 << i);
    lemma_flip(once.bits, i, i);
    lemma_flip(b2, fix, i);
}

/// Using a switch leaves every other one as it was, save that sailing to the
/// finish also turns on what it needs.
pub proof fn law_toggle_leaves_others(c: Cheats, online: bool, key: CheatKey, other: CheatKey)
    requires
        key != other,
    ensures
        !(key == CheatKey::GoldenWin && other == CheatKey::FixGoldenIsland) ==> cheat_on(
            toggled(c, online, key),
            online,
            other,
        ) == cheat_on(c, online, other),
        key == CheatKey::GoldenWin && !c.has(key) ==> toggled(c, online, key).has(
            CheatKey::FixGoldenIsland,
        ),
{
    lemma_bits_differ(key, other);
    let fix = CheatKey::FixGoldenIsland.bit();
    let b1 = c.bits ^ (1u32 << key.bit());
    lemma_flip(c.bits, key.bit(), other.bit());
    lemma_flip(c.bits, key.bit(), key.bit());
    lemma_flip(b1, fix, other.bit());
    lemma_flip(b1, fix, fix);
    if other.bit() == fix {
        lemma_bits_differ(other, CheatKey::FixGoldenIsland);
    }
}

proof fn lemma_bits_differ(a: CheatKey, b: CheatKey)
    ensures
        a.bit() == b.bit() <==> a == b,
        a.bit() < 26,
        b.bit() < 26,
{
}

/// The VIP level to show.
pub fn vip_level(st: &CheatState) -> (r: i32)
    ensures
        r == st.cheats.vip_level,
{
    st.cheats.vip_level
}

/// The VIP level that follows.
pub open spec fn next_vip_level(level: i32) -> i32 {
    if level >= VIP_LEVEL_MAX {
        1
    } else {
        (level + 1) as i32
    }
}

/// Goes to the next VIP level, after the highest to the first, and turns
/// showing it on.
pub fn bump_vip_level(st: &mut CheatState)
    ensures
        final(st).cheats == vip_bumped(old(st).cheats),
        *final(st) == (CheatState {
            cheats: Cheats {
                vip_level: next_vip_level(old(st).cheats.vip_level),
                bits: old(st).cheats.bits | (1u32 << CheatKey::ForceVip.bit()),
                ..old(st).cheats
            },
            ..*old(st)
        }),
{
    let cur: i32 = st.cheats.vip_level;
    let next: i32 = if cur >= VIP_LEVEL_MAX { 1 } else { cur + 1 };
    let vip: u32 = CheatKey::ForceVip.bit_number();
    let bits: u32 = st.cheats.bits | (1u32 << vip);
    st.cheats = Cheats { vip_level: next, bits, ..st.cheats };
}

/// The VIP level is always one the game knows, and every one of them comes
/// round again.
pub proof fn law_vip_levels_cycle(level: i32)
    requires
        1 <= level <= VIP_LEVEL_MAX,
    ensures
        1 <= next_vip_level(level) <= VIP_LEVEL_MAX,
        next_vip_level(next_vip_level(next_vip_level(next_vip_level(level)))) == level,
{
}

/// The player's level to show, 0 for the real one.
pub fn level(st: &CheatState) -> (r: i32)
    ensures
        r == st.cheats.force_level,
{
    st.cheats.force_level
}

/// The level to show that follows.
pub open spec fn next_level(level: i32) -> i32 {
    if level >= 100 {
        0
    } else {
        (level + 10) as i32
    }
}

/// Goes to the next level to show: 0, 10, and so on to 100, and 0 again.
pub fn bump_level(st: &mut CheatState)
    ensures
        *final(st) == (CheatState {
            cheats: Cheats { force_level: next_level(old(st).cheats.force_level), ..old(st).cheats },
            ..*old(st)
        }),
{
    let cur: i32 = st.cheats.force_level;
    let next: i32 = if cur >= 100 { 0 } else { cur + 10 };
    st.cheats = Cheats { force_level: next, ..st.cheats };
}

/// The level after some steps from 0.
pub open spec fn level_after(n: nat) -> i32
    decreases n,
{
    if n == 0 {
        0
    } else {
        next_level(level_after((n - 1) as nat))
    }
}

/// The level to show is always a round one up to 100, and eleven steps lead
/// back to the same one.
pub proof fn law_levels_cycle(n: nat)
    ensures
        0 <= level_after(n) <= 100,
        level_after(n) % 10 == 0,
        level_after(n) == 10 * (n % 11),
    decreases n,
{
    if n > 0 {
        law_levels_cycle((n - 1) as nat);
    }
}

/// Whether the entry of magic numbers is let through.
pub fn magic_bypass_on(st: &CheatState) -> (r: bool)
    ensures
        r == lets_magic_through(st.cheats),
        r == st.cheats.has(CheatKey::MagicBypass),
{
    st.cheats.on(CheatKey::MagicBypass)
}

/// Whether the sailing game is provided with data of its own.
pub fn fix_golden_island_on(st: &CheatState) -> (r: bool)
    ensures
        r == provides_sailing(st.cheats),
        r == st.cheats.has(CheatKey::FixGoldenIsland),
{
    st.cheats.on(CheatKey::FixGoldenIsland)
}

/// Notes that a save holds a list where a dictionary belongs.
pub fn note_dict_as_array_corruption(st: &mut CheatState)
    ensures
        *final(st) == (CheatState { save_has_dict_as_array: true, ..*old(st) }),
{
    st.save_has_dict_as_array = true;
}

/// Whether messages have to be looked at at all. Hooks that no switch governs
/// are always in place.
pub fn any_enabled() -> (r: bool)
    ensures
        r,
{
    true
}

/// The switches once the offline island was made ready to be entered.
pub open spec fn armed(c: Cheats, online: bool) -> Cheats {
    Cheats {
        bits: if online {
            c.bits
        } else {
            c.bits | (1u32 << CheatKey::EnableNewsceneIsland.bit())
        },
        ..c
    }
}

/// Turns the offline island on, so that it can be entered; online, the server
/// decides.
pub fn island_arm_entry(st: &mut CheatState)
    ensures
        *final(st) == (CheatState {
            cheats: armed(old(st).cheats, old(st).online_mode),
            ..*old(st)
        }),
        !old(st).online_mode ==> final(st).cheats.has(CheatKey::EnableNewsceneIsland),
{
    if st.online_mode {
        return;
    }
    let i: u32 = CheatKey::EnableNewsceneIsland.bit_number();
    let bits: u32 = st.cheats.bits | (1u32 << i);
    proof {
        lemma_flip(st.cheats.bits, i, i);
    }
    st.cheats = Cheats { bits, ..st.cheats };
}

/// The state of the sailing game.
#[derive(Clone, Copy, Debug, PartialEq, Eq, Structural)]
pub struct CaribbeanData {
    pub cur_island: i32,
    pub distance_to_next: i32,
    pub total_distance: i32,
    pub soul_of_the_sea: i32,
    pub left_days: i32,
}

/// The data the sailing game is provided with: at the start of the voyage, or
/// at its finish.
pub open spec fn caribbean_fields(win: bool) -> CaribbeanData {
    CaribbeanData {
        cur_island: if win { 5i32 } else { 1i32 },
        distance_to_next: if win { 0i32 } else { 100i32 },
        total_distance: 500,
        soul_of_the_sea: 9999,
        left_days: 99,
    }
}

/// The data the sailing game is provided with, if any. Data made before is
/// left as the game has changed it, unless the switch for the finish was used
/// since; new data can be made only where `available`.
pub open spec fn caribbean_given(c: Cheats, made: Option<CaribbeanData>, available: bool) -> Option<
    CaribbeanData,
> {
    match made {
        Some(d) => Some(
            if c.caribbean_dirty {
                caribbean_fields(c.has(CheatKey::GoldenWin))
            } else {
                d
            },
        ),
        None => if available {
            Some(caribbean_fields(c.has(CheatKey::GoldenWin)))
        } else {
            None
        },
    }
}

/// The cheats once data was provided: its fields do not have to be set again.
/// Where there was none to provide, they still have to be.
pub open spec fn caribbean_settled(c: Cheats, made: Option<CaribbeanData>, available: bool) -> Cheats {
    Cheats { caribbean_dirty: c.caribbean_dirty && made is None && !available, ..c }
}

/// Provides the sailing game with data, and notes that its fields were set.
/// Nothing where there is none to provide.
pub fn build_caribbean_data(
    st: &mut CheatState,
    made: Option<CaribbeanData>,
    available: bool,
) -> (r: Option<CaribbeanData>)
    ensures
        r == caribbean_given(old(st).cheats, made, available),
        *final(st) == (CheatState {
            cheats: caribbean_settled(old(st).cheats, made, available),
            ..*old(st)
        }),
{
    match made {
        None => {
            if !available {
                return None;
            }
        },
        Some(d) => {
            if !st.cheats.caribbean_dirty {
                return Some(d);
            }
        },
    }
    st.cheats = Cheats { caribbean_dirty: false, ..st.cheats };
    let win = st.cheats.on(CheatKey::GoldenWin);
    Some(
        CaribbeanData {
            cur_island: if win { 5 } else { 1 },
            distance_to_next: if win { 0 } else { 100 },
            total_distance: 500,
            soul_of_the_sea: 9999,
            left_days: 99,
        },
    )
}

/// The fields of the sailing game are set once for each use of the switch for
/// the finish: after data was provided, whatever the game makes of it is given
/// back unchanged, until that switch is used again. Then the fields are set
/// once more. No other switch matters.
pub proof fn law_sailing_progress_is_kept(
    c: Cheats,
    online: bool,
    made: Option<CaribbeanData>,
    available: bool,
    progress: CaribbeanData,
    key: CheatKey,
)
    requires
        caribbean_given(c, made, available) is Some,
    ensures
        ({
            let settled = caribbean_settled(c, made, available);
            let used = toggled(settled, online, key);
            &&& caribbean_given(settled, Some(progress), available) == Some(progress)
            &&& caribbean_settled(settled, Some(progress), available) == settled
            &&& key != CheatKey::GoldenWin ==> caribbean_given(used, Some(progress), available)
                == Some(progress)
            &&& key == CheatKey::GoldenWin ==> caribbean_given(used, Some(progress), available)
                == Some(caribbean_fields(used.has(CheatKey::GoldenWin)))
        }),
{
}

/// What tells the names of the switches apart.
pub proof fn lemma_switch_names()
    ensures
        "free_shop"@.len() == 9 && "free_shop"@[2] == 'e',
        "kill_anticheat"@.len() == 14 && "kill_anticheat"@[5] == 'a',
        "force_vip"@.len() == 9 && "force_vip"@[2] == 'r',
        "gold_x10"@.len() == 8,
        "xp_x10"@.len() == 6,
        "instant_crop"@.len() == 12 && "instant_crop"@[2] == 's',
        "no_wither"@.len() == 9 && "no_wither"@[2] == '_',
        "no_cooldown"@.len() == 11 && "no_cooldown"@[0] == 'n',
        "instant_build"@.len() == 13 && "instant_build"@[0] == 'i',
        "all_unlock"@.len() == 10 && "all_unlock"@[1] == 'l',
        "max_facility"@.len() == 12 && "max_facility"@[2] == 'x',
        "harvest_mult"@.len() == 12 && "harvest_mult"@[2] == 'r',
        "free_quest"@.len() == 10 && "free_quest"@[1] == 'r',
        "seabed_best"@.len() == 11 && "seabed_best"@[0] == 's',
        "minigame_reward"@.len() == 15,
        "all_achieve"@.len() == 11 && "all_achieve"@[0] == 'a',
        "magic_bypass"@.len() == 12 && "magic_bypass"@[2] == 'g',
        "fix_golden_island"@.len() == 17,
        "golden_win"@.len() == 10 && "golden_win"@[1] == 'o',
        "enable_newscene_island"@.len() == 22,
        "kill_jailbreak"@.len() == 14 && "kill_jailbreak"@[5] == 'j',
        "fix_divine"@.len() == 10 && "fix_divine"@[1] == 'i',
        "enter_holiday"@.len() == 13 && "enter_holiday"@[0] == 'e',
        "store_no_vip"@.len() == 12 && "store_no_vip"@[2] == 'o',
        "enter_newislands"@.len() == 16 && "enter_newislands"@[0] == 'e',
        "skip_parse_check"@.len() == 16 && "skip_parse_check"@[0] == 's',
{
    reveal_strlit("free_shop");
    reveal_strlit("kill_anticheat");
    reveal_strlit("force_vip");
    reveal_strlit("gold_x10");
    reveal_strlit("xp_x10");
    reveal_strlit("instant_crop");
    reveal_strlit("no_wither");
    reveal_strlit("no_cooldown");
    reveal_strlit("instant_build");
    reveal_strlit("all_unlock");
    reveal_strlit("max_facility");
    reveal_strlit("harvest_mult");
    reveal_strlit("free_quest");
    reveal_strlit("seabed_best");
    reveal_strlit("minigame_reward");
    reveal_strlit("all_achieve");
    reveal_strlit("magic_bypass");
    reveal_strlit("fix_golden_island");
    reveal_strlit("golden_win");
    reveal_strlit("enable_newscene_island");
    reveal_strlit("kill_jailbreak");
    reveal_strlit("fix_divine");
    reveal_strlit("enter_holiday");
    reveal_strlit("store_no_vip");
    reveal_strlit("enter_newislands");
    reveal_strlit("skip_parse_check");
}

/// Each switch is known by its own name and no other.
pub proof fn law_switch_names(name: Seq<char>)
    ensures
        key_of(name) == Some(CheatKey::FreeShop) <==> name == "free_shop"@,
        key_of(name) == Some(CheatKey::KillAnticheat) <==> name == "kill_anticheat"@,
        key_of(name) == Some(CheatKey::ForceVip) <==> name == "force_vip"@,
        key_of(name) == Some(CheatKey::GoldX10) <==> name == "gold_x10"@,
        key_of(name) == Some(CheatKey::XpX10) <==> name == "xp_x10"@,
        key_of(name) == Some(CheatKey::InstantCrop) <==> name == "instant_crop"@,
        key_of(name) == Some(CheatKey::NoWither) <==> name == "no_wither"@,
        key_of(name) == Some(CheatKey::NoCooldown) <==> name == "no_cooldown"@,
        key_of(name) == Some(CheatKey::InstantBuild) <==> name == "instant_build"@,
        key_of(name) == Some(CheatKey::AllUnlock) <==> name == "all_unlock"@,
        key_of(name) == Some(CheatKey::MaxFacility) <==> name == "max_facility"@,
        key_of(name) == Some(CheatKey::HarvestMult) <==> name == "harvest_mult"@,
        key_of(name) == Some(CheatKey::FreeQuest) <==> name == "free_quest"@,
        key_of(name) == Some(CheatKey::SeabedBest) <==> name == "seabed_best"@,
        key_of(name) == Some(CheatKey::MinigameReward) <==> name == "minigame_reward"@,
        key_of(name) == Some(CheatKey::AllAchieve) <==> name == "all_achieve"@,
        key_of(name) == Some(CheatKey::MagicBypass) <==> name == "magic_bypass"@,
        key_of(name) == Some(CheatKey::FixGoldenIsland) <==> name == "fix_golden_island"@,
        key_of(name) == Some(CheatKey::GoldenWin) <==> name == "golden_win"@,
        key_of(name) == Some(CheatKey::EnableNewsceneIsland) <==> name == "enable_newscene_island"@,
        key_of(name) == Some(CheatKey::KillJailbreak) <==> name == "kill_jailbreak"@,
        key_of(name) == Some(CheatKey::FixDivine) <==> name == "fix_divine"@,
        key_of(name) == Some(CheatKey::EnterHoliday) <==> name == "enter_holiday"@,
        key_of(name) == Some(CheatKey::StoreNoVip) <==> name == "store_no_vip"@,
        key_of(name) == Some(CheatKey::EnterNewislands) <==> name == "enter_newislands"@,
        key_of(name) == Some(CheatKey::SkipParseCheck) <==> name == "skip_parse_check"@,
{
    lemma_switch_names();
}

/// The switches that govern a patch of the game's code have the patches applied
/// again when they are used, and no other does; sailing to the finish has the
/// sailing game's fields set again, and no other does.
pub proof fn law_switches_ask_for_their_work(c: Cheats, key: CheatKey)
    ensures
        ({
            let t = toggled(c, false, key);
            &&& t.patches_dirty == (c.patches_dirty || key == CheatKey::KillJailbreak || key
                == CheatKey::FixDivine || key == CheatKey::EnterHoliday || key
                == CheatKey::StoreNoVip || key == CheatKey::EnterNewislands || key
                == CheatKey::SkipParseCheck)
            &&& t.caribbean_dirty == (c.caribbean_dirty || key == CheatKey::GoldenWin)
            &&& t.vip_level == c.vip_level && t.force_level == c.force_level && t.map_sync
                == c.map_sync
        }),
{
}

/// Offline, arming turns the island on and touches no other switch; online it
/// does nothing.
pub proof fn law_arming_turns_the_island_on(c: Cheats, key: CheatKey)
    ensures
        armed(c, true) == c,
        armed(c, false).has(key) == (c.has(key) || key == CheatKey::EnableNewsceneIsland),
        armed(c, false).vip_level == c.vip_level && armed(c, false).force_level == c.force_level,
        armed(c, false).patches_dirty == c.patches_dirty && armed(c, false).caribbean_dirty
            == c.caribbean_dirty && armed(c, false).map_sync == c.map_sync,
{
    lemma_bits_differ(key, CheatKey::EnableNewsceneIsland);
    lemma_flip(c.bits, CheatKey::EnableNewsceneIsland.bit(), key.bit());
}

/// The cheats after the next VIP level was chosen.
pub open spec fn vip_bumped(c: Cheats) -> Cheats {
    Cheats {
        vip_level: next_vip_level(c.vip_level),
        bits: c.bits | (1u32 << CheatKey::ForceVip.bit()),
        ..c
    }
}

/// Choosing the next VIP level goes from 1 to 2, 3, 4 and back to 1, turns the
/// switch for VIP on, and touches no other.
pub proof fn law_next_vip_level(c: Cheats, key: CheatKey)
    ensures
        vip_bumped(c).has(key) == (c.has(key) || key == CheatKey::ForceVip),
        1 <= c.vip_level <= 3 ==> vip_bumped(c).vip_level == c.vip_level + 1,
        c.vip_level >= 4 ==> vip_bumped(c).vip_level == 1,
        vip_bumped(c).force_level == c.force_level,
{
    lemma_bits_differ(key, CheatKey::ForceVip);
    lemma_flip(c.bits, CheatKey::ForceVip.bit(), key.bit());
}

/// The data of the sailing game: before the first island with the whole of 100
/// to go, or, with the switch for the finish, at the fifth with nothing left;
/// 500 in all, 9999 souls of the sea and 99 days. Data that was made is kept
/// unless that switch was used, and without the means none is made.
pub proof fn law_sailing_data(c: Cheats, made: Option<CaribbeanData>, available: bool)
    ensures
        ({
            let given = caribbean_given(c, made, available);
            let fresh = CaribbeanData {
                cur_island: if c.has(CheatKey::GoldenWin) {
                    5
                } else {
                    1
                },
                distance_to_next: if c.has(CheatKey::GoldenWin) {
                    0
                } else {
                    100
                },
                total_distance: 500,
                soul_of_the_sea: 9999,
                left_days: 99,
            };
            &&& made is Some && !c.caribbean_dirty ==> given == made
            &&& made is Some && c.caribbean_dirty ==> given == Some(fresh)
            &&& made is None && available ==> given == Some(fresh)
            &&& made is None && !available ==> given is None
            &&& caribbean_settled(c, made, available).caribbean_dirty == (c.caribbean_dirty && made is None
                && !available)
            &&& caribbean_settled(c, made, available).bits == c.bits
        }),
{
}

/// Whether the entry of magic numbers is let through.
pub open spec fn lets_magic_through(c: Cheats) -> bool {
    c.has(CheatKey::MagicBypass)
}

/// Whether the sailing game is provided with data of its own.
pub open spec fn provides_sailing(c: Cheats) -> bool {
    c.has(CheatKey::FixGoldenIsland)
}

/// Each of the two follows its own switch, by its own name, and no other: using
/// it turns it over, and using another does not.
pub proof fn law_two_more_switches(c: Cheats, key: CheatKey)
    ensures
        lets_magic_through(toggled(c, false, key)) == (lets_magic_through(c) != (key_of(
            "magic_bypass"@,
        ) == Some(key))),
        key != CheatKey::GoldenWin ==> provides_sailing(toggled(c, false, key)) == (
        provides_sailing(c) != (key_of("fix_golden_island"@) == Some(key))),
        !c.has(CheatKey::GoldenWin) ==> provides_sailing(toggled(c, false, CheatKey::GoldenWin)),
{
    law_toggle_leaves_others(c, false, CheatKey::GoldenWin, CheatKey::FixGoldenIsland);
    law_switch_names("magic_bypass"@);
    law_switch_names("fix_golden_island"@);
    if key == CheatKey::MagicBypass {
        law_toggle_flips(c, false, key);
    } else {
        law_toggle_leaves_others(c, false, key, CheatKey::MagicBypass);
    }
    if key == CheatKey::FixGoldenIsland {
        law_toggle_flips(c, false, key);
    } else {
        law_toggle_leaves_others(c, false, key, CheatKey::FixGoldenIsland);
    }
}

} // verus!
