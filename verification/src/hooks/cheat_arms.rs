//! Answers of the game that the switches change.

use vstd::prelude::*;
use crate::cheats::{CheatKey, VIP_LEVEL_MAX};
use crate::hooks::types::{
    give, give_double, high_word, low_word, ret_double, signed, to_signed, to_word, word_of, Answer,
    Flow, Host, Regs, Stage, Task,
};
use crate::names::{Class, Message, Sel};
use crate::state::CheatState;

verus! {

/// Return addresses of the four calls that frame the view of the village.
pub const VIEW_LR_BACKGROUND: u32 = 0x334bd;

pub const VIEW_LR_VISIBLE: u32 = 0x350a9;

pub const VIEW_LR_WALKABLE: u32 = 0x351dd;

pub const VIEW_LR_BORN: u32 = 0x35361;

/// Return addresses of the two calls that settle a small game.
pub const LR_SETTLE_XP: u32 = 0xf4591;

pub const LR_SETTLE_COIN: u32 = 0xf45a7;

/// Bits of 10^15 as a double-precision number.
pub const FAR_FUTURE_BITS: u64 = 0x430c_6bf5_2634_0000;

/// All areas of the village.
pub const ALL_AREAS: u32 = 0x1f;

/// The rarest find on the sea bed.
pub const RAREST_FIND: u32 = 31169;

/// Whether a call frames the view of the village.
pub open spec fn frames_view(lr: u32) -> bool {
    lr == VIEW_LR_BACKGROUND || lr == VIEW_LR_VISIBLE || lr == VIEW_LR_WALKABLE || lr
        == VIEW_LR_BORN
}

/// Whether a call settles a small game.
pub open spec fn settles_game(lr: u32) -> bool {
    lr == LR_SETTLE_XP || lr == LR_SETTLE_COIN
}

/// Ten times a gain, at most the largest number there is.
pub open spec fn tenfold(v: i32) -> i32 {
    if v * 10 > i32::MAX {
        i32::MAX
    } else {
        (v * 10) as i32
    }
}

fn ten_times(v: i32) -> (r: i32)
    requires
        v > 0,
    ensures
        r == tenfold(v),
{
    if v > 214748364 {
        i32::MAX
    } else {
        v * 10
    }
}

/// A reward of a small game, made ten times as large but at most 99999, and
/// never smaller.
pub open spec fn boosted(v: i32) -> i32 {
    if v <= 0 {
        v
    } else if v >= 99999 {
        v
    } else if v * 10 > 99999 {
        99999
    } else {
        (v * 10) as i32
    }
}

fn boost(v: i32) -> (r: i32)
    ensures
        r == boosted(v),
{
    if v <= 0 {
        return v;
    }
    let ten: i32 = ten_times(v);
    let capped: i32 = if ten > 99999 { 99999 } else { ten };
    if capped < v {
        v
    } else {
        capped
    }
}

/// A VIP level the game knows.
pub open spec fn clamped_vip(level: i32) -> i32 {
    if level < 1 {
        1
    } else if level > VIP_LEVEL_MAX {
        VIP_LEVEL_MAX
    } else {
        level
    }
}

/// The registers with the message swallowed.
pub open spec fn swallowed(regs: Regs) -> (Flow, Regs) {
    (Flow::Handled, Regs { r0: 0, r1: 0, ..regs })
}

/// The change of an amount of money or experience. What is spent is
/// swallowed where everything is free; what is gained is multiplied.
#[verifier::opaque]
pub open spec fn amount_reply(regs: Regs, free: bool, tenfold_gain: bool) -> (Flow, Regs) {
    let delta = signed(regs.r2);
    if free && delta < 0 {
        (Flow::Handled, Regs { r0: 0, r1: 0, r2: 0, ..regs })
    } else if tenfold_gain && delta > 0 {
        (Flow::Forward, Regs { r2: word_of(tenfold(delta)), ..regs })
    } else {
        (Flow::Forward, regs)
    }
}

/// The answer to a message, by receiver and selector. Every message that no
/// switch concerns goes to the game as it is.
pub open spec fn cheat_reply(st: CheatState, host: Host, msg: Message, regs: Regs) -> (Flow, Regs) {
    let on = |k: CheatKey| st.cheats.has(k);
    let pass = (Flow::Forward, regs);
    match msg.sel {
        // Tampering.
        Sel::IsHackData => if on(CheatKey::KillAnticheat) && (msg.class == Class::GameData
            || msg.class == Class::NewSceneUserInfoData) {
            give(regs, 0)
        } else {
            pass
        },
        Sel::ShowCheatWarningMessage => if on(CheatKey::KillAnticheat) && (msg.class
            == Class::WrapperManager || msg.class == Class::IMoleVillageAppDelegate) {
            swallowed(regs)
        } else {
            pass
        },
        Sel::CheckUserinfoMd5 => if on(CheatKey::KillAnticheat) && msg.class
            == Class::NewSceneData {
            give(regs, 1)
        } else {
            pass
        },
        Sel::CheckUserInfoData => if on(CheatKey::KillAnticheat) && msg.class
            == Class::NewSceneData {
            give(regs, 0)
        } else {
            pass
        },
        Sel::Check | Sel::Start => if on(CheatKey::KillAnticheat) && msg.class
            == Class::SystemTimeCheck {
            swallowed(regs)
        } else {
            pass
        },
        // VIP.
        Sel::CheckIsVipUser => if on(CheatKey::ForceVip) && msg.class == Class::WrapperManager {
            give(regs, 1)
        } else {
            pass
        },
        Sel::IsShowVIPFunctionsButton => if on(CheatKey::ForceVip) && msg.class
            == Class::UserInfoLayer {
            (Flow::Forward, Regs { r2: 1, ..regs })
        } else {
            pass
        },
        Sel::VipLevelWithNewType => if on(CheatKey::ForceVip) && msg.class
            == Class::UserVIPInfoData {
            (
                Flow::Perform(
                    Task::MakeDigit { digit: clamped_vip(st.cheats.vip_level) },
                    Stage::FinishWord,
                ),
                regs,
            )
        } else {
            pass
        },
        Sel::VipValue => if on(CheatKey::ForceVip) && msg.class == Class::UserVIPInfoData {
            give(regs, 999_999)
        } else {
            pass
        },
        // Level.
        Sel::CurLevel => if st.cheats.force_level > 0 && msg.class == Class::UserInfoData {
            give(regs, st.cheats.force_level as u32)
        } else {
            pass
        },
        Sel::GetLevel => if st.cheats.force_level > 0 && msg.class == Class::NewSceneData {
            give(regs, st.cheats.force_level as u32)
        } else {
            pass
        },
        // The visible part of the village.
        Sel::MapExtend => if host.fix_mapextend && msg.class == Class::UserInfoData && frames_view(
            regs.lr,
        ) {
            (Flow::Perform(Task::ReadMapExtend { user_info: regs.r0 }, Stage::MapExtend), regs)
        } else {
            pass
        },
        // Locks.
        Sel::IsUnlockedItem => if on(CheatKey::AllUnlock) && msg.class == Class::WrapperManager {
            give(regs, 1)
        } else {
            pass
        },
        Sel::CheckIsUnlockMusic => if on(CheatKey::AllUnlock) && msg.class
            == Class::MusicHallLayer {
            give(regs, 1)
        } else {
            pass
        },
        Sel::CheckRequiredVipLevel => if on(CheatKey::AllUnlock) && msg.class
            == Class::AvatarLayer {
            give(regs, 1)
        } else {
            pass
        },
        Sel::GetLockType4Crop | Sel::GetLockType4Object => if on(CheatKey::AllUnlock) && (msg.class
            == Class::GameData || msg.class == Class::NewSceneData) {
            give(regs, 0)
        } else {
            pass
        },
        Sel::GetLockType4CropWithId | Sel::GetLockType4Gift => if on(CheatKey::AllUnlock)
            && msg.class == Class::GameData {
            give(regs, 0)
        } else {
            pass
        },
        Sel::GetLockType4Decorate => if on(CheatKey::AllUnlock) && (msg.class
            == Class::DecorateRoomLayer || msg.class == Class::MusicHallLayer) {
            give(regs, 0)
        } else {
            pass
        },
        // Workers and rooms.
        Sel::TotalWorkers | Sel::AvailableWorkers | Sel::TotalRooms => if on(CheatKey::MaxFacility)
            && msg.class == Class::UserInfoData {
            give(regs, 99)
        } else {
            pass
        },
        // Harvest, in percent.
        Sel::GetXPSpeedUpObjectMultiple | Sel::GetGoldSpeedUpObjectMultiple => if on(
            CheatKey::HarvestMult,
        ) && msg.class == Class::ObjectManager {
            give(regs, 1000)
        } else {
            pass
        },
        // Quests.
        Sel::ShellsNeeded => if on(CheatKey::FreeQuest) && (msg.class == Class::Quest || msg.class
            == Class::TimeQuest || msg.class == Class::NewSceneQuest || msg.class
            == Class::DailyQuest || msg.class == Class::VipQuest) {
            give(regs, 0)
        } else {
            pass
        },
        // The sea bed.
        Sel::GenerateRandomRewardId => if on(CheatKey::SeabedBest) && msg.class
            == Class::SeabedSeekingTreasureMainLayer {
            give(regs, RAREST_FIND)
        } else {
            pass
        },
        // Small games.
        Sel::GainCoin | Sel::GainXP => if on(CheatKey::MinigameReward) && settles_game(regs.lr) {
            (
                Flow::Perform(
                    Task::ReadGain { game: regs.r0, coin: msg.sel == Sel::GainCoin },
                    Stage::Gain,
                ),
                regs,
            )
        } else {
            pass
        },
        // Achievements.
        Sel::Unlocked => if on(CheatKey::AllAchieve) && msg.class == Class::AchievementItems {
            give(regs, 1)
        } else {
            pass
        },
        Sel::CheckInAlreadyUnlockList => if st.save_has_dict_as_array && (msg.class
            == Class::AchievementControl || msg.class == Class::NewSceneAchievement) {
            give(regs, 1)
        } else {
            pass
        },
        // Money and experience.
        Sel::AddGold => if msg.class == Class::UserInfoData {
            amount_reply(regs, on(CheatKey::FreeShop), on(CheatKey::GoldX10))
        } else {
            pass
        },
        Sel::AddVipGold => if msg.class == Class::UserInfoData {
            amount_reply(regs, on(CheatKey::FreeShop), false)
        } else {
            pass
        },
        Sel::AddXp => if msg.class == Class::UserInfoData {
            amount_reply(regs, false, on(CheatKey::XpX10))
        } else {
            pass
        },
        // Crops.
        Sel::Innerupdate => if on(CheatKey::InstantCrop) && is_farm(msg.class) {
            (Flow::Perform(Task::MatureFarm { farm: regs.r0 }, Stage::Forward), regs)
        } else {
            pass
        },
        Sel::GetMatureTime => if on(CheatKey::InstantCrop) && is_farm(msg.class) {
            give_double(regs, 0, 0)
        } else {
            pass
        },
        Sel::GetWitherTime => if on(CheatKey::NoWither) && is_farm(msg.class) {
            give_double(regs, low_word(FAR_FUTURE_BITS), high_word(FAR_FUTURE_BITS))
        } else {
            pass
        },
        Sel::CropWitherHandler => if on(CheatKey::NoWither) && is_farm(msg.class) {
            swallowed(regs)
        } else {
            pass
        },
        // Building times.
        Sel::GetBuildTime => if on(CheatKey::InstantBuild) && (msg.class == Class::Building
            || msg.class == Class::NewSceneShop || msg.class == Class::Bridge || msg.class
            == Class::Ladder) {
            give_double(regs, 0, 0)
        } else {
            pass
        },
        // Waiting times.
        Sel::GetLastCooldownTime => if on(CheatKey::NoCooldown) && (msg.class == Class::Building
            || msg.class == Class::SpacialObject || msg.class == Class::YellowDuck) {
            give_double(regs, 0, 0)
        } else {
            pass
        },
        Sel::GetCurLevelCoolTime | Sel::GetLastGameCoolTime => if on(CheatKey::NoCooldown)
            && msg.class == Class::Building {
            give_double(regs, 0, 0)
        } else {
            pass
        },
        Sel::GetOutCoolTime => if on(CheatKey::NoCooldown) && msg.class
            == Class::NewSceneRestaurant {
            give_double(regs, 0, 0)
        } else {
            pass
        },
        Sel::GetCurLevelCooltime => if on(CheatKey::NoCooldown) && msg.class == Class::MCNpcActor {
            give_double(regs, 0, 0)
        } else {
            pass
        },
        Sel::CheckCooltimeOver => if on(CheatKey::NoCooldown) && msg.class == Class::YaliNpcActor {
            give(regs, 1)
        } else {
            pass
        },
        _ => pass,
    }
}

/// The classes of fields.
pub open spec fn is_farm(class: Class) -> bool {
    class == Class::Farm || class == Class::FlowerFarm || class == Class::FruitFarm
}

/// Answers a message as the switches ask for, or leaves it to the game.
pub fn cheat_arms(st: &CheatState, host: &Host, msg: Message, regs: &mut Regs) -> (r: Flow)
    ensures
        (r, *final(regs)) == cheat_reply(*st, *host, msg, *old(regs)),
{
    let class = msg.class;
    let sel = msg.sel;
    let c = st.cheats;
    if c.on(CheatKey::KillAnticheat) {
        match (class, sel) {
            (Class::GameData, Sel::IsHackData) | (Class::NewSceneUserInfoData, Sel::IsHackData) => {
                regs.r0 = 0;
                return Flow::Handled;
            },
            (Class::WrapperManager, Sel::ShowCheatWarningMessage) | (
                Class::IMoleVillageAppDelegate,
                Sel::ShowCheatWarningMessage,
            ) | (Class::SystemTimeCheck, Sel::Check) | (Class::SystemTimeCheck, Sel::Start) => {
                regs.r0 = 0;
                regs.r1 = 0;
                return Flow::Handled;
            },
            (Class::NewSceneData, Sel::CheckUserinfoMd5) => {
                regs.r0 = 1;
                return Flow::Handled;
            },
            (Class::NewSceneData, Sel::CheckUserInfoData) => {
                regs.r0 = 0;
                return Flow::Handled;
            },
            _ => {},
        }
    }
    if c.on(CheatKey::ForceVip) {
        match (class, sel) {
            (Class::WrapperManager, Sel::CheckIsVipUser) => {
                regs.r0 = 1;
                return Flow::Handled;
            },
            (Class::UserInfoLayer, Sel::IsShowVIPFunctionsButton) => {
                regs.r2 = 1;
                return Flow::Forward;
            },
            (Class::UserVIPInfoData, Sel::VipLevelWithNewType) => {
                let digit: i32 = if c.vip_level < 1 {
                    1
                } else if c.vip_level > VIP_LEVEL_MAX {
                    VIP_LEVEL_MAX
                } else {
                    c.vip_level
                };
                return Flow::Perform(Task::MakeDigit { digit }, Stage::FinishWord);
            },
            (Class::UserVIPInfoData, Sel::VipValue) => {
                regs.r0 = 999_999;
                return Flow::Handled;
            },
            _ => {},
        }
    }
    if c.force_level > 0 {
        match (class, sel) {
            (Class::UserInfoData, Sel::CurLevel) | (Class::NewSceneData, Sel::GetLevel) => {
                regs.r0 = c.force_level as u32;
                return Flow::Handled;
            },
            _ => {},
        }
    }
    if host.fix_mapextend {
        if let (Class::UserInfoData, Sel::MapExtend) = (class, sel) {
            let lr: u32 = regs.lr;
            if lr == VIEW_LR_BACKGROUND || lr == VIEW_LR_VISIBLE || lr == VIEW_LR_WALKABLE || lr
                == VIEW_LR_BORN {
                return Flow::Perform(
                    Task::ReadMapExtend { user_info: regs.r0 },
                    Stage::MapExtend,
                );
            }
        }
    }
    if c.on(CheatKey::AllUnlock) {
        match (class, sel) {
            (Class::WrapperManager, Sel::IsUnlockedItem) | (
                Class::MusicHallLayer,
                Sel::CheckIsUnlockMusic,
            ) | (Class::AvatarLayer, Sel::CheckRequiredVipLevel) => {
                regs.r0 = 1;
                return Flow::Handled;
            },
            (Class::GameData, Sel::GetLockType4Crop) | (
                Class::GameData,
                Sel::GetLockType4CropWithId,
            ) | (Class::GameData, Sel::GetLockType4Object) | (
                Class::GameData,
                Sel::GetLockType4Gift,
            ) | (Class::NewSceneData, Sel::GetLockType4Object) | (
                Class::NewSceneData,
                Sel::GetLockType4Crop,
            ) | (Class::DecorateRoomLayer, Sel::GetLockType4Decorate) | (
                Class::MusicHallLayer,
                Sel::GetLockType4Decorate,
            ) => {
                regs.r0 = 0;
                return Flow::Handled;
            },
            _ => {},
        }
    }
    game_arms(st, msg, regs)
}

/// The selectors about tampering, VIP, levels, areas and locks.
pub open spec fn asks_status(sel: Sel) -> bool {
    match sel {
        Sel::IsHackData
        | Sel::ShowCheatWarningMessage
        | Sel::CheckUserinfoMd5
        | Sel::CheckUserInfoData
        | Sel::Check
        | Sel::Start
        | Sel::CheckIsVipUser
        | Sel::IsShowVIPFunctionsButton
        | Sel::VipLevelWithNewType
        | Sel::VipValue
        | Sel::CurLevel
        | Sel::GetLevel
        | Sel::MapExtend
        | Sel::IsUnlockedItem
        | Sel::CheckIsUnlockMusic
        | Sel::CheckRequiredVipLevel
        | Sel::GetLockType4Crop
        | Sel::GetLockType4CropWithId
        | Sel::GetLockType4Object
        | Sel::GetLockType4Gift
        | Sel::GetLockType4Decorate => true,
        _ => false,
    }
}

fn game_arms(st: &CheatState, msg: Message, regs: &mut Regs) -> (r: Flow)
    ensures
        !asks_status(msg.sel) ==> forall|host: Host|
            (r, *final(regs)) == #[trigger] cheat_reply(*st, host, msg, *old(regs)),
        asks_status(msg.sel) ==> (r, *final(regs)) == (Flow::Forward, *old(regs)),
{
    let class = msg.class;
    let sel = msg.sel;
    let c = st.cheats;
    if c.on(CheatKey::MaxFacility) {
        match (class, sel) {
            (Class::UserInfoData, Sel::TotalWorkers) | (
                Class::UserInfoData,
                Sel::AvailableWorkers,
            ) | (Class::UserInfoData, Sel::TotalRooms) => {
                regs.r0 = 99;
                return Flow::Handled;
            },
            _ => {},
        }
    }
    if c.on(CheatKey::HarvestMult) {
        match (class, sel) {
            (Class::ObjectManager, Sel::GetXPSpeedUpObjectMultiple) | (
                Class::ObjectManager,
                Sel::GetGoldSpeedUpObjectMultiple,
            ) => {
                regs.r0 = 1000;
                return Flow::Handled;
            },
            _ => {},
        }
    }
    if c.on(CheatKey::FreeQuest) {
        match (class, sel) {
            (Class::Quest, Sel::ShellsNeeded) | (Class::TimeQuest, Sel::ShellsNeeded) | (
                Class::NewSceneQuest,
                Sel::ShellsNeeded,
            ) | (Class::DailyQuest, Sel::ShellsNeeded) | (Class::VipQuest, Sel::ShellsNeeded) => {
                regs.r0 = 0;
                return Flow::Handled;
            },
            _ => {},
        }
    }
    if c.on(CheatKey::SeabedBest) {
        if let (Class::SeabedSeekingTreasureMainLayer, Sel::GenerateRandomRewardId) = (class, sel) {
            regs.r0 = RAREST_FIND;
            return Flow::Handled;
        }
    }
    if c.on(CheatKey::MinigameReward) && (sel == Sel::GainCoin || sel == Sel::GainXP) {
        if regs.lr == LR_SETTLE_XP || regs.lr == LR_SETTLE_COIN {
            let coin = sel == Sel::GainCoin;
            return Flow::Perform(Task::ReadGain { game: regs.r0, coin }, Stage::Gain);
        }
    }
    if c.on(CheatKey::AllAchieve) {
        if let (Class::AchievementItems, Sel::Unlocked) = (class, sel) {
            regs.r0 = 1;
            return Flow::Handled;
        }
    }
    if st.save_has_dict_as_array {
        match (class, sel) {
            (Class::AchievementControl, Sel::CheckInAlreadyUnlockList) | (
                Class::NewSceneAchievement,
                Sel::CheckInAlreadyUnlockList,
            ) => {
                regs.r0 = 1;
                return Flow::Handled;
            },
            _ => {},
        }
    }
    if class == Class::UserInfoData {
        match sel {
            Sel::AddGold => {
                return amount_arm(regs, c.on(CheatKey::FreeShop), c.on(CheatKey::GoldX10));
            },
            Sel::AddVipGold => {
                return amount_arm(regs, c.on(CheatKey::FreeShop), false);
            },
            Sel::AddXp => {
                return amount_arm(regs, false, c.on(CheatKey::XpX10));
            },
            _ => {},
        }
    }
    time_arms(st, msg, regs)
}

fn amount_arm(regs: &mut Regs, free: bool, tenfold_gain: bool) -> (r: Flow)
    ensures
        (r, *final(regs)) == amount_reply(*old(regs), free, tenfold_gain),
{
    proof {
        reveal(amount_reply);
    }
    let delta: i32 = to_signed(regs.r2);
    if free && delta < 0 {
        regs.r0 = 0;
        regs.r1 = 0;
        regs.r2 = 0;
        return Flow::Handled;
    }
    if tenfold_gain && delta > 0 {
        regs.r2 = to_word(ten_times(delta));
    }
    Flow::Forward
}

/// The selectors that ask for times.
pub open spec fn asks_time(sel: Sel) -> bool {
    sel == Sel::Innerupdate || sel == Sel::GetMatureTime || sel == Sel::GetWitherTime || sel
        == Sel::CropWitherHandler || sel == Sel::GetBuildTime || sel == Sel::GetLastCooldownTime
        || sel == Sel::GetCurLevelCoolTime || sel == Sel::GetLastGameCoolTime || sel
        == Sel::GetOutCoolTime || sel == Sel::GetCurLevelCooltime || sel == Sel::CheckCooltimeOver
}

fn time_arms(st: &CheatState, msg: Message, regs: &mut Regs) -> (r: Flow)
    ensures
        asks_time(msg.sel) ==> forall|host: Host|
            (r, *final(regs)) == #[trigger] cheat_reply(*st, host, msg, *old(regs)),
        !asks_time(msg.sel) ==> (r, *final(regs)) == (Flow::Forward, *old(regs)),
{
    let class = msg.class;
    let sel = msg.sel;
    let c = st.cheats;
    if class == Class::Farm || class == Class::FlowerFarm || class == Class::FruitFarm {
        if c.on(CheatKey::InstantCrop) && sel == Sel::Innerupdate {
            return Flow::Perform(Task::MatureFarm { farm: regs.r0 }, Stage::Forward);
        }
        if c.on(CheatKey::InstantCrop) && sel == Sel::GetMatureTime {
            ret_double(regs, 0);
            return Flow::Handled;
        }
        if c.on(CheatKey::NoWither) {
            match sel {
                Sel::GetWitherTime => {
                    ret_double(regs, FAR_FUTURE_BITS);
                    return Flow::Handled;
                },
                Sel::CropWitherHandler => {
                    regs.r0 = 0;
                    regs.r1 = 0;
                    return Flow::Handled;
                },
                _ => {},
            }
        }
    }
    if c.on(CheatKey::InstantBuild) && (class == Class::Building || class == Class::NewSceneShop
        || class == Class::Bridge || class == Class::Ladder) && sel == Sel::GetBuildTime {
        ret_double(regs, 0);
        return Flow::Handled;
    }
    if c.on(CheatKey::NoCooldown) {
        match (class, sel) {
            (Class::Building, Sel::GetCurLevelCoolTime) | (
                Class::Building,
                Sel::GetLastCooldownTime,
            ) | (Class::SpacialObject, Sel::GetLastCooldownTime) | (
                Class::YellowDuck,
                Sel::GetLastCooldownTime,
            ) | (Class::Building, Sel::GetLastGameCoolTime) | (
                Class::NewSceneRestaurant,
                Sel::GetOutCoolTime,
            ) | (Class::MCNpcActor, Sel::GetCurLevelCooltime) => {
                ret_double(regs, 0);
                return Flow::Handled;
            },
            (Class::YaliNpcActor, Sel::CheckCooltimeOver) => {
                regs.r0 = 1;
                return Flow::Handled;
            },
            _ => {},
        }
    }
    Flow::Forward
}

/// The areas to show: those of the save and all of the village's; all of the
/// village's where the save's are not known.
pub open spec fn shown_areas(found: Answer) -> u32 {
    match found {
        Answer::Word(v) => (v as u16 as u32) | ALL_AREAS,
        _ => ALL_AREAS,
    }
}

/// Answers with the areas to show.
pub fn finish_map_extend(found: Answer, regs: &mut Regs) -> (r: Flow)
    ensures
        (r, *final(regs)) == give(*old(regs), shown_areas(found)),
{
    regs.r0 =
    match found {
        Answer::Word(v) => (v as u16 as u32) | ALL_AREAS,
        _ => ALL_AREAS,
    };
    Flow::Handled
}

/// Answers with the reward made larger, or leaves the message to the game
/// where the reward is not known.
pub fn finish_gain(found: Answer, regs: &mut Regs) -> (r: Flow)
    ensures
        (r, *final(regs)) == (match found {
            Answer::Word(v) => give(*old(regs), word_of(boosted(signed(v)))),
            _ => (Flow::Forward, *old(regs)),
        }),
{
    match found {
        Answer::Word(v) => {
            regs.r0 = to_word(boost(to_signed(v)));
            Flow::Handled
        },
        _ => Flow::Forward,
    }
}

/// A switch that is off leaves the game alone: with all switches off, no level
/// to show and a sound save, every message goes to the game as it is.
pub proof fn law_all_off_changes_nothing(st: CheatState, host: Host, msg: Message, regs: Regs)
    requires
        forall|k: CheatKey| !#[trigger] st.cheats.has(k),
        st.cheats.force_level <= 0,
        !st.save_has_dict_as_array,
        !host.fix_mapextend,
    ensures
        cheat_reply(st, host, msg, regs) == (Flow::Forward, regs),
{
    reveal(amount_reply);
}

/// A reward never gets smaller, and what was at most 99999 stays so.
pub proof fn law_boost_is_bounded(v: i32)
    ensures
        boosted(v) >= v,
        v <= 99999 ==> boosted(v) <= 99999,
        v <= 0 ==> boosted(v) == v,
{
}

/// Where everything is free nothing is ever taken from the player, and a gain
/// never gets smaller.
pub proof fn law_player_never_loses(regs: Regs, free: bool, tenfold_gain: bool)
    ensures
        ({
            let (flow, after) = amount_reply(regs, free, tenfold_gain);
            &&& free && signed(regs.r2) < 0 ==> flow == Flow::Handled && after.r2 == 0
            &&& signed(regs.r2) >= 0 ==> flow == Flow::Forward && signed(after.r2) >= signed(
                regs.r2,
            )
        }),
{
    reveal(amount_reply);
}

/// The correction of the village's areas reaches the four calls that frame the
/// view, and no other: whoever else asks gets the game's own answer.
pub proof fn law_only_the_view_is_widened(st: CheatState, host: Host, msg: Message, regs: Regs)
    requires
        msg.sel == Sel::MapExtend,
        !frames_view(regs.lr),
    ensures
        cheat_reply(st, host, msg, regs) == (Flow::Forward, regs),
{
}

} // verus!
