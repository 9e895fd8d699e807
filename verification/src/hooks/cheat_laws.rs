//! What each switch does to the game's messages.

use vstd::prelude::*;
use crate::cheats::CheatKey;
use crate::hooks::cheat_arms::amount_reply;
use crate::hooks::machine::{resumed, Step};
use crate::hooks::passage::{lemma_to_switches, sent};
use crate::hooks::types::{Answer, Flow, Host, Regs, Stage, Task};
use crate::names::{Class, Message, Sel};
use crate::state::CheatState;

verus! {

/// The message is answered with a word; nothing else changes.
pub open spec fn gives(s: Step, regs: Regs, v: u32) -> bool {
    s.flow == Flow::Handled && s.regs == (Regs { r0: v, ..regs })
}

/// The message is answered with a double-precision zero.
pub open spec fn gives_no_time(s: Step, regs: Regs) -> bool {
    s.flow == Flow::Handled && s.regs == (Regs { r0: 0, r1: 0, ..regs })
}

/// The message goes to the game as it came.
pub open spec fn passes(s: Step, regs: Regs) -> bool {
    s.flow == Flow::Forward && s.regs == regs
}

/// The message is answered with a word if a switch is on, and otherwise goes
/// to the game as it came.
pub open spec fn gives_if(s: Step, regs: Regs, on: bool, v: u32) -> bool {
    if on {
        gives(s, regs, v)
    } else {
        passes(s, regs)
    }
}

/// Without a cost: while everything is free, no message takes coins or shells
/// from the player. A negative amount is answered for the game, and nothing is
/// left of it; otherwise it reaches the game as it came. Experience is never
/// held back.
pub proof fn law_free_shop_takes_no_money(st: CheatState, host: Host, msg: Message, regs: Regs)
    requires
        !msg.more_game,
        msg.class == Class::UserInfoData,
        regs.r2 >= 0x8000_0000,
    ensures
        ({
            let s = sent(st, host, msg, regs);
            let money = msg.sel == Sel::AddGold || msg.sel == Sel::AddVipGold;
            &&& money && st.cheats.has(CheatKey::FreeShop) ==> s.flow == Flow::Handled && s.regs
                == (Regs { r0: 0, r1: 0, r2: 0, ..regs })
            &&& money && !st.cheats.has(CheatKey::FreeShop) ==> passes(s, regs)
            &&& msg.sel == Sel::AddXp ==> passes(s, regs)
        }),
{
    if msg.sel == Sel::AddGold || msg.sel == Sel::AddVipGold || msg.sel == Sel::AddXp {
        lemma_to_switches(st, host, msg, regs);
        reveal(amount_reply);
    }
}

/// A gain of coins is made ten times as large while the switch for coins is
/// on, a gain of experience while that for experience is; shells are never
/// multiplied. The gain stays below 2^31, and without the switch it is as it
/// came.
pub proof fn law_gains_are_tenfold(st: CheatState, host: Host, msg: Message, regs: Regs)
    requires
        !msg.more_game,
        msg.class == Class::UserInfoData,
        regs.r2 < 0x8000_0000,
    ensures
        ({
            let s = sent(st, host, msg, regs);
            let gain = regs.r2;
            let ten = if gain <= 214748364 {
                10 * gain
            } else {
                0x7fff_ffff
            };
            let many = (msg.sel == Sel::AddGold && st.cheats.has(CheatKey::GoldX10)) || (msg.sel
                == Sel::AddXp && st.cheats.has(CheatKey::XpX10));
            &&& many ==> s.flow == Flow::Forward && s.regs == (Regs { r2: ten as u32, ..regs })
            &&& !many && (msg.sel == Sel::AddGold || msg.sel == Sel::AddXp || msg.sel
                == Sel::AddVipGold) ==> passes(s, regs)
        }),
{
    if msg.sel == Sel::AddGold || msg.sel == Sel::AddVipGold || msg.sel == Sel::AddXp {
        lemma_to_switches(st, host, msg, regs);
        reveal(amount_reply);
    }
}

/// Money and experience of anything but the player are left alone.
pub proof fn law_other_amounts_are_left_alone(st: CheatState, host: Host, msg: Message, regs: Regs)
    requires
        !msg.more_game,
        msg.class != Class::UserInfoData,
        msg.sel == Sel::AddGold || msg.sel == Sel::AddVipGold || msg.sel == Sel::AddXp,
    ensures
        passes(sent(st, host, msg, regs), regs),
{
    lemma_to_switches(st, host, msg, regs);
}

/// While the switch against the game's checks is on, the game finds no
/// tampering, its checksum is right, no warning is shown, and its clock is not
/// watched. Otherwise the game checks as it does.
pub proof fn law_tampering_is_not_found(st: CheatState, host: Host, msg: Message, regs: Regs)
    requires
        !msg.more_game,
    ensures
        ({
            let s = sent(st, host, msg, regs);
            let on = st.cheats.has(CheatKey::KillAnticheat);
            let data = msg.class == Class::GameData || msg.class == Class::NewSceneUserInfoData;
            let warns = msg.class == Class::WrapperManager || msg.class
                == Class::IMoleVillageAppDelegate;
            &&& msg.sel == Sel::IsHackData ==> gives_if(s, regs, on && data, 0)
            &&& msg.sel == Sel::CheckUserinfoMd5 ==> gives_if(
                s,
                regs,
                on && msg.class == Class::NewSceneData,
                1,
            )
            &&& msg.sel == Sel::CheckUserInfoData ==> gives_if(
                s,
                regs,
                on && msg.class == Class::NewSceneData,
                0,
            )
            &&& msg.sel == Sel::ShowCheatWarningMessage ==> if on && warns {
                gives_no_time(s, regs)
            } else {
                passes(s, regs)
            }
            &&& msg.sel == Sel::Check || msg.sel == Sel::Start ==> if on && msg.class
                == Class::SystemTimeCheck {
                gives_no_time(s, regs)
            } else {
                passes(s, regs)
            }
        }),
{
    if msg.sel == Sel::IsHackData || msg.sel == Sel::CheckUserinfoMd5 || msg.sel
        == Sel::CheckUserInfoData || msg.sel == Sel::ShowCheatWarningMessage || msg.sel == Sel::Check
        || msg.sel == Sel::Start {
        lemma_to_switches(st, host, msg, regs);
    }
}

/// While the switch for VIP is on, the player counts as one, is shown the
/// functions of one, and has the level that was chosen, from 1 to 4.
pub proof fn law_player_is_vip(st: CheatState, host: Host, msg: Message, regs: Regs)
    requires
        !msg.more_game,
    ensures
        ({
            let s = sent(st, host, msg, regs);
            let on = st.cheats.has(CheatKey::ForceVip);
            let level = st.cheats.vip_level;
            &&& msg.sel == Sel::CheckIsVipUser ==> gives_if(
                s,
                regs,
                on && msg.class == Class::WrapperManager,
                1,
            )
            &&& msg.sel == Sel::VipValue ==> gives_if(
                s,
                regs,
                on && msg.class == Class::UserVIPInfoData,
                999_999,
            )
            &&& msg.sel == Sel::IsShowVIPFunctionsButton ==> if on && msg.class
                == Class::UserInfoLayer {
                s.flow == Flow::Forward && s.regs == (Regs { r2: 1, ..regs })
            } else {
                passes(s, regs)
            }
            &&& msg.sel == Sel::VipLevelWithNewType && !(on && msg.class
                == Class::UserVIPInfoData) ==> passes(s, regs)
            &&& msg.sel == Sel::VipLevelWithNewType && on && msg.class == Class::UserVIPInfoData
                ==> s.regs == regs && s.flow == Flow::Perform(
                Task::MakeDigit {
                    digit: if level < 1 {
                        1
                    } else if level > 4 {
                        4
                    } else {
                        level
                    },
                },
                Stage::FinishWord,
            )
        }),
{
    if msg.sel == Sel::CheckIsVipUser || msg.sel == Sel::VipValue || msg.sel
        == Sel::IsShowVIPFunctionsButton || msg.sel == Sel::VipLevelWithNewType {
        lemma_to_switches(st, host, msg, regs);
    }
}

/// Where a level was chosen, the village and the island show it; without one
/// they show the player's own.
pub proof fn law_chosen_level_is_shown(st: CheatState, host: Host, msg: Message, regs: Regs)
    requires
        !msg.more_game,
        msg.sel == Sel::CurLevel || msg.sel == Sel::GetLevel,
    ensures
        ({
            let s = sent(st, host, msg, regs);
            let asked = (msg.sel == Sel::CurLevel && msg.class == Class::UserInfoData) || (msg.sel
                == Sel::GetLevel && msg.class == Class::NewSceneData);
            &&& asked && st.cheats.force_level > 0 ==> s.flow == Flow::Handled && s.regs.r0
                == st.cheats.force_level && s.regs == (Regs { r0: s.regs.r0, ..regs })
            &&& !(asked && st.cheats.force_level > 0) ==> passes(s, regs)
        }),
{
    lemma_to_switches(st, host, msg, regs);
}

/// While everything is unlocked, no item, music, look, crop, building, gift or
/// decoration is locked.
pub proof fn law_nothing_is_locked(st: CheatState, host: Host, msg: Message, regs: Regs)
    requires
        !msg.more_game,
    ensures
        ({
            let s = sent(st, host, msg, regs);
            let on = st.cheats.has(CheatKey::AllUnlock);
            let game = msg.class == Class::GameData;
            let island = msg.class == Class::NewSceneData;
            let music = msg.class == Class::MusicHallLayer;
            &&& msg.sel == Sel::IsUnlockedItem ==> gives_if(
                s,
                regs,
                on && msg.class == Class::WrapperManager,
                1,
            )
            &&& msg.sel == Sel::CheckIsUnlockMusic ==> gives_if(s, regs, on && music, 1)
            &&& msg.sel == Sel::CheckRequiredVipLevel ==> gives_if(
                s,
                regs,
                on && msg.class == Class::AvatarLayer,
                1,
            )
            &&& msg.sel == Sel::GetLockType4Crop || msg.sel == Sel::GetLockType4Object ==> gives_if(
                s,
                regs,
                on && (game || island),
                0,
            )
            &&& msg.sel == Sel::GetLockType4CropWithId || msg.sel == Sel::GetLockType4Gift
                ==> gives_if(s, regs, on && game, 0)
            &&& msg.sel == Sel::GetLockType4Decorate ==> gives_if(
                s,
                regs,
                on && (music || msg.class == Class::DecorateRoomLayer),
                0,
            )
        }),
{
    if msg.sel == Sel::IsUnlockedItem || msg.sel == Sel::CheckIsUnlockMusic || msg.sel
        == Sel::CheckRequiredVipLevel || msg.sel == Sel::GetLockType4Crop || msg.sel
        == Sel::GetLockType4Object || msg.sel == Sel::GetLockType4CropWithId || msg.sel
        == Sel::GetLockType4Gift || msg.sel == Sel::GetLockType4Decorate {
        lemma_to_switches(st, host, msg, regs);
    }
}

/// The switches for workers and rooms, for the harvest, for quests and for the
/// sea bed: 99 workers and rooms, a harvest of 1000 percent, quests that cost
/// no shells, and the rarest find.
pub proof fn law_plenty(st: CheatState, host: Host, msg: Message, regs: Regs)
    requires
        !msg.more_game,
    ensures
        ({
            let s = sent(st, host, msg, regs);
            let c = st.cheats;
            let player = msg.class == Class::UserInfoData;
            let quest = msg.class == Class::Quest || msg.class == Class::TimeQuest || msg.class
                == Class::NewSceneQuest || msg.class == Class::DailyQuest || msg.class
                == Class::VipQuest;
            &&& msg.sel == Sel::TotalWorkers || msg.sel == Sel::AvailableWorkers || msg.sel
                == Sel::TotalRooms ==> gives_if(s, regs, c.has(CheatKey::MaxFacility) && player, 99)
            &&& msg.sel == Sel::GetXPSpeedUpObjectMultiple || msg.sel
                == Sel::GetGoldSpeedUpObjectMultiple ==> gives_if(
                s,
                regs,
                c.has(CheatKey::HarvestMult) && msg.class == Class::ObjectManager,
                1000,
            )
            &&& msg.sel == Sel::ShellsNeeded ==> gives_if(
                s,
                regs,
                c.has(CheatKey::FreeQuest) && quest,
                0,
            )
            &&& msg.sel == Sel::GenerateRandomRewardId ==> gives_if(
                s,
                regs,
                c.has(CheatKey::SeabedBest) && msg.class == Class::SeabedSeekingTreasureMainLayer,
                31169,
            )
        }),
{
    if msg.sel == Sel::TotalWorkers || msg.sel == Sel::AvailableWorkers || msg.sel
        == Sel::TotalRooms || msg.sel == Sel::GetXPSpeedUpObjectMultiple || msg.sel
        == Sel::GetGoldSpeedUpObjectMultiple || msg.sel == Sel::ShellsNeeded || msg.sel
        == Sel::GenerateRandomRewardId {
        lemma_to_switches(st, host, msg, regs);
    }
}

/// Achievements: all are unlocked while the switch is on. A save that holds a
/// list where a dictionary belongs counts every achievement as unlocked
/// before, whatever the switches say.
pub proof fn law_achievements(st: CheatState, host: Host, msg: Message, regs: Regs)
    requires
        !msg.more_game,
    ensures
        ({
            let s = sent(st, host, msg, regs);
            &&& msg.sel == Sel::Unlocked ==> gives_if(
                s,
                regs,
                st.cheats.has(CheatKey::AllAchieve) && msg.class == Class::AchievementItems,
                1,
            )
            &&& msg.sel == Sel::CheckInAlreadyUnlockList ==> gives_if(
                s,
                regs,
                st.save_has_dict_as_array && (msg.class == Class::AchievementControl || msg.class
                    == Class::NewSceneAchievement),
                1,
            )
        }),
{
    if msg.sel == Sel::Unlocked || msg.sel == Sel::CheckInAlreadyUnlockList {
        lemma_to_switches(st, host, msg, regs);
    }
}

/// Fields: while crops ripen at once, a field takes no time to ripen, and its
/// sowing is moved back before the game looks at it; while nothing withers,
/// the time to wither is 10^15 seconds and withering itself is swallowed.
/// Nothing but the three kinds of fields is concerned.
pub proof fn law_fields(st: CheatState, host: Host, msg: Message, regs: Regs)
    requires
        !msg.more_game,
    ensures
        ({
            let s = sent(st, host, msg, regs);
            let field = msg.class == Class::Farm || msg.class == Class::FlowerFarm || msg.class
                == Class::FruitFarm;
            let ripe = field && st.cheats.has(CheatKey::InstantCrop);
            let fresh = field && st.cheats.has(CheatKey::NoWither);
            &&& msg.sel == Sel::GetMatureTime ==> if ripe {
                gives_no_time(s, regs)
            } else {
                passes(s, regs)
            }
            &&& msg.sel == Sel::Innerupdate ==> s.regs == regs && s.flow == if ripe {
                Flow::Perform(Task::MatureFarm { farm: regs.r0 }, Stage::Forward)
            } else {
                Flow::Forward
            }
            &&& msg.sel == Sel::CropWitherHandler ==> if fresh {
                gives_no_time(s, regs)
            } else {
                passes(s, regs)
            }
            &&& msg.sel == Sel::GetWitherTime ==> if fresh {
                s.flow == Flow::Handled && s.regs == (Regs {
                    r0: 0x2634_0000,
                    r1: 0x430c_6bf5,
                    ..regs
                })
            } else {
                passes(s, regs)
            }
        }),
{
    if msg.sel == Sel::GetMatureTime || msg.sel == Sel::Innerupdate || msg.sel
        == Sel::CropWitherHandler || msg.sel == Sel::GetWitherTime {
        lemma_to_switches(st, host, msg, regs);
    }
}

/// Waiting: while buildings are built at once they take no time; while nothing
/// has to rest, no building, decoration, duck, restaurant or inhabitant does.
pub proof fn law_nothing_takes_time(st: CheatState, host: Host, msg: Message, regs: Regs)
    requires
        !msg.more_game,
    ensures
        ({
            let s = sent(st, host, msg, regs);
            let build = st.cheats.has(CheatKey::InstantBuild) && (msg.class == Class::Building
                || msg.class == Class::NewSceneShop || msg.class == Class::Bridge || msg.class
                == Class::Ladder);
            let on = st.cheats.has(CheatKey::NoCooldown);
            let building = msg.class == Class::Building;
            let at_once = (msg.sel == Sel::GetBuildTime && build) || (msg.sel
                == Sel::GetLastCooldownTime && on && (building || msg.class == Class::SpacialObject
                || msg.class == Class::YellowDuck)) || ((msg.sel == Sel::GetCurLevelCoolTime
                || msg.sel == Sel::GetLastGameCoolTime) && on && building) || (msg.sel
                == Sel::GetOutCoolTime && on && msg.class == Class::NewSceneRestaurant) || (msg.sel
                == Sel::GetCurLevelCooltime && on && msg.class == Class::MCNpcActor);
            &&& at_once ==> gives_no_time(s, regs)
            &&& !at_once && (msg.sel == Sel::GetBuildTime || msg.sel == Sel::GetLastCooldownTime
                || msg.sel == Sel::GetCurLevelCoolTime || msg.sel == Sel::GetLastGameCoolTime
                || msg.sel == Sel::GetOutCoolTime || msg.sel == Sel::GetCurLevelCooltime)
                ==> passes(s, regs)
            &&& msg.sel == Sel::CheckCooltimeOver ==> gives_if(
                s,
                regs,
                on && msg.class == Class::YaliNpcActor,
                1,
            )
        }),
{
    if msg.sel == Sel::GetBuildTime || msg.sel == Sel::GetLastCooldownTime || msg.sel
        == Sel::GetCurLevelCoolTime || msg.sel == Sel::GetLastGameCoolTime || msg.sel
        == Sel::GetOutCoolTime || msg.sel == Sel::GetCurLevelCooltime || msg.sel
        == Sel::CheckCooltimeOver {
        lemma_to_switches(st, host, msg, regs);
    }
}

/// Small games: where the game settles one, and nowhere else, the reward is
/// read, of coins or of experience as was asked. A reward below 10000 is made
/// ten times as large, one up to 99999 becomes 99999, a larger one stays, and
/// so does one that is none.
pub proof fn law_small_games_reward_more(
    st: CheatState,
    host: Host,
    msg: Message,
    regs: Regs,
    v: u32,
)
    requires
        !msg.more_game,
        msg.sel == Sel::GainCoin || msg.sel == Sel::GainXP,
    ensures
        ({
            let s = sent(st, host, msg, regs);
            let settles = regs.lr == 0xf4591 || regs.lr == 0xf45a7;
            let r = resumed(st, host, msg, regs, Stage::Gain, Answer::Word(v));
            &&& st.cheats.has(CheatKey::MinigameReward) && settles ==> s.regs == regs && s.flow
                == Flow::Perform(
                Task::ReadGain { game: regs.r0, coin: msg.sel == Sel::GainCoin },
                Stage::Gain,
            )
            &&& !(st.cheats.has(CheatKey::MinigameReward) && settles) ==> passes(s, regs)
            &&& v <= 9999 ==> gives(r, regs, (10 * v) as u32)
            &&& 9999 < v <= 99999 ==> gives(r, regs, 99999)
            &&& 99999 < v ==> gives(r, regs, v)
            &&& passes(resumed(st, host, msg, regs, Stage::Gain, Answer::Nothing), regs)
        }),
{
    lemma_to_switches(st, host, msg, regs);
}

/// The four calls that frame the view are shown all five areas of the village,
/// besides those of the save; no other call is concerned. Other areas are
/// neither added nor taken away.
pub proof fn law_view_shows_all_areas(
    st: CheatState,
    host: Host,
    msg: Message,
    regs: Regs,
    v: u32,
)
    requires
        !msg.more_game,
        msg.sel == Sel::MapExtend,
    ensures
        ({
            let s = sent(st, host, msg, regs);
            let view = regs.lr == 0x334bd || regs.lr == 0x350a9 || regs.lr == 0x351dd || regs.lr
                == 0x35361;
            let found = resumed(st, host, msg, regs, Stage::MapExtend, Answer::Word(v));
            let unknown = resumed(st, host, msg, regs, Stage::MapExtend, Answer::Nothing);
            &&& host.fix_mapextend && msg.class == Class::UserInfoData && view ==> s.regs == regs
                && s.flow == Flow::Perform(
                Task::ReadMapExtend { user_info: regs.r0 },
                Stage::MapExtend,
            )
            &&& !(host.fix_mapextend && msg.class == Class::UserInfoData && view) ==> passes(s, regs)
            &&& found.flow == Flow::Handled && found.regs == (Regs { r0: found.regs.r0, ..regs })
            &&& found.regs.r0 & 0x1f == 0x1f
            &&& found.regs.r0 & 0xffff_ffe0 == v & 0xffe0
            &&& gives(unknown, regs, 0x1f)
        }),
{
    lemma_to_switches(st, host, msg, regs);
    assert(((v as u16 as u32) | 0x1f) & 0x1f == 0x1f) by (bit_vector);
    assert(((v as u16 as u32) | 0x1f) & 0xffff_ffe0 == v & 0xffe0) by (bit_vector);
}

} // verus!
