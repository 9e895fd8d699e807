//! Every message of the game passes here: whether it is looked at, and in
//! which order the hooks are asked.

use vstd::prelude::*;
use crate::address::{at_offset, offset_by};
use crate::cheats::{armed, cheat_on, law_toggle_leaves_others, toggled, CheatKey, Cheats};
use crate::hooks::cheat_arms::{
    amount_reply, boosted, cheat_arms, cheat_reply, finish_gain, finish_map_extend, shown_areas,
};
use crate::hooks::island_arms::{
    call_reply, entry_checked, entry_reply, flags_reply, forced_scene, frame_counted, gate_reply,
    hire_reply, island_calls, island_entry_gates, island_flags, island_frame, island_hire,
    island_left, island_scene_id, island_scene_seen, island_tick_tail, left, scene_seen,
    tick_tail, watches_scene, WORKER_LIMIT,
};
use crate::hooks::online_arms::{
    booted, change_id_reply, frame_box, frame_box_reply, frame_hud, frame_hud_reply, frame_load,
    frame_load_reply, frame_login, frame_login_reply, frame_passport, frame_passport_reply,
    frame_refused, frame_refused_reply, frame_reply, frame_start, frame_streams,
    frame_streams_reply, frame_upload, frame_upload_reply, lemma_frame_keeps_marks,
    looks_at_reply, marks_kept, menu_seen, online_arms, online_begin, online_change_id,
    online_reply, online_reply_seen, reply_seen,
};
use crate::hooks::types::{
    signed, to_signed, to_word, word_of, Answer, BoxText, Flow, Host, Regs, Stage, Task,
};
use crate::island::session::IslandState;
use crate::names::{Class, Message, Sel};
use crate::state::{CheatState, LoginState};
use crate::ui43::{is_callsite, ui43_callsite, UI43_H_BITS, UI43_W_BITS};
use crate::watchdog::{watchdog_frame, Watchdog};

verus! {

/// Classes whose messages are looked at.
pub open spec fn wanted_class(class: Class) -> bool {
    match class {
        Class::AsyncSocket
        | Class::Building
        | Class::Farm
        | Class::FlowerFarm
        | Class::FruitFarm
        | Class::GameManager
        | Class::HolidayVillageLayer
        | Class::LoadingHoliday
        | Class::LoadingLayer
        | Class::MVPacketHeader
        | Class::MainMenuScene
        | Class::NetworkManager
        | Class::NewSceneApartment
        | Class::SeabedSeekingTreasureMainLayer
        | Class::TMADataManager
        | Class::TMAHttpManager
        | Class::TMAASIFormDataRequest
        | Class::TMAASIHTTPRequest
        | Class::TMAASINetworkQueue
        | Class::TMASSKeychain
        | Class::TaomeeGetServerIpListManager
        | Class::TaomeeUserInfo
        | Class::UserInfoData
        | Class::AchievementControl
        | Class::AchievementItems
        | Class::AvatarLayer
        | Class::DecorateRoomLayer
        | Class::FishingGame
        | Class::GameData
        | Class::MCNpcActor
        | Class::MinerGame
        | Class::MusicHallLayer
        | Class::NewGameManager
        | Class::NewSceneAchievement
        | Class::NewSceneData
        | Class::NewScenePorter
        | Class::NewSceneRestaurant
        | Class::NewSceneUserInfoData
        | Class::ObjectManager
        | Class::Quest
        | Class::SystemTimeCheck
        | Class::TimeQuest
        | Class::UserInfoLayer
        | Class::UserVIPInfoData
        | Class::WrapperManager
        | Class::YaliNpcActor
        | Class::IMoleVillageAppDelegate
        | Class::ShowAdwallBoardLayer
        | Class::AutoPopZhongXinLayer
        | Class::GameDataCompareLayer
        | Class::VillageMenuLayer
        | Class::SharedInterfaceLayer
        | Class::WashRoomLevelChoose => true,
        _ => false,
    }
}

/// Selectors that are looked at whoever receives them.
pub open spec fn wanted_sel(sel: Sel) -> bool {
    match sel {
        Sel::DrawScene
        | Sel::MainLoop
        | Sel::MoleHudTick
        | Sel::ShowWithTarget
        | Sel::ShowWithTargetSelector
        | Sel::CheckPromptForLoadingNewApp
        | Sel::ShowMoreGameOnRootViewWithScaleAndOrientationSupported
        | Sel::ShowMoreGameOnRootViewWithScale
        | Sel::ShowMoreGameWithScaleAndOrientationSupported
        | Sel::ShowMoreGameWithScale
        | Sel::ShowMoreGameWithUrl
        | Sel::OnServerListResult
        | Sel::ShowAccountManagerViewWithDelegateAndUserID
        | Sel::EnterLoadingWithDelegateNextSceneId
        | Sel::LoadNewScene
        | Sel::GobackMainVillage
        | Sel::DeleteObjectFromServer
        | Sel::StartNewSceneFromToScene
        | Sel::MoleIslandTick
        | Sel::GetCurrentServerTime
        | Sel::EnterNewIslands
        | Sel::GetAllObjectsListFromServerWithStartId
        | Sel::GetMatureTime
        | Sel::IsReachable
        | Sel::SendPacketCommandId
        | Sel::SendAllBufferDatas
        | Sel::SendAllBuffDataInNewSceneLoading
        | Sel::GenerateRandomRewardId
        | Sel::OnTaomeeLoginViewDidUnloadWithUserIDPasswordReturnCode
        | Sel::CurSceneId => true,
        _ => false,
    }
}

/// Selectors that are looked at while panels are laid out for a smaller
/// screen.
pub open spec fn wanted_layout_sel(sel: Sel) -> bool {
    match sel {
        Sel::WinSize
        | Sel::OnEnter
        | Sel::AddChild
        | Sel::AddChildZ
        | Sel::AddChildZTag
        | Sel::AddSubview => true,
        _ => false,
    }
}

/// Selectors that are looked at while a switch is on.
pub open spec fn wanted_by_switch(c: Cheats, sel: Sel) -> bool {
    ||| c.has(CheatKey::FreeQuest) && sel == Sel::ShellsNeeded
    ||| c.has(CheatKey::InstantBuild) && sel == Sel::GetBuildTime
    ||| c.has(CheatKey::NoCooldown) && sel == Sel::GetLastCooldownTime
    ||| c.has(CheatKey::MinigameReward) && (sel == Sel::GainCoin || sel == Sel::GainXP)
}

/// Whether a message is looked at. `module_wants` tells whether one of the
/// other modules wants it.
pub open spec fn wanted(st: CheatState, host: Host, msg: Message, module_wants: bool) -> bool {
    ||| wanted_class(msg.class)
    ||| wanted_sel(msg.sel)
    ||| host.ui43 && wanted_layout_sel(msg.sel)
    ||| msg.sel == Sel::WinSize && st.winsize_stale
    ||| msg.sel == Sel::AddChildZTag && host.widescreen
    ||| wanted_by_switch(st.cheats, msg.sel)
    ||| module_wants
}

/// Whether a message is looked at.
pub fn intercept_wants(st: &CheatState, host: &Host, msg: Message, module_wants: bool) -> (r: bool)
    ensures
        r == wanted(*st, *host, msg, module_wants),
{
    let class = match msg.class {
        Class::AsyncSocket
        | Class::Building
        | Class::Farm
        | Class::FlowerFarm
        | Class::FruitFarm
        | Class::GameManager
        | Class::HolidayVillageLayer
        | Class::LoadingHoliday
        | Class::LoadingLayer
        | Class::MVPacketHeader
        | Class::MainMenuScene
        | Class::NetworkManager
        | Class::NewSceneApartment
        | Class::SeabedSeekingTreasureMainLayer
        | Class::TMADataManager
        | Class::TMAHttpManager
        | Class::TMAASIFormDataRequest
        | Class::TMAASIHTTPRequest
        | Class::TMAASINetworkQueue
        | Class::TMASSKeychain
        | Class::TaomeeGetServerIpListManager
        | Class::TaomeeUserInfo
        | Class::UserInfoData
        | Class::AchievementControl
        | Class::AchievementItems
        | Class::AvatarLayer
        | Class::DecorateRoomLayer
        | Class::FishingGame
        | Class::GameData
        | Class::MCNpcActor
        | Class::MinerGame
        | Class::MusicHallLayer
        | Class::NewGameManager
        | Class::NewSceneAchievement
        | Class::NewSceneData
        | Class::NewScenePorter
        | Class::NewSceneRestaurant
        | Class::NewSceneUserInfoData
        | Class::ObjectManager
        | Class::Quest
        | Class::SystemTimeCheck
        | Class::TimeQuest
        | Class::UserInfoLayer
        | Class::UserVIPInfoData
        | Class::WrapperManager
        | Class::YaliNpcActor
        | Class::IMoleVillageAppDelegate
        | Class::ShowAdwallBoardLayer
        | Class::AutoPopZhongXinLayer
        | Class::GameDataCompareLayer
        | Class::VillageMenuLayer
        | Class::SharedInterfaceLayer
        | Class::WashRoomLevelChoose => true,
        _ => false,
    };
    if class {
        return true;
    }
    let sel = match msg.sel {
        Sel::DrawScene
        | Sel::MainLoop
        | Sel::MoleHudTick
        | Sel::ShowWithTarget
        | Sel::ShowWithTargetSelector
        | Sel::CheckPromptForLoadingNewApp
        | Sel::ShowMoreGameOnRootViewWithScaleAndOrientationSupported
        | Sel::ShowMoreGameOnRootViewWithScale
        | Sel::ShowMoreGameWithScaleAndOrientationSupported
        | Sel::ShowMoreGameWithScale
        | Sel::ShowMoreGameWithUrl
        | Sel::OnServerListResult
        | Sel::ShowAccountManagerViewWithDelegateAndUserID
        | Sel::EnterLoadingWithDelegateNextSceneId
        | Sel::LoadNewScene
        | Sel::GobackMainVillage
        | Sel::DeleteObjectFromServer
        | Sel::StartNewSceneFromToScene
        | Sel::MoleIslandTick
        | Sel::GetCurrentServerTime
        | Sel::EnterNewIslands
        | Sel::GetAllObjectsListFromServerWithStartId
        | Sel::GetMatureTime
        | Sel::IsReachable
        | Sel::SendPacketCommandId
        | Sel::SendAllBufferDatas
        | Sel::SendAllBuffDataInNewSceneLoading
        | Sel::GenerateRandomRewardId
        | Sel::OnTaomeeLoginViewDidUnloadWithUserIDPasswordReturnCode
        | Sel::CurSceneId => true,
        _ => false,
    };
    if sel {
        return true;
    }
    let layout = match msg.sel {
        Sel::WinSize
        | Sel::OnEnter
        | Sel::AddChild
        | Sel::AddChildZ
        | Sel::AddChildZTag
        | Sel::AddSubview => true,
        _ => false,
    };
    (host.ui43 && layout) || (msg.sel == Sel::WinSize && st.winsize_stale) || (msg.sel
        == Sel::AddChildZTag && host.widescreen) || (st.cheats.on(CheatKey::FreeQuest) && msg.sel
        == Sel::ShellsNeeded) || (st.cheats.on(CheatKey::InstantBuild) && msg.sel
        == Sel::GetBuildTime) || (st.cheats.on(CheatKey::NoCooldown) && msg.sel
        == Sel::GetLastCooldownTime) || (st.cheats.on(CheatKey::MinigameReward) && (msg.sel
        == Sel::GainCoin || msg.sel == Sel::GainXP)) || module_wants
}

/// What a hook comes to: the flow, the state and the registers.
pub struct Step {
    pub flow: Flow,
    pub st: CheatState,
    pub regs: Regs,
}

pub open spec fn step(flow: Flow, st: CheatState, regs: Regs) -> Step {
    Step { flow, st, regs }
}

/// Asking for a task without any change.
pub open spec fn asking(task: Task, then: Stage, st: CheatState, regs: Regs) -> Step {
    step(Flow::Perform(task, then), st, regs)
}

/// The return address without the mark of its instruction set.
pub open spec fn clear_lr(lr: u32) -> u32 {
    lr & !1u32
}

/// The state once it is known whether the game may use the network: online,
/// the offline island is off.
pub open spec fn mode_noted(st: CheatState, network: bool) -> CheatState {
    if network {
        CheatState {
            online_mode: true,
            cheats: Cheats {
                bits: st.cheats.bits & !(1u32 << CheatKey::EnableNewsceneIsland.bit()),
                ..st.cheats
            },
            ..st
        }
    } else {
        st
    }
}

// ---- what each part of the chain comes to ----

pub open spec fn intercept_step(st: CheatState, host: Host, msg: Message, regs: Regs) -> Step {
    let at = mode_noted(st, host.network);
    if at.cheats.patches_dirty {
        asking(
            Task::ApplyPatches,
            Stage::Display,
            CheatState { cheats: Cheats { patches_dirty: false, ..at.cheats }, ..at },
            regs,
        )
    } else {
        display_step(at, host, msg, regs)
    }
}

#[verifier::opaque]
pub open spec fn display_step(st: CheatState, host: Host, msg: Message, regs: Regs) -> Step {
    if msg.sel == Sel::WinSize && st.winsize_stale {
        asking(Task::ReadWinSize { director: regs.r1 }, Stage::WinSize, st, regs)
    } else {
        layout_step(st, host, msg, regs)
    }
}

/// The window's size the game has remembered: an upright one is given turned,
/// or as the panels' size to the code that lays them out.
#[verifier::opaque]
pub open spec fn win_size_step(st: CheatState, host: Host, msg: Message, regs: Regs, found: Answer) -> Step {
    match found {
        Answer::Pair(width, height) => if host.ui43 && is_callsite(clear_lr(regs.lr)) {
            step(
                Flow::ReturnSize { at: regs.r0, width: UI43_W_BITS, height: UI43_H_BITS },
                st,
                regs,
            )
        } else {
            step(Flow::ReturnSize { at: regs.r0, width: height, height: width }, st, regs)
        },
        _ => layout_step(CheatState { winsize_stale: false, ..st }, host, msg, regs),
    }
}

#[verifier::opaque]
pub open spec fn layout_step(st: CheatState, host: Host, msg: Message, regs: Regs) -> Step {
    if msg.sel == Sel::WinSize && host.ui43 {
        if is_callsite(clear_lr(regs.lr)) {
            step(
                Flow::ReturnSize { at: regs.r0, width: UI43_W_BITS, height: UI43_H_BITS },
                st,
                regs,
            )
        } else {
            step(Flow::Forward, st, regs)
        }
    } else if msg.sel == Sel::OnEnter && host.ui43 {
        asking(Task::CenterPanel { layer: regs.r0 }, Stage::Forward, st, regs)
    } else if msg.sel == Sel::AddChildZTag && host.widescreen {
        asking(Task::AlignBackground { child: regs.r2 }, Stage::AddChild, st, regs)
    } else {
        add_child_step(st, host, msg, regs)
    }
}

#[verifier::opaque]
pub open spec fn add_child_step(st: CheatState, host: Host, msg: Message, regs: Regs) -> Step {
    if host.ui43 && (msg.sel == Sel::AddChild || msg.sel == Sel::AddChildZ || msg.sel
        == Sel::AddChildZTag) {
        asking(Task::StretchChild { parent: regs.r0, child: regs.r2 }, Stage::Forward, st, regs)
    } else if host.ui43 && msg.sel == Sel::AddSubview {
        asking(Task::MoveSubview { parent: regs.r0, child: regs.r2 }, Stage::Forward, st, regs)
    } else {
        modules_step(st, regs)
    }
}

/// The developer's tools are started once, before any module is asked.
pub open spec fn modules_step(st: CheatState, regs: Regs) -> Step {
    if !st.dev_startup_done {
        asking(
            Task::DevStartup,
            Stage::Modules,
            CheatState { dev_startup_done: true, ..st },
            regs,
        )
    } else {
        asking(Task::AskModules, Stage::AfterModules, st, regs)
    }
}

/// Messages that only bring advertisements on screen.
pub open spec fn is_advertising(msg: Message) -> bool {
    ||| msg.sel == Sel::CheckPromptForLoadingNewApp
    ||| msg.class == Class::AdViewForMoleCart && (msg.sel == Sel::ShowWithTargetSelector || msg.sel
        == Sel::ShowWithTarget)
    ||| msg.more_game
    ||| (msg.class == Class::AutoPopZhongXinLayer || msg.class == Class::ShowAdwallBoardLayer) && (
    msg.sel == Sel::Open || msg.sel == Sel::ShowLayer)
}

#[verifier::opaque]
pub open spec fn main_step(st: CheatState, host: Host, msg: Message, regs: Regs) -> Step {
    if is_advertising(msg) {
        step(Flow::Handled, st, regs)
    } else if msg.class == Class::GameData && msg.sel == Sel::LoadUserInfoData {
        asking(Task::GuardUserInfo { game_data: regs.r0 }, Stage::Forward, st, regs)
    } else if msg.class == Class::GameDataCompareLayer && msg.sel
        == Sel::CompareRemoteGameDataWithLocalOne && host.network {
        asking(Task::SyncUpgradePercent, Stage::Forward, st, regs)
    } else if msg.class == Class::SharedInterfaceLayer && (msg.sel == Sel::OnSharedToSinaWeibo
        || msg.sel == Sel::OnSharedToSinaWeiboGetShareReward) && !host.network {
        asking(
            Task::ShowBox { text: BoxText::NoConnection, target: 0 },
            Stage::WeiboBox,
            st,
            regs,
        )
    } else {
        tilt_step(st, host, msg, regs)
    }
}

/// How to tilt is told once, before the first round.
#[verifier::opaque]
pub open spec fn tilt_step(st: CheatState, host: Host, msg: Message, regs: Regs) -> Step {
    if msg.class == Class::WashRoomLevelChoose && msg.sel == Sel::StartGame && host.desktop
        && !st.washroom_hint_shown {
        asking(
            Task::ShowBox { text: BoxText::TiltHint, target: regs.r0 },
            Stage::TiltBox,
            CheatState { washroom_hint_shown: true, ..st },
            regs,
        )
    } else {
        online_step(st, host, msg, regs)
    }
}

#[verifier::opaque]
pub open spec fn online_step(st: CheatState, host: Host, msg: Message, regs: Regs) -> Step {
    if host.mimi is Some {
        let at = CheatState { login: menu_seen(st.login, msg, regs), ..st };
        if msg.class == Class::MainMenuScene && msg.sel == Sel::OnButtonChangeIDSelected
            && st.login.pkt_sent {
            asking(Task::ReadChangeIdGuard { scene: regs.r0 }, Stage::ChangeId, at, regs)
        } else {
            reply_step(at, host, msg, regs)
        }
    } else {
        island_step(st, host, msg, regs)
    }
}

#[verifier::opaque]
pub open spec fn change_id_step(st: CheatState, host: Host, msg: Message, regs: Regs, found: Answer) -> Step {
    let (flow, login) = change_id_reply(st.login, host, regs, found);
    let at = CheatState { login, ..st };
    match flow {
        Some(f) => step(f, at, regs),
        None => reply_step(at, host, msg, regs),
    }
}

#[verifier::opaque]
pub open spec fn reply_step(st: CheatState, host: Host, msg: Message, regs: Regs) -> Step {
    if looks_at_reply(st.login, host, msg, regs) {
        asking(Task::ReadReplyHeader { header: regs.r2 }, Stage::ReplyHeader, st, regs)
    } else {
        login_step(st, host, msg, regs)
    }
}

/// The state of a login that starts in this frame: the village is sent to the
/// server from now on.
pub open spec fn login_started(st: CheatState, mimi: u32) -> CheatState {
    if !st.login.armed && booted(st.login, mimi).armed {
        CheatState { cheats: Cheats { map_sync: true, patches_dirty: true, ..st.cheats }, ..st }
    } else {
        st
    }
}

pub open spec fn is_frame(sel: Sel) -> bool {
    sel == Sel::DrawScene || sel == Sel::MainLoop
}

#[verifier::opaque]
pub open spec fn login_step(st: CheatState, host: Host, msg: Message, regs: Regs) -> Step {
    match host.mimi {
        None => island_step(st, host, msg, regs),
        Some(mimi) => if is_frame(msg.sel) {
            let (flow, login) = frame_reply(st.login, host, mimi);
            in_frame(flow, CheatState { login, ..login_started(st, mimi) }, host, msg, regs)
        } else {
            let (flow, login, after) = online_reply(st.login, host, mimi, msg, regs);
            in_frame(flow, CheatState { login, ..st }, host, msg, after)
        },
    }
}

/// The flow where there is one, otherwise on to the island.
pub open spec fn in_frame(flow: Option<Flow>, st: CheatState, host: Host, msg: Message, regs: Regs) -> Step {
    match flow {
        Some(f) => step(f, st, regs),
        None => island_step(st, host, msg, regs),
    }
}

/// A part of the frame's work on the login, then on to the island.
pub open spec fn frame_step(
    part: (Option<Flow>, LoginState),
    st: CheatState,
    host: Host,
    msg: Message,
    regs: Regs,
) -> Step {
    in_frame(part.0, CheatState { login: part.1, ..st }, host, msg, regs)
}

#[verifier::opaque]
pub open spec fn island_step(st: CheatState, host: Host, msg: Message, regs: Regs) -> Step {
    let enabled = st.cheats.has(CheatKey::EnableNewsceneIsland);
    if msg.sel == Sel::MoleIslandTick && !enabled {
        step(
            Flow::Handled,
            CheatState { island: IslandState { tick_running: false, ..st.island }, ..st },
            regs,
        )
    } else if msg.class == Class::NewSceneTimer && msg.sel == Sel::GetCurrentServerTime
        && !host.network {
        step(Flow::Handled, st, Regs { r0: host.server_time, ..regs })
    } else if enabled {
        island_frame_step(st, host, msg, regs)
    } else {
        cheats_step(st, host, msg, regs)
    }
}

/// The state after a drawn frame, as far as the watch over frames goes.
pub open spec fn frame_watched(st: CheatState) -> CheatState {
    CheatState {
        watchdog: Watchdog {
            frame: if st.watchdog.frame == u64::MAX {
                0
            } else {
                (st.watchdog.frame + 1) as u64
            },
            ..st.watchdog
        },
        ..st
    }
}

pub open spec fn island_frame_step(st: CheatState, host: Host, msg: Message, regs: Regs) -> Step {
    if is_frame(msg.sel) {
        let counted = frame_counted(st.island);
        let looks = msg.sel == Sel::DrawScene && watches_scene(counted);
        if looks && counted.scene_mgr != 0 {
            asking(
                Task::ReadWord { at: offset_by(counted.scene_mgr, 12) },
                Stage::SceneSeen,
                CheatState { island: counted, ..frame_watched(st) },
                regs,
            )
        } else {
            island_calls_step(
                CheatState {
                    island: if looks {
                        scene_seen(counted, -1i32)
                    } else {
                        counted
                    },
                    ..frame_watched(st)
                },
                host,
                msg,
                regs,
            )
        }
    } else {
        island_calls_step(st, host, msg, regs)
    }
}

#[verifier::opaque]
pub open spec fn island_calls_step(st: CheatState, host: Host, msg: Message, regs: Regs) -> Step {
    match call_reply(st.island, msg, regs) {
        Some(f) => step(f, st, regs),
        None => island_flags_step(st, host, msg, regs),
    }
}

#[verifier::opaque]
pub open spec fn island_flags_step(st: CheatState, host: Host, msg: Message, regs: Regs) -> Step {
    let (flow, island, after) = flags_reply(st.island, msg, regs, host.clock);
    let at = CheatState { island, ..st };
    match flow {
        Some(f) => step(f, at, after),
        None => cheats_step(at, host, msg, after),
    }
}

#[verifier::opaque]
pub open spec fn cheats_step(st: CheatState, host: Host, msg: Message, regs: Regs) -> Step {
    let (flow, after) = cheat_reply(st, host, msg, regs);
    step(flow, st, after)
}

/// The message is answered with a word.
pub open spec fn answered(v: u32, st: CheatState, regs: Regs) -> Step {
    step(Flow::Handled, st, Regs { r0: v, ..regs })
}

/// What a frame's work on the login comes to that goes on at a stage.
#[verifier::opaque]
pub open spec fn frame_resumed(
    st: CheatState,
    host: Host,
    msg: Message,
    regs: Regs,
    stage: Stage,
    found: Answer,
) -> Step {
    match stage {
        Stage::FrameLoad => frame_step(frame_load_reply(st.login, host), st, host, msg, regs),
        Stage::FrameStreams => frame_step(frame_streams_reply(st.login, host), st, host, msg, regs),
        Stage::FramePassport => frame_step(
            frame_passport_reply(st.login, host),
            st,
            host,
            msg,
            regs,
        ),
        Stage::FrameHud => frame_step(frame_hud_reply(st.login, host), st, host, msg, regs),
        Stage::FrameUpload => frame_step(frame_upload_reply(st.login), st, host, msg, regs),
        Stage::FrameLogin => frame_step(frame_login_reply(st.login), st, host, msg, regs),
        Stage::FrameRefused => frame_step(frame_refused_reply(st.login), st, host, msg, regs),
        _ => frame_step(
            frame_box_reply(st.login, found.is_yes()),
            st,
            host,
            msg,
            regs,
        ),
    }
}

/// What a change of the stay comes to that goes on at a stage.
pub open spec fn session_resumed(isl: IslandState, regs: Regs, stage: Stage, found: Answer) -> (
    Flow,
    IslandState,
) {
    match stage {
        Stage::TickTail => tick_tail(isl),
        Stage::LeftIsland => (Flow::Forward, left(isl, regs.r0)),
        Stage::Dirtied => (Flow::Handled, isl.marked_dirty()),
        Stage::EntryGates => {
            let (mode, busy) = gates_of(found);
            (Flow::Forward, entry_checked(isl, mode, busy))
        },
        _ => (Flow::Handled, IslandState { gate1_hit: true, ..isl }),
    }
}

/// What a hook on the island comes to that goes on at a stage.
#[verifier::opaque]
pub open spec fn island_resumed(
    st: CheatState,
    host: Host,
    msg: Message,
    regs: Regs,
    stage: Stage,
    found: Answer,
) -> Step {
    match stage {
        Stage::SceneSeen => island_calls_step(
            CheatState { island: scene_seen(st.island, signed(found.number())), ..st },
            host,
            msg,
            regs,
        ),
        Stage::Hire => match hire_reply(signed(regs.r2), signed(found.number())) {
            Some(f) => step(f, st, regs),
            None => island_flags_step(st, host, msg, regs),
        },
        Stage::LoadingStep => if signed(found.number()) >= 2 {
            asking(
                Task::ClearByte { at: offset_by(regs.r0, 0xc) },
                Stage::IslandFlags,
                st,
                regs,
            )
        } else {
            island_flags_step(st, host, msg, regs)
        },
        Stage::IslandFlags => island_flags_step(st, host, msg, regs),
        Stage::SceneId => match forced_scene(signed(found.number())) {
            Some(v) => answered(v, st, regs),
            None => cheats_step(st, host, msg, regs),
        },
        Stage::MoleLimit => if found.number() < WORKER_LIMIT {
            answered(WORKER_LIMIT, st, regs)
        } else {
            cheats_step(st, host, msg, regs)
        },
        _ => {
            let (flow, island) = session_resumed(st.island, regs, stage, found);
            step(flow, CheatState { island, ..st }, regs)
        },
    }
}

/// What the first hooks come to that go on at a stage.
#[verifier::opaque]
pub open spec fn begin_resumed(
    st: CheatState,
    host: Host,
    msg: Message,
    regs: Regs,
    stage: Stage,
    found: Answer,
) -> Step {
    match stage {
        Stage::Display => display_step(st, host, msg, regs),
        Stage::WinSize => win_size_step(st, host, msg, regs, found),
        Stage::AddChild => add_child_step(st, host, msg, regs),
        Stage::Modules => asking(Task::AskModules, Stage::AfterModules, st, regs),
        Stage::AfterModules => match found {
            Answer::Flag(true) => step(Flow::Handled, st, regs),
            Answer::Flag(false) => step(Flow::Forward, st, regs),
            _ => main_step(st, host, msg, regs),
        },
        Stage::WeiboBox => if found.is_yes() {
            answered(0, st, regs)
        } else {
            tilt_step(st, host, msg, regs)
        },
        _ => if found.is_yes() {
            answered(0, st, regs)
        } else {
            online_step(st, host, msg, regs)
        },
    }
}

/// What a hook on the login comes to that goes on at a stage.
#[verifier::opaque]
pub open spec fn login_resumed(
    st: CheatState,
    host: Host,
    msg: Message,
    regs: Regs,
    stage: Stage,
    found: Answer,
) -> Step {
    match stage {
        Stage::ChangeId => change_id_step(st, host, msg, regs, found),
        Stage::AccountBox => if found.is_yes() {
            answered(0, st, regs)
        } else {
            reply_step(st, host, msg, regs)
        },
        Stage::ReplyHeader => login_step(
            CheatState { login: reply_seen(st.login, found), ..st },
            host,
            msg,
            regs,
        ),
        Stage::ParsedReply | Stage::FetchedReply => match found {
            Answer::Word(w) => answered(w, st, regs),
            _ => island_step(st, host, msg, regs),
        },
        _ => if found.is_yes() {
            step(Flow::Handled, st, regs)
        } else {
            island_step(st, host, msg, regs)
        },
    }
}

/// What a hook comes to that goes on at a stage, after its task found
/// something.
pub open spec fn resumed(
    st: CheatState,
    host: Host,
    msg: Message,
    regs: Regs,
    stage: Stage,
    found: Answer,
) -> Step {
    match stage {
        Stage::Forward => step(Flow::Forward, st, regs),
        Stage::Finish => step(Flow::Handled, st, regs),
        Stage::FinishZero => answered(0, st, regs),
        Stage::FinishWord => answered(found.number(), st, regs),
        Stage::Display
        | Stage::WinSize
        | Stage::AddChild
        | Stage::Modules
        | Stage::AfterModules
        | Stage::WeiboBox
        | Stage::TiltBox => begin_resumed(st, host, msg, regs, stage, found),
        Stage::ChangeId
        | Stage::AccountBox
        | Stage::ReplyHeader
        | Stage::ParsedReply
        | Stage::FetchedReply
        | Stage::ProxiedRequest => login_resumed(st, host, msg, regs, stage, found),
        Stage::FrameLoad
        | Stage::FrameStreams
        | Stage::FramePassport
        | Stage::FrameHud
        | Stage::FrameUpload
        | Stage::FrameLogin
        | Stage::FrameRefused
        | Stage::FrameBox => frame_resumed(st, host, msg, regs, stage, found),
        Stage::Island => island_step(st, host, msg, regs),
        Stage::Hired { before } => step(
            Flow::Forward,
            st,
            Regs { r2: word_of(before), ..regs },
        ),
        Stage::MapExtend => answered(shown_areas(found), st, regs),
        Stage::Gain => match found {
            Answer::Word(v) => answered(word_of(boosted(signed(v))), st, regs),
            _ => step(Flow::Forward, st, regs),
        },
        _ => island_resumed(st, host, msg, regs, stage, found),
    }
}

/// The mode of the village and whether a change of scene is under way; an
/// unknown mode is none that can be left.
pub open spec fn gates_of(found: Answer) -> (i32, bool) {
    match found {
        Answer::Pair(mode, busy) => (signed(mode), busy != 0),
        _ => (-1i32, false),
    }
}

// ---- the chain ----

/// Looks at a message from the beginning.
pub fn intercept(st: &mut CheatState, host: &Host, msg: Message, regs: &mut Regs) -> (r: Flow)
    ensures
        step(r, *final(st), *final(regs)) == intercept_step(*old(st), *host, msg, *old(regs)),
{
    if host.network {
        st.online_mode = true;
        let mut c = st.cheats;
        c.bits = c.bits & !(1u32 << 19u32);
        st.cheats = c;
    }
    if st.cheats.patches_dirty {
        st.cheats = Cheats { patches_dirty: false, ..st.cheats };
        return Flow::Perform(Task::ApplyPatches, Stage::Display);
    }
    display(st, host, msg, regs)
}

fn display(st: &mut CheatState, host: &Host, msg: Message, regs: &mut Regs) -> (r: Flow)
    ensures
        step(r, *final(st), *final(regs)) == display_step(*old(st), *host, msg, *old(regs)),
{
    proof {
        reveal(display_step);
    }
    if msg.sel == Sel::WinSize && st.winsize_stale {
        return Flow::Perform(Task::ReadWinSize { director: regs.r1 }, Stage::WinSize);
    }
    layout(st, host, msg, regs)
}

fn win_size(st: &mut CheatState, host: &Host, msg: Message, regs: &mut Regs, found: Answer) -> (r: Flow)
    ensures
        step(r, *final(st), *final(regs)) == win_size_step(
            *old(st),
            *host,
            msg,
            *old(regs),
            found,
        ),
{
    proof {
        reveal(win_size_step);
    }
    if let Answer::Pair(width, height) = found {
        let lr: u32 = regs.lr & !1u32;
        if host.ui43 && ui43_callsite(lr) {
            return Flow::ReturnSize { at: regs.r0, width: UI43_W_BITS, height: UI43_H_BITS };
        }
        return Flow::ReturnSize { at: regs.r0, width: height, height: width };
    }
    st.winsize_stale = false;
    layout(st, host, msg, regs)
}

fn layout(st: &mut CheatState, host: &Host, msg: Message, regs: &mut Regs) -> (r: Flow)
    ensures
        step(r, *final(st), *final(regs)) == layout_step(*old(st), *host, msg, *old(regs)),
{
    proof {
        reveal(layout_step);
    }
    if msg.sel == Sel::WinSize && host.ui43 {
        let lr: u32 = regs.lr & !1u32;
        if ui43_callsite(lr) {
            return Flow::ReturnSize { at: regs.r0, width: UI43_W_BITS, height: UI43_H_BITS };
        }
        return Flow::Forward;
    }
    if msg.sel == Sel::OnEnter && host.ui43 {
        return Flow::Perform(Task::CenterPanel { layer: regs.r0 }, Stage::Forward);
    }
    if msg.sel == Sel::AddChildZTag && host.widescreen {
        return Flow::Perform(Task::AlignBackground { child: regs.r2 }, Stage::AddChild);
    }
    add_child(st, host, msg, regs)
}

fn add_child(st: &mut CheatState, host: &Host, msg: Message, regs: &mut Regs) -> (r: Flow)
    ensures
        step(r, *final(st), *final(regs)) == add_child_step(*old(st), *host, msg, *old(regs)),
{
    proof {
        reveal(add_child_step);
    }
    if host.ui43 && (msg.sel == Sel::AddChild || msg.sel == Sel::AddChildZ || msg.sel
        == Sel::AddChildZTag) {
        return Flow::Perform(
            Task::StretchChild { parent: regs.r0, child: regs.r2 },
            Stage::Forward,
        );
    }
    if host.ui43 && msg.sel == Sel::AddSubview {
        return Flow::Perform(
            Task::MoveSubview { parent: regs.r0, child: regs.r2 },
            Stage::Forward,
        );
    }
    if !st.dev_startup_done {
        st.dev_startup_done = true;
        return Flow::Perform(Task::DevStartup, Stage::Modules);
    }
    Flow::Perform(Task::AskModules, Stage::AfterModules)
}

fn main_arms(st: &mut CheatState, host: &Host, msg: Message, regs: &mut Regs) -> (r: Flow)
    ensures
        step(r, *final(st), *final(regs)) == main_step(*old(st), *host, msg, *old(regs)),
{
    proof {
        reveal(main_step);
    }
    let class = msg.class;
    let sel = msg.sel;
    if sel == Sel::CheckPromptForLoadingNewApp || (class == Class::AdViewForMoleCart && (sel
        == Sel::ShowWithTargetSelector || sel == Sel::ShowWithTarget)) {
        return Flow::Handled;
    }
    if msg.more_game {
        return Flow::Handled;
    }
    if (class == Class::AutoPopZhongXinLayer || class == Class::ShowAdwallBoardLayer) && (sel
        == Sel::Open || sel == Sel::ShowLayer) {
        return Flow::Handled;
    }
    if class == Class::GameData && sel == Sel::LoadUserInfoData {
        return Flow::Perform(Task::GuardUserInfo { game_data: regs.r0 }, Stage::Forward);
    }
    if class == Class::GameDataCompareLayer && sel == Sel::CompareRemoteGameDataWithLocalOne
        && host.network {
        return Flow::Perform(Task::SyncUpgradePercent, Stage::Forward);
    }
    if class == Class::SharedInterfaceLayer && (sel == Sel::OnSharedToSinaWeibo || sel
        == Sel::OnSharedToSinaWeiboGetShareReward) && !host.network {
        return Flow::Perform(
            Task::ShowBox { text: BoxText::NoConnection, target: 0 },
            Stage::WeiboBox,
        );
    }
    tilt(st, host, msg, regs)
}

fn tilt(st: &mut CheatState, host: &Host, msg: Message, regs: &mut Regs) -> (r: Flow)
    ensures
        step(r, *final(st), *final(regs)) == tilt_step(*old(st), *host, msg, *old(regs)),
{
    proof {
        reveal(tilt_step);
    }
    if msg.class == Class::WashRoomLevelChoose && msg.sel == Sel::StartGame && host.desktop
        && !st.washroom_hint_shown {
        st.washroom_hint_shown = true;
        return Flow::Perform(
            Task::ShowBox { text: BoxText::TiltHint, target: regs.r0 },
            Stage::TiltBox,
        );
    }
    online(st, host, msg, regs)
}

fn online(st: &mut CheatState, host: &Host, msg: Message, regs: &mut Regs) -> (r: Flow)
    ensures
        step(r, *final(st), *final(regs)) == online_step(*old(st), *host, msg, *old(regs)),
{
    proof {
        reveal(online_step);
    }
    if host.mimi.is_none() {
        return island(st, host, msg, regs);
    }
    let mut login = st.login;
    let flow = online_begin(&mut login, msg, regs);
    st.login = login;
    match flow {
        Some(f) => f,
        None => reply(st, host, msg, regs),
    }
}

fn change_id(st: &mut CheatState, host: &Host, msg: Message, regs: &mut Regs, found: Answer) -> (r: Flow)
    ensures
        step(r, *final(st), *final(regs)) == change_id_step(
            *old(st),
            *host,
            msg,
            *old(regs),
            found,
        ),
{
    proof {
        reveal(change_id_step);
    }
    let mut login = st.login;
    let flow = online_change_id(&mut login, host, regs, found);
    st.login = login;
    match flow {
        Some(f) => f,
        None => reply(st, host, msg, regs),
    }
}

fn reply(st: &mut CheatState, host: &Host, msg: Message, regs: &mut Regs) -> (r: Flow)
    ensures
        step(r, *final(st), *final(regs)) == reply_step(*old(st), *host, msg, *old(regs)),
{
    proof {
        reveal(reply_step);
    }
    if msg.class == Class::MainMenuScene && msg.sel == Sel::OnLoginMainMenuCommandReceived
        && !host.account_menu && !st.login.hints.refused_shown {
        let header: u32 = regs.r2;
        if header != 0 {
            return Flow::Perform(Task::ReadReplyHeader { header }, Stage::ReplyHeader);
        }
    }
    log_in(st, host, msg, regs)
}

fn log_in(st: &mut CheatState, host: &Host, msg: Message, regs: &mut Regs) -> (r: Flow)
    ensures
        step(r, *final(st), *final(regs)) == login_step(*old(st), *host, msg, *old(regs)),
{
    proof {
        reveal(login_step);
    }
    let mimi: u32 = match host.mimi {
        Some(m) => m,
        None => {
            return island(st, host, msg, regs);
        },
    };
    let mut login = st.login;
    let flow = if msg.sel == Sel::DrawScene || msg.sel == Sel::MainLoop {
        let was_armed = login.armed;
        let flow = frame_start(&mut login, host, mimi);
        if !was_armed && login.armed {
            st.cheats = Cheats { map_sync: true, patches_dirty: true, ..st.cheats };
        }
        flow
    } else {
        online_arms(&mut login, host, mimi, msg, regs)
    };
    st.login = login;
    match flow {
        Some(f) => f,
        None => island(st, host, msg, regs),
    }
}

fn island(st: &mut CheatState, host: &Host, msg: Message, regs: &mut Regs) -> (r: Flow)
    ensures
        step(r, *final(st), *final(regs)) == island_step(*old(st), *host, msg, *old(regs)),
{
    proof {
        reveal(island_step);
        reveal(cheats_step);
    }
    let enabled = st.cheats.on(CheatKey::EnableNewsceneIsland);
    if msg.sel == Sel::MoleIslandTick && !enabled {
        st.island = IslandState { tick_running: false, ..st.island };
        return Flow::Handled;
    }
    if msg.class == Class::NewSceneTimer && msg.sel == Sel::GetCurrentServerTime && !host.network {
        regs.r0 = host.server_time;
        return Flow::Handled;
    }
    if !enabled {
        return cheat_arms(st, host, msg, regs);
    }
    if msg.sel == Sel::DrawScene || msg.sel == Sel::MainLoop {
        watchdog_frame(st);
        let mut isl = st.island;
        let task = island_frame(&mut isl, msg.sel == Sel::DrawScene);
        st.island = isl;
        if let Some(t) = task {
            return Flow::Perform(t, Stage::SceneSeen);
        }
    }
    island_main(st, host, msg, regs)
}

fn island_main(st: &mut CheatState, host: &Host, msg: Message, regs: &mut Regs) -> (r: Flow)
    ensures
        step(r, *final(st), *final(regs)) == island_calls_step(*old(st), *host, msg, *old(regs)),
{
    proof {
        reveal(island_calls_step);
    }
    match island_calls(&st.island, msg, regs) {
        Some(f) => f,
        None => island_rest(st, host, msg, regs),
    }
}

fn island_rest(st: &mut CheatState, host: &Host, msg: Message, regs: &mut Regs) -> (r: Flow)
    ensures
        step(r, *final(st), *final(regs)) == island_flags_step(*old(st), *host, msg, *old(regs)),
{
    proof {
        reveal(island_flags_step);
        reveal(cheats_step);
    }
    let mut isl = st.island;
    let flow = island_flags(&mut isl, msg, regs, host.clock);
    st.island = isl;
    match flow {
        Some(f) => f,
        None => cheat_arms(st, host, msg, regs),
    }
}

/// The stages of a frame's work on the login.
pub open spec fn is_frame_stage(stage: Stage) -> bool {
    stage == Stage::FrameLoad || stage == Stage::FrameStreams || stage == Stage::FramePassport
        || stage == Stage::FrameHud || stage == Stage::FrameUpload || stage == Stage::FrameLogin
        || stage == Stage::FrameRefused || stage == Stage::FrameBox
}

fn resume_frame(
    st: &mut CheatState,
    host: &Host,
    msg: Message,
    regs: &mut Regs,
    stage: Stage,
    found: Answer,
) -> (r: Flow)
    requires
        is_frame_stage(stage),
    ensures
        step(r, *final(st), *final(regs)) == frame_resumed(
            *old(st),
            *host,
            msg,
            *old(regs),
            stage,
            found,
        ),
{
    proof {
        reveal(frame_resumed);
    }
    let mut login = st.login;
    let flow = match stage {
        Stage::FrameLoad => frame_load(&mut login, host),
        Stage::FrameStreams => frame_streams(&mut login, host),
        Stage::FramePassport => frame_passport(&mut login, host),
        Stage::FrameHud => frame_hud(&mut login, host),
        Stage::FrameUpload => frame_upload(&mut login),
        Stage::FrameLogin => frame_login(&mut login),
        Stage::FrameRefused => frame_refused(&login),
        _ => frame_box(&mut login, found.yes()),
    };
    st.login = login;
    match flow {
        Some(f) => f,
        None => island(st, host, msg, regs),
    }
}

/// The stages on the island.
pub open spec fn is_island_stage(stage: Stage) -> bool {
    stage == Stage::SceneSeen || stage == Stage::Hire || stage == Stage::LoadingStep || stage
        == Stage::IslandFlags || stage == Stage::TickTail || stage == Stage::LeftIsland || stage
        == Stage::SceneId || stage == Stage::MoleLimit || stage == Stage::Dirtied || stage
        == Stage::EntryGates || stage == Stage::EntryScheduled
}

fn resume_session(isl: &mut IslandState, regs: &Regs, stage: Stage, found: Answer) -> (r: Flow)
    ensures
        (r, *final(isl)) == session_resumed(*old(isl), *regs, stage, found),
{
    match stage {
        Stage::TickTail => island_tick_tail(isl),
        Stage::LeftIsland => {
            island_left(isl, regs.r0);
            Flow::Forward
        },
        Stage::Dirtied => {
            isl.island_mark_dirty();
            Flow::Handled
        },
        Stage::EntryGates => {
            match found {
                Answer::Pair(mode, busy) => island_entry_gates(isl, to_signed(mode), busy != 0),
                _ => island_entry_gates(isl, -1, false),
            }
            Flow::Forward
        },
        _ => {
            isl.gate1_hit = true;
            Flow::Handled
        },
    }
}

fn resume_island(
    st: &mut CheatState,
    host: &Host,
    msg: Message,
    regs: &mut Regs,
    stage: Stage,
    found: Answer,
) -> (r: Flow)
    requires
        is_island_stage(stage),
    ensures
        step(r, *final(st), *final(regs)) == island_resumed(
            *old(st),
            *host,
            msg,
            *old(regs),
            stage,
            found,
        ),
{
    proof {
        reveal(island_resumed);
        reveal(cheats_step);
    }
    let word: u32 = found.word();
    match stage {
        Stage::SceneSeen => {
            let mut isl = st.island;
            island_scene_seen(&mut isl, to_signed(word));
            st.island = isl;
            island_main(st, host, msg, regs)
        },
        Stage::Hire => match island_hire(to_signed(regs.r2), to_signed(word)) {
            Some(f) => f,
            None => island_rest(st, host, msg, regs),
        },
        Stage::LoadingStep => {
            if to_signed(word) >= 2 {
                let at: u32 = at_offset(regs.r0, 0xc);
                return Flow::Perform(Task::ClearByte { at }, Stage::IslandFlags);
            }
            island_rest(st, host, msg, regs)
        },
        Stage::IslandFlags => island_rest(st, host, msg, regs),
        Stage::SceneId => match island_scene_id(to_signed(word)) {
            Some(v) => {
                regs.r0 = v;
                Flow::Handled
            },
            None => cheat_arms(st, host, msg, regs),
        },
        Stage::MoleLimit => {
            if word < WORKER_LIMIT {
                regs.r0 = WORKER_LIMIT;
                return Flow::Handled;
            }
            cheat_arms(st, host, msg, regs)
        },
        _ => {
            let mut isl = st.island;
            let flow = resume_session(&mut isl, regs, stage, found);
            st.island = isl;
            flow
        },
    }
}

/// The stages before the login.
pub open spec fn is_begin_stage(stage: Stage) -> bool {
    stage == Stage::Display
        || stage == Stage::WinSize
        || stage == Stage::AddChild
        || stage == Stage::Modules
        || stage == Stage::AfterModules
        || stage == Stage::WeiboBox
        || stage == Stage::TiltBox
}

fn resume_begin(
    st: &mut CheatState,
    host: &Host,
    msg: Message,
    regs: &mut Regs,
    stage: Stage,
    found: Answer,
) -> (r: Flow)
    requires
        is_begin_stage(stage),
    ensures
        step(r, *final(st), *final(regs)) == begin_resumed(
            *old(st),
            *host,
            msg,
            *old(regs),
            stage,
            found,
        ),
{
    proof {
        reveal(begin_resumed);
    }
    match stage {
        Stage::Display => display(st, host, msg, regs),
        Stage::WinSize => win_size(st, host, msg, regs, found),
        Stage::AddChild => add_child(st, host, msg, regs),
        Stage::Modules => Flow::Perform(Task::AskModules, Stage::AfterModules),
        Stage::AfterModules => match found {
            Answer::Flag(true) => Flow::Handled,
            Answer::Flag(false) => Flow::Forward,
            _ => main_arms(st, host, msg, regs),
        },
        Stage::WeiboBox => {
            if found.yes() {
                regs.r0 = 0;
                return Flow::Handled;
            }
            tilt(st, host, msg, regs)
        },
        _ => {
            if found.yes() {
                regs.r0 = 0;
                return Flow::Handled;
            }
            online(st, host, msg, regs)
        },
    }
}

/// The stages of the login.
pub open spec fn is_login_stage(stage: Stage) -> bool {
    stage == Stage::ChangeId || stage == Stage::AccountBox || stage == Stage::ReplyHeader || stage
        == Stage::ParsedReply || stage == Stage::FetchedReply || stage == Stage::ProxiedRequest
}

fn resume_login(
    st: &mut CheatState,
    host: &Host,
    msg: Message,
    regs: &mut Regs,
    stage: Stage,
    found: Answer,
) -> (r: Flow)
    requires
        is_login_stage(stage),
    ensures
        step(r, *final(st), *final(regs)) == login_resumed(
            *old(st),
            *host,
            msg,
            *old(regs),
            stage,
            found,
        ),
{
    proof {
        reveal(login_resumed);
    }
    match stage {
        Stage::ChangeId => change_id(st, host, msg, regs, found),
        Stage::AccountBox => {
            if found.yes() {
                regs.r0 = 0;
                return Flow::Handled;
            }
            reply(st, host, msg, regs)
        },
        Stage::ReplyHeader => {
            let mut login = st.login;
            online_reply_seen(&mut login, found);
            st.login = login;
            log_in(st, host, msg, regs)
        },
        Stage::ParsedReply | Stage::FetchedReply => match found {
            Answer::Word(w) => {
                regs.r0 = w;
                Flow::Handled
            },
            _ => island(st, host, msg, regs),
        },
        _ => {
            if found.yes() {
                return Flow::Handled;
            }
            island(st, host, msg, regs)
        },
    }
}

/// Goes on with a message after a task was done. `found` is what the task
/// found; `regs` are the registers, kept over the task.
pub fn resume(
    st: &mut CheatState,
    host: &Host,
    msg: Message,
    regs: &mut Regs,
    stage: Stage,
    found: Answer,
) -> (r: Flow)
    ensures
        step(r, *final(st), *final(regs)) == resumed(
            *old(st),
            *host,
            msg,
            *old(regs),
            stage,
            found,
        ),
{
    match stage {
        Stage::Forward => Flow::Forward,
        Stage::Finish => Flow::Handled,
        Stage::FinishZero => {
            regs.r0 = 0;
            Flow::Handled
        },
        Stage::FinishWord => {
            regs.r0 = found.word();
            Flow::Handled
        },
        Stage::Display
        | Stage::WinSize
        | Stage::AddChild
        | Stage::Modules
        | Stage::AfterModules
        | Stage::WeiboBox
        | Stage::TiltBox => resume_begin(st, host, msg, regs, stage, found),
        Stage::ChangeId
        | Stage::AccountBox
        | Stage::ReplyHeader
        | Stage::ParsedReply
        | Stage::FetchedReply
        | Stage::ProxiedRequest => resume_login(st, host, msg, regs, stage, found),
        Stage::Island => island(st, host, msg, regs),
        Stage::Hired { before } => {
            regs.r2 = to_word(before);
            Flow::Forward
        },
        Stage::MapExtend => finish_map_extend(found, regs),
        Stage::Gain => finish_gain(found, regs),
        Stage::FrameLoad
        | Stage::FrameStreams
        | Stage::FramePassport
        | Stage::FrameHud
        | Stage::FrameUpload
        | Stage::FrameLogin
        | Stage::FrameRefused
        | Stage::FrameBox => resume_frame(st, host, msg, regs, stage, found),
        _ => resume_island(st, host, msg, regs, stage, found),
    }
}

// ---- laws ----

proof fn lemma_unwanted_cheats(st: CheatState, host: Host, msg: Message, regs: Regs)
    requires
        !wanted(st, host, msg, false),
    ensures
        cheats_step(st, host, msg, regs) == step(Flow::Forward, st, regs),
{
    reveal(cheats_step);
}

proof fn lemma_unwanted_island(st: CheatState, host: Host, msg: Message, regs: Regs)
    requires
        !wanted(st, host, msg, false),
    ensures
        island_step(st, host, msg, regs) == step(Flow::Forward, st, regs),
{
    reveal(island_step);
    reveal(island_calls_step);
    reveal(island_flags_step);
    reveal(gate_reply);
    reveal(entry_reply);
    lemma_unwanted_cheats(st, host, msg, regs);
}

proof fn lemma_unwanted_online(st: CheatState, host: Host, msg: Message, regs: Regs)
    requires
        !wanted(st, host, msg, false),
    ensures
        online_step(st, host, msg, regs) == step(Flow::Forward, st, regs),
{
    reveal(online_step);
    reveal(reply_step);
    reveal(login_step);
    reveal(online_reply);
    lemma_unwanted_island(st, host, msg, regs);
}

/// A message that is not wanted is not concerned by any hook: the chain leads
/// past the layout hooks to the other modules, and where none of them takes
/// it, the message goes to the game with nothing changed. The one exception
/// are selectors of the advertising board that are not listed.
pub proof fn law_unwanted_is_untouched(st: CheatState, host: Host, msg: Message, regs: Regs)
    requires
        !wanted(st, host, msg, false),
        !msg.more_game,
    ensures
        display_step(st, host, msg, regs) == modules_step(st, regs),
        main_step(st, host, msg, regs) == step(Flow::Forward, st, regs),
{
    reveal(display_step);
    reveal(layout_step);
    reveal(add_child_step);
    reveal(main_step);
    reveal(tilt_step);
    lemma_unwanted_online(st, host, msg, regs);
}

/// Online, the offline island is off after the first message, whatever the
/// switch says.
pub proof fn law_online_island_is_off(st: CheatState, host: Host)
    requires
        host.network,
    ensures
        mode_noted(st, host.network).online_mode,
        !mode_noted(st, host.network).cheats.has(CheatKey::EnableNewsceneIsland),
{
    let bits = st.cheats.bits;
    assert((bits & !(1u32 << 19u32)) & (1u32 << 19u32) == 0) by (bit_vector);
}

/// Advertisements never come on screen, whatever the state.
pub proof fn law_no_advertising(st: CheatState, host: Host, msg: Message, regs: Regs)
    requires
        is_advertising(msg),
    ensures
        main_step(st, host, msg, regs) == step(Flow::Handled, st, regs),
{
    reveal(main_step);
}

proof fn lemma_island_keeps_login(st: CheatState, host: Host, msg: Message, regs: Regs)
    ensures
        island_step(st, host, msg, regs).st.login == st.login,
{
    reveal(island_step);
    reveal(island_calls_step);
    reveal(island_flags_step);
    reveal(cheats_step);
}

/// Without an account to log in with, the login takes no part: every message
/// goes on to the island, and the state of the connection stays as it is.
pub proof fn law_offline_has_no_login(st: CheatState, host: Host, msg: Message, regs: Regs)
    requires
        host.mimi is None,
    ensures
        online_step(st, host, msg, regs) == island_step(st, host, msg, regs),
        online_step(st, host, msg, regs).st.login == st.login,
{
    reveal(online_step);
    lemma_island_keeps_login(st, host, msg, regs);
}

/// What every step leaves alone: whether the game is online, the switches, the
/// marks of the login and, unless the message is answered, the registers of
/// its receiver.
pub open spec fn steady(st: CheatState, regs: Regs, s: Step) -> bool {
    &&& s.st.online_mode == st.online_mode
    &&& s.st.cheats.bits == st.cheats.bits
    &&& marks_kept(st.login, s.st.login)
    &&& s.flow is Forward || s.flow is Perform ==> s.regs.r0 == regs.r0 && s.regs.r1 == regs.r1
}

proof fn lemma_cheats_steady(st: CheatState, host: Host, msg: Message, regs: Regs)
    ensures
        steady(st, regs, cheats_step(st, host, msg, regs)),
{
    reveal(cheats_step);
    reveal(amount_reply);
}

proof fn lemma_flags_steady(st: CheatState, host: Host, msg: Message, regs: Regs)
    ensures
        steady(st, regs, island_flags_step(st, host, msg, regs)),
{
    reveal(island_flags_step);
    reveal(gate_reply);
    reveal(entry_reply);
    let (_, island, after) = flags_reply(st.island, msg, regs, host.clock);
    lemma_cheats_steady(CheatState { island, ..st }, host, msg, after);
}

proof fn lemma_calls_steady(st: CheatState, host: Host, msg: Message, regs: Regs)
    ensures
        steady(st, regs, island_calls_step(st, host, msg, regs)),
{
    reveal(island_calls_step);
    lemma_flags_steady(st, host, msg, regs);
}

proof fn lemma_island_steady(st: CheatState, host: Host, msg: Message, regs: Regs)
    ensures
        steady(st, regs, island_step(st, host, msg, regs)),
{
    reveal(island_step);
    let counted = frame_counted(st.island);
    let watched = frame_watched(st);
    lemma_calls_steady(CheatState { island: counted, ..watched }, host, msg, regs);
    lemma_calls_steady(CheatState { island: scene_seen(counted, -1i32), ..watched }, host, msg, regs);
    lemma_calls_steady(st, host, msg, regs);
    lemma_cheats_steady(st, host, msg, regs);
}

proof fn lemma_in_frame_steady(flow: Option<Flow>, st: CheatState, host: Host, msg: Message, regs: Regs)
    ensures
        steady(st, regs, in_frame(flow, st, host, msg, regs)),
{
    lemma_island_steady(st, host, msg, regs);
}

proof fn lemma_online_reply_steady(login: LoginState, host: Host, mimi: u32, msg: Message, regs: Regs)
    ensures
        ({
            let (flow, after, r) = online_reply(login, host, mimi, msg, regs);
            &&& marks_kept(login, after)
            &&& !(flow matches Some(Flow::Handled)) ==> r.r0 == regs.r0 && r.r1 == regs.r1
        }),
{
    reveal(online_reply);
}

proof fn lemma_login_steady(st: CheatState, host: Host, msg: Message, regs: Regs)
    ensures
        steady(st, regs, login_step(st, host, msg, regs)),
{
    reveal(login_step);
    match host.mimi {
        None => {
            lemma_island_steady(st, host, msg, regs);
        },
        Some(mimi) => {
            lemma_frame_keeps_marks(st.login, host, mimi, false);
            lemma_online_reply_steady(st.login, host, mimi, msg, regs);
            let (flow, login) = frame_reply(st.login, host, mimi);
            lemma_in_frame_steady(
                flow,
                CheatState { login, ..login_started(st, mimi) },
                host,
                msg,
                regs,
            );
            let (flow, login, after) = online_reply(st.login, host, mimi, msg, regs);
            lemma_in_frame_steady(flow, CheatState { login, ..st }, host, msg, after);
        },
    }
}

proof fn lemma_reply_steady(st: CheatState, host: Host, msg: Message, regs: Regs)
    ensures
        steady(st, regs, reply_step(st, host, msg, regs)),
{
    reveal(reply_step);
    lemma_login_steady(st, host, msg, regs);
}

proof fn lemma_online_steady(st: CheatState, host: Host, msg: Message, regs: Regs)
    ensures
        steady(st, regs, online_step(st, host, msg, regs)),
{
    reveal(online_step);
    let at = CheatState { login: menu_seen(st.login, msg, regs), ..st };
    lemma_reply_steady(at, host, msg, regs);
    lemma_island_steady(st, host, msg, regs);
}

proof fn lemma_main_steady(st: CheatState, host: Host, msg: Message, regs: Regs)
    ensures
        steady(st, regs, main_step(st, host, msg, regs)),
        steady(st, regs, tilt_step(st, host, msg, regs)),
{
    reveal(main_step);
    reveal(tilt_step);
    lemma_online_steady(st, host, msg, regs);
}

proof fn lemma_display_steady(st: CheatState, host: Host, msg: Message, regs: Regs, found: Answer)
    ensures
        steady(st, regs, display_step(st, host, msg, regs)),
        steady(st, regs, win_size_step(st, host, msg, regs, found)),
        steady(st, regs, add_child_step(st, host, msg, regs)),
{
    reveal(display_step);
    reveal(win_size_step);
    reveal(layout_step);
    reveal(add_child_step);
}

proof fn lemma_login_resumed_steady(
    st: CheatState,
    host: Host,
    msg: Message,
    regs: Regs,
    stage: Stage,
    found: Answer,
)
    ensures
        steady(st, regs, login_resumed(st, host, msg, regs, stage, found)),
{
    reveal(login_resumed);
    reveal(change_id_step);
    let (_, login) = change_id_reply(st.login, host, regs, found);
    lemma_reply_steady(CheatState { login, ..st }, host, msg, regs);
    lemma_reply_steady(st, host, msg, regs);
    lemma_login_steady(
        CheatState { login: reply_seen(st.login, found), ..st },
        host,
        msg,
        regs,
    );
    lemma_island_steady(st, host, msg, regs);
}

proof fn lemma_part_steady(
    part: (Option<Flow>, LoginState),
    st: CheatState,
    host: Host,
    msg: Message,
    regs: Regs,
)
    requires
        marks_kept(st.login, part.1),
    ensures
        steady(st, regs, frame_step(part, st, host, msg, regs)),
{
    lemma_in_frame_steady(part.0, CheatState { login: part.1, ..st }, host, msg, regs);
}

proof fn lemma_frame_resumed_steady(
    st: CheatState,
    host: Host,
    msg: Message,
    regs: Regs,
    stage: Stage,
    found: Answer,
)
    ensures
        steady(st, regs, frame_resumed(st, host, msg, regs, stage, found)),
{
    reveal(frame_resumed);
    lemma_frame_keeps_marks(st.login, host, 0, found.is_yes());
    match stage {
        Stage::FrameLoad => lemma_part_steady(frame_load_reply(st.login, host), st, host, msg, regs),
        Stage::FrameStreams => lemma_part_steady(
            frame_streams_reply(st.login, host),
            st,
            host,
            msg,
            regs,
        ),
        Stage::FramePassport => lemma_part_steady(
            frame_passport_reply(st.login, host),
            st,
            host,
            msg,
            regs,
        ),
        Stage::FrameHud => lemma_part_steady(frame_hud_reply(st.login, host), st, host, msg, regs),
        Stage::FrameUpload => lemma_part_steady(frame_upload_reply(st.login), st, host, msg, regs),
        Stage::FrameLogin => lemma_part_steady(frame_login_reply(st.login), st, host, msg, regs),
        Stage::FrameRefused => lemma_part_steady(frame_refused_reply(st.login), st, host, msg, regs),
        _ => lemma_part_steady(
            frame_box_reply(st.login, found.is_yes()),
            st,
            host,
            msg,
            regs,
        ),
    }
}

proof fn lemma_island_resumed_steady(
    st: CheatState,
    host: Host,
    msg: Message,
    regs: Regs,
    stage: Stage,
    found: Answer,
)
    ensures
        steady(st, regs, island_resumed(st, host, msg, regs, stage, found)),
{
    reveal(island_resumed);
    let seen = CheatState { island: scene_seen(st.island, signed(found.number())), ..st };
    lemma_calls_steady(seen, host, msg, regs);
    lemma_flags_steady(st, host, msg, regs);
    lemma_cheats_steady(st, host, msg, regs);
}

proof fn lemma_resumed_steady(
    st: CheatState,
    host: Host,
    msg: Message,
    regs: Regs,
    stage: Stage,
    found: Answer,
)
    ensures
        steady(st, regs, resumed(st, host, msg, regs, stage, found)),
{
    match stage {
        Stage::Display
        | Stage::WinSize
        | Stage::AddChild
        | Stage::Modules
        | Stage::AfterModules
        | Stage::WeiboBox
        | Stage::TiltBox => {
            reveal(begin_resumed);
            lemma_display_steady(st, host, msg, regs, found);
            lemma_main_steady(st, host, msg, regs);
            lemma_online_steady(st, host, msg, regs);
        },
        Stage::ChangeId
        | Stage::AccountBox
        | Stage::ReplyHeader
        | Stage::ParsedReply
        | Stage::FetchedReply
        | Stage::ProxiedRequest => lemma_login_resumed_steady(st, host, msg, regs, stage, found),
        Stage::FrameLoad
        | Stage::FrameStreams
        | Stage::FramePassport
        | Stage::FrameHud
        | Stage::FrameUpload
        | Stage::FrameLogin
        | Stage::FrameRefused
        | Stage::FrameBox => lemma_frame_resumed_steady(st, host, msg, regs, stage, found),
        Stage::Island => lemma_island_steady(st, host, msg, regs),
        Stage::Forward
        | Stage::Finish
        | Stage::FinishZero
        | Stage::FinishWord
        | Stage::Hired { .. }
        | Stage::MapExtend
        | Stage::Gain => {},
        _ => lemma_island_resumed_steady(st, host, msg, regs, stage, found),
    }
}

proof fn lemma_intercept_steady(st: CheatState, host: Host, msg: Message, regs: Regs)
    ensures
        steady(mode_noted(st, host.network), regs, intercept_step(st, host, msg, regs)),
{
    lemma_display_steady(mode_noted(st, host.network), host, msg, regs, Answer::Nothing);
}

/// Where a message stands after it was looked at and the tasks it asked for
/// were done. Each element of `done` is the state after a task, which the task
/// may have changed, and what the task found.
pub open spec fn carried_on(first: Step, host: Host, msg: Message, done: Seq<(CheatState, Answer)>) -> Step
    decreases done.len(),
{
    match first.flow {
        Flow::Perform(_, stage) if done.len() > 0 => carried_on(
            resumed(done[0].0, host, msg, first.regs, stage, done[0].1),
            host,
            msg,
            done.skip(1),
        ),
        _ => first,
    }
}

proof fn lemma_carried_on_keeps_receiver(
    first: Step,
    host: Host,
    msg: Message,
    done: Seq<(CheatState, Answer)>,
)
    ensures
        ({
            let last = carried_on(first, host, msg, done);
            last.flow is Forward || last.flow is Perform ==> last.regs.r0 == first.regs.r0
                && last.regs.r1 == first.regs.r1
        }),
    decreases done.len(),
{
    match first.flow {
        Flow::Perform(_, stage) => {
            if done.len() > 0 {
                let next = resumed(done[0].0, host, msg, first.regs, stage, done[0].1);
                lemma_resumed_steady(done[0].0, host, msg, first.regs, stage, done[0].1);
                lemma_carried_on_keeps_receiver(next, host, msg, done.skip(1));
            }
        },
        _ => {},
    }
}

/// A message that goes to the game goes to its own receiver: whatever tasks
/// were done and whatever they found, the registers `r0` and `r1` are those it
/// came with. Only arguments may have been changed.
pub proof fn law_receiver_is_kept(
    st: CheatState,
    host: Host,
    msg: Message,
    regs: Regs,
    done: Seq<(CheatState, Answer)>,
)
    ensures
        ({
            let last = carried_on(intercept_step(st, host, msg, regs), host, msg, done);
            last.flow is Forward ==> last.regs.r0 == regs.r0 && last.regs.r1 == regs.r1
        }),
{
    lemma_intercept_steady(st, host, msg, regs);
    lemma_carried_on_keeps_receiver(intercept_step(st, host, msg, regs), host, msg, done);
}

/// Looking at messages never touches the marks that the main menu was made to
/// connect and that the login was sent.
pub proof fn law_messages_keep_login_marks(
    st: CheatState,
    host: Host,
    msg: Message,
    regs: Regs,
    stage: Stage,
    found: Answer,
)
    ensures
        marks_kept(st.login, intercept_step(st, host, msg, regs).st.login),
        marks_kept(st.login, resumed(st, host, msg, regs, stage, found).st.login),
{
    lemma_intercept_steady(st, host, msg, regs);
    lemma_resumed_steady(st, host, msg, regs, stage, found);
}

/// What may happen to the switches and the mode.
pub enum Happening {
    /// A switch of the menu is used.
    Toggle(CheatKey),
    /// The island is made ready to be entered.
    Arm,
    /// A message is looked at.
    Look { host: Host, msg: Message, regs: Regs },
    /// A message is gone on with after a task.
    GoOn { host: Host, msg: Message, regs: Regs, stage: Stage, found: Answer },
}

/// The state after something happened.
pub open spec fn happened(st: CheatState, h: Happening) -> CheatState {
    match h {
        Happening::Toggle(key) => CheatState {
            cheats: toggled(st.cheats, st.online_mode, key),
            ..st
        },
        Happening::Arm => CheatState { cheats: armed(st.cheats, st.online_mode), ..st },
        Happening::Look { host, msg, regs } => intercept_step(st, host, msg, regs).st,
        Happening::GoOn { host, msg, regs, stage, found } => resumed(
            st,
            host,
            msg,
            regs,
            stage,
            found,
        ).st,
    }
}

/// The state after the first `n` of some things happened.
pub open spec fn happened_upto(st: CheatState, all: Seq<Happening>, n: int) -> CheatState
    decreases n,
{
    if n <= 0 {
        st
    } else {
        happened(happened_upto(st, all, n - 1), all[n - 1])
    }
}

/// The game is online and the offline island is off.
pub open spec fn online_and_off(st: CheatState) -> bool {
    st.online_mode && !st.cheats.has(CheatKey::EnableNewsceneIsland)
}

proof fn lemma_stays_off(st: CheatState, h: Happening)
    requires
        online_and_off(st),
    ensures
        online_and_off(happened(st, h)),
{
    match h {
        Happening::Toggle(key) => {
            if key != CheatKey::EnableNewsceneIsland {
                law_toggle_leaves_others(
                    st.cheats,
                    false,
                    key,
                    CheatKey::EnableNewsceneIsland,
                );
                assert(toggled(st.cheats, true, key) == toggled(st.cheats, false, key));
            }
        },
        Happening::Arm => {},
        Happening::Look { host, msg, regs } => {
            lemma_intercept_steady(st, host, msg, regs);
            if host.network {
                law_online_island_is_off(st, host);
            }
        },
        Happening::GoOn { host, msg, regs, stage, found } => {
            lemma_resumed_steady(st, host, msg, regs, stage, found);
        },
    }
}

/// Once a message was looked at online, the offline island is off and stays
/// off, whatever switches are used and whatever messages come.
pub proof fn law_online_island_stays_off(
    st: CheatState,
    host: Host,
    msg: Message,
    regs: Regs,
    all: Seq<Happening>,
    n: int,
)
    requires
        host.network,
        0 <= n <= all.len(),
    ensures
        ({
            let first = intercept_step(st, host, msg, regs).st;
            let last = happened_upto(first, all, n);
            &&& last.online_mode
            &&& !last.cheats.has(CheatKey::EnableNewsceneIsland)
            &&& !cheat_on(last.cheats, last.online_mode, CheatKey::EnableNewsceneIsland)
        }),
    decreases n,
{
    let first = intercept_step(st, host, msg, regs).st;
    lemma_intercept_steady(st, host, msg, regs);
    law_online_island_is_off(st, host);
    if n > 0 {
        law_online_island_stays_off(st, host, msg, regs, all, n - 1);
        lemma_stays_off(happened_upto(first, all, n - 1), all[n - 1]);
    }
}

/// No message changes a switch of the menu, a level that was chosen, or whether
/// the game is online; only the first look at one online turns the island off.
pub proof fn law_messages_keep_the_switches(
    st: CheatState,
    host: Host,
    msg: Message,
    regs: Regs,
    stage: Stage,
    found: Answer,
    key: CheatKey,
)
    ensures
        resumed(st, host, msg, regs, stage, found).st.cheats.has(key) == st.cheats.has(key),
        resumed(st, host, msg, regs, stage, found).st.online_mode == st.online_mode,
        !host.network ==> intercept_step(st, host, msg, regs).st.cheats.has(key) == st.cheats.has(
            key,
        ),
        key != CheatKey::EnableNewsceneIsland ==> intercept_step(
            st,
            host,
            msg,
            regs,
        ).st.cheats.has(key) == st.cheats.has(key),
{
    lemma_resumed_steady(st, host, msg, regs, stage, found);
    lemma_intercept_steady(st, host, msg, regs);
    let bits = st.cheats.bits;
    let i = key.bit();
    assert(i < 26);
    assert(i != 19 ==> ((bits & !(1u32 << 19u32)) & (1u32 << i) != 0) == (bits & (1u32 << i) != 0))
        by (bit_vector)
        requires
            i < 32,
    ;
}

} // verus!
