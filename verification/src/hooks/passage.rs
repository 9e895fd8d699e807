//! The way of a message through the hooks, for those that no other module
//! takes.

use vstd::prelude::*;
use crate::hooks::cheat_arms::cheat_reply;
use crate::cheats::CheatKey;
use crate::hooks::island_arms::{call_reply, entry_reply, flags_reply, gate_reply};
use crate::island::session::IslandState;
use crate::hooks::machine::{
    add_child_step, begin_resumed, cheats_step, display_step, intercept_step, island_calls_step,
    island_flags_step, island_step, layout_step, login_step, main_step, online_step, reply_step,
    resumed, tilt_step, Step,
};
use crate::hooks::online_arms::{menu_seen, online_reply};
use crate::hooks::types::{Answer, Flow, Host, Regs, Stage, Task};
use crate::names::{Class, Message, Sel};
use crate::state::CheatState;

verus! {

/// What becomes of a message that no other module takes, up to its first task.
pub open spec fn sent(st: CheatState, host: Host, msg: Message, regs: Regs) -> Step {
    resumed(st, host, msg, regs, Stage::AfterModules, Answer::Nothing)
}

/// Selectors about the layout of the screen.
pub open spec fn is_layout_sel(sel: Sel) -> bool {
    match sel {
        Sel::WinSize
        | Sel::OnEnter
        | Sel::AddChild
        | Sel::AddChildZ
        | Sel::AddChildZTag
        | Sel::AddSubview => true,
        _ => false,
    }
}

/// Selectors that only the switches, the level to show and the repair of the
/// save concern.
pub open spec fn is_switch_sel(sel: Sel) -> bool {
    match sel {
        Sel::IsHackData
        | Sel::ShowCheatWarningMessage
        | Sel::CheckUserinfoMd5
        | Sel::CheckUserInfoData
        | Sel::Check
        | Sel::Start
        | Sel::CheckIsVipUser
        | Sel::IsShowVIPFunctionsButton
        | Sel::VipLevelWithNewType
        | Sel::VipValue
        | Sel::CurLevel
        | Sel::GetLevel
        | Sel::MapExtend
        | Sel::IsUnlockedItem
        | Sel::CheckIsUnlockMusic
        | Sel::CheckRequiredVipLevel
        | Sel::GetLockType4Crop
        | Sel::GetLockType4CropWithId
        | Sel::GetLockType4Object
        | Sel::GetLockType4Gift
        | Sel::GetLockType4Decorate
        | Sel::TotalWorkers
        | Sel::AvailableWorkers
        | Sel::TotalRooms
        | Sel::GetXPSpeedUpObjectMultiple
        | Sel::GetGoldSpeedUpObjectMultiple
        | Sel::ShellsNeeded
        | Sel::GenerateRandomRewardId
        | Sel::GainCoin
        | Sel::GainXP
        | Sel::Unlocked
        | Sel::CheckInAlreadyUnlockList
        | Sel::AddGold
        | Sel::AddVipGold
        | Sel::AddXp
        | Sel::Innerupdate
        | Sel::GetMatureTime
        | Sel::GetWitherTime
        | Sel::CropWitherHandler
        | Sel::GetBuildTime
        | Sel::GetLastCooldownTime
        | Sel::GetCurLevelCoolTime
        | Sel::GetLastGameCoolTime
        | Sel::GetOutCoolTime
        | Sel::GetCurLevelCooltime
        | Sel::CheckCooltimeOver => true,
        _ => false,
    }
}

/// Selectors that the hooks before the login concern.
pub open spec fn is_early_sel(sel: Sel) -> bool {
    match sel {
        Sel::CheckPromptForLoadingNewApp
        | Sel::ShowWithTarget
        | Sel::ShowWithTargetSelector
        | Sel::Open
        | Sel::ShowLayer
        | Sel::LoadUserInfoData
        | Sel::CompareRemoteGameDataWithLocalOne
        | Sel::OnSharedToSinaWeibo
        | Sel::OnSharedToSinaWeiboGetShareReward
        | Sel::StartGame => true,
        _ => false,
    }
}

/// Selectors that the login concerns.
pub open spec fn is_login_sel(sel: Sel) -> bool {
    match sel {
        Sel::DrawScene
        | Sel::MainLoop
        | Sel::OnButtonChangeIDSelected
        | Sel::OnLoginMainMenuCommandReceived
        | Sel::GetServerListWithServiceNameAndDelegate
        | Sel::SetSocketFromStreamsAndReturnError
        | Sel::SetUserID
        | Sel::TaomeePassword
        | Sel::IsReachable
        | Sel::IsNetworkReachable
        | Sel::AutoLoginWithUserID
        | Sel::ShowAccountManagerViewWithDelegateAndUserID
        | Sel::SendRequest
        | Sel::AllAccounts
        | Sel::GetDictionaryWithJsonData
        | Sel::AddOperation
        | Sel::ResponseData
        | Sel::OnTaomeeLoginViewDidUnloadWithUserIDPasswordReturnCode
        | Sel::EstablishConnection
        | Sel::ChangeStateToWithMessage
        | Sel::LoginWithDeviceInfoAndUserIDInfoInSendType
        | Sel::OnServerListResult
        | Sel::Update
        | Sel::ShowWithTarget
        | Sel::MoleHudTick => true,
        _ => false,
    }
}

/// The state once the main menu was seen.
pub open spec fn menu_noted(st: CheatState, host: Host, msg: Message, regs: Regs) -> CheatState {
    if host.mimi is Some {
        CheatState { login: menu_seen(st.login, msg, regs), ..st }
    } else {
        st
    }
}

/// Once the game's code is patched and the developer's tools are started, a
/// message that is not about the layout is first offered to the other modules,
/// with its registers as they came. A module that answers it, or has it go to
/// the game, has the last word, and the registers stay as it leaves them.
pub proof fn law_modules_are_asked_first(st: CheatState, host: Host, msg: Message, regs: Regs)
    requires
        !st.cheats.patches_dirty,
        st.dev_startup_done,
        !is_layout_sel(msg.sel),
    ensures
        intercept_step(st, host, msg, regs).flow == Flow::Perform(
            Task::AskModules,
            Stage::AfterModules,
        ),
        intercept_step(st, host, msg, regs).regs == regs,
        intercept_step(st, host, msg, regs).st.login == st.login,
        intercept_step(st, host, msg, regs).st.island == st.island,
        !host.network ==> intercept_step(st, host, msg, regs).st == st,
        resumed(st, host, msg, regs, Stage::AfterModules, Answer::Flag(true)) == (Step {
            flow: Flow::Handled,
            st,
            regs,
        }),
        resumed(st, host, msg, regs, Stage::AfterModules, Answer::Flag(false)) == (Step {
            flow: Flow::Forward,
            st,
            regs,
        }),
{
    reveal(display_step);
    reveal(layout_step);
    reveal(add_child_step);
    reveal(begin_resumed);
}

/// Whatever the message, the game's code is patched before anything else, once
/// for each change of the switches; then the developer's tools are started,
/// once.
pub proof fn law_first_things_come_first(st: CheatState, host: Host, msg: Message, regs: Regs)
    ensures
        st.cheats.patches_dirty ==> {
            let s = intercept_step(st, host, msg, regs);
            &&& s.flow == Flow::Perform(Task::ApplyPatches, Stage::Display)
            &&& !s.st.cheats.patches_dirty
            &&& s.regs == regs
        },
        !is_layout_sel(msg.sel) && !st.dev_startup_done ==> {
            let s = resumed(st, host, msg, regs, Stage::Display, Answer::Nothing);
            &&& s.flow == Flow::Perform(Task::DevStartup, Stage::Modules)
            &&& s.st.dev_startup_done
            &&& s.regs == regs
        },
        resumed(st, host, msg, regs, Stage::Modules, Answer::Nothing) == (Step {
            flow: Flow::Perform(Task::AskModules, Stage::AfterModules),
            st,
            regs,
        }),
{
    reveal(display_step);
    reveal(layout_step);
    reveal(add_child_step);
    reveal(begin_resumed);
}

pub proof fn lemma_to_login(st: CheatState, host: Host, msg: Message, regs: Regs)
    requires
        !msg.more_game,
        !is_early_sel(msg.sel) || ((msg.sel == Sel::ShowWithTarget || msg.sel
            == Sel::ShowWithTargetSelector) && msg.class != Class::AdViewForMoleCart),
    ensures
        sent(st, host, msg, regs) == online_step(st, host, msg, regs),
{
    reveal(begin_resumed);
    reveal(main_step);
    reveal(tilt_step);
}

pub proof fn lemma_to_island(st: CheatState, host: Host, msg: Message, regs: Regs)
    requires
        !msg.more_game,
        !is_early_sel(msg.sel) || (msg.sel == Sel::ShowWithTargetSelector && msg.class
            != Class::AdViewForMoleCart),
        !is_login_sel(msg.sel),
    ensures
        sent(st, host, msg, regs) == island_step(
            menu_noted(st, host, msg, regs),
            host,
            msg,
            regs,
        ),
{
    lemma_to_login(st, host, msg, regs);
    reveal(online_step);
    reveal(reply_step);
    reveal(login_step);
    reveal(online_reply);
}

/// The switches are asked with nothing but the notes of the island and the
/// login changed.
proof fn lemma_gates_pass(isl: IslandState, msg: Message, regs: Regs, clock: u64)
    requires
        is_switch_sel(msg.sel),
    ensures
        call_reply(isl, msg, regs) is None,
        flags_reply(isl, msg, regs, clock).0 is None,
        flags_reply(isl, msg, regs, clock).2 == regs,
{
    reveal(gate_reply);
    reveal(entry_reply);
}

proof fn lemma_island_passes(st: CheatState, host: Host, msg: Message, regs: Regs)
    requires
        is_switch_sel(msg.sel),
    ensures
        ({
            let s = island_step(st, host, msg, regs);
            let enabled = st.cheats.has(CheatKey::EnableNewsceneIsland);
            let at = if enabled {
                CheatState { island: flags_reply(st.island, msg, regs, host.clock).1, ..st }
            } else {
                st
            };
            s == cheats_step(at, host, msg, regs)
        }),
{
    reveal(island_step);
    reveal(island_calls_step);
    reveal(island_flags_step);
    lemma_gates_pass(st.island, msg, regs, host.clock);
}

proof fn lemma_switches_read(st: CheatState, other: CheatState, host: Host, msg: Message, regs: Regs)
    requires
        st.cheats == other.cheats,
        st.save_has_dict_as_array == other.save_has_dict_as_array,
    ensures
        cheat_reply(st, host, msg, regs) == cheat_reply(other, host, msg, regs),
{
}

pub proof fn lemma_to_switches(st: CheatState, host: Host, msg: Message, regs: Regs)
    requires
        !msg.more_game,
        is_switch_sel(msg.sel),
    ensures
        (sent(st, host, msg, regs).flow, sent(st, host, msg, regs).regs) == cheat_reply(
            st,
            host,
            msg,
            regs,
        ),
        sent(st, host, msg, regs).st.cheats == st.cheats,
{
    let at = menu_noted(st, host, msg, regs);
    lemma_to_island(st, host, msg, regs);
    lemma_island_passes(at, host, msg, regs);
    reveal(cheats_step);
    let island = flags_reply(at.island, msg, regs, host.clock).1;
    lemma_switches_read(st, CheatState { island, ..at }, host, msg, regs);
    lemma_switches_read(st, at, host, msg, regs);
}

/// Selectors that the island concerns.
pub open spec fn is_island_sel(sel: Sel) -> bool {
    match sel {
        Sel::DrawScene
        | Sel::MainLoop
        | Sel::MoleIslandTick
        | Sel::GetCurrentServerTime
        | Sel::ShowNoNetConnectErrorMessage
        | Sel::ShowNetConnectErrorMessageWithRetryButton
        | Sel::ShowMultiLoginErrorMessageInNewScene
        | Sel::ShowWithTargetSelector
        | Sel::SetCurrentProduceMoleNums
        | Sel::UpdateLoading
        | Sel::ApplicationWillResignActive
        | Sel::ApplicationWillTerminate
        | Sel::IsConnected
        | Sel::State
        | Sel::StartNewSceneFromToScene
        | Sel::CurSceneId
        | Sel::MoleUpperLimit
        | Sel::IsReachable
        | Sel::SetModObjectToServer
        | Sel::DeleteObjectFromServer
        | Sel::SendPacketCommandId
        | Sel::SendAllBufferDatas
        | Sel::SendAllBuffDataInNewSceneLoading
        | Sel::GameMode
        | Sel::CurrentGameMode
        | Sel::GetLockType4ShopItemShop
        | Sel::InRectOfAquaticAreaOrNot
        | Sel::CheckBeyoundLeftCircleBeach
        | Sel::EnterNewIslands
        | Sel::UpdateGameDateForEnterNewSceneWithTargetAndCallback
        | Sel::GetAllObjectsListFromServerWithStartId => true,
        _ => false,
    }
}

proof fn lemma_gates_unconcerned(isl: IslandState, msg: Message, regs: Regs, clock: u64)
    requires
        !is_island_sel(msg.sel),
    ensures
        call_reply(isl, msg, regs) is None,
        flags_reply(isl, msg, regs, clock).0 is None,
        flags_reply(isl, msg, regs, clock).2 == regs,
{
    reveal(gate_reply);
    reveal(entry_reply);
}

/// Neither the island nor the switches hold a message back that concerns
/// neither.
pub proof fn lemma_island_lets_pass(st: CheatState, host: Host, msg: Message, regs: Regs)
    requires
        !is_island_sel(msg.sel),
        !is_switch_sel(msg.sel),
    ensures
        ({
            let s = island_step(st, host, msg, regs);
            &&& s.flow == Flow::Forward
            &&& s.regs == regs
            &&& s.st.login == st.login
            &&& s.st.cheats == st.cheats
        }),
{
    reveal(island_step);
    reveal(island_calls_step);
    reveal(island_flags_step);
    lemma_gates_unconcerned(st.island, msg, regs, host.clock);
    reveal(cheats_step);
}

/// The switches leave a message alone that is none of theirs.
pub proof fn lemma_switches_let_pass(st: CheatState, host: Host, msg: Message, regs: Regs)
    requires
        !is_switch_sel(msg.sel),
    ensures
        cheats_step(st, host, msg, regs) == (Step { flow: Flow::Forward, st, regs }),
{
    reveal(cheats_step);
}

/// What is done after a task: the message goes to the game, is answered as it
/// stands, with zero, or with the word that was found; or, after workers were
/// hired, the game is told the number in training that it had before.
pub proof fn law_answers_after_tasks(
    st: CheatState,
    host: Host,
    msg: Message,
    regs: Regs,
    found: Answer,
    w: u32,
    before: i32,
)
    ensures
        resumed(st, host, msg, regs, Stage::Forward, found) == (Step {
            flow: Flow::Forward,
            st,
            regs,
        }),
        resumed(st, host, msg, regs, Stage::Finish, found) == (Step {
            flow: Flow::Handled,
            st,
            regs,
        }),
        resumed(st, host, msg, regs, Stage::FinishZero, found) == (Step {
            flow: Flow::Handled,
            st,
            regs: Regs { r0: 0, ..regs },
        }),
        resumed(st, host, msg, regs, Stage::FinishWord, Answer::Word(w)) == (Step {
            flow: Flow::Handled,
            st,
            regs: Regs { r0: w, ..regs },
        }),
        ({
            let s = resumed(st, host, msg, regs, Stage::Hired { before }, found);
            &&& s.flow == Flow::Forward
            &&& s.st == st
            &&& s.regs == (Regs { r2: s.regs.r2, ..regs })
            &&& s.regs.r2 == before || s.regs.r2 - 0x1_0000_0000 == before
        }),
{
}

} // verus!
