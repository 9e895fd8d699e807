//! What the island without a server does to the game's messages and to the
//! state of the stay.

use vstd::prelude::*;
use crate::cheats::CheatKey;
use crate::hooks::cheat_laws::{gives_if, passes};
use crate::hooks::island_arms::{
    call_reply, entry_reply, flags_reply, frame_counted, gate_reply, noted, scene_seen,
    service_reply, tick_reply,
};
use crate::hooks::machine::{
    frame_watched, island_calls_step, island_flags_step, island_resumed, island_step, resumed, Step,
};
use crate::hooks::online_laws::asks;
use crate::hooks::passage::{
    is_island_sel, is_login_sel, is_switch_sel, lemma_switches_let_pass, lemma_to_island,
    menu_noted, sent,
};
use crate::hooks::types::{signed, Answer, Flow, Host, Regs, Stage, Task};
use crate::island::session::IslandState;
use crate::names::{Class, Message, Sel};
use crate::state::CheatState;

verus! {

/// Whether the island without a server is on.
pub open spec fn is_on(st: CheatState) -> bool {
    st.cheats.has(CheatKey::EnableNewsceneIsland)
}

/// Whether the player is on the island or on the way to it.
pub open spec fn is_there(isl: IslandState) -> bool {
    isl.enter_window > 0 || isl.on_island || isl.loading
}

/// What the second group of answers comes to, without the login.
proof fn lemma_served(st: CheatState, host: Host, msg: Message, regs: Regs)
    requires
        !msg.more_game,
        is_on(st),
        !is_login_sel(msg.sel),
        !is_switch_sel(msg.sel),
        msg.sel != Sel::MoleIslandTick,
        msg.sel != Sel::ShowWithTargetSelector,
        msg.sel != Sel::GetCurrentServerTime,
        is_island_sel(msg.sel) || msg.sel == Sel::EnterLoadingWithDelegateNextSceneId || msg.sel
            == Sel::LoadNewScene || msg.sel == Sel::AlertViewDidDismissWithButtonIndex,
        call_reply(st.island, msg, regs) is None,
    ensures
        ({
            let s = sent(st, host, msg, regs);
            let (flow, island, after) = service_reply(noted(st.island, msg, regs), msg, regs);
            &&& s.st.island == island
            &&& flow is Some ==> s.flow == flow->0 && s.regs == after
            &&& flow is None ==> s.flow == Flow::Forward && s.regs == after
        }),
{
    lemma_to_island(st, host, msg, regs);
    reveal(island_step);
    reveal(island_calls_step);
    reveal(island_flags_step);
    let at = menu_noted(st, host, msg, regs);
    let (flow, island, after) = service_reply(noted(st.island, msg, regs), msg, regs);
    lemma_switches_let_pass(CheatState { island, ..at }, host, msg, after);
}

/// Selectors that the second group of answers does not concern.
spec fn is_unserved(sel: Sel) -> bool {
    !is_switch_sel(sel) && (!is_island_sel(sel) || match sel {
        Sel::DrawScene
        | Sel::MainLoop
        | Sel::ShowNoNetConnectErrorMessage
        | Sel::ShowNetConnectErrorMessageWithRetryButton
        | Sel::ShowMultiLoginErrorMessageInNewScene
        | Sel::ShowWithTargetSelector
        | Sel::SetCurrentProduceMoleNums
        | Sel::UpdateLoading => true,
        _ => false,
    })
}

proof fn lemma_unserved_reply(isl: IslandState, msg: Message, regs: Regs, clock: u64)
    requires
        is_unserved(msg.sel),
    ensures
        flags_reply(isl, msg, regs, clock) == (None::<Flow>, noted(isl, msg, regs), regs),
{
    reveal(gate_reply);
    reveal(entry_reply);
}

proof fn lemma_unserved(st: CheatState, host: Host, msg: Message, regs: Regs)
    requires
        is_unserved(msg.sel),
    ensures
        island_flags_step(st, host, msg, regs) == (Step {
            flow: Flow::Forward,
            st: CheatState { island: noted(st.island, msg, regs), ..st },
            regs,
        }),
{
    reveal(island_flags_step);
    lemma_unserved_reply(st.island, msg, regs, host.clock);
    let island = noted(st.island, msg, regs);
    lemma_switches_let_pass(CheatState { island, ..st }, host, msg, regs);
}

/// A frame that nothing on the island concerns goes to the game.
proof fn lemma_frame_passes(st: CheatState, host: Host, msg: Message, regs: Regs)
    requires
        msg.sel == Sel::DrawScene || msg.sel == Sel::MainLoop,
    ensures
        island_calls_step(st, host, msg, regs) == (Step {
            flow: Flow::Forward,
            st: CheatState { island: noted(st.island, msg, regs), ..st },
            regs,
        }),
{
    reveal(island_calls_step);
    lemma_unserved(st, host, msg, regs);
}

/// On the island and on the way to it, the game believes that it is connected
/// and in state 6; anywhere else it is asked itself.
pub proof fn law_island_seems_connected(st: CheatState, host: Host, msg: Message, regs: Regs)
    requires
        !msg.more_game,
        is_on(st),
    ensures
        ({
            let s = sent(st, host, msg, regs);
            let there = is_there(st.island) && msg.class == Class::NetworkManager;
            &&& msg.sel == Sel::IsConnected ==> gives_if(s, regs, there, 1)
            &&& msg.sel == Sel::State ==> gives_if(s, regs, there, 6)
        }),
{
    if msg.sel == Sel::IsConnected || msg.sel == Sel::State {
        lemma_served(st, host, msg, regs);
        reveal(gate_reply);
        reveal(entry_reply);
    }
}

/// Without a login, the network counts as reachable on the island and on the
/// way to it: for all but the porters and the button for free shells.
#[verifier::rlimit(40)]
pub proof fn law_island_is_reachable(st: CheatState, host: Host, msg: Message, regs: Regs)
    requires
        is_on(st),
        msg.sel == Sel::IsReachable,
    ensures
        ({
            let s = resumed(st, host, msg, regs, Stage::Island, Answer::Nothing);
            let asked = msg.class != Class::Porter && msg.class != Class::NewScenePorter && regs.lr
                != 0x3b23c5;
            gives_if(s, regs, is_there(st.island) && asked, 1)
        }),
{
    reveal(island_step);
    reveal(island_calls_step);
    reveal(island_flags_step);
    reveal(gate_reply);
    reveal(entry_reply);
    let island = noted(st.island, msg, regs);
    lemma_switches_let_pass(CheatState { island, ..st }, host, msg, regs);
}

/// What the game would send to the server is taken instead: a changed building
/// is written back, a deleted one taken out, other packets are dropped. All
/// this only on the island and on the way to it.
pub proof fn law_server_is_replaced(st: CheatState, host: Host, msg: Message, regs: Regs)
    requires
        !msg.more_game,
        is_on(st),
    ensures
        ({
            let s = sent(st, host, msg, regs);
            let there = is_there(st.island);
            let net = there && msg.class == Class::NetworkManager;
            &&& msg.sel == Sel::SetModObjectToServer ==> if net {
                asks(s, regs, Task::WriteBackObject { object: regs.r2 }, Stage::Dirtied)
            } else {
                passes(s, regs)
            }
            &&& msg.sel == Sel::DeleteObjectFromServer ==> if net {
                asks(s, regs, Task::DeleteObject { object: regs.r2 }, Stage::Dirtied)
            } else {
                passes(s, regs)
            }
            &&& msg.sel == Sel::SendPacketCommandId || msg.sel == Sel::SendAllBufferDatas || msg.sel
                == Sel::SendAllBuffDataInNewSceneLoading ==> s.regs == regs && s.flow == if there {
                Flow::Handled
            } else {
                Flow::Forward
            }
        }),
{
    if msg.sel == Sel::SetModObjectToServer || msg.sel == Sel::DeleteObjectFromServer || msg.sel
        == Sel::SendPacketCommandId || msg.sel == Sel::SendAllBufferDatas || msg.sel
        == Sel::SendAllBuffDataInNewSceneLoading {
        lemma_served(st, host, msg, regs);
        reveal(gate_reply);
        reveal(entry_reply);
    }
}

/// A building that was written back or taken out has to be saved, unless a
/// saving is under way; the message is answered.
pub proof fn law_written_back_has_to_be_saved(
    st: CheatState,
    host: Host,
    msg: Message,
    regs: Regs,
    found: Answer,
)
    ensures
        ({
            let s = resumed(st, host, msg, regs, Stage::Dirtied, found);
            &&& s.flow == Flow::Handled && s.regs == regs
            &&& s.st.island == (IslandState {
                dirty: st.island.dirty || (st.island.on_island && !st.island.flushing),
                ..st.island
            })
        }),
{
    reveal(island_resumed);
}

/// Panels that open only in the browsing mode open: three calls are told mode
/// 1. No shop item is locked, and the porter finds the beach free. All this
/// only on the island and on the way to it.
pub proof fn law_island_panels_open(st: CheatState, host: Host, msg: Message, regs: Regs)
    requires
        !msg.more_game,
        is_on(st),
    ensures
        ({
            let s = sent(st, host, msg, regs);
            let there = is_there(st.island);
            &&& msg.sel == Sel::GameMode ==> gives_if(
                s,
                regs,
                there && msg.class == Class::NewGameManager && (regs.lr == 0x2497a9 || regs.lr
                    == 0x32643b),
                1,
            )
            &&& msg.sel == Sel::CurrentGameMode ==> gives_if(
                s,
                regs,
                there && msg.class == Class::WrapperManager && regs.lr == 0x24bec3,
                1,
            )
            &&& msg.sel == Sel::GetLockType4ShopItemShop ==> gives_if(
                s,
                regs,
                there && msg.class == Class::NewSceneData,
                0,
            )
            &&& msg.sel == Sel::InRectOfAquaticAreaOrNot || msg.sel
                == Sel::CheckBeyoundLeftCircleBeach ==> gives_if(
                s,
                regs,
                there && msg.class == Class::NewScenePorter,
                0,
            )
        }),
{
    if msg.sel == Sel::GameMode || msg.sel == Sel::CurrentGameMode || msg.sel
        == Sel::GetLockType4ShopItemShop || msg.sel == Sel::InRectOfAquaticAreaOrNot || msg.sel
        == Sel::CheckBeyoundLeftCircleBeach {
        lemma_served(st, host, msg, regs);
        reveal(gate_reply);
        reveal(entry_reply);
    }
}

/// The island is saved before the game goes to the background or ends, and
/// before the player leaves for the village; only then does the message go to
/// the game.
pub proof fn law_island_is_saved_in_time(st: CheatState, host: Host, msg: Message, regs: Regs)
    requires
        !msg.more_game,
        is_on(st),
    ensures
        ({
            let s = sent(st, host, msg, regs);
            let on = st.island.on_island;
            &&& msg.sel == Sel::ApplicationWillResignActive || msg.sel
                == Sel::ApplicationWillTerminate ==> if on && msg.class
                == Class::IMoleVillageAppDelegate {
                asks(s, regs, Task::FlushIsland, Stage::Forward)
            } else {
                passes(s, regs)
            }
            &&& msg.sel == Sel::StartNewSceneFromToScene ==> if on && msg.class
                == Class::SceneMannager && regs.r2 == 10 && regs.r3 == 1 {
                asks(s, regs, Task::FlushIsland, Stage::LeftIsland)
            } else {
                passes(s, regs)
            }
        }),
{
    if msg.sel == Sel::ApplicationWillResignActive || msg.sel == Sel::ApplicationWillTerminate
        || msg.sel == Sel::StartNewSceneFromToScene {
        lemma_served(st, host, msg, regs);
        reveal(gate_reply);
        reveal(entry_reply);
    }
}

/// Whoever left is no longer on the island, but on the way back for at most
/// 3600 frames; the message goes to the game.
pub proof fn law_leaving(st: CheatState, host: Host, msg: Message, regs: Regs, found: Answer)
    ensures
        ({
            let s = resumed(st, host, msg, regs, Stage::LeftIsland, found);
            &&& passes(s, regs)
            &&& s.st.island == (IslandState {
                on_island: false,
                enter_window: 0,
                scene_mgr: regs.r0,
                exit_frames: 3600,
                exiting: true,
                ..st.island
            })
        }),
{
    reveal(island_resumed);
}

/// On the island the scene's number is read from the manager, 12 bytes on;
/// where it is neither the island's, 10, nor the village's, 1, the game is
/// told 10. The limit of workers is read 180 bytes on, and is at least 16.
#[verifier::rlimit(40)]
pub proof fn law_scene_and_workers(
    st: CheatState,
    host: Host,
    msg: Message,
    regs: Regs,
    v: u32,
)
    requires
        !msg.more_game,
        is_on(st),
        regs.r0 < 0xffff_ff00,
    ensures
        ({
            let s = sent(st, host, msg, regs);
            let on = st.island.on_island;
            let scene = resumed(st, host, msg, regs, Stage::SceneId, Answer::Word(v));
            let limit = resumed(st, host, msg, regs, Stage::MoleLimit, Answer::Word(v));
            &&& msg.sel == Sel::CurSceneId ==> if on && msg.class == Class::SceneMannager {
                asks(s, regs, Task::ReadWord { at: (regs.r0 + 12) as u32 }, Stage::SceneId)
            } else {
                passes(s, regs)
            }
            &&& msg.sel == Sel::CurSceneId ==> gives_if(scene, regs, v != 10 && v != 1, 10)
            &&& msg.sel == Sel::MoleUpperLimit ==> if on && msg.class == Class::NewSceneData {
                asks(s, regs, Task::ReadWord { at: (regs.r0 + 180) as u32 }, Stage::MoleLimit)
            } else {
                passes(s, regs)
            }
            &&& msg.sel == Sel::MoleUpperLimit ==> gives_if(limit, regs, v < 16, 16)
        }),
{
    if msg.sel == Sel::CurSceneId || msg.sel == Sel::MoleUpperLimit {
        lemma_served(st, host, msg, regs);
        reveal(gate_reply);
        reveal(entry_reply);
        reveal(island_resumed);
        lemma_switches_let_pass(st, host, msg, regs);
    }
}

/// The way in: the player's wish is checked against the village's mode, 0, 1
/// or 6, and a change of scene under way. Where both allow it, the way is open
/// for 1200 frames, or as long as it already was, a new layout is due, and the
/// first gate has not been passed. The message goes to the game in any case.
#[verifier::rlimit(40)]
pub proof fn law_way_in_is_checked(
    st: CheatState,
    host: Host,
    msg: Message,
    regs: Regs,
    mode: u32,
    busy: u32,
)
    requires
        !msg.more_game,
        is_on(st),
        msg.sel == Sel::EnterNewIslands,
    ensures
        ({
            let s = sent(st, host, msg, regs);
            let r = resumed(st, host, msg, regs, Stage::EntryGates, Answer::Pair(mode, busy));
            let unknown = resumed(st, host, msg, regs, Stage::EntryGates, Answer::Nothing);
            let open = (mode == 0 || mode == 1 || mode == 6) && busy == 0;
            &&& asks(s, regs, Task::ReadEntryGates, Stage::EntryGates)
            &&& passes(r, regs)
            &&& open ==> !r.st.island.injected && !r.st.island.gate1_hit && r.st.island.enter_window
                == if st.island.enter_window <= 0 {
                1200
            } else {
                st.island.enter_window
            }
            &&& !open ==> r.st == st
            &&& passes(unknown, regs) && unknown.st == st
        }),
{
    if call_reply(st.island, msg, regs) is None {
        lemma_served(st, host, msg, regs);
    }
    reveal(gate_reply);
    reveal(entry_reply);
    reveal(island_resumed);
}

/// The game's request to enter: the way is open for 1200 frames and a new
/// layout is due. Where someone waits for the answer, it is scheduled; the
/// request counts as past the first gate once that was done, or at once where
/// nobody waits.
pub proof fn law_request_to_enter(
    st: CheatState,
    host: Host,
    msg: Message,
    regs: Regs,
    found: Answer,
)
    requires
        !msg.more_game,
        is_on(st),
        msg.class == Class::GameManager,
        msg.sel == Sel::UpdateGameDateForEnterNewSceneWithTargetAndCallback,
    ensures
        ({
            let s = sent(st, host, msg, regs);
            let r = resumed(st, host, msg, regs, Stage::EntryScheduled, found);
            &&& s.st.island.enter_window == 1200 && !s.st.island.injected
            &&& s.regs == regs
            &&& regs.r2 != 0 ==> s.flow == Flow::Perform(
                Task::ScheduleEntry { target: regs.r2 },
                Stage::EntryScheduled,
            ) && s.st.island.gate1_hit == st.island.gate1_hit
            &&& regs.r2 == 0 ==> s.flow == Flow::Handled && s.st.island.gate1_hit
            &&& r == (Step {
                flow: Flow::Handled,
                st: CheatState {
                    island: IslandState { gate1_hit: true, ..st.island },
                    ..st
                },
                regs,
            })
        }),
{
    lemma_served(st, host, msg, regs);
    reveal(gate_reply);
    reveal(entry_reply);
    reveal(island_resumed);
}

/// While the way is open or the island is loading, the layout is provided when
/// it is first asked for; later requests of the same entry are answered
/// without it. At any other time the game is asked itself.
pub proof fn law_layout_is_provided(st: CheatState, host: Host, msg: Message, regs: Regs)
    requires
        !msg.more_game,
        is_on(st),
        msg.sel == Sel::GetAllObjectsListFromServerWithStartId,
    ensures
        ({
            let s = sent(st, host, msg, regs);
            let way = st.island.enter_window > 0 || st.island.loading;
            &&& way && !st.island.injected ==> asks(s, regs, Task::BuildIsland, Stage::Finish)
                && s.st.island.injected
            &&& way && st.island.injected ==> s.flow == Flow::Handled && s.regs == regs
                && s.st.island.injected
            &&& !way ==> passes(s, regs) && s.st.island.injected == st.island.injected
        }),
{
    lemma_served(st, host, msg, regs);
    reveal(gate_reply);
    reveal(entry_reply);
}

/// Where the player is: a loading screen for scene 10 begins the loading; that
/// scene's start ends it, and the player is on the island and no longer on the
/// way back; a loading that was given up ends too. Nothing else changes where
/// the player is, and the messages go to the game.
pub proof fn law_whereabouts(st: CheatState, host: Host, msg: Message, regs: Regs)
    requires
        !msg.more_game,
        is_on(st),
    ensures
        ({
            let s = sent(st, host, msg, regs);
            let i = st.island;
            let j = s.st.island;
            let same = j.loading == i.loading && j.on_island == i.on_island && j.exiting == i.exiting
                && j.scene_mgr == i.scene_mgr;
            &&& msg.sel == Sel::EnterLoadingWithDelegateNextSceneId ==> passes(s, regs) && (
            if msg.class == Class::LoadingManager && regs.r3 == 10 {
                j.loading && j.scene_mgr == regs.r2 && j.on_island == i.on_island && j.exiting
                    == i.exiting
            } else {
                same
            })
            &&& msg.sel == Sel::LoadNewScene ==> passes(s, regs) && (if msg.class
                == Class::SceneMannager && regs.r2 == 10 {
                j.on_island && !j.loading && !j.exiting && j.scene_mgr == regs.r0
            } else {
                same
            })
            &&& msg.sel == Sel::AlertViewDidDismissWithButtonIndex ==> passes(s, regs) && (
            if msg.class == Class::LoadingHoliday && regs.r3 == 0 {
                !j.loading && j.on_island == i.on_island && j.exiting == i.exiting && j.scene_mgr
                    == i.scene_mgr
            } else {
                same
            })
        }),
{
    if msg.sel == Sel::EnterLoadingWithDelegateNextSceneId || msg.sel == Sel::LoadNewScene
        || msg.sel == Sel::AlertViewDidDismissWithButtonIndex {
        lemma_served(st, host, msg, regs);
        reveal(gate_reply);
        reveal(entry_reply);
    }
}

/// Every message that changes what is saved of the island marks it as changed
/// while the player is on it and no saving is under way: setters of the
/// progress, what ends in the new scene's name, map pieces, the game's own
/// saving, and new buildings. Nothing else does.
pub proof fn law_changes_are_noticed(isl: IslandState, msg: Message, regs: Regs)
    requires
        msg.sel != Sel::LoadNewScene,
    ensures
        ({
            let changes = (msg.class == Class::NewSceneUserInfoData && msg.sets) || (msg.class
                == Class::NewSceneData && (msg.in_new_scene || msg.sel
                == Sel::AddAdventureMapFragment || msg.sel == Sel::SetMapFragments || msg.sel
                == Sel::SaveUserinfoToLocal)) || (msg.class == Class::NetworkManager && msg.sel
                == Sel::AddObjectToServer);
            let after = flags_reply(isl, msg, regs, 0).1;
            msg.sel != Sel::MoleIslandTick ==> after.dirty == (isl.dirty || (changes
                && isl.on_island && !isl.flushing))
        }),
{
    reveal(gate_reply);
    reveal(entry_reply);
}

/// Calls of the island that need no server: boxes about the connection are
/// answered, and on the island panels that carry no proper target; hiring asks
/// for the number in training, and a loading screen for its step.
#[verifier::rlimit(40)]
pub proof fn law_calls(st: CheatState, host: Host, msg: Message, regs: Regs)
    requires
        !msg.more_game,
        is_on(st),
        regs.r0 < 0xffff_ff00,
    ensures
        ({
            let s = sent(st, host, msg, regs);
            let on = st.island.on_island;
            let box_sel = msg.sel == Sel::ShowNoNetConnectErrorMessage || msg.sel
                == Sel::ShowNetConnectErrorMessageWithRetryButton || msg.sel
                == Sel::ShowMultiLoginErrorMessageInNewScene;
            &&& box_sel && msg.class == Class::HolidayVillageLayer ==> s.flow == Flow::Handled
                && s.regs == regs
            &&& box_sel && msg.class != Class::HolidayVillageLayer ==> passes(s, regs)
            &&& msg.sel == Sel::ShowWithTargetSelector && msg.class != Class::AdViewForMoleCart
                ==> s.regs == regs && s.flow == if on && 0 < regs.r2 < 4096 {
                Flow::Handled
            } else {
                Flow::Forward
            }
            &&& msg.sel == Sel::SetCurrentProduceMoleNums ==> if on && msg.class
                == Class::NewSceneApartment {
                asks(s, regs, Task::ReadProduceCount { apartment: regs.r0 }, Stage::Hire)
            } else {
                passes(s, regs)
            }
            &&& msg.sel == Sel::UpdateLoading ==> if msg.class == Class::LoadingHoliday {
                asks(s, regs, Task::ReadWord { at: (regs.r0 + 16) as u32 }, Stage::LoadingStep)
            } else {
                passes(s, regs)
            }
        }),
{
    if msg.sel == Sel::ShowNoNetConnectErrorMessage || msg.sel
        == Sel::ShowNetConnectErrorMessageWithRetryButton || msg.sel
        == Sel::ShowMultiLoginErrorMessageInNewScene || (msg.sel == Sel::ShowWithTargetSelector
        && msg.class != Class::AdViewForMoleCart) || msg.sel == Sel::SetCurrentProduceMoleNums
        || msg.sel == Sel::UpdateLoading {
        lemma_to_island(st, host, msg, regs);
        reveal(island_step);
        reveal(island_calls_step);
        lemma_unserved(menu_noted(st, host, msg, regs), host, msg, regs);
    }
}

/// Hiring: as many workers as are more in training than before come at once,
/// and the game goes on with the number from before. Where there are no more,
/// nothing is hired. A loading screen from its second step on no longer waits
/// for the server.
#[verifier::rlimit(40)]
pub proof fn law_hiring_and_loading(
    st: CheatState,
    host: Host,
    msg: Message,
    regs: Regs,
    before: u32,
)
    requires
        regs.r2 < 0x8000_0000,
        before < 0x8000_0000,
        regs.r0 < 0xffff_ff00,
        !is_island_sel(msg.sel) || msg.sel == Sel::SetCurrentProduceMoleNums || msg.sel
            == Sel::UpdateLoading,
        !is_switch_sel(msg.sel),
    ensures
        ({
            let s = resumed(st, host, msg, regs, Stage::Hire, Answer::Word(before));
            let l = resumed(st, host, msg, regs, Stage::LoadingStep, Answer::Word(before));
            &&& regs.r2 > before ==> asks(
                s,
                regs,
                Task::AddWorkers { count: (regs.r2 - before) as i32 },
                Stage::Hired { before: before as i32 },
            )
            &&& regs.r2 <= before ==> passes(s, regs)
            &&& before >= 2 ==> asks(
                l,
                regs,
                Task::ClearByte { at: (regs.r0 + 12) as u32 },
                Stage::IslandFlags,
            )
            &&& before < 2 ==> passes(l, regs)
        }),
{
    reveal(island_resumed);
    lemma_unserved(st, host, msg, regs);
}

/// Saving ticks: a tick within 0.6 seconds of the last one is dropped; any
/// other is noted. A change is saved if the last saving is 1.5 seconds or more
/// ago, or there was none. The chain goes on while the stay lasts, and ends
/// with it.
pub proof fn law_ticks(isl: IslandState, clock: u64)
    requires
        isl.last_tick is Some ==> isl.last_tick->0 <= clock,
        isl.last_flush is Some ==> isl.last_flush->0 <= clock,
    ensures
        ({
            let (flow, after) = tick_reply(isl, clock);
            let soon = isl.last_tick is Some && clock - isl.last_tick->0 < 600_000_000;
            let due = isl.on_island && isl.dirty && (isl.last_flush is None || clock
                - isl.last_flush->0 >= 1_500_000_000);
            let lasts = isl.enter_window > 0 || isl.on_island || isl.loading || isl.exiting;
            &&& soon ==> flow == Flow::Handled && after == isl
            &&& !soon ==> after.last_tick == Some(clock)
            &&& !soon && due ==> flow == Flow::Perform(Task::FlushIsland, Stage::TickTail)
            &&& !soon && !due && lasts ==> flow == Flow::Perform(
                Task::ScheduleIslandTick,
                Stage::Finish,
            ) && after.tick_running == isl.tick_running
            &&& !soon && !due && !lasts ==> flow == Flow::Handled && !after.tick_running
        }),
{
}

/// A tick reaches the island if it is on; if it is off the chain ends. After
/// a saving the chain goes on as long as the stay lasts.
#[verifier::rlimit(40)]
pub proof fn law_ticks_are_heard(st: CheatState, host: Host, msg: Message, regs: Regs, found: Answer)
    requires
        !msg.more_game,
        msg.sel == Sel::MoleIslandTick,
        msg.class != Class::HolidayVillageLayer,
    ensures
        ({
            let s = sent(st, host, msg, regs);
            let i = st.island;
            let t = resumed(st, host, msg, regs, Stage::TickTail, found);
            &&& !is_on(st) ==> s.flow == Flow::Handled && s.regs == regs
                && !s.st.island.tick_running
            &&& is_on(st) ==> s.flow == tick_reply(i, host.clock).0 && s.regs == regs
                && s.st.island == tick_reply(i, host.clock).1
            &&& i.on_island || i.loading || i.exiting || i.enter_window > 0 ==> asks(
                t,
                regs,
                Task::ScheduleIslandTick,
                Stage::Finish,
            )
            &&& !(i.on_island || i.loading || i.exiting || i.enter_window > 0) ==> t.flow
                == Flow::Handled && t.regs == regs && !t.st.island.tick_running
        }),
{
    lemma_to_island(st, host, msg, regs);
    reveal(island_step);
    reveal(island_calls_step);
    reveal(island_flags_step);
    reveal(island_resumed);
}

/// Without the network the island's clock is the host's; with it, and for any
/// other receiver, the game's own.
#[verifier::rlimit(40)]
pub proof fn law_server_time(st: CheatState, host: Host, msg: Message, regs: Regs)
    requires
        !msg.more_game,
        msg.sel == Sel::GetCurrentServerTime,
    ensures
        gives_if(
            sent(st, host, msg, regs),
            regs,
            msg.class == Class::NewSceneTimer && !host.network,
            host.server_time,
        ),
{
    lemma_to_island(st, host, msg, regs);
    reveal(island_step);
    reveal(island_calls_step);
    reveal(island_flags_step);
    reveal(gate_reply);
    reveal(entry_reply);
    let at = menu_noted(st, host, msg, regs);
    let island = noted(st.island, msg, regs);
    lemma_switches_let_pass(CheatState { island, ..at }, host, msg, regs);
    lemma_switches_let_pass(at, host, msg, regs);
}

/// While the island is off nothing of it is answered: every message of it goes
/// to the game as it came.
pub proof fn law_island_off_is_off(st: CheatState, host: Host, msg: Message, regs: Regs)
    requires
        !msg.more_game,
        !is_on(st),
        is_island_sel(msg.sel),
        !is_login_sel(msg.sel),
        msg.sel != Sel::MoleIslandTick && msg.sel != Sel::GetCurrentServerTime,
        msg.sel == Sel::ShowWithTargetSelector ==> msg.class != Class::AdViewForMoleCart,
    ensures
        passes(sent(st, host, msg, regs), regs),
        sent(st, host, msg, regs).st.island == st.island,
{
    lemma_to_island(st, host, msg, regs);
    reveal(island_step);
    let at = menu_noted(st, host, msg, regs);
    lemma_switches_let_pass(at, host, msg, regs);
}

/// Every frame shortens the time for which the way in is open. While the
/// player is on the way back, or is loading with a known manager, a drawn frame
/// asks for the present scene, 12 bytes into the manager.
#[verifier::rlimit(40)]
pub proof fn law_frames_on_the_island(st: CheatState, host: Host, msg: Message, regs: Regs)
    requires
        is_on(st),
        msg.sel == Sel::DrawScene || msg.sel == Sel::MainLoop,
        st.island.scene_mgr < 0xffff_ff00,
        msg.class != Class::NewSceneTimer,
    ensures
        ({
            let s = resumed(st, host, msg, regs, Stage::Island, Answer::Nothing);
            let i = st.island;
            let looks = msg.sel == Sel::DrawScene && (i.exiting || i.loading) && i.scene_mgr != 0;
            &&& s.regs == regs
            &&& s.st.island.enter_window == if i.enter_window > 0 {
                i.enter_window - 1
            } else {
                i.enter_window as int
            }
            &&& looks ==> s.flow == Flow::Perform(
                Task::ReadWord { at: (i.scene_mgr + 12) as u32 },
                Stage::SceneSeen,
            )
            &&& !looks ==> s.flow == Flow::Forward
            &&& st.watchdog.frame < u64::MAX ==> s.st.watchdog.frame == st.watchdog.frame + 1
        }),
{
    reveal(island_step);
    let counted = frame_counted(st.island);
    let seen = scene_seen(counted, -1i32);
    let watched = frame_watched(st);
    lemma_frame_passes(CheatState { island: counted, ..watched }, host, msg, regs);
    lemma_frame_passes(CheatState { island: seen, ..watched }, host, msg, regs);
}

/// The present scene, once it is known: the way back is over in the village, on
/// the island, or after its last frame, and one frame shorter otherwise; the
/// loading is given up in the village. The message goes on.
#[verifier::rlimit(40)]
pub proof fn law_present_scene(
    st: CheatState,
    host: Host,
    msg: Message,
    regs: Regs,
    scene: u32,
)
    requires
        msg.sel == Sel::DrawScene,
        st.island.exit_frames > i32::MIN,
    ensures
        ({
            let s = resumed(st, host, msg, regs, Stage::SceneSeen, Answer::Word(scene));
            let i = st.island;
            let j = s.st.island;
            &&& passes(s, regs)
            &&& j.exiting == (i.exiting && scene != 1 && scene != 10 && i.exit_frames > 0)
            &&& i.exiting ==> j.exit_frames == i.exit_frames - 1
            &&& !i.exiting ==> j.exit_frames == i.exit_frames
            &&& j.loading == (i.loading && !(scene == 1 && i.scene_mgr != 0))
            &&& j.on_island == i.on_island && j.enter_window == i.enter_window
        }),
{
    reveal(island_resumed);
    let seen = scene_seen(st.island, signed(scene));
    lemma_frame_passes(CheatState { island: seen, ..st }, host, msg, regs);
}

/// Questions change nothing of the stay: whatever is answered about the
/// connection, the mode, locks or the beach, the stay is as it was.
pub proof fn law_questions_change_nothing(st: CheatState, host: Host, msg: Message, regs: Regs)
    requires
        !msg.more_game,
        is_on(st),
        !msg.sets && !msg.in_new_scene,
        msg.sel == Sel::IsConnected || msg.sel == Sel::State || msg.sel == Sel::GameMode || msg.sel
            == Sel::CurrentGameMode || msg.sel == Sel::GetLockType4ShopItemShop || msg.sel
            == Sel::InRectOfAquaticAreaOrNot || msg.sel == Sel::CheckBeyoundLeftCircleBeach || msg.sel
            == Sel::CurSceneId || msg.sel == Sel::MoleUpperLimit || msg.sel
            == Sel::SendPacketCommandId || msg.sel == Sel::SendAllBufferDatas || msg.sel
            == Sel::SendAllBuffDataInNewSceneLoading || msg.sel == Sel::SetModObjectToServer
            || msg.sel == Sel::DeleteObjectFromServer || msg.sel == Sel::StartNewSceneFromToScene
            || msg.sel == Sel::ApplicationWillResignActive || msg.sel
            == Sel::ApplicationWillTerminate || msg.sel == Sel::EnterNewIslands,
    ensures
        sent(st, host, msg, regs).st.island == st.island,
{
    lemma_served(st, host, msg, regs);
    reveal(gate_reply);
    reveal(entry_reply);
}

} // verus!
