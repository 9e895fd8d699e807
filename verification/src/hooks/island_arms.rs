//! Messages that take the player to the island, serve the island without a
//! server, and bring the player back.

use vstd::prelude::*;
use crate::address::{at_offset, offset_by};
use crate::hooks::types::{Flow, Regs, Stage, Task};
use crate::island::session::{island_session_active, IslandState};
use crate::names::{Class, Message, Sel};

verus! {

/// The island's number among the scenes.
pub const ISLAND_SCENE: u32 = 10;

/// The village's number among the scenes.
pub const VILLAGE_SCENE: u32 = 1;

/// Frames for which entering is let through.
pub const ENTER_FRAMES: i32 = 1200;

/// Frames after which leaving counts as over.
pub const EXIT_FRAMES: i32 = 3600;

/// Nanoseconds within which a second tick belongs to another chain.
pub const TICK_DUPLICATE: u64 = 600_000_000;

/// Nanoseconds between two savings.
pub const FLUSH_EVERY: u64 = 1_500_000_000;

/// The fewest workers a restaurant allows.
pub const WORKER_LIMIT: u32 = 16;

/// The return address of the shop's button for free shells.
pub const LR_FREE_SHELLS: u32 = 0x3b23c5;

/// Return addresses of the panels that open only in the browsing mode.
pub const LR_RESTAURANT_PANEL: u32 = 0x2497a9;

pub const LR_APARTMENT_PANEL: u32 = 0x32643b;

pub const LR_FOOD_SHOP_PANEL: u32 = 0x24bec3;

/// Nanoseconds from `t` to `now`, none where `t` is later.
pub open spec fn passed(now: u64, t: u64) -> int {
    if now >= t {
        now - t
    } else {
        0
    }
}

/// Whether the game is made to believe that it is connected.
pub open spec fn is_gated(isl: IslandState) -> bool {
    isl.enter_window > 0 || isl.on_island || isl.loading
}

/// The state after a frame, before the scene is looked at.
pub open spec fn frame_counted(isl: IslandState) -> IslandState {
    IslandState {
        enter_window: if isl.enter_window > 0 {
            (isl.enter_window - 1) as i32
        } else {
            isl.enter_window
        },
        ..isl
    }
}

/// Whether the present scene has to be known.
pub open spec fn watches_scene(isl: IslandState) -> bool {
    isl.exiting || (isl.loading && isl.scene_mgr != 0)
}

/// The state once the present scene is known. Leaving is over in the village,
/// or on the island, where it failed, or after too many frames; loading is
/// over in the village, where it was given up.
pub open spec fn scene_seen(isl: IslandState, scene: i32) -> IslandState {
    IslandState {
        exiting: isl.exiting && scene != VILLAGE_SCENE && scene != ISLAND_SCENE && isl.exit_frames
            > 0,
        exit_frames: if !isl.exiting {
            isl.exit_frames
        } else if isl.exit_frames == i32::MIN {
            i32::MAX
        } else {
            (isl.exit_frames - 1) as i32
        },
        loading: isl.loading && !(isl.scene_mgr != 0 && scene == VILLAGE_SCENE),
        ..isl
    }
}

/// Counts a frame; a task to find out the present scene, where it matters.
pub fn island_frame(isl: &mut IslandState, draw: bool) -> (r: Option<Task>)
    ensures
        ({
            let counted = frame_counted(*old(isl));
            let looks = draw && watches_scene(counted);
            &&& r == (if looks && counted.scene_mgr != 0 {
                Some(Task::ReadWord { at: offset_by(counted.scene_mgr, 12) })
            } else {
                None::<Task>
            })
            &&& *final(isl) == if looks && counted.scene_mgr == 0 {
                scene_seen(counted, -1i32)
            } else {
                counted
            }
        }),
{
    if isl.enter_window > 0 {
        isl.enter_window = isl.enter_window - 1;
    }
    if draw && (isl.exiting || (isl.loading && isl.scene_mgr != 0)) {
        if isl.scene_mgr != 0 {
            return Some(Task::ReadWord { at: at_offset(isl.scene_mgr, 12) });
        }
        island_scene_seen(isl, -1);
    }
    None
}

/// Notes the present scene.
pub fn island_scene_seen(isl: &mut IslandState, scene: i32)
    ensures
        *final(isl) == scene_seen(*old(isl), scene),
{
    let mgr: u32 = isl.scene_mgr;
    if isl.exiting {
        let left: i32 = isl.exit_frames;
        isl.exit_frames = left.wrapping_sub(1);
        if scene == 1 || scene == 10 || left <= 0 {
            isl.exiting = false;
        }
    }
    if isl.loading && mgr != 0 && scene == 1 {
        isl.loading = false;
    }
}

/// The first group of answers on the island: boxes about the connection,
/// panels without a target, hiring, and a loading screen that waits for the
/// server. `None` where the message is none of these.
pub open spec fn call_reply(isl: IslandState, msg: Message, regs: Regs) -> Option<Flow> {
    if msg.class == Class::HolidayVillageLayer && (msg.sel == Sel::ShowNoNetConnectErrorMessage
        || msg.sel == Sel::ShowNetConnectErrorMessageWithRetryButton || msg.sel
        == Sel::ShowMultiLoginErrorMessageInNewScene) {
        Some(Flow::Handled)
    } else if isl.on_island && msg.sel == Sel::ShowWithTargetSelector && 0 < regs.r2 < 0x1000 {
        Some(Flow::Handled)
    } else if isl.on_island && msg.class == Class::NewSceneApartment && msg.sel
        == Sel::SetCurrentProduceMoleNums {
        Some(Flow::Perform(Task::ReadProduceCount { apartment: regs.r0 }, Stage::Hire))
    } else if msg.class == Class::LoadingHoliday && msg.sel == Sel::UpdateLoading {
        Some(Flow::Perform(Task::ReadWord { at: offset_by(regs.r0, 0x10) }, Stage::LoadingStep))
    } else {
        None
    }
}

/// The first group of answers on the island.
pub fn island_calls(isl: &IslandState, msg: Message, regs: &Regs) -> (r: Option<Flow>)
    ensures
        r == call_reply(*isl, msg, *regs),
{
    if msg.class == Class::HolidayVillageLayer {
        match msg.sel {
            Sel::ShowNoNetConnectErrorMessage
            | Sel::ShowNetConnectErrorMessageWithRetryButton
            | Sel::ShowMultiLoginErrorMessageInNewScene => {
                return Some(Flow::Handled);
            },
            _ => {},
        }
    }
    if isl.on_island && msg.sel == Sel::ShowWithTargetSelector {
        if regs.r2 != 0 && regs.r2 < 0x1000 {
            return Some(Flow::Handled);
        }
    }
    if isl.on_island && msg.class == Class::NewSceneApartment && msg.sel
        == Sel::SetCurrentProduceMoleNums {
        return Some(
            Flow::Perform(Task::ReadProduceCount { apartment: regs.r0 }, Stage::Hire),
        );
    }
    if msg.class == Class::LoadingHoliday && msg.sel == Sel::UpdateLoading {
        return Some(
            Flow::Perform(
                Task::ReadWord { at: at_offset(regs.r0, 0x10) },
                Stage::LoadingStep,
            ),
        );
    }
    None
}

/// What hiring comes to, once the number in training is known: workers that
/// are hired come at once. `None` where nobody is hired.
pub open spec fn hire_reply(new: i32, before: i32) -> Option<Flow> {
    if new > before {
        Some(
            Flow::Perform(
                Task::AddWorkers {
                    count: if new - before > i32::MAX {
                        (new - before - 0x1_0000_0000) as i32
                    } else {
                        (new - before) as i32
                    },
                },
                Stage::Hired { before },
            ),
        )
    } else {
        None
    }
}

/// What hiring comes to, once the number in training is known.
pub fn island_hire(new: i32, before: i32) -> (r: Option<Flow>)
    ensures
        r == hire_reply(new, before),
{
    if new > before {
        Some(
            Flow::Perform(
                Task::AddWorkers { count: new.wrapping_sub(before) },
                Stage::Hired { before },
            ),
        )
    } else {
        None
    }
}

/// The state after messages that tell where the player is.
pub open spec fn flagged(isl: IslandState, msg: Message, regs: Regs) -> IslandState {
    if msg.class == Class::LoadingManager && msg.sel == Sel::EnterLoadingWithDelegateNextSceneId {
        if regs.r3 == ISLAND_SCENE {
            IslandState { loading: true, scene_mgr: regs.r2, ..isl }
        } else {
            isl
        }
    } else if msg.class == Class::SceneMannager && msg.sel == Sel::LoadNewScene && regs.r2
        == ISLAND_SCENE {
        IslandState { on_island: true, loading: false, exiting: false, scene_mgr: regs.r0, ..isl }
    } else if msg.class == Class::LoadingHoliday && msg.sel
        == Sel::AlertViewDidDismissWithButtonIndex && regs.r3 == 0 && isl.loading {
        IslandState { loading: false, ..isl }
    } else {
        isl
    }
}

/// Messages that change what the island's save files hold.
pub open spec fn changes_save(msg: Message) -> bool {
    ||| msg.class == Class::NewSceneUserInfoData && msg.sets
    ||| msg.class == Class::NewSceneData && (msg.in_new_scene || msg.sel
        == Sel::AddAdventureMapFragment || msg.sel == Sel::SetMapFragments || msg.sel
        == Sel::SaveUserinfoToLocal)
    ||| msg.class == Class::NetworkManager && msg.sel == Sel::AddObjectToServer
}

/// The state after the message was noted.
pub open spec fn noted(isl: IslandState, msg: Message, regs: Regs) -> IslandState {
    let at = flagged(isl, msg, regs);
    if changes_save(msg) {
        at.marked_dirty()
    } else {
        at
    }
}

/// The end of a tick: the chain goes on while the stay lasts.
pub open spec fn tick_tail(isl: IslandState) -> (Flow, IslandState) {
    if isl.active() {
        (Flow::Perform(Task::ScheduleIslandTick, Stage::Finish), isl)
    } else {
        (Flow::Handled, IslandState { tick_running: false, ..isl })
    }
}

/// Whether a tick comes so soon that it belongs to another chain.
pub open spec fn tick_is_duplicate(isl: IslandState, clock: u64) -> bool {
    isl.last_tick is Some && passed(clock, isl.last_tick->0) < TICK_DUPLICATE
}

/// Whether a tick has to save.
pub open spec fn flush_due(isl: IslandState, clock: u64) -> bool {
    isl.on_island && isl.dirty && (isl.last_flush is None || passed(clock, isl.last_flush->0)
        >= FLUSH_EVERY)
}

/// What a tick does.
pub open spec fn tick_reply(isl: IslandState, clock: u64) -> (Flow, IslandState) {
    if tick_is_duplicate(isl, clock) {
        (Flow::Handled, isl)
    } else {
        let ticked = IslandState { last_tick: Some(clock), ..isl };
        if flush_due(isl, clock) {
            (Flow::Perform(Task::FlushIsland, Stage::TickTail), ticked)
        } else {
            tick_tail(ticked)
        }
    }
}

/// The state once entering is under way.
pub open spec fn entry_open(isl: IslandState) -> IslandState {
    IslandState { injected: false, enter_window: ENTER_FRAMES, ..isl }
}

/// The answers that keep the island going without a server, by selector.
/// `None` where the message is none of these.
#[verifier::opaque]
pub open spec fn gate_reply(isl: IslandState, msg: Message, regs: Regs) -> (Option<Flow>, Regs) {
    let pass = (None::<Flow>, regs);
    let gated = is_gated(isl);
    let answer = |v: u32| (Some(Flow::Handled), Regs { r0: v, ..regs });
    let perform = |t: Task, s: Stage| (Some(Flow::Perform(t, s)), regs);
    match msg.sel {
        Sel::ApplicationWillResignActive | Sel::ApplicationWillTerminate => if msg.class
            == Class::IMoleVillageAppDelegate && isl.on_island {
            perform(Task::FlushIsland, Stage::Forward)
        } else {
            pass
        },
        Sel::IsConnected => if gated && msg.class == Class::NetworkManager {
            answer(1)
        } else {
            pass
        },
        Sel::State => if gated && msg.class == Class::NetworkManager {
            answer(6)
        } else {
            pass
        },
        Sel::StartNewSceneFromToScene => if isl.on_island && msg.class == Class::SceneMannager {
            if regs.r2 == ISLAND_SCENE && regs.r3 == VILLAGE_SCENE {
                perform(Task::FlushIsland, Stage::LeftIsland)
            } else {
                (Some(Flow::Forward), regs)
            }
        } else {
            pass
        },
        Sel::CurSceneId => if isl.on_island && msg.class == Class::SceneMannager {
            perform(Task::ReadWord { at: offset_by(regs.r0, 12) }, Stage::SceneId)
        } else {
            pass
        },
        Sel::MoleUpperLimit => if isl.on_island && msg.class == Class::NewSceneData {
            perform(Task::ReadWord { at: offset_by(regs.r0, 180) }, Stage::MoleLimit)
        } else {
            pass
        },
        Sel::IsReachable => if gated && msg.class != Class::NewScenePorter && msg.class
            != Class::Porter && regs.lr != LR_FREE_SHELLS {
            answer(1)
        } else {
            pass
        },
        Sel::SetModObjectToServer => if gated && msg.class == Class::NetworkManager {
            perform(Task::WriteBackObject { object: regs.r2 }, Stage::Dirtied)
        } else {
            pass
        },
        Sel::DeleteObjectFromServer => if gated && msg.class == Class::NetworkManager {
            perform(Task::DeleteObject { object: regs.r2 }, Stage::Dirtied)
        } else {
            pass
        },
        Sel::SendPacketCommandId
        | Sel::SendAllBufferDatas
        | Sel::SendAllBuffDataInNewSceneLoading => if gated {
            (Some(Flow::Handled), regs)
        } else {
            pass
        },
        Sel::GameMode => if gated && msg.class == Class::NewGameManager && (regs.lr
            == LR_RESTAURANT_PANEL || regs.lr == LR_APARTMENT_PANEL) {
            answer(1)
        } else {
            pass
        },
        Sel::CurrentGameMode => if gated && msg.class == Class::WrapperManager && regs.lr
            == LR_FOOD_SHOP_PANEL {
            answer(1)
        } else {
            pass
        },
        Sel::GetLockType4ShopItemShop => if gated && msg.class == Class::NewSceneData {
            answer(0)
        } else {
            pass
        },
        Sel::InRectOfAquaticAreaOrNot | Sel::CheckBeyoundLeftCircleBeach => if gated && msg.class
            == Class::NewScenePorter {
            answer(0)
        } else {
            pass
        },
        _ => pass,
    }
}

/// The answers to messages that enter the island, by selector. `None` where
/// the message is none of these.
#[verifier::opaque]
pub open spec fn entry_reply(isl: IslandState, msg: Message, regs: Regs) -> (Option<Flow>, IslandState) {
    let pass = (None::<Flow>, isl);
    match msg.sel {
        Sel::EnterNewIslands => (
            Some(Flow::Perform(Task::ReadEntryGates, Stage::EntryGates)),
            isl,
        ),
        Sel::UpdateGameDateForEnterNewSceneWithTargetAndCallback => if msg.class
            == Class::GameManager {
            if regs.r2 != 0 {
                (
                    Some(
                        Flow::Perform(
                            Task::ScheduleEntry { target: regs.r2 },
                            Stage::EntryScheduled,
                        ),
                    ),
                    entry_open(isl),
                )
            } else {
                (Some(Flow::Handled), IslandState { gate1_hit: true, ..entry_open(isl) })
            }
        } else {
            pass
        },
        Sel::GetAllObjectsListFromServerWithStartId => if isl.enter_window > 0 || isl.loading {
            if isl.injected {
                (Some(Flow::Handled), isl)
            } else {
                (
                    Some(Flow::Perform(Task::BuildIsland, Stage::Finish)),
                    IslandState { injected: true, ..isl },
                )
            }
        } else {
            pass
        },
        _ => pass,
    }
}

/// The second group of answers on the island, for a state in which the message
/// was noted. `None` where the message is left to the switches.
pub open spec fn service_reply(isl: IslandState, msg: Message, regs: Regs) -> (
    Option<Flow>,
    IslandState,
    Regs,
) {
    let (flow, after) = gate_reply(isl, msg, regs);
    if flow is Some {
        (flow, isl, after)
    } else {
        let (flow, entered) = entry_reply(isl, msg, regs);
        (flow, entered, regs)
    }
}

/// What becomes of a message on the island after the first group.
pub open spec fn flags_reply(isl: IslandState, msg: Message, regs: Regs, clock: u64) -> (
    Option<Flow>,
    IslandState,
    Regs,
) {
    if msg.sel == Sel::MoleIslandTick {
        let (flow, after) = tick_reply(isl, clock);
        (Some(flow), after, regs)
    } else {
        service_reply(noted(isl, msg, regs), msg, regs)
    }
}

/// Ends a tick.
pub fn island_tick_tail(isl: &mut IslandState) -> (r: Flow)
    ensures
        (r, *final(isl)) == tick_tail(*old(isl)),
{
    if island_session_active(isl) {
        return Flow::Perform(Task::ScheduleIslandTick, Stage::Finish);
    }
    isl.tick_running = false;
    Flow::Handled
}

fn island_tick(isl: &mut IslandState, clock: u64) -> (r: Flow)
    ensures
        (r, *final(isl)) == tick_reply(*old(isl), clock),
{
    if let Some(t) = isl.last_tick {
        if clock.saturating_sub(t) < TICK_DUPLICATE {
            return Flow::Handled;
        }
    }
    isl.last_tick = Some(clock);
    if isl.on_island && isl.dirty {
        let due = match isl.last_flush {
            Some(t) => clock.saturating_sub(t) >= FLUSH_EVERY,
            None => true,
        };
        if due {
            return Flow::Perform(Task::FlushIsland, Stage::TickTail);
        }
    }
    island_tick_tail(isl)
}

fn note_message(isl: &mut IslandState, msg: Message, regs: &Regs)
    ensures
        *final(isl) == noted(*old(isl), msg, *regs),
{
    if msg.class == Class::LoadingManager && msg.sel == Sel::EnterLoadingWithDelegateNextSceneId {
        if regs.r3 == 10 {
            isl.loading = true;
            isl.scene_mgr = regs.r2;
        }
    } else if msg.class == Class::SceneMannager && msg.sel == Sel::LoadNewScene && regs.r2 == 10 {
        isl.on_island = true;
        isl.loading = false;
        isl.exiting = false;
        isl.scene_mgr = regs.r0;
    } else if msg.class == Class::LoadingHoliday && msg.sel
        == Sel::AlertViewDidDismissWithButtonIndex && regs.r3 == 0 && isl.loading {
        isl.loading = false;
    }
    if isl.on_island && ((msg.class == Class::NewSceneUserInfoData && msg.sets) || (msg.class
        == Class::NewSceneData && (msg.in_new_scene || msg.sel == Sel::AddAdventureMapFragment
        || msg.sel == Sel::SetMapFragments || msg.sel == Sel::SaveUserinfoToLocal)) || (msg.class
        == Class::NetworkManager && msg.sel == Sel::AddObjectToServer)) {
        isl.island_mark_dirty();
    }
}

fn gate_arms(isl: &IslandState, msg: Message, regs: &mut Regs) -> (r: Option<Flow>)
    ensures
        (r, *final(regs)) == gate_reply(*isl, msg, *old(regs)),
        r is None ==> *final(regs) == *old(regs),
{
    proof {
        reveal(gate_reply);
    }
    if msg.class == Class::IMoleVillageAppDelegate && (msg.sel == Sel::ApplicationWillResignActive
        || msg.sel == Sel::ApplicationWillTerminate) && isl.on_island {
        return Some(Flow::Perform(Task::FlushIsland, Stage::Forward));
    }
    if isl.enter_window > 0 || isl.on_island || isl.loading {
        match (msg.class, msg.sel) {
            (Class::NetworkManager, Sel::IsConnected) => {
                regs.r0 = 1;
                return Some(Flow::Handled);
            },
            (Class::NetworkManager, Sel::State) => {
                regs.r0 = 6;
                return Some(Flow::Handled);
            },
            (Class::SceneMannager, Sel::StartNewSceneFromToScene) => {
                if isl.on_island {
                    if regs.r2 == 10 && regs.r3 == 1 {
                        return Some(Flow::Perform(Task::FlushIsland, Stage::LeftIsland));
                    }
                    return Some(Flow::Forward);
                }
            },
            (Class::SceneMannager, Sel::CurSceneId) => {
                if isl.on_island {
                    return Some(
                        Flow::Perform(
                            Task::ReadWord { at: at_offset(regs.r0, 12) },
                            Stage::SceneId,
                        ),
                    );
                }
            },
            (Class::NewSceneData, Sel::MoleUpperLimit) => {
                if isl.on_island {
                    return Some(
                        Flow::Perform(
                            Task::ReadWord { at: at_offset(regs.r0, 180) },
                            Stage::MoleLimit,
                        ),
                    );
                }
            },
            (c, Sel::IsReachable) => {
                if c != Class::NewScenePorter && c != Class::Porter && regs.lr != LR_FREE_SHELLS {
                    regs.r0 = 1;
                    return Some(Flow::Handled);
                }
            },
            (Class::NetworkManager, Sel::SetModObjectToServer) => {
                return Some(
                    Flow::Perform(Task::WriteBackObject { object: regs.r2 }, Stage::Dirtied),
                );
            },
            (Class::NetworkManager, Sel::DeleteObjectFromServer) => {
                return Some(
                    Flow::Perform(Task::DeleteObject { object: regs.r2 }, Stage::Dirtied),
                );
            },
            (_, Sel::SendPacketCommandId)
            | (_, Sel::SendAllBufferDatas)
            | (_, Sel::SendAllBuffDataInNewSceneLoading) => {
                return Some(Flow::Handled);
            },
            (Class::NewGameManager, Sel::GameMode) => {
                if regs.lr == LR_RESTAURANT_PANEL || regs.lr == LR_APARTMENT_PANEL {
                    regs.r0 = 1;
                    return Some(Flow::Handled);
                }
            },
            (Class::WrapperManager, Sel::CurrentGameMode) => {
                if regs.lr == LR_FOOD_SHOP_PANEL {
                    regs.r0 = 1;
                    return Some(Flow::Handled);
                }
            },
            (Class::NewSceneData, Sel::GetLockType4ShopItemShop)
            | (Class::NewScenePorter, Sel::InRectOfAquaticAreaOrNot)
            | (Class::NewScenePorter, Sel::CheckBeyoundLeftCircleBeach) => {
                regs.r0 = 0;
                return Some(Flow::Handled);
            },
            _ => {},
        }
    }
    None
}

fn entry_arms(isl: &mut IslandState, msg: Message, regs: &Regs) -> (r: Option<Flow>)
    ensures
        (r, *final(isl)) == entry_reply(*old(isl), msg, *regs),
{
    proof {
        reveal(entry_reply);
    }
    if msg.sel == Sel::EnterNewIslands {
        return Some(Flow::Perform(Task::ReadEntryGates, Stage::EntryGates));
    }
    if msg.class == Class::GameManager && msg.sel
        == Sel::UpdateGameDateForEnterNewSceneWithTargetAndCallback {
        isl.injected = false;
        isl.enter_window = ENTER_FRAMES;
        if regs.r2 != 0 {
            return Some(
                Flow::Perform(Task::ScheduleEntry { target: regs.r2 }, Stage::EntryScheduled),
            );
        }
        isl.gate1_hit = true;
        return Some(Flow::Handled);
    }
    if msg.sel == Sel::GetAllObjectsListFromServerWithStartId && (isl.enter_window > 0
        || isl.loading) {
        if !isl.injected {
            isl.injected = true;
            return Some(Flow::Perform(Task::BuildIsland, Stage::Finish));
        }
        return Some(Flow::Handled);
    }
    None
}

/// The second group of answers on the island.
pub fn island_flags(isl: &mut IslandState, msg: Message, regs: &mut Regs, clock: u64) -> (r: Option<
    Flow,
>)
    ensures
        (r, *final(isl), *final(regs)) == flags_reply(*old(isl), msg, *old(regs), clock),
{
    if msg.sel == Sel::MoleIslandTick {
        return Some(island_tick(isl, clock));
    }
    note_message(isl, msg, regs);
    match gate_arms(isl, msg, regs) {
        Some(flow) => Some(flow),
        None => entry_arms(isl, msg, regs),
    }
}

/// The state once the player has left.
pub open spec fn left(isl: IslandState, scene_mgr: u32) -> IslandState {
    IslandState {
        on_island: false,
        enter_window: 0,
        scene_mgr,
        exit_frames: EXIT_FRAMES,
        exiting: true,
        ..isl
    }
}

/// Notes that the player has left.
pub fn island_left(isl: &mut IslandState, scene_mgr: u32)
    ensures
        *final(isl) == left(*old(isl), scene_mgr),
{
    isl.on_island = false;
    isl.enter_window = 0;
    isl.scene_mgr = scene_mgr;
    isl.exit_frames = EXIT_FRAMES;
    isl.exiting = true;
}

/// The number of the scene to answer with: the island's, while the game says
/// neither that nor the village's. `None` where the game's own is right.
pub open spec fn forced_scene(scene: i32) -> Option<u32> {
    if scene != ISLAND_SCENE && scene != VILLAGE_SCENE {
        Some(ISLAND_SCENE)
    } else {
        None
    }
}

/// The number of the scene to answer with.
pub fn island_scene_id(scene: i32) -> (r: Option<u32>)
    ensures
        r == forced_scene(scene),
{
    if scene != 10 && scene != 1 {
        Some(ISLAND_SCENE)
    } else {
        None
    }
}

/// The state once it is known whether the island can be entered: the village
/// must be in a mode to be left, and no change of scene under way.
pub open spec fn entry_checked(isl: IslandState, mode: i32, busy: bool) -> IslandState {
    if (mode == 0 || mode == 1 || mode == 6) && !busy {
        IslandState {
            injected: false,
            gate1_hit: false,
            enter_window: if isl.enter_window <= 0 {
                ENTER_FRAMES
            } else {
                isl.enter_window
            },
            ..isl
        }
    } else {
        isl
    }
}

/// Opens the way to the island if it can be entered.
pub fn island_entry_gates(isl: &mut IslandState, mode: i32, busy: bool)
    ensures
        *final(isl) == entry_checked(*old(isl), mode, busy),
{
    if !(mode == 0 || mode == 1 || mode == 6) || busy {
        return;
    }
    isl.injected = false;
    isl.gate1_hit = false;
    if isl.enter_window <= 0 {
        isl.enter_window = ENTER_FRAMES;
    }
}

/// Away from the island, no question about the connection is answered for the
/// game.
pub proof fn law_village_is_not_gated(isl: IslandState, msg: Message, regs: Regs)
    requires
        !is_gated(isl),
        msg.sel == Sel::IsConnected || msg.sel == Sel::State || msg.sel == Sel::IsReachable
            || msg.sel == Sel::SendPacketCommandId || msg.sel == Sel::SetModObjectToServer || msg.sel
            == Sel::DeleteObjectFromServer,
    ensures
        service_reply(isl, msg, regs) == (None::<Flow>, isl, regs),
{
    reveal(gate_reply);
    reveal(entry_reply);
}

/// Whoever leaves by any way is no longer on the island, and whoever entered
/// is: the marks follow the game's own changes of scene.
pub proof fn law_marks_follow_scenes(isl: IslandState, regs: Regs)
    ensures
        !left(isl, regs.r0).on_island,
        left(isl, regs.r0).active(),
        regs.r2 == ISLAND_SCENE ==> flagged(
            isl,
            Message {
                class: Class::SceneMannager,
                sel: Sel::LoadNewScene,
                more_game: false,
                sets: false,
                in_new_scene: false,
            },
            regs,
        ).on_island,
        scene_seen(left(isl, regs.r0), VILLAGE_SCENE as i32).exiting == false,
{
}

/// The layout is provided once for each entry, however often the game asks.
pub proof fn law_layout_is_provided_once(isl: IslandState, msg: Message, regs: Regs)
    requires
        msg.sel == Sel::GetAllObjectsListFromServerWithStartId,
        isl.enter_window > 0 || isl.loading,
    ensures
        ({
            let (first, once, _) = service_reply(isl, msg, regs);
            let (second, twice, _) = service_reply(once, msg, regs);
            &&& !isl.injected ==> first == Some(Flow::Perform(Task::BuildIsland, Stage::Finish))
            &&& second == Some(Flow::Handled)
            &&& twice == once
        }),
{
    reveal(gate_reply);
    reveal(entry_reply);
}

} // verus!
