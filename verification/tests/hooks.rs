use touchhle::cheats::{is_on, island_arm_entry, toggle};
use touchhle::farm::{
    farm_instant_mature_at, farm_ivar_offsets, farm_state_stage, FarmOffsets, FarmStep, Field,
};
use touchhle::hooks::machine::{intercept, intercept_wants, resume};
use touchhle::hooks::online_arms::mainmenu_change_id_guard;
use touchhle::hooks::types::{ret_double, to_signed, to_word, Answer, BoxText, Flow, Host, Regs, Stage, Task};
use touchhle::names::{Class, Message, Sel};
use touchhle::state::CheatState;

fn host() -> Host {
    Host {
        network: false,
        mimi: None,
        account_menu: false,
        ui43: false,
        widescreen: false,
        desktop: true,
        real_keychain: false,
        password: false,
        fix_mapextend: false,
        hud: false,
        server_time: 123456,
        clock: 10_000_000_000,
    }
}

fn online_host() -> Host {
    Host { network: true, mimi: Some(10001), ..host() }
}

fn regs(r0: u32, r2: u32, r3: u32) -> Regs {
    Regs { r0, r1: 0x77, r2, r3, lr: 0x1001 }
}

/// A state in which the tools have started and the patches are in place.
fn settled() -> CheatState {
    let mut st = CheatState::new();
    st.dev_startup_done = true;
    st.cheats.patches_dirty = false;
    st.winsize_stale = false;
    st
}

/// Sends a message past the modules, none of which takes it.
fn send(st: &mut CheatState, h: &Host, class: &str, sel: &str, r: &mut Regs) -> Flow {
    let msg = Message::of(class, sel);
    let flow = intercept(st, h, msg, r);
    assert_eq!(flow, Flow::Perform(Task::AskModules, Stage::AfterModules));
    resume(st, h, msg, r, Stage::AfterModules, Answer::Nothing)
}

fn go_on(
    st: &mut CheatState,
    h: &Host,
    class: &str,
    sel: &str,
    r: &mut Regs,
    stage: Stage,
    found: Answer,
) -> Flow {
    resume(st, h, Message::of(class, sel), r, stage, found)
}

#[test]
fn names_are_told_apart() {
    let m = Message::of("NewSceneData", "setUserInfoInNewScene:");
    assert_eq!(m.class, Class::NewSceneData);
    assert!(m.sets && m.in_new_scene && !m.more_game);
    assert_eq!(Message::of("Nobody", "nothing").class, Class::Other);
    assert_eq!(Message::of("Nobody", "nothing").sel, Sel::Other);
    assert_eq!(Message::of("Farm", "innerupdate:").sel, Sel::of("innerupdate:"));
    assert!(Message::of("X", "showMoreGameButton").more_game);
    assert!(Message::of("X", "addGold:").sets);
    assert_eq!(Class::of("SceneMannager"), Class::SceneMannager);
}

#[test]
fn only_some_messages_are_looked_at() {
    let st = settled();
    let h = host();
    let wants = |c: &str, s: &str| intercept_wants(&st, &h, Message::of(c, s), false);
    assert!(wants("UserInfoData", "anything"));
    assert!(wants("CCDirector", "drawScene"));
    assert!(!wants("CCNode", "addChild:"));
    assert!(!wants("CCDirector", "winSize"));
    assert!(intercept_wants(&st, &h, Message::of("CCNode", "x"), true));
    let wide = Host { ui43: true, ..h };
    assert!(intercept_wants(&st, &wide, Message::of("CCNode", "addChild:"), false));
    let stale = CheatState { winsize_stale: true, ..st };
    assert!(intercept_wants(&stale, &h, Message::of("CCDirector", "winSize"), false));
    let mut eager = st;
    toggle(&mut eager, "minigame_reward");
    assert!(!intercept_wants(&st, &h, Message::of("Game", "gainCoin"), false));
    assert!(intercept_wants(&eager, &h, Message::of("Game", "gainCoin"), false));
}

#[test]
fn unwanted_messages_are_untouched() {
    let mut st = settled();
    let before = st;
    let mut r = regs(1, 2, 3);
    assert!(!intercept_wants(&st, &host(), Message::of("CCNode", "visit"), false));
    assert_eq!(send(&mut st, &host(), "CCNode", "visit", &mut r), Flow::Forward);
    assert_eq!(r, regs(1, 2, 3));
    assert_eq!(st, before);
}

#[test]
fn the_first_message_brings_patches_and_tools() {
    let mut st = CheatState::new();
    let h = host();
    let msg = Message::of("CCNode", "visit");
    let mut r = regs(1, 2, 3);
    assert_eq!(
        intercept(&mut st, &h, msg, &mut r),
        Flow::Perform(Task::ApplyPatches, Stage::Display)
    );
    assert!(!st.cheats.patches_dirty);
    assert_eq!(
        resume(&mut st, &h, msg, &mut r, Stage::Display, Answer::Nothing),
        Flow::Perform(Task::DevStartup, Stage::Modules)
    );
    assert_eq!(
        resume(&mut st, &h, msg, &mut r, Stage::Modules, Answer::Nothing),
        Flow::Perform(Task::AskModules, Stage::AfterModules)
    );
    assert_eq!(
        resume(&mut st, &h, msg, &mut r, Stage::AfterModules, Answer::Flag(true)),
        Flow::Handled
    );
    assert_eq!(
        resume(&mut st, &h, msg, &mut r, Stage::AfterModules, Answer::Flag(false)),
        Flow::Forward
    );
}

#[test]
fn a_remembered_upright_size_is_turned() {
    let mut st = CheatState { winsize_stale: true, ..settled() };
    let h = host();
    let msg = Message::of("CCDirector", "winSize");
    let mut r = regs(0x500, 0, 0);
    assert_eq!(
        intercept(&mut st, &h, msg, &mut r),
        Flow::Perform(Task::ReadWinSize { director: 0x77 }, Stage::WinSize)
    );
    assert_eq!(
        resume(&mut st, &h, msg, &mut r, Stage::WinSize, Answer::Pair(10, 20)),
        Flow::ReturnSize { at: 0x500, width: 20, height: 10 }
    );
    assert!(st.winsize_stale);
    assert_eq!(
        resume(&mut st, &h, msg, &mut r, Stage::WinSize, Answer::Nothing),
        Flow::Perform(Task::AskModules, Stage::AfterModules)
    );
    assert!(!st.winsize_stale);
}

#[test]
fn panels_get_the_size_of_their_design() {
    let mut st = settled();
    let h = Host { ui43: true, ..host() };
    let msg = Message::of("CCDirector", "winSize");
    let mut r = Regs { lr: 0xb469, ..regs(0x500, 0, 0) };
    assert_eq!(
        intercept(&mut st, &h, msg, &mut r),
        Flow::ReturnSize { at: 0x500, width: 1024f32.to_bits(), height: 768f32.to_bits() }
    );
    r.lr = 0xb46b;
    assert_eq!(intercept(&mut st, &h, msg, &mut r), Flow::Forward);
}

#[test]
fn layers_and_children_are_moved() {
    let mut st = settled();
    let h = Host { ui43: true, widescreen: true, ..host() };
    let mut r = regs(5, 6, 7);
    assert_eq!(
        intercept(&mut st, &h, Message::of("Any", "onEnter"), &mut r),
        Flow::Perform(Task::CenterPanel { layer: 5 }, Stage::Forward)
    );
    let add = Message::of("Any", "addChild:z:tag:");
    assert_eq!(
        intercept(&mut st, &h, add, &mut r),
        Flow::Perform(Task::AlignBackground { child: 6 }, Stage::AddChild)
    );
    assert_eq!(
        resume(&mut st, &h, add, &mut r, Stage::AddChild, Answer::Nothing),
        Flow::Perform(Task::StretchChild { parent: 5, child: 6 }, Stage::Forward)
    );
    assert_eq!(
        intercept(&mut st, &h, Message::of("Any", "addSubview:"), &mut r),
        Flow::Perform(Task::MoveSubview { parent: 5, child: 6 }, Stage::Forward)
    );
}

#[test]
fn advertisements_are_swallowed() {
    for (c, s) in [
        ("Any", "checkPromptForLoadingNewApp"),
        ("AdViewForMoleCart", "showWithTarget:selector:"),
        ("Any", "showMoreGameWithUrl:"),
        ("Any", "showMoreGameButton"),
        ("ShowAdwallBoardLayer", "open"),
        ("AutoPopZhongXinLayer", "showLayer"),
    ] {
        let mut st = settled();
        let mut r = regs(1, 0, 0);
        assert_eq!(send(&mut st, &host(), c, s, &mut r), Flow::Handled, "{}", s);
        assert_eq!(r, regs(1, 0, 0));
    }
}

#[test]
fn sharing_needs_a_connection() {
    let mut st = settled();
    let mut r = regs(1, 2, 3);
    assert_eq!(
        send(&mut st, &host(), "SharedInterfaceLayer", "onSharedToSinaWeibo", &mut r),
        Flow::Perform(Task::ShowBox { text: BoxText::NoConnection, target: 0 }, Stage::WeiboBox)
    );
    let flow = go_on(
        &mut st,
        &host(),
        "SharedInterfaceLayer",
        "onSharedToSinaWeibo",
        &mut r,
        Stage::WeiboBox,
        Answer::Flag(true),
    );
    assert_eq!((flow, r.r0), (Flow::Handled, 0));
}

#[test]
fn the_tilt_hint_is_shown_once() {
    let mut st = settled();
    let mut r = regs(9, 0, 0);
    assert_eq!(
        send(&mut st, &host(), "WashRoomLevelChoose", "startGame", &mut r),
        Flow::Perform(Task::ShowBox { text: BoxText::TiltHint, target: 9 }, Stage::TiltBox)
    );
    let mut r = regs(9, 0, 0);
    assert_eq!(
        send(&mut st, &host(), "WashRoomLevelChoose", "startGame", &mut r),
        Flow::Forward
    );
}

#[test]
fn money_is_not_spent_and_gains_grow() {
    let mut st = settled();
    let mut r = regs(1, -50i32 as u32, 0);
    assert_eq!(send(&mut st, &host(), "UserInfoData", "addGold:", &mut r), Flow::Forward);
    toggle(&mut st, "free_shop");
    st.cheats.patches_dirty = false;
    assert_eq!(send(&mut st, &host(), "UserInfoData", "addGold:", &mut r), Flow::Handled);
    assert_eq!((r.r0, r.r1, r.r2), (0, 0, 0));
    toggle(&mut st, "gold_x10");
    let mut r = regs(1, 50, 0);
    assert_eq!(send(&mut st, &host(), "UserInfoData", "addGold:", &mut r), Flow::Forward);
    assert_eq!(r.r2, 500);
    let mut r = regs(1, 0x7000_0000, 0);
    assert_eq!(send(&mut st, &host(), "UserInfoData", "addGold:", &mut r), Flow::Forward);
    assert_eq!(r.r2, 0x7fff_ffff);
    toggle(&mut st, "xp_x10");
    let mut r = regs(1, 7, 0);
    assert_eq!(send(&mut st, &host(), "UserInfoData", "addXp:", &mut r), Flow::Forward);
    assert_eq!(r.r2, 70);
}

#[test]
fn switches_answer_for_the_game() {
    let cases = [
        ("kill_anticheat", "GameData", "isHackData", 0),
        ("force_vip", "WrapperManager", "checkIsVipUser", 1),
        ("force_vip", "UserVIPInfoData", "vipValue", 999_999),
        ("all_unlock", "WrapperManager", "isUnlockedItem:", 1),
        ("max_facility", "UserInfoData", "totalWorkers", 99),
        ("harvest_mult", "ObjectManager", "getXPSpeedUpObjectMultiple", 1000),
        ("free_quest", "DailyQuest", "shellsNeeded", 0),
        ("seabed_best", "SeabedSeekingTreasureMainLayer", "generateRandomRewardId", 31169),
        ("all_achieve", "AchievementItems", "unlocked:", 1),
        ("no_cooldown", "YaliNpcActor", "checkCooltimeOver", 1),
        ("instant_build", "Bridge", "getBuildTime:", 0),
    ];
    for (key, class, sel, answer) in cases {
        let mut st = settled();
        let mut r = regs(0x1234, 0, 0);
        assert_eq!(send(&mut st, &host(), class, sel, &mut r), Flow::Forward, "{}", sel);
        toggle(&mut st, key);
        st.cheats.patches_dirty = false;
        assert_eq!(send(&mut st, &host(), class, sel, &mut r), Flow::Handled, "{}", sel);
        assert_eq!(r.r0, answer, "{}", sel);
    }
}

#[test]
fn crops_neither_wait_nor_wither() {
    let mut st = settled();
    toggle(&mut st, "no_wither");
    toggle(&mut st, "instant_crop");
    st.cheats.patches_dirty = false;
    let mut r = regs(1, 0, 0);
    assert_eq!(send(&mut st, &host(), "Farm", "getWitherTime", &mut r), Flow::Handled);
    assert_eq!(f64::from_bits((r.r1 as u64) << 32 | r.r0 as u64), 1e15);
    let mut r = regs(1, 0, 0);
    assert_eq!(send(&mut st, &host(), "FruitFarm", "getMatureTime", &mut r), Flow::Handled);
    assert_eq!((r.r0, r.r1), (0, 0));
}

#[test]
fn small_games_pay_more() {
    let mut st = settled();
    toggle(&mut st, "minigame_reward");
    let mut r = Regs { lr: 0xf45a7, ..regs(0x300, 0, 0) };
    assert_eq!(
        send(&mut st, &host(), "FishingGame", "gainCoin", &mut r),
        Flow::Perform(Task::ReadGain { game: 0x300, coin: true }, Stage::Gain)
    );
    for (before, after) in [(5, 50), (20_000, 99_999), (150_000, 150_000), (0, 0), (-3, -3)] {
        let mut r = regs(0x300, 0, 0);
        let flow = go_on(
            &mut st,
            &host(),
            "FishingGame",
            "gainCoin",
            &mut r,
            Stage::Gain,
            Answer::Word(before as u32),
        );
        assert_eq!((flow, r.r0 as i32), (Flow::Handled, after));
    }
    let mut r = Regs { lr: 0xf45a9, ..regs(0x300, 0, 0) };
    assert_eq!(send(&mut st, &host(), "FishingGame", "gainCoin", &mut r), Flow::Forward);
}

#[test]
fn the_whole_village_is_shown() {
    let mut st = settled();
    let h = Host { fix_mapextend: true, ..host() };
    let mut r = Regs { lr: 0x334bd, ..regs(0x300, 0, 0) };
    assert_eq!(
        send(&mut st, &h, "UserInfoData", "mapExtend", &mut r),
        Flow::Perform(Task::ReadMapExtend { user_info: 0x300 }, Stage::MapExtend)
    );
    let mut areas = |found| {
        let mut r = regs(0x300, 0, 0);
        go_on(&mut st, &h, "UserInfoData", "mapExtend", &mut r, Stage::MapExtend, found);
        r.r0
    };
    assert_eq!(areas(Answer::Word(0x12340020)), 0x3f);
    assert_eq!(areas(Answer::Nothing), 0x1f);
}

#[test]
fn entering_the_island_goes_step_by_step() {
    let h = host();
    let mut st = settled();
    let mut r = regs(1, 0x20, 0);
    assert_eq!(
        send(&mut st, &h, "Village", "enterNewIslands", &mut r),
        Flow::Perform(Task::ReadEntryGates, Stage::EntryGates)
    );
    go_on(&mut st, &h, "Village", "enterNewIslands", &mut r, Stage::EntryGates, Answer::Pair(3, 0));
    assert_eq!(st.island.enter_window, 0);
    go_on(&mut st, &h, "Village", "enterNewIslands", &mut r, Stage::EntryGates, Answer::Pair(1, 1));
    assert_eq!(st.island.enter_window, 0);
    go_on(&mut st, &h, "Village", "enterNewIslands", &mut r, Stage::EntryGates, Answer::Pair(1, 0));
    assert_eq!(st.island.enter_window, 1200);
    let gate = "updateGameDateForEnterNewSceneWithTarget:andCallback:";
    assert_eq!(
        send(&mut st, &h, "GameManager", gate, &mut r),
        Flow::Perform(Task::ScheduleEntry { target: 0x20 }, Stage::EntryScheduled)
    );
    assert_eq!(
        go_on(&mut st, &h, "GameManager", gate, &mut r, Stage::EntryScheduled, Answer::Nothing),
        Flow::Handled
    );
    assert!(st.island.gate1_hit);
    let mut r = regs(1, 0x99, 10);
    send(&mut st, &h, "LoadingManager", "enterLoadingWithDelegate:nextSceneId:", &mut r);
    assert!(st.island.loading && st.island.scene_mgr == 0x99);
    let objects = "getAllObjectsListFromServerWithStartId:";
    let mut r = regs(1, 0, 0);
    assert_eq!(
        send(&mut st, &h, "Any", objects, &mut r),
        Flow::Perform(Task::BuildIsland, Stage::Finish)
    );
    assert_eq!(send(&mut st, &h, "Any", objects, &mut r), Flow::Handled);
    let mut r = regs(0x99, 10, 0);
    send(&mut st, &h, "SceneMannager", "loadNewScene:", &mut r);
    assert!(st.island.on_island && !st.island.loading);
    assert_eq!(send(&mut st, &h, "NetworkManager", "isConnected", &mut r), Flow::Handled);
    assert_eq!(r.r0, 1);
    assert_eq!(send(&mut st, &h, "NetworkManager", "state", &mut r), Flow::Handled);
    assert_eq!(r.r0, 6);
}

#[test]
fn the_village_is_not_told_of_a_connection() {
    let mut st = settled();
    for sel in ["isConnected", "state", "isReachable"] {
        let mut r = regs(7, 0, 0);
        assert_eq!(send(&mut st, &host(), "NetworkManager", sel, &mut r), Flow::Forward);
        assert_eq!(r.r0, 7);
    }
}

#[test]
fn leaving_the_island_saves() {
    let h = host();
    let mut st = settled();
    st.island.on_island = true;
    let mut r = regs(0x99, 10, 1);
    assert_eq!(
        send(&mut st, &h, "SceneMannager", "startNewSceneFrom:toScene:", &mut r),
        Flow::Perform(Task::FlushIsland, Stage::LeftIsland)
    );
    let sel = "startNewSceneFrom:toScene:";
    assert_eq!(
        go_on(&mut st, &h, "SceneMannager", sel, &mut r, Stage::LeftIsland, Answer::Nothing),
        Flow::Forward
    );
    assert!(!st.island.on_island && st.island.exiting);
    assert_eq!(st.island.exit_frames, 3600);
    let mut r = regs(1, 0, 0);
    assert_eq!(
        send(&mut st, &h, "CCDirector", "drawScene", &mut r),
        Flow::Perform(Task::ReadWord { at: 0x99 + 12 }, Stage::SceneSeen)
    );
    let sel = "drawScene";
    go_on(&mut st, &h, "CCDirector", sel, &mut r, Stage::SceneSeen, Answer::Word(5));
    assert!(st.island.exiting);
    go_on(&mut st, &h, "CCDirector", sel, &mut r, Stage::SceneSeen, Answer::Word(1));
    assert!(!st.island.exiting);
}

#[test]
fn ticks_save_now_and_then() {
    let h = host();
    let mut st = settled();
    st.island.on_island = true;
    st.island.dirty = true;
    let mut r = regs(1, 0, 0);
    assert_eq!(
        send(&mut st, &h, "Any", "moleIslandTick", &mut r),
        Flow::Perform(Task::FlushIsland, Stage::TickTail)
    );
    assert_eq!(
        go_on(&mut st, &h, "Any", "moleIslandTick", &mut r, Stage::TickTail, Answer::Nothing),
        Flow::Perform(Task::ScheduleIslandTick, Stage::Finish)
    );
    assert_eq!(send(&mut st, &h, "Any", "moleIslandTick", &mut r), Flow::Handled);
    let later = Host { clock: h.clock + 700_000_000, ..h };
    st.island.last_flush = Some(h.clock);
    assert_eq!(
        send(&mut st, &later, "Any", "moleIslandTick", &mut r),
        Flow::Perform(Task::ScheduleIslandTick, Stage::Finish)
    );
    toggle(&mut st, "enable_newscene_island");
    st.island.tick_running = true;
    assert_eq!(send(&mut st, &later, "Any", "moleIslandTick", &mut r), Flow::Handled);
    assert!(!st.island.tick_running);
}

#[test]
fn hired_workers_come_at_once() {
    let h = host();
    let mut st = settled();
    st.island.on_island = true;
    let mut r = regs(0x40, 5, 0);
    let sel = "setCurrentProduceMoleNums:";
    assert_eq!(
        send(&mut st, &h, "NewSceneApartment", sel, &mut r),
        Flow::Perform(Task::ReadProduceCount { apartment: 0x40 }, Stage::Hire)
    );
    assert_eq!(
        go_on(&mut st, &h, "NewSceneApartment", sel, &mut r, Stage::Hire, Answer::Word(2)),
        Flow::Perform(Task::AddWorkers { count: 3 }, Stage::Hired { before: 2 })
    );
    let hired = Stage::Hired { before: 2 };
    assert_eq!(
        go_on(&mut st, &h, "NewSceneApartment", sel, &mut r, hired, Answer::Nothing),
        Flow::Forward
    );
    assert_eq!(r.r2, 2);
}

#[test]
fn the_island_is_off_online() {
    let mut st = settled();
    let mut r = regs(1, 0, 0);
    send(&mut st, &online_host(), "Any", "visit", &mut r);
    assert!(st.online_mode);
    st.island.tick_running = true;
    assert_eq!(send(&mut st, &online_host(), "Any", "moleIslandTick", &mut r), Flow::Handled);
    assert!(!st.island.tick_running);
}

#[test]
fn the_islands_clock_is_the_machines() {
    let mut st = settled();
    let mut r = regs(1, 0, 0);
    assert_eq!(
        send(&mut st, &host(), "NewSceneTimer", "getCurrentServerTime", &mut r),
        Flow::Handled
    );
    assert_eq!(r.r0, 123456);
}

#[test]
fn a_frame_moves_the_login_on() {
    let h = Host { hud: true, ..online_host() };
    let mut st = settled();
    let mut r = regs(1, 0, 0);
    for _ in 0..180 {
        assert_eq!(send(&mut st, &h, "CCDirector", "drawScene", &mut r), Flow::Forward);
        assert!(!st.login.armed);
    }
    assert_eq!(
        send(&mut st, &h, "CCDirector", "drawScene", &mut r),
        Flow::Perform(Task::FireLogin, Stage::FrameLoad)
    );
    assert!(st.login.armed && st.login.mimi == 10001);
    assert!(st.cheats.map_sync && st.cheats.patches_dirty);
    st.login.fired = true;
    st.login.pkt_sent = true;
    st.login.state_is_7 = true;
    let mut at = |stage| {
        go_on(&mut st, &h, "CCDirector", "drawScene", &mut r, stage, Answer::Nothing)
    };
    assert_eq!(at(Stage::FrameLoad), Flow::Perform(Task::DriveStreams, Stage::FramePassport));
    assert_eq!(at(Stage::FramePassport), Flow::Perform(Task::ScheduleHud, Stage::FrameUpload));
    assert_eq!(at(Stage::FrameUpload), Flow::Forward);
    st.login.map_upload_frames = 600;
    assert_eq!(
        go_on(&mut st, &h, "CCDirector", "drawScene", &mut r, Stage::FrameUpload, Answer::Nothing),
        Flow::Perform(Task::UploadMap, Stage::FrameLogin)
    );
    st.login.map_upload_frames = 2400;
    assert_eq!(
        go_on(&mut st, &h, "CCDirector", "drawScene", &mut r, Stage::FrameUpload, Answer::Nothing),
        Flow::Perform(Task::UploadMap, Stage::FrameLogin)
    );
}

#[test]
fn a_refused_login_is_told_once() {
    let h = online_host();
    let mut st = settled();
    let mut r = regs(0x10, 0x20, 0);
    let sel = "onLoginMainMenuCommandReceived:";
    assert_eq!(
        send(&mut st, &h, "MainMenuScene", sel, &mut r),
        Flow::Perform(Task::ReadReplyHeader { header: 0x20 }, Stage::ReplyHeader)
    );
    let refused = Answer::Pair(112, 1234);
    go_on(&mut st, &h, "MainMenuScene", sel, &mut r, Stage::ReplyHeader, refused);
    assert!(st.login.hints.refused_pending);
    assert_eq!(st.login.mainmenu_scene, 0x10);
    assert_eq!(
        send(&mut st, &h, "CCDirector", "drawScene", &mut r),
        Flow::Perform(Task::AskBoxFree, Stage::FrameBox)
    );
    assert_eq!(
        go_on(&mut st, &h, "CCDirector", "drawScene", &mut r, Stage::FrameBox, Answer::Flag(true)),
        Flow::Perform(Task::ShowBox { text: BoxText::LoginRefused, target: 0 }, Stage::Island)
    );
    assert_eq!(send(&mut st, &h, "CCDirector", "drawScene", &mut r), Flow::Forward);
}

#[test]
fn a_loading_village_is_built_by_hand() {
    let h = online_host();
    let mut st = settled();
    let mut r = regs(0x55, 4, 0);
    assert_eq!(send(&mut st, &h, "LoadingLayer", "showWithTarget:", &mut r), Flow::Forward);
    assert_eq!(st.login.pending_loadtarget, 0x55);
    let mut r = regs(1, 0, 0);
    for _ in 0..6 {
        assert_eq!(send(&mut st, &h, "CCDirector", "drawScene", &mut r), Flow::Forward);
    }
    assert_eq!(
        send(&mut st, &h, "CCDirector", "drawScene", &mut r),
        Flow::Perform(Task::LoadTarget { layer: 0x55 }, Stage::FrameStreams)
    );
    assert_eq!(st.login.pending_loadtarget, 0);
}

#[test]
fn the_connection_is_measured() {
    let h = online_host();
    let mut st = settled();
    let sel = "changeStateTo:withMessage:";
    let mut r = regs(1, 6, 0);
    assert_eq!(send(&mut st, &h, "NetworkManager", sel, &mut r), Flow::Forward);
    let later = Host { clock: h.clock + 42_500_000, ..h };
    let mut r = regs(1, 7, 0);
    send(&mut st, &later, "NetworkManager", sel, &mut r);
    let t = st.login.traffic;
    assert_eq!((t.sent, t.received, t.rtt_ms), (1, 1, 42));
    assert!(st.login.state_is_7);
}

#[test]
fn the_account_menu_takes_requests_over() {
    let h = Host { account_menu: true, ..online_host() };
    let mut st = settled();
    let mut r = regs(1, 0x44, 0);
    send(&mut st, &h, "Any", "showAccountManagerViewWithDelegate:andUserID:", &mut r);
    assert!(st.login.menu_active);
    assert_eq!(
        send(&mut st, &h, "TMA_ASINetworkQueue", "addOperation:", &mut r),
        Flow::Perform(Task::ProxyRequest { request: 0x44 }, Stage::ProxiedRequest)
    );
    assert_eq!(
        send(&mut st, &h, "TMAHttpManager", "getDictionaryWithJsonData:", &mut r),
        Flow::Perform(Task::ParseReply { data: 0x44 }, Stage::ParsedReply)
    );
    let sel = "getDictionaryWithJsonData:";
    let word = Answer::Word(0x88);
    assert_eq!(
        go_on(&mut st, &h, "TMAHttpManager", sel, &mut r, Stage::ParsedReply, word),
        Flow::Handled
    );
    assert_eq!(r.r0, 0x88);
}

#[test]
fn another_account_needs_its_button() {
    assert_eq!(mainmenu_change_id_guard(0x1000, 0x10, 0x14, 1, 0), Some(0x1010));
    assert_eq!(mainmenu_change_id_guard(0, 0x10, 0x14, 1, 0), None);
    assert_eq!(mainmenu_change_id_guard(0x1000, 0, 0x14, 1, 0), None);
    assert_eq!(mainmenu_change_id_guard(0x1000, 0x10, 0x1000, 1, 0), None);
    assert_eq!(mainmenu_change_id_guard(0x1000, 0x10, 0x14, 0, 0), None);
    assert_eq!(mainmenu_change_id_guard(0x1000, 0x10, 0x14, 1, 1), None);
}

#[test]
fn doubles_go_into_two_registers() {
    let mut r = regs(1, 2, 3);
    ret_double(&mut r, 0x0123_4567_89ab_cdef);
    assert_eq!((r.r0, r.r1, r.r2), (0x89ab_cdef, 0x0123_4567, 2));
}

#[test]
fn registers_hold_signed_numbers() {
    for (word, number) in [(0, 0), (5, 5), (0xffff_ffff, -1), (0x8000_0000, i32::MIN)] {
        assert_eq!(to_signed(word), number);
        assert_eq!(to_word(number), word);
    }
}

#[test]
fn only_a_growing_field_ripens() {
    let offsets = FarmOffsets { begin: 8, state: 12, stage: 16, mature: 20, wither: 24 };
    assert_eq!(farm_ivar_offsets(0xb03358, offsets), Some(offsets));
    assert_eq!(farm_ivar_offsets(0xb03359, offsets), None);
    assert_eq!(farm_ivar_offsets(0xb03358, FarmOffsets { stage: 0x1000, ..offsets }), None);
    assert_eq!(farm_state_stage(100, Some(offsets)), Some((112, 116)));
    assert_eq!(farm_state_stage(0, Some(offsets)), None);
    let f = Field {
        state: 4,
        stage: 1,
        mature_bits: 60f32.to_bits(),
        wither_bits: 600f32.to_bits(),
    };
    assert_eq!(farm_instant_mature_at(1, Some(f), false), FarmStep::MoveSowing);
    assert_eq!(farm_instant_mature_at(1, Some(f), true), FarmStep::Due);
    assert_eq!(farm_instant_mature_at(0, Some(f), false), FarmStep::Leave);
    assert_eq!(farm_instant_mature_at(1, None, false), FarmStep::Leave);
    for g in [
        Field { state: 3, ..f },
        Field { stage: 4, ..f },
        Field { mature_bits: (-1f32).to_bits(), ..f },
        Field { mature_bits: 0, ..f },
        Field { wither_bits: 2f32.to_bits(), ..f },
        Field { wither_bits: f32::NAN.to_bits(), ..f },
    ] {
        assert_eq!(farm_instant_mature_at(1, Some(g), false), FarmStep::Leave);
    }
}

#[test]
fn without_an_account_the_login_takes_no_part() {
    let mut st = settled();
    let before = st.login;
    for (class, sel) in [
        ("CCDirector", "drawScene"),
        ("MainMenuScene", "onLoginMainMenuCommandReceived:"),
        ("AsyncSocket", "setSocketFromStreamsAndReturnError:"),
        ("NetworkManager", "changeStateTo:withMessage:"),
        ("LoadingLayer", "showWithTarget:"),
    ] {
        let mut r = regs(0x10, 4, 0);
        assert_eq!(send(&mut st, &host(), class, sel, &mut r), Flow::Forward, "{}", sel);
        assert_eq!(r, regs(0x10, 4, 0));
        assert_eq!(st.login, before);
    }
}

#[test]
fn the_account_menu_needs_its_mode() {
    let h = online_host();
    let mut st = settled();
    let mut r = regs(1, 0x44, 0);
    for (class, sel) in [
        ("Any", "showAccountManagerViewWithDelegate:andUserID:"),
        ("TMAHttpManager", "sendRequest:"),
        ("TMA_ASINetworkQueue", "addOperation:"),
        ("TMAHttpManager", "getDictionaryWithJsonData:"),
        ("TMA_ASIHTTPRequest", "responseData"),
    ] {
        assert_eq!(send(&mut st, &h, class, sel, &mut r), Flow::Forward, "{}", sel);
    }
    assert!(!st.login.menu_active);
    assert_eq!(st.login.pending_reqid, 0);
}

#[test]
fn only_the_view_is_widened() {
    let mut st = settled();
    let h = Host { fix_mapextend: true, ..host() };
    for lr in [0, 0x334bc, 0x334bf, 0x35362] {
        let mut r = Regs { lr, ..regs(0x300, 0, 0) };
        assert_eq!(send(&mut st, &h, "UserInfoData", "mapExtend", &mut r), Flow::Forward);
        assert_eq!(r.r0, 0x300);
    }
}

#[test]
fn another_account_is_shown_or_explained() {
    let sel = "onButtonChangeIDSelected:";
    let mut st = settled();
    st.login.pkt_sent = true;
    let mut r = regs(0x10, 0, 0);
    assert_eq!(
        send(&mut st, &online_host(), "MainMenuScene", sel, &mut r),
        Flow::Perform(Task::ReadChangeIdGuard { scene: 0x10 }, Stage::ChangeId)
    );
    let at = Answer::Word(0x50);
    assert_eq!(
        go_on(&mut st, &online_host(), "MainMenuScene", sel, &mut r, Stage::ChangeId, at),
        Flow::Perform(Task::ShowBox { text: BoxText::AccountHint, target: 0x10 }, Stage::AccountBox)
    );
    assert_eq!(
        go_on(&mut st, &online_host(), "MainMenuScene", sel, &mut r, Stage::ChangeId, at),
        Flow::Forward
    );
    let menu = Host { account_menu: true, ..online_host() };
    assert_eq!(
        go_on(&mut st, &menu, "MainMenuScene", sel, &mut r, Stage::ChangeId, at),
        Flow::Perform(Task::ClearByte { at: 0x50 }, Stage::FinishZero)
    );
    assert_eq!(st.login.pending_show_login, 0x10);
    st.login.mainmenu_scene = 0x10;
    assert_eq!(
        go_on(&mut st, &menu, "CCDirector", "drawScene", &mut r, Stage::FrameLogin, Answer::Nothing),
        Flow::Perform(Task::ShowLogin { scene: 0x10 }, Stage::FrameRefused)
    );
}

#[test]
fn the_island_answers_for_the_server() {
    let h = host();
    let mut st = settled();
    st.island.on_island = true;
    let cases = [
        ("NewScenePorter", "inRectOfAquaticAreaOrNot:", 0),
        ("NewSceneData", "getLockType4ShopItem:shop:", 0),
        ("Any", "isReachable", 1),
    ];
    for (class, sel, answer) in cases {
        let mut r = regs(0x99, 0, 0);
        assert_eq!(send(&mut st, &h, class, sel, &mut r), Flow::Handled, "{}", sel);
        assert_eq!(r.r0, answer);
    }
    let mut r = regs(0x99, 0, 0);
    assert_eq!(send(&mut st, &h, "Porter", "isReachable", &mut r), Flow::Forward);
    assert_eq!(
        send(&mut st, &h, "NewSceneData", "moleUpperLimit", &mut r),
        Flow::Perform(Task::ReadWord { at: 0x99 + 180 }, Stage::MoleLimit)
    );
    let limit = Stage::MoleLimit;
    let sel = "moleUpperLimit";
    assert_eq!(
        go_on(&mut st, &h, "NewSceneData", sel, &mut r, limit, Answer::Word(15)),
        Flow::Handled
    );
    assert_eq!(r.r0, 16);
    let mut r = regs(0x99, 0, 0);
    assert_eq!(
        go_on(&mut st, &h, "NewSceneData", sel, &mut r, limit, Answer::Word(16)),
        Flow::Forward
    );
    assert_eq!(
        send(&mut st, &h, "NetworkManager", "deleteObjectFromServer:", &mut r),
        Flow::Perform(Task::DeleteObject { object: 0 }, Stage::Dirtied)
    );
    let del = "deleteObjectFromServer:";
    go_on(&mut st, &h, "NetworkManager", del, &mut r, Stage::Dirtied, Answer::Nothing);
    assert!(st.island.dirty);
    let mut r = Regs { lr: 0x2497a9, ..regs(0x99, 0, 0) };
    assert_eq!(send(&mut st, &h, "NewGameManager", "gameMode", &mut r), Flow::Handled);
    assert_eq!(r.r0, 1);
}

#[test]
fn changes_on_the_island_are_noted() {
    let h = host();
    for (class, sel) in [
        ("NewSceneUserInfoData", "setNextQuestId:"),
        ("NewSceneUserInfoData", "addWorker:"),
        ("NewSceneData", "addGoldInNewScene:"),
        ("NewSceneData", "setMapFragments:"),
        ("NetworkManager", "addObjectToServer:"),
    ] {
        let mut st = settled();
        let mut r = regs(1, 0, 0);
        send(&mut st, &h, class, sel, &mut r);
        assert!(!st.island.dirty);
        st.island.on_island = true;
        send(&mut st, &h, class, sel, &mut r);
        assert!(st.island.dirty, "{}", sel);
    }
}

#[test]
fn the_receiver_is_kept() {
    let h = Host { ui43: true, widescreen: true, fix_mapextend: true, ..online_host() };
    for (class, sel) in [
        ("CCDirector", "drawScene"),
        ("UserInfoData", "addGold:"),
        ("MVPacketHeader", "setUserID:"),
        ("NetworkManager", "loginWithDeviceInfoAndUserIDInfoInSendType:"),
        ("Any", "onEnter"),
        ("Any", "addChild:z:tag:"),
        ("GameData", "loadUserInfoData"),
    ] {
        let mut st = CheatState::new();
        toggle(&mut st, "gold_x10");
        let msg = Message::of(class, sel);
        let mut r = regs(0x10, 3, 4);
        let mut flow = intercept(&mut st, &h, msg, &mut r);
        while let Flow::Perform(_, stage) = flow {
            flow = resume(&mut st, &h, msg, &mut r, stage, Answer::Nothing);
        }
        assert_eq!(flow, Flow::Forward, "{}", sel);
        assert_eq!((r.r0, r.r1), (0x10, 0x77), "{}", sel);
    }
}

#[test]
fn the_island_stays_off_online() {
    let mut st = settled();
    let mut r = regs(1, 0, 0);
    send(&mut st, &online_host(), "Any", "visit", &mut r);
    for key in ["enable_newscene_island", "golden_win", "enable_newscene_island"] {
        toggle(&mut st, key);
        island_arm_entry(&mut st);
        assert!(!is_on(&st, "enable_newscene_island"));
        assert_eq!(st.cheats.bits & (1 << 19), 0);
    }
}
