use touchhle::cf_time::{cf_fix_residue, fix_residue_i32, fix_residue_u32, CfTime, EPOCH_GAP};
use touchhle::island::entry::{
    build_default_island_mapdata, default_island, EntryFacts, IslandLoads, IslandScene,
};
use touchhle::island::files::{
    guard_userinfo_after_check, guard_userinfo_before_load, quarantine_corrupt_file,
    quarantine_succeeded, FileGuard, FileMarks, GuardOutcome, GuardStep, IslandFile, Load,
};
use touchhle::island::fragments::{inject_sandgarden_fragments, load_island_fragments};
use touchhle::island::map_data::{Detail, Head, MapData, MapObject};
use touchhle::island::merge::LiveObject;
use touchhle::island::save::{flush_counts, flush_summary, island_flush, Written};
use touchhle::island::session::{island_gate1_hit, island_session_active, IslandState};
use touchhle::island::ships::ShipRecord;
use touchhle::island::user_info::{
    load_island_userinfo, save_island_userinfo, Achievement, Npc, Progress, UserInfo,
};

fn time(secs: i64) -> CfTime {
    CfTime { secs, frac: 0 }
}

const NOW: i64 = 800_000_000;

fn head(seq_id: i32, object_id: i32, detail: Detail) -> Head {
    Head { handle: 7, seq_id, object_id, tile_x: 0, tile_y: 0, flip: 0, detail }
}

fn obj(seq_id: i32, object_id: i32, detail: Detail) -> MapObject {
    MapObject { head: head(seq_id, object_id, detail), gifts: vec![] }
}

fn ship(state: i32, sailing: bool, begin: i64, map: i32, crew: i32) -> Detail {
    Detail::Ship {
        begin_discover: time(begin),
        begin_fix: time(0),
        state,
        sailing,
        search_map: map,
        on_board: crew,
    }
}

fn seqs(md: &MapData) -> Vec<i32> {
    md.entries.iter().flat_map(|e| e.objects.iter().map(|o| o.head.seq_id)).collect()
}

fn keys(md: &MapData) -> Vec<i32> {
    md.entries.iter().map(|e| e.key).collect()
}

#[test]
fn stamps_of_the_wrong_clock_are_repaired() {
    let now = time(NOW);
    let wrong = CfTime { secs: NOW + EPOCH_GAP - 3600, frac: 0x4d00_0000 };
    assert_eq!(cf_fix_residue(wrong, now), Some(CfTime { secs: NOW - 3600, frac: 0x4d00_0000 }));
    assert_eq!(cf_fix_residue(time(NOW - 3600), now), None);
    assert_eq!(cf_fix_residue(time(0), now), None);
    assert_eq!(cf_fix_residue(time(NOW + 489153600), now), None);
    assert_eq!(
        cf_fix_residue(CfTime { secs: NOW + 489153600, frac: 0x400 }, now),
        Some(CfTime { secs: NOW + 489153600 - EPOCH_GAP, frac: 0x400 })
    );
    assert_eq!(cf_fix_residue(time(4294967295), now), None);
    assert_eq!(fix_residue_u32((NOW + EPOCH_GAP) as u32, now), NOW as u32);
    assert_eq!(fix_residue_u32(12, now), 12);
    assert_eq!(fix_residue_i32((NOW + EPOCH_GAP) as i32, now), NOW as i32);
    assert_eq!(fix_residue_u32(600_000_000, time(-100)), 0);
}

fn as_double(t: CfTime) -> f64 {
    t.secs as f64 + t.frac as f64 / 4294967296.0
}

#[test]
fn stamps_are_repaired_in_double_precision() {
    let lead = 489153600.0;
    let gap = 978307200.0;
    let moments = [
        CfTime { secs: 800_000_000, frac: 0x200 },
        CfTime { secs: 800_000_000, frac: 0x600 },
        CfTime { secs: 803_456_789, frac: 0xfffe_0200 },
        CfTime { secs: 100_000_000, frac: 0x40 },
        CfTime { secs: -500_000_000, frac: 0x100 },
        CfTime { secs: -978_307_201, frac: 0xffff_fe00 },
    ];
    for now in moments {
        let floor = as_double(now) + lead;
        let whole = floor.floor();
        let frac = ((floor - whole) * 4294967296.0) as u32;
        let bound = CfTime { secs: whole as i64, frac };
        assert_eq!(as_double(bound), floor);
        assert_eq!(cf_fix_residue(bound, now), None);
        let after = CfTime { secs: bound.secs + 1, frac: 0x8000_0000 };
        let r = cf_fix_residue(after, now).unwrap();
        assert_eq!(as_double(r), as_double(after) - gap);
    }
    // The bound lies between two stamps, and is the even one of them.
    let now = CfTime { secs: 800_000_000, frac: 0x600 };
    let up = CfTime { secs: 1_289_153_600, frac: 0x800 };
    assert_eq!(cf_fix_residue(up, now), None);
    let down = CfTime { secs: 1_289_153_600, frac: 0x400 };
    let now = CfTime { secs: 800_000_000, frac: 0x200 };
    assert_eq!(
        cf_fix_residue(down, now),
        Some(CfTime { secs: 310_846_400, frac: 0x400 })
    );
    // A stamp whose place on the other clock needs more digits than there are.
    let v = CfTime { secs: 100_000_000, frac: 0x40 };
    let r = cf_fix_residue(v, time(-500_000_000)).unwrap();
    assert_eq!(r, time(100_000_000 - EPOCH_GAP));
    assert_eq!(as_double(r), as_double(v) - gap);
    // What whole seconds cannot hold.
    assert_eq!(fix_residue_i32(-1_500_000_000, time(-3_000_000_000)), i32::MIN);
}

#[test]
fn buildings_are_filed_and_found() {
    let mut md = MapData::empty();
    md.island_put_append(28, obj(5, 1, Detail::Other));
    md.island_put_append(28, obj(6, 2, Detail::Other));
    md.island_put(29, obj(7, 3, Detail::Other));
    md.island_put(29, obj(8, 4, Detail::Other));
    assert_eq!(keys(&md), vec![28, 29]);
    assert_eq!(seqs(&md), vec![5, 6, 8]);
    assert_eq!(md.count(), 2);
    assert_eq!(md.island_find_by_seqid(6), Some((0, 1)));
    assert_eq!(md.island_find_by_seqid(8), Some((1, 0)));
    assert_eq!(md.island_find_by_seqid(7), None);
    assert_eq!(md.island_find_by_seqid(0), None);
}

#[test]
fn a_written_back_building_is_kept() {
    let mut md = MapData::empty();
    md.island_put_append(30, obj(5, 1, Detail::Other));
    md.writeback_island_object(obj(5, 99, Detail::Other));
    assert_eq!(md.entries[0].objects[0].head.object_id, 99);
    md.writeback_island_object(obj(6, 2, Detail::CafeShop { is_new: false }));
    assert_eq!(keys(&md), vec![30, 41]);
    md.writeback_island_object(obj(7, 2, Detail::Other));
    md.writeback_island_object(obj(0, 2, Detail::CafeShop { is_new: false }));
    assert_eq!(seqs(&md), vec![5, 6]);
}

#[test]
fn a_torn_down_building_is_gone() {
    let mut md = default_island();
    md.delete_island_object(90002);
    assert_eq!(seqs(&md), vec![90001, 90003, 90004, 90005, 90006, 90007, 90008]);
    md.delete_island_object(90002);
    md.delete_island_object(0);
    assert_eq!(seqs(&md).len(), 7);
}

#[test]
fn new_buildings_are_merged_once() {
    let lives = || {
        vec![
            LiveObject { object_type: 50, snap: Some(obj(3, 1, Detail::Other)) },
            LiveObject { object_type: 50, snap: None },
            LiveObject { object_type: 0, snap: Some(obj(4, 1, Detail::Other)) },
            LiveObject { object_type: 50, snap: Some(obj(0, 1, Detail::Other)) },
            LiveObject {
                object_type: 77,
                snap: Some(obj(90006, 1, Detail::SuperShellTree { bought: 1 })),
            },
        ]
    };
    let mut md = default_island();
    assert_eq!(md.merge_new_island_objects_into_mapdata(lives()), 2);
    assert_eq!(keys(&md), vec![28, 29, 32, 39, 50, 40]);
    assert_eq!(md.merge_new_island_objects_into_mapdata(lives()), 0);
    assert_eq!(seqs(&md).len(), 10);
}

#[test]
fn numbers_are_dealt_out_above_all_others() {
    let mut md = MapData::empty();
    md.island_put_append(28, obj(0, 1, Detail::Other));
    md.island_put_append(28, obj(90010, 2, Detail::Other));
    md.island_put_append(29, obj(0, 3, Detail::Other));
    md.assign_island_seqids();
    assert_eq!(seqs(&md), vec![90011, 90010, 90012]);
    assert_eq!(md.restore_seqid_cursor(7), 90012);
    assert_eq!(md.restore_seqid_cursor(100_000), 100_000);
    let mut fresh = MapData::empty();
    fresh.island_put_append(28, obj(0, 1, Detail::Other));
    fresh.assign_island_seqids();
    assert_eq!(seqs(&fresh), vec![90001]);
    assert_eq!(MapData::empty().restore_seqid_cursor(3), 3);
}

#[test]
fn ships_and_cafes_survive_saving() {
    let mut md = MapData::empty();
    md.island_put_append(39, obj(1, 34001, ship(2, false, 0, 0, 0)));
    md.island_put_append(39, obj(2, 34001, ship(1, false, 0, 0, 0)));
    md.island_put_append(41, obj(3, 500, Detail::CafeShop { is_new: true }));
    md.island_put_append(28, obj(4, 9, Detail::Other));
    md.entries[0].objects[1].gifts = vec![11, 12];
    let saved = md.save_island_ships();
    assert_eq!(saved.len(), 3);
    assert_eq!((saved[0].kind, saved[0].ord), (1, 0));
    assert_eq!((saved[1].kind, saved[1].ord), (1, 1));
    assert_eq!((saved[2].kind, saved[2].ord, saved[2].is_new), (2, 0, Some(1)));
    let mut fresh = MapData::empty();
    fresh.island_put_append(39, obj(0, 34001, ship(0, false, 0, 0, 0)));
    fresh.island_put_append(39, obj(0, 34001, ship(0, false, 0, 0, 0)));
    fresh.island_put_append(41, obj(0, 500, Detail::CafeShop { is_new: false }));
    assert_eq!(fresh.load_island_ships(&saved), 3);
    let state = |o: &MapObject| match o.head.detail {
        Detail::Ship { state, .. } => state,
        _ => -1,
    };
    assert_eq!(state(&fresh.entries[0].objects[0]), 2);
    assert_eq!(state(&fresh.entries[0].objects[1]), 1);
    assert_eq!(fresh.entries[0].objects[1].gifts, vec![11, 12]);
    assert_eq!(fresh.entries[1].objects[0].head.detail, Detail::CafeShop { is_new: true });
}

#[test]
fn ships_are_found_by_kind_id_and_order() {
    let mut md = MapData::empty();
    md.island_put_append(39, obj(1, 34001, ship(1, false, 0, 0, 0)));
    md.island_put_append(39, obj(2, 34002, ship(2, false, 0, 0, 0)));
    md.island_put_append(39, obj(3, 34001, ship(2, false, 0, 0, 0)));
    let saved = md.save_island_ships();
    let mut fresh = MapData::empty();
    fresh.island_put_append(28, obj(9, 34001, Detail::Other));
    fresh.island_put_append(39, obj(8, 34002, ship(0, false, 0, 0, 0)));
    fresh.island_put_append(39, obj(7, 34001, ship(0, false, 0, 0, 0)));
    fresh.island_put_append(39, obj(6, 34001, ship(0, false, 0, 0, 0)));
    fresh.island_put_append(39, obj(5, 34001, ship(0, false, 0, 0, 0)));
    assert_eq!(fresh.load_island_ships(&saved), 3);
    let states: Vec<Detail> =
        fresh.entries[1].objects.iter().map(|o| o.head.detail).collect();
    assert_eq!(
        states,
        vec![
            ship(2, false, 0, 0, 0),
            ship(1, false, 0, 0, 0),
            ship(2, false, 0, 0, 0),
            ship(0, false, 0, 0, 0)
        ]
    );
    assert_eq!(fresh.entries[0].objects[0].head.detail, Detail::Other);
}

#[test]
fn strange_ship_records_are_ignored() {
    let mut md = MapData::empty();
    md.island_put_append(39, obj(1, 34001, ship(1, false, 0, 0, 0)));
    let rec = |kind, object_id, ord, state| ShipRecord {
        kind,
        object_id,
        ord,
        ship_state: state,
        gifts: vec![],
        is_new: None,
    };
    let n = md.load_island_ships(&vec![
        rec(1, 34001, 1, Some(2)),
        rec(1, 34002, 0, Some(2)),
        rec(2, 34001, 0, Some(2)),
        rec(1, 34001, -1, Some(2)),
    ]);
    assert_eq!(n, 0);
    assert_eq!(md.load_island_ships(&vec![rec(1, 34001, 0, Some(9))]), 1);
    assert_eq!(md.entries[0].objects[0].head.detail, ship(1, false, 0, 0, 0));
}

#[test]
fn a_stuck_ship_is_moored() {
    let mut md = MapData::empty();
    md.island_put_append(39, obj(1, 1, ship(2, true, 0, 0, 5)));
    md.island_put_append(39, obj(2, 1, ship(2, true, 0, 3, 0)));
    md.island_put_append(39, obj(3, 1, ship(2, true, 0, 3, 5)));
    md.island_put_append(39, obj(4, 1, ship(2, true, 9, 0, 0)));
    md.fix_stuck_ships();
    let sailing: Vec<bool> = md.entries[0]
        .objects
        .iter()
        .map(|o| matches!(o.head.detail, Detail::Ship { sailing: true, .. }))
        .collect();
    assert_eq!(sailing, vec![false, false, true, true]);
}

#[test]
fn the_layouts_stamps_are_repaired() {
    let mut md = MapData::empty();
    md.island_put_append(
        29,
        obj(
            1,
            1,
            Detail::Restaurant {
                begin_upgrade: (NOW + EPOCH_GAP) as u32,
                last_cool: 5,
                property: 1,
                level: 2,
                construct_value: 3,
                island_value: 4,
            },
        ),
    );
    md.migrate_island_timestamps(time(NOW));
    assert_eq!(
        md.entries[0].objects[0].head.detail,
        Detail::Restaurant {
            begin_upgrade: NOW as u32,
            last_cool: 5,
            property: 1,
            level: 2,
            construct_value: 3,
            island_value: 4
        }
    );
}

#[test]
fn pieces_of_the_sand_map_follow_the_quests() {
    let give = |by: bool, frag: bool, map: bool, progress: Option<(i32, i32)>| {
        let mut frags = vec![31005];
        let mut by_quest = by;
        inject_sandgarden_fragments(&mut frags, &mut by_quest, frag, map, progress);
        (frags, by_quest)
    };
    assert_eq!(give(false, false, true, Some((1, 0))), (vec![31005, 31006, 31007, 31008], false));
    assert_eq!(give(false, false, false, Some((1, 0))), (vec![31005], true));
    assert_eq!(give(false, true, true, Some((84, 0))), (vec![31005, 31007], true));
    assert_eq!(give(true, false, true, Some((84, 83))), (vec![31005], true));
    assert_eq!(give(false, false, false, None), (vec![31005, 31006, 31007, 31008], false));
    assert_eq!(give(true, false, true, Some((0, 0))), (vec![31005, 31006, 31007, 31008], true));
}

#[test]
fn saved_pieces_are_joined_once() {
    let mut frags = vec![1, 2];
    assert_eq!(load_island_fragments(&mut frags, &vec![2, 3, 3]), 1);
    assert_eq!(frags, vec![1, 2, 3]);
}

fn progress(quest: i32) -> Progress {
    Progress {
        next_quest: quest,
        cur_quest: 2,
        next_story: 3,
        extend_map: 4,
        build_value: 5,
        total_workers: 6,
        idle_workers: 1,
        quest_result: time(NOW + EPOCH_GAP),
    }
}

#[test]
fn progress_survives_saving() {
    let ui = UserInfo {
        progress: progress(12),
        npcs: Some(vec![Npc { handle: 9, last_cool_down: time(NOW + EPOCH_GAP) }]),
        achievements: Some(vec![
            Achievement { key: 1, unlocked: Some((NOW + EPOCH_GAP) as i32) },
            Achievement { key: 2, unlocked: None },
        ]),
    };
    let file = save_island_userinfo(&ui, true);
    assert_eq!(file.numbers.idle_workers, Some(1));
    let mut fresh =
        UserInfo { progress: progress(1), npcs: None, achievements: None };
    assert!(load_island_userinfo(&mut fresh, file, time(NOW)));
    assert_eq!(
        fresh.progress,
        Progress { idle_workers: 6, quest_result: time(NOW), ..progress(12) }
    );
    assert_eq!(fresh.npcs.unwrap()[0].last_cool_down, time(NOW));
    assert_eq!(fresh.achievements.as_ref().unwrap()[0].unlocked, Some(NOW as i32));
    assert_eq!(fresh.achievements.unwrap()[1].unlocked, None);
    let plain = save_island_userinfo(&ui, false);
    assert_eq!(plain.numbers.frag_by_quest, None);
}

#[test]
fn missing_fields_keep_what_is_there() {
    let ui = UserInfo { progress: progress(12), npcs: None, achievements: None };
    let mut file = save_island_userinfo(&ui, false);
    file.numbers.next_quest = None;
    file.numbers.total_workers = None;
    file.numbers.quest_result = None;
    file.numbers.frag_by_quest = Some(0);
    let mut fresh = UserInfo {
        progress: Progress { total_workers: 40, ..progress(77) },
        npcs: Some(vec![]),
        achievements: None,
    };
    assert!(!load_island_userinfo(&mut fresh, file, time(NOW)));
    assert_eq!(fresh.progress.next_quest, 77);
    assert_eq!((fresh.progress.total_workers, fresh.progress.idle_workers), (40, 40));
    assert!(fresh.npcs.is_some());
}

fn guard() -> FileGuard {
    FileGuard { failed: FileMarks::none() }
}

#[test]
fn damaged_files_are_protected() {
    let mut g = guard();
    g.island_note_load_failure(IslandFile::Fragments, true, false, None);
    assert!(g.island_save_blocked(IslandFile::Fragments, true));
    assert!(g.island_save_blocked(IslandFile::Fragments, true));
    assert!(!g.island_save_blocked(IslandFile::Layout, true));
    assert!(!g.island_save_blocked(IslandFile::Fragments, false));
    assert!(!g.island_save_blocked(IslandFile::Fragments, true));
    g.island_note_load_failure(IslandFile::Fragments, true, true, None);
    assert!(!g.failed.fragments);
    g.island_note_load_failure(IslandFile::UserInfo, true, false, None);
    g.island_note_load_ok(IslandFile::UserInfo);
    assert!(!g.failed.user_info);
}

#[test]
fn the_ships_file_follows_the_layout() {
    let mut g = guard();
    g.island_note_load_failure(IslandFile::Layout, true, true, Some(false));
    assert!(g.failed.ships && !g.failed.map);
    g.island_note_load_failure(IslandFile::Layout, true, true, Some(true));
    assert!(!g.failed.ships);
    g.failed.ships = true;
    g.island_note_load_failure(IslandFile::Layout, true, false, Some(true));
    assert!(g.failed.ships && g.failed.map);
    g.island_note_load_failure(IslandFile::Layout, false, true, Some(true));
    assert!(g.failed.ships && !g.failed.map);
    assert_eq!(IslandFile::Ships.name(), "island_ships.dat");
}

#[test]
fn the_main_save_is_guarded() {
    assert_eq!(guard_userinfo_before_load(None, Some(false)), GuardStep::LeaveAlone);
    assert_eq!(guard_userinfo_before_load(Some(19), Some(true)), GuardStep::Quarantine);
    assert_eq!(guard_userinfo_before_load(Some(36), Some(true)), GuardStep::LeaveAlone);
    assert_eq!(guard_userinfo_before_load(Some(36), Some(false)), GuardStep::Verify);
    assert_eq!(guard_userinfo_before_load(Some(37), Some(false)), GuardStep::LeaveAlone);
    assert_eq!(guard_userinfo_before_load(Some(20), Some(false)), GuardStep::Verify);
    assert_eq!(guard_userinfo_before_load(Some(36), None), GuardStep::LeaveAlone);
    assert_eq!(guard_userinfo_after_check(true, 0, 1), GuardOutcome::RestoreSettings);
    assert_eq!(guard_userinfo_after_check(false, 8, 1), GuardOutcome::RestoreMark(Some(1)));
    assert_eq!(guard_userinfo_after_check(false, 0x1000, 1), GuardOutcome::RestoreMark(None));
}

#[test]
fn quarantined_files_get_new_names() {
    assert_eq!(quarantine_corrupt_file("/d/a.dat", false, 5), "/d/a.dat.corrupt");
    assert_eq!(quarantine_corrupt_file("/d/a.dat", true, 1700000000), "/d/a.dat.corrupt-1700000000");
    assert!(quarantine_succeeded(true, false));
    assert!(!quarantine_succeeded(true, true));
    assert!(!quarantine_succeeded(false, false));
}

fn facts(mode: Option<i32>) -> EntryFacts {
    EntryFacts {
        fresh_user_info: Some(UserInfo {
            progress: Progress { next_quest: 1, cur_quest: 0, ..progress(1) },
            npcs: None,
            achievements: None,
        }),
        store_items: 0,
        managers: true,
        game_mode: mode,
    }
}

fn empty_scene() -> IslandScene {
    IslandScene {
        user_info: None,
        map_data: None,
        fragments: Some(vec![]),
        new_game: 4,
        seq_cursor: Some(10),
    }
}

fn no_files() -> IslandLoads {
    IslandLoads {
        user_info: Load::Missing,
        map: Load::Missing,
        ships_beside: None,
        ships: Load::Missing,
        fragments: Load::Missing,
    }
}

#[test]
fn a_new_player_gets_the_first_island() {
    let mut st = IslandState::new();
    let mut scene = empty_scene();
    let plan =
        build_default_island_mapdata(&mut st, &mut scene, no_files(), facts(Some(1)), 5, time(NOW));
    assert!(plan.schedule_tick && plan.refill_catalog && !plan.restored);
    assert_eq!(plan.seed_mode, Some(1));
    assert_eq!(scene.new_game, 5);
    assert!(st.dirty && st.frag_by_quest && st.tick_running);
    assert_eq!(scene.seq_cursor, Some(90008));
    assert_eq!(scene.fragments, Some(vec![]));
    let md = scene.map_data.unwrap();
    assert_eq!(keys(&md), vec![28, 29, 32, 39]);
    let ids: Vec<i32> =
        md.entries.iter().flat_map(|e| e.objects.iter().map(|o| o.head.object_id)).collect();
    assert_eq!(ids, vec![30101, 30102, 30103, 30104, 30105, 30002, 30001, 34001]);
    assert_eq!(seqs(&md), vec![90001, 90002, 90003, 90004, 90005, 90006, 90007, 90008]);
    assert_eq!((md.entries[3].objects[0].head.tile_x, md.entries[3].objects[0].head.tile_y), (37, -30));
}

#[test]
fn a_visit_does_not_start_the_story() {
    for mode in [0, 6] {
        let mut st = IslandState::new();
        let mut scene = empty_scene();
        build_default_island_mapdata(&mut st, &mut scene, no_files(), facts(Some(mode)), 5, time(NOW));
        assert_eq!(scene.new_game, 4);
        assert!(!st.dirty);
    }
}

#[test]
fn damaged_progress_is_not_started_anew() {
    let mut st = IslandState::new();
    let mut scene = empty_scene();
    let loads = IslandLoads { user_info: Load::Damaged { moved: false }, ..no_files() };
    build_default_island_mapdata(&mut st, &mut scene, loads, facts(None), 5, time(NOW));
    assert_eq!(scene.new_game, 4);
    assert!(st.files.failed.user_info);
    let mut st = IslandState::new();
    let mut scene = empty_scene();
    let loads = IslandLoads { user_info: Load::Damaged { moved: true }, ..no_files() };
    build_default_island_mapdata(&mut st, &mut scene, loads, facts(None), 5, time(NOW));
    assert_eq!(scene.new_game, 5);
}

#[test]
fn a_saved_island_comes_back() {
    let mut saved = MapData::empty();
    saved.island_put_append(39, obj(0, 34001, ship(0, true, 0, 0, 0)));
    saved.island_put_append(50, obj(0, 77, Detail::Spacials { cooling: time(NOW + EPOCH_GAP) }));
    let ui = UserInfo { progress: progress(84), npcs: None, achievements: None };
    let loads = IslandLoads {
        user_info: Load::Loaded(save_island_userinfo(&ui, true)),
        map: Load::Loaded(saved),
        ships_beside: None,
        ships: Load::Loaded(vec![ShipRecord {
            kind: 1,
            object_id: 34001,
            ord: 0,
            ship_state: Some(2),
            gifts: vec![3],
            is_new: None,
        }]),
        fragments: Load::Loaded(vec![31006]),
    };
    let mut st = IslandState::new();
    let mut scene = empty_scene();
    let plan = build_default_island_mapdata(&mut st, &mut scene, loads, facts(None), 5, time(NOW));
    assert!(plan.restored);
    assert_eq!(scene.new_game, 4);
    assert_eq!(scene.fragments, Some(vec![31006, 31005, 31007]));
    let md = scene.map_data.unwrap();
    assert_eq!(seqs(&md), vec![90001, 90002]);
    assert_eq!(md.entries[0].objects[0].head.detail, ship(2, false, 0, 0, 0));
    assert_eq!(md.entries[0].objects[0].gifts, vec![3]);
    assert_eq!(md.entries[1].objects[0].head.detail, Detail::Spacials { cooling: time(NOW) });
    assert_eq!(scene.seq_cursor, Some(90002));
    assert_eq!(scene.user_info.unwrap().progress.next_quest, 84);
}

#[test]
fn an_empty_layout_is_no_layout() {
    let mut st = IslandState::new();
    let mut scene = empty_scene();
    let loads = IslandLoads { map: Load::Loaded(MapData::empty()), ..no_files() };
    let plan = build_default_island_mapdata(&mut st, &mut scene, loads, facts(None), 5, time(NOW));
    assert!(!plan.restored);
    assert_eq!(seqs(&scene.map_data.unwrap()).len(), 8);
    // A layout without a file of pieces is that of an old save.
    assert_eq!(scene.fragments, Some(vec![31005, 31006, 31007, 31008]));
    assert!(!st.frag_by_quest);
}

fn full_scene() -> IslandScene {
    IslandScene {
        user_info: Some(UserInfo { progress: progress(3), npcs: None, achievements: None }),
        map_data: Some(default_island()),
        fragments: Some(vec![31005]),
        new_game: 0,
        seq_cursor: None,
    }
}

#[test]
fn saving_writes_every_file() {
    let mut files = guard();
    let mut scene = full_scene();
    let lives = vec![LiveObject { object_type: 50, snap: Some(obj(3, 1, Detail::Other)) }];
    let plan = island_flush(&mut files, &mut scene, lives, false, FileMarks::none());
    assert_eq!(plan.merged, 1);
    assert_eq!(plan.map, Some(5));
    assert_eq!(plan.ships.as_ref().unwrap().len(), 1);
    assert_eq!(plan.fragments, Some(vec![31005]));
    let ok = Written { user_info: true, map: true, ships: false, fragments: true };
    assert_eq!(
        flush_summary("离岛", &flush_counts(&plan), &ok),
        "离岛 → 存盘 island_userinfo.dat(ok=true) / 存盘 island_map.dat(count=5 ok=true) / 存盘 island_ships.dat(船/咖啡馆 1 个 ok=false) / 存盘 island_fragments.dat(碎片 count=1 ok=true)(合并新放置建筑 1 个)"
    );
}

#[test]
fn saving_leaves_protected_files_alone() {
    let all = FileMarks { map: true, user_info: true, ships: true, fragments: true };
    let mut files = FileGuard { failed: FileMarks { map: true, ..FileMarks::none() } };
    let mut scene = full_scene();
    let plan = island_flush(&mut files, &mut scene, vec![], true, all);
    assert!(plan.map.is_none() && plan.ships.is_none());
    assert!(plan.user_info.is_some() && plan.fragments.is_some());
    assert_eq!(plan.user_info.as_ref().unwrap().numbers.frag_by_quest, Some(1));
    let mut files = FileGuard { failed: all };
    let plan = island_flush(&mut files, &mut scene, vec![], true, all);
    let ok = Written { user_info: true, map: true, ships: true, fragments: true };
    assert_eq!(flush_summary("x", &flush_counts(&plan), &ok), "x → 本次没有需要写入的岛档");
    let gone = FileMarks { map: false, ..all };
    let plan = island_flush(&mut files, &mut scene, vec![], true, gone);
    assert!(plan.map.is_some() && plan.ships.is_none());
    assert!(!files.failed.map);
}

#[test]
fn empty_things_are_not_saved() {
    let mut files = guard();
    let mut scene = IslandScene {
        user_info: None,
        map_data: None,
        fragments: Some(vec![]),
        new_game: 0,
        seq_cursor: None,
    };
    let plan = island_flush(&mut files, &mut scene, vec![], true, FileMarks::none());
    assert!(plan.user_info.is_none() && plan.map.is_none() && plan.fragments.is_none());
    assert_eq!(plan.ships.as_ref().unwrap().len(), 0);
    scene.map_data = Some(MapData::empty());
    let plan = island_flush(&mut files, &mut scene, vec![], true, FileMarks::none());
    assert!(plan.map.is_none());
}

const SEC: u64 = 1_000_000_000;

#[test]
fn the_chain_of_ticks_heals() {
    let mut st = IslandState::new();
    assert!(st.start_island_tick(SEC));
    assert!(!st.start_island_tick(3 * SEC));
    assert!(st.start_island_tick(4 * SEC));
    assert!(!st.schedule_island_tick(false));
    assert!(st.start_island_tick(4 * SEC));
    assert!(st.schedule_island_tick(true));
}

#[test]
fn changes_are_noted_on_the_island_only() {
    let mut st = IslandState::new();
    st.island_mark_dirty();
    assert!(!st.dirty && !island_session_active(&st) && !island_gate1_hit(&st));
    st.on_island = true;
    st.begin_flush();
    st.island_mark_dirty();
    assert!(!st.dirty);
    st.end_flush(9);
    st.island_mark_dirty();
    assert!(st.dirty && island_session_active(&st));
    assert_eq!(st.last_flush, Some(9));
}
