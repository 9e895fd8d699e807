use touchhle::cheats::{
    any_enabled, build_caribbean_data, bump_level, bump_vip_level, fix_golden_island_on,
    island_arm_entry, is_on, level, magic_bypass_on, note_dict_as_array_corruption, toggle,
    vip_level, CaribbeanData, CheatKey,
};
use touchhle::patches::{
    apply_crack_patches, crack_patch, restore_cracked_vipgold, CrackGroup, PATCH_COUNT,
    VIPGOLD_VADDR,
};
use touchhle::state::CheatState;
use touchhle::watchdog::{backtrace, watchdog_check, watchdog_frame};

const KEYS: [&str; 26] = [
    "free_shop",
    "kill_anticheat",
    "force_vip",
    "gold_x10",
    "xp_x10",
    "instant_crop",
    "no_wither",
    "no_cooldown",
    "instant_build",
    "all_unlock",
    "max_facility",
    "harvest_mult",
    "free_quest",
    "seabed_best",
    "minigame_reward",
    "all_achieve",
    "magic_bypass",
    "fix_golden_island",
    "golden_win",
    "enable_newscene_island",
    "kill_jailbreak",
    "fix_divine",
    "enter_holiday",
    "store_no_vip",
    "enter_newislands",
    "skip_parse_check",
];

#[test]
fn defaults_are_on_and_off() {
    let st = CheatState::new();
    for k in KEYS {
        let on = matches!(
            k,
            "fix_golden_island" | "enable_newscene_island" | "fix_divine" | "enter_newislands"
        );
        assert_eq!(is_on(&st, k), on, "{}", k);
    }
    assert!(any_enabled());
    assert_eq!(vip_level(&st), 4);
    assert_eq!(level(&st), 0);
}

#[test]
fn every_switch_turns_over_and_back() {
    for k in KEYS {
        let mut st = CheatState::new();
        let before = is_on(&st, k);
        toggle(&mut st, k);
        assert_eq!(is_on(&st, k), !before, "{}", k);
        toggle(&mut st, k);
        assert_eq!(is_on(&st, k), before, "{}", k);
    }
}

#[test]
fn a_switch_leaves_the_others_alone() {
    for k in KEYS {
        let mut st = CheatState::new();
        toggle(&mut st, k);
        for o in KEYS {
            if o != k {
                assert_eq!(is_on(&st, o), is_on(&CheatState::new(), o), "{} {}", k, o);
            }
        }
    }
}

#[test]
fn sailing_to_the_finish_needs_the_fix() {
    let mut st = CheatState::new();
    toggle(&mut st, "fix_golden_island");
    assert!(!fix_golden_island_on(&st));
    toggle(&mut st, "golden_win");
    assert!(fix_golden_island_on(&st));
    assert!(st.cheats.caribbean_dirty);
}

#[test]
fn an_unknown_switch_changes_nothing() {
    let mut st = CheatState::new();
    let before = st;
    toggle(&mut st, "no_such_switch");
    assert_eq!(st, before);
    assert!(!is_on(&st, "no_such_switch"));
}

#[test]
fn the_offline_island_stays_off_online() {
    let mut st = CheatState::new();
    st.online_mode = true;
    assert!(!is_on(&st, "enable_newscene_island"));
    toggle(&mut st, "enable_newscene_island");
    assert!(!is_on(&st, "enable_newscene_island"));
    let before = st;
    island_arm_entry(&mut st);
    assert_eq!(st, before);
}

#[test]
fn entering_turns_the_offline_island_on() {
    let mut st = CheatState::new();
    toggle(&mut st, "enable_newscene_island");
    assert!(!is_on(&st, "enable_newscene_island"));
    island_arm_entry(&mut st);
    assert!(is_on(&st, "enable_newscene_island"));
}

#[test]
fn vip_levels_go_round() {
    let mut st = CheatState::new();
    let mut seen = vec![];
    for _ in 0..5 {
        bump_vip_level(&mut st);
        seen.push(vip_level(&st));
    }
    assert_eq!(seen, vec![1, 2, 3, 4, 1]);
    assert!(is_on(&st, "force_vip"));
}

#[test]
fn levels_go_round() {
    let mut st = CheatState::new();
    let mut seen = vec![];
    for _ in 0..12 {
        bump_level(&mut st);
        seen.push(level(&st));
    }
    assert_eq!(seen, vec![10, 20, 30, 40, 50, 60, 70, 80, 90, 100, 0, 10]);
}

#[test]
fn magic_numbers_and_damaged_saves_are_noted() {
    let mut st = CheatState::new();
    assert!(!magic_bypass_on(&st));
    toggle(&mut st, "magic_bypass");
    assert!(magic_bypass_on(&st));
    note_dict_as_array_corruption(&mut st);
    note_dict_as_array_corruption(&mut st);
    assert!(st.save_has_dict_as_array);
}

#[test]
fn the_sailing_game_gets_data_once() {
    let mut st = CheatState::new();
    assert_eq!(build_caribbean_data(&mut st, None, false), None);
    let made = build_caribbean_data(&mut st, None, true).unwrap();
    assert_eq!(
        made,
        CaribbeanData {
            cur_island: 1,
            distance_to_next: 100,
            total_distance: 500,
            soul_of_the_sea: 9999,
            left_days: 99
        }
    );
    let sailed = CaribbeanData { distance_to_next: 40, ..made };
    assert_eq!(build_caribbean_data(&mut st, Some(sailed), true), Some(sailed));
    toggle(&mut st, "golden_win");
    let won = build_caribbean_data(&mut st, Some(sailed), true).unwrap();
    assert_eq!((won.cur_island, won.distance_to_next), (5, 0));
    assert_eq!(build_caribbean_data(&mut st, Some(sailed), true), Some(sailed));
}

#[test]
fn the_finish_is_set_once() {
    let mut st = CheatState::new();
    toggle(&mut st, "golden_win");
    assert_eq!(build_caribbean_data(&mut st, None, false), None);
    assert!(st.cheats.caribbean_dirty);
    let made = build_caribbean_data(&mut st, None, true).unwrap();
    assert_eq!((made.cur_island, made.distance_to_next), (5, 0));
    assert!(!st.cheats.caribbean_dirty);
    let sailed = CaribbeanData { cur_island: 3, distance_to_next: 7, ..made };
    assert_eq!(build_caribbean_data(&mut st, Some(sailed), true), Some(sailed));
    toggle(&mut st, "free_shop");
    assert_eq!(build_caribbean_data(&mut st, Some(sailed), true), Some(sailed));
    toggle(&mut st, "golden_win");
    let again = build_caribbean_data(&mut st, Some(sailed), true).unwrap();
    assert_eq!((again.cur_island, again.distance_to_next), (1, 100));
}

#[test]
fn patches_follow_their_switches() {
    let mut st = CheatState::new();
    let on = apply_crack_patches(&st.cheats);
    assert_eq!(on.len(), PATCH_COUNT);
    assert_eq!(on[0].vaddr, 0x37650);
    assert_eq!(on[0].bytes, vec![0x00, 0xbf]);
    toggle(&mut st, "enter_newislands");
    assert!(st.cheats.patches_dirty);
    let off = apply_crack_patches(&st.cheats);
    assert_eq!(off[0].bytes, vec![0x74, 0xd0]);
    for i in 0..PATCH_COUNT {
        let p = crack_patch(i);
        assert_eq!(p.vanilla.len(), p.cracked.len());
        if p.group == CrackGroup::MapSync {
            assert_eq!(off[i].bytes, p.vanilla);
        }
    }
    st.cheats.map_sync = true;
    let sync = apply_crack_patches(&st.cheats);
    assert_eq!(sync[20].vaddr, 0x768fa);
    assert_eq!(sync[20].bytes, vec![0x00, 0xbf, 0x00, 0xbf]);
}

#[test]
fn patches_do_not_overlap() {
    for i in 0..PATCH_COUNT {
        for j in 0..i {
            let a = crack_patch(i);
            let b = crack_patch(j);
            let (a0, a1) = (a.vaddr, a.vaddr + a.vanilla.len() as u32);
            let (b0, b1) = (b.vaddr, b.vaddr + b.vanilla.len() as u32);
            assert!(a1 <= b0 || b1 <= a0);
        }
    }
}

#[test]
fn a_modified_game_gets_its_shells_back() {
    let cracked = vec![0x4f, 0xf6, 0xff, 0x70, 0xc0, 0xf2, 0x1f, 0x00];
    let w = restore_cracked_vipgold(0x1000, &cracked).unwrap();
    assert_eq!(w.vaddr, VIPGOLD_VADDR);
    assert_eq!(w.bytes, vec![0x7a, 0x44, 0x31, 0x46, 0xcb, 0xf3, 0x34, 0xe2]);
    assert!(restore_cracked_vipgold(0x1000, &w.bytes).is_none());
    assert!(restore_cracked_vipgold(0xb9ce1, &cracked).is_none());
    assert!(restore_cracked_vipgold(0xb9ce0, &cracked).is_some());
    assert!(restore_cracked_vipgold(0, &vec![0x4f]).is_none());
}

const SEC: u64 = 1_000_000_000;

#[test]
fn the_watchdog_reports_a_stuck_game() {
    let mut st = CheatState::new();
    assert_eq!(watchdog_check(&mut st, 10 * SEC), None);
    st.island.on_island = true;
    watchdog_frame(&mut st);
    assert_eq!(watchdog_check(&mut st, 10 * SEC), None);
    assert_eq!(watchdog_check(&mut st, 12 * SEC), None);
    assert_eq!(watchdog_check(&mut st, 14 * SEC), Some(4));
    assert_eq!(watchdog_check(&mut st, 14 * SEC + 1), None);
    assert_eq!(watchdog_check(&mut st, 15 * SEC), Some(5));
    watchdog_frame(&mut st);
    assert_eq!(watchdog_check(&mut st, 16 * SEC), None);
    assert_eq!(watchdog_check(&mut st, 18 * SEC), None);
}

#[test]
fn the_watchdog_sleeps_off_the_island() {
    let mut st = CheatState::new();
    for t in 0..10 {
        assert_eq!(watchdog_check(&mut st, t * SEC), None);
    }
    assert_eq!(st.watchdog.seen_at, None);
}

#[test]
fn callers_are_found_on_the_stack() {
    let words = vec![0x108, 0xaaaa, 0x110, 0xbbbb, 0x104, 0xcccc];
    assert_eq!(backtrace(0x100, 0x100, &words), vec![0xaaaa, 0xbbbb, 0xcccc]);
    let words = vec![0x108, 0xaaaa, 0x110, 0xbbbb, 0, 0xcccc];
    assert_eq!(backtrace(0x100, 0x100, &words), vec![0xaaaa, 0xbbbb, 0xcccc]);
    assert_eq!(backtrace(0x102, 0x100, &words), vec![]);
    assert_eq!(backtrace(0, 0, &words), vec![]);
    assert_eq!(backtrace(0x114, 0x100, &words), vec![]);
}

#[test]
fn the_bit_of_every_switch_is_its_own() {
    let mut st = CheatState::new();
    st.cheats.bits = 1 << 16;
    assert!(st.cheats.on(CheatKey::MagicBypass));
    assert!(!st.cheats.on(CheatKey::FixGoldenIsland));
}
