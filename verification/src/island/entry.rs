//! What is set up when the island is entered: the saved island where there is
//! one, otherwise the island every player starts with.

use vstd::prelude::*;
use crate::cf_time::{is_mended, is_mended_whole, CfTime};
use crate::island::files::{FileGuard, IslandFile, Load};
use crate::island::fragments::{
    inject_sandgarden_fragments, is_legacy, joined, law_new_island_earns_its_pieces,
    law_pieces_are_joined_once, load_island_fragments, owed_pieces,
};
use crate::island::map_data::{
    at, entry_of, flat, is_slot, keys_distinct, same_shape, seqs_unique, Detail, EntryV, Head,
    MapData, MapObject, ObjectV, SEQ_BASE,
};
use crate::island::numbers::{highest, numbered, raised, zeros};
use crate::island::session::IslandState;
use crate::island::ships::{
    applied_upto, kind_of, law_records_restore_the_state, law_stuck_ships_are_moored, records_v,
    unstuck, RecordV, ShipRecord,
};
use crate::island::stamps::{law_every_stamp_is_mended, repaired_object};
use crate::island::user_info::{
    load_island_userinfo, saved_mark, unarchived, UserInfo, UserInfoArchive,
};

verus! {

/// The moment that stands for "never".
pub open spec fn never() -> CfTime {
    CfTime { secs: 0, frac: 0 }
}

/// One of the five shops of the first island.
pub open spec fn first_shop(object_id: i32, x: i32, y: i32) -> ObjectV {
    ObjectV {
        head: Head {
            handle: 0,
            seq_id: (SEQ_BASE + (object_id - 30100)) as i32,
            object_id,
            tile_x: x,
            tile_y: y,
            flip: 0,
            detail: Detail::Shop {
                begin: never(),
                shopping: 0,
                upgrading: 0,
                level: 4,
                sale_item: 0,
                property: 0,
            },
        },
        gifts: Seq::empty(),
    }
}

pub open spec fn first_restaurant() -> ObjectV {
    ObjectV {
        head: Head {
            handle: 0,
            seq_id: 90006,
            object_id: 30002,
            tile_x: 11,
            tile_y: 39,
            flip: 0,
            detail: Detail::Restaurant {
                begin_upgrade: 0,
                last_cool: 0,
                property: 1,
                level: 1,
                construct_value: 0,
                island_value: 0,
            },
        },
        gifts: Seq::empty(),
    }
}

pub open spec fn first_apartment() -> ObjectV {
    ObjectV {
        head: Head {
            handle: 0,
            seq_id: 90007,
            object_id: 30001,
            tile_x: 15,
            tile_y: 26,
            flip: 0,
            detail: Detail::Apartment { waiting: 0, last_finish: 0 },
        },
        gifts: Seq::empty(),
    }
}

pub open spec fn first_ship() -> ObjectV {
    ObjectV {
        head: Head {
            handle: 0,
            seq_id: 90008,
            object_id: 34001,
            tile_x: 37,
            tile_y: -30i32,
            flip: 0,
            detail: Detail::Ship {
                begin_discover: never(),
                begin_fix: never(),
                state: 0,
                sailing: false,
                search_map: 0,
                on_board: 0,
            },
        },
        gifts: Seq::empty(),
    }
}

/// The island every player starts with: five shops, a restaurant, an
/// apartment house and a ship.
pub open spec fn first_island() -> Seq<EntryV> {
    seq![
        EntryV {
            key: 28,
            objects: seq![
                first_shop(30101, 22, 42),
                first_shop(30102, 27, 42),
                first_shop(30103, 32, 42),
                first_shop(30104, 22, 47),
                first_shop(30105, 27, 47),
            ],
        },
        EntryV { key: 29, objects: seq![first_restaurant()] },
        EntryV { key: 32, objects: seq![first_apartment()] },
        EntryV { key: 39, objects: seq![first_ship()] },
    ]
}

fn new_object(head: Head) -> (o: MapObject)
    ensures
        o@ == (ObjectV { head, gifts: Seq::empty() }),
{
    let o = MapObject { head, gifts: Vec::new() };
    assert(o@ =~= ObjectV { head, gifts: Seq::empty() });
    o
}

fn new_shop(object_id: i32, x: i32, y: i32) -> (o: MapObject)
    requires
        30101 <= object_id <= 30105,
    ensures
        o@ == first_shop(object_id, x, y),
{
    new_object(
        Head {
            handle: 0,
            seq_id: SEQ_BASE + (object_id - 30100),
            object_id,
            tile_x: x,
            tile_y: y,
            flip: 0,
            detail: Detail::Shop {
                begin: CfTime::whole(0),
                shopping: 0,
                upgrading: 0,
                level: 4,
                sale_item: 0,
                property: 0,
            },
        },
    )
}

/// Builds the island every player starts with.
pub fn default_island() -> (md: MapData)
    ensures
        md@ == first_island(),
{
    reveal_with_fuel(entry_of, 6);
    let mut md = MapData::empty();
    md.island_put_append(28, new_shop(30101, 22, 42));
    md.island_put_append(28, new_shop(30102, 27, 42));
    md.island_put_append(28, new_shop(30103, 32, 42));
    md.island_put_append(28, new_shop(30104, 22, 47));
    md.island_put_append(28, new_shop(30105, 27, 47));
    md.island_put(
        29,
        new_object(
            Head {
                handle: 0,
                seq_id: 90006,
                object_id: 30002,
                tile_x: 11,
                tile_y: 39,
                flip: 0,
                detail: Detail::Restaurant {
                    begin_upgrade: 0,
                    last_cool: 0,
                    property: 1,
                    level: 1,
                    construct_value: 0,
                    island_value: 0,
                },
            },
        ),
    );
    md.island_put(
        32,
        new_object(
            Head {
                handle: 0,
                seq_id: 90007,
                object_id: 30001,
                tile_x: 15,
                tile_y: 26,
                flip: 0,
                detail: Detail::Apartment { waiting: 0, last_finish: 0 },
            },
        ),
    );
    md.island_put(
        39,
        new_object(
            Head {
                handle: 0,
                seq_id: 90008,
                object_id: 34001,
                tile_x: 37,
                tile_y: -30,
                flip: 0,
                detail: Detail::Ship {
                    begin_discover: CfTime::whole(0),
                    begin_fix: CfTime::whole(0),
                    state: 0,
                    sailing: false,
                    search_map: 0,
                    on_board: 0,
                },
            },
        ),
    );
    assert(md@[0].objects =~= first_island()[0].objects);
    assert(md@ =~= first_island());
    md
}

/// What the game holds of the island.
#[derive(Debug)]
pub struct IslandScene {
    pub user_info: Option<UserInfo>,
    pub map_data: Option<MapData>,
    pub fragments: Option<Vec<i32>>,
    pub new_game: i32,
    /// The game's counter of building numbers, where it is within reach.
    pub seq_cursor: Option<u32>,
}

/// What became of reading the save files. The ships' file is asked for only
/// with a layout that can be used; `ships_beside` tells, for a damaged layout
/// that was moved aside, whether the ships' file could follow it.
#[derive(Debug)]
pub struct IslandLoads {
    pub user_info: Load<UserInfoArchive>,
    pub map: Load<MapData>,
    pub ships_beside: Option<bool>,
    pub ships: Load<Vec<ShipRecord>>,
    pub fragments: Load<Vec<i32>>,
}

/// What else decides how the island is set up.
#[derive(Debug)]
pub struct EntryFacts {
    /// Progress as the game makes it for a new player, if it can.
    pub fresh_user_info: Option<UserInfo>,
    /// How many items the first shelf of the building shop has.
    pub store_items: u32,
    /// Whether both managers of the game, of the island and of the village,
    /// are there.
    pub managers: bool,
    /// The mode of the village, where it is known.
    pub game_mode: Option<i32>,
}

/// What is left to be done after the island was set up.
#[derive(Clone, Copy, Debug, PartialEq, Eq, Structural)]
pub struct EntryPlan {
    /// A first saving tick has to be scheduled.
    pub schedule_tick: bool,
    /// The shops' catalogue has to be loaded again.
    pub refill_catalog: bool,
    /// The mode to set for the island.
    pub seed_mode: Option<i32>,
    /// The layout is a saved one.
    pub restored: bool,
}

/// What is left to be done: a first tick where none is under way or it has been
/// silent, the catalogue where its first shelf is empty, and the mode of the
/// island where both managers are there.
pub open spec fn entry_plan(st: IslandState, loads: IslandLoads, facts: EntryFacts, clock: u64) -> EntryPlan {
    EntryPlan {
        schedule_tick: !st.tick_running || st.tick_is_stale(clock),
        refill_catalog: facts.store_items == 0,
        seed_mode: if facts.managers {
            Some(1i32)
        } else {
            None
        },
        restored: map_usable(loads.map),
    }
}

/// The state of the stay after an entry. `quests` are the next and the current
/// one of the progress that was taken over, `pieces` whether there is a list of
/// pieces.
pub open spec fn entered(
    st: IslandState,
    loads: IslandLoads,
    schedule_tick: bool,
    clock: u64,
    anew: bool,
    mark: bool,
    pieces: bool,
    next: i32,
) -> IslandState {
    let legacy = is_legacy(mark, loads.fragments.file_remains(), loads.map.file_remains());
    IslandState {
        tick_running: true,
        last_tick: if schedule_tick {
            Some(clock)
        } else {
            st.last_tick
        },
        dirty: st.dirty || anew,
        files: files_after_entry(st.files, loads),
        frag_by_quest: mark || (pieces && !legacy && next > 0),
        ..st
    }
}

/// The player's pieces after an entry.
pub open spec fn pieces_after(
    frags: Seq<i32>,
    loads: IslandLoads,
    mark: bool,
    next: i32,
    cur: i32,
) -> Seq<i32> {
    let legacy = is_legacy(mark, loads.fragments.file_remains(), loads.map.file_remains());
    let owed = owed_pieces(legacy, next, cur);
    joined(pieces_loaded(frags, loads.fragments), owed, owed.len() as int)
}

/// Whether progress is what an entry makes of `start` and the save file.
pub open spec fn is_progress_after(
    start: Option<UserInfo>,
    load: Load<UserInfoArchive>,
    now: CfTime,
    after: Option<UserInfo>,
) -> bool {
    match (start, load) {
        (Some(ui), Load::Loaded(a)) => after is Some && after->0@ == unarchived(ui@, a@, now),
        (ui, _) => after == ui,
    }
}

/// Whether a layout is what an entry makes of the save files.
pub open spec fn is_layout_after(
    load: Load<MapData>,
    ships: Load<Vec<ShipRecord>>,
    now: CfTime,
    after: Seq<EntryV>,
) -> bool {
    match load {
        Load::Loaded(md) if md@.len() > 0 => same_shape(md@, after) && flat(after) == readied(
            flat(md@),
            ships,
            now,
        ),
        _ => after == first_island(),
    }
}

/// The mark of a new game after an entry.
pub open spec fn new_game_after(new_game: i32, anew: bool) -> i32 {
    if anew {
        new_game | 1
    } else {
        new_game
    }
}

/// Whether the layout file gave a layout to use.
pub open spec fn map_usable(load: Load<MapData>) -> bool {
    match load {
        Load::Loaded(md) => md@.len() > 0,
        _ => false,
    }
}

/// The buildings of a saved layout, ready for use: numbered, with moments
/// repaired, ships and cafes restored, and no ship stuck.
pub open spec fn readied(objs: Seq<ObjectV>, ships: Load<Vec<ShipRecord>>, now: CfTime) -> Seq<
    ObjectV,
> {
    let dealt = numbered(objs, highest(objs, SEQ_BASE as int));
    let mended = Seq::new(dealt.len(), |p: int| repaired_object(dealt[p], now));
    let manned = match ships {
        Load::Loaded(r) => applied_upto(mended, records_v(r@), r@.len() as int),
        _ => mended,
    };
    Seq::new(manned.len(), |p: int| unstuck(manned[p]))
}

/// The progress the island starts from, before the save file is read.
pub open spec fn carrier(scene: IslandScene, facts: EntryFacts) -> Option<UserInfo> {
    if scene.user_info is Some {
        scene.user_info
    } else {
        facts.fresh_user_info
    }
}

/// Whether saved progress was taken over.
pub open spec fn progress_restored(scene: IslandScene, loads: IslandLoads, facts: EntryFacts) -> bool {
    loads.user_info is Loaded && carrier(scene, facts) is Some
}

/// The protected files once the layout was asked for.
pub open spec fn files_after_map(files: FileGuard, loads: IslandLoads) -> FileGuard {
    files.after_load(IslandFile::UserInfo, loads.user_info, None).after_load(
        IslandFile::Layout,
        loads.map,
        loads.ships_beside,
    )
}

/// The protected files after everything was read.
pub open spec fn files_after_entry(files: FileGuard, loads: IslandLoads) -> FileGuard {
    let pieces = files_after_map(files, loads).after_load(
        IslandFile::Fragments,
        loads.fragments,
        None,
    );
    if map_usable(loads.map) {
        pieces.after_load(IslandFile::Ships, loads.ships, None)
    } else {
        pieces
    }
}

/// Whether the opening story is to be played: a player without saved progress,
/// and not one whose damaged save may still be repaired; not on a visit.
pub open spec fn starts_anew(
    scene: IslandScene,
    loads: IslandLoads,
    facts: EntryFacts,
    files: FileGuard,
) -> bool {
    &&& !map_usable(loads.map)
    &&& !progress_restored(scene, loads, facts)
    &&& !files_after_map(files, loads).failed.user_info
    &&& facts.game_mode != Some(0i32)
    &&& facts.game_mode != Some(6i32)
}

/// The player's pieces after the save file was read.
pub open spec fn pieces_loaded(frags: Seq<i32>, load: Load<Vec<i32>>) -> Seq<i32> {
    match load {
        Load::Loaded(v) => joined(frags, v@, v@.len() as int),
        _ => frags,
    }
}

/// The mark that pieces follow the quests, as the saved progress has it.
pub open spec fn mark_loaded(scene: IslandScene, loads: IslandLoads, facts: EntryFacts) -> bool {
    match loads.user_info {
        Load::Loaded(a) => carrier(scene, facts) is Some && saved_mark(a@),
        _ => false,
    }
}

/// The next and the current quest, 0 where there is no progress.
pub open spec fn quests(ui: Option<UserInfo>) -> (i32, i32) {
    match ui {
        Some(u) => (u.progress.next_quest, u.progress.cur_quest),
        None => (0, 0),
    }
}

/// Reads the saved pieces and gives the player those that are owed.
fn settle_pieces(st: &mut IslandState, scene: &mut IslandScene, load: Load<Vec<i32>>, map_file: bool)
    ensures
        ({
            let files = old(st).files.after_load(IslandFile::Fragments, load, None);
            let legacy = is_legacy(old(st).frag_by_quest, load.file_remains(), map_file);
            let (next, cur) = quests(old(scene).user_info);
            &&& *final(scene) == (IslandScene {
                fragments: final(scene).fragments,
                ..*old(scene)
            })
            &&& old(scene).fragments is None ==> final(scene).fragments is None && *final(st) == (
            IslandState { files, ..*old(st) })
            &&& old(scene).fragments is Some ==> {
                let owed = owed_pieces(legacy, next, cur);
                let had = pieces_loaded(old(scene).fragments->0@, load);
                &&& final(scene).fragments is Some
                &&& final(scene).fragments->0@ == joined(had, owed, owed.len() as int)
                &&& *final(st) == (IslandState {
                    files,
                    frag_by_quest: old(st).frag_by_quest || (!legacy && next > 0),
                    ..*old(st)
                })
            }
        }),
{
    st.files.note(IslandFile::Fragments, &load, None);
    let fragment_file = load.remains();
    let progress = match &scene.user_info {
        Some(u) => Some((u.progress.next_quest, u.progress.cur_quest)),
        None => None,
    };
    let mut by_quest = st.frag_by_quest;
    if let Some(frags) = &mut scene.fragments {
        if let Load::Loaded(saved) = &load {
            let _n: usize = load_island_fragments(frags, saved);
        }
        let _n: usize = inject_sandgarden_fragments(
            frags,
            &mut by_quest,
            fragment_file,
            map_file,
            progress,
        );
    }
    st.frag_by_quest = by_quest;
}

/// Makes a saved layout ready for use.
fn ready_saved_map(md: &mut MapData, ships: &Load<Vec<ShipRecord>>, now: CfTime)
    requires
        now.is_reading(),
        highest(flat(old(md)@), SEQ_BASE as int) + zeros(flat(old(md)@)) <= i32::MAX,
    ensures
        same_shape(old(md)@, final(md)@),
        flat(final(md)@) == readied(flat(old(md)@), *ships, now),
{
    let ghost before = md@;
    md.assign_island_seqids();
    let ghost dealt = md@;
    md.migrate_island_timestamps(now);
    let ghost mended = md@;
    assert(same_shape(before, mended)) by {
        assert forall|k: int| 0 <= k < before.len() implies (#[trigger] before[k]).key
            == mended[k].key && before[k].objects.len() == mended[k].objects.len() by {
            assert(dealt[k].key == mended[k].key);
        }
    }
    if let Load::Loaded(records) = ships {
        let _n: usize = md.load_island_ships(records);
    }
    let ghost manned = md@;
    assert(same_shape(before, manned)) by {
        assert forall|k: int| 0 <= k < before.len() implies (#[trigger] before[k]).key
            == manned[k].key && before[k].objects.len() == manned[k].objects.len() by {
            assert(mended[k].key == manned[k].key);
        }
    }
    md.fix_stuck_ships();
    assert(same_shape(before, md@)) by {
        assert forall|k: int| 0 <= k < before.len() implies (#[trigger] before[k]).key
            == md@[k].key && before[k].objects.len() == md@[k].objects.len() by {
            assert(manned[k].key == md@[k].key);
        }
    }
}

/// Raises the game's counter of building numbers, where it is within reach.
fn raise_cursor(cursor: Option<u32>, md: &MapData) -> (r: Option<u32>)
    ensures
        r is Some == cursor is Some,
        cursor is Some ==> r->0 == raised(md@, cursor->0 as int),
{
    match cursor {
        Some(cur) => Some(md.restore_seqid_cursor(cur)),
        None => None,
    }
}

/// Reads the saved progress over the present one; gives the mark of the save
/// and whether there was one.
fn restore_progress(
    user_info: &mut Option<UserInfo>,
    load: Load<UserInfoArchive>,
    now: CfTime,
) -> (r: (bool, bool))
    requires
        now.is_reading(),
    ensures
        match (*old(user_info), load) {
            (Some(ui), Load::Loaded(a)) => *final(user_info) is Some && final(user_info)->0@
                == unarchived(ui@, a@, now) && r == (saved_mark(a@), true),
            (ui, _) => *final(user_info) == ui && r == (false, false),
        },
{
    if let Load::Loaded(archive) = load {
        if let Some(ui) = user_info {
            let mark = load_island_userinfo(ui, archive, now);
            return (mark, true);
        }
    }
    (false, false)
}

/// Provides the progress of the stay; says whether a tick has to be scheduled
/// and whether saved progress was taken over.
fn enter_progress(
    st: &mut IslandState,
    user_info: &mut Option<UserInfo>,
    load: Load<UserInfoArchive>,
    fresh: Option<UserInfo>,
    clock: u64,
    now: CfTime,
) -> (r: (bool, bool))
    requires
        now.is_reading(),
    ensures
        ({
            let start = if *old(user_info) is Some {
                *old(user_info)
            } else {
                fresh
            };
            let tick = !old(st).tick_running || old(st).tick_is_stale(clock);
            &&& r.0 == tick
            &&& r.1 == (load is Loaded && start is Some)
            &&& match (start, load) {
                (Some(ui), Load::Loaded(a)) => *final(user_info) is Some && final(user_info)->0@
                    == unarchived(ui@, a@, now),
                (ui, _) => *final(user_info) == ui,
            }
            &&& *final(st) == (IslandState {
                tick_running: true,
                last_tick: if tick {
                    Some(clock)
                } else {
                    old(st).last_tick
                },
                files: old(st).files.after_load(IslandFile::UserInfo, load, None),
                frag_by_quest: match (start, load) {
                    (Some(ui), Load::Loaded(a)) => saved_mark(a@),
                    _ => false,
                },
                ..*old(st)
            })
        }),
{
    if user_info.is_none() {
        *user_info = fresh;
    }
    let schedule_tick = st.start_island_tick(clock);
    st.files.note(IslandFile::UserInfo, &load, None);
    let (mark, had) = restore_progress(user_info, load, now);
    st.frag_by_quest = mark;
    (schedule_tick, had)
}

/// Marks the opening story to be played for a player who starts anew.
fn open_story(st: &mut IslandState, new_game: &mut i32, had_user_info: bool, game_mode: Option<i32>)
    ensures
        ({
            let anew = !had_user_info && !old(st).files.failed.user_info && game_mode != Some(0i32)
                && game_mode != Some(6i32);
            &&& *final(new_game) == (if anew {
                *old(new_game) | 1
            } else {
                *old(new_game)
            })
            &&& *final(st) == (IslandState { dirty: old(st).dirty || anew, ..*old(st) })
        }),
{
    if !had_user_info && !st.files.failed.user_info {
        let mode: i32 = match game_mode {
            Some(m) => m,
            None => -1,
        };
        if mode != 0 && mode != 6 {
            *new_game = *new_game | 1;
            st.dirty = true;
        }
    }
}

/// Sets the island up for a stay. `clock` reads the clock that never goes back
/// and `now` the game's clock.
#[verifier::rlimit(50)]
pub fn build_default_island_mapdata(
    st: &mut IslandState,
    scene: &mut IslandScene,
    loads: IslandLoads,
    facts: EntryFacts,
    clock: u64,
    now: CfTime,
) -> (plan: EntryPlan)
    requires
        now.is_reading(),
        loads.map matches Load::Loaded(md) ==> highest(flat(md@), SEQ_BASE as int) + zeros(flat(md@))
            <= i32::MAX,
    ensures
        plan == entry_plan(*old(st), loads, facts, clock),
        // The progress.
        is_progress_after(
            carrier(*old(scene), facts),
            loads.user_info,
            now,
            final(scene).user_info,
        ),
        // The layout.
        final(scene).map_data is Some,
        is_layout_after(loads.map, loads.ships, now, final(scene).map_data->0@),
        // The counter of building numbers.
        final(scene).seq_cursor is Some == old(scene).seq_cursor is Some,
        old(scene).seq_cursor is Some ==> final(scene).seq_cursor->0 == raised(
            final(scene).map_data->0@,
            old(scene).seq_cursor->0 as int,
        ),
        // The opening story.
        final(scene).new_game == new_game_after(
            old(scene).new_game,
            starts_anew(*old(scene), loads, facts, old(st).files),
        ),
        // The pieces of the maps.
        final(scene).fragments is Some == old(scene).fragments is Some,
        ({
            let mark = mark_loaded(*old(scene), loads, facts);
            let (next, cur) = quests(final(scene).user_info);
            &&& old(scene).fragments is Some ==> final(scene).fragments->0@ == pieces_after(
                old(scene).fragments->0@,
                loads,
                mark,
                next,
                cur,
            )
            &&& *final(st) == entered(
                *old(st),
                loads,
                plan.schedule_tick,
                clock,
                starts_anew(*old(scene), loads, facts, old(st).files),
                mark,
                old(scene).fragments is Some,
                next,
            )
        }),
{
    let EntryFacts { fresh_user_info, store_items, managers, game_mode } = facts;
    let (schedule_tick, had_user_info) = enter_progress(
        st,
        &mut scene.user_info,
        loads.user_info,
        fresh_user_info,
        clock,
        now,
    );
    let refill_catalog = store_items == 0;
    let seed_mode: Option<i32> = if managers { Some(1) } else { None };
    st.files.note(IslandFile::Layout, &loads.map, loads.ships_beside);
    let map_file = loads.map.remains();
    if let Load::Loaded(md) = loads.map {
        let mut md = md;
        if md.count() > 0 {
            settle_pieces(st, scene, loads.fragments, map_file);
            st.files.note(IslandFile::Ships, &loads.ships, None);
            ready_saved_map(&mut md, &loads.ships, now);
            scene.seq_cursor = raise_cursor(scene.seq_cursor, &md);
            scene.map_data = Some(md);
            return EntryPlan { schedule_tick, refill_catalog, seed_mode, restored: true };
        }
    }
    open_story(st, &mut scene.new_game, had_user_info, game_mode);
    let md = default_island();
    settle_pieces(st, scene, loads.fragments, map_file);
    scene.seq_cursor = raise_cursor(scene.seq_cursor, &md);
    scene.map_data = Some(md);
    EntryPlan { schedule_tick, refill_catalog, seed_mode, restored: false }
}

/// The island every player starts with is sound: every key occurs once, every
/// building has a number, and no two share one.
pub proof fn law_first_island_is_sound()
    ensures
        keys_distinct(first_island()),
        seqs_unique(first_island()),
        forall|k: int, i: int|
            is_slot(first_island(), k, i) ==> #[trigger] at(first_island(), (k, i)).seq_id()
                > SEQ_BASE,
{
}

/// Progress in a damaged file that could not be moved aside is safe: the
/// opening story does not start it anew, and saving leaves the file alone.
pub proof fn law_damaged_progress_is_safe(
    scene: IslandScene,
    loads: IslandLoads,
    facts: EntryFacts,
    files: FileGuard,
)
    requires
        loads.user_info == (Load::<UserInfoArchive>::Damaged { moved: false }),
    ensures
        !starts_anew(scene, loads, facts, files),
        files_after_entry(files, loads).blocks(IslandFile::UserInfo, true),
{
}

/// A player without a file, or whose damaged file was moved aside, and without
/// a layout, starts anew, unless it is a visit.
pub proof fn law_new_player_sees_the_story(
    scene: IslandScene,
    loads: IslandLoads,
    facts: EntryFacts,
    files: FileGuard,
)
    requires
        loads.user_info is Missing || loads.user_info == (Load::<UserInfoArchive>::Damaged {
            moved: true,
        }),
        !map_usable(loads.map),
        facts.game_mode != Some(0i32) && facts.game_mode != Some(6i32),
    ensures
        starts_anew(scene, loads, facts, files),
{
}

/// What an entry leaves to be done: a tick is scheduled unless a chain of them
/// was heard within the last three seconds; the catalogue is loaded again
/// exactly if its first shelf is empty; the island's mode is 1 where both
/// managers are there; and a layout with at least one key counts as restored.
pub proof fn law_entry_plan(st: IslandState, loads: IslandLoads, facts: EntryFacts, clock: u64)
    ensures
        ({
            let plan = entry_plan(st, loads, facts, clock);
            let heard = st.tick_running && st.last_tick is Some && clock - st.last_tick->0
                < 3_000_000_000;
            &&& plan.schedule_tick == !heard
            &&& plan.refill_catalog <==> facts.store_items == 0
            &&& facts.managers ==> plan.seed_mode == Some(1i32)
            &&& !facts.managers ==> plan.seed_mode is None
            &&& plan.restored <==> (loads.map matches Load::Loaded(md) && md@.len() >= 1)
        }),
{
}

/// When the opening story is played: without a layout to use and without saved
/// progress that was taken over, unless the progress lies damaged in its place,
/// and not in the modes 0 and 6, which are visits.
pub proof fn law_when_the_story_starts(
    scene: IslandScene,
    loads: IslandLoads,
    facts: EntryFacts,
    files: FileGuard,
)
    ensures
        starts_anew(scene, loads, facts, files) <==> {
            let has_layout = loads.map matches Load::Loaded(md) && md@.len() >= 1;
            let carried = scene.user_info is Some || facts.fresh_user_info is Some;
            let damaged = loads.user_info == (Load::<UserInfoArchive>::Damaged { moved: false })
                || (loads.user_info is Unavailable && files.failed.user_info);
            &&& !has_layout
            &&& !(loads.user_info is Loaded && carried)
            &&& !damaged
            &&& facts.game_mode != Some(0i32) && facts.game_mode != Some(6i32)
        },
        carrier(scene, facts) == if scene.user_info is Some {
            scene.user_info
        } else {
            facts.fresh_user_info
        },
{
}

/// Which files are protected after an entry: each that is damaged and in place.
/// The ships' file is looked at only with a layout to use; with a damaged
/// layout that was moved aside it is protected if it could not follow.
pub proof fn law_protection_after_entry(files: FileGuard, loads: IslandLoads)
    ensures
        ({
            let f = files.failed;
            let g = files_after_entry(files, loads).failed;
            let usable = loads.map matches Load::Loaded(md) && md@.len() >= 1;
            &&& g.user_info == if loads.user_info is Unavailable {
                f.user_info
            } else {
                loads.user_info == (Load::<UserInfoArchive>::Damaged { moved: false })
            }
            &&& g.map == if loads.map is Unavailable {
                f.map
            } else {
                loads.map == (Load::<MapData>::Damaged { moved: false })
            }
            &&& g.fragments == if loads.fragments is Unavailable {
                f.fragments
            } else {
                loads.fragments == (Load::<Vec<i32>>::Damaged { moved: false })
            }
            &&& usable && !(loads.ships is Unavailable) ==> g.ships == (loads.ships == (Load::<
                Vec<ShipRecord>,
            >::Damaged { moved: false }))
            &&& !usable && loads.map == (Load::<MapData>::Damaged { moved: true })
                && loads.ships_beside is Some ==> g.ships == !loads.ships_beside->0
            &&& !usable && (loads.map != (Load::<MapData>::Damaged { moved: true })
                || loads.ships_beside is None) ==> g.ships == f.ships
        }),
{
}

/// The first island: shops 30101 to 30105 with the numbers 90001 to 90005, of
/// level 4, in two rows; restaurant 30002 at (11, 39), apartment house 30001 at
/// (15, 26) and ship 34001 at (37, -30), with the numbers 90006 to 90008. Nothing
/// on it has begun.
pub proof fn law_first_island(i: int)
    ensures
        first_island().len() == 4,
        first_island()[0].key == 28 && first_island()[1].key == 29 && first_island()[2].key == 32
            && first_island()[3].key == 39,
        first_island()[0].objects.len() == 5 && first_island()[1].objects.len() == 1
            && first_island()[2].objects.len() == 1 && first_island()[3].objects.len() == 1,
        0 <= i < 5 ==> {
            let h = first_island()[0].objects[i].head;
            &&& h.object_id == 30101 + i && h.seq_id == 90001 + i && h.handle == 0 && h.flip == 0
            &&& h.tile_x == 22 + 5 * (i % 3) && h.tile_y == if i < 3 {
                42i32
            } else {
                47i32
            }
            &&& h.detail == (Detail::Shop {
                begin: CfTime { secs: 0, frac: 0 },
                shopping: 0,
                upgrading: 0,
                level: 4,
                sale_item: 0,
                property: 0,
            })
        },
        ({
            let r = first_island()[1].objects[0].head;
            let a = first_island()[2].objects[0].head;
            let s = first_island()[3].objects[0].head;
            &&& r.object_id == 30002 && r.seq_id == 90006 && r.tile_x == 11 && r.tile_y == 39
            &&& r.detail == (Detail::Restaurant {
                begin_upgrade: 0,
                last_cool: 0,
                property: 1,
                level: 1,
                construct_value: 0,
                island_value: 0,
            })
            &&& a.object_id == 30001 && a.seq_id == 90007 && a.tile_x == 15 && a.tile_y == 26
            &&& a.detail == (Detail::Apartment { waiting: 0, last_finish: 0 })
            &&& s.object_id == 34001 && s.seq_id == 90008 && s.tile_x == 37 && s.tile_y == -30
            &&& s.detail == (Detail::Ship {
                begin_discover: CfTime { secs: 0, frac: 0 },
                begin_fix: CfTime { secs: 0, frac: 0 },
                state: 0,
                sailing: false,
                search_map: 0,
                on_board: 0,
            })
            &&& r.handle == 0 && a.handle == 0 && s.handle == 0
            &&& r.flip == 0 && a.flip == 0 && s.flip == 0
        }),
        forall|k: int, j: int|
            is_slot(first_island(), k, j) ==> #[trigger] at(first_island(), (k, j)).gifts.len() == 0,
{
}

proof fn lemma_applied_keeps(objs: Seq<ObjectV>, recs: Seq<RecordV>, n: int, p: int)
    requires
        0 <= p < objs.len(),
    ensures
        applied_upto(objs, recs, n).len() == objs.len(),
        ({
            let o = objs[p];
            let r = applied_upto(objs, recs, n)[p];
            &&& kind_of(r) == kind_of(o)
            &&& kind_of(o) == 0 ==> r == o
            &&& match (o.head.detail, r.head.detail) {
                (
                    Detail::Ship {
                        begin_discover: a,
                        begin_fix: b,
                        sailing: d,
                        search_map: e,
                        on_board: f,
                        ..
                    },
                    Detail::Ship { begin_discover, begin_fix, sailing, search_map, on_board, .. },
                ) => a == begin_discover && b == begin_fix && d == sailing && e == search_map && f
                    == on_board,
                (Detail::CafeShop { is_new: a }, Detail::CafeShop { is_new }) => a ==> is_new,
                (a, b) => a == b,
            }
            &&& r.head.seq_id == o.head.seq_id && r.head.object_id == o.head.object_id
        }),
    decreases n,
{
    if n > 0 {
        lemma_applied_keeps(objs, recs, n - 1, p);
        law_records_restore_the_state(applied_upto(objs, recs, n - 1)[p], recs[n - 1]);
    }
}

/// A saved layout made ready: every building has a number, every moment is on
/// the 2001 clock, and no ship is stuck. Only ships and cafes get anything from
/// the ships' file. All else is as it was saved.
pub proof fn law_saved_layout_is_made_ready(
    objs: Seq<ObjectV>,
    ships: Load<Vec<ShipRecord>>,
    now: CfTime,
    p: int,
)
    requires
        now.is_reading(),
        0 <= p < objs.len(),
        highest(objs, SEQ_BASE as int) + zeros(objs) <= i32::MAX,
    ensures
        ({
            let o = objs[p];
            let r = readied(objs, ships, now)[p];
            &&& readied(objs, ships, now).len() == objs.len()
            &&& r.head.object_id == o.head.object_id
            &&& o.head.seq_id != 0 ==> r.head.seq_id == o.head.seq_id
            &&& match (o.head.detail, r.head.detail) {
                (
                    Detail::Restaurant {
                        begin_upgrade: a,
                        last_cool: b,
                        property: c,
                        level: d,
                        construct_value: e,
                        island_value: f,
                    },
                    Detail::Restaurant {
                        begin_upgrade,
                        last_cool,
                        property,
                        level,
                        construct_value,
                        island_value,
                    },
                ) => is_mended_whole(a as int, begin_upgrade as int, 0, now) && is_mended_whole(
                    b as int,
                    last_cool as int,
                    0,
                    now,
                ) && c == property && d == level && e == construct_value && f == island_value,
                (
                    Detail::Shop {
                        begin: a,
                        shopping: b,
                        upgrading: c,
                        level: d,
                        sale_item: e,
                        property: f,
                    },
                    Detail::Shop { begin, shopping, upgrading, level, sale_item, property },
                ) => is_mended(a, begin, now) && b == shopping && c == upgrading && d == level && e
                    == sale_item && f == property,
                (
                    Detail::Apartment { waiting: a, last_finish: b },
                    Detail::Apartment { waiting, last_finish },
                ) => a == waiting && is_mended_whole(b as int, last_finish as int, 0, now),
                (
                    Detail::Ship {
                        begin_discover: a,
                        begin_fix: b,
                        sailing: d,
                        search_map: e,
                        on_board: f,
                        ..
                    },
                    Detail::Ship { begin_discover, begin_fix, sailing, search_map, on_board, .. },
                ) => is_mended(a, begin_discover, now) && is_mended(b, begin_fix, now) && e
                    == search_map && f == on_board && (sailing ==> d) && !(sailing
                    && begin_discover.ticks() <= 0 && (search_map <= 0 || on_board <= 0)),
                (Detail::CafeShop { is_new: a }, Detail::CafeShop { is_new }) => a ==> is_new,
                (Detail::SuperShellTree { bought: a }, Detail::SuperShellTree { bought }) =>
                    is_mended_whole(a as int, bought as int, 0, now),
                (
                    Detail::Building { begin: a, cooling: b, game_cool: c },
                    Detail::Building { begin, cooling, game_cool },
                ) => is_mended(a, begin, now) && is_mended(b, cooling, now) && is_mended(
                    c,
                    game_cool,
                    now,
                ),
                (Detail::Spacials { cooling: a }, Detail::Spacials { cooling }) => is_mended(
                    a,
                    cooling,
                    now,
                ),
                (Detail::TransObject { begin: a }, Detail::TransObject { begin }) => is_mended(
                    a,
                    begin,
                    now,
                ),
                (
                    Detail::YellowDuck { purchase: a, last_transform: b, cooling: c },
                    Detail::YellowDuck { purchase, last_transform, cooling },
                ) => is_mended(a, purchase, now) && is_mended(b, last_transform, now) && is_mended(
                    c,
                    cooling,
                    now,
                ),
                (Detail::Other, Detail::Other) => true,
                _ => false,
            }
        }),
{
    let dealt = numbered(objs, highest(objs, SEQ_BASE as int));
    let mended = Seq::new(dealt.len(), |q: int| repaired_object(dealt[q], now));
    law_every_stamp_is_mended(dealt[p], now);
    match ships {
        Load::Loaded(r) => {
            lemma_applied_keeps(mended, records_v(r@), r@.len() as int, p);
            law_stuck_ships_are_moored(applied_upto(mended, records_v(r@), r@.len() as int)[p]);
        },
        _ => {
            law_stuck_ships_are_moored(mended[p]);
        },
    }
}

/// The stay after an entry: ticks run, the one to be scheduled counts from now;
/// a player who starts anew has something to save; the mark that pieces follow
/// the quests is that of the saved progress, or is set where the quests can be
/// told and the save is not from before pieces were saved. Where the player is
/// does not change.
pub proof fn law_state_after_entry(
    st: IslandState,
    loads: IslandLoads,
    schedule_tick: bool,
    clock: u64,
    anew: bool,
    mark: bool,
    pieces: bool,
    next: i32,
)
    ensures
        ({
            let s = entered(st, loads, schedule_tick, clock, anew, mark, pieces, next);
            let old_save = !mark && !loads.fragments.file_remains() && loads.map.file_remains();
            &&& s.tick_running
            &&& schedule_tick ==> s.last_tick == Some(clock)
            &&& !schedule_tick ==> s.last_tick == st.last_tick
            &&& s.dirty == (st.dirty || anew)
            &&& s.frag_by_quest == (mark || (pieces && !old_save && next >= 1))
            &&& s.on_island == st.on_island && s.loading == st.loading && s.exiting == st.exiting
                && s.enter_window == st.enter_window && s.gate1_hit == st.gate1_hit && s.injected
                == st.injected && s.flushing == st.flushing && s.scene_mgr == st.scene_mgr
                && s.exit_frames == st.exit_frames && s.last_flush == st.last_flush
        }),
        new_game_after(st.exit_frames, false) == st.exit_frames,
        new_game_after(st.exit_frames, true) & 1 == 1,
        new_game_after(st.exit_frames, true) & !1i32 == st.exit_frames & !1i32,
{
    let v = st.exit_frames;
    assert((v | 1) & 1 == 1) by (bit_vector);
    assert((v | 1) & !1i32 == v & !1i32) by (bit_vector);
}

/// The pieces after an entry: all the player had, all of the save file, and
/// those that are owed; nothing else. An old save is owed all four of the sand
/// map; otherwise 31005 and 31007 are owed for the quests 81 and 83 once they
/// are done.
pub proof fn law_pieces_after_entry(
    frags: Seq<i32>,
    loads: IslandLoads,
    mark: bool,
    next: i32,
    cur: i32,
    x: i32,
)
    requires
        frags.no_duplicates(),
    ensures
        ({
            let after = pieces_after(frags, loads, mark, next, cur);
            let old_save = !mark && !loads.fragments.file_remains() && loads.map.file_remains();
            let sand = x == 31005 || x == 31006 || x == 31007 || x == 31008;
            let saved = loads.fragments matches Load::Loaded(v) && v@.contains(x);
            let owed = if old_save || next <= 0 {
                sand
            } else {
                (x == 31005 && next > 81 && cur != 81) || (x == 31007 && next > 83 && cur != 83)
            };
            &&& after.contains(x) <==> frags.contains(x) || saved || owed
            &&& after.no_duplicates()
            &&& frags.is_prefix_of(after)
        }),
{
    let legacy = is_legacy(mark, loads.fragments.file_remains(), loads.map.file_remains());
    let owed = owed_pieces(legacy, next, cur);
    let had = pieces_loaded(frags, loads.fragments);
    match loads.fragments {
        Load::Loaded(v) => {
            law_pieces_are_joined_once(frags, v@);
        },
        _ => {},
    }
    law_pieces_are_joined_once(had, owed);
    assert(frags.is_prefix_of(had));
    let after = pieces_after(frags, loads, mark, next, cur);
    assert(frags =~= after.take(frags.len() as int));
    if legacy || next <= 0 {
        assert(owed[0] == 31005 && owed[1] == 31006 && owed[2] == 31007 && owed[3] == 31008);
        assert(owed.len() == 4);
    } else {
        law_new_island_earns_its_pieces(next, cur);
        assert(owed.contains(x) ==> x == 31005 || x == 31007);
    }
}

/// What is restored: progress is read over what there is, or is to be made, for
/// the player, and stays as it is without a file that can be read. A saved layout
/// with a key at least is restored, with every key in its place and as many
/// buildings under it; without one it is the first island.
pub proof fn law_what_is_restored(
    start: Option<UserInfo>,
    load: Load<UserInfoArchive>,
    now: CfTime,
    after: Option<UserInfo>,
    map: Load<MapData>,
    ships: Load<Vec<ShipRecord>>,
    layout: Seq<EntryV>,
    k: int,
)
    requires
        is_progress_after(start, load, now, after),
        is_layout_after(map, ships, now, layout),
    ensures
        !(load is Loaded) ==> after == start,
        start is None ==> after is None,
        start is Some && load is Loaded ==> after is Some && after->0@ == unarchived(
            start->0@,
            load->Loaded_0@,
            now,
        ),
        !(map is Loaded) ==> layout == first_island(),
        map is Loaded && map->Loaded_0@.len() == 0 ==> layout == first_island(),
        map is Loaded && map->Loaded_0@.len() > 0 ==> layout.len() == map->Loaded_0@.len() && flat(
            layout,
        ) == readied(flat(map->Loaded_0@), ships, now),
        map is Loaded && 0 <= k < map->Loaded_0@.len() ==> layout[k].key == map->Loaded_0@[k].key
            && layout[k].objects.len() == map->Loaded_0@[k].objects.len(),
{
}

/// The mark that pieces follow the quests is read from saved progress that was
/// taken over, and is not set otherwise; the quests are those of the progress,
/// and none without it.
pub proof fn law_mark_and_quests(scene: IslandScene, loads: IslandLoads, facts: EntryFacts, ui: UserInfo)
    ensures
        !(loads.user_info is Loaded) ==> !mark_loaded(scene, loads, facts),
        scene.user_info is None && facts.fresh_user_info is None ==> !mark_loaded(
            scene,
            loads,
            facts,
        ),
        loads.user_info is Loaded && (scene.user_info is Some || facts.fresh_user_info is Some)
            ==> mark_loaded(scene, loads, facts) == saved_mark(loads.user_info->Loaded_0@),
        quests(Some(ui)) == (ui.progress.next_quest, ui.progress.cur_quest),
        quests(None) == (0i32, 0i32),
{
}

} // verus!
