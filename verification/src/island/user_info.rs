//! The player's progress on the island and its save file.

use vstd::prelude::*;
use crate::lists::copied;
use crate::cf_time::{
    fix_residue, fix_residue_i32, is_mended, is_mended_whole, law_stamps_are_mended, lemma_mended,
    repaired, repaired_i32, CfTime,
};

verus! {

/// An inhabitant of the island and the end of the last rest.
#[derive(Clone, Copy, Debug, PartialEq, Eq, Structural)]
pub struct Npc {
    pub handle: u32,
    pub last_cool_down: CfTime,
}

/// An achievement and the moment it was unlocked, where it is a number.
#[derive(Clone, Copy, Debug, PartialEq, Eq, Structural)]
pub struct Achievement {
    pub key: u32,
    pub unlocked: Option<i32>,
}

/// The plain fields of the progress.
#[derive(Clone, Copy, Debug, PartialEq, Eq, Structural)]
pub struct Progress {
    pub next_quest: i32,
    pub cur_quest: i32,
    pub next_story: i32,
    pub extend_map: i32,
    pub build_value: i32,
    pub total_workers: i32,
    pub idle_workers: i32,
    pub quest_result: CfTime,
}

/// The player's progress on the island.
#[derive(Debug)]
pub struct UserInfo {
    pub progress: Progress,
    pub npcs: Option<Vec<Npc>>,
    pub achievements: Option<Vec<Achievement>>,
}

/// The progress as a mathematical value.
#[verifier::ext_equal]
pub struct UserInfoV {
    pub progress: Progress,
    pub npcs: Option<Seq<Npc>>,
    pub achievements: Option<Seq<Achievement>>,
}

/// A list that may be missing, as a sequence.
pub open spec fn opt_seq<T>(v: Option<Vec<T>>) -> Option<Seq<T>> {
    match v {
        Some(v) => Some(v@),
        None => None,
    }
}

impl View for UserInfo {
    type V = UserInfoV;

    open spec fn view(&self) -> UserInfoV {
        UserInfoV {
            progress: self.progress,
            npcs: opt_seq(self.npcs),
            achievements: opt_seq(self.achievements),
        }
    }
}

/// The numbers of the save file; each may be missing.
#[derive(Clone, Copy, Debug, PartialEq, Eq, Structural)]
pub struct SavedProgress {
    pub next_quest: Option<i32>,
    pub cur_quest: Option<i32>,
    pub next_story: Option<i32>,
    pub extend_map: Option<i32>,
    pub build_value: Option<i32>,
    pub total_workers: Option<i32>,
    pub idle_workers: Option<i32>,
    pub frag_by_quest: Option<i32>,
    pub quest_result: Option<CfTime>,
}

/// The save file of the progress.
#[derive(Debug)]
pub struct UserInfoArchive {
    pub numbers: SavedProgress,
    pub npcs: Option<Vec<Npc>>,
    pub achievements: Option<Vec<Achievement>>,
}

/// The save file as a mathematical value.
#[verifier::ext_equal]
pub struct ArchiveV {
    pub numbers: SavedProgress,
    pub npcs: Option<Seq<Npc>>,
    pub achievements: Option<Seq<Achievement>>,
}

impl View for UserInfoArchive {
    type V = ArchiveV;

    open spec fn view(&self) -> ArchiveV {
        ArchiveV {
            numbers: self.numbers,
            npcs: opt_seq(self.npcs),
            achievements: opt_seq(self.achievements),
        }
    }
}

/// What is saved of the progress. The mark that map pieces follow the quests
/// is written only where it is set.
pub open spec fn archived(ui: UserInfoV, by_quest: bool) -> ArchiveV {
    ArchiveV {
        numbers: SavedProgress {
            next_quest: Some(ui.progress.next_quest),
            cur_quest: Some(ui.progress.cur_quest),
            next_story: Some(ui.progress.next_story),
            extend_map: Some(ui.progress.extend_map),
            build_value: Some(ui.progress.build_value),
            total_workers: Some(ui.progress.total_workers),
            idle_workers: Some(ui.progress.idle_workers),
            frag_by_quest: if by_quest {
                Some(1i32)
            } else {
                None
            },
            quest_result: Some(ui.progress.quest_result),
        },
        npcs: ui.npcs,
        achievements: ui.achievements,
    }
}

/// The saved value, or the present one where none was saved.
pub open spec fn or_keep(saved: Option<i32>, present: i32) -> i32 {
    match saved {
        Some(v) => v,
        None => present,
    }
}

/// The achievement with its moment repaired.
pub open spec fn repaired_achievement(a: Achievement, now: CfTime) -> Achievement {
    Achievement {
        key: a.key,
        unlocked: match a.unlocked {
            Some(v) => Some(repaired_i32(v, now)),
            None => None,
        },
    }
}

/// The inhabitant with the end of the last rest repaired.
pub open spec fn repaired_npc(n: Npc, now: CfTime) -> Npc {
    Npc { handle: n.handle, last_cool_down: repaired(n.last_cool_down, now) }
}

pub open spec fn repaired_npcs(npcs: Option<Seq<Npc>>, now: CfTime) -> Option<Seq<Npc>> {
    match npcs {
        Some(s) => Some(Seq::new(s.len(), |i: int| repaired_npc(s[i], now))),
        None => None,
    }
}

pub open spec fn repaired_achievements(
    list: Option<Seq<Achievement>>,
    now: CfTime,
) -> Option<Seq<Achievement>> {
    match list {
        Some(s) => Some(Seq::new(s.len(), |i: int| repaired_achievement(s[i], now))),
        None => None,
    }
}

/// The progress after the save file was read over it. All workers are idle at
/// first: the game takes out those that are busy when it builds the island.
pub open spec fn unarchived(ui: UserInfoV, a: ArchiveV, now: CfTime) -> UserInfoV {
    let total = or_keep(a.numbers.total_workers, ui.progress.total_workers);
    UserInfoV {
        progress: Progress {
            next_quest: or_keep(a.numbers.next_quest, ui.progress.next_quest),
            cur_quest: or_keep(a.numbers.cur_quest, ui.progress.cur_quest),
            next_story: or_keep(a.numbers.next_story, ui.progress.next_story),
            extend_map: or_keep(a.numbers.extend_map, ui.progress.extend_map),
            build_value: or_keep(a.numbers.build_value, ui.progress.build_value),
            total_workers: total,
            idle_workers: total,
            quest_result: match a.numbers.quest_result {
                Some(t) => repaired(t, now),
                None => ui.progress.quest_result,
            },
        },
        npcs: repaired_npcs(
            if a.npcs is Some {
                a.npcs
            } else {
                ui.npcs
            },
            now,
        ),
        achievements: repaired_achievements(
            if a.achievements is Some {
                a.achievements
            } else {
                ui.achievements
            },
            now,
        ),
    }
}

/// The mark that map pieces follow the quests, as the save file has it.
pub open spec fn saved_mark(a: ArchiveV) -> bool {
    a.numbers.frag_by_quest is Some && a.numbers.frag_by_quest->0 != 0
}

/// What to write to the save file of the progress.
pub fn save_island_userinfo(ui: &UserInfo, by_quest: bool) -> (r: UserInfoArchive)
    ensures
        r@ == archived(ui@, by_quest),
{
    let p = ui.progress;
    let frag_by_quest: Option<i32> = if by_quest { Some(1) } else { None };
    let r = UserInfoArchive {
        numbers: SavedProgress {
            next_quest: Some(p.next_quest),
            cur_quest: Some(p.cur_quest),
            next_story: Some(p.next_story),
            extend_map: Some(p.extend_map),
            build_value: Some(p.build_value),
            total_workers: Some(p.total_workers),
            idle_workers: Some(p.idle_workers),
            frag_by_quest,
            quest_result: Some(p.quest_result),
        },
        npcs: match &ui.npcs {
            Some(v) => Some(copied(v)),
            None => None,
        },
        achievements: match &ui.achievements {
            Some(v) => Some(copied(v)),
            None => None,
        },
    };
    assert(r@ =~= archived(ui@, by_quest));
    r
}

fn keep_or(saved: Option<i32>, present: i32) -> (r: i32)
    ensures
        r == or_keep(saved, present),
{
    match saved {
        Some(v) => v,
        None => present,
    }
}

fn repair_npcs(npcs: &mut Vec<Npc>, now: CfTime)
    requires
        now.is_reading(),
    ensures
        final(npcs)@ == Seq::new(old(npcs)@.len(), |i: int| repaired_npc(old(npcs)@[i], now)),
{
    let ghost before = npcs@;
    let mut i: usize = 0;
    while i < npcs.len()
        invariant
            i <= npcs@.len(),
            npcs@.len() == before.len(),
            now.is_reading(),
            forall|j: int| 0 <= j < i ==> #[trigger] npcs@[j] == repaired_npc(before[j], now),
            forall|j: int| i <= j < before.len() ==> #[trigger] npcs@[j] == before[j],
        decreases npcs.len() - i,
    {
        let v = npcs[i].last_cool_down;
        npcs[i].last_cool_down = fix_residue(v, now);
        i = i + 1;
    }
    assert(npcs@ =~= Seq::new(before.len(), |i: int| repaired_npc(before[i], now)));
}

fn repair_achievements(list: &mut Vec<Achievement>, now: CfTime)
    requires
        now.is_reading(),
    ensures
        final(list)@ == Seq::new(
            old(list)@.len(),
            |i: int| repaired_achievement(old(list)@[i], now),
        ),
{
    let ghost before = list@;
    let mut i: usize = 0;
    while i < list.len()
        invariant
            i <= list@.len(),
            list@.len() == before.len(),
            now.is_reading(),
            forall|j: int| 0 <= j < i ==> #[trigger] list@[j] == repaired_achievement(before[j], now),
            forall|j: int| i <= j < before.len() ==> #[trigger] list@[j] == before[j],
        decreases list.len() - i,
    {
        if let Some(v) = list[i].unlocked {
            list[i].unlocked = Some(fix_residue_i32(v, now));
        }
        i = i + 1;
    }
    assert(list@ =~= Seq::new(before.len(), |i: int| repaired_achievement(before[i], now)));
}

/// Reads the save file over the progress; gives the mark it holds.
pub fn load_island_userinfo(ui: &mut UserInfo, archive: UserInfoArchive, now: CfTime) -> (mark: bool)
    requires
        now.is_reading(),
    ensures
        final(ui)@ == unarchived(old(ui)@, archive@, now),
        mark == saved_mark(archive@),
{
    let ghost before = ui@;
    let ghost a = archive@;
    let n = archive.numbers;
    let p = ui.progress;
    let total: i32 = keep_or(n.total_workers, p.total_workers);
    ui.progress =
    Progress {
        next_quest: keep_or(n.next_quest, p.next_quest),
        cur_quest: keep_or(n.cur_quest, p.cur_quest),
        next_story: keep_or(n.next_story, p.next_story),
        extend_map: keep_or(n.extend_map, p.extend_map),
        build_value: keep_or(n.build_value, p.build_value),
        total_workers: total,
        idle_workers: total,
        quest_result: match n.quest_result {
            Some(t) => fix_residue(t, now),
            None => p.quest_result,
        },
    };
    if let Some(v) = archive.npcs {
        ui.npcs = Some(v);
    }
    if let Some(v) = archive.achievements {
        ui.achievements = Some(v);
    }
    if let Some(v) = &mut ui.npcs {
        repair_npcs(v, now);
    }
    if let Some(v) = &mut ui.achievements {
        repair_achievements(v, now);
    }
    assert(ui@ =~= unarchived(before, a, now));
    match n.frag_by_quest {
        Some(v) => v != 0,
        None => false,
    }
}

/// Saving the progress and reading it back keeps every number, the mark, the
/// inhabitants and the achievements; workers are all idle again, and moments
/// written with the wrong clock are repaired.
pub proof fn law_progress_round_trip(ui: UserInfoV, fresh: UserInfoV, by_quest: bool, now: CfTime)
    ensures
        ({
            let a = archived(ui, by_quest);
            let back = unarchived(fresh, a, now);
            &&& back.progress == (Progress {
                idle_workers: ui.progress.total_workers,
                quest_result: repaired(ui.progress.quest_result, now),
                ..ui.progress
            })
            &&& ui.npcs is Some ==> back.npcs == repaired_npcs(ui.npcs, now)
            &&& ui.achievements is Some ==> back.achievements == repaired_achievements(
                ui.achievements,
                now,
            )
            &&& saved_mark(a) == by_quest
        }),
{
}

/// What is saved of the progress is what it is, number for number; the mark is
/// written only where it is set.
pub proof fn law_progress_is_saved(ui: UserInfoV, by_quest: bool)
    ensures
        ({
            let n = archived(ui, by_quest).numbers;
            let p = ui.progress;
            &&& n.next_quest == Some(p.next_quest) && n.cur_quest == Some(p.cur_quest)
            &&& n.next_story == Some(p.next_story) && n.extend_map == Some(p.extend_map)
            &&& n.build_value == Some(p.build_value) && n.total_workers == Some(p.total_workers)
            &&& n.idle_workers == Some(p.idle_workers) && n.quest_result == Some(p.quest_result)
            &&& by_quest ==> n.frag_by_quest == Some(1i32)
            &&& !by_quest ==> n.frag_by_quest is None
            &&& archived(ui, by_quest).npcs == ui.npcs
            &&& archived(ui, by_quest).achievements == ui.achievements
        }),
{
}

/// What is read takes the place of what was there, and what the file lacks
/// stays; all workers are idle. Inhabitants and achievements come from the file
/// where it has them, and keep their number and order; each moment comes out on
/// the 2001 clock.
pub proof fn law_progress_is_read(ui: UserInfoV, a: ArchiveV, now: CfTime, v: i32, i: int)
    requires
        now.is_reading(),
    ensures
        ({
            let p = unarchived(ui, a, now).progress;
            let n = a.numbers;
            let o = ui.progress;
            &&& n.next_quest == Some(v) ==> p.next_quest == v
            &&& n.next_quest is None ==> p.next_quest == o.next_quest
            &&& n.cur_quest == Some(v) ==> p.cur_quest == v
            &&& n.cur_quest is None ==> p.cur_quest == o.cur_quest
            &&& n.next_story == Some(v) ==> p.next_story == v
            &&& n.next_story is None ==> p.next_story == o.next_story
            &&& n.extend_map == Some(v) ==> p.extend_map == v
            &&& n.extend_map is None ==> p.extend_map == o.extend_map
            &&& n.build_value == Some(v) ==> p.build_value == v
            &&& n.build_value is None ==> p.build_value == o.build_value
            &&& n.total_workers == Some(v) ==> p.total_workers == v && p.idle_workers == v
            &&& n.total_workers is None ==> p.total_workers == o.total_workers && p.idle_workers
                == o.total_workers
            &&& n.quest_result is Some ==> is_mended(n.quest_result->0, p.quest_result, now)
            &&& n.quest_result is None ==> p.quest_result == o.quest_result
            &&& saved_mark(a) == (n.frag_by_quest is Some && n.frag_by_quest != Some(0i32))
        }),
        ({
            let from = if a.npcs is Some {
                a.npcs
            } else {
                ui.npcs
            };
            let to = unarchived(ui, a, now).npcs;
            &&& to is Some == from is Some
            &&& from is Some ==> to->0.len() == from->0.len()
            &&& from is Some && 0 <= i < from->0.len() ==> to->0[i].handle == from->0[i].handle
                && is_mended(from->0[i].last_cool_down, to->0[i].last_cool_down, now)
        }),
        ({
            let from = if a.achievements is Some {
                a.achievements
            } else {
                ui.achievements
            };
            let to = unarchived(ui, a, now).achievements;
            &&& to is Some == from is Some
            &&& from is Some ==> to->0.len() == from->0.len()
            &&& from is Some && 0 <= i < from->0.len() ==> to->0[i].key == from->0[i].key
                && to->0[i].unlocked is Some == from->0[i].unlocked is Some && (
            from->0[i].unlocked is Some ==> is_mended_whole(
                from->0[i].unlocked->0 as int,
                to->0[i].unlocked->0 as int,
                -0x8000_0000,
                now,
            ))
        }),
{
    if a.numbers.quest_result is Some {
        lemma_mended(a.numbers.quest_result->0, now);
    }
    let npcs = if a.npcs is Some {
        a.npcs
    } else {
        ui.npcs
    };
    if npcs is Some && 0 <= i < npcs->0.len() {
        lemma_mended(npcs->0[i].last_cool_down, now);
    }
    let list = if a.achievements is Some {
        a.achievements
    } else {
        ui.achievements
    };
    if list is Some && 0 <= i < list->0.len() && list->0[i].unlocked is Some {
        law_stamps_are_mended(CfTime { secs: 0, frac: 0 }, 0, list->0[i].unlocked->0, now);
    }
}

} // verus!
