//! What is written when the island is saved.

use vstd::prelude::*;
use crate::island::entry::IslandScene;
use crate::island::files::{FileGuard, FileMarks, IslandFile};
use crate::island::map_data::{flat, EntryV, MapData, ObjectV};
use crate::island::merge::{lives_v, merged_count, merged_upto, LiveObject};
use crate::island::session::IslandState;
use crate::island::ships::{records_upto, records_v, RecordV, ShipRecord};
use crate::lists::copied;
use crate::text::{decimal, push_decimal, push_text};
use crate::island::user_info::{archived, save_island_userinfo, UserInfoArchive};

verus! {

/// What to write to each save file; nothing for a file to leave as it is.
#[derive(Debug)]
pub struct FlushPlan {
    pub user_info: Option<UserInfoArchive>,
    /// How many new buildings reached the layout.
    pub merged: usize,
    /// Write the layout, which has this many keys.
    pub map: Option<usize>,
    pub ships: Option<Vec<ShipRecord>>,
    pub fragments: Option<Vec<i32>>,
}

/// The layout with the new buildings in it.
pub open spec fn merged_map(md: Option<MapData>, lives: Seq<LiveObject>) -> Option<Seq<EntryV>> {
    match md {
        Some(m) => Some(merged_upto(m@, lives_v(lives), lives.len() as int)),
        None => None,
    }
}

/// The protected files after it was asked for each whether it may be written.
/// The ships' file is not asked for while the layout is protected.
pub open spec fn checked_files(files: FileGuard, there: FileMarks) -> FileGuard {
    let a = files.after_check(IslandFile::UserInfo, there.user_info).after_check(
        IslandFile::Layout,
        there.map,
    );
    let b = if a.failed.map {
        a
    } else {
        a.after_check(IslandFile::Ships, there.ships)
    };
    b.after_check(IslandFile::Fragments, there.fragments)
}

/// Whether a file is protected and in place.
pub open spec fn held_back(files: FileGuard, there: FileMarks, file: IslandFile) -> bool {
    files.failed.has(file) && there.has(file)
}

/// The records for the ships' file.
pub open spec fn ship_file(md: Option<Seq<EntryV>>) -> Seq<RecordV> {
    match md {
        Some(m) => records_upto(flat(m), flat(m).len() as int),
        None => Seq::empty(),
    }
}

/// Which files are written: the progress where there is any, the layout and
/// the pieces where they are not empty, and none that is protected and in
/// place; the ships' file neither while the layout is.
pub open spec fn to_write(
    files: FileGuard,
    there: FileMarks,
    progress: bool,
    keys: Option<int>,
    pieces: Option<int>,
) -> FileMarks {
    FileMarks {
        user_info: progress && !held_back(files, there, IslandFile::UserInfo),
        map: keys is Some && keys->0 > 0 && !held_back(files, there, IslandFile::Layout),
        ships: !held_back(files, there, IslandFile::Layout) && !held_back(
            files,
            there,
            IslandFile::Ships,
        ),
        fragments: pieces is Some && pieces->0 > 0 && !held_back(
            files,
            there,
            IslandFile::Fragments,
        ),
    }
}

impl IslandState {
    /// Begins saving: changes from now on are made by saving itself.
    pub fn begin_flush(&mut self)
        ensures
            *final(self) == flush_begun(*old(self)),
            *final(self) == (IslandState { flushing: true, dirty: false, ..*old(self) }),
    {
        self.flushing = true;
        self.dirty = false;
    }

    /// Ends saving.
    pub fn end_flush(&mut self, now: u64)
        ensures
            *final(self) == flush_ended(*old(self), now),
            *final(self) == (IslandState { flushing: false, last_flush: Some(now), ..*old(self) }),
    {
        self.last_flush = Some(now);
        self.flushing = false;
    }
}

/// Puts the new buildings into the layout and decides what to write. `there`
/// tells which of the files exist. A protected file that exists is not
/// written, nor the ships' file while the layout is protected; neither is a
/// layout or a list of pieces that is empty.
pub fn island_flush(
    files: &mut FileGuard,
    scene: &mut IslandScene,
    lives: Vec<LiveObject>,
    by_quest: bool,
    there: FileMarks,
) -> (plan: FlushPlan)
    requires
        merged_map(old(scene).map_data, lives@) matches Some(md) ==> flat(md).len() <= i32::MAX,
    ensures
        *final(files) == checked_files(*old(files), there),
        ({
            let md = merged_map(old(scene).map_data, lives@);
            to_write(
                *old(files),
                there,
                old(scene).user_info is Some,
                if md is Some {
                    Some(md->0.len() as int)
                } else {
                    None
                },
                if old(scene).fragments is Some {
                    Some(old(scene).fragments->0@.len() as int)
                } else {
                    None
                },
            ) == (FileMarks {
                user_info: plan.user_info is Some,
                map: plan.map is Some,
                ships: plan.ships is Some,
                fragments: plan.fragments is Some,
            })
        }),
        ({
            let md = merged_map(old(scene).map_data, lives@);
            let files0 = *old(files);
            &&& final(scene).user_info == old(scene).user_info
            &&& final(scene).fragments == old(scene).fragments
            &&& final(scene).new_game == old(scene).new_game
            &&& final(scene).seq_cursor == old(scene).seq_cursor
            &&& final(scene).map_data is Some == md is Some
            &&& md is Some ==> final(scene).map_data->0@ == md->0
            &&& plan.merged == match old(scene).map_data {
                Some(m) => merged_count(m@, lives_v(lives@), lives@.len() as int),
                None => 0,
            }
            // The progress.
            &&& plan.user_info is Some <==> old(scene).user_info is Some && !held_back(
                files0,
                there,
                IslandFile::UserInfo,
            )
            &&& plan.user_info is Some ==> plan.user_info->0@ == archived(
                old(scene).user_info->0@,
                by_quest,
            )
            // The layout.
            &&& plan.map is Some <==> md is Some && md->0.len() > 0 && !held_back(
                files0,
                there,
                IslandFile::Layout,
            )
            &&& plan.map is Some ==> plan.map->0 == md->0.len()
            // Ships and cafes.
            &&& plan.ships is Some <==> !held_back(files0, there, IslandFile::Layout) && !held_back(
                files0,
                there,
                IslandFile::Ships,
            )
            &&& plan.ships is Some ==> records_v(plan.ships->0@) == ship_file(md)
            // The pieces of the maps.
            &&& plan.fragments is Some <==> {
                &&& old(scene).fragments is Some
                &&& old(scene).fragments->0@.len() > 0
                &&& !held_back(files0, there, IslandFile::Fragments)
            }
            &&& plan.fragments is Some ==> plan.fragments->0@ == old(scene).fragments->0@
        }),
{
    let mut user_info: Option<UserInfoArchive> = None;
    if !files.island_save_blocked(IslandFile::UserInfo, there.user_info) {
        if let Some(ui) = &scene.user_info {
            user_info = Some(save_island_userinfo(ui, by_quest));
        }
    }
    let mut merged: usize = 0;
    if let Some(md) = &mut scene.map_data {
        merged = md.merge_new_island_objects_into_mapdata(lives);
    }
    let mut map: Option<usize> = None;
    if !files.island_save_blocked(IslandFile::Layout, there.map) {
        if let Some(md) = &scene.map_data {
            let count: usize = md.count();
            if count > 0 {
                map = Some(count);
            }
        }
    }
    let mut ships: Option<Vec<ShipRecord>> = None;
    if !files.failed.map {
        if !files.island_save_blocked(IslandFile::Ships, there.ships) {
            match &scene.map_data {
                Some(md) => {
                    ships = Some(md.save_island_ships());
                },
                None => {
                    let none: Vec<ShipRecord> = Vec::new();
                    assert(records_v(none@) =~= Seq::empty());
                    ships = Some(none);
                },
            }
        }
    }
    let mut fragments: Option<Vec<i32>> = None;
    if !files.island_save_blocked(IslandFile::Fragments, there.fragments) {
        if let Some(frags) = &scene.fragments {
            if frags.len() > 0 {
                fragments = Some(copied(frags));
            }
        }
    }
    FlushPlan { user_info, merged, map, ships, fragments }
}

/// Whether writing each file succeeded.
#[derive(Clone, Copy, Debug, PartialEq, Eq, Structural)]
pub struct Written {
    pub user_info: bool,
    pub map: bool,
    pub ships: bool,
    pub fragments: bool,
}

/// How many entries were written to each file; nothing for a file that was not
/// written.
#[derive(Clone, Copy, Debug, PartialEq, Eq, Structural)]
pub struct FlushCounts {
    pub user_info: bool,
    pub map: Option<usize>,
    pub ships: Option<usize>,
    pub fragments: Option<usize>,
    pub merged: usize,
}

/// What was written.
pub open spec fn counts_of(plan: FlushPlan) -> FlushCounts {
    FlushCounts {
        user_info: plan.user_info is Some,
        map: plan.map,
        ships: match plan.ships {
            Some(v) => Some(v@.len() as usize),
            None => None,
        },
        fragments: match plan.fragments {
            Some(v) => Some(v@.len() as usize),
            None => None,
        },
        merged: plan.merged,
    }
}

/// What was written.
pub fn flush_counts(plan: &FlushPlan) -> (r: FlushCounts)
    ensures
        r == counts_of(*plan),
{
    FlushCounts {
        user_info: plan.user_info.is_some(),
        map: plan.map,
        ships: match &plan.ships {
            Some(v) => Some(v.len()),
            None => None,
        },
        fragments: match &plan.fragments {
            Some(v) => Some(v.len()),
            None => None,
        },
        merged: plan.merged,
    }
}

pub open spec fn truth(b: bool) -> Seq<char> {
    if b {
        "true"@
    } else {
        "false"@
    }
}

/// What is reported of one file, if it was written.
pub open spec fn part_of(written: Option<usize>, before: Seq<char>, after: Seq<char>, ok: bool) -> Option<
    Seq<char>,
> {
    match written {
        Some(n) => Some(before + decimal(n as nat) + after + truth(ok) + ")"@),
        None => None,
    }
}

/// The report so far, with one more part.
pub open spec fn with_part(line: Seq<char>, part: Option<Seq<char>>) -> Seq<char> {
    match part {
        Some(p) => if line.len() == 0 {
            p
        } else {
            line + " / "@ + p
        },
        None => line,
    }
}

/// The report on what was written, in one line: each file by its name.
pub open spec fn flush_line(reason: Seq<char>, c: FlushCounts, ok: Written) -> Seq<char> {
    let a = with_part(
        Seq::empty(),
        if c.user_info {
            Some("存盘 island_userinfo.dat(ok="@ + truth(ok.user_info) + ")"@)
        } else {
            None
        },
    );
    let b = with_part(a, part_of(c.map, "存盘 island_map.dat(count="@, " ok="@, ok.map));
    let d = with_part(
        b,
        part_of(c.ships, "存盘 island_ships.dat(船/咖啡馆 "@, " 个 ok="@, ok.ships),
    );
    let e = with_part(
        d,
        part_of(c.fragments, "存盘 island_fragments.dat(碎片 count="@, " ok="@, ok.fragments),
    );
    let body = if e.len() == 0 {
        "本次没有需要写入的岛档"@
    } else {
        e
    };
    let line = reason + " → "@ + body;
    if c.merged > 0 {
        line + "(合并新放置建筑 "@ + decimal(c.merged as nat) + " 个)"@
    } else {
        line
    }
}

fn push_truth(s: &mut String, b: bool)
    ensures
        final(s)@ == old(s)@ + truth(b),
{
    push_text(s, if b { "true" } else { "false" });
}

fn push_part(s: &mut String, written: Option<usize>, before: &str, after: &str, ok: bool)
    ensures
        final(s)@ == with_part(old(s)@, part_of(written, before@, after@, ok)),
{
    let ghost line = s@;
    if let Some(n) = written {
        if !s.as_str().is_empty() {
            push_text(s, " / ");
        }
        push_text(s, before);
        push_decimal(s, n as u64);
        push_text(s, after);
        push_truth(s, ok);
        push_text(s, ")");
        assert(s@ =~= with_part(line, part_of(written, before@, after@, ok)));
    }
}

/// The report on what was written, in one line.
pub fn flush_summary(reason: &str, counts: &FlushCounts, ok: &Written) -> (r: String)
    ensures
        r@ == flush_line(reason@, *counts, *ok),
{
    let mut body: String = String::new();
    assert(body@ =~= Seq::empty());
    if counts.user_info {
        push_text(&mut body, "存盘 island_userinfo.dat(ok=");
        push_truth(&mut body, ok.user_info);
        push_text(&mut body, ")");
        assert(body@ =~= "存盘 island_userinfo.dat(ok="@ + truth(ok.user_info) + ")"@);
    }
    push_part(&mut body, counts.map, "存盘 island_map.dat(count=", " ok=", ok.map);
    push_part(&mut body, counts.ships, "存盘 island_ships.dat(船/咖啡馆 ", " 个 ok=", ok.ships);
    push_part(
        &mut body,
        counts.fragments,
        "存盘 island_fragments.dat(碎片 count=",
        " ok=",
        ok.fragments,
    );
    let mut s: String = String::new();
    push_text(&mut s, reason);
    assert(s@ =~= reason@);
    push_text(&mut s, " → ");
    if body.as_str().is_empty() {
        push_text(&mut s, "本次没有需要写入的岛档");
    } else {
        push_text(&mut s, body.as_str());
    }
    if counts.merged > 0 {
        push_text(&mut s, "(合并新放置建筑 ");
        push_decimal(&mut s, counts.merged as u64);
        push_text(&mut s, " 个)");
    }
    s
}

/// Saving does not make the island look changed: what it does itself is not
/// noted, so it does not call for itself again.
pub proof fn law_saving_does_not_repeat(isl: IslandState)
    ensures
        ({
            let during = IslandState { flushing: true, dirty: false, ..isl };
            &&& during.marked_dirty() == during
            &&& !during.marked_dirty().dirty
        }),
{
}

/// What is written: progress that is there, a layout with a key at least, the
/// ships, and pieces of which there is one at least; and each of them only if
/// its file is not damaged and in place. While the layout's is, the ships are
/// not written either.
pub proof fn law_what_is_written(
    files: FileGuard,
    there: FileMarks,
    progress: bool,
    keys: Option<int>,
    pieces: Option<int>,
)
    ensures
        ({
            let w = to_write(files, there, progress, keys, pieces);
            let f = files.failed;
            &&& w.user_info <==> progress && !(f.user_info && there.user_info)
            &&& w.map <==> keys is Some && keys->0 >= 1 && !(f.map && there.map)
            &&& w.ships <==> !(f.map && there.map) && !(f.ships && there.ships)
            &&& w.fragments <==> pieces is Some && pieces->0 >= 1 && !(f.fragments
                && there.fragments)
        }),
{
}

/// After saving, a file is protected only if it was and is still in place; the
/// ships' file is not looked for while the layout's is.
pub proof fn law_protection_after_saving(files: FileGuard, there: FileMarks)
    ensures
        ({
            let f = files.failed;
            let g = checked_files(files, there).failed;
            &&& g.user_info == (f.user_info && there.user_info)
            &&& g.map == (f.map && there.map)
            &&& g.fragments == (f.fragments && there.fragments)
            &&& g.map ==> g.ships == f.ships
            &&& !g.map ==> g.ships == (f.ships && there.ships)
        }),
{
}

/// The ships' file holds one record for each ship and cafe of the layout, in
/// order, and nothing without a layout.
pub proof fn law_ships_file(md: Seq<EntryV>)
    ensures
        ship_file(None) == Seq::<RecordV>::empty(),
        ship_file(Some(md)) == records_upto(flat(md), flat(md).len() as int),
        forall|i: int|
            0 <= i < ship_file(Some(md)).len() ==> (#[trigger] ship_file(Some(md))[i]).kind == 1
                || ship_file(Some(md))[i].kind == 2,
{
    lemma_record_kinds(flat(md), flat(md).len() as int);
}

proof fn lemma_record_kinds(objs: Seq<ObjectV>, n: int)
    ensures
        forall|i: int|
            0 <= i < records_upto(objs, n).len() ==> (#[trigger] records_upto(objs, n)[i]).kind == 1
                || records_upto(objs, n)[i].kind == 2,
    decreases n,
{
    if n > 0 {
        lemma_record_kinds(objs, n - 1);
    }
}

/// The report: the reason, then each file that was written with how much and
/// whether it went well, separated by strokes, or that nothing had to be
/// written; and how many new buildings there are, where there are any.
pub proof fn law_report(reason: Seq<char>, c: FlushCounts, ok: Written, n: usize)
    requires
        !c.user_info && c.ships is None && c.fragments is None,
    ensures
        c.map is None && c.merged == 0 ==> flush_line(reason, c, ok) == reason + " → "@
            + "本次没有需要写入的岛档"@,
        c.map == Some(n) && c.merged == 0 ==> flush_line(reason, c, ok) == reason + " → "@ + (
        "存盘 island_map.dat(count="@ + decimal(n as nat) + " ok="@ + truth(ok.map) + ")"@),
        c.map is None && c.merged == n && n > 0 ==> flush_line(reason, c, ok) == reason + " → "@
            + "本次没有需要写入的岛档"@ + "(合并新放置建筑 "@ + decimal(n as nat) + " 个)"@,
        truth(true) == "true"@ && truth(false) == "false"@,
{
    let part = "存盘 island_map.dat(count="@ + decimal(n as nat) + " ok="@ + truth(ok.map) + ")"@;
    reveal_strlit("存盘 island_map.dat(count=");
    assert(part.len() > 0);
}

/// A part of the report: what stands before the count, the count, what stands
/// after it, and whether it went well; a stroke separates it from those before.
/// A file that was not written has none.
pub proof fn law_parts_of_the_report(
    line: Seq<char>,
    before: Seq<char>,
    after: Seq<char>,
    ok: bool,
    n: usize,
)
    ensures
        part_of(None, before, after, ok) is None,
        with_part(line, None) == line,
        ({
            let s = part_of(Some(n), before, after, ok)->0;
            &&& part_of(Some(n), before, after, ok) is Some
            &&& s == before + decimal(n as nat) + after + (if ok {
                "true"@
            } else {
                "false"@
            }) + ")"@
            &&& with_part(Seq::empty(), Some(s)) == s
            &&& line.len() > 0 ==> with_part(line, Some(s)) == line + " / "@ + s
        }),
{
}

/// The state while saving is under way.
pub open spec fn flush_begun(isl: IslandState) -> IslandState {
    IslandState { flushing: true, dirty: false, ..isl }
}

/// The state after saving.
pub open spec fn flush_ended(isl: IslandState, now: u64) -> IslandState {
    IslandState { flushing: false, last_flush: Some(now), ..isl }
}

/// Saving takes the mark of a change away, and notes when it was done; where the
/// player is does not change, and a change after it is noted again.
pub proof fn law_saving_is_noted(isl: IslandState, now: u64)
    ensures
        !flush_begun(isl).dirty && flush_begun(isl).flushing,
        flush_ended(flush_begun(isl), now) == (IslandState {
            flushing: false,
            dirty: false,
            last_flush: Some(now),
            ..isl
        }),
        isl.on_island ==> flush_ended(flush_begun(isl), now).marked_dirty().dirty,
{
}

/// What is counted: whether the progress was written, the keys of the layout, the
/// ships and cafes, the pieces, and the new buildings.
pub proof fn law_counts(plan: FlushPlan)
    ensures
        ({
            let c = counts_of(plan);
            &&& c.user_info <==> plan.user_info is Some
            &&& c.map == plan.map
            &&& c.ships is Some == plan.ships is Some
            &&& plan.ships is Some ==> c.ships->0 == plan.ships->0@.len() as usize
            &&& c.fragments is Some == plan.fragments is Some
            &&& plan.fragments is Some ==> c.fragments->0 == plan.fragments->0@.len() as usize
            &&& c.merged == plan.merged
        }),
{
}

} // verus!
