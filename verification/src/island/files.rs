//! Protection of damaged save files. A file that exists but cannot be read is
//! moved aside; where that fails, it is not overwritten.

use vstd::prelude::*;
use crate::text::{decimal, push_decimal, push_text};

verus! {

/// The four save files of the island.
#[derive(Clone, Copy, Debug, PartialEq, Eq, Structural)]
pub enum IslandFile {
    Layout,
    UserInfo,
    Ships,
    Fragments,
}

impl IslandFile {
    /// The file's name in the documents folder.
    pub fn name(self) -> (r: &'static str)
        ensures
            r@ == self.spec_name(),
    {
        match self {
            IslandFile::Layout => "island_map.dat",
            IslandFile::UserInfo => "island_userinfo.dat",
            IslandFile::Ships => "island_ships.dat",
            IslandFile::Fragments => "island_fragments.dat",
        }
    }

    pub open spec fn spec_name(self) -> Seq<char> {
        match self {
            IslandFile::Layout => "island_map.dat"@,
            IslandFile::UserInfo => "island_userinfo.dat"@,
            IslandFile::Ships => "island_ships.dat"@,
            IslandFile::Fragments => "island_fragments.dat"@,
        }
    }
}

/// One mark for each save file.
#[derive(Clone, Copy, Debug, PartialEq, Eq, Structural)]
pub struct FileMarks {
    pub map: bool,
    pub user_info: bool,
    pub ships: bool,
    pub fragments: bool,
}

impl FileMarks {
    pub open spec fn has(self, file: IslandFile) -> bool {
        match file {
            IslandFile::Layout => self.map,
            IslandFile::UserInfo => self.user_info,
            IslandFile::Ships => self.ships,
            IslandFile::Fragments => self.fragments,
        }
    }

    pub open spec fn with(self, file: IslandFile, mark: bool) -> FileMarks {
        match file {
            IslandFile::Layout => FileMarks { map: mark, ..self },
            IslandFile::UserInfo => FileMarks { user_info: mark, ..self },
            IslandFile::Ships => FileMarks { ships: mark, ..self },
            IslandFile::Fragments => FileMarks { fragments: mark, ..self },
        }
    }

    /// No file marked.
    pub fn none() -> (r: FileMarks)
        ensures
            forall|f: IslandFile| !#[trigger] r.has(f),
    {
        FileMarks { map: false, user_info: false, ships: false, fragments: false }
    }

    /// Whether the file is marked.
    pub fn get(self, file: IslandFile) -> (r: bool)
        ensures
            r == self.has(file),
    {
        match file {
            IslandFile::Layout => self.map,
            IslandFile::UserInfo => self.user_info,
            IslandFile::Ships => self.ships,
            IslandFile::Fragments => self.fragments,
        }
    }

    /// Sets or clears the mark of one file.
    pub fn set(&mut self, file: IslandFile, mark: bool)
        ensures
            *final(self) == old(self).with(file, mark),
    {
        match file {
            IslandFile::Layout => self.map = mark,
            IslandFile::UserInfo => self.user_info = mark,
            IslandFile::Ships => self.ships = mark,
            IslandFile::Fragments => self.fragments = mark,
        }
    }
}

/// What became of reading a save file.
#[derive(Debug)]
pub enum Load<T> {
    /// There was no way to ask for the file.
    Unavailable,
    /// There is no such file.
    Missing,
    /// The file exists and is damaged; `moved` tells whether it was moved aside.
    Damaged { moved: bool },
    /// What the file holds.
    Loaded(T),
}

impl<T> Load<T> {
    /// Whether a file of that name is there after the attempt.
    pub open spec fn file_remains(&self) -> bool {
        match *self {
            Load::Unavailable => false,
            Load::Missing => false,
            Load::Damaged { moved } => !moved,
            Load::Loaded(_) => true,
        }
    }

    /// Whether a file of that name is there after the attempt.
    pub fn remains(&self) -> (r: bool)
        ensures
            r == self.file_remains(),
    {
        match self {
            Load::Unavailable => false,
            Load::Missing => false,
            Load::Damaged { moved } => !*moved,
            Load::Loaded(_) => true,
        }
    }
}

/// The protected files: those that are damaged and still in place.
#[derive(Clone, Copy, Debug, PartialEq, Eq, Structural)]
pub struct FileGuard {
    pub failed: FileMarks,
}

impl FileGuard {
    /// The marks after reading `file` failed. `exists` tells whether it is
    /// there, `moved` whether it could be moved aside; for the layout,
    /// `ships` tells whether the ships' file, if there is one, could be moved
    /// aside with it.
    pub open spec fn after_failure(
        self,
        file: IslandFile,
        exists: bool,
        moved: bool,
        ships: Option<bool>,
    ) -> FileGuard {
        let own = self.failed.with(file, exists && !moved);
        FileGuard {
            failed: if exists && moved && file == IslandFile::Layout && ships is Some {
                own.with(IslandFile::Ships, !ships->0)
            } else {
                own
            },
        }
    }

    /// The marks after a file was asked for.
    pub open spec fn after_load<T>(
        self,
        file: IslandFile,
        load: Load<T>,
        ships: Option<bool>,
    ) -> FileGuard {
        match load {
            Load::Unavailable => self,
            Load::Missing => self.after_failure(file, false, false, ships),
            Load::Damaged { moved } => self.after_failure(file, true, moved, ships),
            Load::Loaded(_) => FileGuard { failed: self.failed.with(file, false) },
        }
    }

    /// Whether writing the file is forbidden.
    pub open spec fn blocks(self, file: IslandFile, exists: bool) -> bool {
        self.failed.has(file) && exists
    }

    /// The marks after it was asked whether the file may be written.
    pub open spec fn after_check(self, file: IslandFile, exists: bool) -> FileGuard {
        if self.blocks(file, exists) {
            self
        } else {
            FileGuard { failed: self.failed.with(file, false) }
        }
    }

    /// Notes that a save file could not be read.
    pub fn island_note_load_failure(
        &mut self,
        file: IslandFile,
        exists: bool,
        moved: bool,
        ships: Option<bool>,
    )
        ensures
            *final(self) == old(self).after_failure(file, exists, moved, ships),
    {
        if !exists {
            self.failed.set(file, false);
            return;
        }
        self.failed.set(file, true);
        if moved {
            self.failed.set(file, false);
            if let IslandFile::Layout = file {
                match ships {
                    Some(true) => self.failed.set(IslandFile::Ships, false),
                    Some(false) => self.failed.set(IslandFile::Ships, true),
                    None => {},
                }
            }
        }
    }

    /// Notes that a save file was read.
    pub fn island_note_load_ok(&mut self, file: IslandFile)
        ensures
            *final(self) == (FileGuard { failed: old(self).failed.with(file, false) }),
    {
        self.failed.set(file, false);
    }

    /// Notes what became of reading a save file.
    pub fn note<T>(&mut self, file: IslandFile, load: &Load<T>, ships: Option<bool>)
        ensures
            *final(self) == old(self).after_load(file, *load, ships),
    {
        match load {
            Load::Unavailable => {},
            Load::Missing => self.island_note_load_failure(file, false, false, ships),
            Load::Damaged { moved } => self.island_note_load_failure(file, true, *moved, ships),
            Load::Loaded(_) => self.island_note_load_ok(file),
        }
    }

    /// Whether writing the file is forbidden. A file that is no longer there
    /// is not protected any more.
    pub fn island_save_blocked(&mut self, file: IslandFile, exists: bool) -> (blocked: bool)
        ensures
            blocked == old(self).blocks(file, exists),
            *final(self) == old(self).after_check(file, exists),
    {
        if !self.failed.get(file) {
            return false;
        }
        if !exists {
            self.failed.set(file, false);
            return false;
        }
        true
    }
}

/// A damaged file that stays in place is not overwritten, however often saving
/// is tried while it is there.
pub proof fn law_damaged_file_is_protected(g: FileGuard, file: IslandFile, ships: Option<bool>)
    ensures
        ({
            let after = g.after_failure(file, true, false, ships);
            after.blocks(file, true) && after.after_check(file, true) == after
        }),
{
}

/// Once a damaged file was moved aside, a new one may be written; a ships'
/// file that could not follow the layout is protected instead.
pub proof fn law_moved_file_is_released(g: FileGuard, file: IslandFile, ships: Option<bool>)
    ensures
        ({
            let after = g.after_failure(file, true, true, ships);
            &&& forall|exists: bool| !#[trigger] after.blocks(file, exists)
            &&& file == IslandFile::Layout && ships == Some(false) ==> after.failed.has(
                IslandFile::Ships,
            )
        }),
{
}

/// What to do about the main save file before the game reads it.
#[derive(Clone, Copy, Debug, PartialEq, Eq, Structural)]
pub enum GuardStep {
    /// Leave it to the game.
    LeaveAlone,
    /// The file was cut off while it was written: move it aside.
    Quarantine,
    /// The settings that name the file's format are gone: have the game verify
    /// the file, and restore the settings if it passes.
    Verify,
}

/// The smallest file the game writes.
pub const USERINFO_MIN_LEN: u32 = 20;

/// Decides what to do about the main save file: `len` is its length, if there
/// is such a file, and `encrypted` whether the settings know its format, if
/// there are settings.
pub fn guard_userinfo_before_load(len: Option<u32>, encrypted: Option<bool>) -> (r: GuardStep)
    ensures
        r == guard_step(len, encrypted),
        r == GuardStep::Quarantine <==> len is Some && len->0 < USERINFO_MIN_LEN,
        r == GuardStep::Verify <==> len is Some && len->0 >= USERINFO_MIN_LEN && encrypted == Some(
            false,
        ) && (len->0 - USERINFO_MIN_LEN) % 16 == 0,
{
    match len {
        None => GuardStep::LeaveAlone,
        Some(n) => {
            if n < USERINFO_MIN_LEN {
                return GuardStep::Quarantine;
            }
            match encrypted {
                Some(false) => if (n - USERINFO_MIN_LEN) % 16 != 0 {
                    GuardStep::LeaveAlone
                } else {
                    GuardStep::Verify
                },
                _ => GuardStep::LeaveAlone,
            }
        },
    }
}

/// What to do once the game has verified the file.
#[derive(Clone, Copy, Debug, PartialEq, Eq, Structural)]
pub enum GuardOutcome {
    /// Write the mark for tampering back, if its place is known.
    RestoreMark(Option<u8>),
    /// Set both format settings and save them.
    RestoreSettings,
}

/// Whether an instance variable's offset can be right.
pub open spec fn plausible_offset(off: u32) -> bool {
    0 < off < 0x1000
}

/// Decides what to do after the game verified the file. `hack_offset` is where
/// the game keeps its mark for tampering and `before` what it held.
pub fn guard_userinfo_after_check(passed: bool, hack_offset: u32, before: u8) -> (r: GuardOutcome)
    ensures
        r == guard_outcome(passed, hack_offset, before),
        passed ==> r == GuardOutcome::RestoreSettings,
        !passed && plausible_offset(hack_offset) ==> r == GuardOutcome::RestoreMark(Some(before)),
        !passed && !plausible_offset(hack_offset) ==> r == GuardOutcome::RestoreMark(None),
{
    if passed {
        GuardOutcome::RestoreSettings
    } else if hack_offset != 0 && hack_offset < 0x1000 {
        GuardOutcome::RestoreMark(Some(before))
    } else {
        GuardOutcome::RestoreMark(None)
    }
}

/// The name under which a damaged file is kept: with the ending `.corrupt`,
/// and, where that name is taken, with the time as well.
pub open spec fn quarantine_path(path: Seq<char>, taken: bool, secs: nat) -> Seq<char> {
    if taken {
        path + ".corrupt-"@ + decimal(secs)
    } else {
        path + ".corrupt"@
    }
}

/// The name under which a damaged file is kept. `secs` is the time, used where
/// the first name is taken.
pub fn quarantine_corrupt_file(path: &str, taken: bool, secs: u64) -> (r: String)
    ensures
        r@ == quarantine_path(path@, taken, secs as nat),
{
    let mut s: String = String::new();
    push_text(&mut s, path);
    assert(s@ =~= path@);
    if taken {
        push_text(&mut s, ".corrupt-");
        push_decimal(&mut s, secs);
    } else {
        push_text(&mut s, ".corrupt");
    }
    s
}

/// Whether a damaged file counts as moved aside: the move was reported as done
/// and the file is no longer there.
pub fn quarantine_succeeded(reported: bool, still_there: bool) -> (r: bool)
    ensures
        r == is_aside(reported, still_there),
        r == (reported && !still_there),
{
    reported && !still_there
}

/// A file that was moved aside earlier is not overwritten: where the plain name
/// is taken, another one is used.
pub proof fn law_kept_file_is_not_overwritten(path: Seq<char>, secs: nat, other: nat)
    ensures
        quarantine_path(path, true, secs) != quarantine_path(path, false, other),
        quarantine_path(path, false, secs) != path,
        quarantine_path(path, true, secs) != path,
{
    reveal_strlit(".corrupt");
    reveal_strlit(".corrupt-");
    assert(quarantine_path(path, false, other).len() == path.len() + 8);
    assert(quarantine_path(path, true, secs).len() >= path.len() + 9);
}

/// Each save file has its own name and its own mark: setting one file's mark
/// leaves the others.
pub proof fn law_files_are_apart(m: FileMarks, file: IslandFile, other: IslandFile, mark: bool)
    ensures
        IslandFile::Layout.spec_name() == "island_map.dat"@,
        IslandFile::UserInfo.spec_name() == "island_userinfo.dat"@,
        IslandFile::Ships.spec_name() == "island_ships.dat"@,
        IslandFile::Fragments.spec_name() == "island_fragments.dat"@,
        m.has(IslandFile::Layout) == m.map && m.has(IslandFile::UserInfo) == m.user_info,
        m.has(IslandFile::Ships) == m.ships && m.has(IslandFile::Fragments) == m.fragments,
        m.with(file, mark).has(file) == mark,
        file != other ==> m.with(file, mark).has(other) == m.has(other),
{
}

/// What reading a file tells: nothing where it could not be asked for. A
/// missing file, one that was read and one that was moved aside are not
/// protected; a damaged one in place is. The ships' file is concerned by no
/// other but a damaged layout that was moved aside, and then only if there was
/// one to move.
pub proof fn law_reading_tells<T>(
    g: FileGuard,
    file: IslandFile,
    other: IslandFile,
    load: Load<T>,
    ships: Option<bool>,
)
    requires
        other != file,
    ensures
        ({
            let after = g.after_load(file, load, ships).failed;
            let damaged = load == (Load::<T>::Damaged { moved: false });
            let drags = load == (Load::<T>::Damaged { moved: true }) && file == IslandFile::Layout
                && other == IslandFile::Ships && ships is Some;
            &&& load is Unavailable ==> after == g.failed
            &&& !(load is Unavailable) ==> after.has(file) == damaged
            &&& after.has(other) == if drags {
                !ships->0
            } else {
                g.failed.has(other)
            }
            &&& load.file_remains() == (load is Loaded || damaged)
        }),
{
}

/// A file is written unless it is protected and in place; one that is gone is
/// no longer protected. No other file's mark is touched by the question.
pub proof fn law_only_damaged_files_are_kept(
    g: FileGuard,
    file: IslandFile,
    other: IslandFile,
    exists: bool,
)
    requires
        other != file,
    ensures
        g.blocks(file, exists) == (g.failed.has(file) && exists),
        g.after_check(file, exists).failed.has(file) == (g.failed.has(file) && exists),
        g.after_check(file, exists).failed.has(other) == g.failed.has(other),
{
}

/// What to do about the main save file: one below twenty bytes was cut off; one
/// whose format the settings no longer know is verified if it consists of
/// twenty bytes and whole blocks of sixteen; any other is left alone.
pub open spec fn guard_step(len: Option<u32>, encrypted: Option<bool>) -> GuardStep {
    match len {
        Some(n) => if n < USERINFO_MIN_LEN {
            GuardStep::Quarantine
        } else if encrypted == Some(false) && (n - USERINFO_MIN_LEN) % 16 == 0 {
            GuardStep::Verify
        } else {
            GuardStep::LeaveAlone
        },
        None => GuardStep::LeaveAlone,
    }
}

/// A file of 20 + 16 n bytes can be whole, and no shorter one; settings that
/// know the format, or no settings at all, leave every whole file to the game.
pub proof fn law_cut_off_files_are_noticed(n: u32, encrypted: Option<bool>, blocks: u32)
    ensures
        n <= 19 ==> guard_step(Some(n), encrypted) == GuardStep::Quarantine,
        n >= 20 ==> guard_step(Some(n), encrypted) != GuardStep::Quarantine,
        n == 20 + 16 * blocks ==> guard_step(Some(n), Some(false)) == GuardStep::Verify,
        n > 20 + 16 * blocks && n < 36 + 16 * blocks ==> guard_step(Some(n), Some(false))
            == GuardStep::LeaveAlone,
        n >= 20 && encrypted != Some(false) ==> guard_step(Some(n), encrypted)
            == GuardStep::LeaveAlone,
        guard_step(None, encrypted) == GuardStep::LeaveAlone,
{
}

/// What to do once the game has verified the file: a sound one gets its
/// settings back, and for any other the mark for tampering is put back where
/// its place is known.
pub open spec fn guard_outcome(passed: bool, hack_offset: u32, before: u8) -> GuardOutcome {
    if passed {
        GuardOutcome::RestoreSettings
    } else if plausible_offset(hack_offset) {
        GuardOutcome::RestoreMark(Some(before))
    } else {
        GuardOutcome::RestoreMark(None)
    }
}

/// A file that passed gets its settings back, and no other does; the mark is put
/// back as it was, at an offset from 1 to 4095 only.
pub proof fn law_verified_files_are_restored(passed: bool, hack_offset: u32, before: u8)
    ensures
        passed <==> guard_outcome(passed, hack_offset, before) == GuardOutcome::RestoreSettings,
        !passed && 1 <= hack_offset <= 4095 ==> guard_outcome(passed, hack_offset, before)
            == GuardOutcome::RestoreMark(Some(before)),
        !passed && (hack_offset == 0 || hack_offset >= 4096) ==> guard_outcome(
            passed,
            hack_offset,
            before,
        ) == GuardOutcome::RestoreMark(None),
{
}

/// A damaged file is kept beside its own name: the name, and then `.corrupt`,
/// and where that is taken `.corrupt-` and the time.
pub proof fn law_damaged_files_are_kept_beside(path: Seq<char>, secs: nat)
    ensures
        quarantine_path(path, false, secs) == path + ".corrupt"@,
        quarantine_path(path, true, secs) == path + ".corrupt-"@ + decimal(secs),
{
}

/// Whether a damaged file counts as moved aside.
pub open spec fn is_aside(reported: bool, still_there: bool) -> bool {
    reported && !still_there
}

/// A file that is still there was not moved aside, whatever was reported, nor
/// was one whose move failed.
pub proof fn law_moved_aside_means_gone(reported: bool)
    ensures
        !is_aside(reported, true),
        !is_aside(false, false),
        is_aside(true, false),
{
}

} // verus!
