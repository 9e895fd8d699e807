//! The state of a stay on the island: entering, saving in time, leaving.

use vstd::prelude::*;
use crate::island::files::{FileGuard, FileMarks};

verus! {

/// A tick chain that has been silent for this long (in nanoseconds) is dead.
pub const TICK_STALE: u64 = 3_000_000_000;

/// State of the island session. Clock readings are nanoseconds of a clock that
/// never goes back.
#[derive(Clone, Copy, Debug, PartialEq, Eq, Structural)]
pub struct IslandState {
    /// Frames left in which entering is let through.
    pub enter_window: i32,
    pub on_island: bool,
    pub gate1_hit: bool,
    /// Something changed that is not saved yet.
    pub dirty: bool,
    pub tick_running: bool,
    pub flushing: bool,
    pub loading: bool,
    pub exiting: bool,
    pub scene_mgr: u32,
    pub exit_frames: i32,
    /// The layout of this stay was provided.
    pub injected: bool,
    /// Pieces of the sand map follow the quests.
    pub frag_by_quest: bool,
    pub last_flush: Option<u64>,
    pub last_tick: Option<u64>,
    pub files: FileGuard,
}

impl IslandState {
    /// Whether nothing has happened yet.
    pub open spec fn untouched(self) -> bool {
        &&& self.enter_window == 0 && !self.on_island && !self.gate1_hit && !self.dirty
        &&& !self.tick_running && !self.flushing && !self.loading && !self.exiting
        &&& self.scene_mgr == 0 && self.exit_frames == 0 && !self.injected && !self.frag_by_quest
        &&& self.last_flush is None && self.last_tick is None
        &&& self.files == (FileGuard {
            failed: FileMarks { map: false, user_info: false, ships: false, fragments: false },
        })
    }

    /// The state at the start of the program.
    pub fn new() -> (s: IslandState)
        ensures
            s.untouched(),
    {
        IslandState {
            enter_window: 0,
            on_island: false,
            gate1_hit: false,
            dirty: false,
            tick_running: false,
            flushing: false,
            loading: false,
            exiting: false,
            scene_mgr: 0,
            exit_frames: 0,
            injected: false,
            frag_by_quest: false,
            last_flush: None,
            last_tick: None,
            files: FileGuard {
                failed: FileMarks { map: false, user_info: false, ships: false, fragments: false },
            },
        }
    }

    /// The state after a change on the island was noted.
    pub open spec fn marked_dirty(self) -> IslandState {
        if self.on_island && !self.flushing {
            IslandState { dirty: true, ..self }
        } else {
            self
        }
    }

    /// Notes a change on the island that has to be saved.
    pub fn island_mark_dirty(&mut self)
        ensures
            *final(self) == old(self).marked_dirty(),
    {
        if self.on_island && !self.flushing {
            self.dirty = true;
        }
    }

    /// Whether the chain of ticks is not known to be alive.
    pub open spec fn tick_is_stale(self, now: u64) -> bool {
        match self.last_tick {
            Some(t) => now - t >= TICK_STALE,
            None => true,
        }
    }

    /// Starts the chain of saving ticks, or starts it again where it has been
    /// silent for three seconds; says whether a tick has to be scheduled.
    pub fn start_island_tick(&mut self, now: u64) -> (schedule: bool)
        ensures
            (schedule, *final(self)) == tick_started(*old(self), now),
            schedule == (!old(self).tick_running || old(self).tick_is_stale(now)),
            *final(self) == (if schedule {
                IslandState { tick_running: true, last_tick: Some(now), ..*old(self) }
            } else {
                *old(self)
            }),
    {
        if self.tick_running {
            let stale = match self.last_tick {
                Some(t) => now >= t && now - t >= TICK_STALE,
                None => true,
            };
            if !stale {
                return false;
            }
        }
        self.tick_running = true;
        self.last_tick = Some(now);
        true
    }

    /// Whether the next tick can be scheduled: it needs the game's manager.
    /// Without it the chain ends.
    pub fn schedule_island_tick(&mut self, manager: bool) -> (send: bool)
        ensures
            send == manager,
            *final(self) == tick_scheduled(*old(self), manager),
            *final(self) == (IslandState {
                tick_running: old(self).tick_running && manager,
                ..*old(self)
            }),
    {
        if !manager {
            self.tick_running = false;
        }
        manager
    }

    /// Whether the player is on the island, on the way there or on the way back.
    pub open spec fn active(self) -> bool {
        self.enter_window > 0 || self.on_island || self.loading || self.exiting
    }
}

/// Whether the player is on the island, on the way there or on the way back.
pub fn island_session_active(st: &IslandState) -> (r: bool)
    ensures
        r == st.active(),
{
    st.enter_window > 0 || st.on_island || st.loading || st.exiting
}

/// Whether the request to enter got past the first gate.
pub fn island_gate1_hit(st: &IslandState) -> (r: bool)
    ensures
        r == st.gate1_hit,
{
    st.gate1_hit
}

/// The stay lasts while the way in is open, the player is on the island, it is
/// loading, or the player is on the way back. A chain of ticks is dead after
/// three seconds of silence.
pub proof fn law_stay_and_ticks(isl: IslandState, now: u64)
    ensures
        isl.active() <==> isl.enter_window > 0 || isl.on_island || isl.loading || isl.exiting,
        isl.tick_is_stale(now) <==> isl.last_tick is None || now - isl.last_tick->0
            >= 3_000_000_000,
        isl.marked_dirty() == (IslandState {
            dirty: isl.dirty || (isl.on_island && !isl.flushing),
            ..isl
        }),
{
}

/// The state once the chain of ticks was started, where it had to be.
pub open spec fn tick_started(isl: IslandState, now: u64) -> (bool, IslandState) {
    let schedule = !isl.tick_running || isl.tick_is_stale(now);
    (
        schedule,
        if schedule {
            IslandState { tick_running: true, last_tick: Some(now), ..isl }
        } else {
            isl
        },
    )
}

/// A chain that runs and was heard within three seconds is not started again;
/// any other is, and counts as heard now. Nothing else changes.
pub proof fn law_one_chain_of_ticks(isl: IslandState, now: u64, t: u64)
    requires
        isl.last_tick == Some(t),
    ensures
        isl.tick_running && now - t < 3_000_000_000 ==> tick_started(isl, now) == (false, isl),
        !isl.tick_running || now - t >= 3_000_000_000 ==> tick_started(isl, now).0 && tick_started(
            isl,
            now,
        ).1 == (IslandState { tick_running: true, last_tick: Some(now), ..isl }),
        tick_started(IslandState { last_tick: None, ..isl }, now).0,
{
}

/// The state once the next tick was to be scheduled.
pub open spec fn tick_scheduled(isl: IslandState, manager: bool) -> IslandState {
    IslandState { tick_running: isl.tick_running && manager, ..isl }
}

/// Without the game's manager the chain ends; with it, it goes on.
pub proof fn law_ticks_need_the_manager(isl: IslandState)
    ensures
        tick_scheduled(isl, true) == isl,
        !tick_scheduled(isl, false).tick_running,
        tick_scheduled(isl, false).last_tick == isl.last_tick && tick_scheduled(isl, false).dirty
            == isl.dirty && tick_scheduled(isl, false).on_island == isl.on_island,
{
}

} // verus!
