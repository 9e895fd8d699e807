//! All state that the message hooks keep between two messages.

use vstd::prelude::*;
use crate::cheats::{bit_set, CheatKey, Cheats, VIP_LEVEL_MAX};
use crate::island::session::IslandState;
use crate::watchdog::Watchdog;

verus! {

/// The switches that are on from the start.
pub const DEFAULT_SWITCHES: u32 = 0x12a0000;

/// What went over the connection.
#[derive(Clone, Copy, Debug, PartialEq, Eq, Structural)]
pub struct Traffic {
    pub sent: u32,
    pub received: u32,
    pub rtt_ms: u32,
    /// How many kinds of buildings the village had when last counted.
    pub map_count: i32,
    pub last_send: Option<u64>,
}

/// Hints to the player that are shown once.
#[derive(Clone, Copy, Debug, PartialEq, Eq, Structural)]
pub struct Hints {
    pub account_shown: bool,
    pub refused_pending: bool,
    pub refused_shown: bool,
}

/// State of the connection to a server.
#[derive(Clone, Copy, Debug, PartialEq, Eq, Structural)]
pub struct LoginState {
    pub armed: bool,
    pub fired: bool,
    /// The account to log in with.
    pub mimi: u32,
    pub boot_frames: u32,
    pub mainmenu_scene: u32,
    pub pkt_sent: bool,
    /// The connection has finished logging in.
    pub state_is_7: bool,
    pub hud_timer_set: bool,
    pub pending_loadtarget: u32,
    pub pending_loadtarget_frames: u32,
    pub map_upload_frames: u32,
    pub pending_reqid: u32,
    pub menu_active: bool,
    pub pending_show_login: u32,
    pub traffic: Traffic,
    pub hints: Hints,
}

impl LoginState {
    /// Whether nothing has happened yet.
    pub open spec fn untouched(self) -> bool {
        &&& !self.armed && !self.fired && !self.pkt_sent && !self.state_is_7
        &&& !self.hud_timer_set && !self.menu_active
        &&& self.mimi == 0 && self.boot_frames == 0 && self.mainmenu_scene == 0
        &&& self.pending_loadtarget == 0 && self.pending_loadtarget_frames == 0
        &&& self.map_upload_frames == 0 && self.pending_reqid == 0 && self.pending_show_login == 0
        &&& self.traffic == (Traffic {
            sent: 0,
            received: 0,
            rtt_ms: 0,
            map_count: -99i32,
            last_send: None,
        })
        &&& self.hints == (Hints {
            account_shown: false,
            refused_pending: false,
            refused_shown: false,
        })
    }
}

/// All state that the message hooks keep between two messages.
#[derive(Clone, Copy, Debug, PartialEq, Eq, Structural)]
pub struct CheatState {
    pub online_mode: bool,
    pub dev_startup_done: bool,
    pub washroom_hint_shown: bool,
    /// The save holds a list where a dictionary belongs.
    pub save_has_dict_as_array: bool,
    /// The game may have remembered the window's size before it was turned.
    pub winsize_stale: bool,
    pub cheats: Cheats,
    pub island: IslandState,
    pub login: LoginState,
    pub watchdog: Watchdog,
}

impl CheatState {
    /// The state at the start of the program.
    pub fn new() -> (s: CheatState)
        ensures
            forall|k: CheatKey|
                #[trigger] s.cheats.has(k) <==> k == CheatKey::FixGoldenIsland || k
                    == CheatKey::EnableNewsceneIsland || k == CheatKey::FixDivine || k
                    == CheatKey::EnterNewislands,
            s.cheats.vip_level == VIP_LEVEL_MAX && s.cheats.force_level == 0,
            s.cheats.patches_dirty && !s.cheats.caribbean_dirty && !s.cheats.map_sync,
            s.winsize_stale && !s.online_mode && !s.save_has_dict_as_array,
            !s.dev_startup_done && !s.washroom_hint_shown,
            s.island.untouched(),
            s.login.untouched(),
            s.watchdog == (Watchdog { frame: 0, seen_frame: 0, seen_at: None, last_report: None }),
    {
        assert forall|k: CheatKey| bit_set(DEFAULT_SWITCHES, #[trigger] k.bit()) == (k.bit() == 17
            || k.bit() == 19 || k.bit() == 21 || k.bit() == 24) by {
            let i = k.bit();
            assert(i < 32);
            assert((0x12a0000u32 & (1u32 << i) != 0) == (i == 17 || i == 19 || i == 21 || i == 24))
                by (bit_vector)
                requires
                    i < 32,
            ;
        }
        CheatState {
            online_mode: false,
            dev_startup_done: false,
            washroom_hint_shown: false,
            save_has_dict_as_array: false,
            winsize_stale: true,
            cheats: Cheats {
                bits: DEFAULT_SWITCHES,
                caribbean_dirty: false,
                map_sync: false,
                patches_dirty: true,
                vip_level: VIP_LEVEL_MAX,
                force_level: 0,
            },
            island: IslandState::new(),
            login: LoginState {
                armed: false,
                fired: false,
                mimi: 0,
                boot_frames: 0,
                mainmenu_scene: 0,
                pkt_sent: false,
                state_is_7: false,
                hud_timer_set: false,
                pending_loadtarget: 0,
                pending_loadtarget_frames: 0,
                map_upload_frames: 0,
                pending_reqid: 0,
                menu_active: false,
                pending_show_login: 0,
                traffic: Traffic {
                    sent: 0,
                    received: 0,
                    rtt_ms: 0,
                    map_count: -99,
                    last_send: None,
                },
                hints: Hints { account_shown: false, refused_pending: false, refused_shown: false },
            },
            watchdog: Watchdog { frame: 0, seen_frame: 0, seen_at: None, last_report: None },
        }
    }
}

} // verus!
