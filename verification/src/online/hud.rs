//! What is shown of the connection.

use vstd::prelude::*;
use crate::hooks::types::{signed, to_signed};
use crate::state::Traffic;
use crate::text::{decimal, push_decimal, push_signed, push_text, signed_decimal};

verus! {

/// What the display tells beside the traffic.
#[derive(Clone, Copy, Debug, PartialEq, Eq, Structural)]
pub struct HudFacts {
    pub mimi: u32,
    /// The connection's state, where there is a connection.
    pub state: Option<i32>,
    pub map: MapAtServer,
    /// The mark of a fresh login.
    pub fresh_login: u8,
}

/// The village as the server sent it.
#[derive(Clone, Copy, Debug, PartialEq, Eq, Structural)]
pub enum MapAtServer {
    Missing,
    /// Something else than a village.
    Strange,
    /// A village with so many kinds of buildings.
    Village(u32),
}

/// What the state of the connection is called.
pub open spec fn state_label(state: i32) -> Seq<char> {
    if state == 0 {
        "空闲"@
    } else if state == 1 {
        "连接中"@
    } else if state == 2 {
        "请求连接"@
    } else if state == 4 {
        "已连接"@
    } else if state == 6 {
        "发送中"@
    } else if state == 7 {
        "在线就绪"@
    } else if state == 8 {
        "错误/断开"@
    } else if state == 9 {
        "登录完成"@
    } else {
        "?"@
    }
}

fn label_of(state: i32) -> (r: &'static str)
    ensures
        r@ == state_label(state),
{
    match state {
        0 => "空闲",
        1 => "连接中",
        2 => "请求连接",
        4 => "已连接",
        6 => "发送中",
        7 => "在线就绪",
        8 => "错误/断开",
        9 => "登录完成",
        _ => "?",
    }
}

/// The state as a number, -1 where there is no connection.
pub open spec fn state_number(state: Option<i32>) -> i32 {
    match state {
        Some(s) => s,
        None => -1i32,
    }
}

/// The number of kinds of buildings; -1 for no village, -2 for something else.
pub open spec fn map_number(map: MapAtServer) -> int {
    match map {
        MapAtServer::Missing => -1,
        MapAtServer::Strange => -2,
        MapAtServer::Village(n) => n as int,
    }
}

/// What is noted of the village: the same number, as far as 32 bits hold it.
pub open spec fn map_noted(map: MapAtServer) -> i32 {
    match map {
        MapAtServer::Missing => -1i32,
        MapAtServer::Strange => -2i32,
        MapAtServer::Village(n) => signed(n),
    }
}

/// Packets that were sent and not answered.
pub open spec fn unanswered(t: Traffic) -> int {
    if t.sent > t.received {
        t.sent - t.received
    } else {
        0
    }
}

/// The lines of the display.
pub open spec fn hud_lines(f: HudFacts, t: Traffic) -> Seq<char> {
    let state = state_number(f.state);
    "[摩尔私服 DEBUG]\n米米号 "@ + decimal(f.mimi as nat) + "\n状态 "@ + state_label(state) + " ("@
        + signed_decimal(state as int) + ")\n延迟 "@ + decimal(t.rtt_ms as nat) + " ms\n发包 "@
        + decimal(t.sent as nat) + "  收包 "@ + decimal(t.received as nat) + "\n在途/丢 "@ + decimal(
        unanswered(t) as nat,
    ) + "\n地图 "@ + signed_decimal(map_number(f.map)) + "  B409 "@ + decimal(f.fresh_login as nat)
}

/// The lines of the display, nothing where it is not shown or nothing is on
/// screen; notes the size of the village.
pub fn update_debug_hud(enabled: bool, on_screen: bool, facts: &HudFacts, traffic: &mut Traffic) -> (r:
    Option<String>)
    ensures
        r is Some == (enabled && on_screen),
        r is Some ==> r->0@ == hud_lines(*facts, *old(traffic)),
        *final(traffic) == traffic_after(enabled && on_screen, *facts, *old(traffic)),
        *final(traffic) == (if enabled && on_screen {
            Traffic { map_count: map_noted(facts.map), ..*old(traffic) }
        } else {
            *old(traffic)
        }),
{
    if !enabled || !on_screen {
        return None;
    }
    let state: i32 = match facts.state {
        Some(s) => s,
        None => -1,
    };
    let map_count: i64 = match facts.map {
        MapAtServer::Missing => -1,
        MapAtServer::Strange => -2,
        MapAtServer::Village(n) => n as i64,
    };
    let pending: u32 = traffic.sent.saturating_sub(traffic.received);
    let mut s: String = String::new();
    push_text(&mut s, "[摩尔私服 DEBUG]\n米米号 ");
    assert(s@ =~= "[摩尔私服 DEBUG]\n米米号 "@);
    push_decimal(&mut s, facts.mimi as u64);
    push_text(&mut s, "\n状态 ");
    push_text(&mut s, label_of(state));
    push_text(&mut s, " (");
    push_signed(&mut s, state as i64);
    push_text(&mut s, ")\n延迟 ");
    push_decimal(&mut s, traffic.rtt_ms as u64);
    push_text(&mut s, " ms\n发包 ");
    push_decimal(&mut s, traffic.sent as u64);
    push_text(&mut s, "  收包 ");
    push_decimal(&mut s, traffic.received as u64);
    push_text(&mut s, "\n在途/丢 ");
    push_decimal(&mut s, pending as u64);
    push_text(&mut s, "\n地图 ");
    push_signed(&mut s, map_count);
    push_text(&mut s, "  B409 ");
    push_decimal(&mut s, facts.fresh_login as u64);
    traffic.map_count =
    match facts.map {
        MapAtServer::Missing => -1,
        MapAtServer::Strange => -2,
        MapAtServer::Village(n) => to_signed(n),
    };
    Some(s)
}

/// What is shown: the account, the connection's state by name and number, the
/// round trip in milliseconds, packets sent, received and not answered, the
/// village and the mark of a fresh login, one after the other.
pub proof fn law_display(f: HudFacts, t: Traffic)
    ensures
        ({
            let state = if f.state is Some {
                f.state->0 as int
            } else {
                -1
            };
            let open = if t.sent >= t.received {
                t.sent - t.received
            } else {
                0
            };
            let map = match f.map {
                MapAtServer::Missing => -1,
                MapAtServer::Strange => -2,
                MapAtServer::Village(n) => n as int,
            };
            hud_lines(f, t) == "[摩尔私服 DEBUG]\n米米号 "@ + decimal(f.mimi as nat) + "\n状态 "@
                + state_label(state as i32) + " ("@ + signed_decimal(state) + ")\n延迟 "@ + decimal(
                t.rtt_ms as nat,
            ) + " ms\n发包 "@ + decimal(t.sent as nat) + "  收包 "@ + decimal(t.received as nat)
                + "\n在途/丢 "@ + decimal(open as nat) + "\n地图 "@ + signed_decimal(map) + "  B409 "@
                + decimal(f.fresh_login as nat)
        }),
        map_noted(MapAtServer::Missing) == -1 && map_noted(MapAtServer::Strange) == -2,
        forall|n: u32| n <= i32::MAX ==> #[trigger] map_noted(MapAtServer::Village(n)) == n,
{
}

/// The states of the connection have names of their own; any other is unknown.
pub proof fn law_states_have_names(state: i32)
    ensures
        state_label(0) == "空闲"@ && state_label(1) == "连接中"@ && state_label(2) == "请求连接"@,
        state_label(4) == "已连接"@ && state_label(6) == "发送中"@ && state_label(7) == "在线就绪"@,
        state_label(8) == "错误/断开"@ && state_label(9) == "登录完成"@,
        state < 0 || state == 3 || state == 5 || state > 9 ==> state_label(state) == "?"@,
{
}

/// The traffic once the display was brought up to date.
pub open spec fn traffic_after(shown: bool, f: HudFacts, t: Traffic) -> Traffic {
    if shown {
        Traffic { map_count: map_noted(f.map), ..t }
    } else {
        t
    }
}

/// Only what is known of the village is noted, and only while the display is
/// shown.
pub proof fn law_display_notes_the_village(f: HudFacts, t: Traffic)
    ensures
        traffic_after(false, f, t) == t,
        ({
            let a = traffic_after(true, f, t);
            &&& f.map == MapAtServer::Missing ==> a.map_count == -1
            &&& f.map == MapAtServer::Strange ==> a.map_count == -2
            &&& a.sent == t.sent && a.received == t.received && a.rtt_ms == t.rtt_ms && a.last_send
                == t.last_send
        }),
{
}

} // verus!
