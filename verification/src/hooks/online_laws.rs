//! What the login at a server does to the game's messages and to its own
//! state.

use vstd::prelude::*;
use crate::hooks::cheat_laws::{gives, passes};
use crate::hooks::machine::{
    change_id_step, cheats_step, frame_resumed, island_calls_step, island_flags_step, island_step,
    login_resumed, login_started, login_step, online_step, reply_step, resumed, Step,
};
use crate::hooks::online_arms::{
    frame_box_reply, frame_hud_reply, frame_load_reply, frame_login_reply, frame_passport_reply,
    frame_refused_reply, frame_reply, frame_streams_reply, frame_upload_reply, online_reply,
    reply_seen,
};
use crate::hooks::passage::{
    is_island_sel, is_login_sel, is_switch_sel, lemma_island_lets_pass, lemma_to_login, sent,
};
use crate::hooks::types::{Answer, BoxText, Flow, Host, Regs, Stage, Task};
use crate::names::{Class, Message, Sel};
use crate::state::{CheatState, LoginState};

verus! {

/// The message asks for a task, with its registers as they came.
pub open spec fn asks(s: Step, regs: Regs, task: Task, then: Stage) -> bool {
    s.flow == Flow::Perform(task, then) && s.regs == regs
}

/// The state once the main menu was seen.
spec fn seen(login: LoginState, msg: Message, regs: Regs) -> LoginState {
    if msg.class == Class::MainMenuScene && regs.r0 != 0 {
        LoginState { mainmenu_scene: regs.r0, ..login }
    } else {
        login
    }
}

/// Whether the island lets the message pass.
spec fn is_lone(sel: Sel) -> bool {
    !is_island_sel(sel) && !is_switch_sel(sel)
}

/// What the login's own answer comes to, and where it has none, that the
/// message goes to the game.
proof fn lemma_login_answers(st: CheatState, host: Host, msg: Message, regs: Regs, mimi: u32)
    requires
        host.mimi == Some(mimi),
        msg.sel != Sel::DrawScene && msg.sel != Sel::MainLoop,
    ensures
        ({
            let s = login_step(st, host, msg, regs);
            let (flow, login, after) = online_reply(st.login, host, mimi, msg, regs);
            &&& flow is Some ==> s.flow == flow->0 && s.regs == after && s.st.login == login
            &&& flow is None && is_lone(msg.sel) ==> s.flow == Flow::Forward && s.regs == after
                && s.st.login == login
        }),
{
    reveal(login_step);
    let (flow, login, after) = online_reply(st.login, host, mimi, msg, regs);
    if is_lone(msg.sel) {
        lemma_island_lets_pass(CheatState { login, ..st }, host, msg, after);
    }
}

/// The same for a message from its beginning.
proof fn lemma_login(st: CheatState, host: Host, msg: Message, regs: Regs, mimi: u32)
    requires
        !msg.more_game,
        host.mimi == Some(mimi),
        is_login_sel(msg.sel),
        msg.sel != Sel::DrawScene && msg.sel != Sel::MainLoop,
        msg.sel == Sel::ShowWithTarget ==> msg.class != Class::AdViewForMoleCart,
        msg.sel != Sel::OnButtonChangeIDSelected,
        msg.sel != Sel::OnLoginMainMenuCommandReceived,
    ensures
        ({
            let s = sent(st, host, msg, regs);
            let (flow, login, after) = online_reply(
                seen(st.login, msg, regs),
                host,
                mimi,
                msg,
                regs,
            );
            &&& flow is Some ==> s.flow == flow->0 && s.regs == after && s.st.login == login
            &&& flow is None && is_lone(msg.sel) ==> s.flow == Flow::Forward && s.regs == after
                && s.st.login == login
        }),
{
    lemma_to_login(st, host, msg, regs);
    reveal(online_step);
    reveal(reply_step);
    let at = CheatState { login: seen(st.login, msg, regs), ..st };
    lemma_login_answers(at, host, msg, regs, mimi);
}

/// Every packet carries the account the player logs in with: once the login is
/// armed, whatever account the game puts into a packet's header is replaced,
/// by the chosen one, or, with the account menu, by the one that logged in
/// there. The message itself goes on to the game. Before, and for any other
/// receiver, nothing is changed.
pub proof fn law_packets_carry_the_account(st: CheatState, host: Host, msg: Message, regs: Regs, mimi: u32)
    requires
        !msg.more_game,
        msg.sel == Sel::SetUserID,
        host.mimi == Some(mimi),
    ensures
        ({
            let s = sent(st, host, msg, regs);
            &&& s.flow == Flow::Forward
            &&& st.login.armed && msg.class == Class::MVPacketHeader && !host.account_menu
                ==> s.regs == (Regs { r2: mimi, ..regs })
            &&& st.login.armed && msg.class == Class::MVPacketHeader && host.account_menu
                ==> s.regs == (Regs { r2: st.login.mimi, ..regs })
            &&& !st.login.armed || msg.class != Class::MVPacketHeader ==> s.regs == regs
            &&& s.st.login.armed == st.login.armed && s.st.login.mimi == st.login.mimi
        }),
{
    lemma_login(st, host, msg, regs, host.mimi->0);
    reveal(online_reply);
}

/// Without an account to log in with, no packet is changed.
pub proof fn law_offline_packets_are_left_alone(st: CheatState, host: Host, msg: Message, regs: Regs)
    requires
        !msg.more_game,
        msg.sel == Sel::SetUserID,
        host.mimi is None,
    ensures
        passes(sent(st, host, msg, regs), regs),
{
    lemma_to_login(st, host, msg, regs);
    reveal(online_step);
    lemma_island_lets_pass(st, host, msg, regs);
}

/// With the account menu the account is the one that logged in there, and it
/// arms the login; an attempt that failed, with account 0, changes nothing. The
/// message goes to the game.
pub proof fn law_menu_account_is_taken_over(st: CheatState, host: Host, msg: Message, regs: Regs)
    requires
        !msg.more_game,
        host.mimi is Some,
        msg.sel == Sel::OnTaomeeLoginViewDidUnloadWithUserIDPasswordReturnCode,
    ensures
        ({
            let s = sent(st, host, msg, regs);
            let taken = host.account_menu && msg.class == Class::MainMenuScene && regs.r2 != 0;
            &&& passes(s, regs)
            &&& s.st.login.armed == (st.login.armed || taken)
            &&& s.st.login.mimi == if taken {
                regs.r2
            } else {
                st.login.mimi
            }
        }),
{
    lemma_login(st, host, msg, regs, host.mimi->0);
    reveal(online_reply);
}

/// Without the account menu the game's own attempt to log in is answered once
/// the login is armed, and the account is the chosen one; with the menu, or
/// before, it is left to the game.
pub proof fn law_chosen_account_is_taken_over(st: CheatState, host: Host, msg: Message, regs: Regs, mimi: u32)
    requires
        !msg.more_game,
        host.mimi == Some(mimi),
        msg.sel == Sel::AutoLoginWithUserID,
    ensures
        ({
            let s = sent(st, host, msg, regs);
            let own = msg.class == Class::TMADataManager && !host.account_menu && st.login.armed;
            &&& own ==> s.flow == Flow::Handled && s.regs == regs && s.st.login.mimi == mimi
            &&& !own ==> passes(s, regs) && s.st.login.mimi == st.login.mimi
            &&& s.st.login.armed == st.login.armed
        }),
{
    lemma_login(st, host, msg, regs, host.mimi->0);
    reveal(online_reply);
}

/// The dead parts of the old login are answered: the list of servers is
/// provided, the socket is taken as set up, and, once the login is armed, the
/// network as reachable and the password as the given one. Nothing else of
/// these is answered.
#[verifier::rlimit(40)]
pub proof fn law_dead_parts_are_answered(st: CheatState, host: Host, msg: Message, regs: Regs)
    requires
        !msg.more_game,
        host.mimi is Some,
    ensures
        ({
            let s = sent(st, host, msg, regs);
            let armed = st.login.armed;
            &&& msg.sel == Sel::GetServerListWithServiceNameAndDelegate ==> if msg.class
                == Class::TaomeeGetServerIpListManager {
                asks(
                    s,
                    regs,
                    Task::InjectServerList { manager: regs.r0, delegate: regs.r3 },
                    Stage::Finish,
                )
            } else {
                passes(s, regs)
            }
            &&& msg.sel == Sel::SetSocketFromStreamsAndReturnError ==> if msg.class
                == Class::AsyncSocket {
                gives(s, regs, 1)
            } else {
                passes(s, regs)
            }
            &&& msg.sel == Sel::TaomeePassword ==> if armed && host.password && msg.class
                == Class::TaomeeUserInfo {
                asks(s, regs, Task::MakePassword, Stage::FinishWord)
            } else {
                passes(s, regs)
            }
            &&& msg.sel == Sel::IsNetworkReachable ==> if armed && msg.class
                == Class::TMAASIHTTPRequest {
                gives(s, regs, 1)
            } else {
                passes(s, regs)
            }
            &&& msg.sel == Sel::EstablishConnection ==> if armed && msg.class
                == Class::NetworkManager {
                asks(s, regs, Task::SetReachable { manager: regs.r0 }, Stage::Island)
            } else {
                passes(s, regs)
            }
            &&& msg.sel == Sel::MoleHudTick ==> asks(s, regs, Task::UpdateHud, Stage::Finish)
            &&& msg.sel == Sel::OnServerListResult ==> passes(s, regs)
        }),
{
    if msg.sel == Sel::GetServerListWithServiceNameAndDelegate || msg.sel
        == Sel::SetSocketFromStreamsAndReturnError || msg.sel == Sel::TaomeePassword || msg.sel
        == Sel::IsNetworkReachable || msg.sel == Sel::EstablishConnection || msg.sel
        == Sel::MoleHudTick || msg.sel == Sel::OnServerListResult {
        lemma_login(st, host, msg, regs, host.mimi->0);
        reveal(online_reply);
    }
}

/// Once the login is armed, the network counts as reachable.
pub proof fn law_network_is_reachable(st: CheatState, host: Host, msg: Message, regs: Regs)
    requires
        !msg.more_game,
        host.mimi is Some,
        st.login.armed,
        msg.sel == Sel::IsReachable,
        msg.class == Class::NetworkManager,
    ensures
        gives(sent(st, host, msg, regs), regs, 1),
{
    lemma_login(st, host, msg, regs, host.mimi->0);
    reveal(online_reply);
}

/// A login with the device's own stored account is sent as one with the given
/// account: kind 3 becomes kind 1. Every other kind stays.
pub proof fn law_login_kind(st: CheatState, host: Host, msg: Message, regs: Regs)
    requires
        !msg.more_game,
        host.mimi is Some,
        msg.sel == Sel::LoginWithDeviceInfoAndUserIDInfoInSendType,
    ensures
        ({
            let s = sent(st, host, msg, regs);
            &&& s.flow == Flow::Forward
            &&& msg.class == Class::NetworkManager && regs.r2 == 3 ==> s.regs == (Regs {
                r2: 1,
                ..regs
            })
            &&& !(msg.class == Class::NetworkManager && regs.r2 == 3) ==> s.regs == regs
        }),
{
    lemma_login(st, host, msg, regs, host.mimi->0);
    reveal(online_reply);
}

/// The account menu: it becomes active when it is shown, and the number of the
/// last request is kept. While the mode of the menu is on, the empty keychain,
/// replies and requests are answered here, requests only once the menu is
/// active. Outside that mode all of it goes to the game.
#[verifier::rlimit(40)]
pub proof fn law_account_menu(st: CheatState, host: Host, msg: Message, regs: Regs)
    requires
        !msg.more_game,
        host.mimi is Some,
    ensures
        ({
            let s = sent(st, host, msg, regs);
            let menu = host.account_menu;
            let http = msg.class == Class::TMAHttpManager;
            &&& msg.sel == Sel::ShowAccountManagerViewWithDelegateAndUserID ==> passes(s, regs)
                && s.st.login.menu_active == (st.login.menu_active || menu)
            &&& msg.sel == Sel::SendRequest ==> passes(s, regs) && s.st.login.pending_reqid == if menu
                && http {
                regs.r2
            } else {
                st.login.pending_reqid
            }
            &&& msg.sel == Sel::AllAccounts ==> if menu && msg.class == Class::TMASSKeychain
                && !host.real_keychain {
                asks(s, regs, Task::MakeEmptyList, Stage::FinishWord)
            } else {
                passes(s, regs)
            }
            &&& msg.sel == Sel::GetDictionaryWithJsonData ==> if menu && http {
                asks(s, regs, Task::ParseReply { data: regs.r2 }, Stage::ParsedReply)
            } else {
                passes(s, regs)
            }
            &&& msg.sel == Sel::AddOperation ==> if menu && st.login.menu_active && msg.class
                == Class::TMAASINetworkQueue {
                asks(s, regs, Task::ProxyRequest { request: regs.r2 }, Stage::ProxiedRequest)
            } else {
                passes(s, regs)
            }
            &&& msg.sel == Sel::ResponseData ==> if menu && (msg.class
                == Class::TMAASIFormDataRequest || msg.class == Class::TMAASIHTTPRequest) {
                asks(s, regs, Task::FetchedReply { request: regs.r0 }, Stage::FetchedReply)
            } else {
                passes(s, regs)
            }
        }),
{
    if msg.sel == Sel::ShowAccountManagerViewWithDelegateAndUserID || msg.sel == Sel::SendRequest
        || msg.sel == Sel::AllAccounts || msg.sel == Sel::GetDictionaryWithJsonData || msg.sel
        == Sel::AddOperation || msg.sel == Sel::ResponseData {
        lemma_login(st, host, msg, regs, host.mimi->0);
        reveal(online_reply);
    }
}

/// What was found for the account menu is the answer; where nothing was, the
/// message goes on, with its registers as they came. A request that was taken
/// over is answered.
pub proof fn law_account_menu_replies(st: CheatState, host: Host, msg: Message, regs: Regs, w: u32)
    requires
        !is_island_sel(msg.sel),
        !is_switch_sel(msg.sel),
    ensures
        gives(resumed(st, host, msg, regs, Stage::ParsedReply, Answer::Word(w)), regs, w),
        gives(resumed(st, host, msg, regs, Stage::FetchedReply, Answer::Word(w)), regs, w),
        passes(resumed(st, host, msg, regs, Stage::ParsedReply, Answer::Nothing), regs),
        passes(resumed(st, host, msg, regs, Stage::FetchedReply, Answer::Nothing), regs),
        ({
            let s = resumed(st, host, msg, regs, Stage::ProxiedRequest, Answer::Flag(true));
            s.flow == Flow::Handled && s.regs == regs
        }),
        passes(resumed(st, host, msg, regs, Stage::ProxiedRequest, Answer::Flag(false)), regs),
{
    reveal(login_resumed);
    lemma_island_lets_pass(st, host, msg, regs);
}

/// The connection's states are counted: state 6 is a packet sent, at the
/// clock's time; state 7 one received, and from the last one sent to it a
/// whole number of milliseconds passed. From state 7 on the login is done. The
/// message goes to the game.
pub proof fn law_traffic_is_counted(st: CheatState, host: Host, msg: Message, regs: Regs)
    requires
        !msg.more_game,
        host.mimi is Some,
        msg.sel == Sel::ChangeStateToWithMessage,
        msg.class == Class::NetworkManager,
    ensures
        ({
            let s = sent(st, host, msg, regs);
            let before = st.login.traffic;
            let after = s.st.login.traffic;
            &&& passes(s, regs)
            &&& regs.r2 == 6 ==> after.last_send == Some(host.clock) && (before.sent < u32::MAX
                ==> after.sent == before.sent + 1) && after.received == before.received
                && s.st.login.state_is_7 == st.login.state_is_7
            &&& regs.r2 == 7 ==> s.st.login.state_is_7 && (before.received < u32::MAX
                ==> after.received == before.received + 1) && after.sent == before.sent
                && after.last_send == before.last_send
            &&& regs.r2 == 7 && before.last_send is Some && before.last_send->0 <= host.clock
                && host.clock - before.last_send->0 < 0x1_0000_0000 ==> after.rtt_ms * 1_000_000
                <= host.clock - before.last_send->0 < (after.rtt_ms + 1) * 1_000_000
            &&& regs.r2 == 7 && before.last_send is None ==> after.rtt_ms == before.rtt_ms
            &&& regs.r2 != 6 && regs.r2 != 7 ==> s.st.login == st.login
        }),
{
    lemma_login(st, host, msg, regs, host.mimi->0);
    reveal(online_reply);
}

/// The way to the village: the layer that was asked to build the village for
/// the fourth target is waited for from then on; the loading layer's own
/// update ends the wait. Both messages go to the game.
pub proof fn law_way_to_the_village(st: CheatState, host: Host, msg: Message, regs: Regs)
    requires
        !msg.more_game,
        host.mimi is Some,
        (msg.sel == Sel::ShowWithTarget && msg.class != Class::AdViewForMoleCart) || (msg.sel
            == Sel::Update && msg.class == Class::LoadingLayer),
    ensures
        ({
            let s = sent(st, host, msg, regs);
            let target = s.st.login.pending_loadtarget;
            &&& passes(s, regs)
            &&& msg.sel == Sel::Update ==> target == 0
            &&& msg.sel == Sel::ShowWithTarget && regs.r2 == 4 ==> target == regs.r0
                && s.st.login.pending_loadtarget_frames == 0
            &&& msg.sel == Sel::ShowWithTarget && regs.r2 != 4 ==> target
                == st.login.pending_loadtarget && s.st.login.pending_loadtarget_frames
                == st.login.pending_loadtarget_frames
        }),
{
    lemma_login(st, host, msg, regs, host.mimi->0);
    reveal(online_reply);
}

/// Another account: asked for after the login was sent, the button's place is
/// read. With the account menu, the button is taken back and the menu is shown
/// in the next frame; without it, a hint is shown once. In no other case is the
/// request held back.
#[verifier::rlimit(40)]
pub proof fn law_another_account(st: CheatState, host: Host, msg: Message, regs: Regs, at: u32)
    requires
        !msg.more_game,
        host.mimi is Some,
        msg.class == Class::MainMenuScene,
        msg.sel == Sel::OnButtonChangeIDSelected,
    ensures
        ({
            let s = sent(st, host, msg, regs);
            let found = resumed(st, host, msg, regs, Stage::ChangeId, Answer::Word(at));
            let none = resumed(st, host, msg, regs, Stage::ChangeId, Answer::Nothing);
            let shown = resumed(st, host, msg, regs, Stage::AccountBox, Answer::Flag(true));
            let unshown = resumed(st, host, msg, regs, Stage::AccountBox, Answer::Flag(false));
            &&& st.login.pkt_sent ==> asks(
                s,
                regs,
                Task::ReadChangeIdGuard { scene: regs.r0 },
                Stage::ChangeId,
            )
            &&& !st.login.pkt_sent ==> passes(s, regs)
            &&& regs.r0 != 0 ==> s.st.login.mainmenu_scene == regs.r0
            &&& host.account_menu ==> asks(found, regs, Task::ClearByte { at }, Stage::FinishZero)
                && found.st.login.pending_show_login == regs.r0
            &&& !host.account_menu && !st.login.hints.account_shown ==> asks(
                found,
                regs,
                Task::ShowBox { text: BoxText::AccountHint, target: regs.r0 },
                Stage::AccountBox,
            ) && found.st.login.hints.account_shown
            &&& !host.account_menu && st.login.hints.account_shown ==> passes(found, regs)
            &&& passes(none, regs)
            &&& gives(shown, regs, 0)
            &&& passes(unshown, regs)
        }),
{
    lemma_to_login(st, host, msg, regs);
    reveal(online_step);
    reveal(login_resumed);
    reveal(change_id_step);
    reveal(reply_step);
    let at = CheatState { login: seen(st.login, msg, regs), ..st };
    lemma_login_answers(st, host, msg, regs, host.mimi->0);
    lemma_login_answers(at, host, msg, regs, host.mimi->0);
    lemma_unanswered(st.login, host, host.mimi->0, msg, regs);
    lemma_unanswered(at.login, host, host.mimi->0, msg, regs);
}

/// The login has no answer of its own to what the main menu is told or asks.
proof fn lemma_unanswered(login: LoginState, host: Host, mimi: u32, msg: Message, regs: Regs)
    requires
        msg.sel == Sel::OnLoginMainMenuCommandReceived || msg.sel == Sel::OnButtonChangeIDSelected,
    ensures
        online_reply(login, host, mimi, msg, regs) == (None::<Flow>, login, regs),
{
    reveal(online_reply);
}

/// A refused login: without the account menu, the header of every reply to the
/// login is read until the refusal was told. Any other reply goes to the game at
/// once.
pub proof fn law_refusal_is_looked_for(st: CheatState, host: Host, msg: Message, regs: Regs)
    requires
        !msg.more_game,
        host.mimi is Some,
        msg.class == Class::MainMenuScene,
        msg.sel == Sel::OnLoginMainMenuCommandReceived,
    ensures
        ({
            let s = sent(st, host, msg, regs);
            let looks = !host.account_menu && !st.login.hints.refused_shown && regs.r2 != 0;
            &&& looks ==> asks(
                s,
                regs,
                Task::ReadReplyHeader { header: regs.r2 },
                Stage::ReplyHeader,
            )
            &&& !looks ==> passes(s, regs)
        }),
{
    lemma_to_login(st, host, msg, regs);
    reveal(online_step);
    reveal(reply_step);
    let at = CheatState { login: seen(st.login, msg, regs), ..st };
    lemma_login_answers(at, host, msg, regs, host.mimi->0);
    lemma_unanswered(at.login, host, host.mimi->0, msg, regs);
}

/// Error 112 of command 1234 is a refusal, and nothing else is. The reply itself
/// goes to the game.
pub proof fn law_refusal_is_noticed(
    st: CheatState,
    host: Host,
    msg: Message,
    regs: Regs,
    error: u32,
    command: u32,
)
    requires
        host.mimi is Some,
        msg.class == Class::MainMenuScene,
        msg.sel == Sel::OnLoginMainMenuCommandReceived,
    ensures
        ({
            let r = resumed(
                st,
                host,
                msg,
                regs,
                Stage::ReplyHeader,
                Answer::Pair(error, command),
            );
            &&& passes(r, regs)
            &&& r.st.login.hints.refused_pending == (st.login.hints.refused_pending || (error == 112
                && command == 1234))
            &&& r.st.login.hints.refused_shown == st.login.hints.refused_shown
        }),
{
    reveal(login_resumed);
    let told = CheatState { login: reply_seen(st.login, Answer::Pair(error, command)), ..st };
    lemma_login_answers(told, host, msg, regs, host.mimi->0);
    lemma_unanswered(told.login, host, host.mimi->0, msg, regs);
}

// ---- frames ----

/// A frame's work, without what the island adds to it.
proof fn lemma_frame(st: CheatState, host: Host, msg: Message, regs: Regs, mimi: u32)
    requires
        !msg.more_game,
        host.mimi == Some(mimi),
        msg.class != Class::MainMenuScene,
        msg.sel == Sel::DrawScene || msg.sel == Sel::MainLoop,
    ensures
        sent(st, host, msg, regs) == login_step(st, host, msg, regs),
{
    lemma_to_login(st, host, msg, regs);
    reveal(online_step);
    reveal(reply_step);
}

proof fn lemma_frame_keeps_account(login: LoginState, host: Host)
    ensures
        frame_load_reply(login, host).1.armed == login.armed,
        frame_load_reply(login, host).1.mimi == login.mimi,
        frame_load_reply(login, host).1.boot_frames == login.boot_frames,
{
    reveal(frame_load_reply);
    reveal(frame_streams_reply);
    reveal(frame_passport_reply);
    reveal(frame_hud_reply);
    reveal(frame_upload_reply);
    reveal(frame_login_reply);
    reveal(frame_refused_reply);
}

/// The login starts by itself: for 180 frames nothing happens but that they
/// are counted, and in the next one the login is armed with the chosen
/// account, and the village is to be sent to the server from then on. A login
/// that was armed or fired before is not started again.
#[verifier::rlimit(40)]
pub proof fn law_login_starts_by_itself(st: CheatState, host: Host, msg: Message, regs: Regs, mimi: u32)
    requires
        !msg.more_game,
        host.mimi == Some(mimi),
        msg.class != Class::MainMenuScene,
        msg.sel == Sel::DrawScene || msg.sel == Sel::MainLoop,
    ensures
        ({
            let s = sent(st, host, msg, regs);
            let l = st.login;
            let waits = !l.armed && !l.fired;
            &&& waits && l.boot_frames < 180 ==> !s.st.login.armed && s.st.login.boot_frames
                == l.boot_frames + 1 && s.st.login.mimi == l.mimi && s.st.cheats.map_sync
                == st.cheats.map_sync
            &&& waits && l.boot_frames >= 180 ==> s.st.login.armed && s.st.login.mimi == mimi
                && s.st.cheats.map_sync && s.st.cheats.patches_dirty
            &&& !waits ==> s.st.login.armed == l.armed && s.st.login.mimi == l.mimi
                && s.st.login.boot_frames == l.boot_frames && s.st.cheats.map_sync
                == st.cheats.map_sync
        }),
{
    lemma_frame(st, host, msg, regs, mimi);
    reveal(login_step);
    reveal(frame_reply);
    let n = st.login.boot_frames;
    let next = if n == u32::MAX {
        0u32
    } else {
        (n + 1) as u32
    };
    lemma_frame_keeps_account(st.login, host);
    lemma_frame_keeps_account(LoginState { boot_frames: next, ..st.login }, host);
    lemma_frame_keeps_account(
        LoginState { boot_frames: next, armed: true, mimi, ..st.login },
        host,
    );
    let (flow, login) = frame_reply(st.login, host, mimi);
    let at = CheatState { login, ..login_started(st, mimi) };
    lemma_island_keeps(at, host, msg, regs);
}

proof fn lemma_island_keeps(st: CheatState, host: Host, msg: Message, regs: Regs)
    ensures
        island_step(st, host, msg, regs).st.login == st.login,
        island_step(st, host, msg, regs).st.cheats == st.cheats,
{
    reveal(island_step);
    reveal(island_calls_step);
    reveal(island_flags_step);
    reveal(cheats_step);
}

/// An armed login whose packet was not sent yet is moved on in every frame,
/// before anything else.
pub proof fn law_login_is_moved_on(st: CheatState, host: Host, msg: Message, regs: Regs, mimi: u32)
    requires
        !msg.more_game,
        host.mimi == Some(mimi),
        msg.class != Class::MainMenuScene,
        msg.sel == Sel::DrawScene || msg.sel == Sel::MainLoop,
        st.login.armed,
    ensures
        !st.login.pkt_sent ==> asks(
            sent(st, host, msg, regs),
            regs,
            Task::FireLogin,
            Stage::FrameLoad,
        ),
        st.login.pkt_sent ==> sent(st, host, msg, regs) == resumed(
            st,
            host,
            msg,
            regs,
            Stage::FrameLoad,
            Answer::Nothing,
        ),
{
    lemma_frame(st, host, msg, regs, mimi);
    reveal(login_step);
    reveal(frame_reply);
    reveal(frame_resumed);
}

/// The village is built by hand where the game has not built it within six
/// frames after it was to; until then the frames are counted, and afterwards
/// it is not built again. Then the frame's work goes on.
pub proof fn law_village_is_built_by_hand(st: CheatState, host: Host, msg: Message, regs: Regs)
    ensures
        ({
            let s = resumed(st, host, msg, regs, Stage::FrameLoad, Answer::Nothing);
            let l = st.login;
            let next = |at: CheatState|
                resumed(at, host, msg, regs, Stage::FrameStreams, Answer::Nothing);
            &&& l.pending_loadtarget == 0 ==> s == next(st)
            &&& l.pending_loadtarget != 0 && l.pending_loadtarget_frames >= 6 ==> asks(
                s,
                regs,
                Task::LoadTarget { layer: l.pending_loadtarget },
                Stage::FrameStreams,
            ) && s.st.login.pending_loadtarget == 0
            &&& l.pending_loadtarget != 0 && l.pending_loadtarget_frames < 6 ==> s == next(
                CheatState {
                    login: LoginState {
                        pending_loadtarget_frames: (l.pending_loadtarget_frames + 1) as u32,
                        ..l
                    },
                    ..st
                },
            )
        }),
{
    reveal(frame_resumed);
    reveal(frame_load_reply);
}

/// What came over the connection is read in every frame once the main menu was
/// made to connect, or with the account menu; its replies are then handed over
/// with the menu only. The display of the connection is started once, when the
/// login is done, if it is wanted.
pub proof fn law_connection_is_served(st: CheatState, host: Host, msg: Message, regs: Regs)
    ensures
        ({
            let at = |stage: Stage| resumed(st, host, msg, regs, stage, Answer::Nothing);
            let l = st.login;
            let starts = l.fired && l.state_is_7 && !l.hud_timer_set && host.hud;
            &&& l.fired || host.account_menu ==> asks(
                at(Stage::FrameStreams),
                regs,
                Task::DriveStreams,
                Stage::FramePassport,
            )
            &&& !(l.fired || host.account_menu) ==> at(Stage::FrameStreams) == at(
                Stage::FramePassport,
            )
            &&& host.account_menu ==> asks(
                at(Stage::FramePassport),
                regs,
                Task::DrivePassport,
                Stage::FrameHud,
            )
            &&& !host.account_menu ==> at(Stage::FramePassport) == at(Stage::FrameHud)
            &&& starts ==> asks(at(Stage::FrameHud), regs, Task::ScheduleHud, Stage::FrameUpload)
                && at(Stage::FrameHud).st.login.hud_timer_set
            &&& !starts ==> at(Stage::FrameHud) == at(Stage::FrameUpload)
        }),
{
    reveal(frame_resumed);
    reveal(frame_streams_reply);
    reveal(frame_passport_reply);
    reveal(frame_hud_reply);
}

/// After the login, the village is sent in the frames 600, 2400, 4200 and so
/// on, and in no other; frames before the login is done are not counted.
pub proof fn law_village_is_sent_now_and_then(st: CheatState, host: Host, msg: Message, regs: Regs)
    requires
        st.login.map_upload_frames < u32::MAX,
    ensures
        ({
            let s = resumed(st, host, msg, regs, Stage::FrameUpload, Answer::Nothing);
            let l = st.login;
            let n = l.map_upload_frames;
            let after = CheatState {
                login: LoginState { map_upload_frames: (n + 1) as u32, ..l },
                ..st
            };
            let due = n >= 600 && n % 1800 == 600;
            &&& l.pkt_sent && l.state_is_7 && due ==> s == (Step {
                flow: Flow::Perform(Task::UploadMap, Stage::FrameLogin),
                st: after,
                regs,
            })
            &&& l.pkt_sent && l.state_is_7 && !due ==> s == resumed(
                after,
                host,
                msg,
                regs,
                Stage::FrameLogin,
                Answer::Nothing,
            )
            &&& !(l.pkt_sent && l.state_is_7) ==> s == resumed(
                st,
                host,
                msg,
                regs,
                Stage::FrameLogin,
                Answer::Nothing,
            )
        }),
{
    reveal(frame_resumed);
    reveal(frame_upload_reply);
}

/// The account menu that was asked for is shown once, and only if the main
/// menu is still the one it was asked from.
pub proof fn law_menu_is_shown_where_it_was_asked_for(
    st: CheatState,
    host: Host,
    msg: Message,
    regs: Regs,
)
    ensures
        ({
            let s = resumed(st, host, msg, regs, Stage::FrameLogin, Answer::Nothing);
            let scene = st.login.pending_show_login;
            let after = CheatState {
                login: LoginState { pending_show_login: 0, ..st.login },
                ..st
            };
            &&& scene != 0 && st.login.mainmenu_scene == scene ==> s == (Step {
                flow: Flow::Perform(Task::ShowLogin { scene }, Stage::FrameRefused),
                st: after,
                regs,
            })
            &&& !(scene != 0 && st.login.mainmenu_scene == scene) ==> s == resumed(
                after,
                host,
                msg,
                regs,
                Stage::FrameRefused,
                Answer::Nothing,
            )
        }),
{
    reveal(frame_resumed);
    reveal(frame_login_reply);
}

/// A refusal that was noticed and not told yet is told as soon as a box would
/// be seen, and then counts as told; while none would, it stays noticed. The
/// message then goes on to the island.
pub proof fn law_refusal_is_told(st: CheatState, host: Host, msg: Message, regs: Regs)
    ensures
        ({
            let s = resumed(st, host, msg, regs, Stage::FrameRefused, Answer::Nothing);
            let free = resumed(st, host, msg, regs, Stage::FrameBox, Answer::Flag(true));
            let taken = resumed(st, host, msg, regs, Stage::FrameBox, Answer::Flag(false));
            let h = st.login.hints;
            let island = resumed(st, host, msg, regs, Stage::Island, Answer::Nothing);
            &&& h.refused_pending && !h.refused_shown ==> asks(
                s,
                regs,
                Task::AskBoxFree,
                Stage::FrameBox,
            )
            &&& !(h.refused_pending && !h.refused_shown) ==> s == island
            &&& asks(
                free,
                regs,
                Task::ShowBox { text: BoxText::LoginRefused, target: 0 },
                Stage::Island,
            )
            &&& free.st.login.hints.refused_shown && !free.st.login.hints.refused_pending
            &&& taken == island
        }),
{
    reveal(frame_resumed);
    reveal(frame_refused_reply);
    reveal(frame_box_reply);
}

/// Messages that the login answers or changes without a change of its own.
pub open spec fn keeps_login(msg: Message) -> bool {
    match msg.sel {
        Sel::GetServerListWithServiceNameAndDelegate
        | Sel::SetSocketFromStreamsAndReturnError
        | Sel::SetUserID
        | Sel::TaomeePassword
        | Sel::IsNetworkReachable
        | Sel::AllAccounts
        | Sel::GetDictionaryWithJsonData
        | Sel::AddOperation
        | Sel::ResponseData
        | Sel::EstablishConnection
        | Sel::LoginWithDeviceInfoAndUserIDInfoInSendType
        | Sel::OnServerListResult
        | Sel::MoleHudTick => true,
        Sel::Update => msg.class != Class::LoadingLayer,
        Sel::ChangeStateToWithMessage => msg.class != Class::NetworkManager,
        Sel::SendRequest => msg.class != Class::TMAHttpManager,
        _ => false,
    }
}

proof fn lemma_keeps_login(login: LoginState, host: Host, mimi: u32, msg: Message, regs: Regs)
    requires
        keeps_login(msg),
    ensures
        online_reply(login, host, mimi, msg, regs).1 == login,
{
    reveal(online_reply);
}

/// Only these messages change anything of the login, beside the main menu that
/// was seen last: the game's own attempt to log in, the account menu that is
/// shown, its requests and its result, the connection's states, and the way to
/// the village. No other does.
pub proof fn law_other_messages_keep_the_login(st: CheatState, host: Host, msg: Message, regs: Regs, mimi: u32)
    requires
        !msg.more_game,
        host.mimi == Some(mimi),
        msg.class != Class::MainMenuScene,
        keeps_login(msg),
    ensures
        sent(st, host, msg, regs).st.login == st.login,
{
    lemma_login(st, host, msg, regs, mimi);
    lemma_keeps_login(st.login, host, mimi, msg, regs);
}

/// Whether the network is reachable is left to the island where the login is not
/// armed, or another than the connection's manager is asked.
#[verifier::rlimit(40)]
pub proof fn law_unarmed_login_says_nothing_of_the_network(
    st: CheatState,
    host: Host,
    msg: Message,
    regs: Regs,
)
    requires
        !msg.more_game,
        msg.sel == Sel::IsReachable,
        msg.class != Class::MainMenuScene,
        host.mimi is None || !st.login.armed || msg.class != Class::NetworkManager,
    ensures
        sent(st, host, msg, regs) == resumed(st, host, msg, regs, Stage::Island, Answer::Nothing),
{
    lemma_to_login(st, host, msg, regs);
    reveal(online_step);
    reveal(reply_step);
    reveal(login_step);
    reveal(online_reply);
}

/// The main menu that was seen last is noted, with whatever message it comes,
/// where there is an account to log in with.
#[verifier::rlimit(40)]
pub proof fn law_main_menu_is_noted(st: CheatState, host: Host, msg: Message, regs: Regs)
    requires
        !msg.more_game,
        msg.class == Class::MainMenuScene,
        msg.sel == Sel::Other,
    ensures
        ({
            let s = sent(st, host, msg, regs);
            &&& passes(s, regs)
            &&& s.st.login.mainmenu_scene == if host.mimi is Some && regs.r0 != 0 {
                regs.r0
            } else {
                st.login.mainmenu_scene
            }
        }),
{
    lemma_to_login(st, host, msg, regs);
    reveal(online_step);
    reveal(reply_step);
    reveal(login_step);
    reveal(online_reply);
    lemma_island_lets_pass(st, host, msg, regs);
    lemma_island_lets_pass(
        CheatState { login: seen(st.login, msg, regs), ..st },
        host,
        msg,
        regs,
    );
}

} // verus!
