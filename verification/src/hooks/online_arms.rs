//! Messages of a game that logs in to a server of its own: the dead parts of
//! the old login are answered here, and every frame moves the login on.

use vstd::prelude::*;
use crate::address::{at_offset, offset_by};
use crate::hooks::types::{signed, to_signed, Answer, BoxText, Flow, Host, Regs, Stage, Task};
use crate::names::{Class, Message, Sel};
use crate::state::{Hints, LoginState, Traffic};

verus! {

/// Frames after the start before the login begins.
pub const BOOT_FRAMES: u32 = 180;

/// Frames left to the game to build the village by itself.
pub const LOAD_GRACE_FRAMES: u32 = 6;

/// Frames before the village is sent for the first time.
pub const UPLOAD_FIRST: u32 = 600;

/// Frames between two uploads of the village.
pub const UPLOAD_EVERY: u32 = 1800;

/// The error of a reply that refuses the account or the password.
pub const ERROR_REFUSED: u32 = 112;

/// The command that logs in.
pub const COMMAND_LOGIN: u32 = 1234;

/// The next number, after the last one 0.
pub open spec fn counted(n: u32) -> u32 {
    if n == u32::MAX {
        0
    } else {
        (n + 1) as u32
    }
}

fn count_up(n: u32) -> (r: u32)
    ensures
        r == counted(n),
{
    n.wrapping_add(1)
}

/// The state once the main menu was seen.
pub open spec fn menu_seen(login: LoginState, msg: Message, regs: Regs) -> LoginState {
    if msg.class == Class::MainMenuScene && regs.r0 != 0 {
        LoginState { mainmenu_scene: regs.r0, ..login }
    } else {
        login
    }
}

/// Notes the main menu; a task where the player asks for another account.
pub fn online_begin(login: &mut LoginState, msg: Message, regs: &Regs) -> (r: Option<Flow>)
    ensures
        *final(login) == menu_seen(*old(login), msg, *regs),
        r == (if msg.class == Class::MainMenuScene && msg.sel == Sel::OnButtonChangeIDSelected
            && old(login).pkt_sent {
            Some(Flow::Perform(Task::ReadChangeIdGuard { scene: regs.r0 }, Stage::ChangeId))
        } else {
            None::<Flow>
        }),
{
    if msg.class == Class::MainMenuScene {
        if regs.r0 != 0 {
            login.mainmenu_scene = regs.r0;
        }
        if msg.sel == Sel::OnButtonChangeIDSelected && login.pkt_sent {
            return Some(
                Flow::Perform(Task::ReadChangeIdGuard { scene: regs.r0 }, Stage::ChangeId),
            );
        }
    }
    None
}

/// Where the button for another account is enabled, if it can be used: the two
/// offsets must be plausible, the button enabled, and no click under way.
pub fn mainmenu_change_id_guard(
    scene: u32,
    off_enable: u32,
    off_clicking: u32,
    enable: u8,
    clicking: u8,
) -> (r: Option<u32>)
    ensures
        r == button_place(scene, off_enable, off_clicking, enable, clicking),
        r is Some <==> scene != 0 && 0 < off_enable < 0x1000 && 0 < off_clicking < 0x1000 && enable
            != 0 && clicking == 0,
        r is Some ==> r->0 == offset_by(scene, off_enable),
{
    if scene == 0 {
        return None;
    }
    if off_enable == 0 || off_enable >= 0x1000 || off_clicking == 0 || off_clicking >= 0x1000 {
        return None;
    }
    if enable == 0 || clicking != 0 {
        return None;
    }
    Some(at_offset(scene, off_enable))
}

/// What comes of asking for another account, once it is known where the button
/// is enabled. The account menu is shown in the next frame; without the menu,
/// a hint is shown once. `None` where the game goes on by itself.
pub open spec fn change_id_reply(login: LoginState, host: Host, regs: Regs, found: Answer) -> (
    Option<Flow>,
    LoginState,
) {
    match found {
        Answer::Word(at) => if host.account_menu {
            (
                Some(Flow::Perform(Task::ClearByte { at }, Stage::FinishZero)),
                LoginState { pending_show_login: regs.r0, ..login },
            )
        } else if !login.hints.account_shown {
            (
                Some(
                    Flow::Perform(
                        Task::ShowBox { text: BoxText::AccountHint, target: regs.r0 },
                        Stage::AccountBox,
                    ),
                ),
                LoginState { hints: Hints { account_shown: true, ..login.hints }, ..login },
            )
        } else {
            (None, login)
        },
        _ => (None, login),
    }
}

/// What comes of asking for another account.
pub fn online_change_id(login: &mut LoginState, host: &Host, regs: &Regs, found: Answer) -> (r:
    Option<Flow>)
    ensures
        (r, *final(login)) == change_id_reply(*old(login), *host, *regs, found),
{
    if let Answer::Word(at) = found {
        if host.account_menu {
            login.pending_show_login = regs.r0;
            return Some(Flow::Perform(Task::ClearByte { at }, Stage::FinishZero));
        }
        if !login.hints.account_shown {
            login.hints = Hints { account_shown: true, ..login.hints };
            return Some(
                Flow::Perform(
                    Task::ShowBox { text: BoxText::AccountHint, target: regs.r0 },
                    Stage::AccountBox,
                ),
            );
        }
    }
    None
}

/// Whether the reply to the login has to be looked at.
pub open spec fn looks_at_reply(login: LoginState, host: Host, msg: Message, regs: Regs) -> bool {
    msg.class == Class::MainMenuScene && msg.sel == Sel::OnLoginMainMenuCommandReceived
        && !host.account_menu && !login.hints.refused_shown && regs.r2 != 0
}

/// The state once the reply was looked at.
pub open spec fn reply_seen(login: LoginState, found: Answer) -> LoginState {
    if found == Answer::Pair(ERROR_REFUSED, COMMAND_LOGIN) {
        LoginState { hints: Hints { refused_pending: true, ..login.hints }, ..login }
    } else {
        login
    }
}

/// Notes what the reply to the login says.
pub fn online_reply_seen(login: &mut LoginState, found: Answer)
    ensures
        *final(login) == reply_seen(*old(login), found),
{
    if let Answer::Pair(error, command) = found {
        if error == ERROR_REFUSED && command == COMMAND_LOGIN {
            login.hints = Hints { refused_pending: true, ..login.hints };
        }
    }
}

/// Milliseconds from `t` to `now`, as far as 32 bits hold them.
pub open spec fn millis_since(now: u64, t: u64) -> u32 {
    if now >= t {
        (((now - t) / 1_000_000) % 0x1_0000_0000) as u32
    } else {
        0
    }
}

/// What the connection's new state says about its traffic.
pub open spec fn state_changed(login: LoginState, state: i32, clock: u64) -> LoginState {
    if state == 6 {
        LoginState {
            traffic: Traffic {
                sent: counted(login.traffic.sent),
                last_send: Some(clock),
                ..login.traffic
            },
            ..login
        }
    } else if state == 7 {
        LoginState {
            state_is_7: true,
            traffic: Traffic {
                received: counted(login.traffic.received),
                rtt_ms: match login.traffic.last_send {
                    Some(t) => millis_since(clock, t),
                    None => login.traffic.rtt_ms,
                },
                ..login.traffic
            },
            ..login
        }
    } else {
        login
    }
}

/// The answer to a message, by selector. `None` where the message goes on to
/// the island and the switches.
#[verifier::opaque]
pub open spec fn online_reply(
    login: LoginState,
    host: Host,
    mimi: u32,
    msg: Message,
    regs: Regs,
) -> (Option<Flow>, LoginState, Regs) {
    let pass = (None::<Flow>, login, regs);
    let forward = (Some(Flow::Forward), login, regs);
    let answer = |v: u32| (Some(Flow::Handled), login, Regs { r0: v, ..regs });
    let perform = |t: Task, s: Stage| (Some(Flow::Perform(t, s)), login, regs);
    let menu = host.account_menu;
    match msg.sel {
        Sel::GetServerListWithServiceNameAndDelegate => if msg.class
            == Class::TaomeeGetServerIpListManager {
            perform(
                Task::InjectServerList { manager: regs.r0, delegate: regs.r3 },
                Stage::Finish,
            )
        } else {
            pass
        },
        Sel::SetSocketFromStreamsAndReturnError => if msg.class == Class::AsyncSocket {
            answer(1)
        } else {
            pass
        },
        Sel::SetUserID => if login.armed && msg.class == Class::MVPacketHeader {
            (
                None,
                login,
                Regs {
                    r2: if menu {
                        login.mimi
                    } else {
                        mimi
                    },
                    ..regs
                },
            )
        } else {
            pass
        },
        Sel::TaomeePassword => if login.armed && msg.class == Class::TaomeeUserInfo
            && host.password {
            perform(Task::MakePassword, Stage::FinishWord)
        } else {
            pass
        },
        Sel::IsReachable => if login.armed && msg.class == Class::NetworkManager {
            answer(1)
        } else {
            pass
        },
        Sel::IsNetworkReachable => if login.armed && msg.class == Class::TMAASIHTTPRequest {
            answer(1)
        } else {
            pass
        },
        Sel::AutoLoginWithUserID => if msg.class == Class::TMADataManager {
            if menu {
                forward
            } else if login.armed {
                (Some(Flow::Handled), LoginState { mimi, ..login }, regs)
            } else {
                pass
            }
        } else {
            pass
        },
        Sel::ShowAccountManagerViewWithDelegateAndUserID => (
            None,
            LoginState { menu_active: login.menu_active || menu, ..login },
            regs,
        ),
        Sel::SendRequest => if menu && msg.class == Class::TMAHttpManager {
            (None, LoginState { pending_reqid: regs.r2, ..login }, regs)
        } else {
            pass
        },
        Sel::AllAccounts => if menu && msg.class == Class::TMASSKeychain && !host.real_keychain {
            perform(Task::MakeEmptyList, Stage::FinishWord)
        } else {
            pass
        },
        Sel::GetDictionaryWithJsonData => if menu && msg.class == Class::TMAHttpManager {
            perform(Task::ParseReply { data: regs.r2 }, Stage::ParsedReply)
        } else {
            pass
        },
        Sel::AddOperation => if menu && login.menu_active && msg.class
            == Class::TMAASINetworkQueue {
            perform(Task::ProxyRequest { request: regs.r2 }, Stage::ProxiedRequest)
        } else {
            pass
        },
        Sel::ResponseData => if menu && (msg.class == Class::TMAASIFormDataRequest || msg.class
            == Class::TMAASIHTTPRequest) {
            perform(Task::FetchedReply { request: regs.r0 }, Stage::FetchedReply)
        } else {
            pass
        },
        Sel::OnTaomeeLoginViewDidUnloadWithUserIDPasswordReturnCode => if menu && msg.class
            == Class::MainMenuScene && regs.r2 != 0 {
            (None, LoginState { mimi: regs.r2, armed: true, ..login }, regs)
        } else {
            pass
        },
        Sel::EstablishConnection => if login.armed && msg.class == Class::NetworkManager {
            perform(Task::SetReachable { manager: regs.r0 }, Stage::Island)
        } else {
            pass
        },
        Sel::ChangeStateToWithMessage => if msg.class == Class::NetworkManager {
            (Some(Flow::Forward), state_changed(login, signed(regs.r2), host.clock), regs)
        } else {
            pass
        },
        Sel::LoginWithDeviceInfoAndUserIDInfoInSendType => if msg.class == Class::NetworkManager {
            (
                Some(Flow::Forward),
                login,
                Regs {
                    r2: if regs.r2 == 3 {
                        1
                    } else {
                        regs.r2
                    },
                    ..regs
                },
            )
        } else {
            pass
        },
        Sel::OnServerListResult => forward,
        Sel::Update => if msg.class == Class::LoadingLayer {
            (Some(Flow::Forward), LoginState { pending_loadtarget: 0, ..login }, regs)
        } else {
            pass
        },
        Sel::ShowWithTarget => (
            Some(Flow::Forward),
            if regs.r2 == 4 {
                LoginState { pending_loadtarget: regs.r0, pending_loadtarget_frames: 0, ..login }
            } else {
                login
            },
            regs,
        ),
        Sel::MoleHudTick => perform(Task::UpdateHud, Stage::Finish),
        _ => pass,
    }
}

/// Answers a message of the login, or lets it go on.
pub fn online_arms(login: &mut LoginState, host: &Host, mimi: u32, msg: Message, regs: &mut Regs) -> (r:
    Option<Flow>)
    ensures
        (r, *final(login), *final(regs)) == online_reply(
            *old(login),
            *host,
            mimi,
            msg,
            *old(regs),
        ),
{
    proof {
        reveal(online_reply);
    }
    let class = msg.class;
    let sel = msg.sel;
    if class == Class::TaomeeGetServerIpListManager && sel
        == Sel::GetServerListWithServiceNameAndDelegate {
        return Some(
            Flow::Perform(
                Task::InjectServerList { manager: regs.r0, delegate: regs.r3 },
                Stage::Finish,
            ),
        );
    }
    if class == Class::AsyncSocket && sel == Sel::SetSocketFromStreamsAndReturnError {
        regs.r0 = 1;
        return Some(Flow::Handled);
    }
    if login.armed {
        if class == Class::MVPacketHeader && sel == Sel::SetUserID {
            regs.r2 = if host.account_menu { login.mimi } else { mimi };
        }
        if class == Class::TaomeeUserInfo && sel == Sel::TaomeePassword {
            if host.password {
                return Some(Flow::Perform(Task::MakePassword, Stage::FinishWord));
            }
        }
        if (class == Class::NetworkManager && sel == Sel::IsReachable) || (class
            == Class::TMAASIHTTPRequest && sel == Sel::IsNetworkReachable) {
            regs.r0 = 1;
            return Some(Flow::Handled);
        }
    }
    if class == Class::TMADataManager && sel == Sel::AutoLoginWithUserID {
        if host.account_menu {
            return Some(Flow::Forward);
        }
        if login.armed {
            login.mimi = mimi;
            return Some(Flow::Handled);
        }
    }
    if host.account_menu {
        match account_menu_arms(login, host, msg, regs) {
            Some(flow) => {
                return Some(flow);
            },
            None => {},
        }
    }
    connection_arms(login, host, msg, regs)
}

/// The selectors of the account menu.
pub open spec fn is_menu_sel(sel: Sel) -> bool {
    sel == Sel::ShowAccountManagerViewWithDelegateAndUserID || sel == Sel::SendRequest || sel
        == Sel::AllAccounts || sel == Sel::GetDictionaryWithJsonData || sel == Sel::AddOperation
        || sel == Sel::ResponseData || sel
        == Sel::OnTaomeeLoginViewDidUnloadWithUserIDPasswordReturnCode
}

fn account_menu_arms(login: &mut LoginState, host: &Host, msg: Message, regs: &Regs) -> (r: Option<
    Flow,
>)
    requires
        host.account_menu,
    ensures
        is_menu_sel(msg.sel) ==> forall|mimi: u32|
            (r, *final(login), *regs) == #[trigger] online_reply(
                *old(login),
                *host,
                mimi,
                msg,
                *regs,
            ),
        !is_menu_sel(msg.sel) ==> r is None && *final(login) == *old(login),
{
    proof {
        reveal(online_reply);
    }
    let class = msg.class;
    let sel = msg.sel;
    if sel == Sel::ShowAccountManagerViewWithDelegateAndUserID {
        login.menu_active = true;
    }
    if class == Class::TMAHttpManager && sel == Sel::SendRequest {
        login.pending_reqid = regs.r2;
    }
    if class == Class::TMASSKeychain && sel == Sel::AllAccounts && !host.real_keychain {
        return Some(Flow::Perform(Task::MakeEmptyList, Stage::FinishWord));
    }
    if class == Class::TMAHttpManager && sel == Sel::GetDictionaryWithJsonData {
        return Some(Flow::Perform(Task::ParseReply { data: regs.r2 }, Stage::ParsedReply));
    }
    if login.menu_active && class == Class::TMAASINetworkQueue && sel == Sel::AddOperation {
        return Some(
            Flow::Perform(Task::ProxyRequest { request: regs.r2 }, Stage::ProxiedRequest),
        );
    }
    if sel == Sel::ResponseData && (class == Class::TMAASIFormDataRequest || class
        == Class::TMAASIHTTPRequest) {
        return Some(Flow::Perform(Task::FetchedReply { request: regs.r0 }, Stage::FetchedReply));
    }
    if class == Class::MainMenuScene && sel
        == Sel::OnTaomeeLoginViewDidUnloadWithUserIDPasswordReturnCode {
        let uid: u32 = regs.r2;
        if uid != 0 {
            login.mimi = uid;
            login.armed = true;
        }
    }
    None
}

/// The selectors of the connection and of the way to the village.
pub open spec fn is_connection_sel(sel: Sel) -> bool {
    sel == Sel::EstablishConnection || sel == Sel::ChangeStateToWithMessage || sel
        == Sel::LoginWithDeviceInfoAndUserIDInfoInSendType || sel == Sel::OnServerListResult || sel
        == Sel::Update || sel == Sel::ShowWithTarget || sel == Sel::MoleHudTick
}

fn connection_arms(login: &mut LoginState, host: &Host, msg: Message, regs: &mut Regs) -> (r: Option<
    Flow,
>)
    ensures
        is_connection_sel(msg.sel) ==> forall|mimi: u32|
            (r, *final(login), *final(regs)) == #[trigger] online_reply(
                *old(login),
                *host,
                mimi,
                msg,
                *old(regs),
            ),
        !is_connection_sel(msg.sel) ==> r is None && *final(login) == *old(login) && *final(regs)
            == *old(regs),
{
    proof {
        reveal(online_reply);
    }
    let class = msg.class;
    let sel = msg.sel;
    if login.armed && class == Class::NetworkManager && sel == Sel::EstablishConnection {
        return Some(Flow::Perform(Task::SetReachable { manager: regs.r0 }, Stage::Island));
    }
    if class == Class::NetworkManager && sel == Sel::ChangeStateToWithMessage {
        note_state(login, to_signed(regs.r2), host.clock);
        return Some(Flow::Forward);
    }
    if class == Class::NetworkManager && sel == Sel::LoginWithDeviceInfoAndUserIDInfoInSendType {
        if regs.r2 == 3 {
            regs.r2 = 1;
        }
        return Some(Flow::Forward);
    }
    if sel == Sel::OnServerListResult {
        return Some(Flow::Forward);
    }
    if class == Class::LoadingLayer && sel == Sel::Update {
        login.pending_loadtarget = 0;
        return Some(Flow::Forward);
    }
    if sel == Sel::ShowWithTarget {
        if regs.r2 == 4 {
            login.pending_loadtarget = regs.r0;
            login.pending_loadtarget_frames = 0;
        }
        return Some(Flow::Forward);
    }
    if sel == Sel::MoleHudTick {
        return Some(Flow::Perform(Task::UpdateHud, Stage::Finish));
    }
    None
}

fn note_state(login: &mut LoginState, state: i32, clock: u64)
    ensures
        *final(login) == state_changed(*old(login), state, clock),
{
    let mut t = login.traffic;
    if state == 6 {
        t.sent = count_up(t.sent);
        t.last_send = Some(clock);
        login.traffic = t;
    } else if state == 7 {
        t.received = count_up(t.received);
        if let Some(at) = t.last_send {
            let ms: u64 = clock.saturating_sub(at) / 1_000_000;
            t.rtt_ms = (ms % 0x1_0000_0000) as u32;
        }
        login.state_is_7 = true;
        login.traffic = t;
    }
}

// ---- frames ----

/// The state once a frame was counted towards the start of the login.
pub open spec fn booted(login: LoginState, mimi: u32) -> LoginState {
    if !login.armed && !login.fired {
        if login.boot_frames >= BOOT_FRAMES {
            LoginState { boot_frames: counted(login.boot_frames), armed: true, mimi, ..login }
        } else {
            LoginState { boot_frames: counted(login.boot_frames), ..login }
        }
    } else {
        login
    }
}

/// The first work of a frame: the login is started after a while, and moved on
/// until its packet was sent.
#[verifier::opaque]
pub open spec fn frame_reply(login: LoginState, host: Host, mimi: u32) -> (
    Option<Flow>,
    LoginState,
) {
    let after = booted(login, mimi);
    if after.armed && !after.pkt_sent {
        (Some(Flow::Perform(Task::FireLogin, Stage::FrameLoad)), after)
    } else {
        frame_load_reply(after, host)
    }
}

/// The village is built by hand where the game does not build it.
#[verifier::opaque]
pub open spec fn frame_load_reply(login: LoginState, host: Host) -> (Option<Flow>, LoginState) {
    if login.pending_loadtarget == 0 {
        frame_streams_reply(login, host)
    } else {
        let after = LoginState {
            pending_loadtarget_frames: counted(login.pending_loadtarget_frames),
            ..login
        };
        if login.pending_loadtarget_frames >= LOAD_GRACE_FRAMES {
            (
                Some(
                    Flow::Perform(
                        Task::LoadTarget { layer: login.pending_loadtarget },
                        Stage::FrameStreams,
                    ),
                ),
                LoginState { pending_loadtarget: 0, ..after },
            )
        } else {
            frame_streams_reply(after, host)
        }
    }
}

/// What came over the connection is read.
#[verifier::opaque]
pub open spec fn frame_streams_reply(login: LoginState, host: Host) -> (Option<Flow>, LoginState) {
    if login.fired || host.account_menu {
        (Some(Flow::Perform(Task::DriveStreams, Stage::FramePassport)), login)
    } else {
        frame_passport_reply(login, host)
    }
}

/// Replies that were fetched for the account menu are handed over.
#[verifier::opaque]
pub open spec fn frame_passport_reply(login: LoginState, host: Host) -> (Option<Flow>, LoginState) {
    if host.account_menu {
        (Some(Flow::Perform(Task::DrivePassport, Stage::FrameHud)), login)
    } else {
        frame_hud_reply(login, host)
    }
}

/// The display of the connection is started once.
#[verifier::opaque]
pub open spec fn frame_hud_reply(login: LoginState, host: Host) -> (Option<Flow>, LoginState) {
    if login.fired && login.state_is_7 && !login.hud_timer_set && host.hud {
        (
            Some(Flow::Perform(Task::ScheduleHud, Stage::FrameUpload)),
            LoginState { hud_timer_set: true, ..login },
        )
    } else {
        frame_upload_reply(login)
    }
}

/// Whether the village is sent in frame `n` after the login.
pub open spec fn upload_due(n: u32) -> bool {
    n >= UPLOAD_FIRST && (n - UPLOAD_FIRST) % UPLOAD_EVERY as int == 0
}

/// The village is sent now and then.
#[verifier::opaque]
pub open spec fn frame_upload_reply(login: LoginState) -> (Option<Flow>, LoginState) {
    if login.pkt_sent && login.state_is_7 {
        let after = LoginState { map_upload_frames: counted(login.map_upload_frames), ..login };
        if upload_due(login.map_upload_frames) {
            (Some(Flow::Perform(Task::UploadMap, Stage::FrameLogin)), after)
        } else {
            frame_login_reply(after)
        }
    } else {
        frame_login_reply(login)
    }
}

/// The account menu is shown if it was asked for and the main menu is still
/// the same.
#[verifier::opaque]
pub open spec fn frame_login_reply(login: LoginState) -> (Option<Flow>, LoginState) {
    let after = LoginState { pending_show_login: 0, ..login };
    if login.pending_show_login != 0 && login.mainmenu_scene == login.pending_show_login {
        (
            Some(
                Flow::Perform(
                    Task::ShowLogin { scene: login.pending_show_login },
                    Stage::FrameRefused,
                ),
            ),
            after,
        )
    } else {
        frame_refused_reply(after)
    }
}

/// A refused login is told to the player, once.
#[verifier::opaque]
pub open spec fn frame_refused_reply(login: LoginState) -> (Option<Flow>, LoginState) {
    if login.hints.refused_pending && !login.hints.refused_shown {
        (Some(Flow::Perform(Task::AskBoxFree, Stage::FrameBox)), login)
    } else {
        (None, login)
    }
}

/// The hint is shown as soon as it would be seen.
#[verifier::opaque]
pub open spec fn frame_box_reply(login: LoginState, free: bool) -> (Option<Flow>, LoginState) {
    if free {
        (
            Some(
                Flow::Perform(
                    Task::ShowBox { text: BoxText::LoginRefused, target: 0 },
                    Stage::Island,
                ),
            ),
            LoginState {
                hints: Hints { refused_pending: false, refused_shown: true, ..login.hints },
                ..login
            },
        )
    } else {
        (None, login)
    }
}

/// The first work of a frame.
pub fn frame_start(login: &mut LoginState, host: &Host, mimi: u32) -> (r: Option<Flow>)
    ensures
        (r, *final(login)) == frame_reply(*old(login), *host, mimi),
        final(login).armed == booted(*old(login), mimi).armed,
{
    proof {
        reveal(frame_reply);
    }
    if !login.armed && !login.fired {
        let n: u32 = login.boot_frames;
        login.boot_frames = count_up(n);
        if n >= BOOT_FRAMES {
            login.armed = true;
            login.mimi = mimi;
        }
    }
    if login.armed && !login.pkt_sent {
        return Some(Flow::Perform(Task::FireLogin, Stage::FrameLoad));
    }
    frame_load(login, host)
}

/// Builds the village by hand where the game does not build it.
pub fn frame_load(login: &mut LoginState, host: &Host) -> (r: Option<Flow>)
    ensures
        (r, *final(login)) == frame_load_reply(*old(login), *host),
        final(login).armed == old(login).armed,
{
    proof {
        reveal(frame_load_reply);
    }
    let layer: u32 = login.pending_loadtarget;
    if layer != 0 {
        let n: u32 = login.pending_loadtarget_frames;
        login.pending_loadtarget_frames = count_up(n);
        if n >= LOAD_GRACE_FRAMES {
            login.pending_loadtarget = 0;
            return Some(Flow::Perform(Task::LoadTarget { layer }, Stage::FrameStreams));
        }
    }
    frame_streams(login, host)
}

/// Reads what came over the connection.
pub fn frame_streams(login: &mut LoginState, host: &Host) -> (r: Option<Flow>)
    ensures
        (r, *final(login)) == frame_streams_reply(*old(login), *host),
        final(login).armed == old(login).armed,
{
    proof {
        reveal(frame_streams_reply);
    }
    if login.fired || host.account_menu {
        return Some(Flow::Perform(Task::DriveStreams, Stage::FramePassport));
    }
    frame_passport(login, host)
}

/// Hands over replies that were fetched for the account menu.
pub fn frame_passport(login: &mut LoginState, host: &Host) -> (r: Option<Flow>)
    ensures
        (r, *final(login)) == frame_passport_reply(*old(login), *host),
        final(login).armed == old(login).armed,
{
    proof {
        reveal(frame_passport_reply);
    }
    if host.account_menu {
        return Some(Flow::Perform(Task::DrivePassport, Stage::FrameHud));
    }
    frame_hud(login, host)
}

/// Starts the display of the connection once.
pub fn frame_hud(login: &mut LoginState, host: &Host) -> (r: Option<Flow>)
    ensures
        (r, *final(login)) == frame_hud_reply(*old(login), *host),
        final(login).armed == old(login).armed,
{
    proof {
        reveal(frame_hud_reply);
    }
    if login.fired && login.state_is_7 && !login.hud_timer_set && host.hud {
        login.hud_timer_set = true;
        return Some(Flow::Perform(Task::ScheduleHud, Stage::FrameUpload));
    }
    frame_upload(login)
}

/// Sends the village now and then.
pub fn frame_upload(login: &mut LoginState) -> (r: Option<Flow>)
    ensures
        (r, *final(login)) == frame_upload_reply(*old(login)),
        final(login).armed == old(login).armed,
{
    proof {
        reveal(frame_upload_reply);
    }
    if login.pkt_sent && login.state_is_7 {
        let n: u32 = login.map_upload_frames;
        login.map_upload_frames = count_up(n);
        if n == UPLOAD_FIRST || (n > UPLOAD_FIRST && (n - UPLOAD_FIRST) % UPLOAD_EVERY == 0) {
            return Some(Flow::Perform(Task::UploadMap, Stage::FrameLogin));
        }
    }
    frame_login(login)
}

/// Shows the account menu if it was asked for.
pub fn frame_login(login: &mut LoginState) -> (r: Option<Flow>)
    ensures
        (r, *final(login)) == frame_login_reply(*old(login)),
        final(login).armed == old(login).armed,
{
    proof {
        reveal(frame_login_reply);
    }
    let scene: u32 = login.pending_show_login;
    login.pending_show_login = 0;
    if scene != 0 && login.mainmenu_scene == scene {
        return Some(Flow::Perform(Task::ShowLogin { scene }, Stage::FrameRefused));
    }
    frame_refused(login)
}

/// Tells the player that the login was refused.
pub fn frame_refused(login: &LoginState) -> (r: Option<Flow>)
    ensures
        (r, *login) == frame_refused_reply(*login),
{
    proof {
        reveal(frame_refused_reply);
    }
    if login.hints.refused_pending && !login.hints.refused_shown {
        return Some(Flow::Perform(Task::AskBoxFree, Stage::FrameBox));
    }
    None
}

/// Shows the hint if it would be seen.
pub fn frame_box(login: &mut LoginState, free: bool) -> (r: Option<Flow>)
    ensures
        (r, *final(login)) == frame_box_reply(*old(login), free),
{
    proof {
        reveal(frame_box_reply);
    }
    if !free {
        return None;
    }
    login.hints = Hints { refused_pending: false, refused_shown: true, ..login.hints };
    Some(
        Flow::Perform(Task::ShowBox { text: BoxText::LoginRefused, target: 0 }, Stage::Island),
    )
}

/// The hint about a refused login is shown once: after it was shown, no frame
/// asks for it again.
pub proof fn law_refusal_is_told_once(login: LoginState)
    ensures
        ({
            let (_, after) = frame_box_reply(login, true);
            frame_refused_reply(after).0 is None
        }),
{
    reveal(frame_box_reply);
    reveal(frame_refused_reply);
}

/// Outside the mode of the account menu nothing of the menu is used: no
/// request is taken over, and nothing is noted for it.
pub proof fn law_menu_needs_its_mode(login: LoginState, host: Host, mimi: u32, msg: Message, regs: Regs)
    requires
        !host.account_menu,
    ensures
        ({
            let (flow, after, _) = online_reply(login, host, mimi, msg, regs);
            &&& after.menu_active == login.menu_active
            &&& after.pending_reqid == login.pending_reqid
            &&& !(flow matches Some(Flow::Perform(Task::ProxyRequest { .. }, _)))
            &&& !(flow matches Some(Flow::Perform(Task::ParseReply { .. }, _)))
            &&& !(flow matches Some(Flow::Perform(Task::FetchedReply { .. }, _)))
        }),
{
    reveal(online_reply);
}

/// The marks that the main menu was made to connect and that the login was
/// sent are as they were.
pub open spec fn marks_kept(before: LoginState, after: LoginState) -> bool {
    after.fired == before.fired && after.pkt_sent == before.pkt_sent
}

/// No part of a frame's work touches the marks of the login.
pub proof fn lemma_frame_keeps_marks(login: LoginState, host: Host, mimi: u32, free: bool)
    ensures
        marks_kept(login, frame_box_reply(login, free).1),
        marks_kept(login, frame_refused_reply(login).1),
        marks_kept(login, frame_login_reply(login).1),
        marks_kept(login, frame_upload_reply(login).1),
        marks_kept(login, frame_hud_reply(login, host).1),
        marks_kept(login, frame_passport_reply(login, host).1),
        marks_kept(login, frame_streams_reply(login, host).1),
        marks_kept(login, frame_load_reply(login, host).1),
        marks_kept(login, frame_reply(login, host, mimi).1),
{
    reveal(frame_box_reply);
    reveal(frame_refused_reply);
    reveal(frame_login_reply);
    reveal(frame_upload_reply);
    reveal(frame_hud_reply);
    reveal(frame_passport_reply);
    reveal(frame_streams_reply);
    reveal(frame_load_reply);
    reveal(frame_reply);
}

/// Where the button for another account is enabled, if it can be used.
pub open spec fn button_place(
    scene: u32,
    off_enable: u32,
    off_clicking: u32,
    enable: u8,
    clicking: u8,
) -> Option<u32> {
    if scene != 0 && 0 < off_enable < 0x1000 && 0 < off_clicking < 0x1000 && enable != 0 && clicking
        == 0 {
        Some(offset_by(scene, off_enable))
    } else {
        None
    }
}

/// The button can be used on a main menu whose two offsets lie from 1 to 4095,
/// where it is enabled and no click is under way; its mark lies at the first
/// offset.
pub proof fn law_when_the_button_can_be_used(
    scene: u32,
    off_enable: u32,
    off_clicking: u32,
    enable: u8,
    clicking: u8,
)
    requires
        scene < 0xffff_0000,
    ensures
        ({
            let r = button_place(scene, off_enable, off_clicking, enable, clicking);
            let usable = scene > 0 && 1 <= off_enable <= 4095 && 1 <= off_clicking <= 4095 && enable
                > 0 && clicking == 0;
            &&& usable ==> r == Some((scene + off_enable) as u32)
            &&& !usable ==> r is None
        }),
{
}

} // verus!
