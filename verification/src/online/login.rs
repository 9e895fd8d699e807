//! The steps of a login that the game does not take by itself.

use vstd::prelude::*;
use crate::state::LoginState;

verus! {

/// The state of a connection that is open but not logged in.
pub const STATE_CONNECTED: i32 = 4;

/// What to do for the login in this frame.
#[derive(Clone, Copy, Debug, PartialEq, Eq, Structural)]
pub enum LoginAction {
    /// Wait.
    Wait,
    /// Set the server and the account, and have the main menu connect.
    Connect { scene: u32, mimi: u32 },
    /// Have the main menu send the login.
    SendLogin { scene: u32, mimi: u32 },
}

/// The login's next step. First the main menu must be there and know the
/// button for accounts; once it was made to connect, the connection must be
/// open. `manager_state` is the connection's state, where there is one.
pub open spec fn login_action(login: LoginState, has_button: bool, manager_state: Option<i32>) -> LoginAction {
    if login.pkt_sent || login.mainmenu_scene == 0 {
        LoginAction::Wait
    } else if login.fired {
        if manager_state == Some(STATE_CONNECTED) {
            LoginAction::SendLogin { scene: login.mainmenu_scene, mimi: login.mimi }
        } else {
            LoginAction::Wait
        }
    } else if has_button {
        LoginAction::Connect { scene: login.mainmenu_scene, mimi: login.mimi }
    } else {
        LoginAction::Wait
    }
}

/// The state after a step was taken.
pub open spec fn login_after(login: LoginState, action: LoginAction) -> LoginState {
    match action {
        LoginAction::Wait => login,
        LoginAction::Connect { .. } => LoginState { fired: true, ..login },
        LoginAction::SendLogin { .. } => LoginState { pkt_sent: true, ..login },
    }
}

/// Takes the login's next step.
pub fn fire_online_login(login: &mut LoginState, has_button: bool, manager_state: Option<i32>) -> (r:
    LoginAction)
    ensures
        r == login_action(*old(login), has_button, manager_state),
        *final(login) == login_after(*old(login), r),
{
    if login.pkt_sent {
        return LoginAction::Wait;
    }
    let scene: u32 = login.mainmenu_scene;
    let mimi: u32 = login.mimi;
    if login.fired {
        if scene == 0 {
            return LoginAction::Wait;
        }
        match manager_state {
            Some(state) => {
                if state != STATE_CONNECTED {
                    return LoginAction::Wait;
                }
            },
            None => {
                return LoginAction::Wait;
            },
        }
        login.pkt_sent = true;
        return LoginAction::SendLogin { scene, mimi };
    }
    if scene == 0 || !has_button {
        return LoginAction::Wait;
    }
    login.fired = true;
    LoginAction::Connect { scene, mimi }
}

/// The login's packet is sent at most once, and never before the main menu was
/// made to connect.
pub proof fn law_login_is_sent_once(login: LoginState, has_button: bool, manager_state: Option<i32>)
    ensures
        login.pkt_sent ==> login_action(login, has_button, manager_state) == LoginAction::Wait,
        login_action(login, has_button, manager_state) is SendLogin ==> login.fired,
        login.fired ==> !(login_action(login, has_button, manager_state) is Connect),
{
}

/// What one frame has to go by: the state, whether the main menu knows the
/// button, and the connection's state.
pub struct LoginCall {
    pub login: LoginState,
    pub has_button: bool,
    pub manager_state: Option<i32>,
}

impl LoginCall {
    /// The step that is taken.
    pub open spec fn action(self) -> LoginAction {
        login_action(self.login, self.has_button, self.manager_state)
    }
}

/// The calls of one run, in order: between two of them anything may change but
/// the marks that the main menu was made to connect and that the login was
/// sent.
pub open spec fn is_run(calls: Seq<LoginCall>) -> bool {
    forall|i: int|
        #![trigger calls[i]]
        0 < i < calls.len() ==> {
            let before = login_after(calls[i - 1].login, calls[i - 1].action());
            calls[i].login.fired == before.fired && calls[i].login.pkt_sent == before.pkt_sent
        }
}

/// How many of the first `n` calls made the main menu connect.
pub open spec fn connects(calls: Seq<LoginCall>, n: int) -> int
    decreases n,
{
    if n <= 0 {
        0
    } else {
        connects(calls, n - 1) + if calls[n - 1].action() is Connect {
            1int
        } else {
            0
        }
    }
}

/// How many of the first `n` calls sent the login.
pub open spec fn sends(calls: Seq<LoginCall>, n: int) -> int
    decreases n,
{
    if n <= 0 {
        0
    } else {
        sends(calls, n - 1) + if calls[n - 1].action() is SendLogin {
            1int
        } else {
            0
        }
    }
}

proof fn lemma_run(calls: Seq<LoginCall>, n: int)
    requires
        is_run(calls),
        0 <= n <= calls.len(),
    ensures
        0 <= connects(calls, n) <= 1,
        0 <= sends(calls, n) <= 1,
        n > 0 ==> {
            let after = login_after(calls[n - 1].login, calls[n - 1].action());
            &&& connects(calls, n) == 1 ==> after.fired
            &&& sends(calls, n) == 1 ==> after.pkt_sent
        },
    decreases n,
{
    if n > 0 {
        lemma_run(calls, n - 1);
        let call = calls[n - 1];
        law_login_is_sent_once(call.login, call.has_button, call.manager_state);
    }
}

/// However often it is called in one run, the main menu is called back at most
/// twice: once to connect, as soon as it is there and knows the button for
/// accounts, and once to send the login, when the connection is open. Both
/// times it is the main menu that was noted, with the account of that moment.
pub proof fn law_main_menu_is_called_at_most_twice(calls: Seq<LoginCall>, n: int)
    requires
        is_run(calls),
        0 <= n <= calls.len(),
    ensures
        connects(calls, n) <= 1,
        sends(calls, n) <= 1,
        forall|i: int|
            0 <= i < n ==> match (#[trigger] calls[i]).action() {
                LoginAction::Wait => true,
                LoginAction::Connect { scene, mimi } => {
                    &&& scene == calls[i].login.mainmenu_scene && scene != 0
                    &&& mimi == calls[i].login.mimi
                    &&& calls[i].has_button && !calls[i].login.fired
                },
                LoginAction::SendLogin { scene, mimi } => {
                    &&& scene == calls[i].login.mainmenu_scene && scene != 0
                    &&& mimi == calls[i].login.mimi
                    &&& calls[i].manager_state == Some(STATE_CONNECTED) && calls[i].login.fired
                },
            },
{
    lemma_run(calls, n);
}

/// Whether the progress of the save at the server has to be computed before it
/// is held against the local one: the server sent a village with something in
/// it, and the player's data. `village` is its number of kinds of buildings.
pub fn sync_remote_upgrade_percent(village: Option<u32>, user_info: bool) -> (r: bool)
    ensures
        r == needs_percent(village, user_info),
{
    match village {
        Some(n) => n != 0 && user_info,
        None => false,
    }
}

/// The login goes on as soon as it can: a main menu that knows the button for
/// accounts is made to connect, and once it was, the login is sent when the
/// connection's state is 4. In every other case it waits. A step is taken for the
/// menu that was noted and the account of the moment, and is not taken again.
pub proof fn law_login_goes_on(login: LoginState, has_button: bool, state: Option<i32>)
    ensures
        ({
            let a = login_action(login, has_button, state);
            let after = login_after(login, a);
            let scene = login.mainmenu_scene;
            let mimi = login.mimi;
            let connects = !login.pkt_sent && scene != 0 && !login.fired && has_button;
            let sends = !login.pkt_sent && scene != 0 && login.fired && state == Some(4i32);
            &&& connects ==> a == (LoginAction::Connect { scene, mimi }) && after == (LoginState {
                fired: true,
                ..login
            })
            &&& sends ==> a == (LoginAction::SendLogin { scene, mimi }) && after == (LoginState {
                pkt_sent: true,
                ..login
            })
            &&& !connects && !sends ==> a == LoginAction::Wait && after == login
        }),
{
}

/// Whether the server's save is computed before it is held against the local
/// one: a village with something in it and the player's data came.
pub open spec fn needs_percent(village: Option<u32>, user_info: bool) -> bool {
    village is Some && village->0 != 0 && user_info
}

/// An empty or missing village, or missing data of the player, is left alone.
pub proof fn law_empty_saves_are_left_alone(n: u32, user_info: bool)
    ensures
        !needs_percent(None, user_info),
        !needs_percent(Some(0), user_info),
        !needs_percent(Some(n), false),
        n > 0 ==> needs_percent(Some(n), true),
{
}

} // verus!
