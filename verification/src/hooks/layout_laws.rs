//! What the hooks before the login do: the layout of the screen,
//! advertisements, the save file, shared pictures and tilting.

use vstd::prelude::*;
use crate::cheats::CheatKey;
use crate::hooks::cheat_laws::{gives, passes};
use crate::hooks::machine::{
    add_child_step, begin_resumed, display_step, layout_step, login_step, main_step,
    mode_noted, online_step, reply_step, resumed, tilt_step, win_size_step, Step,
};
use crate::hooks::online_arms::{menu_seen, online_reply};
use crate::hooks::online_laws::asks;
use crate::hooks::passage::{lemma_island_lets_pass, sent};
use crate::hooks::types::{Answer, BoxText, Flow, Host, Regs, Stage, Task};
use crate::names::{Class, Message, Sel};
use crate::state::CheatState;
use crate::ui43::is_callsite;

verus! {

/// The size 1024 by 768, as two single-precision numbers, to the place that
/// was given for it.
pub open spec fn is_design_size(s: Step, regs: Regs) -> bool {
    s.flow == (Flow::ReturnSize { at: regs.r0, width: 0x4480_0000, height: 0x4440_0000 }) && s.regs
        == regs
}

/// The window's size the game has remembered from before it was turned is
/// given turned: width for height. The code that lays out panels is given 1024
/// by 768 instead, where panels are laid out for that. Once the remembered size
/// is no longer upright it is not asked for again.
#[verifier::rlimit(40)]
pub proof fn law_remembered_size_is_turned(
    st: CheatState,
    host: Host,
    msg: Message,
    regs: Regs,
    width: u32,
    height: u32,
)
    requires
        msg.sel == Sel::WinSize,
    ensures
        ({
            let first = resumed(st, host, msg, regs, Stage::Display, Answer::Nothing);
            let found = resumed(st, host, msg, regs, Stage::WinSize, Answer::Pair(width, height));
            let fine = resumed(st, host, msg, regs, Stage::WinSize, Answer::Nothing);
            let panels = host.ui43 && is_callsite(regs.lr & 0xffff_fffe);
            &&& st.winsize_stale ==> asks(
                first,
                regs,
                Task::ReadWinSize { director: regs.r1 },
                Stage::WinSize,
            )
            &&& panels ==> is_design_size(found, regs)
            &&& !panels ==> found.regs == regs && found.flow == (Flow::ReturnSize {
                at: regs.r0,
                width: height,
                height: width,
            })
            &&& found.st == st
            &&& !fine.st.winsize_stale
            &&& panels ==> is_design_size(fine, regs)
            &&& host.ui43 && !panels ==> passes(fine, regs)
            &&& !host.ui43 && st.dev_startup_done ==> asks(
                fine,
                regs,
                Task::AskModules,
                Stage::AfterModules,
            )
        }),
{
    let lr = regs.lr;
    assert(lr & !1u32 == lr & 0xffff_fffe) by (bit_vector);
    reveal(begin_resumed);
    reveal(display_step);
    reveal(win_size_step);
    reveal(layout_step);
    reveal(add_child_step);
}

/// Where panels are laid out for 1024 by 768, the code that lays them out is
/// told that size, and all other code the window's own; layers that enter are
/// centered, children stretched and subviews moved before the game goes on.
/// Where they are not, none of this is done.
pub proof fn law_panels_are_laid_out(st: CheatState, host: Host, msg: Message, regs: Regs)
    requires
        st.dev_startup_done,
        !st.winsize_stale,
    ensures
        ({
            let s = resumed(st, host, msg, regs, Stage::Display, Answer::Nothing);
            let child = msg.sel == Sel::AddChild || msg.sel == Sel::AddChildZ;
            let modules = asks(s, regs, Task::AskModules, Stage::AfterModules);
            &&& msg.sel == Sel::WinSize && host.ui43 && is_callsite(regs.lr & 0xffff_fffe)
                ==> is_design_size(s, regs)
            &&& msg.sel == Sel::WinSize && host.ui43 && !is_callsite(regs.lr & 0xffff_fffe)
                ==> passes(s, regs)
            &&& msg.sel == Sel::OnEnter && host.ui43 ==> asks(
                s,
                regs,
                Task::CenterPanel { layer: regs.r0 },
                Stage::Forward,
            )
            &&& child && host.ui43 ==> asks(
                s,
                regs,
                Task::StretchChild { parent: regs.r0, child: regs.r2 },
                Stage::Forward,
            )
            &&& msg.sel == Sel::AddSubview && host.ui43 ==> asks(
                s,
                regs,
                Task::MoveSubview { parent: regs.r0, child: regs.r2 },
                Stage::Forward,
            )
            &&& !host.ui43 && (msg.sel == Sel::WinSize || msg.sel == Sel::OnEnter || child || msg.sel
                == Sel::AddSubview) ==> modules
        }),
{
    let lr = regs.lr;
    assert(lr & !1u32 == lr & 0xffff_fffe) by (bit_vector);
    reveal(begin_resumed);
    reveal(display_step);
    reveal(layout_step);
    reveal(add_child_step);
}

/// On a wide screen the background is aligned whenever a child with a tag is
/// added; where panels are laid out too, the child is then stretched.
pub proof fn law_background_is_aligned(st: CheatState, host: Host, msg: Message, regs: Regs)
    requires
        st.dev_startup_done,
        msg.sel == Sel::AddChildZTag,
    ensures
        ({
            let s = resumed(st, host, msg, regs, Stage::Display, Answer::Nothing);
            let then = resumed(st, host, msg, regs, Stage::AddChild, Answer::Nothing);
            &&& host.widescreen ==> asks(
                s,
                regs,
                Task::AlignBackground { child: regs.r2 },
                Stage::AddChild,
            )
            &&& !host.widescreen ==> s == then
            &&& host.ui43 ==> asks(
                then,
                regs,
                Task::StretchChild { parent: regs.r0, child: regs.r2 },
                Stage::Forward,
            )
            &&& !host.ui43 ==> asks(then, regs, Task::AskModules, Stage::AfterModules)
        }),
{
    reveal(begin_resumed);
    reveal(display_step);
    reveal(layout_step);
    reveal(add_child_step);
}

/// Advertisements do not come on screen: prompts to load other games, boards
/// of other games, the racing game's box, and the two boards that open by
/// themselves.
pub proof fn law_advertisements_are_swallowed(st: CheatState, host: Host, msg: Message, regs: Regs)
    requires
        msg.more_game || msg.sel == Sel::CheckPromptForLoadingNewApp || (msg.class
            == Class::AdViewForMoleCart && (msg.sel == Sel::ShowWithTargetSelector || msg.sel
            == Sel::ShowWithTarget)) || ((msg.class == Class::AutoPopZhongXinLayer || msg.class
            == Class::ShowAdwallBoardLayer) && (msg.sel == Sel::Open || msg.sel == Sel::ShowLayer)),
    ensures
        sent(st, host, msg, regs) == (Step { flow: Flow::Handled, st, regs }),
{
    reveal(begin_resumed);
    reveal(main_step);
}

/// Boards of anything else open as the game wants.
pub proof fn law_other_boards_open(st: CheatState, host: Host, msg: Message, regs: Regs)
    requires
        !msg.more_game,
        msg.sel == Sel::Open || msg.sel == Sel::ShowLayer,
        msg.class != Class::AutoPopZhongXinLayer && msg.class != Class::ShowAdwallBoardLayer,
    ensures
        passes(sent(st, host, msg, regs), regs),
{
    reveal(begin_resumed);
    reveal(main_step);
    reveal(tilt_step);
    lemma_online_lets_pass(st, host, msg, regs);
}

/// A message that neither the login nor the island nor a switch concerns.
proof fn lemma_online_lets_pass(st: CheatState, host: Host, msg: Message, regs: Regs)
    requires
        msg.sel == Sel::Open || msg.sel == Sel::ShowLayer || msg.sel
            == Sel::CompareRemoteGameDataWithLocalOne || msg.sel == Sel::LoadUserInfoData || msg.sel
            == Sel::OnSharedToSinaWeibo || msg.sel == Sel::OnSharedToSinaWeiboGetShareReward
            || msg.sel == Sel::StartGame,
    ensures
        online_step(st, host, msg, regs).flow == Flow::Forward,
        online_step(st, host, msg, regs).regs == regs,
{
    reveal(online_step);
    reveal(reply_step);
    reveal(login_step);
    reveal(online_reply);
    lemma_island_lets_pass(st, host, msg, regs);
    let login = menu_seen(st.login, msg, regs);
    lemma_island_lets_pass(CheatState { login, ..st }, host, msg, regs);
}

/// Before the game reads its save file, the file is looked after; before it
/// compares the server's village with its own, the two are brought in line,
/// online only. Both messages then go to the game.
pub proof fn law_save_file_is_looked_after(st: CheatState, host: Host, msg: Message, regs: Regs)
    requires
        !msg.more_game,
    ensures
        ({
            let s = sent(st, host, msg, regs);
            &&& msg.sel == Sel::LoadUserInfoData ==> if msg.class == Class::GameData {
                asks(s, regs, Task::GuardUserInfo { game_data: regs.r0 }, Stage::Forward)
            } else {
                passes(s, regs)
            }
            &&& msg.sel == Sel::CompareRemoteGameDataWithLocalOne ==> if msg.class
                == Class::GameDataCompareLayer && host.network {
                asks(s, regs, Task::SyncUpgradePercent, Stage::Forward)
            } else {
                passes(s, regs)
            }
        }),
{
    reveal(begin_resumed);
    reveal(main_step);
    reveal(tilt_step);
    if msg.sel == Sel::LoadUserInfoData || msg.sel == Sel::CompareRemoteGameDataWithLocalOne {
        lemma_online_lets_pass(st, host, msg, regs);
    }
}

/// Without the network nothing can be shared: the player is told so, and where
/// the box was shown the message is answered with 0. With the network, or where
/// no box could be shown, the game goes on.
#[verifier::rlimit(40)]
pub proof fn law_nothing_is_shared_offline(st: CheatState, host: Host, msg: Message, regs: Regs)
    requires
        !msg.more_game,
        msg.sel == Sel::OnSharedToSinaWeibo || msg.sel == Sel::OnSharedToSinaWeiboGetShareReward,
    ensures
        ({
            let s = sent(st, host, msg, regs);
            let shown = resumed(st, host, msg, regs, Stage::WeiboBox, Answer::Flag(true));
            let unshown = resumed(st, host, msg, regs, Stage::WeiboBox, Answer::Flag(false));
            &&& !host.network && msg.class == Class::SharedInterfaceLayer ==> asks(
                s,
                regs,
                Task::ShowBox { text: BoxText::NoConnection, target: 0 },
                Stage::WeiboBox,
            )
            &&& !(!host.network && msg.class == Class::SharedInterfaceLayer) ==> passes(s, regs)
            &&& gives(shown, regs, 0)
            &&& passes(unshown, regs)
        }),
{
    reveal(begin_resumed);
    reveal(main_step);
    reveal(tilt_step);
    lemma_online_lets_pass(st, host, msg, regs);
}

/// How to tilt is told once, to a player without sensors, before the first
/// round; the round then waits for the player. Every other start goes to the
/// game.
#[verifier::rlimit(40)]
pub proof fn law_tilting_is_explained_once(st: CheatState, host: Host, msg: Message, regs: Regs)
    requires
        !msg.more_game,
        msg.sel == Sel::StartGame,
    ensures
        ({
            let s = sent(st, host, msg, regs);
            let tells = msg.class == Class::WashRoomLevelChoose && host.desktop
                && !st.washroom_hint_shown;
            &&& tells ==> asks(
                s,
                regs,
                Task::ShowBox { text: BoxText::TiltHint, target: regs.r0 },
                Stage::TiltBox,
            ) && s.st.washroom_hint_shown
            &&& !tells ==> passes(s, regs)
            &&& gives(resumed(st, host, msg, regs, Stage::TiltBox, Answer::Flag(true)), regs, 0)
            &&& passes(resumed(st, host, msg, regs, Stage::TiltBox, Answer::Flag(false)), regs)
        }),
{
    reveal(begin_resumed);
    reveal(main_step);
    reveal(tilt_step);
    lemma_online_lets_pass(st, host, msg, regs);
}

/// Once the network may be used the game counts as online, and the island
/// without a server is off; no other switch is touched, and without the
/// network nothing is.
pub proof fn law_mode_follows_the_network(st: CheatState, network: bool, key: CheatKey)
    ensures
        ({
            let after = mode_noted(st, network);
            &&& network ==> after.online_mode
            &&& !network ==> after == st
            &&& after.cheats.has(key) == (st.cheats.has(key) && !(network && key
                == CheatKey::EnableNewsceneIsland))
        }),
{
    let bits = st.cheats.bits;
    let i = key.bit();
    assert(i < 26);
    assert(((bits & !(1u32 << 19u32)) & (1u32 << i) != 0) == (bits & (1u32 << i) != 0 && i != 19))
        by (bit_vector)
        requires
            i < 32,
    ;
}

} // verus!
