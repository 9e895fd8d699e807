use touchhle::online::config::{
    fix_mapextend_on, hud_enabled, online_login_mimi, passport_endpoint, server_address,
    serverlist_json, switch_on, ui43_mode,
};
use touchhle::online::hud::{update_debug_hud, HudFacts, MapAtServer};
use touchhle::online::login::{fire_online_login, sync_remote_upgrade_percent, LoginAction};
use touchhle::online::passport::{
    drive_passport, fetched_reply, forget_reply, http_body, http_head, parse_flat_json,
    parse_flat_text, passport_plan, PassportPlan, PassportProxy,
};
use touchhle::state::CheatState;
use touchhle::text::{contains_text, ends_with, push_decimal, push_signed, starts_with};

#[test]
fn the_account_is_a_number() {
    assert_eq!(online_login_mimi(true, Some(" 10001\n")), Some(10001));
    assert_eq!(online_login_mimi(true, Some("+7")), Some(7));
    assert_eq!(online_login_mimi(true, Some("4294967295")), Some(4294967295));
    assert_eq!(online_login_mimi(true, Some("4294967296")), None);
    assert_eq!(online_login_mimi(true, Some("-1")), None);
    assert_eq!(online_login_mimi(true, Some("")), None);
    assert_eq!(online_login_mimi(true, Some("12a")), None);
    assert_eq!(online_login_mimi(true, None), None);
    assert_eq!(online_login_mimi(false, Some("10001")), None);
}

#[test]
fn settings_are_on_unless_zero() {
    assert!(!switch_on(Some("0"), true));
    assert!(switch_on(Some(""), false));
    assert!(switch_on(Some("1"), false));
    assert!(switch_on(None, true));
    assert!(fix_mapextend_on(None, true) && !fix_mapextend_on(None, false));
    assert!(!hud_enabled(None) && hud_enabled(Some("1")));
    assert!(ui43_mode(None, true, true));
    assert!(!ui43_mode(None, true, false) && !ui43_mode(None, false, true));
    assert!(ui43_mode(Some("1"), false, false));
}

#[test]
fn accounts_are_kept_at_an_address() {
    let at = |p, s| passport_endpoint(p, s);
    assert_eq!(at(Some("a.net:8080"), None), ("a.net".to_string(), 8080));
    assert_eq!(at(Some("a.net"), None), ("a.net".to_string(), 80));
    assert_eq!(at(Some("a.net:x"), None), ("a.net:x".to_string(), 80));
    assert_eq!(at(Some("a.net:65536"), None), ("a.net:65536".to_string(), 80));
    assert_eq!(at(None, Some("b.net:7821")), ("b.net".to_string(), 80));
    assert_eq!(at(None, Some("b.net")), ("b.net".to_string(), 80));
    assert_eq!(at(None, None), ("login.moleworld.net".to_string(), 80));
}

#[test]
fn the_server_has_an_address_and_a_port() {
    assert_eq!(server_address("1.2.3.4:99"), ("1.2.3.4".to_string(), 99));
    assert_eq!(server_address(" host : 99 "), ("host ".to_string(), 99));
    assert_eq!(server_address("host:x"), ("host".to_string(), 7821));
    assert_eq!(server_address("host"), ("host".to_string(), 7821));
    assert_eq!(server_address("host:-5"), ("host".to_string(), -5));
}

#[test]
fn the_list_of_servers_has_one() {
    assert_eq!(serverlist_json(" 1.2.3.4:99 "), r#"[{"ip":"1.2.3.4","port":"99"}]"#);
    assert_eq!(serverlist_json("host"), r#"[{"ip":"host","port":"7821"}]"#);
}

#[test]
fn the_login_goes_step_by_step() {
    let mut login = CheatState::new().login;
    login.mimi = 5;
    assert_eq!(fire_online_login(&mut login, true, Some(4)), LoginAction::Wait);
    login.mainmenu_scene = 9;
    assert_eq!(fire_online_login(&mut login, false, Some(4)), LoginAction::Wait);
    assert_eq!(
        fire_online_login(&mut login, true, None),
        LoginAction::Connect { scene: 9, mimi: 5 }
    );
    assert!(login.fired);
    assert_eq!(fire_online_login(&mut login, true, None), LoginAction::Wait);
    assert_eq!(fire_online_login(&mut login, true, Some(1)), LoginAction::Wait);
    assert_eq!(
        fire_online_login(&mut login, true, Some(4)),
        LoginAction::SendLogin { scene: 9, mimi: 5 }
    );
    assert_eq!(fire_online_login(&mut login, true, Some(4)), LoginAction::Wait);
}

#[test]
fn the_main_menu_is_called_twice() {
    let mut login = CheatState::new().login;
    let mut called = vec![];
    for frame in 0..40 {
        if frame == 5 {
            login.mainmenu_scene = 9;
        }
        let state = if frame % 10 == 3 { Some(4) } else { Some(1) };
        match fire_online_login(&mut login, frame > 7, state) {
            LoginAction::Wait => {}
            LoginAction::Connect { .. } => called.push((frame, "connect")),
            LoginAction::SendLogin { .. } => called.push((frame, "login")),
        }
    }
    assert_eq!(called, vec![(8, "connect"), (13, "login")]);
}

#[test]
fn progress_is_computed_for_a_village() {
    assert!(sync_remote_upgrade_percent(Some(3), true));
    assert!(!sync_remote_upgrade_percent(Some(0), true));
    assert!(!sync_remote_upgrade_percent(Some(3), false));
    assert!(!sync_remote_upgrade_percent(None, true));
}

#[test]
fn requests_are_taken_over() {
    let url = "http://account-mapi.61.com/account_service.php";
    match passport_plan(url, 1012, 77) {
        PassportPlan::Answer { reply } => assert_eq!(
            reply,
            r#"{"status_code":1011,"result":0,"user_id":77,"extra_data":1012}"#
        ),
        other => panic!("{:?}", other),
    }
    match passport_plan(url, 1001, 77) {
        PassportPlan::Proxy { body } => {
            assert_eq!(body, "service=1001&user_id=77&userid=77&extra_data=1001")
        }
        other => panic!("{:?}", other),
    }
    assert!(matches!(passport_plan(url, 0, 77), PassportPlan::Leave));
    assert!(matches!(passport_plan("http://other/", 1001, 77), PassportPlan::Leave));
}

#[test]
fn requests_are_sent_over_http() {
    assert_eq!(
        http_head(48),
        "POST /account_service.php HTTP/1.1\r\nHost: account-mapi.61.com\r\nContent-Type: application/x-www-form-urlencoded\r\nContent-Length: 48\r\nConnection: close\r\n\r\n"
    );
    assert_eq!(http_body(&b"HTTP/1.1 200 OK\r\n\r\na\r\n\r\nb".to_vec()), Some(b"a\r\n\r\nb".to_vec()));
    assert_eq!(http_body(&b"\r\n\r\n".to_vec()), Some(vec![]));
    assert_eq!(http_body(&b"HTTP/1.1 200 OK\r\n".to_vec()), None);
    assert_eq!(http_body(&b"\r\n".to_vec()), None);
}

fn pairs(v: &[(&str, &str)]) -> Vec<(String, String)> {
    v.iter().map(|(a, b)| (a.to_string(), b.to_string())).collect()
}

#[test]
fn flat_replies_are_read() {
    assert_eq!(
        parse_flat_text(r#" {"result": 0, "name" : "a b", url:http://x, "": 3, lonely} "#),
        pairs(&[("result", "0"), ("name", "a b"), ("url", "http://x")])
    );
    assert_eq!(parse_flat_text(""), pairs(&[]));
    assert_eq!(parse_flat_text("{}"), pairs(&[]));
    assert_eq!(parse_flat_text("{a:1"), pairs(&[("a", "1")]));
}

#[test]
fn replies_come_as_bytes() {
    assert_eq!(parse_flat_json(&b"{\"a\":\"b\"}".to_vec()), pairs(&[("a", "b")]));
    assert_eq!(parse_flat_json(&vec![b'a', b':', 0xff, b'b']), pairs(&[("a", "\u{fffd}b")]));
    assert_eq!(parse_flat_json(&"a:米".as_bytes().to_vec()), pairs(&[("a", "米")]));
}

#[test]
fn finished_requests_are_taken_out() {
    let p = |request, reply| PassportProxy { request, delegate: request + 100, reply };
    let mut pending =
        vec![p(1, None), p(2, Some(None)), p(3, Some(Some(vec![9]))), p(4, None)];
    let done = drive_passport(&mut pending);
    assert_eq!(done.iter().map(|d| d.request).collect::<Vec<_>>(), vec![2, 3]);
    assert_eq!(done[1].reply, Some(Some(vec![9])));
    assert_eq!(pending.iter().map(|d| d.request).collect::<Vec<_>>(), vec![1, 4]);
    assert!(drive_passport(&mut pending).is_empty());
}

#[test]
fn fetched_replies_are_kept_by_request() {
    let mut replies = vec![(1, vec![1]), (2, vec![2]), (1, vec![3])];
    assert_eq!(fetched_reply(&replies, 1), Some(vec![1]));
    assert_eq!(fetched_reply(&replies, 3), None);
    forget_reply(&mut replies, 1);
    assert_eq!(replies, vec![(2, vec![2])]);
}

#[test]
fn the_connection_is_displayed() {
    let mut traffic = CheatState::new().login.traffic;
    traffic.sent = 5;
    traffic.received = 3;
    traffic.rtt_ms = 42;
    let facts =
        HudFacts { mimi: 10001, state: Some(7), map: MapAtServer::Village(12), fresh_login: 1 };
    assert_eq!(update_debug_hud(false, true, &facts, &mut traffic), None);
    assert_eq!(update_debug_hud(true, false, &facts, &mut traffic), None);
    assert_eq!(traffic.map_count, -99);
    assert_eq!(
        update_debug_hud(true, true, &facts, &mut traffic).unwrap(),
        "[摩尔私服 DEBUG]\n米米号 10001\n状态 在线就绪 (7)\n延迟 42 ms\n发包 5  收包 3\n在途/丢 2\n地图 12  B409 1"
    );
    assert_eq!(traffic.map_count, 12);
    let facts = HudFacts { mimi: 1, state: None, map: MapAtServer::Strange, fresh_login: 0 };
    traffic.received = 9;
    assert_eq!(
        update_debug_hud(true, true, &facts, &mut traffic).unwrap(),
        "[摩尔私服 DEBUG]\n米米号 1\n状态 ? (-1)\n延迟 42 ms\n发包 5  收包 9\n在途/丢 0\n地图 -2  B409 0"
    );
}

#[test]
fn texts_are_compared_and_written() {
    assert!(starts_with("showMoreGame", "show") && !starts_with("sho", "show"));
    assert!(ends_with("aInNewScene:", "InNewScene:") && !ends_with("x", "xx"));
    assert!(contains_text("abcabd", "abd") && !contains_text("abcab", "abd"));
    assert!(contains_text("", "") && contains_text("a", ""));
    let mut s = String::new();
    push_decimal(&mut s, 0);
    push_signed(&mut s, -120);
    push_signed(&mut s, i64::MIN);
    push_decimal(&mut s, u64::MAX);
    assert_eq!(s, "0-120-922337203685477580818446744073709551615");
}

#[test]
fn written_numbers_read_back() {
    for n in [0u32, 9, 10, 4294967295] {
        let mut s = String::new();
        push_decimal(&mut s, n as u64);
        assert_eq!(online_login_mimi(true, Some(&s)), Some(n));
    }
}
