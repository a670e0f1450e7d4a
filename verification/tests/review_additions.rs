use std::time::Instant;
use vendctl::discord::bot::{
    bot_cycle, enter_cycle, leave_run, on_text_frame, record_ping, BotEvent, BotStatus,
    FRAME_BUFFER_LIMIT,
};
use vendctl::web::auth::{check_session_at, start_session, SessionStore};
use vendctl::wifi::connection::ConnectRequest;
use vendctl::wifi::manager::{
    forget_network, next_network, remember_network, report_attempt, start_rejoin,
};
use vendctl::wifi::scanner::WifiNetwork;

#[test]
fn frames_are_assembled_and_read() {
    let mut b = String::new();
    assert!(on_text_frame(&mut b, "{\"op\":10,\"d\":{\"heartbeat_").is_none());
    assert_eq!(b, "{\"op\":10,\"d\":{\"heartbeat_");
    match on_text_frame(&mut b, "interval\":45000}}") {
        Some(BotEvent::Hello(45000)) => {}
        _ => panic!("expected the greeting"),
    }
    assert_eq!(b, "");
    assert!(matches!(on_text_frame(&mut b, "{\"op\":11}"), Some(BotEvent::HeartbeatAck)));
    assert!(on_text_frame(&mut b, "{\"op\":7,\"d\":null}").is_none());
    assert_eq!(b, "");
}

#[test]
fn frame_fields_of_messages_and_interactions() {
    let mut b = String::new();
    let msg = "{\"op\":0,\"t\":\"MESSAGE_CREATE\",\"d\":{\"content\":\"!ping\",\"channel_id\":\"42\",\"author\":{\"bot\":false}}}";
    match on_text_frame(&mut b, msg) {
        Some(BotEvent::Message { content, channel_id }) => assert_eq!((content.as_str(), channel_id.as_str()), ("!ping", "42")),
        _ => panic!("expected a message"),
    }
    let from_bot = "{\"op\":0,\"t\":\"MESSAGE_CREATE\",\"d\":{\"content\":\"!ping\",\"channel_id\":\"42\",\"author\":{\"bot\":true}}}";
    assert!(on_text_frame(&mut b, from_bot).is_none());
    let inter = "{\"op\":0,\"t\":\"INTERACTION_CREATE\",\"d\":{\"id\":\"9\",\"token\":\"abc\",\"data\":{\"name\":\"estado\"}}}";
    match on_text_frame(&mut b, inter) {
        Some(BotEvent::Interaction { name, id, token }) => assert_eq!((name.as_str(), id.as_str(), token.as_str()), ("estado", "9", "abc")),
        _ => panic!("expected an interaction"),
    }
    let typed_wrong = "{\"op\":\"10\"}";
    assert!(on_text_frame(&mut b, typed_wrong).is_none());
    assert_eq!(b, "");
}

#[test]
fn unreadable_frames_are_dropped_over_the_limit() {
    let mut b = String::new();
    assert!(on_text_frame(&mut b, &"x".repeat(FRAME_BUFFER_LIMIT)).is_none());
    assert_eq!(b.len(), FRAME_BUFFER_LIMIT);
    assert!(on_text_frame(&mut b, "y").is_none());
    assert_eq!(b, "");
}

#[test]
fn a_started_session_is_fresh() {
    let mut store = SessionStore::new();
    let then = Instant::now();
    start_session(&mut store, "old".to_string(), then);
    let now = Instant::now();
    start_session(&mut store, "new".to_string(), now);
    let s = store.active.as_ref().unwrap();
    assert_eq!((s.token.as_str(), s.last_seen), ("new", now));
    assert!(check_session_at(&mut store, "new", 0, now));
    assert!(!check_session_at(&mut store, "old", 0, now));
}

fn req(ssid: &str, pass: &str) -> ConnectRequest {
    ConnectRequest {
        ssid: ssid.to_string(),
        pass: pass.to_string(),
        auth_type: "WPA2Personal".to_string(),
        user: None,
        anon_identity: None,
        eap_method: None,
        phase2: None,
    }
}

fn ssids(v: &[ConnectRequest]) -> Vec<(String, String)> {
    v.iter().map(|r| (r.ssid.clone(), r.pass.clone())).collect()
}

#[test]
fn saved_network_edits() {
    let mut saved = vec![req("A", "1"), req("B", "2"), req("A", "3"), req("C", "4")];
    forget_network(&mut saved, "A");
    assert_eq!(ssids(&saved), vec![("B".to_string(), "2".to_string()), ("C".to_string(), "4".to_string())]);
    forget_network(&mut saved, "Z");
    assert_eq!(saved.len(), 2);
    remember_network(&mut saved, req("B", "new"));
    assert_eq!(ssids(&saved), vec![("C".to_string(), "4".to_string()), ("B".to_string(), "new".to_string())]);
    remember_network(&mut saved, req("D", "5"));
    assert_eq!(saved.len(), 3);
}

fn net(ssid: &str) -> WifiNetwork {
    WifiNetwork { ssid: ssid.to_string(), bssid: String::new(), rssi: 0, auth_method: String::new() }
}

#[test]
fn rejoin_stops_at_the_first_success() {
    let saved = vec![req("A", ""), req("B", ""), req("C", "")];
    let available = vec![net("C"), net("A"), net("B")];
    let mut r = start_rejoin(&saved, &available);
    assert_eq!(next_network(&mut r), Some(0));
    report_attempt(&mut r, false);
    assert_eq!(next_network(&mut r), Some(1));
    report_attempt(&mut r, true);
    assert_eq!(next_network(&mut r), None);
    assert!(r.joined);
    let mut r = start_rejoin(&saved, &[net("C")]);
    assert_eq!(next_network(&mut r), Some(2));
    report_attempt(&mut r, false);
    assert_eq!(next_network(&mut r), None);
    assert!(!r.joined);
}

#[test]
fn bot_status_per_round() {
    let mut st = BotStatus { running: true, ping_ms: 70 };
    enter_cycle(bot_cycle(false, true), &mut st);
    assert_eq!(st, BotStatus { running: false, ping_ms: 0 });
    let mut st = BotStatus { running: true, ping_ms: 70 };
    enter_cycle(bot_cycle(true, false), &mut st);
    assert_eq!(st, BotStatus { running: false, ping_ms: 0 });
    let mut st = BotStatus { running: false, ping_ms: 0 };
    enter_cycle(bot_cycle(true, true), &mut st);
    assert!(st.running);
    record_ping(&mut st, 88);
    assert_eq!(st, BotStatus { running: true, ping_ms: 88 });
    leave_run(&mut st);
    assert_eq!(st, BotStatus { running: false, ping_ms: 88 });
}
