use vendctl::discord::bot::{
    append_fragment, authorization, bot_cycle, content_length, gateway_step, handle_slash_command,
    handle_text_command, identify_message, process_discord_event, register_slash_commands,
    settle_buffer, slash_command_name, BotCycle, BotEvent, GatewayAction, GatewayInput,
    GatewayPayload, GatewaySession, HttpRequest, DEFAULT_HEARTBEAT_MS, FRAME_BUFFER_LIMIT,
};
use vendctl::discord::storage::{discord_wanted, get_config, CustomCommand, DiscordConfig, SlashCommand};
use vendctl::system::{DeviceReadings, StationInfo};
use vendctl::web::server::HttpMethod;

fn payload(op: Option<u64>) -> GatewayPayload {
    GatewayPayload {
        op,
        heartbeat_interval: None,
        event_type: None,
        author_bot: None,
        content: None,
        channel_id: None,
        command_name: None,
        interaction_id: None,
        interaction_token: None,
    }
}

fn readings() -> DeviceReadings {
    DeviceReadings {
        ram_total_kb: 300,
        ram_free_kb: 100,
        ram_min_kb: 80,
        nvs_total: 500,
        nvs_used: 20,
        ping_ms: 45,
        station: Some(StationInfo { rssi: -60, ssid: "Casa".to_string() }),
        uptime_secs: 125,
    }
}

fn config() -> DiscordConfig {
    let mut c = DiscordConfig::default();
    c.enabled = true;
    c.token = "tok".to_string();
    c.app_id = "123".to_string();
    c.custom_commands.push(CustomCommand { trigger: "  !Estado ".to_string(), response: "RAM {{RAM_FREE}} KB\\nping {{PING}}".to_string() });
    c.custom_commands.push(CustomCommand { trigger: "!estado".to_string(), response: "second".to_string() });
    c.slash_commands.push(SlashCommand { trigger: "/Mi Estado".to_string(), response: "up {{UPTIME}}".to_string(), is_app_cmd: true });
    c.slash_commands.push(SlashCommand { trigger: "/ /".to_string(), response: "ignored".to_string(), is_app_cmd: false });
    c.slash_commands.push(SlashCommand { trigger: "ping".to_string(), response: "say \"pong\"".to_string(), is_app_cmd: false });
    c
}

#[test]
fn default_configuration() {
    let c = DiscordConfig::default();
    assert!(!c.enabled);
    assert_eq!(c.token, "");
    assert_eq!(c.app_id, "");
    assert_eq!(c.custom_commands.len(), 1);
    assert_eq!(c.custom_commands[0].trigger, "!ping");
    assert_eq!(c.custom_commands[0].response, "🏓 ¡Pong desde el panel web!");
    assert!(c.slash_commands.is_empty());
    assert_eq!(get_config(None).custom_commands[0].trigger, "!ping");
    assert_eq!(get_config(Some(config())).token, "tok");
    assert!(discord_wanted(&config()));
    let mut off = config();
    off.token = String::new();
    assert!(!discord_wanted(&off));
    assert!(!discord_wanted(&DiscordConfig::default()));
}

#[test]
fn gateway_events() {
    let mut p = payload(Some(10));
    p.heartbeat_interval = Some(45000);
    assert!(matches!(process_discord_event(&p), Some(BotEvent::Hello(45000))));
    let p = payload(Some(10));
    assert!(matches!(process_discord_event(&p), Some(BotEvent::Hello(DEFAULT_HEARTBEAT_MS))));
    assert_eq!(DEFAULT_HEARTBEAT_MS, 41250);
    assert!(matches!(process_discord_event(&payload(Some(11))), Some(BotEvent::HeartbeatAck)));
    assert!(process_discord_event(&payload(Some(1))).is_none());
    assert!(process_discord_event(&payload(None)).is_none());

    let mut m = payload(Some(0));
    m.event_type = Some("MESSAGE_CREATE".to_string());
    m.content = Some("!ping".to_string());
    m.channel_id = Some("42".to_string());
    match process_discord_event(&m) {
        Some(BotEvent::Message { content, channel_id }) => assert_eq!((content.as_str(), channel_id.as_str()), ("!ping", "42")),
        _ => panic!("expected a message"),
    }
    m.author_bot = Some(true);
    assert!(process_discord_event(&m).is_none());
    m.author_bot = Some(false);
    m.content = None;
    match process_discord_event(&m) {
        Some(BotEvent::Message { content, .. }) => assert_eq!(content, ""),
        _ => panic!("expected a message"),
    }

    let mut i = payload(Some(0));
    i.event_type = Some("INTERACTION_CREATE".to_string());
    i.command_name = Some("estado".to_string());
    i.interaction_id = Some("9".to_string());
    i.interaction_token = Some("abc".to_string());
    i.author_bot = Some(true);
    match process_discord_event(&i) {
        Some(BotEvent::Interaction { name, id, token }) => assert_eq!((name.as_str(), id.as_str(), token.as_str()), ("estado", "9", "abc")),
        _ => panic!("expected an interaction"),
    }
    let mut other = payload(Some(0));
    other.event_type = Some("READY".to_string());
    assert!(process_discord_event(&other).is_none());
}

#[test]
fn frame_buffer() {
    let mut b = String::new();
    append_fragment(&mut b, "{\"op\":");
    append_fragment(&mut b, "11}");
    assert_eq!(b, "{\"op\":11}");
    settle_buffer(&mut b, true);
    assert_eq!(b, "");
    append_fragment(&mut b, "{\"op\":");
    settle_buffer(&mut b, false);
    assert_eq!(b, "{\"op\":");
    let mut big = "x".repeat(FRAME_BUFFER_LIMIT + 1);
    settle_buffer(&mut big, false);
    assert_eq!(big, "");
    let mut at_limit = "x".repeat(FRAME_BUFFER_LIMIT);
    settle_buffer(&mut at_limit, false);
    assert_eq!(at_limit.len(), FRAME_BUFFER_LIMIT);
}

#[test]
fn identify_and_heartbeat_messages() {
    let msg = identify_message("a\"b\\c\nd\u{1}");
    assert_eq!(
        msg,
        "{\"d\":{\"intents\":33281,\"properties\":{\"browser\":\"esp-bot\",\"device\":\"esp32\",\"os\":\"esp32\"},\"token\":\"a\\\"b\\\\c\\nd\\u0001\"},\"op\":2}"
    );
    let mut props = serde_json::Map::new();
    props.insert("os".to_string(), serde_json::Value::from("esp32"));
    props.insert("browser".to_string(), serde_json::Value::from("esp-bot"));
    props.insert("device".to_string(), serde_json::Value::from("esp32"));
    let mut d = serde_json::Map::new();
    d.insert("token".to_string(), serde_json::Value::from("a\"b\\c\nd\u{1}"));
    d.insert("intents".to_string(), serde_json::Value::from(33281));
    d.insert("properties".to_string(), serde_json::Value::Object(props));
    let mut top = serde_json::Map::new();
    top.insert("op".to_string(), serde_json::Value::from(2));
    top.insert("d".to_string(), serde_json::Value::Object(d));
    assert_eq!(msg, serde_json::Value::Object(top).to_string());
}

#[test]
fn heartbeat_schedule() {
    let mut s = GatewaySession::new();
    assert_eq!((s.hb_interval, s.ticks), (41, 0));
    match gateway_step(&mut s, GatewayInput::Event(BotEvent::Hello(5000)), "tok") {
        GatewayAction::Identify(m) => assert!(m.ends_with("\"token\":\"tok\"},\"op\":2}")),
        _ => panic!("expected identify"),
    }
    assert_eq!(s.hb_interval, 3);
    assert!(matches!(gateway_step(&mut s, GatewayInput::Timeout, "tok"), GatewayAction::Wait));
    assert!(matches!(gateway_step(&mut s, GatewayInput::Timeout, "tok"), GatewayAction::Wait));
    match gateway_step(&mut s, GatewayInput::Timeout, "tok") {
        GatewayAction::Heartbeat(m) => assert_eq!(m, "{\"d\":null,\"op\":1}"),
        _ => panic!("expected a heartbeat"),
    }
    assert_eq!(s.ticks, 0);
    assert!(matches!(gateway_step(&mut s, GatewayInput::Event(BotEvent::HeartbeatAck), "tok"), GatewayAction::RecordPing));
    assert!(matches!(gateway_step(&mut s, GatewayInput::Closed, "tok"), GatewayAction::Stop));
    let a = gateway_step(&mut s, GatewayInput::Event(BotEvent::Message { content: "hi".to_string(), channel_id: "1".to_string() }), "tok");
    assert!(matches!(a, GatewayAction::HandleText { .. }));
    let mut s = GatewaySession::new();
    gateway_step(&mut s, GatewayInput::Event(BotEvent::Hello(41250)), "tok");
    assert_eq!(s.hb_interval, 39);
}

fn request_parts(r: &HttpRequest) -> (HttpMethod, String, String, String) {
    (r.method, r.url.clone(), r.body.clone(), r.bot_token.clone())
}

#[test]
fn text_command_reply() {
    let r = handle_text_command("  !ESTADO\n", "777", &config(), &readings()).unwrap();
    assert_eq!(
        request_parts(&r),
        (HttpMethod::Post, "https://discord.com/api/v10/channels/777/messages".to_string(), "{\"content\":\"RAM 100 KB\\nping 45\"}".to_string(), "tok".to_string())
    );
    assert_eq!(authorization(&r), "Bot tok");
    assert_eq!(content_length(&r), r.body.len().to_string());
    assert!(handle_text_command("!nada", "777", &config(), &readings()).is_none());
    let r = handle_text_command("!PING", "5", &config(), &readings()).unwrap();
    assert_eq!(r.body, "{\"content\":\"🏓 ¡Pong desde el panel web!\"}");
}

#[test]
fn slash_command_reply() {
    assert_eq!(slash_command_name("/Mi Estado"), "miestado");
    assert_eq!(slash_command_name("/ /"), "");
    let r = handle_slash_command("miestado", "9", "abc", &config(), &readings()).unwrap();
    assert_eq!(
        request_parts(&r),
        (HttpMethod::Post, "https://discord.com/api/v10/interactions/9/abc/callback".to_string(), "{\"data\":{\"content\":\"up 00:02:05\"},\"type\":4}".to_string(), "tok".to_string())
    );
    let r = handle_slash_command("ping", "1", "t", &config(), &readings()).unwrap();
    assert_eq!(r.body, "{\"data\":{\"content\":\"say \\\"pong\\\"\"},\"type\":4}");
    assert!(handle_slash_command("Ping", "1", "t", &config(), &readings()).is_none());
}

#[test]
fn slash_command_registration() {
    let r = register_slash_commands(&config());
    assert_eq!(r.method, HttpMethod::Put);
    assert_eq!(r.url, "https://discord.com/api/v10/applications/123/commands");
    assert_eq!(
        r.body,
        "[{\"contexts\":[0,1,2],\"description\":\"Comando ESP32\",\"integration_types\":[0,1],\"name\":\"miestado\",\"type\":1},{\"contexts\":[0,1,2],\"description\":\"Comando ESP32\",\"integration_types\":[0],\"name\":\"ping\",\"type\":1}]"
    );
    let r = register_slash_commands(&DiscordConfig::default());
    assert_eq!(r.body, "[]");
}

#[test]
fn supervising_loop_rounds() {
    assert_eq!(bot_cycle(false, true), BotCycle::Idle);
    assert_eq!(bot_cycle(true, false), BotCycle::Offline);
    assert_eq!(bot_cycle(true, true), BotCycle::Run);
}
