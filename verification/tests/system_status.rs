use std::time::Instant;
use vendctl::system::{
    format_placeholders, format_uptime, get_status, reuse_answer, DeviceReadings, InternetCache,
    RadioReport, StationInfo, StatusInputs, INTERNET_CACHE_SECS,
};
use vendctl::wifi::connection::WifiMode;

fn readings(station: Option<StationInfo>, uptime: u64) -> DeviceReadings {
    DeviceReadings {
        ram_total_kb: 320,
        ram_free_kb: 120,
        ram_min_kb: 90,
        nvs_total: 630,
        nvs_used: 30,
        ping_ms: 87,
        station,
        uptime_secs: uptime,
    }
}

#[test]
fn every_placeholder_is_filled() {
    let r = readings(Some(StationInfo { rssi: -67, ssid: "Casa".to_string() }), 3661);
    let text = "RAM {{RAM_TOTAL}}/{{RAM_FREE}}/{{RAM_USED}}/{{RAM_MIN}}\\nNVS {{NVS_TOTAL}}/{{NVS_USED}}/{{NVS_FREE}} ping {{PING}} rssi {{RSSI}} ssid {{SSID}} up {{UPTIME}}";
    assert_eq!(
        format_placeholders(text, &r),
        "RAM 320/120/200/90\nNVS 630/30/600 ping 87 rssi -67 ssid Casa up 01:01:01"
    );
}

#[test]
fn disconnected_station_placeholders() {
    let r = readings(None, 59);
    assert_eq!(format_placeholders("{{SSID}} {{RSSI}} {{UPTIME}}", &r), "Desconectado 0 00:00:59");
}

#[test]
fn plain_text_is_unchanged() {
    let r = readings(None, 0);
    assert_eq!(format_placeholders("🏓 ¡Pong desde el panel web!", &r), "🏓 ¡Pong desde el panel web!");
    assert_eq!(format_placeholders("{{UNKNOWN}} {PING}", &r), "{{UNKNOWN}} {PING}");
}

#[test]
fn placeholders_repeat_and_ssid_is_filled_before_uptime() {
    let r = readings(Some(StationInfo { rssi: 5, ssid: "{{UPTIME}}".to_string() }), 7200);
    assert_eq!(format_placeholders("{{PING}}{{PING}} {{SSID}}", &r), "8787 02:00:00");
}

#[test]
fn uptime_format() {
    assert_eq!(format_uptime(0), "00:00:00");
    assert_eq!(format_uptime(3599), "00:59:59");
    assert_eq!(format_uptime(360000), "100:00:00");
    assert_eq!(format_uptime(86399), "23:59:59");
}

fn inputs(radio: Option<RadioReport>) -> StatusInputs {
    StatusInputs {
        radio,
        discord_enabled: true,
        discord_running: false,
        discord_ping: 12,
        ram_total: 300000,
        ram_free: 100000,
        nvs_total: 630,
        nvs_used: 40,
    }
}

#[test]
fn status_connected_with_access_point() {
    let s = get_status(&inputs(Some(RadioReport {
        connected: true,
        mode: Some(WifiMode::Mixed { client_ssid: "Casa".to_string(), ap_ssid: "ESP32-Panel".to_string() }),
        rssi: Some(-50),
        internet: true,
    })));
    assert!(s.wifi_connected && s.has_internet && s.ap_enabled);
    assert_eq!(s.wifi_ssid, "Casa");
    assert_eq!(s.ap_ssid, "ESP32-Panel");
    assert_eq!(s.wifi_rssi, -50);
    assert!(s.discord_enabled && !s.discord_running);
    assert_eq!((s.discord_ping, s.ram_total, s.ram_free, s.nvs_total, s.nvs_used), (12, 300000, 100000, 630, 40));
}

#[test]
fn status_disconnected_client() {
    let s = get_status(&inputs(Some(RadioReport {
        connected: false,
        mode: Some(WifiMode::Client { ssid: "Casa".to_string() }),
        rssi: Some(-50),
        internet: true,
    })));
    assert!(!s.wifi_connected && !s.has_internet && !s.ap_enabled);
    assert_eq!(s.wifi_ssid, "Desconectado");
    assert_eq!(s.ap_ssid, "Desactivada");
    assert_eq!(s.wifi_rssi, 0);
}

#[test]
fn status_access_point_only_and_no_radio() {
    let s = get_status(&inputs(Some(RadioReport {
        connected: false,
        mode: Some(WifiMode::AccessPoint { ssid: "ESP32".to_string() }),
        rssi: None,
        internet: false,
    })));
    assert!(s.ap_enabled);
    assert_eq!(s.ap_ssid, "ESP32");
    let s = get_status(&inputs(None));
    assert!(!s.wifi_connected && !s.ap_enabled);
    assert_eq!(s.wifi_ssid, "Desconectado");
    assert_eq!(s.ap_ssid, "Desactivada");
}

#[test]
fn internet_answer_is_reused_for_ten_seconds() {
    assert_eq!(INTERNET_CACHE_SECS, 10);
    assert_eq!(reuse_answer(Some(true), 0), Some(true));
    assert_eq!(reuse_answer(Some(false), 9), Some(false));
    assert_eq!(reuse_answer(Some(true), 10), None);
    assert_eq!(reuse_answer(None, 0), None);
    let mut cache = InternetCache::new();
    let now = Instant::now();
    assert_eq!(cache.answer_at(&now), None);
    cache.record(true, now);
    assert_eq!(cache.answer_at(&now), Some(true));
    let later = now + std::time::Duration::from_secs(11);
    assert_eq!(cache.answer_at(&later), None);
    let soon = now + std::time::Duration::from_secs(3);
    assert_eq!(cache.answer_at(&soon), Some(true));
}
