use vendctl::wifi::connection::{
    ap_settings, choose_client_auth, connect_error_message, connect_to_wifi, drop_ap_after_connect,
    get_ap_status, set_ap_status, start_wifi, update_ap_config, ApChoice, ApConfig, ApTogglePlan,
    ApUpdatePlan, AuthMethod, ConnectError, ConnectRequest, WifiMode,
};
use vendctl::wifi::manager::{manager_pause_secs, networks_to_try};
use vendctl::wifi::scanner::{format_auth, format_bssid, scan_networks, ScannedAp, WifiNetwork};

fn ap(ssid: &str, pass: &str, open: bool) -> ApConfig {
    ApConfig { ssid: ssid.to_string(), pass: pass.to_string(), open }
}

fn req(ssid: &str, pass: &str, auth: &str) -> ConnectRequest {
    ConnectRequest {
        ssid: ssid.to_string(),
        pass: pass.to_string(),
        auth_type: auth.to_string(),
        user: None,
        anon_identity: None,
        eap_method: None,
        phase2: None,
    }
}

fn client(ssid: &str) -> WifiMode {
    WifiMode::Client { ssid: ssid.to_string() }
}

fn mixed() -> WifiMode {
    WifiMode::Mixed { client_ssid: "Casa".to_string(), ap_ssid: "ESP32".to_string() }
}

#[test]
fn access_point_settings_from_storage() {
    let s = ap_settings(&ap("ESP32-Panel", "secreto123", false), None);
    assert_eq!((s.ssid.as_str(), s.password.as_str(), s.auth, s.max_connections), ("ESP32-Panel", "secreto123", AuthMethod::WPA2Personal, None));
    let s = ap_settings(&ap("ESP32-Panel", "secreto123", true), None);
    assert_eq!((s.password.as_str(), s.auth), ("", AuthMethod::NoAuth));
    let long_name = "n".repeat(33);
    let long_pass = "p".repeat(65);
    let s = ap_settings(&ap(&long_name, &long_pass, false), None);
    assert_eq!((s.ssid.as_str(), s.password.as_str()), ("", ""));
    let s = ap_settings(&ap(&"ñ".repeat(16), &"p".repeat(64), false), None);
    assert_eq!(s.ssid, "ñ".repeat(16));
    assert_eq!(s.password, "p".repeat(64));
    let s = ap_settings(&ap(&"ñ".repeat(17), "x", false), None);
    assert_eq!(s.ssid, "");
    let s = start_wifi(&ap("ESP32", "12345678", false));
    assert_eq!(s.max_connections, Some(4));
}

#[test]
fn client_authentication() {
    assert_eq!(choose_client_auth("WPA2 Enterprise", ""), AuthMethod::WPA2Enterprise);
    assert_eq!(choose_client_auth("WPA2Personal", ""), AuthMethod::NoAuth);
    assert_eq!(choose_client_auth("None", "pw"), AuthMethod::NoAuth);
    assert_eq!(choose_client_auth("Open", "pw"), AuthMethod::NoAuth);
    assert_eq!(choose_client_auth("open", "pw"), AuthMethod::WPA2Personal);
    assert_eq!(choose_client_auth("WPA2Personal", "pw"), AuthMethod::WPA2Personal);
}

#[test]
fn joining_keeps_a_running_access_point() {
    let plan = connect_to_wifi(&mixed(), &ap("Saved", "pw123456", false), &req("Casa", "clave", "WPA2Personal")).ok().unwrap();
    assert_eq!((plan.client.ssid.as_str(), plan.client.password.as_str(), plan.client.auth), ("Casa", "clave", AuthMethod::WPA2Personal));
    assert!(matches!(plan.ap, ApChoice::KeepCurrent));
}

#[test]
fn joining_from_station_uses_stored_access_point() {
    let plan = connect_to_wifi(&client("Old"), &ap("Saved", "pw123456", false), &req("Casa", "", "WPA2Personal")).ok().unwrap();
    assert_eq!(plan.client.auth, AuthMethod::NoAuth);
    match plan.ap {
        ApChoice::New(a) => assert_eq!((a.ssid.as_str(), a.password.as_str(), a.auth), ("Saved", "pw123456", AuthMethod::WPA2Personal)),
        ApChoice::KeepCurrent => panic!("expected the stored access point"),
    }
}

#[test]
fn joining_refuses_long_names_and_passwords() {
    let e = connect_to_wifi(&client("x"), &ap("a", "b", true), &req(&"s".repeat(33), &"p".repeat(65), "WPA2")).err().unwrap();
    assert_eq!(e, ConnectError::SsidTooLong);
    assert_eq!(connect_error_message(e), "SSID demasiado largo");
    let e = connect_to_wifi(&client("x"), &ap("a", "b", true), &req("ok", &"p".repeat(65), "WPA2")).err().unwrap();
    assert_eq!(e, ConnectError::PasswordTooLong);
    assert_eq!(connect_error_message(e), "Contraseña demasiado larga");
    assert!(connect_to_wifi(&client("x"), &ap("a", "b", true), &req(&"s".repeat(32), &"p".repeat(64), "WPA2")).is_ok());
}

#[test]
fn access_point_status_and_toggle() {
    assert!(get_ap_status(&mixed()));
    assert!(get_ap_status(&WifiMode::AccessPoint { ssid: "ESP32".to_string() }));
    assert!(!get_ap_status(&client("Casa")));
    assert!(!get_ap_status(&WifiMode::Unconfigured));
    assert!(drop_ap_after_connect(&mixed()));
    assert!(!drop_ap_after_connect(&client("Casa")));
    let saved = ap("ESP32", "pw123456", false);
    assert!(matches!(set_ap_status(&mixed(), &saved, false), ApTogglePlan::ClientOnly));
    assert!(matches!(set_ap_status(&mixed(), &saved, true), ApTogglePlan::Unchanged));
    assert!(matches!(set_ap_status(&client("Casa"), &saved, false), ApTogglePlan::Unchanged));
    match set_ap_status(&client("Casa"), &saved, true) {
        ApTogglePlan::AddAp(a) => assert_eq!(a.ssid, "ESP32"),
        _ => panic!("expected an access point"),
    }
    let ap_only = WifiMode::AccessPoint { ssid: "ESP32".to_string() };
    assert!(matches!(set_ap_status(&ap_only, &saved, false), ApTogglePlan::Unchanged));
}

#[test]
fn access_point_update() {
    let new = ap("Nuevo", "x", true);
    assert!(matches!(update_ap_config(&client("Casa"), &new), ApUpdatePlan::WithClient(_)));
    assert!(matches!(update_ap_config(&mixed(), &new), ApUpdatePlan::WithClient(_)));
    match update_ap_config(&WifiMode::AccessPoint { ssid: "ESP32".to_string() }, &new) {
        ApUpdatePlan::ApOnly(a) => assert_eq!((a.ssid.as_str(), a.auth), ("Nuevo", AuthMethod::NoAuth)),
        _ => panic!("expected access point only"),
    }
    assert!(matches!(update_ap_config(&WifiMode::Unconfigured, &new), ApUpdatePlan::Unchanged));
}

#[test]
fn scanned_networks_as_listed() {
    let aps = vec![
        ScannedAp { ssid: "Casa".to_string(), bssid: [0x00, 0x1a, 0x2B, 0xff, 0x09, 0xa0], signal_strength: -42, auth_method: Some(AuthMethod::WPA2Personal) },
        ScannedAp { ssid: "Libre".to_string(), bssid: [1, 2, 3, 4, 5, 6], signal_strength: -80, auth_method: None },
    ];
    let nets = scan_networks(&aps);
    assert_eq!(nets.len(), 2);
    assert_eq!(nets[0].ssid, "Casa");
    assert_eq!(nets[0].bssid, "00:1A:2B:FF:09:A0");
    assert_eq!(nets[0].rssi, -42);
    assert_eq!(nets[0].auth_method, "Some(WPA2Personal)");
    assert_eq!(nets[1].auth_method, "None");
    assert_eq!(format_bssid(&[0xde, 0xad, 0xbe, 0xef, 0x00, 0x01]), "DE:AD:BE:EF:00:01");
    assert_eq!(format_auth(Some(AuthMethod::NoAuth)), "Some(None)");
    assert_eq!(format_auth(Some(AuthMethod::WPA2WPA3Personal)), "Some(WPA2WPA3Personal)");
}

fn net(ssid: &str) -> WifiNetwork {
    WifiNetwork { ssid: ssid.to_string(), bssid: String::new(), rssi: 0, auth_method: String::new() }
}

#[test]
fn manager_tries_saved_networks_in_range_in_order() {
    let saved = vec![req("A", "", "None"), req("B", "", "None"), req("C", "", "None"), req("B", "x", "WPA2")];
    let available = vec![net("C"), net("B"), net("Z")];
    assert_eq!(networks_to_try(&saved, &available), vec![1, 2, 3]);
    assert_eq!(networks_to_try(&saved, &[]), Vec::<usize>::new());
    assert_eq!(networks_to_try(&[], &available), Vec::<usize>::new());
    assert_eq!(manager_pause_secs(true, false), 30);
    assert_eq!(manager_pause_secs(false, true), 15);
    assert_eq!(manager_pause_secs(false, false), 10);
}
