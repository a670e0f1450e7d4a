use vendctl::web::auth::{login, SessionStore};
use vendctl::web::init::{basic_login_reply, basic_route, BasicRoute};
use vendctl::web::server::{
    ap_status_reply, check_credentials, get_session_token, handle_login, handle_logout,
    is_authorized, reason_phrase, refuse_unless_authorized, reply_connecting,
    reply_discord_saved, reply_forgotten, reply_json, reply_outcome, requires_session, route,
    serve_page, Asset, ContentType, HttpMethod, Reply, ReplyBody, Route,
};

fn body_text(r: &Reply) -> Option<String> {
    match &r.body {
        ReplyBody::Text(t) => Some(t.clone()),
        _ => None,
    }
}

#[test]
fn session_token_from_cookie_header() {
    assert_eq!(get_session_token(None), None);
    assert_eq!(get_session_token(Some("session_id=abc")), Some("abc".to_string()));
    assert_eq!(get_session_token(Some("theme=dark; session_id=xyz")), Some("xyz".to_string()));
    assert_eq!(get_session_token(Some("  session_id=tok  ;x=y")), Some("tok".to_string()));
    assert_eq!(get_session_token(Some("session_id=a=b")), None);
    assert_eq!(get_session_token(Some("session_id")), None);
    assert_eq!(get_session_token(Some("SESSION_ID=abc")), None);
    assert_eq!(get_session_token(Some("session_id=; session_id=two")), Some("".to_string()));
    assert_eq!(get_session_token(Some("a=1; session_id=first; session_id=second")), Some("first".to_string()));
}

#[test]
fn login_cookie_comes_back() {
    let mut store = SessionStore::new();
    let reply = handle_login(&mut store, b"{\"user\":\"admin\",\"pass\":\"12345\"}");
    assert_eq!(reply.status, 200);
    let cookie = reply.set_cookie.clone().unwrap();
    let token = store.active.as_ref().unwrap().token.clone();
    assert_eq!(cookie, format!("session_id={}; HttpOnly; Path=/", token));
    let sent_back = format!("session_id={}", token);
    assert!(is_authorized(&mut store, Some(&sent_back)));
    assert!(!is_authorized(&mut store, None));
    assert!(!is_authorized(&mut store, Some("session_id=forged")));
}

#[test]
fn login_refused_without_credentials() {
    let mut store = SessionStore::new();
    let reply = handle_login(&mut store, b"user=admin&pass=wrong");
    assert_eq!(reply.status, 401);
    assert_eq!(reply.content_type, Some(ContentType::Html));
    assert!(reply.set_cookie.is_none());
    assert_eq!(
        body_text(&reply).unwrap(),
        "<script>alert('Credenciales incorrectas'); window.location.href='/login';</script>"
    );
    assert!(store.active.is_none());
}

#[test]
fn credentials_read_through_invalid_utf8() {
    assert!(check_credentials(b"\xff\xfeadmin\xc3 12345"));
    assert!(!check_credentials(b"admi\xffn 12345"));
    assert!(!check_credentials(b""));
}

#[test]
fn login_success_page() {
    let mut store = SessionStore::new();
    let reply = handle_login(&mut store, b"admin 12345");
    assert_eq!(reply.content_type, Some(ContentType::Html));
    assert_eq!(
        body_text(&reply).unwrap(),
        "<meta http-equiv='refresh' content='0; url=/dashboard' /><script>window.location.href='/dashboard';</script>"
    );
}

#[test]
fn logout_clears_cookie_and_session() {
    let mut store = SessionStore::new();
    let t = login(&mut store);
    let header = format!("session_id={}", t);
    let reply = handle_logout(&mut store, Some(&header));
    assert!(store.active.is_none());
    assert_eq!(reply.status, 302);
    assert_eq!(reply.location.as_deref(), Some("/login"));
    assert_eq!(reply.set_cookie.as_deref(), Some("session_id=; HttpOnly; Path=/; Max-Age=0"));
    assert!(matches!(reply.body, ReplyBody::Empty));
}

#[test]
fn logout_with_foreign_cookie_keeps_session() {
    let mut store = SessionStore::new();
    let t = login(&mut store);
    let reply = handle_logout(&mut store, Some("session_id=other"));
    assert_eq!(store.active.as_ref().unwrap().token, t);
    assert_eq!(reply.status, 302);
    let _ = handle_logout(&mut store, None);
    assert_eq!(store.active.as_ref().unwrap().token, t);
}

#[test]
fn route_table() {
    assert_eq!(route(HttpMethod::Get, "/"), Some(Route::Root));
    assert_eq!(route(HttpMethod::Get, "/login"), Some(Route::LoginPage));
    assert_eq!(route(HttpMethod::Get, "/dashboard"), Some(Route::Dashboard));
    assert_eq!(route(HttpMethod::Get, "/css/style.css"), Some(Route::File(Asset::StyleCss)));
    assert_eq!(route(HttpMethod::Get, "/js/auth.js"), Some(Route::File(Asset::AuthJs)));
    assert_eq!(route(HttpMethod::Get, "/js/ui.js"), Some(Route::File(Asset::UiJs)));
    assert_eq!(route(HttpMethod::Get, "/js/wifi.js"), Some(Route::File(Asset::WifiJs)));
    assert_eq!(route(HttpMethod::Get, "/js/discord.js"), Some(Route::File(Asset::DiscordJs)));
    assert_eq!(route(HttpMethod::Get, "/js/system.js"), Some(Route::File(Asset::SystemJs)));
    assert_eq!(route(HttpMethod::Post, "/api/login"), Some(Route::ApiLogin));
    assert_eq!(route(HttpMethod::Get, "/api/system/status"), Some(Route::SystemStatus));
    assert_eq!(route(HttpMethod::Get, "/api/wifi/scan"), Some(Route::WifiScan));
    assert_eq!(route(HttpMethod::Post, "/api/wifi/connect"), Some(Route::WifiConnect));
    assert_eq!(route(HttpMethod::Get, "/api/wifi/saved"), Some(Route::WifiSaved));
    assert_eq!(route(HttpMethod::Post, "/api/wifi/forget"), Some(Route::WifiForget));
    assert_eq!(route(HttpMethod::Get, "/api/wifi/ap-status"), Some(Route::ApStatus));
    assert_eq!(route(HttpMethod::Post, "/api/wifi/ap-toggle"), Some(Route::ApToggle));
    assert_eq!(route(HttpMethod::Get, "/api/wifi/ap-config"), Some(Route::ApConfigGet));
    assert_eq!(route(HttpMethod::Post, "/api/wifi/ap-config"), Some(Route::ApConfigSet));
    assert_eq!(route(HttpMethod::Get, "/api/discord/config"), Some(Route::DiscordConfigGet));
    assert_eq!(route(HttpMethod::Post, "/api/discord/config"), Some(Route::DiscordConfigSet));
    assert_eq!(route(HttpMethod::Post, "/api/logout"), Some(Route::Logout));
    assert_eq!(route(HttpMethod::Post, "/login"), None);
    assert_eq!(route(HttpMethod::Get, "/api/login"), None);
    assert_eq!(route(HttpMethod::Put, "/"), None);
    assert_eq!(route(HttpMethod::Get, "/nope"), None);
}

#[test]
fn unauthorized_requests_are_refused() {
    let r = refuse_unless_authorized(Route::Dashboard, false).unwrap();
    assert_eq!(r.status, 302);
    assert_eq!(r.location.as_deref(), Some("/login"));
    let r = refuse_unless_authorized(Route::WifiScan, false).unwrap();
    assert_eq!(r.status, 401);
    assert_eq!(body_text(&r).unwrap(), "Sesion expirada");
    let r = refuse_unless_authorized(Route::DiscordConfigSet, false).unwrap();
    assert_eq!(r.status, 401);
    assert_eq!(body_text(&r).unwrap(), "");
    assert!(refuse_unless_authorized(Route::WifiScan, true).is_none());
    assert!(refuse_unless_authorized(Route::LoginPage, false).is_none());
    assert!(refuse_unless_authorized(Route::Logout, false).is_none());
    assert!(!requires_session(Route::File(Asset::UiJs)));
    assert!(requires_session(Route::ApToggle));
}

#[test]
fn pages_and_files() {
    let r = serve_page(Route::Root).unwrap();
    assert_eq!((r.status, r.location.as_deref()), (302, Some("/login")));
    let r = serve_page(Route::LoginPage).unwrap();
    assert_eq!(r.content_type, Some(ContentType::Html));
    assert!(matches!(r.body, ReplyBody::File(Asset::LoginHtml)));
    let r = serve_page(Route::Dashboard).unwrap();
    assert!(matches!(r.body, ReplyBody::File(Asset::DashboardHtml)));
    let r = serve_page(Route::File(Asset::StyleCss)).unwrap();
    assert_eq!(r.content_type, Some(ContentType::Css));
    let r = serve_page(Route::File(Asset::SystemJs)).unwrap();
    assert_eq!(r.content_type, Some(ContentType::JavaScript));
    assert!(serve_page(Route::WifiScan).is_none());
}

#[test]
fn api_answers() {
    assert_eq!(body_text(&ap_status_reply(true)).unwrap(), "{\"enabled\": true}");
    assert_eq!(body_text(&ap_status_reply(false)).unwrap(), "{\"enabled\": false}");
    assert_eq!(ap_status_reply(true).content_type, Some(ContentType::Json));
    assert_eq!(reply_outcome(true).status, 200);
    assert_eq!(body_text(&reply_outcome(false)).unwrap(), "Error");
    assert_eq!(reply_outcome(false).status, 500);
    assert_eq!(body_text(&reply_connecting()).unwrap(), "Connecting and saved...");
    assert_eq!(body_text(&reply_forgotten()).unwrap(), "Deleted");
    assert_eq!(reply_discord_saved(false).status, 400);
    assert_eq!(body_text(&reply_discord_saved(false)).unwrap(), "JSON Invalido o muy largo");
    assert_eq!(body_text(&reply_discord_saved(true)).unwrap(), "Guardado");
    assert_eq!(body_text(&reply_json("[]".to_string())).unwrap(), "[]");
}

#[test]
fn reason_phrases() {
    assert_eq!(reason_phrase(200), "OK");
    assert_eq!(reason_phrase(302), "Found");
    assert_eq!(reason_phrase(400), "Bad Request");
    assert_eq!(reason_phrase(401), "Unauthorized");
    assert_eq!(reason_phrase(500), "Error");
}

#[test]
fn basic_server_routes_and_login() {
    assert_eq!(basic_route(HttpMethod::Get, "/"), Some(BasicRoute::Index));
    assert_eq!(basic_route(HttpMethod::Get, "/style.css"), Some(BasicRoute::StyleCss));
    assert_eq!(basic_route(HttpMethod::Get, "/script.js"), Some(BasicRoute::ScriptJs));
    assert_eq!(basic_route(HttpMethod::Post, "/login"), Some(BasicRoute::Login));
    assert_eq!(basic_route(HttpMethod::Get, "/login"), None);
    assert_eq!(basic_login_reply(b"{\"user\":\"admin\",\"pass\":\"1234\"}"), "LOGIN OK");
    assert_eq!(basic_login_reply(b"{\"user\":\"admin\",\"pass\":\"12345\"}"), "LOGIN ERROR");
    assert_eq!(basic_login_reply(b"{\"user\":\"admin\",\"pass\":\"1234\"}\xff"), "LOGIN ERROR");
}
