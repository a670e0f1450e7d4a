//! The control panel's HTTP routes: which request goes where, who may see it, and
//! what is answered.
use vstd::prelude::*;

use crate::text::{
    contains, is_white_space, lacks, split_char, split_chars, str_contains, to_chars, trim,
    trim_chars, trim_end, trim_start, views, chars_eq, str_eq,
};
use crate::web::auth::{
    check_outcome, is_token_text, is_valid_session, login, logout, logout_outcome, token_prefix,
    token_text, SessionStore,
};

verus! {

// ---------------------------------------------------------------------------
// Session cookie
// ---------------------------------------------------------------------------

/// The name of the session cookie.
pub open spec fn cookie_name() -> Seq<char> {
    seq!['s', 'e', 's', 's', 'i', 'o', 'n', '_', 'i', 'd']
}

/// The session token carried by one `;`-separated part of a `Cookie` header: the
/// part, trimmed, must be exactly `session_id=<value>` with a single `=`.
pub open spec fn session_in_part(part: Seq<char>) -> Option<Seq<char>> {
    let kv = split_char(trim(part), '=');
    if kv.len() == 2 && kv[0] == cookie_name() {
        Some(kv[1])
    } else {
        None
    }
}

/// The session token of the first part that carries one.
pub open spec fn first_session(parts: Seq<Seq<char>>) -> Option<Seq<char>>
    decreases parts.len(),
{
    if parts.len() == 0 {
        None
    } else {
        match session_in_part(parts[0]) {
            Some(v) => Some(v),
            None => first_session(parts.skip(1)),
        }
    }
}

/// The session token that a `Cookie` header carries.
pub open spec fn session_from_cookie(header: Seq<char>) -> Option<Seq<char>> {
    first_session(split_char(header, ';'))
}

/// The session token of the request whose `Cookie` header is `header` (absent when
/// the request has no such header).
pub open spec fn request_session(header: Option<Seq<char>>) -> Option<Seq<char>> {
    match header {
        Some(h) => session_from_cookie(h),
        None => None,
    }
}

/// The characters of a header value, if the header is present.
pub open spec fn header_seq(h: Option<&str>) -> Option<Seq<char>> {
    match h {
        Some(v) => Some(v@),
        None => None,
    }
}

fn cookie_name_chars() -> (v: Vec<char>)
    ensures
        v@ == cookie_name(),
{
    proof {
        reveal_strlit("session_id");
    }
    let v = to_chars("session_id");
    assert(v@ =~= cookie_name());
    v
}

fn session_in_part_exec(part: &[char], name: &[char]) -> (r: Option<Vec<char>>)
    requires
        name@ == cookie_name(),
    ensures
        match r {
            Some(v) => session_in_part(part@) == Some(v@),
            None => session_in_part(part@) is None,
        },
{
    let t = trim_chars(part);
    let mut kv = split_chars(t.as_slice(), '=');
    if kv.len() == 2 && chars_eq(kv[0].as_slice(), name) {
        let v = kv.pop().unwrap();
        assert(views(kv@).len() == 1);
        Some(v)
    } else {
        proof {
            if kv.len() == 2 {
                assert(views(kv@)[0] == kv@[0]@);
            }
        }
        None
    }
}

/// The session token carried by a request's `Cookie` header, if any.
pub fn get_session_token(cookie_header: Option<&str>) -> (token: Option<String>)
    ensures
        match token {
            Some(t) => request_session(header_seq(cookie_header)) == Some(t@),
            None => request_session(header_seq(cookie_header)) is None,
        },
{
    let header = match cookie_header {
        Some(h) => h,
        None => {
            return None;
        },
    };
    let hv = to_chars(header);
    let parts = split_chars(hv.as_slice(), ';');
    let name = cookie_name_chars();
    let ghost all = views(parts@);
    assert(header_seq(cookie_header) == Some(header@));
    let mut i: usize = 0;
    assert(all.skip(0) =~= all);
    while i < parts.len()
        invariant
            i <= parts.len(),
            all == views(parts@),
            all == split_char(header@, ';'),
            name@ == cookie_name(),
            header_seq(cookie_header) == Some(header@),
            first_session(all.skip(i as int)) == session_from_cookie(header@),
        decreases parts.len() - i,
    {
        assert(all.skip(i as int)[0] == parts@[i as int]@);
        assert(all.skip(i as int).skip(1) =~= all.skip(i + 1));
        match session_in_part_exec(parts[i].as_slice(), name.as_slice()) {
            Some(v) => {
                let s = crate::text::from_chars(v.as_slice());
                assert(all.skip(i as int).len() > 0);
                assert(first_session(all.skip(i as int)) == Some(v@));
                return Some(s);
            },
            None => {},
        }
        i = i + 1;
    }
    None
}

/// `ok` and `after` are what a check of the token `token` (if any) against the
/// active session `before` can answer and leave, for some elapsed time.
pub open spec fn checked_with(
    before: Option<Seq<char>>,
    token: Option<Seq<char>>,
    ok: bool,
    after: Option<Seq<char>>,
) -> bool {
    match token {
        None => !ok && after == before,
        Some(t) => exists|elapsed: int|
            #![trigger check_outcome(before, t, elapsed)]
            elapsed >= 0 && check_outcome(before, t, elapsed) == (ok, after),
    }
}

/// Whether the request whose `Cookie` header is `cookie_header` belongs to the
/// active session (which is then marked as used, or ended when it has expired).
pub fn is_authorized(store: &mut SessionStore, cookie_header: Option<&str>) -> (ok: bool)
    ensures
        request_session(header_seq(cookie_header)) is None ==> !ok && *final(store) == *old(store),
        checked_with(old(store)@, request_session(header_seq(cookie_header)), ok, final(store)@),
{
    match get_session_token(cookie_header) {
        Some(token) => {
            let ghost before = store@;
            let ok = is_valid_session(store, token.as_str());
            proof {
                let e = choose|e: int|
                    e >= 0 && (ok, store@) == #[trigger] check_outcome(before, token@, e);
                assert(e >= 0 && check_outcome(before, token@, e) == (ok, store@));
                assert(exists|e2: int| e2 >= 0 && check_outcome(before, token@, e2) == (ok, store@));
                let tok = Some(token@);
                assert(tok matches Some(x) && x == token@);
                assert(checked_with(before, tok, ok, store@));
                assert(request_session(header_seq(cookie_header)) == Some(token@));
            }
            ok
        },
        None => {
            assert(request_session(header_seq(cookie_header)) is None);
            false
        },
    }
}

// ---------------------------------------------------------------------------
// Routes
// ---------------------------------------------------------------------------

/// The request methods that the panel distinguishes.
#[derive(Clone, Copy, Debug, PartialEq, Eq, Structural)]
pub enum HttpMethod {
    Get,
    Post,
    Put,
    Other,
}

/// The compressed files that the panel serves.
#[derive(Clone, Copy, Debug, PartialEq, Eq, Structural)]
pub enum Asset {
    LoginHtml,
    DashboardHtml,
    StyleCss,
    AuthJs,
    UiJs,
    WifiJs,
    DiscordJs,
    SystemJs,
}

/// The handlers of the panel.
#[derive(Clone, Copy, Debug, PartialEq, Eq, Structural)]
pub enum Route {
    Root,
    LoginPage,
    Dashboard,
    File(Asset),
    ApiLogin,
    SystemStatus,
    WifiScan,
    WifiConnect,
    WifiSaved,
    WifiForget,
    ApStatus,
    ApToggle,
    ApConfigGet,
    ApConfigSet,
    DiscordConfigGet,
    DiscordConfigSet,
    Logout,
}

/// The handler registered for a method and path, if any.
pub open spec fn route_of(method: HttpMethod, path: Seq<char>) -> Option<Route> {
    if method == HttpMethod::Get {
        if path == "/"@ {
            Some(Route::Root)
        } else if path == "/login"@ {
            Some(Route::LoginPage)
        } else if path == "/dashboard"@ {
            Some(Route::Dashboard)
        } else if path == "/css/style.css"@ {
            Some(Route::File(Asset::StyleCss))
        } else if path == "/js/auth.js"@ {
            Some(Route::File(Asset::AuthJs))
        } else if path == "/js/ui.js"@ {
            Some(Route::File(Asset::UiJs))
        } else if path == "/js/wifi.js"@ {
            Some(Route::File(Asset::WifiJs))
        } else if path == "/js/discord.js"@ {
            Some(Route::File(Asset::DiscordJs))
        } else if path == "/js/system.js"@ {
            Some(Route::File(Asset::SystemJs))
        } else if path == "/api/system/status"@ {
            Some(Route::SystemStatus)
        } else if path == "/api/wifi/scan"@ {
            Some(Route::WifiScan)
        } else if path == "/api/wifi/saved"@ {
            Some(Route::WifiSaved)
        } else if path == "/api/wifi/ap-status"@ {
            Some(Route::ApStatus)
        } else if path == "/api/wifi/ap-config"@ {
            Some(Route::ApConfigGet)
        } else if path == "/api/discord/config"@ {
            Some(Route::DiscordConfigGet)
        } else {
            None
        }
    } else if method == HttpMethod::Post {
        if path == "/api/login"@ {
            Some(Route::ApiLogin)
        } else if path == "/api/wifi/connect"@ {
            Some(Route::WifiConnect)
        } else if path == "/api/wifi/forget"@ {
            Some(Route::WifiForget)
        } else if path == "/api/wifi/ap-toggle"@ {
            Some(Route::ApToggle)
        } else if path == "/api/wifi/ap-config"@ {
            Some(Route::ApConfigSet)
        } else if path == "/api/discord/config"@ {
            Some(Route::DiscordConfigSet)
        } else if path == "/api/logout"@ {
            Some(Route::Logout)
        } else {
            None
        }
    } else {
        None
    }
}

/// The handler for a method and path, if one is registered.
pub fn route(method: HttpMethod, path: &str) -> (r: Option<Route>)
    ensures
        r == route_of(method, path@),
{
    match method {
        HttpMethod::Get => {
            if str_eq(path, "/") {
                Some(Route::Root)
            } else if str_eq(path, "/login") {
                Some(Route::LoginPage)
            } else if str_eq(path, "/dashboard") {
                Some(Route::Dashboard)
            } else if str_eq(path, "/css/style.css") {
                Some(Route::File(Asset::StyleCss))
            } else if str_eq(path, "/js/auth.js") {
                Some(Route::File(Asset::AuthJs))
            } else if str_eq(path, "/js/ui.js") {
                Some(Route::File(Asset::UiJs))
            } else if str_eq(path, "/js/wifi.js") {
                Some(Route::File(Asset::WifiJs))
            } else if str_eq(path, "/js/discord.js") {
                Some(Route::File(Asset::DiscordJs))
            } else if str_eq(path, "/js/system.js") {
                Some(Route::File(Asset::SystemJs))
            } else if str_eq(path, "/api/system/status") {
                Some(Route::SystemStatus)
            } else if str_eq(path, "/api/wifi/scan") {
                Some(Route::WifiScan)
            } else if str_eq(path, "/api/wifi/saved") {
                Some(Route::WifiSaved)
            } else if str_eq(path, "/api/wifi/ap-status") {
                Some(Route::ApStatus)
            } else if str_eq(path, "/api/wifi/ap-config") {
                Some(Route::ApConfigGet)
            } else if str_eq(path, "/api/discord/config") {
                Some(Route::DiscordConfigGet)
            } else {
                None
            }
        },
        HttpMethod::Post => {
            if str_eq(path, "/api/login") {
                Some(Route::ApiLogin)
            } else if str_eq(path, "/api/wifi/connect") {
                Some(Route::WifiConnect)
            } else if str_eq(path, "/api/wifi/forget") {
                Some(Route::WifiForget)
            } else if str_eq(path, "/api/wifi/ap-toggle") {
                Some(Route::ApToggle)
            } else if str_eq(path, "/api/wifi/ap-config") {
                Some(Route::ApConfigSet)
            } else if str_eq(path, "/api/discord/config") {
                Some(Route::DiscordConfigSet)
            } else if str_eq(path, "/api/logout") {
                Some(Route::Logout)
            } else {
                None
            }
        },
        _ => None,
    }
}

/// Whether a handler answers only requests of the active session.
pub open spec fn needs_session(r: Route) -> bool {
    match r {
        Route::Root | Route::LoginPage | Route::File(_) | Route::ApiLogin | Route::Logout => false,
        _ => true,
    }
}

/// Whether a handler answers only requests of the active session.
pub fn requires_session(r: Route) -> (b: bool)
    ensures
        b == needs_session(r),
{
    match r {
        Route::Root | Route::LoginPage | Route::File(_) | Route::ApiLogin | Route::Logout => false,
        _ => true,
    }
}

// ---------------------------------------------------------------------------
// Replies
// ---------------------------------------------------------------------------

/// The `Content-Type` of a reply.
#[derive(Clone, Copy, Debug, PartialEq, Eq, Structural)]
pub enum ContentType {
    Html,
    Css,
    JavaScript,
    Json,
}

/// What a reply carries.
pub enum ReplyBody {
    Empty,
    Text(String),
    File(Asset),
}

/// A reply: its status, its headers and its body. A compressed file is sent with
/// `Content-Encoding: gzip`.
pub struct Reply {
    pub status: u16,
    pub content_type: Option<ContentType>,
    pub location: Option<String>,
    pub set_cookie: Option<String>,
    pub body: ReplyBody,
}

/// The body of a reply, as values.
pub enum BodyView {
    Empty,
    Text(Seq<char>),
    File(Asset),
}

/// A reply, as values.
pub struct ReplyView {
    pub status: u16,
    pub content_type: Option<ContentType>,
    pub location: Option<Seq<char>>,
    pub set_cookie: Option<Seq<char>>,
    pub body: BodyView,
}

pub open spec fn opt_view(s: Option<String>) -> Option<Seq<char>> {
    match s {
        Some(v) => Some(v@),
        None => None,
    }
}

impl View for Reply {
    type V = ReplyView;

    open spec fn view(&self) -> ReplyView {
        ReplyView {
            status: self.status,
            content_type: self.content_type,
            location: opt_view(self.location),
            set_cookie: opt_view(self.set_cookie),
            body: match self.body {
                ReplyBody::Empty => BodyView::Empty,
                ReplyBody::Text(t) => BodyView::Text(t@),
                ReplyBody::File(a) => BodyView::File(a),
            },
        }
    }
}

/// The reason phrase sent with a status.
pub open spec fn reason_of(status: u16) -> Seq<char> {
    if status == 200 {
        "OK"@
    } else if status == 302 {
        "Found"@
    } else if status == 400 {
        "Bad Request"@
    } else if status == 401 {
        "Unauthorized"@
    } else {
        "Error"@
    }
}

/// The reason phrase sent with a status.
pub fn reason_phrase(status: u16) -> (r: &'static str)
    ensures
        r@ == reason_of(status),
{
    if status == 200 {
        "OK"
    } else if status == 302 {
        "Found"
    } else if status == 400 {
        "Bad Request"
    } else if status == 401 {
        "Unauthorized"
    } else {
        "Error"
    }
}

/// A redirect to the login page.
pub open spec fn redirect_to_login() -> ReplyView {
    ReplyView {
        status: 302,
        content_type: None,
        location: Some("/login"@),
        set_cookie: None,
        body: BodyView::Empty,
    }
}

/// A plain reply with a status and a text body.
pub open spec fn text_reply(status: u16, text: Seq<char>) -> ReplyView {
    ReplyView {
        status,
        content_type: None,
        location: None,
        set_cookie: None,
        body: BodyView::Text(text),
    }
}

/// A reply with a compressed file.
pub open spec fn file_reply(a: Asset) -> ReplyView {
    ReplyView {
        status: 200,
        content_type: Some(asset_type(a)),
        location: None,
        set_cookie: None,
        body: BodyView::File(a),
    }
}

/// The content type of a file.
pub open spec fn asset_type(a: Asset) -> ContentType {
    match a {
        Asset::LoginHtml | Asset::DashboardHtml => ContentType::Html,
        Asset::StyleCss => ContentType::Css,
        _ => ContentType::JavaScript,
    }
}

/// What a request for a handler is answered when it does not belong to the active
/// session, if the handler needs one.
pub open spec fn refusal(r: Route, authorized: bool) -> Option<ReplyView> {
    if authorized || !needs_session(r) {
        None
    } else {
        match r {
            Route::Dashboard => Some(redirect_to_login()),
            Route::DiscordConfigGet | Route::DiscordConfigSet => Some(text_reply(401, Seq::empty())),
            _ => Some(text_reply(401, "Sesion expirada"@)),
        }
    }
}

fn redirect_to_login_exec() -> (r: Reply)
    ensures
        r@ == redirect_to_login(),
{
    Reply {
        status: 302,
        content_type: None,
        location: Some(String::from_str("/login")),
        set_cookie: None,
        body: ReplyBody::Empty,
    }
}

fn text_reply_exec(status: u16, text: &str) -> (r: Reply)
    ensures
        r@ == text_reply(status, text@),
{
    Reply {
        status,
        content_type: None,
        location: None,
        set_cookie: None,
        body: ReplyBody::Text(String::from_str(text)),
    }
}

/// What a request for `r` is answered when it does not belong to the active
/// session and `r` needs one; `None` lets the handler run.
pub fn refuse_unless_authorized(r: Route, authorized: bool) -> (reply: Option<Reply>)
    ensures
        match reply {
            Some(x) => refusal(r, authorized) == Some(x@),
            None => refusal(r, authorized) is None,
        },
{
    if authorized || !requires_session(r) {
        return None;
    }
    match r {
        Route::Dashboard => Some(redirect_to_login_exec()),
        Route::DiscordConfigGet | Route::DiscordConfigSet => {
            let x = text_reply_exec(401, "");
            proof {
                reveal_strlit("");
                assert(""@ =~= Seq::<char>::empty());
            }
            assert(x@ == text_reply(401, Seq::empty()));
            Some(x)
        },
        _ => Some(text_reply_exec(401, "Sesion expirada")),
    }
}

/// The answer of a handler that needs nothing but the route: the redirect from
/// `/` and the pages and files.
pub open spec fn page_reply(r: Route) -> Option<ReplyView> {
    match r {
        Route::Root => Some(redirect_to_login()),
        Route::LoginPage => Some(file_reply(Asset::LoginHtml)),
        Route::Dashboard => Some(file_reply(Asset::DashboardHtml)),
        Route::File(a) => Some(file_reply(a)),
        _ => None,
    }
}

fn file_reply_exec(a: Asset) -> (r: Reply)
    ensures
        r@ == file_reply(a),
{
    let ct = match a {
        Asset::LoginHtml | Asset::DashboardHtml => ContentType::Html,
        Asset::StyleCss => ContentType::Css,
        _ => ContentType::JavaScript,
    };
    Reply { status: 200, content_type: Some(ct), location: None, set_cookie: None, body: ReplyBody::File(a) }
}

/// The answer of the redirect from `/` and of the pages and files (for the
/// dashboard, once the request is known to belong to the active session).
pub fn serve_page(r: Route) -> (reply: Option<Reply>)
    ensures
        match reply {
            Some(x) => page_reply(r) == Some(x@),
            None => page_reply(r) is None,
        },
{
    match r {
        Route::Root => Some(redirect_to_login_exec()),
        Route::LoginPage => Some(file_reply_exec(Asset::LoginHtml)),
        Route::Dashboard => Some(file_reply_exec(Asset::DashboardHtml)),
        Route::File(a) => Some(file_reply_exec(a)),
        _ => None,
    }
}

// ---------------------------------------------------------------------------
// Login and logout
// ---------------------------------------------------------------------------

/// The text of a request body as `String::from_utf8_lossy` decodes it (invalid
/// sequences become U+FFFD).
pub uninterp spec fn lossy_text(bytes: Seq<u8>) -> Seq<char>;

/// Decodes bytes as UTF-8, replacing invalid sequences (`String::from_utf8_lossy`);
/// the result is named by `lossy_text`, a function of the bytes alone. As std
/// documents, valid UTF-8 is decoded unchanged.
#[verifier::external_body]
fn utf8_lossy(bytes: &[u8]) -> (s: String)
    ensures
        s@ == lossy_text(bytes@),
        vstd::utf8::valid_utf8(bytes@) ==> s@ == vstd::utf8::decode_utf8(bytes@),
{
    String::from_utf8_lossy(bytes).into_owned()
}

/// Whether a login form carries the admin credentials: the decoded body mentions
/// both `admin` and `12345`.
pub open spec fn credentials_ok(body: Seq<u8>) -> bool {
    contains(lossy_text(body), "admin"@) && contains(lossy_text(body), "12345"@)
}

/// The cookie that hands a session token to the browser.
pub open spec fn session_cookie(token: Seq<char>) -> Seq<char> {
    "session_id="@ + token + "; HttpOnly; Path=/"@
}

/// The answer to a successful login: the cookie and a page that moves to the dashboard.
pub open spec fn login_ok_reply(token: Seq<char>) -> ReplyView {
    ReplyView {
        status: 200,
        content_type: Some(ContentType::Html),
        location: None,
        set_cookie: Some(session_cookie(token)),
        body: BodyView::Text(
            "<meta http-equiv='refresh' content='0; url=/dashboard' /><script>window.location.href='/dashboard';</script>"@,
        ),
    }
}

/// The answer to a refused login.
pub open spec fn login_refused_reply() -> ReplyView {
    ReplyView {
        status: 401,
        content_type: Some(ContentType::Html),
        location: None,
        set_cookie: None,
        body: BodyView::Text(
            "<script>alert('Credenciales incorrectas'); window.location.href='/login';</script>"@,
        ),
    }
}

/// Whether the body of a login request carries the admin credentials.
pub fn check_credentials(body: &[u8]) -> (ok: bool)
    ensures
        ok == credentials_ok(body@),
{
    let text = utf8_lossy(body);
    str_contains(text.as_str(), "admin") && str_contains(text.as_str(), "12345")
}

/// Answers a login request: with the admin credentials a new session replaces the
/// active one and its token is handed out in a cookie; otherwise the login is
/// refused and the session is left alone.
pub fn handle_login(store: &mut SessionStore, body: &[u8]) -> (reply: Reply)
    ensures
        credentials_ok(body@) ==> (final(store)@ matches Some(t) && is_token_text(t)
            && reply@ == login_ok_reply(t)),
        !credentials_ok(body@) ==> *final(store) == *old(store) && reply@ == login_refused_reply(),
{
    if check_credentials(body) {
        let t = login(store);
        let mut cookie = String::from_str("session_id=");
        cookie.append(t.as_str());
        cookie.append("; HttpOnly; Path=/");
        Reply {
            status: 200,
            content_type: Some(ContentType::Html),
            location: None,
            set_cookie: Some(cookie),
            body: ReplyBody::Text(
                String::from_str(
                    "<meta http-equiv='refresh' content='0; url=/dashboard' /><script>window.location.href='/dashboard';</script>",
                ),
            ),
        }
    } else {
        Reply {
            status: 401,
            content_type: Some(ContentType::Html),
            location: None,
            set_cookie: None,
            body: ReplyBody::Text(
                String::from_str(
                    "<script>alert('Credenciales incorrectas'); window.location.href='/login';</script>",
                ),
            ),
        }
    }
}

/// The answer to a logout: the cookie is cleared and the browser sent to the login page.
pub open spec fn logout_reply() -> ReplyView {
    ReplyView {
        status: 302,
        content_type: None,
        location: Some("/login"@),
        set_cookie: Some("session_id=; HttpOnly; Path=/; Max-Age=0"@),
        body: BodyView::Empty,
    }
}

/// Answers a logout: ends the active session if the request's cookie carries its
/// token, and clears the cookie in any case.
pub fn handle_logout(store: &mut SessionStore, cookie_header: Option<&str>) -> (reply: Reply)
    ensures
        reply@ == logout_reply(),
        final(store)@ == match request_session(header_seq(cookie_header)) {
            Some(t) => logout_outcome(old(store)@, t),
            None => old(store)@,
        },
{
    match get_session_token(cookie_header) {
        Some(token) => logout(store, token.as_str()),
        None => {},
    }
    Reply {
        status: 302,
        content_type: None,
        location: Some(String::from_str("/login")),
        set_cookie: Some(String::from_str("session_id=; HttpOnly; Path=/; Max-Age=0")),
        body: ReplyBody::Empty,
    }
}

// ---------------------------------------------------------------------------
// Answers of the API handlers
// ---------------------------------------------------------------------------

/// The body that reports whether the access point is on.
pub open spec fn ap_status_json(enabled: bool) -> Seq<char> {
    if enabled {
        "{\"enabled\": true}"@
    } else {
        "{\"enabled\": false}"@
    }
}

/// A JSON reply.
pub open spec fn json_reply(body: Seq<char>) -> ReplyView {
    ReplyView {
        status: 200,
        content_type: Some(ContentType::Json),
        location: None,
        set_cookie: None,
        body: BodyView::Text(body),
    }
}

/// A JSON reply with `body`.
pub fn reply_json(body: String) -> (r: Reply)
    ensures
        r@ == json_reply(body@),
{
    Reply {
        status: 200,
        content_type: Some(ContentType::Json),
        location: None,
        set_cookie: None,
        body: ReplyBody::Text(body),
    }
}

/// The answer to a question about the access point.
pub fn ap_status_reply(enabled: bool) -> (r: Reply)
    ensures
        r@ == json_reply(ap_status_json(enabled)),
{
    if enabled {
        reply_json(String::from_str("{\"enabled\": true}"))
    } else {
        reply_json(String::from_str("{\"enabled\": false}"))
    }
}

/// The answer of a handler whose work succeeded (`OK`) or failed (`Error`).
pub open spec fn outcome_reply(ok: bool) -> ReplyView {
    if ok {
        text_reply(200, "OK"@)
    } else {
        text_reply(500, "Error"@)
    }
}

/// The answer of the access-point handlers, after their work.
pub fn reply_outcome(ok: bool) -> (r: Reply)
    ensures
        r@ == outcome_reply(ok),
{
    if ok {
        text_reply_exec(200, "OK")
    } else {
        text_reply_exec(500, "Error")
    }
}

/// The answer once a network has been saved and a connection started.
pub fn reply_connecting() -> (r: Reply)
    ensures
        r@ == text_reply(200, "Connecting and saved..."@),
{
    text_reply_exec(200, "Connecting and saved...")
}

/// The answer once a saved network has been deleted.
pub fn reply_forgotten() -> (r: Reply)
    ensures
        r@ == text_reply(200, "Deleted"@),
{
    text_reply_exec(200, "Deleted")
}

/// The answer to a Discord configuration that could not be read (`parsed` false)
/// or that has been saved.
pub open spec fn discord_save_reply(parsed: bool) -> ReplyView {
    if parsed {
        text_reply(200, "Guardado"@)
    } else {
        text_reply(400, "JSON Invalido o muy largo"@)
    }
}

/// The answer to a Discord configuration that could not be read, or that has been saved.
pub fn reply_discord_saved(parsed: bool) -> (r: Reply)
    ensures
        r@ == discord_save_reply(parsed),
{
    if parsed {
        text_reply_exec(200, "Guardado")
    } else {
        text_reply_exec(400, "JSON Invalido o muy largo")
    }
}

// ---------------------------------------------------------------------------
// Laws
// ---------------------------------------------------------------------------

proof fn lemma_no_ws_end(s: Seq<char>)
    requires
        s.len() > 0,
        !is_white_space(s.last()),
    ensures
        trim_end(s) == s,
{
}

/// A `Cookie` header that holds just the session cookie, whose value holds no `;`,
/// no `=` and does not end in white space, yields exactly that value.
pub proof fn law_cookie_round_trip(token: Seq<char>)
    requires
        lacks(token, ';'),
        lacks(token, '='),
        token.len() == 0 || !is_white_space(token.last()),
    ensures
        session_from_cookie(cookie_name() + seq!['='] + token) == Some(token),
{
    let h = cookie_name() + seq!['='] + token;
    assert(lacks(h, ';')) by {
        assert forall|i: int| 0 <= i < h.len() implies h[i] != ';' by {
            if i >= cookie_name().len() + 1 {
                assert(h[i] == token[i - cookie_name().len() - 1]);
            }
        }
    }
    crate::text::lemma_split_from_no_sep(h, ';', Seq::empty(), Seq::empty());
    assert(Seq::<char>::empty() + h =~= h);
    let parts = split_char(h, ';');
    assert(parts =~= seq![h]);
    assert(trim_start(h) == h);
    if token.len() == 0 {
        assert(h.last() == '=');
    } else {
        assert(h.last() == token.last());
    }
    lemma_no_ws_end(h);
    assert(trim(h) == h);
    assert(lacks(cookie_name(), '='));
    crate::text::lemma_split_two(cookie_name(), token, '=');
    assert(session_in_part(h) == Some(token));
    assert(parts[0] == h);
}

/// Every token that a login hands out comes back unchanged from the `Cookie`
/// header that the browser sends with it.
pub proof fn law_login_cookie_round_trip(n: nat)
    ensures
        session_from_cookie(cookie_name() + seq!['='] + token_text(n)) == Some(token_text(n)),
{
    let t = token_text(n);
    crate::text::lemma_decimal_digits(n);
    assert forall|i: int| 0 <= i < t.len() implies t[i] != ';' && t[i] != '=' && !is_white_space(
        t[i],
    ) by {
        if i >= token_prefix().len() {
            assert(t[i] == crate::text::decimal(n)[i - token_prefix().len()]);
        }
    }
    law_cookie_round_trip(t);
}

/// A request that carries the cookie of the latest login, made before the timeout,
/// is authorized, and the session stays active.
pub proof fn law_login_then_authorized(n: nat, elapsed: int)
    requires
        0 <= elapsed < crate::web::auth::SESSION_TIMEOUT_NANOS,
    ensures
        ({
            let t = token_text(n);
            let header = cookie_name() + seq!['='] + t;
            &&& request_session(Some(header)) == Some(t)
            &&& check_outcome(Some(t), t, elapsed) == (true, Some(t))
        }),
{
    law_login_cookie_round_trip(n);
}

/// Every page and file route is answered with exactly its own file, with status
/// 200 and the content type of that file's kind: the login page and dashboard as
/// HTML, the style sheet as CSS, each script as JavaScript.
pub proof fn law_files_served_as_routed(a: Asset)
    ensures
        page_reply(Route::File(a)) matches Some(r) && r.status == 200 && r.body == BodyView::File(a)
            && r.location is None && r.set_cookie is None,
        page_reply(Route::LoginPage) matches Some(r) && r.body == BodyView::File(Asset::LoginHtml)
            && r.content_type == Some(ContentType::Html),
        page_reply(Route::Dashboard) matches Some(r) && r.body == BodyView::File(Asset::DashboardHtml)
            && r.content_type == Some(ContentType::Html),
        a == Asset::StyleCss ==> (page_reply(Route::File(a)) matches Some(r) && r.content_type == Some(ContentType::Css)),
        (a == Asset::AuthJs || a == Asset::UiJs || a == Asset::WifiJs || a == Asset::DiscordJs
            || a == Asset::SystemJs) ==> (page_reply(Route::File(a)) matches Some(r) && r.content_type
            == Some(ContentType::JavaScript)),
{
}

/// Distinct file routes are answered with distinct files.
pub proof fn law_distinct_files(a: Asset, b: Asset)
    requires
        a != b,
    ensures
        page_reply(Route::File(a)) != page_reply(Route::File(b)),
{
    law_files_served_as_routed(a);
    law_files_served_as_routed(b);
}

/// A request without a cookie, or whose cookie carries no session token, is not
/// authorized for any handler that needs a session.
pub proof fn law_no_cookie_refused(r: Route)
    requires
        needs_session(r),
    ensures
        refusal(r, false) is Some,
        refusal(r, true) is None,
{
}

} // verus!
