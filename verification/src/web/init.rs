//! The first, minimal web server of the panel: three compressed files and a login
//! check that only answers whether the credentials are right.
use vstd::prelude::*;
use vstd::utf8::{decode_utf8, valid_utf8};

use crate::text::{contains, str_contains, str_eq};
use crate::web::server::HttpMethod;

verus! {

/// The handlers of the minimal server.
#[derive(Clone, Copy, Debug, PartialEq, Eq, Structural)]
pub enum BasicRoute {
    /// `GET /`: the compressed page.
    Index,
    /// `GET /style.css`: the compressed style sheet.
    StyleCss,
    /// `GET /script.js`: the compressed script.
    ScriptJs,
    /// `POST /login`: the credentials check.
    Login,
}

/// The handler for a method and path, if one is registered.
pub open spec fn basic_route_of(method: HttpMethod, path: Seq<char>) -> Option<BasicRoute> {
    if method == HttpMethod::Get && path == "/"@ {
        Some(BasicRoute::Index)
    } else if method == HttpMethod::Get && path == "/style.css"@ {
        Some(BasicRoute::StyleCss)
    } else if method == HttpMethod::Get && path == "/script.js"@ {
        Some(BasicRoute::ScriptJs)
    } else if method == HttpMethod::Post && path == "/login"@ {
        Some(BasicRoute::Login)
    } else {
        None
    }
}

/// The handler of the minimal server for a method and path.
pub fn basic_route(method: HttpMethod, path: &str) -> (r: Option<BasicRoute>)
    ensures
        r == basic_route_of(method, path@),
{
    if method == HttpMethod::Get && str_eq(path, "/") {
        Some(BasicRoute::Index)
    } else if method == HttpMethod::Get && str_eq(path, "/style.css") {
        Some(BasicRoute::StyleCss)
    } else if method == HttpMethod::Get && str_eq(path, "/script.js") {
        Some(BasicRoute::ScriptJs)
    } else if method == HttpMethod::Post && str_eq(path, "/login") {
        Some(BasicRoute::Login)
    } else {
        None
    }
}

/// Decodes bytes as UTF-8 (`std::str::from_utf8`): the text when the bytes are
/// valid UTF-8, nothing otherwise.
#[verifier::external_body]
fn utf8_text(bytes: &[u8]) -> (r: Option<&str>)
    ensures
        r is Some <==> valid_utf8(bytes@),
        r matches Some(s) ==> s@ == decode_utf8(bytes@),
{
    std::str::from_utf8(bytes).ok()
}

/// The text of a body: its UTF-8 decoding, or the empty text when it is not UTF-8.
pub open spec fn body_text(bytes: Seq<u8>) -> Seq<char> {
    if valid_utf8(bytes) {
        decode_utf8(bytes)
    } else {
        Seq::empty()
    }
}

/// Whether a login body carries the fields `"user":"admin"` and `"pass":"1234"`.
pub open spec fn basic_credentials_ok(body: Seq<u8>) -> bool {
    contains(body_text(body), "\"user\":\"admin\""@) && contains(body_text(body), "\"pass\":\"1234\""@)
}

/// The answer of the minimal server's login check.
pub fn basic_login_reply(body: &[u8]) -> (r: &'static str)
    ensures
        r@ == if basic_credentials_ok(body@) {
            "LOGIN OK"@
        } else {
            "LOGIN ERROR"@
        },
{
    let data = match utf8_text(body) {
        Some(s) => s,
        None => "",
    };
    proof {
        reveal_strlit("");
        assert(data@ =~= body_text(body@));
    }
    if str_contains(data, "\"user\":\"admin\"") && str_contains(data, "\"pass\":\"1234\"") {
        "LOGIN OK"
    } else {
        "LOGIN ERROR"
    }
}

} // verus!
