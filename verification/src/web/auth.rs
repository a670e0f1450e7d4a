//! The single admin session of the control panel: one token at a time, with a
//! sliding inactivity timeout.
use std::time::Instant;
use vstd::prelude::*;

use crate::clock::{instant_elapsed_nanos, instant_now};
use crate::text::{decimal, decimal_string, str_eq};

verus! {

/// How long a session stays valid without being used: fifteen minutes, in nanoseconds.
pub const SESSION_TIMEOUT_NANOS: u128 = 900_000_000_000;

/// The text that every session token starts with.
pub open spec fn token_prefix() -> Seq<char> {
    seq!['e', 's', 'p', '3', '2', '_', 's', 'e', 's', 's', 'i', 'o', 'n', '_']
}

/// The token made from a clock reading of `nanos` nanoseconds since the Unix epoch.
pub open spec fn token_text(nanos: nat) -> Seq<char> {
    token_prefix() + decimal(nanos)
}

/// Whether `s` is the text of some session token.
pub open spec fn is_token_text(s: Seq<char>) -> bool {
    exists|n: nat| s == token_text(n)
}

/// The active session: its token and when it was last used.
pub struct Session {
    pub token: String,
    pub last_seen: Instant,
}

/// Holds at most one active session.
pub struct SessionStore {
    pub active: Option<Session>,
}

impl View for SessionStore {
    /// The token of the active session, if there is one.
    type V = Option<Seq<char>>;

    open spec fn view(&self) -> Option<Seq<char>> {
        match self.active {
            Some(s) => Some(s.token@),
            None => None,
        }
    }
}

/// What a check of `token` against the active session `active` answers, and the
/// active session's token afterwards, when the session was last used
/// `elapsed` nanoseconds ago.
pub open spec fn check_outcome(active: Option<Seq<char>>, token: Seq<char>, elapsed: int) -> (
    bool,
    Option<Seq<char>>,
) {
    if active == Some(token) {
        if elapsed < SESSION_TIMEOUT_NANOS {
            (true, active)
        } else {
            (false, None)
        }
    } else {
        (false, active)
    }
}

/// The active session's token after a logout with `token`.
pub open spec fn logout_outcome(active: Option<Seq<char>>, token: Seq<char>) -> Option<Seq<char>> {
    if active == Some(token) {
        None
    } else {
        active
    }
}

/// Nanoseconds since the Unix epoch on the system clock
/// (`SystemTime::now().duration_since(UNIX_EPOCH)`, zero when the clock is before the epoch).
/// The value depends on the time of the call: nothing is stated of it.
#[verifier::external_body]
fn system_time_nanos() -> u128 {
    std::time::SystemTime::now().duration_since(std::time::UNIX_EPOCH).unwrap_or_default().as_nanos()
}

/// The session token made from a clock reading of `nanos` nanoseconds:
/// `esp32_session_` followed by the decimal number.
pub fn token_from_nanos(nanos: u128) -> (t: String)
    ensures
        t@ == token_text(nanos as nat),
{
    let mut t = String::new();
    t.append("esp32_session_");
    let digits = decimal_string(nanos);
    t.append(digits.as_str());
    proof {
        reveal_strlit("esp32_session_");
        assert(t@ =~= token_text(nanos as nat));
    }
    t
}

/// A new session token made from the current system time.
pub fn generate_token() -> (t: String)
    ensures
        is_token_text(t@),
{
    let nanos = system_time_nanos();
    let t = token_from_nanos(nanos);
    assert(t@ == token_text(nanos as nat));
    t
}

impl SessionStore {
    /// A store without an active session.
    pub fn new() -> (s: SessionStore)
        ensures
            s@ is None,
    {
        SessionStore { active: None }
    }
}

/// Makes `token` the active session, last used at `now`, replacing any active one.
pub fn start_session(store: &mut SessionStore, token: String, now: Instant)
    ensures
        final(store).active matches Some(s) && s.token@ == token@ && s.last_seen == now,
        final(store)@ == Some(token@),
{
    store.active = Some(Session { token, last_seen: now });
}

/// Starts a new session, replacing any active one, and returns its token. The new
/// session counts as used at the moment it starts (a clock reading taken by the call).
pub fn login(store: &mut SessionStore) -> (t: String)
    ensures
        final(store)@ == Some(t@),
        is_token_text(t@),
{
    let token = generate_token();
    let now = instant_now();
    start_session(store, token.clone(), now);
    token
}

/// Ends the active session if its token is `token`; otherwise changes nothing.
pub fn logout(store: &mut SessionStore, token: &str)
    ensures
        final(store)@ == logout_outcome(old(store)@, token@),
        old(store)@ != Some(token@) ==> *final(store) == *old(store),
{
    let matches = match &store.active {
        Some(s) => str_eq(s.token.as_str(), token),
        None => false,
    };
    if matches {
        store.active = None;
    }
}

/// Checks `token` against the active session, which was last used `elapsed`
/// nanoseconds before `now`. A matching, unexpired session is valid and is marked
/// as used at `now`; a matching, expired one is ended; any other token is refused
/// and nothing changes.
pub fn check_session_at(store: &mut SessionStore, token: &str, elapsed: u128, now: Instant) -> (valid: bool)
    ensures
        (valid, final(store)@) == check_outcome(old(store)@, token@, elapsed as int),
        valid ==> (final(store).active matches Some(s) && s.last_seen == now),
        old(store)@ != Some(token@) ==> *final(store) == *old(store),
{
    let matches = match &store.active {
        Some(s) => str_eq(s.token.as_str(), token),
        None => false,
    };
    if !matches {
        return false;
    }
    if elapsed < SESSION_TIMEOUT_NANOS {
        match &mut store.active {
            Some(s) => {
                s.last_seen = now;
            },
            None => {},
        }
        true
    } else {
        store.active = None;
        false
    }
}

/// Checks `token` against the active session, using the clock for how long ago the
/// session was last used (see `check_session_at`).
pub fn is_valid_session(store: &mut SessionStore, token: &str) -> (valid: bool)
    ensures
        exists|elapsed: int|
            elapsed >= 0 && (valid, final(store)@) == #[trigger] check_outcome(
                old(store)@,
                token@,
                elapsed,
            ),
        old(store)@ != Some(token@) ==> !valid && *final(store) == *old(store),
{
    let elapsed = match &store.active {
        Some(s) => instant_elapsed_nanos(&s.last_seen),
        None => 0,
    };
    let now = instant_now();
    let valid = check_session_at(store, token, elapsed, now);
    assert(check_outcome(old(store)@, token@, elapsed as int) == (valid, store@));
    valid
}

// ---------------------------------------------------------------------------
// Laws
// ---------------------------------------------------------------------------

/// A token that has just been handed out by a login is accepted by a check made
/// before the timeout, and the session stays active.
pub proof fn law_login_then_valid(token: Seq<char>, elapsed: int)
    requires
        0 <= elapsed < SESSION_TIMEOUT_NANOS,
    ensures
        check_outcome(Some(token), token, elapsed) == (true, Some(token)),
{
}

/// The timeout slides: after a successful check, a later check with the same token
/// made less than the timeout after that check succeeds again, however long ago the
/// login was (each check's elapsed time counts from the last use, which a
/// successful `check_session_at` sets to the check's own clock reading).
pub proof fn law_sliding_timeout(token: Seq<char>, first: int, second: int)
    requires
        0 <= first < SESSION_TIMEOUT_NANOS,
        0 <= second < SESSION_TIMEOUT_NANOS,
    ensures
        check_outcome(Some(token), token, first) == (true, Some(token)),
        check_outcome(check_outcome(Some(token), token, first).1, token, second) == (true, Some(token)),
{
}

/// After a logout with the active token, no check with that token succeeds, whenever
/// it is made.
pub proof fn law_logout_then_invalid(active: Option<Seq<char>>, token: Seq<char>, elapsed: int)
    ensures
        !check_outcome(logout_outcome(active, token), token, elapsed).0,
{
}

/// A logout with a token that is not the active one changes nothing.
pub proof fn law_logout_foreign_token(active: Option<Seq<char>>, token: Seq<char>)
    requires
        active != Some(token),
    ensures
        logout_outcome(active, token) == active,
{
}

/// A refused check leaves the session as it was, unless the session was the one
/// asked about and had expired, in which case it is ended.
pub proof fn law_refused_check(active: Option<Seq<char>>, token: Seq<char>, elapsed: int)
    requires
        !check_outcome(active, token, elapsed).0,
    ensures
        check_outcome(active, token, elapsed).1 == active || (active == Some(token)
            && elapsed >= SESSION_TIMEOUT_NANOS && check_outcome(active, token, elapsed).1
            is None),
{
}

/// Once a session has expired and been ended, its token is refused by every later
/// check.
pub proof fn law_expired_stays_invalid(token: Seq<char>, elapsed: int, later: int)
    requires
        elapsed >= SESSION_TIMEOUT_NANOS,
    ensures
        !check_outcome(Some(token), token, elapsed).0,
        !check_outcome(check_outcome(Some(token), token, elapsed).1, token, later).0,
{
}

/// There is one session at a time: after a login with a new token, the previous
/// token is refused.
pub proof fn law_single_session(previous: Seq<char>, current: Seq<char>, elapsed: int)
    requires
        previous != current,
    ensures
        check_outcome(Some(current), previous, elapsed) == (false, Some(current)),
{
}

/// Distinct clock readings give distinct tokens.
pub proof fn law_tokens_distinct(a: nat, b: nat)
    requires
        a != b,
    ensures
        token_text(a) != token_text(b),
{
    crate::text::lemma_decimal_injective(a, b);
    if token_text(a) == token_text(b) {
        let p = token_prefix();
        assert(token_text(a).skip(p.len() as int) =~= decimal(a));
        assert(token_text(b).skip(p.len() as int) =~= decimal(b));
    }
}

} // verus!
