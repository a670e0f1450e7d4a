//! The device's status report, the placeholders of bot replies, and the cached
//! answer to "is the internet reachable?".
use std::time::Instant;
use vstd::prelude::*;

use crate::clock::seconds_between;
use crate::text::{
    contains, decimal, decimal_pad2, decimal_pad2_string, decimal_string, lemma_replace_absent,
    occurs_at, push_char, replace_all, replace_str, signed_decimal, signed_decimal_string,
};
use crate::wifi::connection::{ap_on, ModeKind, WifiMode};

verus! {

// ---------------------------------------------------------------------------
// Placeholders
// ---------------------------------------------------------------------------

/// The station link as the radio reports it.
pub struct StationInfo {
    pub rssi: i8,
    pub ssid: String,
}

/// The device readings that bot replies can quote.
pub struct DeviceReadings {
    /// Total 8-bit-capable heap, in KiB.
    pub ram_total_kb: u32,
    /// Free heap, in KiB.
    pub ram_free_kb: u32,
    /// Lowest free heap since boot, in KiB.
    pub ram_min_kb: u32,
    /// Entries of the key-value store.
    pub nvs_total: u32,
    pub nvs_used: u32,
    /// Last gateway round trip, in milliseconds.
    pub ping_ms: u32,
    /// The access point that the station is joined to, if the radio reports one.
    pub station: Option<StationInfo>,
    /// Seconds since boot.
    pub uptime_secs: u64,
}

/// `h:m:s` with each part padded to two digits.
pub open spec fn uptime_text(secs: nat) -> Seq<char> {
    decimal_pad2(secs / 3600) + seq![':'] + decimal_pad2((secs % 3600) / 60) + seq![':']
        + decimal_pad2(secs % 60)
}

/// The signal strength that `{{RSSI}}` shows.
pub open spec fn shown_rssi(r: DeviceReadings) -> int {
    match r.station {
        Some(st) => st.rssi as int,
        None => 0,
    }
}

/// The network name that `{{SSID}}` shows.
pub open spec fn shown_ssid(r: DeviceReadings) -> Seq<char> {
    match r.station {
        Some(st) => st.ssid@,
        None => "Desconectado"@,
    }
}

/// A reply text with its placeholders filled in, in this order: the two characters
/// `\n` become a line break, then `{{RAM_TOTAL}}`, `{{RAM_FREE}}`, `{{RAM_USED}}`,
/// `{{RAM_MIN}}`, `{{NVS_TOTAL}}`, `{{NVS_USED}}`, `{{NVS_FREE}}`, `{{PING}}`,
/// `{{RSSI}}`, `{{SSID}}` and `{{UPTIME}}` are replaced by the readings.
pub open spec fn filled(text: Seq<char>, r: DeviceReadings) -> Seq<char> {
    let t = replace_all(text, "\\n"@, "\n"@);
    let t = replace_all(t, "{{RAM_TOTAL}}"@, decimal(r.ram_total_kb as nat));
    let t = replace_all(t, "{{RAM_FREE}}"@, decimal(r.ram_free_kb as nat));
    let t = replace_all(t, "{{RAM_USED}}"@, decimal((r.ram_total_kb - r.ram_free_kb) as nat));
    let t = replace_all(t, "{{RAM_MIN}}"@, decimal(r.ram_min_kb as nat));
    let t = replace_all(t, "{{NVS_TOTAL}}"@, decimal(r.nvs_total as nat));
    let t = replace_all(t, "{{NVS_USED}}"@, decimal(r.nvs_used as nat));
    let t = replace_all(t, "{{NVS_FREE}}"@, decimal((r.nvs_total - r.nvs_used) as nat));
    let t = replace_all(t, "{{PING}}"@, decimal(r.ping_ms as nat));
    let t = replace_all(t, "{{RSSI}}"@, signed_decimal(shown_rssi(r)));
    let t = replace_all(t, "{{SSID}}"@, shown_ssid(r));
    replace_all(t, "{{UPTIME}}"@, uptime_text(r.uptime_secs as nat))
}

/// `h:m:s` for an uptime in seconds.
pub fn format_uptime(secs: u64) -> (s: String)
    ensures
        s@ == uptime_text(secs as nat),
{
    let h = decimal_pad2_string(secs / 3600);
    let m = decimal_pad2_string((secs % 3600) / 60);
    let sec = decimal_pad2_string(secs % 60);
    let mut s = String::new();
    s.append(h.as_str());
    push_char(&mut s, ':');
    s.append(m.as_str());
    push_char(&mut s, ':');
    s.append(sec.as_str());
    assert(s@ =~= uptime_text(secs as nat));
    s
}

/// Fills in the placeholders of a reply text from the device readings (see `filled`).
pub fn format_placeholders(text: &str, r: &DeviceReadings) -> (out: String)
    requires
        r.ram_free_kb <= r.ram_total_kb,
        r.nvs_used <= r.nvs_total,
    ensures
        out@ == filled(text@, *r),
{
    proof {
        reveal_strlit("\\n");
        reveal_strlit("{{RAM_TOTAL}}");
        reveal_strlit("{{RAM_FREE}}");
        reveal_strlit("{{RAM_USED}}");
        reveal_strlit("{{RAM_MIN}}");
        reveal_strlit("{{NVS_TOTAL}}");
        reveal_strlit("{{NVS_USED}}");
        reveal_strlit("{{NVS_FREE}}");
        reveal_strlit("{{PING}}");
        reveal_strlit("{{RSSI}}");
        reveal_strlit("{{SSID}}");
        reveal_strlit("{{UPTIME}}");
    }
    let t = replace_str(text, "\\n", "\n");
    let v = decimal_string(r.ram_total_kb as u128);
    let t = replace_str(t.as_str(), "{{RAM_TOTAL}}", v.as_str());
    let v = decimal_string(r.ram_free_kb as u128);
    let t = replace_str(t.as_str(), "{{RAM_FREE}}", v.as_str());
    let v = decimal_string((r.ram_total_kb - r.ram_free_kb) as u128);
    let t = replace_str(t.as_str(), "{{RAM_USED}}", v.as_str());
    let v = decimal_string(r.ram_min_kb as u128);
    let t = replace_str(t.as_str(), "{{RAM_MIN}}", v.as_str());
    let v = decimal_string(r.nvs_total as u128);
    let t = replace_str(t.as_str(), "{{NVS_TOTAL}}", v.as_str());
    let v = decimal_string(r.nvs_used as u128);
    let t = replace_str(t.as_str(), "{{NVS_USED}}", v.as_str());
    let v = decimal_string((r.nvs_total - r.nvs_used) as u128);
    let t = replace_str(t.as_str(), "{{NVS_FREE}}", v.as_str());
    let v = decimal_string(r.ping_ms as u128);
    let t = replace_str(t.as_str(), "{{PING}}", v.as_str());
    let (rssi, ssid) = match &r.station {
        Some(st) => (st.rssi, st.ssid.clone()),
        None => (0i8, String::from_str("Desconectado")),
    };
    let v = signed_decimal_string(rssi);
    let t = replace_str(t.as_str(), "{{RSSI}}", v.as_str());
    let t = replace_str(t.as_str(), "{{SSID}}", ssid.as_str());
    let v = format_uptime(r.uptime_secs);
    let t = replace_str(t.as_str(), "{{UPTIME}}", v.as_str());
    t
}

/// A pattern whose first character does not occur in `s` does not occur in `s`.
proof fn lemma_first_char_absent(s: Seq<char>, pat: Seq<char>)
    requires
        pat.len() > 0,
        forall|i: int| 0 <= i < s.len() ==> s[i] != pat[0],
    ensures
        !contains(s, pat),
{
    assert forall|i: int| !occurs_at(s, pat, i) by {
        if occurs_at(s, pat, i) {
            assert(s.subrange(i, i + pat.len())[0] == s[i]);
        }
    }
}

/// A reply text without `{` and without `\` is sent as it is written.
pub proof fn law_plain_text_unchanged(text: Seq<char>, r: DeviceReadings)
    requires
        forall|i: int| 0 <= i < text.len() ==> text[i] != '{' && text[i] != '\\',
    ensures
        filled(text, r) == text,
{
    reveal_strlit("\\n");
    reveal_strlit("{{RAM_TOTAL}}");
    reveal_strlit("{{RAM_FREE}}");
    reveal_strlit("{{RAM_USED}}");
    reveal_strlit("{{RAM_MIN}}");
    reveal_strlit("{{NVS_TOTAL}}");
    reveal_strlit("{{NVS_USED}}");
    reveal_strlit("{{NVS_FREE}}");
    reveal_strlit("{{PING}}");
    reveal_strlit("{{RSSI}}");
    reveal_strlit("{{SSID}}");
    reveal_strlit("{{UPTIME}}");
    lemma_first_char_absent(text, "\\n"@);
    lemma_replace_absent(text, "\\n"@, "\n"@);
    lemma_first_char_absent(text, "{{RAM_TOTAL}}"@);
    lemma_replace_absent(text, "{{RAM_TOTAL}}"@, decimal(r.ram_total_kb as nat));
    lemma_first_char_absent(text, "{{RAM_FREE}}"@);
    lemma_replace_absent(text, "{{RAM_FREE}}"@, decimal(r.ram_free_kb as nat));
    lemma_first_char_absent(text, "{{RAM_USED}}"@);
    lemma_replace_absent(text, "{{RAM_USED}}"@, decimal((r.ram_total_kb - r.ram_free_kb) as nat));
    lemma_first_char_absent(text, "{{RAM_MIN}}"@);
    lemma_replace_absent(text, "{{RAM_MIN}}"@, decimal(r.ram_min_kb as nat));
    lemma_first_char_absent(text, "{{NVS_TOTAL}}"@);
    lemma_replace_absent(text, "{{NVS_TOTAL}}"@, decimal(r.nvs_total as nat));
    lemma_first_char_absent(text, "{{NVS_USED}}"@);
    lemma_replace_absent(text, "{{NVS_USED}}"@, decimal(r.nvs_used as nat));
    lemma_first_char_absent(text, "{{NVS_FREE}}"@);
    lemma_replace_absent(text, "{{NVS_FREE}}"@, decimal((r.nvs_total - r.nvs_used) as nat));
    lemma_first_char_absent(text, "{{PING}}"@);
    lemma_replace_absent(text, "{{PING}}"@, decimal(r.ping_ms as nat));
    lemma_first_char_absent(text, "{{RSSI}}"@);
    lemma_replace_absent(text, "{{RSSI}}"@, signed_decimal(shown_rssi(r)));
    lemma_first_char_absent(text, "{{SSID}}"@);
    lemma_replace_absent(text, "{{SSID}}"@, shown_ssid(r));
    lemma_first_char_absent(text, "{{UPTIME}}"@);
    lemma_replace_absent(text, "{{UPTIME}}"@, uptime_text(r.uptime_secs as nat));
}

// ---------------------------------------------------------------------------
// Status report
// ---------------------------------------------------------------------------

/// The status report that the panel shows.
pub struct SystemStatus {
    pub wifi_connected: bool,
    pub has_internet: bool,
    pub discord_enabled: bool,
    pub discord_running: bool,
    pub discord_ping: u32,
    pub wifi_ssid: String,
    pub wifi_rssi: i8,
    pub ap_enabled: bool,
    pub ap_ssid: String,
    pub ram_total: u32,
    pub ram_free: u32,
    pub nvs_total: u32,
    pub nvs_used: u32,
}

/// What the radio told about itself while it was held, for a status report.
pub struct RadioReport {
    /// Whether the station is connected.
    pub connected: bool,
    /// The configured mode, if it could be read.
    pub mode: Option<WifiMode>,
    /// The signal strength, if the station is connected and the radio reported it.
    pub rssi: Option<i8>,
    /// Whether the internet answered, if the station is connected.
    pub internet: bool,
}

/// The readings that a status report is made of.
pub struct StatusInputs {
    /// The radio's report, or nothing if the radio could not be held.
    pub radio: Option<RadioReport>,
    pub discord_enabled: bool,
    pub discord_running: bool,
    pub discord_ping: u32,
    /// Heap in bytes.
    pub ram_total: u32,
    pub ram_free: u32,
    pub nvs_total: u32,
    pub nvs_used: u32,
}

/// The station network name in a report: the joined network if the station is
/// connected, `Desconectado` otherwise.
pub open spec fn report_wifi_ssid(radio: Option<RadioReport>) -> Seq<char> {
    match radio {
        Some(rr) => if rr.connected {
            match rr.mode {
                Some(WifiMode::Client { ssid }) => ssid@,
                Some(WifiMode::Mixed { client_ssid, ap_ssid: _ }) => client_ssid@,
                _ => "Desconectado"@,
            }
        } else {
            "Desconectado"@
        },
        None => "Desconectado"@,
    }
}

/// The access point name in a report: its name if it runs, `Desactivada` otherwise.
pub open spec fn report_ap_ssid(radio: Option<RadioReport>) -> Seq<char> {
    match radio {
        Some(rr) => match rr.mode {
            Some(WifiMode::AccessPoint { ssid }) => ssid@,
            Some(WifiMode::Mixed { client_ssid: _, ap_ssid }) => ap_ssid@,
            _ => "Desactivada"@,
        },
        None => "Desactivada"@,
    }
}

/// Whether the access point runs, according to a report.
pub open spec fn report_ap_enabled(radio: Option<RadioReport>) -> bool {
    match radio {
        Some(rr) => match rr.mode {
            Some(m) => m.kind() == ModeKind::AccessPoint || m.kind() == ModeKind::Mixed,
            None => false,
        },
        None => false,
    }
}

/// The status report made from the readings.
pub fn get_status(inputs: &StatusInputs) -> (s: SystemStatus)
    ensures
        s.wifi_connected == (inputs.radio matches Some(rr) && rr.connected),
        s.has_internet == (inputs.radio matches Some(rr) && rr.connected && rr.internet),
        s.wifi_rssi == (match inputs.radio {
            Some(rr) => if rr.connected {
                match rr.rssi {
                    Some(v) => v,
                    None => 0i8,
                }
            } else {
                0i8
            },
            None => 0i8,
        }),
        s.wifi_ssid@ == report_wifi_ssid(inputs.radio),
        s.ap_enabled == report_ap_enabled(inputs.radio),
        s.ap_ssid@ == report_ap_ssid(inputs.radio),
        s.discord_enabled == inputs.discord_enabled,
        s.discord_running == inputs.discord_running,
        s.discord_ping == inputs.discord_ping,
        s.ram_total == inputs.ram_total,
        s.ram_free == inputs.ram_free,
        s.nvs_total == inputs.nvs_total,
        s.nvs_used == inputs.nvs_used,
{
    let mut wifi_connected = false;
    let mut has_internet = false;
    let mut wifi_ssid = String::from_str("Desconectado");
    let mut wifi_rssi: i8 = 0;
    let mut ap_enabled = false;
    let mut ap_ssid = String::from_str("Desactivada");
    match &inputs.radio {
        Some(rr) => {
            wifi_connected = rr.connected;
            match &rr.mode {
                Some(WifiMode::Client { ssid }) => {
                    if wifi_connected {
                        wifi_ssid = ssid.clone();
                    }
                },
                Some(WifiMode::Mixed { client_ssid, ap_ssid: ap }) => {
                    if wifi_connected {
                        wifi_ssid = client_ssid.clone();
                    }
                    ap_enabled = true;
                    ap_ssid = ap.clone();
                },
                Some(WifiMode::AccessPoint { ssid }) => {
                    ap_enabled = true;
                    ap_ssid = ssid.clone();
                },
                _ => {},
            }
            if wifi_connected {
                match rr.rssi {
                    Some(v) => {
                        wifi_rssi = v;
                    },
                    None => {},
                }
                has_internet = rr.internet;
            }
        },
        None => {},
    }
    SystemStatus {
        wifi_connected,
        has_internet,
        discord_enabled: inputs.discord_enabled,
        discord_running: inputs.discord_running,
        discord_ping: inputs.discord_ping,
        wifi_ssid,
        wifi_rssi,
        ap_enabled,
        ap_ssid,
        ram_total: inputs.ram_total,
        ram_free: inputs.ram_free,
        nvs_total: inputs.nvs_total,
        nvs_used: inputs.nvs_used,
    }
}

/// The report names the station's network exactly when the station is connected
/// and a station network is configured: station only with name `n`, or station
/// plus access point with station name `n`, gives `n`; otherwise the report says
/// `Desconectado`. The access point's name is shown exactly when one runs.
pub proof fn law_status_names(rr: RadioReport)
    ensures
        rr.connected && (rr.mode matches Some(WifiMode::Client { ssid })) ==> report_wifi_ssid(Some(rr))
            == rr.mode->Some_0->Client_ssid@,
        rr.connected && (rr.mode matches Some(WifiMode::Mixed { .. })) ==> report_wifi_ssid(Some(rr))
            == rr.mode->Some_0->Mixed_client_ssid@,
        !rr.connected ==> report_wifi_ssid(Some(rr)) == "Desconectado"@,
        !(rr.mode matches Some(WifiMode::Client { .. })) && !(rr.mode matches Some(WifiMode::Mixed { .. }))
            ==> report_wifi_ssid(Some(rr)) == "Desconectado"@,
        (rr.mode matches Some(WifiMode::AccessPoint { .. })) ==> report_ap_ssid(Some(rr))
            == rr.mode->Some_0->AccessPoint_ssid@,
        (rr.mode matches Some(WifiMode::Mixed { .. })) ==> report_ap_ssid(Some(rr))
            == rr.mode->Some_0->ap_ssid@,
        !(rr.mode matches Some(WifiMode::AccessPoint { .. })) && !(rr.mode matches Some(WifiMode::Mixed { .. }))
            ==> report_ap_ssid(Some(rr)) == "Desactivada"@,
        report_wifi_ssid(None) == "Desconectado"@ && report_ap_ssid(None) == "Desactivada"@,
{
}

/// The status report and the access-point question agree: the report shows the
/// access point as running exactly when the radio's mode runs one.
pub proof fn law_status_agrees_with_ap_status(rr: RadioReport, m: WifiMode)
    requires
        rr.mode == Some(m),
    ensures
        report_ap_enabled(Some(rr)) == ap_on(m.kind()),
{
}

// ---------------------------------------------------------------------------
// Internet reachability, cached
// ---------------------------------------------------------------------------

/// How long an answer about the internet is reused, in seconds.
pub const INTERNET_CACHE_SECS: u64 = 10;

/// The last answer about the internet and when the question was asked.
pub struct InternetCache {
    pub last: Option<(bool, Instant)>,
}

/// The reused answer, if the last one was given less than ten seconds ago.
pub open spec fn reused(last: Option<bool>, age_secs: int) -> Option<bool> {
    match last {
        Some(v) => if age_secs < INTERNET_CACHE_SECS {
            Some(v)
        } else {
            None
        },
        None => None,
    }
}

/// The last answer, as a value.
pub open spec fn last_answer(c: InternetCache) -> Option<bool> {
    match c.last {
        Some((v, _)) => Some(v),
        None => None,
    }
}

/// The answer that may be reused when the last one is `age_secs` seconds old.
pub fn reuse_answer(last: Option<bool>, age_secs: u64) -> (r: Option<bool>)
    ensures
        r == reused(last, age_secs as int),
{
    match last {
        Some(v) => if age_secs < INTERNET_CACHE_SECS {
            Some(v)
        } else {
            None
        },
        None => None,
    }
}

impl InternetCache {
    /// A cache that has no answer yet.
    pub fn new() -> (c: InternetCache)
        ensures
            c.last is None,
    {
        InternetCache { last: None }
    }

    /// The answer to reuse at `now`, if the last one is less than ten seconds old.
    pub fn answer_at(&self, now: &Instant) -> (r: Option<bool>)
        ensures
            last_answer(*self) is None ==> r is None,
            r matches Some(v) ==> last_answer(*self) == Some(v),
            exists|age: int| age >= 0 && r == #[trigger] reused(last_answer(*self), age),
    {
        match &self.last {
            Some((v, at)) => {
                let age = seconds_between(now, at);
                let r = reuse_answer(Some(*v), age);
                assert(r == reused(last_answer(*self), age as int));
                r
            },
            None => {
                assert(reused(last_answer(*self), 0) is None);
                None
            },
        }
    }

    /// Records the answer to a question asked at `asked`.
    pub fn record(&mut self, has_net: bool, asked: Instant)
        ensures
            final(self).last == Some((has_net, asked)),
    {
        self.last = Some((has_net, asked));
    }
}

/// An answer is reused for less than ten seconds and never after.
pub proof fn law_cache_window(v: bool, age: int)
    ensures
        0 <= age < INTERNET_CACHE_SECS ==> reused(Some(v), age) == Some(v),
        age >= INTERNET_CACHE_SECS ==> reused(Some(v), age) is None,
        reused(None, age) is None,
{
}

} // verus!
