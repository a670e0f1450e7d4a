//! The list of networks that a scan found, as the panel shows it.
use vstd::prelude::*;

use crate::text::{hex_byte, hex_byte_string, push_char, replace_all, replace_str};
use crate::wifi::connection::AuthMethod;

verus! {

/// An access point that a scan reported.
pub struct ScannedAp {
    pub ssid: String,
    pub bssid: [u8; 6],
    pub signal_strength: i8,
    pub auth_method: Option<AuthMethod>,
}

/// A network as the panel lists it.
pub struct WifiNetwork {
    pub ssid: String,
    pub bssid: String,
    pub rssi: i8,
    pub auth_method: String,
}

/// The name of an authentication method.
pub open spec fn auth_name(a: AuthMethod) -> Seq<char> {
    match a {
        AuthMethod::NoAuth => "None"@,
        AuthMethod::WEP => "WEP"@,
        AuthMethod::WPA => "WPA"@,
        AuthMethod::WPA2Personal => "WPA2Personal"@,
        AuthMethod::WPAWPA2Personal => "WPAWPA2Personal"@,
        AuthMethod::WPA2Enterprise => "WPA2Enterprise"@,
        AuthMethod::WPA3Personal => "WPA3Personal"@,
        AuthMethod::WPA2WPA3Personal => "WPA2WPA3Personal"@,
        AuthMethod::WAPIPersonal => "WAPIPersonal"@,
    }
}

/// A reported authentication method as the panel shows it: `Some(<name>)`, or
/// `None` when the scan did not say, without double quotes.
pub open spec fn auth_label(a: Option<AuthMethod>) -> Seq<char> {
    replace_all(
        match a {
            Some(m) => "Some("@ + auth_name(m) + ")"@,
            None => "None"@,
        },
        "\""@,
        ""@,
    )
}

/// A hardware address as six upper-case hexadecimal pairs separated by colons.
pub open spec fn bssid_text(b: Seq<u8>) -> Seq<char> {
    hex_byte(b[0]) + ":"@ + hex_byte(b[1]) + ":"@ + hex_byte(b[2]) + ":"@ + hex_byte(b[3]) + ":"@
        + hex_byte(b[4]) + ":"@ + hex_byte(b[5])
}

/// The name of an authentication method.
pub fn auth_method_name(a: AuthMethod) -> (s: &'static str)
    ensures
        s@ == auth_name(a),
{
    match a {
        AuthMethod::NoAuth => "None",
        AuthMethod::WEP => "WEP",
        AuthMethod::WPA => "WPA",
        AuthMethod::WPA2Personal => "WPA2Personal",
        AuthMethod::WPAWPA2Personal => "WPAWPA2Personal",
        AuthMethod::WPA2Enterprise => "WPA2Enterprise",
        AuthMethod::WPA3Personal => "WPA3Personal",
        AuthMethod::WPA2WPA3Personal => "WPA2WPA3Personal",
        AuthMethod::WAPIPersonal => "WAPIPersonal",
    }
}

/// A reported authentication method as the panel shows it.
pub fn format_auth(a: Option<AuthMethod>) -> (s: String)
    ensures
        s@ == auth_label(a),
{
    let raw = match a {
        Some(m) => {
            let mut r = String::from_str("Some(");
            r.append(auth_method_name(m));
            r.append(")");
            r
        },
        None => String::from_str("None"),
    };
    proof {
        reveal_strlit("\"");
    }
    replace_str(raw.as_str(), "\"", "")
}

/// A hardware address as the panel shows it.
pub fn format_bssid(b: &[u8; 6]) -> (s: String)
    ensures
        s@ == bssid_text(b@),
{
    let mut s = hex_byte_string(b[0]);
    let mut k: usize = 1;
    while k < 6
        invariant
            1 <= k <= 6,
            b@.len() == 6,
            s@ == bssid_prefix(b@, k as int),
        decreases 6 - k,
    {
        push_char(&mut s, ':');
        let h = hex_byte_string(b[k]);
        s.append(h.as_str());
        k = k + 1;
    }
    proof {
        reveal_strlit(":");
        assert(":"@ =~= seq![':']);
        reveal_with_fuel(bssid_prefix, 6);
        assert(bssid_prefix(b@, 6) =~= bssid_text(b@));
    }
    s
}

/// The first `k` pairs of a hardware address, separated by colons.
pub open spec fn bssid_prefix(b: Seq<u8>, k: int) -> Seq<char>
    decreases k,
{
    if k <= 1 {
        hex_byte(b[0])
    } else {
        bssid_prefix(b, k - 1) + seq![':'] + hex_byte(b[k - 1])
    }
}

/// How a scanned network's authentication is shown: `Some(<method>)` with the
/// method's own name, or `None` when the scan did not report one, for every method.
pub proof fn law_auth_labels()
    ensures
        auth_label(None) == "None"@,
        auth_label(Some(AuthMethod::NoAuth)) == "Some(None)"@,
        auth_label(Some(AuthMethod::WEP)) == "Some(WEP)"@,
        auth_label(Some(AuthMethod::WPA)) == "Some(WPA)"@,
        auth_label(Some(AuthMethod::WPA2Personal)) == "Some(WPA2Personal)"@,
        auth_label(Some(AuthMethod::WPAWPA2Personal)) == "Some(WPAWPA2Personal)"@,
        auth_label(Some(AuthMethod::WPA2Enterprise)) == "Some(WPA2Enterprise)"@,
        auth_label(Some(AuthMethod::WPA3Personal)) == "Some(WPA3Personal)"@,
        auth_label(Some(AuthMethod::WPA2WPA3Personal)) == "Some(WPA2WPA3Personal)"@,
        auth_label(Some(AuthMethod::WAPIPersonal)) == "Some(WAPIPersonal)"@,
{
    reveal_strlit("\"");
    reveal_strlit("Some(");
    reveal_strlit(")");
    reveal_strlit("None");
    reveal_strlit("None");
    reveal_strlit("Some(None)");
    reveal_strlit("WEP");
    reveal_strlit("Some(WEP)");
    reveal_strlit("WPA");
    reveal_strlit("Some(WPA)");
    reveal_strlit("WPA2Personal");
    reveal_strlit("Some(WPA2Personal)");
    reveal_strlit("WPAWPA2Personal");
    reveal_strlit("Some(WPAWPA2Personal)");
    reveal_strlit("WPA2Enterprise");
    reveal_strlit("Some(WPA2Enterprise)");
    reveal_strlit("WPA3Personal");
    reveal_strlit("Some(WPA3Personal)");
    reveal_strlit("WPA2WPA3Personal");
    reveal_strlit("Some(WPA2WPA3Personal)");
    reveal_strlit("WAPIPersonal");
    reveal_strlit("Some(WAPIPersonal)");
    assert forall|m: AuthMethod| #[trigger] auth_label(Some(m)) == "Some("@ + auth_name(m) + ")"@ by {
        let raw = "Some("@ + auth_name(m) + ")"@;
        crate::text::lemma_replace_first_char_absent(raw, "\""@, ""@);
    }
    crate::text::lemma_replace_first_char_absent("None"@, "\""@, ""@);
    assert("Some("@ + "None"@ + ")"@ =~= "Some(None)"@);
    assert("Some("@ + "WEP"@ + ")"@ =~= "Some(WEP)"@);
    assert("Some("@ + "WPA"@ + ")"@ =~= "Some(WPA)"@);
    assert("Some("@ + "WPA2Personal"@ + ")"@ =~= "Some(WPA2Personal)"@);
    assert("Some("@ + "WPAWPA2Personal"@ + ")"@ =~= "Some(WPAWPA2Personal)"@);
    assert("Some("@ + "WPA2Enterprise"@ + ")"@ =~= "Some(WPA2Enterprise)"@);
    assert("Some("@ + "WPA3Personal"@ + ")"@ =~= "Some(WPA3Personal)"@);
    assert("Some("@ + "WPA2WPA3Personal"@ + ")"@ =~= "Some(WPA2WPA3Personal)"@);
    assert("Some("@ + "WAPIPersonal"@ + ")"@ =~= "Some(WAPIPersonal)"@);
}

/// Distinct authentication methods are shown with distinct labels, and none is
/// shown like a network whose method was not reported.
pub proof fn law_auth_labels_distinct(a: AuthMethod, b: AuthMethod)
    ensures
        a != b ==> auth_label(Some(a)) != auth_label(Some(b)),
        auth_label(Some(a)) != auth_label(None),
{
    law_auth_labels();
    reveal_strlit("None");
    reveal_strlit("Some(None)");
    reveal_strlit("Some(WEP)");
    reveal_strlit("Some(WPA)");
    reveal_strlit("Some(WPA2Personal)");
    reveal_strlit("Some(WPAWPA2Personal)");
    reveal_strlit("Some(WPA2Enterprise)");
    reveal_strlit("Some(WPA3Personal)");
    reveal_strlit("Some(WPA2WPA3Personal)");
    reveal_strlit("Some(WAPIPersonal)");
    if a != b && auth_label(Some(a)) == auth_label(Some(b)) {
        let la = auth_label(Some(a));
        let lb = auth_label(Some(b));
        assert(la.len() == lb.len());
        assert(la[5] == lb[5]);
        assert(la[7] == lb[7]);
        assert(la[8] == lb[8]);
        assert(la[9] == lb[9]);
        assert(la[10] == lb[10]);
    }
    assert(auth_label(Some(a))[0] == 'S');
}

/// A scanned access point as the panel lists it.
pub open spec fn network_of(ap: ScannedAp) -> (Seq<char>, Seq<char>, i8, Seq<char>) {
    (ap.ssid@, bssid_text(ap.bssid@), ap.signal_strength, auth_label(ap.auth_method))
}

/// The networks that a scan found, in the order it reported them.
pub fn scan_networks(aps: &[ScannedAp]) -> (nets: Vec<WifiNetwork>)
    ensures
        nets@.len() == aps@.len(),
        forall|i: int|
            0 <= i < aps@.len() ==> (nets@[i].ssid@, nets@[i].bssid@, nets@[i].rssi,
                nets@[i].auth_method@) == #[trigger] network_of(aps@[i]),
{
    let mut nets: Vec<WifiNetwork> = Vec::new();
    let mut i: usize = 0;
    while i < aps.len()
        invariant
            i <= aps.len(),
            nets@.len() == i,
            forall|j: int|
                0 <= j < i ==> (nets@[j].ssid@, nets@[j].bssid@, nets@[j].rssi,
                    nets@[j].auth_method@) == #[trigger] network_of(aps@[j]),
        decreases aps.len() - i,
    {
        let ap = &aps[i];
        let net = WifiNetwork {
            ssid: ap.ssid.clone(),
            bssid: format_bssid(&ap.bssid),
            rssi: ap.signal_strength,
            auth_method: format_auth(ap.auth_method),
        };
        nets.push(net);
        i = i + 1;
    }
    nets
}

} // verus!
