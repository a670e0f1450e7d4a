//! How the Wi-Fi radio is reconfigured: joining a network, switching the access
//! point on or off, and changing the access point's settings.
use vstd::prelude::*;
use vstd::utf8::encode_utf8;

use crate::text::{byte_len, contains, str_contains, str_eq};

verus! {

/// The authentication methods of a Wi-Fi network.
#[derive(Clone, Copy, Debug, PartialEq, Eq, Structural)]
pub enum AuthMethod {
    NoAuth,
    WEP,
    WPA,
    WPA2Personal,
    WPAWPA2Personal,
    WPA2Enterprise,
    WPA3Personal,
    WPA2WPA3Personal,
    WAPIPersonal,
}

/// The stored settings of the device's own access point.
pub struct ApConfig {
    pub ssid: String,
    pub pass: String,
    pub open: bool,
}

/// A network to join, as the panel sends it and as it is saved.
pub struct ConnectRequest {
    pub ssid: String,
    pub pass: String,
    pub auth_type: String,
    pub user: Option<String>,
    pub anon_identity: Option<String>,
    pub eap_method: Option<String>,
    pub phase2: Option<String>,
}

/// The radio's current mode, with the network names that the panel shows.
pub enum WifiMode {
    /// No mode is configured.
    Unconfigured,
    /// Station only, joined (or joining) `ssid`.
    Client { ssid: String },
    /// Access point only, named `ssid`.
    AccessPoint { ssid: String },
    /// Station and access point together.
    Mixed { client_ssid: String, ap_ssid: String },
}

/// Settings for the station side of the radio (the rest keeps its defaults).
pub struct ClientSettings {
    pub ssid: String,
    pub password: String,
    pub auth: AuthMethod,
}

/// Settings for the access point side of the radio (the rest keeps its defaults;
/// `max_connections` only where it is given).
pub struct ApSettings {
    pub ssid: String,
    pub password: String,
    pub auth: AuthMethod,
    pub max_connections: Option<u16>,
}

/// Where the access point settings of a new station configuration come from.
pub enum ApChoice {
    /// The access point that is configured now, unchanged.
    KeepCurrent,
    /// New settings.
    New(ApSettings),
}

/// How to join a network: configure the station and access point together,
/// connect, and then drop the access point if the radio still runs both.
pub struct ConnectPlan {
    pub client: ClientSettings,
    pub ap: ApChoice,
}

/// Why a network cannot be joined.
#[derive(Clone, Copy, Debug, PartialEq, Eq, Structural)]
pub enum ConnectError {
    /// The network name is longer than 32 bytes.
    SsidTooLong,
    /// The password is longer than 64 bytes.
    PasswordTooLong,
}

/// What switching the access point on or off does.
pub enum ApTogglePlan {
    Unchanged,
    /// Keep only the station configuration.
    ClientOnly,
    /// Add an access point with these settings to the station configuration.
    AddAp(ApSettings),
}

/// What changing the access point's settings does.
pub enum ApUpdatePlan {
    Unchanged,
    /// Keep the station configuration and run the access point with these settings beside it.
    WithClient(ApSettings),
    /// Run only the access point, with these settings.
    ApOnly(ApSettings),
}

// ---------------------------------------------------------------------------
// Models
// ---------------------------------------------------------------------------

/// The kinds of radio mode.
#[derive(Clone, Copy, Debug, PartialEq, Eq, Structural)]
pub enum ModeKind {
    Unconfigured,
    Client,
    AccessPoint,
    Mixed,
}

impl WifiMode {
    pub open spec fn kind(&self) -> ModeKind {
        match self {
            WifiMode::Unconfigured => ModeKind::Unconfigured,
            WifiMode::Client { .. } => ModeKind::Client,
            WifiMode::AccessPoint { .. } => ModeKind::AccessPoint,
            WifiMode::Mixed { .. } => ModeKind::Mixed,
        }
    }
}

/// Access point settings, as values.
pub struct ApSettingsView {
    pub ssid: Seq<char>,
    pub password: Seq<char>,
    pub auth: AuthMethod,
    pub max_connections: Option<u16>,
}

impl View for ApSettings {
    type V = ApSettingsView;

    open spec fn view(&self) -> ApSettingsView {
        ApSettingsView {
            ssid: self.ssid@,
            password: self.password@,
            auth: self.auth,
            max_connections: self.max_connections,
        }
    }
}

/// Station settings, as values.
pub struct ClientSettingsView {
    pub ssid: Seq<char>,
    pub password: Seq<char>,
    pub auth: AuthMethod,
}

impl View for ClientSettings {
    type V = ClientSettingsView;

    open spec fn view(&self) -> ClientSettingsView {
        ClientSettingsView { ssid: self.ssid@, password: self.password@, auth: self.auth }
    }
}

/// `s` if its UTF-8 encoding fits in `cap` bytes, and the empty text otherwise (what
/// a fixed-capacity string of the radio driver holds after `try_into().unwrap_or_default()`).
pub open spec fn fit(s: Seq<char>, cap: nat) -> Seq<char> {
    if encode_utf8(s).len() <= cap {
        s
    } else {
        Seq::empty()
    }
}

/// The access point settings made from the stored settings: the name (if it fits in
/// 32 bytes), and either no authentication or WPA2 with the password (if it fits in
/// 64 bytes).
pub open spec fn ap_from_config(ssid: Seq<char>, pass: Seq<char>, open: bool, max: Option<u16>) -> ApSettingsView {
    ApSettingsView {
        ssid: fit(ssid, 32),
        password: if open { Seq::empty() } else { fit(pass, 64) },
        auth: if open { AuthMethod::NoAuth } else { AuthMethod::WPA2Personal },
        max_connections: max,
    }
}

/// The authentication used to join a network: WPA2 Enterprise when the requested
/// type mentions `Enterprise`; none when there is no password or the type is
/// `None` or `Open`; WPA2 Personal otherwise.
pub open spec fn client_auth(auth_type: Seq<char>, pass: Seq<char>) -> AuthMethod {
    if contains(auth_type, "Enterprise"@) {
        AuthMethod::WPA2Enterprise
    } else if pass.len() == 0 || auth_type == "None"@ || auth_type == "Open"@ {
        AuthMethod::NoAuth
    } else {
        AuthMethod::WPA2Personal
    }
}

/// Whether the access point is on in a mode.
pub open spec fn ap_on(k: ModeKind) -> bool {
    k == ModeKind::Mixed || k == ModeKind::AccessPoint
}

/// The kind of mode that switching the access point on or off leads to.
pub open spec fn toggled_kind(k: ModeKind, enable: bool) -> ModeKind {
    if k == ModeKind::Mixed && !enable {
        ModeKind::Client
    } else if k == ModeKind::Client && enable {
        ModeKind::Mixed
    } else {
        k
    }
}

/// The kind of mode that changing the access point's settings leads to.
pub open spec fn updated_kind(k: ModeKind) -> ModeKind {
    if k == ModeKind::Client || k == ModeKind::Mixed {
        ModeKind::Mixed
    } else {
        k
    }
}

/// The kind of mode that a toggle plan leads to from kind `k`.
pub open spec fn after_toggle(k: ModeKind, p: ApTogglePlan) -> ModeKind {
    match p {
        ApTogglePlan::Unchanged => k,
        ApTogglePlan::ClientOnly => ModeKind::Client,
        ApTogglePlan::AddAp(_) => ModeKind::Mixed,
    }
}

/// The kind of mode that an update plan leads to from kind `k`.
pub open spec fn after_update(k: ModeKind, p: ApUpdatePlan) -> ModeKind {
    match p {
        ApUpdatePlan::Unchanged => k,
        ApUpdatePlan::WithClient(_) => ModeKind::Mixed,
        ApUpdatePlan::ApOnly(_) => ModeKind::AccessPoint,
    }
}

// ---------------------------------------------------------------------------
// Executable functions
// ---------------------------------------------------------------------------

/// `s` if its UTF-8 encoding fits in `cap` bytes, else the empty string.
fn fit_exec(s: &str, cap: usize) -> (r: String)
    ensures
        r@ == fit(s@, cap as nat),
{
    if byte_len(s) <= cap {
        String::from_str(s)
    } else {
        String::new()
    }
}

/// The access point settings made from the stored settings `config`.
pub fn ap_settings(config: &ApConfig, max_connections: Option<u16>) -> (s: ApSettings)
    ensures
        s@ == ap_from_config(config.ssid@, config.pass@, config.open, max_connections),
{
    let ssid = fit_exec(config.ssid.as_str(), 32);
    if config.open {
        ApSettings { ssid, password: String::new(), auth: AuthMethod::NoAuth, max_connections }
    } else {
        let password = fit_exec(config.pass.as_str(), 64);
        ApSettings { ssid, password, auth: AuthMethod::WPA2Personal, max_connections }
    }
}

/// The access point that the radio starts with: the stored settings, for at most
/// four stations, beside an unconfigured station.
pub fn start_wifi(config: &ApConfig) -> (s: ApSettings)
    ensures
        s@ == ap_from_config(config.ssid@, config.pass@, config.open, Some(4u16)),
{
    ap_settings(config, Some(4))
}

/// The authentication used to join a network of type `auth_type` with password `pass`.
pub fn choose_client_auth(auth_type: &str, pass: &str) -> (a: AuthMethod)
    ensures
        a == client_auth(auth_type@, pass@),
{
    if str_contains(auth_type, "Enterprise") {
        AuthMethod::WPA2Enterprise
    } else if pass.is_empty() || str_eq(auth_type, "None") || str_eq(auth_type, "Open") {
        AuthMethod::NoAuth
    } else {
        AuthMethod::WPA2Personal
    }
}

/// How to join the network of `req` from the current mode: the station is set to the
/// requested network; the access point is the one running now or, if none runs, the
/// stored one. Fails when the name is over 32 bytes or the password over 64 bytes.
pub fn connect_to_wifi(current: &WifiMode, ap_saved: &ApConfig, req: &ConnectRequest) -> (r: Result<ConnectPlan, ConnectError>)
    ensures
        encode_utf8(req.ssid@).len() > 32 <==> r == Err::<ConnectPlan, ConnectError>(ConnectError::SsidTooLong),
        encode_utf8(req.ssid@).len() <= 32 && encode_utf8(req.pass@).len() > 64 <==> r == Err::<ConnectPlan, ConnectError>(ConnectError::PasswordTooLong),
        r matches Ok(plan) ==> {
            &&& plan.client@ == (ClientSettingsView {
                ssid: req.ssid@,
                password: req.pass@,
                auth: client_auth(req.auth_type@, req.pass@),
            })
            &&& (ap_on(current.kind()) ==> plan.ap is KeepCurrent)
            &&& (!ap_on(current.kind()) ==> (plan.ap matches ApChoice::New(a) && a@ == ap_from_config(
                ap_saved.ssid@,
                ap_saved.pass@,
                ap_saved.open,
                None,
            )))
        },
{
    let ap = match current {
        WifiMode::Mixed { .. } | WifiMode::AccessPoint { .. } => ApChoice::KeepCurrent,
        _ => ApChoice::New(ap_settings(ap_saved, None)),
    };
    if byte_len(req.ssid.as_str()) > 32 {
        return Err(ConnectError::SsidTooLong);
    }
    if byte_len(req.pass.as_str()) > 64 {
        return Err(ConnectError::PasswordTooLong);
    }
    let auth = choose_client_auth(req.auth_type.as_str(), req.pass.as_str());
    let client = ClientSettings { ssid: req.ssid.clone(), password: req.pass.clone(), auth };
    Ok(ConnectPlan { client, ap })
}

/// The message that reports why a network cannot be joined.
pub fn connect_error_message(e: ConnectError) -> (m: String)
    ensures
        m@ == match e {
            ConnectError::SsidTooLong => "SSID demasiado largo"@,
            ConnectError::PasswordTooLong => "Contraseña demasiado larga"@,
        },
{
    match e {
        ConnectError::SsidTooLong => String::from_str("SSID demasiado largo"),
        ConnectError::PasswordTooLong => String::from_str("Contraseña demasiado larga"),
    }
}

/// Whether, once connected, the access point is dropped: it is whenever the radio
/// runs station and access point together.
pub fn drop_ap_after_connect(now: &WifiMode) -> (b: bool)
    ensures
        b == (now.kind() == ModeKind::Mixed),
{
    match now {
        WifiMode::Mixed { .. } => true,
        _ => false,
    }
}

/// Whether the access point is on.
pub fn get_ap_status(current: &WifiMode) -> (on: bool)
    ensures
        on == ap_on(current.kind()),
{
    match current {
        WifiMode::Mixed { .. } | WifiMode::AccessPoint { .. } => true,
        _ => false,
    }
}

/// What switching the access point on (`enable`) or off does: from station and
/// access point, off keeps the station only; from station only, on adds the stored
/// access point; anything else is left as it is.
pub fn set_ap_status(current: &WifiMode, ap_saved: &ApConfig, enable: bool) -> (p: ApTogglePlan)
    ensures
        current.kind() == ModeKind::Mixed && !enable ==> p is ClientOnly,
        current.kind() == ModeKind::Client && enable ==> (p matches ApTogglePlan::AddAp(a) && a@
            == ap_from_config(ap_saved.ssid@, ap_saved.pass@, ap_saved.open, None)),
        !(current.kind() == ModeKind::Mixed && !enable) && !(current.kind() == ModeKind::Client
            && enable) ==> p is Unchanged,
        after_toggle(current.kind(), p) == toggled_kind(current.kind(), enable),
{
    match current {
        WifiMode::Mixed { .. } => {
            if !enable {
                ApTogglePlan::ClientOnly
            } else {
                ApTogglePlan::Unchanged
            }
        },
        WifiMode::Client { .. } => {
            if enable {
                ApTogglePlan::AddAp(ap_settings(ap_saved, None))
            } else {
                ApTogglePlan::Unchanged
            }
        },
        _ => ApTogglePlan::Unchanged,
    }
}

/// What changing the access point's settings to `config` does: beside a station, the
/// access point runs with the new settings; alone, it is replaced; with no mode
/// nothing changes.
pub fn update_ap_config(current: &WifiMode, config: &ApConfig) -> (p: ApUpdatePlan)
    ensures
        (current.kind() == ModeKind::Client || current.kind() == ModeKind::Mixed) ==> (p matches ApUpdatePlan::WithClient(a)
            && a@ == ap_from_config(config.ssid@, config.pass@, config.open, None)),
        current.kind() == ModeKind::AccessPoint ==> (p matches ApUpdatePlan::ApOnly(a) && a@
            == ap_from_config(config.ssid@, config.pass@, config.open, None)),
        current.kind() == ModeKind::Unconfigured ==> p is Unchanged,
        after_update(current.kind(), p) == updated_kind(current.kind()),
{
    match current {
        WifiMode::Client { .. } | WifiMode::Mixed { .. } => ApUpdatePlan::WithClient(
            ap_settings(config, None),
        ),
        WifiMode::AccessPoint { .. } => ApUpdatePlan::ApOnly(ap_settings(config, None)),
        WifiMode::Unconfigured => ApUpdatePlan::Unchanged,
    }
}

// ---------------------------------------------------------------------------
// Laws
// ---------------------------------------------------------------------------

/// Switching the access point on or off from a station mode leaves it exactly as
/// asked, and doing it twice is the same as doing it once.
pub proof fn law_toggle_sets_ap(k: ModeKind, enable: bool)
    requires
        k == ModeKind::Client || k == ModeKind::Mixed,
    ensures
        ap_on(toggled_kind(k, enable)) == enable,
        toggled_kind(toggled_kind(k, enable), enable) == toggled_kind(k, enable),
{
}

/// Changing the access point's settings leaves a running access point running and
/// an unconfigured radio off; from station only, it switches the access point on.
pub proof fn law_update_ap_state(k: ModeKind)
    ensures
        ap_on(updated_kind(k)) == (ap_on(k) || k == ModeKind::Client),
{
}

/// Every access point made from stored settings has a name of at most 32 bytes and
/// a password of at most 64 bytes.
pub proof fn law_ap_settings_fit(ssid: Seq<char>, pass: Seq<char>, open: bool, max: Option<u16>)
    ensures
        encode_utf8(ap_from_config(ssid, pass, open, max).ssid).len() <= 32,
        encode_utf8(ap_from_config(ssid, pass, open, max).password).len() <= 64,
{
    assert(encode_utf8(Seq::<char>::empty()) =~= Seq::<u8>::empty());
}

} // verus!
