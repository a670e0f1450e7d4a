//! The Discord bot's decisions: reading gateway events, keeping the heartbeat,
//! matching commands, and the requests it sends to the Discord API.
use vstd::prelude::*;
use vstd::utf8::encode_utf8;

use crate::discord::storage::{CustomCommand, DiscordConfig, SlashCommand};
use crate::system::{filled, format_placeholders, DeviceReadings};
use crate::text::{
    byte_len, chars_eq, decimal, decimal_string, lowercase, replace_all, replace_str, str_eq,
    to_lowercase, trim, trim_str,
};
use crate::web::server::HttpMethod;

verus! {

// ---------------------------------------------------------------------------
// JSON text
// ---------------------------------------------------------------------------

/// A lower-case hexadecimal digit.
pub open spec fn hex_low(d: int) -> char {
    if d < 10 {
        crate::text::digit_char(d)
    } else if d == 10 {
        'a'
    } else if d == 11 {
        'b'
    } else if d == 12 {
        'c'
    } else if d == 13 {
        'd'
    } else if d == 14 {
        'e'
    } else {
        'f'
    }
}

/// How one character is written inside a JSON string by `serde_json`: quote and
/// backslash are escaped, the control characters with a short escape use it, the
/// other control characters below U+0020 become `\u00xx`, and every other
/// character is written as it is.
pub open spec fn json_escape_char(c: char) -> Seq<char> {
    if c == '"' {
        seq!['\\', '"']
    } else if c == '\\' {
        seq!['\\', '\\']
    } else if c == '\x08' {
        seq!['\\', 'b']
    } else if c == '\t' {
        seq!['\\', 't']
    } else if c == '\n' {
        seq!['\\', 'n']
    } else if c == '\x0C' {
        seq!['\\', 'f']
    } else if c == '\r' {
        seq!['\\', 'r']
    } else if (c as int) < 0x20 {
        seq!['\\', 'u', '0', '0', hex_low((c as int) / 16), hex_low((c as int) % 16)]
    } else {
        seq![c]
    }
}

/// The characters of `s`, escaped for a JSON string.
pub open spec fn json_escape(s: Seq<char>) -> Seq<char>
    decreases s.len(),
{
    if s.len() == 0 {
        Seq::empty()
    } else {
        json_escape_char(s[0]) + json_escape(s.skip(1))
    }
}

/// `s` as a JSON string literal.
pub open spec fn json_quote(s: Seq<char>) -> Seq<char> {
    seq!['"'] + json_escape(s) + seq!['"']
}

/// `s` as a JSON string literal (`serde_json::to_string` on a `str`, which cannot
/// fail for a string).
#[verifier::external_body]
fn json_string(s: &str) -> (r: String)
    ensures
        r@ == json_quote(s@),
{
    serde_json::to_string(s).unwrap_or_default()
}

// ---------------------------------------------------------------------------
// Gateway events
// ---------------------------------------------------------------------------

/// The fields of a gateway message that the bot reads; a field is absent when the
/// message lacks it or holds a value of another type.
pub struct GatewayPayload {
    /// `op`
    pub op: Option<u64>,
    /// `d.heartbeat_interval`
    pub heartbeat_interval: Option<u64>,
    /// `t`
    pub event_type: Option<String>,
    /// `d.author.bot`
    pub author_bot: Option<bool>,
    /// `d.content`
    pub content: Option<String>,
    /// `d.channel_id`
    pub channel_id: Option<String>,
    /// `d.data.name`
    pub command_name: Option<String>,
    /// `d.id`
    pub interaction_id: Option<String>,
    /// `d.token`
    pub interaction_token: Option<String>,
}

/// The fields of a gateway message, as values.
pub struct GatewayPayloadView {
    pub op: Option<u64>,
    pub heartbeat_interval: Option<u64>,
    pub event_type: Option<Seq<char>>,
    pub author_bot: Option<bool>,
    pub content: Option<Seq<char>>,
    pub channel_id: Option<Seq<char>>,
    pub command_name: Option<Seq<char>>,
    pub interaction_id: Option<Seq<char>>,
    pub interaction_token: Option<Seq<char>>,
}

/// An optional text, as a value.
pub open spec fn opt_text(s: Option<String>) -> Option<Seq<char>> {
    match s {
        Some(v) => Some(v@),
        None => None,
    }
}

impl View for GatewayPayload {
    type V = GatewayPayloadView;

    open spec fn view(&self) -> GatewayPayloadView {
        GatewayPayloadView {
            op: self.op,
            heartbeat_interval: self.heartbeat_interval,
            event_type: opt_text(self.event_type),
            author_bot: self.author_bot,
            content: opt_text(self.content),
            channel_id: opt_text(self.channel_id),
            command_name: opt_text(self.command_name),
            interaction_id: opt_text(self.interaction_id),
            interaction_token: opt_text(self.interaction_token),
        }
    }
}

/// What `serde_json` reads from the text of a gateway message: nothing when the text
/// is not a JSON document, and otherwise the fields that the bot uses.
pub uninterp spec fn gateway_fields(text: Seq<char>) -> Option<GatewayPayloadView>;

/// Reads a gateway message (`serde_json::from_str::<Value>`) and picks the fields
/// that the bot uses; a field is absent when the message lacks it or holds a value
/// of another type. The result is named by `gateway_fields`, a function of the text alone.
#[verifier::external_body]
fn read_gateway_message(text: &str) -> (p: Option<GatewayPayload>)
    ensures
        match p {
            Some(q) => gateway_fields(text@) == Some(q@),
            None => gateway_fields(text@) is None,
        },
{
    let v: serde_json::Value = serde_json::from_str(text).ok()?;
    let d = &v["d"];
    let s = |x: &serde_json::Value| x.as_str().map(String::from);
    Some(GatewayPayload {
        op: v["op"].as_u64(),
        heartbeat_interval: d["heartbeat_interval"].as_u64(),
        event_type: s(&v["t"]),
        author_bot: d["author"]["bot"].as_bool(),
        content: s(&d["content"]),
        channel_id: s(&d["channel_id"]),
        command_name: s(&d["data"]["name"]),
        interaction_id: s(&d["id"]),
        interaction_token: s(&d["token"]),
    })
}

/// What the gateway told the bot.
pub enum BotEvent {
    /// The gateway's greeting, with the heartbeat interval in milliseconds.
    Hello(u64),
    /// The gateway acknowledged a heartbeat.
    HeartbeatAck,
    /// A message from a user.
    Message { content: String, channel_id: String },
    /// A slash command.
    Interaction { name: String, id: String, token: String },
}

/// A gateway event, as values.
pub enum BotEventView {
    Hello(u64),
    HeartbeatAck,
    Message { content: Seq<char>, channel_id: Seq<char> },
    Interaction { name: Seq<char>, id: Seq<char>, token: Seq<char> },
}

impl View for BotEvent {
    type V = BotEventView;

    open spec fn view(&self) -> BotEventView {
        match self {
            BotEvent::Hello(i) => BotEventView::Hello(*i),
            BotEvent::HeartbeatAck => BotEventView::HeartbeatAck,
            BotEvent::Message { content, channel_id } => BotEventView::Message {
                content: content@,
                channel_id: channel_id@,
            },
            BotEvent::Interaction { name, id, token } => BotEventView::Interaction {
                name: name@,
                id: id@,
                token: token@,
            },
        }
    }
}

/// A text field, or the empty text when it is absent.
pub open spec fn text_or_empty(s: Option<Seq<char>>) -> Seq<char> {
    match s {
        Some(v) => v,
        None => Seq::empty(),
    }
}

/// The heartbeat interval assumed when the greeting gives none, in milliseconds.
pub const DEFAULT_HEARTBEAT_MS: u64 = 41250;

/// The event that a gateway message carries: a greeting (op 10), a heartbeat
/// acknowledgement (op 11), or a dispatch (op 0) of a message from a user that is
/// not a bot, or of a slash command. Anything else carries none.
pub open spec fn event_of(p: GatewayPayloadView) -> Option<BotEventView> {
    match p.op {
        Some(op) => if op == 10 {
            Some(
                BotEventView::Hello(
                    match p.heartbeat_interval {
                        Some(i) => i,
                        None => DEFAULT_HEARTBEAT_MS,
                    },
                ),
            )
        } else if op == 11 {
            Some(BotEventView::HeartbeatAck)
        } else if op == 0 {
            let t = text_or_empty(p.event_type);
            if t == "MESSAGE_CREATE"@ && p.author_bot != Some(true) {
                Some(
                    BotEventView::Message {
                        content: text_or_empty(p.content),
                        channel_id: text_or_empty(p.channel_id),
                    },
                )
            } else if t == "INTERACTION_CREATE"@ {
                Some(
                    BotEventView::Interaction {
                        name: text_or_empty(p.command_name),
                        id: text_or_empty(p.interaction_id),
                        token: text_or_empty(p.interaction_token),
                    },
                )
            } else {
                None
            }
        } else {
            None
        },
        None => None,
    }
}

fn text_or_empty_exec(s: &Option<String>) -> (r: String)
    ensures
        r@ == text_or_empty(opt_text(*s)),
{
    match s {
        Some(v) => v.clone(),
        None => String::new(),
    }
}

/// The event that a gateway message carries, if any (see `event_of`).
pub fn process_discord_event(p: &GatewayPayload) -> (e: Option<BotEvent>)
    ensures
        match e {
            Some(ev) => event_of(p@) == Some(ev@),
            None => event_of(p@) is None,
        },
{
    match p.op {
        Some(op) => {
            if op == 10 {
                let i = match p.heartbeat_interval {
                    Some(i) => i,
                    None => DEFAULT_HEARTBEAT_MS,
                };
                Some(BotEvent::Hello(i))
            } else if op == 11 {
                Some(BotEvent::HeartbeatAck)
            } else if op == 0 {
                let t = text_or_empty_exec(&p.event_type);
                if str_eq(t.as_str(), "MESSAGE_CREATE") && p.author_bot != Some(true) {
                    Some(
                        BotEvent::Message {
                            content: text_or_empty_exec(&p.content),
                            channel_id: text_or_empty_exec(&p.channel_id),
                        },
                    )
                } else if str_eq(t.as_str(), "INTERACTION_CREATE") {
                    Some(
                        BotEvent::Interaction {
                            name: text_or_empty_exec(&p.command_name),
                            id: text_or_empty_exec(&p.interaction_id),
                            token: text_or_empty_exec(&p.interaction_token),
                        },
                    )
                } else {
                    None
                }
            } else {
                None
            }
        },
        None => None,
    }
}

// ---------------------------------------------------------------------------
// Text frames
// ---------------------------------------------------------------------------

/// The largest incomplete message kept while waiting for the rest, in bytes.
pub const FRAME_BUFFER_LIMIT: usize = 16384;

/// Adds a received text frame to the message being assembled.
pub fn append_fragment(buffer: &mut String, text: &str)
    ensures
        final(buffer)@ == old(buffer)@ + text@,
{
    buffer.append(text);
}

/// The message being assembled after an attempt to read it.
pub open spec fn settled(buffer: Seq<char>, parsed: bool) -> Seq<char> {
    if parsed || encode_utf8(buffer).len() > FRAME_BUFFER_LIMIT {
        Seq::empty()
    } else {
        buffer
    }
}

/// After trying to read the assembled message: a message that could be read is
/// done, and one that could not is dropped once it is over the size limit.
pub fn settle_buffer(buffer: &mut String, parsed: bool)
    ensures
        final(buffer)@ == settled(old(buffer)@, parsed),
{
    if parsed || byte_len(buffer.as_str()) > FRAME_BUFFER_LIMIT {
        *buffer = String::new();
    }
}

/// Handles a received text frame: adds it to the message being assembled, reads
/// the message, derives its event if it could be read, and then keeps or drops what
/// was assembled (see `settled`).
pub fn on_text_frame(buffer: &mut String, fragment: &str) -> (e: Option<BotEvent>)
    ensures
        match gateway_fields(old(buffer)@ + fragment@) {
            Some(p) => match e {
                Some(ev) => event_of(p) == Some(ev@),
                None => event_of(p) is None,
            },
            None => e is None,
        },
        final(buffer)@ == settled(
            old(buffer)@ + fragment@,
            gateway_fields(old(buffer)@ + fragment@) is Some,
        ),
{
    append_fragment(buffer, fragment);
    let read = read_gateway_message(buffer.as_str());
    let e = match &read {
        Some(p) => process_discord_event(p),
        None => None,
    };
    settle_buffer(buffer, read.is_some());
    e
}

// ---------------------------------------------------------------------------
// The gateway connection
// ---------------------------------------------------------------------------

/// The largest heartbeat period in ticks that a greeting can set.
pub open spec fn max_ticks() -> int {
    (u64::MAX / 1000) as int
}

/// The heartbeat bookkeeping of a gateway connection: a heartbeat is sent every
/// `hb_interval` one-second ticks without events.
pub struct GatewaySession {
    pub hb_interval: u64,
    pub ticks: u64,
}

impl GatewaySession {
    /// The session's counters stay within what a greeting can set.
    pub open spec fn wf(&self) -> bool {
        self.hb_interval <= max_ticks() && self.ticks <= max_ticks()
    }

    /// A new connection: a heartbeat every 41 ticks until the greeting says otherwise.
    pub fn new() -> (s: GatewaySession)
        ensures
            s.wf(),
            s.hb_interval == 41,
            s.ticks == 0,
    {
        GatewaySession { hb_interval: 41, ticks: 0 }
    }
}

/// What the connection loop receives.
pub enum GatewayInput {
    /// An event from the gateway.
    Event(BotEvent),
    /// A second passed without an event.
    Timeout,
    /// The event channel is closed, a restart was asked for, or the internet is gone.
    Closed,
}

/// What the connection loop does next.
pub enum GatewayAction {
    /// Send this identify message.
    Identify(String),
    /// Store the time since the last heartbeat as the gateway ping.
    RecordPing,
    /// Answer a text message.
    HandleText { content: String, channel_id: String },
    /// Answer a slash command.
    HandleSlash { name: String, id: String, token: String },
    /// Send this heartbeat and restart the ping clock.
    Heartbeat(String),
    /// Nothing to do.
    Wait,
    /// Leave the loop.
    Stop,
}

/// One quiet second: the tick count advances, and once it reaches the period a
/// heartbeat is due and the count starts again from zero.
pub open spec fn quiet_tick(hb: int, ticks: int) -> (int, bool) {
    if ticks + 1 >= hb {
        (0, true)
    } else {
        (ticks + 1, false)
    }
}

/// The tick count and the number of heartbeats after `k` quiet seconds.
pub open spec fn quiet_run(hb: int, ticks: int, k: nat) -> (int, nat)
    decreases k,
{
    if k == 0 {
        (ticks, 0)
    } else {
        let (t1, beat) = quiet_tick(hb, ticks);
        let (t2, n) = quiet_run(hb, t1, (k - 1) as nat);
        (t2, if beat { n + 1 } else { n })
    }
}

/// The identify message for a bot token.
pub open spec fn identify_text(token: Seq<char>) -> Seq<char> {
    "{\"d\":{\"intents\":33281,\"properties\":{\"browser\":\"esp-bot\",\"device\":\"esp32\",\"os\":\"esp32\"},\"token\":"@
        + json_quote(token) + "},\"op\":2}"@
}

/// The heartbeat message.
pub open spec fn heartbeat_text() -> Seq<char> {
    "{\"d\":null,\"op\":1}"@
}

/// The identify message for a bot token.
pub fn identify_message(token: &str) -> (m: String)
    ensures
        m@ == identify_text(token@),
{
    let mut m = String::from_str(
        "{\"d\":{\"intents\":33281,\"properties\":{\"browser\":\"esp-bot\",\"device\":\"esp32\",\"os\":\"esp32\"},\"token\":",
    );
    let q = json_string(token);
    m.append(q.as_str());
    m.append("},\"op\":2}");
    m
}

/// One turn of the connection loop: a greeting sets the heartbeat period to the
/// announced interval in whole seconds less two and sends the identify message; an
/// acknowledgement records the ping; messages and commands are handed on; a quiet
/// second advances the tick count and, once it reaches the period, sends a heartbeat
/// and starts counting again.
pub fn gateway_step(s: &mut GatewaySession, input: GatewayInput, bot_token: &str) -> (a: GatewayAction)
    requires
        old(s).wf(),
        input matches GatewayInput::Event(BotEvent::Hello(i)) ==> i >= 2000,
    ensures
        final(s).wf(),
        match input {
            GatewayInput::Event(BotEvent::Hello(i)) => {
                &&& final(s).hb_interval == i / 1000 - 2
                &&& final(s).ticks == old(s).ticks
                &&& a matches GatewayAction::Identify(m) && m@ == identify_text(bot_token@)
            },
            GatewayInput::Event(BotEvent::HeartbeatAck) => *final(s) == *old(s) && a is RecordPing,
            GatewayInput::Event(BotEvent::Message { content, channel_id }) => {
                &&& *final(s) == *old(s)
                &&& a matches GatewayAction::HandleText { content: c, channel_id: ch } && c == content
                    && ch == channel_id
            },
            GatewayInput::Event(BotEvent::Interaction { name, id, token }) => {
                &&& *final(s) == *old(s)
                &&& a matches GatewayAction::HandleSlash { name: n, id: d, token: t } && n == name
                    && d == id && t == token
            },
            GatewayInput::Timeout => {
                &&& final(s).hb_interval == old(s).hb_interval
                &&& final(s).ticks == quiet_tick(old(s).hb_interval as int, old(s).ticks as int).0
                &&& quiet_tick(old(s).hb_interval as int, old(s).ticks as int).1 ==> (a matches GatewayAction::Heartbeat(m)
                    && m@ == heartbeat_text())
                &&& !quiet_tick(old(s).hb_interval as int, old(s).ticks as int).1 ==> a is Wait
            },
            GatewayInput::Closed => *final(s) == *old(s) && a is Stop,
        },
{
    match input {
        GatewayInput::Event(BotEvent::Hello(interval)) => {
            s.hb_interval = interval / 1000 - 2;
            GatewayAction::Identify(identify_message(bot_token))
        },
        GatewayInput::Event(BotEvent::HeartbeatAck) => GatewayAction::RecordPing,
        GatewayInput::Event(BotEvent::Message { content, channel_id }) => GatewayAction::HandleText {
            content,
            channel_id,
        },
        GatewayInput::Event(BotEvent::Interaction { name, id, token }) => GatewayAction::HandleSlash {
            name,
            id,
            token,
        },
        GatewayInput::Timeout => {
            s.ticks = s.ticks + 1;
            if s.ticks >= s.hb_interval {
                s.ticks = 0;
                GatewayAction::Heartbeat(String::from_str("{\"d\":null,\"op\":1}"))
            } else {
                GatewayAction::Wait
            }
        },
        GatewayInput::Closed => GatewayAction::Stop,
    }
}

// ---------------------------------------------------------------------------
// Requests to the Discord API
// ---------------------------------------------------------------------------

/// A request to the Discord API, authenticated with the bot token.
pub struct HttpRequest {
    pub method: HttpMethod,
    pub url: String,
    pub body: String,
    pub bot_token: String,
}

/// The base of the Discord API.
pub open spec fn api_url() -> Seq<char> {
    "https://discord.com/api/v10"@
}

/// The `Authorization` header of a request.
pub fn authorization(req: &HttpRequest) -> (h: String)
    ensures
        h@ == "Bot "@ + req.bot_token@,
{
    let mut h = String::from_str("Bot ");
    h.append(req.bot_token.as_str());
    h
}

/// The `Content-Length` header of a request: its body's size in bytes.
pub fn content_length(req: &HttpRequest) -> (h: String)
    ensures
        h@ == decimal(encode_utf8(req.body@).len()),
{
    decimal_string(byte_len(req.body.as_str()) as u128)
}

/// A text message as it is compared with the triggers: trimmed and in lower case.
pub open spec fn clean_text(s: Seq<char>) -> Seq<char> {
    lowercase(trim(s))
}

/// The index of the first text command whose trigger matches `clean`.
pub open spec fn first_text_match(cmds: Seq<CustomCommand>, clean: Seq<char>) -> Option<int>
    decreases cmds.len(),
{
    if cmds.len() == 0 {
        None
    } else if clean_text(cmds[0].trigger@) == clean {
        Some(0)
    } else {
        match first_text_match(cmds.skip(1), clean) {
            Some(i) => Some(i + 1),
            None => None,
        }
    }
}

/// The body of a message that says `text`.
pub open spec fn message_body(text: Seq<char>) -> Seq<char> {
    "{\"content\":"@ + json_quote(text) + "}"@
}

/// The reply that a text message gets: the response of the first command whose
/// trigger it matches, with its placeholders filled in, posted to the message's
/// channel.
pub open spec fn text_reply_of(
    content: Seq<char>,
    channel_id: Seq<char>,
    config: DiscordConfig,
    r: DeviceReadings,
) -> Option<(Seq<char>, Seq<char>)> {
    match first_text_match(config.custom_commands@, clean_text(content)) {
        Some(i) => Some(
            (
                api_url() + "/channels/"@ + channel_id + "/messages"@,
                message_body(filled(config.custom_commands@[i].response@, r)),
            ),
        ),
        None => None,
    }
}

/// The request that answers a text message, if it matches a command (see `text_reply_of`).
pub fn handle_text_command(content: &str, channel_id: &str, config: &DiscordConfig, r: &DeviceReadings) -> (req: Option<HttpRequest>)
    requires
        r.ram_free_kb <= r.ram_total_kb,
        r.nvs_used <= r.nvs_total,
    ensures
        match req {
            Some(q) => text_reply_of(content@, channel_id@, *config, *r) == Some((q.url@, q.body@))
                && q.method == HttpMethod::Post && q.bot_token@ == config.token@,
            None => text_reply_of(content@, channel_id@, *config, *r) is None,
        },
{
    let trimmed = trim_str(content);
    let clean = to_lowercase(trimmed.as_str());
    let cv = crate::text::to_chars(clean.as_str());
    let cmds = &config.custom_commands;
    let mut i: usize = 0;
    assert(cmds@.skip(0) =~= cmds@);
    while i < cmds.len()
        invariant
            i <= cmds.len(),
            cv@ == clean_text(content@),
            cmds@ == config.custom_commands@,
            first_text_match(cmds@, cv@) == match first_text_match(cmds@.skip(i as int), cv@) {
                Some(j) => Some(j + i),
                None => None,
            },
            r.ram_free_kb <= r.ram_total_kb,
            r.nvs_used <= r.nvs_total,
        decreases cmds.len() - i,
    {
        let t = trim_str(cmds[i].trigger.as_str());
        let tl = to_lowercase(t.as_str());
        let tv = crate::text::to_chars(tl.as_str());
        assert(cmds@.skip(i as int)[0] == cmds@[i as int]);
        assert(cmds@.skip(i as int).skip(1) =~= cmds@.skip(i + 1));
        if chars_eq(tv.as_slice(), cv.as_slice()) {
            let processed = format_placeholders(cmds[i].response.as_str(), r);
            let mut url = String::from_str("https://discord.com/api/v10/channels/");
            url.append(channel_id);
            url.append("/messages");
            let mut body = String::from_str("{\"content\":");
            let q = json_string(processed.as_str());
            body.append(q.as_str());
            body.append("}");
            proof {
                reveal_strlit("https://discord.com/api/v10/channels/");
                reveal_strlit("https://discord.com/api/v10");
                reveal_strlit("/channels/");
                assert("https://discord.com/api/v10/channels/"@ =~= api_url() + "/channels/"@);
                assert(url@ =~= api_url() + "/channels/"@ + channel_id@ + "/messages"@);
            }
            return Some(
                HttpRequest { method: HttpMethod::Post, url, body, bot_token: config.token.clone() },
            );
        }
        i = i + 1;
    }
    None
}

/// A slash command's registered name: its trigger without `/` and spaces, in lower case.
pub open spec fn command_name(trigger: Seq<char>) -> Seq<char> {
    lowercase(replace_all(replace_all(trigger, "/"@, ""@), " "@, ""@))
}

/// A slash command's registered name.
pub fn slash_command_name(trigger: &str) -> (n: String)
    ensures
        n@ == command_name(trigger@),
{
    proof {
        reveal_strlit("/");
        reveal_strlit(" ");
    }
    let a = replace_str(trigger, "/", "");
    let b = replace_str(a.as_str(), " ", "");
    to_lowercase(b.as_str())
}

/// The index of the first slash command registered under `name`.
pub open spec fn first_slash_match(cmds: Seq<SlashCommand>, name: Seq<char>) -> Option<int>
    decreases cmds.len(),
{
    if cmds.len() == 0 {
        None
    } else if command_name(cmds[0].trigger@) == name {
        Some(0)
    } else {
        match first_slash_match(cmds.skip(1), name) {
            Some(i) => Some(i + 1),
            None => None,
        }
    }
}

/// The body of an interaction callback that answers with `text`.
pub open spec fn callback_body(text: Seq<char>) -> Seq<char> {
    "{\"data\":{\"content\":"@ + json_quote(text) + "},\"type\":4}"@
}

/// The answer to a slash command: the response of the first command registered
/// under its name, with its placeholders filled in, sent to the interaction's callback.
pub open spec fn slash_reply_of(
    name: Seq<char>,
    id: Seq<char>,
    token: Seq<char>,
    config: DiscordConfig,
    r: DeviceReadings,
) -> Option<(Seq<char>, Seq<char>)> {
    match first_slash_match(config.slash_commands@, name) {
        Some(i) => Some(
            (
                api_url() + "/interactions/"@ + id + "/"@ + token + "/callback"@,
                callback_body(filled(config.slash_commands@[i].response@, r)),
            ),
        ),
        None => None,
    }
}

/// The request that answers a slash command, if one is registered under its name
/// (see `slash_reply_of`).
pub fn handle_slash_command(name: &str, id: &str, token: &str, config: &DiscordConfig, r: &DeviceReadings) -> (req: Option<HttpRequest>)
    requires
        r.ram_free_kb <= r.ram_total_kb,
        r.nvs_used <= r.nvs_total,
    ensures
        match req {
            Some(q) => slash_reply_of(name@, id@, token@, *config, *r) == Some((q.url@, q.body@))
                && q.method == HttpMethod::Post && q.bot_token@ == config.token@,
            None => slash_reply_of(name@, id@, token@, *config, *r) is None,
        },
{
    let nv = crate::text::to_chars(name);
    let cmds = &config.slash_commands;
    let mut i: usize = 0;
    assert(cmds@.skip(0) =~= cmds@);
    while i < cmds.len()
        invariant
            i <= cmds.len(),
            nv@ == name@,
            cmds@ == config.slash_commands@,
            first_slash_match(cmds@, nv@) == match first_slash_match(cmds@.skip(i as int), nv@) {
                Some(j) => Some(j + i),
                None => None,
            },
            r.ram_free_kb <= r.ram_total_kb,
            r.nvs_used <= r.nvs_total,
        decreases cmds.len() - i,
    {
        let cn = slash_command_name(cmds[i].trigger.as_str());
        let tv = crate::text::to_chars(cn.as_str());
        assert(cmds@.skip(i as int)[0] == cmds@[i as int]);
        assert(cmds@.skip(i as int).skip(1) =~= cmds@.skip(i + 1));
        if chars_eq(nv.as_slice(), tv.as_slice()) {
            let processed = format_placeholders(cmds[i].response.as_str(), r);
            let mut url = String::from_str("https://discord.com/api/v10/interactions/");
            url.append(id);
            url.append("/");
            url.append(token);
            url.append("/callback");
            let mut body = String::from_str("{\"data\":{\"content\":");
            let q = json_string(processed.as_str());
            body.append(q.as_str());
            body.append("},\"type\":4}");
            proof {
                reveal_strlit("https://discord.com/api/v10/interactions/");
                reveal_strlit("https://discord.com/api/v10");
                reveal_strlit("/interactions/");
                assert("https://discord.com/api/v10/interactions/"@ =~= api_url() + "/interactions/"@);
                assert(url@ =~= api_url() + "/interactions/"@ + id@ + "/"@ + token@ + "/callback"@);
            }
            return Some(
                HttpRequest { method: HttpMethod::Post, url, body, bot_token: config.token.clone() },
            );
        }
        i = i + 1;
    }
    None
}

/// Items joined with commas.
pub open spec fn join_commas(items: Seq<Seq<char>>) -> Seq<char>
    decreases items.len(),
{
    if items.len() == 0 {
        Seq::empty()
    } else if items.len() == 1 {
        items[0]
    } else {
        join_commas(items.drop_last()) + ","@ + items.last()
    }
}

/// The registration of one slash command.
pub open spec fn command_entry(name: Seq<char>, for_users: bool) -> Seq<char> {
    "{\"contexts\":[0,1,2],\"description\":\"Comando ESP32\",\"integration_types\":"@ + (if for_users {
        "[0,1]"@
    } else {
        "[0]"@
    }) + ",\"name\":"@ + json_quote(name) + ",\"type\":1}"@
}

/// The registrations of the slash commands whose name is not empty, in order.
pub open spec fn command_entries(cmds: Seq<SlashCommand>) -> Seq<Seq<char>>
    decreases cmds.len(),
{
    if cmds.len() == 0 {
        Seq::empty()
    } else {
        let name = command_name(cmds.last().trigger@);
        if name.len() == 0 {
            command_entries(cmds.drop_last())
        } else {
            command_entries(cmds.drop_last()).push(command_entry(name, cmds.last().is_app_cmd))
        }
    }
}

/// The request that registers the slash commands of a configuration.
pub open spec fn registration_of(config: DiscordConfig) -> (Seq<char>, Seq<char>) {
    (
        api_url() + "/applications/"@ + config.app_id@ + "/commands"@,
        "["@ + join_commas(command_entries(config.slash_commands@)) + "]"@,
    )
}

fn command_entry_exec(name: &str, for_users: bool) -> (e: String)
    ensures
        e@ == command_entry(name@, for_users),
{
    let mut e = String::from_str(
        "{\"contexts\":[0,1,2],\"description\":\"Comando ESP32\",\"integration_types\":",
    );
    if for_users {
        e.append("[0,1]");
    } else {
        e.append("[0]");
    }
    e.append(",\"name\":");
    let q = json_string(name);
    e.append(q.as_str());
    e.append(",\"type\":1}");
    e
}

/// The request that registers the slash commands (see `registration_of`), replacing
/// those registered before.
pub fn register_slash_commands(config: &DiscordConfig) -> (req: HttpRequest)
    ensures
        (req.url@, req.body@) == registration_of(*config),
        req.method == HttpMethod::Put,
        req.bot_token@ == config.token@,
{
    let mut url = String::from_str("https://discord.com/api/v10/applications/");
    url.append(config.app_id.as_str());
    url.append("/commands");
    proof {
        reveal_strlit("https://discord.com/api/v10/applications/");
        reveal_strlit("https://discord.com/api/v10");
        reveal_strlit("/applications/");
        assert("https://discord.com/api/v10/applications/"@ =~= api_url() + "/applications/"@);
        assert(url@ =~= api_url() + "/applications/"@ + config.app_id@ + "/commands"@);
    }
    let cmds = &config.slash_commands;
    let mut joined = String::new();
    let mut any = false;
    let mut i: usize = 0;
    assert(cmds@.take(0) =~= Seq::<SlashCommand>::empty());
    while i < cmds.len()
        invariant
            i <= cmds.len(),
            cmds@ == config.slash_commands@,
            any == (command_entries(cmds@.take(i as int)).len() > 0),
            joined@ == join_commas(command_entries(cmds@.take(i as int))),
        decreases cmds.len() - i,
    {
        let name = slash_command_name(cmds[i].trigger.as_str());
        assert(cmds@.take(i + 1).drop_last() =~= cmds@.take(i as int));
        assert(cmds@.take(i + 1).last() == cmds@[i as int]);
        if !name.as_str().is_empty() {
            let entry = command_entry_exec(name.as_str(), cmds[i].is_app_cmd);
            let ghost items = command_entries(cmds@.take(i as int));
            if any {
                joined.append(",");
            }
            joined.append(entry.as_str());
            proof {
                let new_items = items.push(entry@);
                assert(new_items.drop_last() =~= items);
                if items.len() == 0 {
                    assert(joined@ =~= entry@);
                } else {
                    assert(joined@ =~= join_commas(items) + ","@ + entry@);
                }
            }
            any = true;
        }
        i = i + 1;
    }
    assert(cmds@.take(cmds.len() as int) =~= cmds@);
    let mut body = String::from_str("[");
    body.append(joined.as_str());
    body.append("]");
    HttpRequest { method: HttpMethod::Put, url, body, bot_token: config.token.clone() }
}

// ---------------------------------------------------------------------------
// The bot's supervising loop
// ---------------------------------------------------------------------------

/// What one round of the bot's supervising loop does.
#[derive(Clone, Copy, Debug, PartialEq, Eq, Structural)]
pub enum BotCycle {
    /// The bot is disabled or has no token: mark it stopped, clear the ping, wait.
    Idle,
    /// The bot is wanted but the internet is unreachable: mark it stopped, clear the
    /// ping, wait, and start the next round at once.
    Offline,
    /// Mark the bot running, register its commands, run the gateway connection until
    /// it ends, mark it stopped, wait.
    Run,
}

/// What a round of the supervising loop does, given whether the bot is wanted and,
/// when it is, whether the internet answers.
pub fn bot_cycle(wanted: bool, internet_up: bool) -> (c: BotCycle)
    ensures
        c == if !wanted {
            BotCycle::Idle
        } else if !internet_up {
            BotCycle::Offline
        } else {
            BotCycle::Run
        },
{
    if !wanted {
        BotCycle::Idle
    } else if !internet_up {
        BotCycle::Offline
    } else {
        BotCycle::Run
    }
}

/// What the rest of the firmware is told about the bot: whether it runs and its
/// last gateway ping in milliseconds.
#[derive(Clone, Copy, Debug, PartialEq, Eq, Structural)]
pub struct BotStatus {
    pub running: bool,
    pub ping_ms: u32,
}

/// The status reported while a round of the supervising loop does its work.
pub open spec fn status_during(c: BotCycle, st: BotStatus) -> BotStatus {
    match c {
        BotCycle::Idle | BotCycle::Offline => BotStatus { running: false, ping_ms: 0 },
        BotCycle::Run => BotStatus { running: true, ping_ms: st.ping_ms },
    }
}

/// Updates the reported status as a round of the supervising loop begins its work:
/// a bot that is not wanted or is offline is reported stopped with no ping; one that
/// runs is reported running.
pub fn enter_cycle(c: BotCycle, st: &mut BotStatus)
    ensures
        *final(st) == status_during(c, *old(st)),
{
    match c {
        BotCycle::Idle | BotCycle::Offline => {
            st.running = false;
            st.ping_ms = 0;
        },
        BotCycle::Run => {
            st.running = true;
        },
    }
}

/// Updates the reported status once the gateway connection of a running round has ended.
pub fn leave_run(st: &mut BotStatus)
    ensures
        *final(st) == (BotStatus { running: false, ping_ms: old(st).ping_ms }),
{
    st.running = false;
}

/// Records a gateway ping while the bot runs.
pub fn record_ping(st: &mut BotStatus, ping_ms: u32)
    ensures
        *final(st) == (BotStatus { running: old(st).running, ping_ms }),
{
    st.ping_ms = ping_ms;
}

// ---------------------------------------------------------------------------
// Laws
// ---------------------------------------------------------------------------

/// Quiet seconds from a tick count below the period only count up, without a
/// heartbeat.
proof fn lemma_quiet_count_up(hb: int, t: int, j: nat)
    requires
        0 <= t,
        t + j < hb,
    ensures
        quiet_run(hb, t, j) == (t + j, 0nat),
    decreases j,
{
    if j > 0 {
        lemma_quiet_count_up(hb, t + 1, (j - 1) as nat);
    }
}

/// Running `a` quiet seconds and then `b` more is running `a + b`.
proof fn lemma_quiet_run_split(hb: int, t: int, a: nat, b: nat)
    ensures
        quiet_run(hb, t, a + b) == ({
            let (t1, n1) = quiet_run(hb, t, a);
            let (t2, n2) = quiet_run(hb, t1, b);
            (t2, n1 + n2)
        }),
    decreases a,
{
    if a > 0 {
        let (t1, beat) = quiet_tick(hb, t);
        lemma_quiet_run_split(hb, t1, (a - 1) as nat, b);
        assert((a + b - 1) as nat == ((a - 1) as nat + b) as nat);
    }
}

/// Heartbeats keep their period: from a fresh count, every `hb` quiet seconds bring
/// exactly one heartbeat and the count back to zero, so `n` periods bring `n`
/// heartbeats.
pub proof fn law_heartbeat_period(hb: int, n: nat)
    requires
        hb >= 1,
    ensures
        quiet_run(hb, 0, (n * hb) as nat) == (0int, n),
    decreases n,
{
    lemma_quiet_count_up(hb, 0, (hb - 1) as nat);
    assert(quiet_run(hb, 0, 0) == (0int, 0nat));
    assert(quiet_run(hb, hb - 1, 1) == (0int, 1nat));
    lemma_quiet_run_split(hb, 0, (hb - 1) as nat, 1);
    assert(((hb - 1) as nat + 1) as nat == hb as nat);
    if n > 0 {
        law_heartbeat_period(hb, (n - 1) as nat);
        assert(n * hb == (n - 1) * hb + hb) by (nonlinear_arith);
        lemma_quiet_run_split(hb, 0, ((n - 1) * hb) as nat, hb as nat);
        assert((((n - 1) * hb) as nat + hb as nat) as nat == (n * hb) as nat);
    } else {
        assert(n * hb == 0) by (nonlinear_arith) requires n == 0;
    }
}

/// Between frames, the message being assembled never holds more than the size
/// limit, and a message that was read is never read again.
pub proof fn law_buffer_bounded(buffer: Seq<char>, parsed: bool)
    ensures
        encode_utf8(settled(buffer, parsed)).len() <= FRAME_BUFFER_LIMIT,
        parsed ==> settled(buffer, parsed).len() == 0,
{
    assert(encode_utf8(Seq::<char>::empty()) =~= Seq::<u8>::empty());
}

/// In every round of the supervising loop: a bot that is not wanted, or that cannot
/// reach the internet, is reported stopped with no ping and no connection is opened;
/// otherwise it is reported running while its commands are registered and its
/// connection runs (`leave_run` then reports it stopped).
pub proof fn law_bot_status_per_round(wanted: bool, internet_up: bool, st: BotStatus)
    ensures
        ({
            let c = if !wanted {
                BotCycle::Idle
            } else if !internet_up {
                BotCycle::Offline
            } else {
                BotCycle::Run
            };
            &&& (!wanted || !internet_up) ==> c != BotCycle::Run && status_during(c, st) == (BotStatus { running: false, ping_ms: 0 })
            &&& (wanted && internet_up) ==> c == BotCycle::Run && status_during(c, st).running
        }),
{
}

/// The first-match search over text commands finds the first command whose
/// cleaned trigger is equal to the cleaned message, and nothing when none is equal.
proof fn lemma_first_text_match(cmds: Seq<CustomCommand>, clean: Seq<char>)
    ensures
        match first_text_match(cmds, clean) {
            Some(i) => 0 <= i < cmds.len() && lowercase(trim(cmds[i].trigger@)) == clean
                && forall|j: int| 0 <= j < i ==> lowercase(trim(#[trigger] cmds[j].trigger@)) != clean,
            None => forall|j: int| 0 <= j < cmds.len() ==> lowercase(trim(#[trigger] cmds[j].trigger@)) != clean,
        },
    decreases cmds.len(),
{
    if cmds.len() > 0 {
        let rest = cmds.skip(1);
        lemma_first_text_match(rest, clean);
        if clean_text(cmds[0].trigger@) != clean {
            match first_text_match(rest, clean) {
                Some(k) => {
                    assert(cmds[k + 1] == rest[k]);
                    assert forall|j: int| 0 <= j < k + 1 implies lowercase(trim(#[trigger] cmds[j].trigger@)) != clean by {
                        if j > 0 {
                            assert(cmds[j] == rest[j - 1]);
                        }
                    }
                },
                None => {
                    assert forall|j: int| 0 <= j < cmds.len() implies lowercase(trim(#[trigger] cmds[j].trigger@)) != clean by {
                        if j > 0 {
                            assert(cmds[j] == rest[j - 1]);
                        }
                    }
                },
            }
        }
    }
}

/// A text message is answered only by a command whose trigger, trimmed and
/// lower-cased, is equal to the message trimmed and lower-cased, and by the first
/// such command: the reply posts that command's response, with its placeholders
/// filled in, to the message's channel. When no trigger is equal to the cleaned
/// message (a longer sentence that merely contains one, say), nothing is sent.
pub proof fn law_text_command_equality(
    content: Seq<char>,
    channel_id: Seq<char>,
    config: DiscordConfig,
    r: DeviceReadings,
)
    ensures
        ({
            let cmds = config.custom_commands@;
            let clean = lowercase(trim(content));
            match text_reply_of(content, channel_id, config, r) {
                Some((url, body)) => exists|i: int|
                    0 <= i < cmds.len() && lowercase(trim(#[trigger] cmds[i].trigger@)) == clean
                        && (forall|j: int| 0 <= j < i ==> lowercase(trim(#[trigger] cmds[j].trigger@)) != clean)
                        && url == "https://discord.com/api/v10/channels/"@ + channel_id + "/messages"@
                        && body == "{\"content\":"@ + json_quote(filled(cmds[i].response@, r)) + "}"@,
                None => forall|j: int| 0 <= j < cmds.len() ==> lowercase(trim(#[trigger] cmds[j].trigger@)) != clean,
            }
        }),
{
    let cmds = config.custom_commands@;
    let clean = lowercase(trim(content));
    lemma_first_text_match(cmds, clean);
    reveal_strlit("https://discord.com/api/v10/channels/");
    reveal_strlit("https://discord.com/api/v10");
    reveal_strlit("/channels/");
    assert("https://discord.com/api/v10/channels/"@ =~= api_url() + "/channels/"@);
    match first_text_match(cmds, clean) {
        Some(i) => {
            assert(api_url() + "/channels/"@ + channel_id + "/messages"@ =~= "https://discord.com/api/v10/channels/"@ + channel_id + "/messages"@);
        },
        None => {},
    }
}

/// The first-match search over slash commands finds the first command registered
/// under exactly the given name.
proof fn lemma_first_slash_match(cmds: Seq<SlashCommand>, name: Seq<char>)
    ensures
        match first_slash_match(cmds, name) {
            Some(i) => 0 <= i < cmds.len() && command_name(cmds[i].trigger@) == name
                && forall|j: int| 0 <= j < i ==> command_name(#[trigger] cmds[j].trigger@) != name,
            None => forall|j: int| 0 <= j < cmds.len() ==> command_name(#[trigger] cmds[j].trigger@) != name,
        },
    decreases cmds.len(),
{
    if cmds.len() > 0 {
        let rest = cmds.skip(1);
        lemma_first_slash_match(rest, name);
        if command_name(cmds[0].trigger@) != name {
            match first_slash_match(rest, name) {
                Some(k) => {
                    assert(cmds[k + 1] == rest[k]);
                    assert forall|j: int| 0 <= j < k + 1 implies command_name(#[trigger] cmds[j].trigger@) != name by {
                        if j > 0 {
                            assert(cmds[j] == rest[j - 1]);
                            assert(0 <= j - 1 < rest.len());
                            assert(command_name(rest[j - 1].trigger@) != name);
                        }
                    }
                },
                None => {
                    assert forall|j: int| 0 <= j < cmds.len() implies command_name(#[trigger] cmds[j].trigger@) != name by {
                        if j > 0 {
                            assert(cmds[j] == rest[j - 1]);
                            assert(0 <= j - 1 < rest.len());
                            assert(command_name(rest[j - 1].trigger@) != name);
                        }
                    }
                },
            }
        }
    }
}

/// A slash command is answered only by the first command registered under exactly
/// its name, with that command's response; an unknown name is not answered.
pub proof fn law_slash_command_equality(
    name: Seq<char>,
    id: Seq<char>,
    token: Seq<char>,
    config: DiscordConfig,
    r: DeviceReadings,
)
    ensures
        ({
            let cmds = config.slash_commands@;
            match slash_reply_of(name, id, token, config, r) {
                Some((url, body)) => exists|i: int|
                    0 <= i < cmds.len() && command_name(#[trigger] cmds[i].trigger@) == name
                        && (forall|j: int| 0 <= j < i ==> command_name(#[trigger] cmds[j].trigger@) != name)
                        && body == callback_body(filled(cmds[i].response@, r)),
                None => forall|j: int| 0 <= j < cmds.len() ==> command_name(#[trigger] cmds[j].trigger@) != name,
            }
        }),
{
    lemma_first_slash_match(config.slash_commands@, name);
}

/// Only one event is derived from a gateway message, and a message written by a
/// bot (including this one) is never answered.
pub proof fn law_bot_messages_ignored(p: GatewayPayloadView)
    requires
        p.op == Some(0u64),
        p.author_bot == Some(true),
    ensures
        !(event_of(p) matches Some(BotEventView::Message { .. })),
{
}

} // verus!
