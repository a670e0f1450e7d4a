//! The Discord bot's configuration.
use vstd::prelude::*;

verus! {

/// A reply to a text message: when a message reads `trigger` (ignoring case and
/// surrounding white space), the bot answers `response`.
pub struct CustomCommand {
    pub trigger: String,
    pub response: String,
}

/// A slash command: registered under `trigger` without `/` and spaces, in lower
/// case, and answered with `response`; `is_app_cmd` also installs it for users.
pub struct SlashCommand {
    pub trigger: String,
    pub response: String,
    pub is_app_cmd: bool,
}

/// What the bot is set up to do.
pub struct DiscordConfig {
    pub enabled: bool,
    pub token: String,
    pub app_id: String,
    pub custom_commands: Vec<CustomCommand>,
    pub slash_commands: Vec<SlashCommand>,
}

/// Whether `c` is the configuration of a fresh device: disabled, without token or
/// application, with the single text command `!ping` and no slash command.
pub open spec fn is_default_config(c: DiscordConfig) -> bool {
    &&& !c.enabled
    &&& c.token@.len() == 0
    &&& c.app_id@.len() == 0
    &&& c.custom_commands@.len() == 1
    &&& c.custom_commands@[0].trigger@ == "!ping"@
    &&& c.custom_commands@[0].response@ == "🏓 ¡Pong desde el panel web!"@
    &&& c.slash_commands@.len() == 0
}

impl Default for DiscordConfig {
    fn default() -> (c: Self)
        ensures
            is_default_config(c),
    {
        let mut custom_commands: Vec<CustomCommand> = Vec::new();
        custom_commands.push(
            CustomCommand {
                trigger: String::from_str("!ping"),
                response: String::from_str("🏓 ¡Pong desde el panel web!"),
            },
        );
        let c = DiscordConfig {
            enabled: false,
            token: String::new(),
            app_id: String::new(),
            custom_commands,
            slash_commands: Vec::new(),
        };
        c
    }
}

/// The configuration in use, given what could be read from storage: the stored
/// one, or the default when none is stored or it cannot be read.
pub fn get_config(stored: Option<DiscordConfig>) -> (c: DiscordConfig)
    ensures
        match stored {
            Some(s) => c == s,
            None => is_default_config(c),
        },
{
    match stored {
        Some(s) => s,
        None => DiscordConfig::default(),
    }
}

/// Whether the bot should be running: it is enabled and has a token.
pub fn discord_wanted(config: &DiscordConfig) -> (b: bool)
    ensures
        b == (config.enabled && config.token@.len() > 0),
{
    config.enabled && !config.token.as_str().is_empty()
}

} // verus!
