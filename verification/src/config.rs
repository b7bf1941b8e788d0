//! Startup configuration: the three secrets the bot needs, with the guild
//! id validated as a decimal numeral.

use crate::text::dec_val;
use crate::text::is_dec_string;
use crate::text::parse_u64_dec;
use vstd::prelude::*;

verus! {

/// The secrets the process starts from.
pub struct Config {
    pub discord_token: String,
    pub discord_guild_id: u64,
    pub openai_api_key: String,
}

/// Why bootstrap failed; any of these is fatal.
#[derive(Clone, Copy, Debug, PartialEq, Eq, Structural)]
pub enum ConfigError {
    MissingDiscordToken,
    MissingGuildId,
    MalformedGuildId,
    MissingApiKey,
}

/// Whether three raw secrets form a valid configuration: all present, and
/// the guild id a decimal numeral that fits in a `u64`.
pub open spec fn secrets_valid(
    discord_token: Option<Seq<char>>,
    discord_guild_id: Option<Seq<char>>,
    openai_api_key: Option<Seq<char>>,
) -> bool {
    &&& discord_token is Some
    &&& discord_guild_id is Some
    &&& is_dec_string(discord_guild_id->0)
    &&& dec_val(discord_guild_id->0) <= u64::MAX
    &&& openai_api_key is Some
}

impl Config {
    /// Validates the secrets as they were read. Succeeds exactly when all
    /// three are present and the guild id is a `u64` decimal numeral; the
    /// error names the first secret that is missing or malformed, in the
    /// order token, guild id, key.
    pub fn from_secrets(
        discord_token: Option<String>,
        discord_guild_id: Option<String>,
        openai_api_key: Option<String>,
    ) -> (r: Result<Config, ConfigError>)
        ensures
            r is Ok <==> secrets_valid(
                match discord_token {
                    Some(ref t) => Some(t@),
                    None => None,
                },
                match discord_guild_id {
                    Some(ref g) => Some(g@),
                    None => None,
                },
                match openai_api_key {
                    Some(ref k) => Some(k@),
                    None => None,
                },
            ),
            r matches Ok(c) ==> {
                &&& discord_token matches Some(t) && c.discord_token@ == t@
                &&& discord_guild_id matches Some(g) && c.discord_guild_id == dec_val(g@)
                &&& openai_api_key matches Some(k) && c.openai_api_key@ == k@
            },
            discord_token is None ==> r == Err::<Config, ConfigError>(
                ConfigError::MissingDiscordToken,
            ),
            discord_token is Some && discord_guild_id is None ==> r == Err::<Config, ConfigError>(
                ConfigError::MissingGuildId,
            ),
            (discord_token is Some && (discord_guild_id matches Some(g) && !(is_dec_string(g@)
                && dec_val(g@) <= u64::MAX))) ==> r == Err::<Config, ConfigError>(
                ConfigError::MalformedGuildId,
            ),
            (discord_token is Some && (discord_guild_id matches Some(g) && is_dec_string(g@)
                && dec_val(g@) <= u64::MAX) && openai_api_key is None) ==> r == Err::<
                Config,
                ConfigError,
            >(ConfigError::MissingApiKey),
    {
        let token = match discord_token {
            Some(t) => t,
            None => {
                return Err(ConfigError::MissingDiscordToken);
            },
        };
        let guild_raw = match discord_guild_id {
            Some(g) => g,
            None => {
                return Err(ConfigError::MissingGuildId);
            },
        };
        let guild_id = match parse_u64_dec(guild_raw.as_str()) {
            Some(v) => v,
            None => {
                return Err(ConfigError::MalformedGuildId);
            },
        };
        let key = match openai_api_key {
            Some(k) => k,
            None => {
                return Err(ConfigError::MissingApiKey);
            },
        };
        Ok(Config { discord_token: token, discord_guild_id: guild_id, openai_api_key: key })
    }
}

} // verus!
