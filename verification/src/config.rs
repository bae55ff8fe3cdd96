//! Process configuration: the values the bot starts with, validated and
//! defaulted from whatever the environment supplied.
use vstd::prelude::*;

use crate::text::parse_u64;
use crate::text::parse_u64_spec;

verus! {

/// Everything the process needs to run.
#[derive(Debug, Clone)]
pub struct Config {
    pub discord_token: String,
    pub database_url: String,
    pub health_port: u16,
    pub database_max_connections: u32,
    pub error_webhook_url: Option<String>,
    pub bot_name: String,
    pub bot_description: String,
    pub bot_developer_id: String,
    pub bot_github_url: String,
}

/// Why configuration loading failed.
#[derive(Debug, Clone, Copy)]
pub enum ConfigError {
    Missing(&'static str),
    Invalid(&'static str, &'static str),
}

impl ConfigError {
    /// The diagnostic text of this error.
    pub open spec fn spec_message(self) -> Seq<char> {
        match self {
            ConfigError::Missing(name) => "missing environment variable: "@ + name@,
            ConfigError::Invalid(name, reason) => "invalid environment variable "@ + name@ + ": "@
                + reason@,
        }
    }

    pub fn message(&self) -> (r: String)
        ensures
            r@ == self.spec_message(),
    {
        match self {
            ConfigError::Missing(name) => {
                let mut s = String::from_str("missing environment variable: ");
                s.append(name);
                s
            },
            ConfigError::Invalid(name, reason) => {
                let mut s = String::from_str("invalid environment variable ");
                s.append(name);
                s.append(": ");
                s.append(reason);
                s
            },
        }
    }
}

/// Whether a port string denotes a valid port.
pub open spec fn valid_port(s: Seq<char>) -> bool {
    parse_u64_spec(s) matches Some(v) && v <= u16::MAX
}

/// Whether a connection-count string denotes a valid pool size.
pub open spec fn valid_pool_size(s: Seq<char>) -> bool {
    parse_u64_spec(s) matches Some(v) && v <= u32::MAX
}

impl Config {
    /// Validates and defaults the raw environment values.  The token and
    /// database location are mandatory and must be non-empty; the port
    /// defaults to 8080 and the pool size to 5; an absent or empty webhook
    /// address disables error notifications; the bot identity fields fall
    /// back to their built-in defaults.
    pub fn from_values(
        discord_token: Option<String>,
        database_url: Option<String>,
        health_port: Option<String>,
        database_max_connections: Option<String>,
        error_webhook_url: Option<String>,
        bot_name: Option<String>,
        bot_description: Option<String>,
        bot_developer_id: Option<String>,
        bot_github_url: Option<String>,
    ) -> (r: Result<Config, ConfigError>)
        ensures
            match r {
                Ok(c) => {
                    &&& discord_token matches Some(t) && t@.len() > 0 && c.discord_token == t
                    &&& database_url matches Some(d) && d@.len() > 0 && c.database_url == d
                    &&& c.health_port as int == match health_port {
                        Some(p) => parse_u64_spec(p@).unwrap() as int,
                        None => 8080,
                    }
                    &&& c.database_max_connections as int == match database_max_connections {
                        Some(m) => parse_u64_spec(m@).unwrap() as int,
                        None => 5,
                    }
                    &&& c.error_webhook_url == match error_webhook_url {
                        Some(u) => if u@.len() > 0 {
                            Some(u)
                        } else {
                            None
                        },
                        None => None,
                    }
                    &&& c.bot_name@ == match bot_name {
                        Some(n) => n@,
                        None => "Role Panel Bot"@,
                    }
                },
                Err(e) => {
                    ||| discord_token is None && (e matches ConfigError::Missing(n) && n@
                        == "DISCORD_TOKEN"@)
                    ||| (discord_token matches Some(t) && t@.len() == 0) && (e
                        matches ConfigError::Invalid(n, _) && n@ == "DISCORD_TOKEN"@)
                    ||| database_url is None && (e matches ConfigError::Missing(n) && n@
                        == "DATABASE_URL"@)
                    ||| (database_url matches Some(d) && d@.len() == 0) && (e
                        matches ConfigError::Invalid(n, _) && n@ == "DATABASE_URL"@)
                    ||| (health_port matches Some(p) && !valid_port(p@)) && (e
                        matches ConfigError::Invalid(n, _) && n@ == "HEALTH_PORT"@)
                    ||| (database_max_connections matches Some(m) && !valid_pool_size(m@)) && (e
                        matches ConfigError::Invalid(n, _) && n@ == "DATABASE_MAX_CONNECTIONS"@)
                },
            },
    {
        let discord_token = match discord_token {
            Some(t) => t,
            None => {
                return Err(ConfigError::Missing("DISCORD_TOKEN"));
            },
        };
        if discord_token.as_str().unicode_len() == 0 {
            return Err(ConfigError::Invalid("DISCORD_TOKEN", "must not be empty"));
        }
        let database_url = match database_url {
            Some(d) => d,
            None => {
                return Err(ConfigError::Missing("DATABASE_URL"));
            },
        };
        if database_url.as_str().unicode_len() == 0 {
            return Err(ConfigError::Invalid("DATABASE_URL", "must not be empty"));
        }
        let health_port: u16 = match health_port {
            Some(p) => match parse_u64(p.as_str()) {
                Some(v) => if v <= u16::MAX as u64 {
                    v as u16
                } else {
                    return Err(ConfigError::Invalid("HEALTH_PORT", "must be a valid port number"));
                },
                None => {
                    return Err(ConfigError::Invalid("HEALTH_PORT", "must be a valid port number"));
                },
            },
            None => 8080,
        };
        let database_max_connections: u32 = match database_max_connections {
            Some(m) => match parse_u64(m.as_str()) {
                Some(v) => if v <= u32::MAX as u64 {
                    v as u32
                } else {
                    return Err(
                        ConfigError::Invalid(
                            "DATABASE_MAX_CONNECTIONS",
                            "must be a positive integer",
                        ),
                    );
                },
                None => {
                    return Err(
                        ConfigError::Invalid(
                            "DATABASE_MAX_CONNECTIONS",
                            "must be a positive integer",
                        ),
                    );
                },
            },
            None => 5,
        };
        let error_webhook_url = match error_webhook_url {
            Some(u) => if u.as_str().unicode_len() > 0 {
                Some(u)
            } else {
                None
            },
            None => None,
        };
        let bot_name = match bot_name {
            Some(n) => n,
            None => String::from_str("Role Panel Bot"),
        };
        let bot_description = match bot_description {
            Some(d) => d,
            None => String::from_str("2025年10月同期会向けに作られたロールパネルBot"),
        };
        let bot_developer_id = match bot_developer_id {
            Some(i) => i,
            None => String::from_str("1340270150217236501"),
        };
        let bot_github_url = match bot_github_url {
            Some(u) => u,
            None => String::from_str("https://github.com/Aqua-218/RolePanel-Bot"),
        };
        Ok(
            Config {
                discord_token,
                database_url,
                health_port,
                database_max_connections,
                error_webhook_url,
                bot_name,
                bot_description,
                bot_developer_id,
                bot_github_url,
            },
        )
    }
}

/// Whether the gateway connection is currently up; published for the
/// liveness endpoint.
#[derive(Debug, Clone, Copy, PartialEq, Eq, Structural)]
pub struct GatewayState {
    pub connected: bool,
}

/// The identity values handed to the gateway at startup.
#[derive(Debug, Clone)]
pub struct BotConfig {
    pub name: String,
    pub description: String,
    pub developer_id: String,
    pub github_url: String,
}

/// Presentation identity of the bot, shown by the about command.
#[derive(Debug, Clone)]
pub struct BotInfo {
    pub name: String,
    pub description: String,
    pub developer_id: String,
    pub github_url: String,
}

impl BotInfo {
    /// The identity constructed at startup from configuration.
    pub fn init(name: String, description: String, developer_id: String, github_url: String) -> (b:
        Self)
        ensures
            b.name == name,
            b.description == description,
            b.developer_id == developer_id,
            b.github_url == github_url,
    {
        BotInfo { name, description, developer_id, github_url }
    }

    /// The identity used when none was ever configured.
    pub fn fallback() -> (b: Self)
        ensures
            b.name@ == "Role Panel Bot"@,
            b.description@ == "ロールパネルBot"@,
            b.developer_id@ == "1340270150217236501"@,
            b.github_url@ == "https://github.com/Aqua-218/RolePanel-Bot"@,
    {
        BotInfo {
            name: String::from_str("Role Panel Bot"),
            description: String::from_str("ロールパネルBot"),
            developer_id: String::from_str("1340270150217236501"),
            github_url: String::from_str("https://github.com/Aqua-218/RolePanel-Bot"),
        }
    }
}

} // verus!
