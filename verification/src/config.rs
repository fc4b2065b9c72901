//! Client configuration values and their defaults. Reading them from
//! `mewcode.toml` and the environment happens at the program's edge.
use vstd::prelude::*;

verus! {

/// Base URL the client talks to by default.
pub const DEFAULT_API_URL: &'static str = "http://127.0.0.1:3737";

/// Default TUI theme.
pub const DEFAULT_THEME: &'static str = "catppuccin-mocha";

/// Default `tracing` filter when `RUST_LOG` is unset.
pub const DEFAULT_LOG: &'static str = "info";

/// Env-var prefix read for the client config.
pub const ENV_PREFIX: &'static str = "MEWCODE_CLIENT_";

/// Canonical env-var name for the server URL.
pub const ENV_API_URL: &'static str = "MEWCODE_API_URL";

/// Name of the optional configuration file.
pub const CONFIG_FILE: &'static str = "mewcode.toml";

/// Client configuration.
#[derive(Debug, Clone, PartialEq)]
pub struct ClientConfig {
    /// Base URL of the mewcode server.
    pub api_url: String,
    /// Default model id.
    pub default_model: Option<String>,
    /// Default theme name.
    pub theme: String,
    /// Log filter.
    pub log: String,
}

/// The server URL used when none is configured.
pub fn default_api_url() -> (s: String)
    ensures
        s@ == DEFAULT_API_URL@,
{
    DEFAULT_API_URL.to_string()
}

/// The theme used when none is configured.
pub fn default_theme() -> (s: String)
    ensures
        s@ == DEFAULT_THEME@,
{
    DEFAULT_THEME.to_string()
}

/// The log filter used when none is configured.
pub fn default_log() -> (s: String)
    ensures
        s@ == DEFAULT_LOG@,
{
    DEFAULT_LOG.to_string()
}

impl ClientConfig {
    /// A configuration whose unset fields take their defaults.
    pub fn with_defaults(
        api_url: Option<String>,
        default_model: Option<String>,
        theme: Option<String>,
        log: Option<String>,
    ) -> (c: ClientConfig)
        ensures
            c.api_url@ == (match api_url { Some(u) => u@, None => DEFAULT_API_URL@ }),
            c.default_model == default_model,
            c.theme@ == (match theme { Some(t) => t@, None => DEFAULT_THEME@ }),
            c.log@ == (match log { Some(l) => l@, None => DEFAULT_LOG@ }),
    {
        ClientConfig {
            api_url: match api_url {
                Some(u) => u,
                None => default_api_url(),
            },
            default_model,
            theme: match theme {
                Some(t) => t,
                None => default_theme(),
            },
            log: match log {
                Some(l) => l,
                None => default_log(),
            },
        }
    }
}

} // verus!
