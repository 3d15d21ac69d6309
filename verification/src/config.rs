//! The configuration of an agent and the rules it has to meet.

use vstd::prelude::*;
use vstd::string::StringExecFns;
use crate::text::starts_with;

verus! {

/// Address of the hosted backend, used where none is configured.
pub const DEFAULT_API_URL: &'static str = "https://nubilus.akashtwt.me/api";

/// Every API key begins with this tag.
pub const API_KEY_PREFIX: &'static str = "nub_";

/// Shortest interval, in seconds, that either periodic task may run at.
pub const MIN_INTERVAL_SECONDS: u64 = 10;

/// Interval, in seconds, that a new configuration starts with.
pub const DEFAULT_INTERVAL_SECONDS: u64 = 30;

/// Name given to a host whose own name cannot be found.
pub const FALLBACK_SERVER_NAME: &'static str = "server";

/// What a configuration template holds before the backend address.
pub const TEMPLATE_HEAD: &'static str =
    "# Nubilus Agent Configuration\n# Location: /etc/nubilus/agent.toml\n\n[server]\n# URL of your Nubilus backend API\napi_url = \"";

/// What a configuration template holds after the backend address.
pub const TEMPLATE_TAIL: &'static str =
    "\"\n# Your organization's API key (from the dashboard)\napi_key = \"nub_your_api_key_here\"\n\n[agent]\n# Friendly name for this server (shown in dashboard)\nname = \"my-server-01\"\n# How often to collect and send metrics (minimum: 10 seconds)\nmetrics_interval_seconds = 30\n# How often to send heartbeat (minimum: 10 seconds)\nheartbeat_interval_seconds = 30\n\n[features]\n# Include top process information in metrics\ncollect_processes = true\n# Enable agent-side HTTP endpoint health checks\nhttp_health_checks = false\n";

/// Where the backend is and how to authenticate against it.
#[derive(Debug, PartialEq, Eq)]
pub struct ServerConfig {
    /// Base URL of the backend API.
    pub api_url: String,
    /// Key sent with every request.
    pub api_key: String,
}

/// How this agent presents itself and how often it reports.
#[derive(Debug, PartialEq, Eq)]
pub struct AgentConfig {
    /// Friendly name of this server.
    pub name: String,
    /// Seconds between two metrics submissions.
    pub metrics_interval_seconds: u64,
    /// Seconds between two heartbeats.
    pub heartbeat_interval_seconds: u64,
}

/// Optional features.
#[derive(Debug, Clone, Copy, PartialEq, Eq, Structural)]
pub struct FeaturesConfig {
    /// Whether to collect process information.
    pub collect_processes: bool,
    /// Whether to perform HTTP health checks.
    pub http_health_checks: bool,
}

/// The whole configuration of an agent.
#[derive(Debug, PartialEq, Eq)]
pub struct Config {
    pub server: ServerConfig,
    pub agent: AgentConfig,
    pub features: FeaturesConfig,
}

impl Clone for ServerConfig {
    fn clone(&self) -> (copy: ServerConfig)
        ensures
            copy == *self,
    {
        ServerConfig { api_url: self.api_url.clone(), api_key: self.api_key.clone() }
    }
}

impl Clone for AgentConfig {
    fn clone(&self) -> (copy: AgentConfig)
        ensures
            copy == *self,
    {
        AgentConfig {
            name: self.name.clone(),
            metrics_interval_seconds: self.metrics_interval_seconds,
            heartbeat_interval_seconds: self.heartbeat_interval_seconds,
        }
    }
}

impl Clone for Config {
    fn clone(&self) -> (copy: Config)
        ensures
            copy == *self,
    {
        Config {
            server: self.server.clone(),
            agent: self.agent.clone(),
            features: self.features,
        }
    }
}

/// What a [`ServerConfig`] holds, as plain text.
pub struct ServerConfigView {
    pub api_url: Seq<char>,
    pub api_key: Seq<char>,
}

/// What an [`AgentConfig`] holds, as plain text and numbers.
pub struct AgentConfigView {
    pub name: Seq<char>,
    pub metrics_interval_seconds: u64,
    pub heartbeat_interval_seconds: u64,
}

/// What a [`Config`] holds.
pub struct ConfigView {
    pub server: ServerConfigView,
    pub agent: AgentConfigView,
    pub features: FeaturesConfig,
}

impl View for ServerConfig {
    type V = ServerConfigView;

    open spec fn view(&self) -> ServerConfigView {
        ServerConfigView { api_url: self.api_url@, api_key: self.api_key@ }
    }
}

impl View for AgentConfig {
    type V = AgentConfigView;

    open spec fn view(&self) -> AgentConfigView {
        AgentConfigView {
            name: self.name@,
            metrics_interval_seconds: self.metrics_interval_seconds,
            heartbeat_interval_seconds: self.heartbeat_interval_seconds,
        }
    }
}

impl View for Config {
    type V = ConfigView;

    open spec fn view(&self) -> ConfigView {
        ConfigView { server: self.server@, agent: self.agent@, features: self.features }
    }
}

/// What can be wrong with a configuration.
#[derive(Debug, Clone, Copy, PartialEq, Eq, Structural)]
pub enum ConfigError {
    EmptyApiUrl,
    EmptyApiKey,
    ApiKeyPrefix,
    EmptyName,
    MetricsIntervalTooShort,
    HeartbeatIntervalTooShort,
}

impl ConfigError {
    pub open spec fn text(self) -> Seq<char> {
        match self {
            ConfigError::EmptyApiUrl => "server.api_url cannot be empty"@,
            ConfigError::EmptyApiKey => "server.api_key cannot be empty"@,
            ConfigError::ApiKeyPrefix => "server.api_key must start with 'nub_'"@,
            ConfigError::EmptyName => "agent.name cannot be empty"@,
            ConfigError::MetricsIntervalTooShort =>
                "agent.metrics_interval_seconds must be at least 10"@,
            ConfigError::HeartbeatIntervalTooShort =>
                "agent.heartbeat_interval_seconds must be at least 10"@,
        }
    }

    /// The error in words.
    pub fn message(&self) -> (text: String)
        ensures
            text@ == self.text(),
    {
        match self {
            ConfigError::EmptyApiUrl => String::from_str("server.api_url cannot be empty"),
            ConfigError::EmptyApiKey => String::from_str("server.api_key cannot be empty"),
            ConfigError::ApiKeyPrefix => String::from_str("server.api_key must start with 'nub_'"),
            ConfigError::EmptyName => String::from_str("agent.name cannot be empty"),
            ConfigError::MetricsIntervalTooShort => String::from_str(
                "agent.metrics_interval_seconds must be at least 10",
            ),
            ConfigError::HeartbeatIntervalTooShort => String::from_str(
                "agent.heartbeat_interval_seconds must be at least 10",
            ),
        }
    }
}

/// The first rule that `config` breaks, in the order in which the rules are
/// checked, or `None` where it breaks none.
pub open spec fn first_violation(config: ConfigView) -> Option<ConfigError> {
    if config.server.api_url.len() == 0 {
        Some(ConfigError::EmptyApiUrl)
    } else if config.server.api_key.len() == 0 {
        Some(ConfigError::EmptyApiKey)
    } else if !API_KEY_PREFIX@.is_prefix_of(config.server.api_key) {
        Some(ConfigError::ApiKeyPrefix)
    } else if config.agent.name.len() == 0 {
        Some(ConfigError::EmptyName)
    } else if config.agent.metrics_interval_seconds < MIN_INTERVAL_SECONDS {
        Some(ConfigError::MetricsIntervalTooShort)
    } else if config.agent.heartbeat_interval_seconds < MIN_INTERVAL_SECONDS {
        Some(ConfigError::HeartbeatIntervalTooShort)
    } else {
        None
    }
}

impl ConfigView {
    /// Whether the configuration breaks no rule.
    pub open spec fn is_valid(self) -> bool {
        first_violation(self) is None
    }
}

/// A valid configuration has what the rest of the agent relies on: an
/// address, a name, a key that begins with the tag, and intervals of ten
/// seconds or more.
pub proof fn lemma_valid_config(config: ConfigView)
    requires
        config.is_valid(),
    ensures
        config.server.api_url.len() > 0,
        config.server.api_key.len() >= 4,
        config.server.api_key.subrange(0, 4) == seq!['n', 'u', 'b', '_'],
        config.agent.name.len() > 0,
        config.agent.metrics_interval_seconds >= 10,
        config.agent.heartbeat_interval_seconds >= 10,
{
    reveal_strlit("nub_");
    assert(API_KEY_PREFIX@ =~= seq!['n', 'u', 'b', '_']);
}

impl Config {
    /// Checks the rules in order and reports the first that is broken.
    pub fn validate(&self) -> (checked: Result<(), ConfigError>)
        ensures
            checked is Ok <==> self@.is_valid(),
            checked == match first_violation(self@) {
                Some(broken) => Err::<(), ConfigError>(broken),
                None => Ok(()),
            },
    {
        if self.server.api_url.as_str().is_empty() {
            return Err(ConfigError::EmptyApiUrl);
        }
        if self.server.api_key.as_str().is_empty() {
            return Err(ConfigError::EmptyApiKey);
        }
        if !starts_with(self.server.api_key.as_str(), API_KEY_PREFIX) {
            return Err(ConfigError::ApiKeyPrefix);
        }
        if self.agent.name.as_str().is_empty() {
            return Err(ConfigError::EmptyName);
        }
        if self.agent.metrics_interval_seconds < MIN_INTERVAL_SECONDS {
            return Err(ConfigError::MetricsIntervalTooShort);
        }
        if self.agent.heartbeat_interval_seconds < MIN_INTERVAL_SECONDS {
            return Err(ConfigError::HeartbeatIntervalTooShort);
        }
        Ok(())
    }

    /// A commented configuration file that points at `api_url`.
    pub fn template(api_url: &str) -> (file: String)
        ensures
            file@ == TEMPLATE_HEAD@ + api_url@ + TEMPLATE_TAIL@,
    {
        let mut file = String::from_str(TEMPLATE_HEAD);
        file.append(api_url);
        file.append(TEMPLATE_TAIL);
        file
    }

    /// The configuration that the given settings make: default intervals, no
    /// optional feature, and as name the one given, else the host's own, else
    /// [`FALLBACK_SERVER_NAME`].
    pub fn configured(
        api_key: String,
        api_url: String,
        name: Option<String>,
        hostname: Option<String>,
    ) -> (config: Config)
        ensures
            config@ == (ConfigView {
                server: ServerConfigView { api_url: api_url@, api_key: api_key@ },
                agent: AgentConfigView {
                    name: match name {
                        Some(given) => given@,
                        None => match hostname {
                            Some(host) => host@,
                            None => FALLBACK_SERVER_NAME@,
                        },
                    },
                    metrics_interval_seconds: DEFAULT_INTERVAL_SECONDS,
                    heartbeat_interval_seconds: DEFAULT_INTERVAL_SECONDS,
                },
                features: FeaturesConfig { collect_processes: false, http_health_checks: false },
            }),
    {
        let server_name = match name {
            Some(given) => given,
            None => match hostname {
                Some(host) => host,
                None => String::from_str(FALLBACK_SERVER_NAME),
            },
        };
        Config {
            server: ServerConfig { api_url, api_key },
            agent: AgentConfig {
                name: server_name,
                metrics_interval_seconds: DEFAULT_INTERVAL_SECONDS,
                heartbeat_interval_seconds: DEFAULT_INTERVAL_SECONDS,
            },
            features: FeaturesConfig::default(),
        }
    }
}

/// Interval between two metrics submissions where none is configured.
pub fn default_metrics_interval() -> (seconds: u64)
    ensures
        seconds == DEFAULT_INTERVAL_SECONDS,
{
    DEFAULT_INTERVAL_SECONDS
}

/// Interval between two heartbeats where none is configured.
pub fn default_heartbeat_interval() -> (seconds: u64)
    ensures
        seconds == DEFAULT_INTERVAL_SECONDS,
{
    DEFAULT_INTERVAL_SECONDS
}

/// The backend address to start from: the override where one is set, else
/// [`DEFAULT_API_URL`].
pub fn default_api_url(configured: Option<String>) -> (url: String)
    ensures
        url@ == match configured {
            Some(given) => given@,
            None => DEFAULT_API_URL@,
        },
{
    match configured {
        Some(given) => given,
        None => String::from_str(DEFAULT_API_URL),
    }
}

/// Where the configuration file lives on this kind of system.
pub fn default_config_path(windows: bool) -> (path: &'static str)
    ensures
        path@ == if windows {
            "C:\\ProgramData\\nubilus\\agent.toml"@
        } else {
            "/etc/nubilus/agent.toml"@
        },
{
    if windows {
        "C:\\ProgramData\\nubilus\\agent.toml"
    } else {
        "/etc/nubilus/agent.toml"
    }
}

impl Default for FeaturesConfig {
    fn default() -> (features: FeaturesConfig)
        ensures
            !features.collect_processes,
            !features.http_health_checks,
    {
        FeaturesConfig { collect_processes: false, http_health_checks: false }
    }
}

} // verus!
