use nubilus_agent::config::{
    default_api_url, default_config_path, default_heartbeat_interval, default_metrics_interval,
    AgentConfig, Config, ConfigError, FeaturesConfig, ServerConfig, DEFAULT_API_URL,
};

fn valid_config() -> Config {
    Config {
        server: ServerConfig {
            api_url: "https://api.example.com".to_string(),
            api_key: "nub_secret".to_string(),
        },
        agent: AgentConfig {
            name: "web-01".to_string(),
            metrics_interval_seconds: 30,
            heartbeat_interval_seconds: 30,
        },
        features: FeaturesConfig::default(),
    }
}

#[test]
fn valid_config_passes() {
    assert_eq!(valid_config().validate(), Ok(()));
}

#[test]
fn shortest_intervals_pass() {
    let mut config = valid_config();
    config.agent.metrics_interval_seconds = 10;
    config.agent.heartbeat_interval_seconds = 10;
    assert_eq!(config.validate(), Ok(()));
}

#[test]
fn key_that_is_only_the_prefix_passes() {
    let mut config = valid_config();
    config.server.api_key = "nub_".to_string();
    assert_eq!(config.validate(), Ok(()));
}

#[test]
fn empty_api_url_is_rejected() {
    let mut config = valid_config();
    config.server.api_url = String::new();
    assert_eq!(config.validate(), Err(ConfigError::EmptyApiUrl));
}

#[test]
fn empty_api_key_is_rejected() {
    let mut config = valid_config();
    config.server.api_key = String::new();
    assert_eq!(config.validate(), Err(ConfigError::EmptyApiKey));
}

#[test]
fn untagged_api_key_is_rejected() {
    for key in ["secret", "nub", "NUB_secret", " nub_secret", "xnub_"] {
        let mut config = valid_config();
        config.server.api_key = key.to_string();
        assert_eq!(config.validate(), Err(ConfigError::ApiKeyPrefix));
    }
}

#[test]
fn empty_name_is_rejected() {
    let mut config = valid_config();
    config.agent.name = String::new();
    assert_eq!(config.validate(), Err(ConfigError::EmptyName));
}

#[test]
fn short_metrics_interval_is_rejected() {
    for seconds in [0, 1, 9] {
        let mut config = valid_config();
        config.agent.metrics_interval_seconds = seconds;
        assert_eq!(config.validate(), Err(ConfigError::MetricsIntervalTooShort));
    }
}

#[test]
fn short_heartbeat_interval_is_rejected() {
    for seconds in [0, 1, 9] {
        let mut config = valid_config();
        config.agent.heartbeat_interval_seconds = seconds;
        assert_eq!(config.validate(), Err(ConfigError::HeartbeatIntervalTooShort));
    }
}

#[test]
fn first_broken_rule_is_reported() {
    let config = Config {
        server: ServerConfig { api_url: String::new(), api_key: String::new() },
        agent: AgentConfig {
            name: String::new(),
            metrics_interval_seconds: 0,
            heartbeat_interval_seconds: 0,
        },
        features: FeaturesConfig::default(),
    };
    assert_eq!(config.validate(), Err(ConfigError::EmptyApiUrl));

    let mut config = valid_config();
    config.server.api_key = "bad".to_string();
    config.agent.name = String::new();
    assert_eq!(config.validate(), Err(ConfigError::ApiKeyPrefix));

    let mut config = valid_config();
    config.agent.metrics_interval_seconds = 5;
    config.agent.heartbeat_interval_seconds = 5;
    assert_eq!(config.validate(), Err(ConfigError::MetricsIntervalTooShort));
}

#[test]
fn config_errors_in_words() {
    assert_eq!(ConfigError::EmptyApiUrl.message(), "server.api_url cannot be empty");
    assert_eq!(ConfigError::EmptyApiKey.message(), "server.api_key cannot be empty");
    assert_eq!(ConfigError::ApiKeyPrefix.message(), "server.api_key must start with 'nub_'");
    assert_eq!(ConfigError::EmptyName.message(), "agent.name cannot be empty");
    assert_eq!(
        ConfigError::MetricsIntervalTooShort.message(),
        "agent.metrics_interval_seconds must be at least 10"
    );
    assert_eq!(
        ConfigError::HeartbeatIntervalTooShort.message(),
        "agent.heartbeat_interval_seconds must be at least 10"
    );
}

#[test]
fn default_intervals_are_thirty_seconds() {
    assert_eq!(default_metrics_interval(), 30);
    assert_eq!(default_heartbeat_interval(), 30);
}

#[test]
fn default_features_are_off() {
    let features = FeaturesConfig::default();
    assert!(!features.collect_processes);
    assert!(!features.http_health_checks);
}

#[test]
fn default_api_url_prefers_the_override() {
    assert_eq!(default_api_url(None), DEFAULT_API_URL);
    assert_eq!(default_api_url(None), "https://nubilus.akashtwt.me/api");
    assert_eq!(
        default_api_url(Some("http://localhost:8080".to_string())),
        "http://localhost:8080"
    );
}

#[test]
fn default_config_path_by_system() {
    assert_eq!(default_config_path(false), "/etc/nubilus/agent.toml");
    assert_eq!(default_config_path(true), "C:\\ProgramData\\nubilus\\agent.toml");
}

#[test]
fn template_names_the_backend() {
    let expected = "# Nubilus Agent Configuration
# Location: /etc/nubilus/agent.toml

[server]
# URL of your Nubilus backend API
api_url = \"https://api.example.com\"
# Your organization's API key (from the dashboard)
api_key = \"nub_your_api_key_here\"

[agent]
# Friendly name for this server (shown in dashboard)
name = \"my-server-01\"
# How often to collect and send metrics (minimum: 10 seconds)
metrics_interval_seconds = 30
# How often to send heartbeat (minimum: 10 seconds)
heartbeat_interval_seconds = 30

[features]
# Include top process information in metrics
collect_processes = true
# Enable agent-side HTTP endpoint health checks
http_health_checks = false
";
    assert_eq!(Config::template("https://api.example.com"), expected);
}

#[test]
fn configured_uses_the_given_name() {
    let config = Config::configured(
        "nub_key".to_string(),
        "https://api.example.com".to_string(),
        Some("db-01".to_string()),
        Some("host-a".to_string()),
    );
    assert_eq!(config.server.api_key, "nub_key");
    assert_eq!(config.server.api_url, "https://api.example.com");
    assert_eq!(config.agent.name, "db-01");
    assert_eq!(config.agent.metrics_interval_seconds, 30);
    assert_eq!(config.agent.heartbeat_interval_seconds, 30);
    assert_eq!(config.features, FeaturesConfig::default());
    assert_eq!(config.validate(), Ok(()));
}

#[test]
fn configured_falls_back_to_the_hostname() {
    let config = Config::configured(
        "nub_key".to_string(),
        "https://api.example.com".to_string(),
        None,
        Some("host-a".to_string()),
    );
    assert_eq!(config.agent.name, "host-a");
    let config = Config::configured(
        "nub_key".to_string(),
        "https://api.example.com".to_string(),
        None,
        None,
    );
    assert_eq!(config.agent.name, "server");
}
