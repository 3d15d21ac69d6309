use nubilus_agent::config::{AgentConfig, Config, FeaturesConfig, ServerConfig};
use nubilus_agent::models::{ApiResponse, RegisterRequest};

fn config() -> Config {
    Config {
        server: ServerConfig {
            api_url: "https://api.example.com".to_string(),
            api_key: "nub_secret".to_string(),
        },
        agent: AgentConfig {
            name: "web-01".to_string(),
            metrics_interval_seconds: 30,
            heartbeat_interval_seconds: 30,
        },
        features: FeaturesConfig::default(),
    }
}

#[test]
fn request_describes_the_host() {
    let request = RegisterRequest::for_host(
        &config(),
        Some("ip-10-0-0-1".to_string()),
        "Ubuntu".to_string(),
        "22.04".to_string(),
        "0.1.0".to_string(),
    );
    assert_eq!(
        request,
        RegisterRequest {
            name: "web-01".to_string(),
            hostname: "ip-10-0-0-1".to_string(),
            ip_address: None,
            os_type: "Ubuntu".to_string(),
            os_version: "22.04".to_string(),
            agent_version: "0.1.0".to_string(),
        }
    );
}

#[test]
fn request_of_a_nameless_host() {
    let request = RegisterRequest::for_host(
        &config(),
        None,
        "Linux".to_string(),
        "Unknown".to_string(),
        "0.1.0".to_string(),
    );
    assert_eq!(request.hostname, "unknown");
    assert_eq!(request.ip_address, None);
}

#[test]
fn plain_response_holds_its_fields() {
    let response = ApiResponse { success: true, message: Some("ok".to_string()) };
    assert!(response.success);
    assert_eq!(response.message.as_deref(), Some("ok"));
}
