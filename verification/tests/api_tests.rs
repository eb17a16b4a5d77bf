use anytype::api::{AnytypeClient, AnytypeError, ClientConfig};

#[test]
fn test_default_client_uses_localhost() {
    let client = AnytypeClient::new().expect("Failed to create client");
    // We can't directly test the internal config, but we can test that it doesn't panic
    // and that it's created successfully
    assert!(client.api_key().is_none());
}

#[test]
fn test_custom_config() {
    let config = ClientConfig {
        base_url: "http://localhost:31009".to_string(),
        timeout_seconds: 60,
        app_name: "test-app".to_string(),
    };

    let client = AnytypeClient::with_config(config).expect("Failed to create client with config");
    assert!(client.api_key().is_none());
}

#[test]
fn test_default_config_values() {
    let config = ClientConfig::default();
    assert_eq!(config.base_url, "http://localhost:31009");
    assert_eq!(config.timeout_seconds, 30);
    assert_eq!(config.app_name, "anytype_rs");
}

#[test]
fn new_client_has_default_config() {
    let client = AnytypeClient::new().expect("Failed to create client");
    assert_eq!(client.config().base_url, "http://localhost:31009");
    assert_eq!(client.config().timeout_seconds, 30);
    assert_eq!(client.config().app_name, "anytype_rs");
}

#[test]
fn custom_config_is_kept() {
    let config = ClientConfig {
        base_url: "http://example.test:9000".to_string(),
        timeout_seconds: 5,
        app_name: "cli".to_string(),
    };
    let client = AnytypeClient::with_config(config).expect("Failed to create client");
    assert_eq!(client.config().base_url, "http://example.test:9000");
    assert_eq!(client.config().timeout_seconds, 5);
    assert_eq!(client.config().app_name, "cli");
}

#[test]
fn request_without_key_fails_with_auth_error() {
    let client = AnytypeClient::new().expect("Failed to create client");
    match client.require_api_key() {
        Err(AnytypeError::Auth { message }) => assert!(message.contains("API key not set")),
        other => panic!("Expected auth error, got: {:?}", other),
    }
}

#[test]
fn key_set_is_the_key_requests_use() {
    let mut client = AnytypeClient::new().expect("Failed to create client");
    client.set_api_key("secret-key".to_string());
    assert_eq!(client.api_key(), Some("secret-key"));
    assert_eq!(client.require_api_key().unwrap(), "secret-key");
    assert_eq!(client.config().timeout_seconds, 30);
}
