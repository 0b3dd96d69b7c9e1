use huntermatrix::config::{
    ConfigError, MatrixConfig, MessageFormat, RetryConfig, RoomConfig,
};
use huntermatrix::matrix::MatrixService;

fn matrix_config() -> MatrixConfig {
    MatrixConfig {
        enabled: true,
        homeserver: "https://matrix.example.org".to_string(),
        username: "bot".to_string(),
        password: "SECRET-REDACTED".to_string(),
        device_name: "notifier".to_string(),
        rooms: RoomConfig {
            default_room: "!abc:example.org".to_string(),
            emergency_room: String::new(),
            reports_room: String::new(),
            admin_room: String::new(),
        },
        message_format: MessageFormat {
            use_markdown: false,
            use_html: false,
            include_timestamp: false,
            include_severity_emoji: false,
        },
        retry: RetryConfig { max_attempts: 1, delay_seconds: 0 },
    }
}

#[test]
fn service_holds_and_exposes_its_configuration() {
    let mut service = MatrixService::new(matrix_config());
    assert_eq!(service.config().homeserver, "https://matrix.example.org");
    assert!(service.validate_config().is_ok());

    service.config_mut().rooms.default_room = "missing-sigil".to_string();
    assert_eq!(
        service.validate_config(),
        Err(ConfigError::InvalidRoomId("missing-sigil".to_string()))
    );
}
