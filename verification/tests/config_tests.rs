use modbus_stream::config::{AppConfig, ConfigError};

#[test]
fn test_default_config() {
    let config = AppConfig::default();
    assert!(config.validate().is_ok());
}

#[test]
fn test_config_validation() {
    let mut config = AppConfig::default();

    // Test invalid port
    config.server.port = 0;
    assert!(config.validate().is_err());

    // Test invalid slave ID
    config.server.port = 3000;
    config.sensors[0].slave_id = 0;
    assert!(config.validate().is_err());

    // Test valid config
    config.sensors[0].slave_id = 1;
    assert!(config.validate().is_ok());
}

#[test]
fn validation_reports_the_first_failing_rule() {
    let mut config = AppConfig::default();
    config.sensors[2].slave_id = 0;
    config.sensors[3].slave_id = 0;
    assert_eq!(config.validate(), Err(ConfigError::SlaveIdZero(2)));
    assert_eq!(ConfigError::SlaveIdZero(2).message(), "sensor3 slave ID cannot be 0");
    config.server.port = 0;
    assert_eq!(config.validate(), Err(ConfigError::PortZero));
}
