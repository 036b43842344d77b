//! Configuration lookups by user identifier.

use omnistat::config::{Config, ConfigError, ConfigUser, ConfigUserEntry};
use omnistat::types::latitude::Latitude;
use omnistat::types::longitude::Longitude;

fn sample_config() -> Config {
    Config {
        users: vec![
            ConfigUserEntry {
                user_id: "ada".to_string(),
                user: ConfigUser {
                    latitude: Latitude::new(52_520),
                    longitude: Longitude::new(13_405),
                },
            },
            ConfigUserEntry {
                user_id: "brin".to_string(),
                user: ConfigUser {
                    latitude: Latitude::new(40_713),
                    longitude: Longitude::new(-74_006),
                },
            },
        ],
        db_url: "postgres://forecast".to_string(),
    }
}

#[test]
fn finds_a_configured_user() {
    let config = sample_config();
    let user = config.get_user_or_err("brin").expect("user exists");
    assert_eq!(user.latitude.value(), 40_713);
    assert_eq!(user.longitude.value(), -74_006);
}

#[test]
fn reports_a_missing_user_by_name() {
    let config = sample_config();
    match config.get_user_or_err("nobody") {
        Err(ConfigError::UnknownUser(s)) => assert_eq!(s, "nobody"),
        other => panic!("expected an unknown-user error, got {:?}", other.err()),
    }
}

#[test]
fn empty_configuration_has_no_users() {
    let config = Config { users: Vec::new(), db_url: String::new() };
    assert!(config.get_user_or_err("ada").is_err());
}
