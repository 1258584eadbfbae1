use audioshare_core::config::{load_or_create_config, AppConfig};

fn valid_config() -> AppConfig {
    AppConfig::with_defaults(
        String::from("192.168.0.2"),
        String::from("Speakers"),
        String::from("Default format"),
    )
}

#[test]
fn defaults_have_the_documented_values() {
    let cfg = valid_config();
    assert_eq!(cfg.server_ip, "192.168.0.2");
    assert_eq!(cfg.audio_endpoint, "Speakers");
    assert_eq!(cfg.audio_encoding, "Default format");
    assert_eq!(cfg.server_port, 65530);
    assert!(!cfg.minimize_on_exit);
    assert!(!cfg.auto_start_server);
    assert!(!cfg.keep_last_state);
    assert!(!cfg.last_server_state);
    assert!(cfg.notification_error);
    assert!(cfg.notification_device_connect);
    assert!(!cfg.notification_device_disconnect);
}

#[test]
fn valid_config_validates() {
    assert!(valid_config().validate().is_ok());
}

#[test]
fn empty_server_ip_is_reported_first() {
    let mut cfg = valid_config();
    cfg.server_ip = String::new();
    cfg.server_port = 0;
    assert_eq!(cfg.validate().unwrap_err(), "server_ip cannot be empty");
}

#[test]
fn zero_port_is_rejected() {
    let mut cfg = valid_config();
    cfg.server_port = 0;
    assert_eq!(
        cfg.validate().unwrap_err(),
        "server_port must be between 1 and 65535"
    );
}

#[test]
fn empty_endpoint_is_rejected() {
    let mut cfg = valid_config();
    cfg.audio_endpoint = String::new();
    assert_eq!(cfg.validate().unwrap_err(), "audio_endpoint cannot be empty");
}

#[test]
fn empty_encoding_is_rejected() {
    let mut cfg = valid_config();
    cfg.audio_encoding = String::new();
    assert_eq!(cfg.validate().unwrap_err(), "audio_encoding cannot be empty");
}

#[test]
fn existing_valid_file_is_kept() {
    let mut stored = valid_config();
    stored.server_port = 7000;
    let (cfg, write) = load_or_create_config(true, Some(stored), valid_config());
    assert_eq!(cfg.server_port, 7000);
    assert!(!write);
}

#[test]
fn invalid_file_falls_back_to_defaults() {
    let mut stored = valid_config();
    stored.server_ip = String::new();
    let (cfg, write) = load_or_create_config(true, Some(stored), valid_config());
    assert_eq!(cfg.server_ip, "192.168.0.2");
    assert!(!write);
}

#[test]
fn unreadable_file_falls_back_to_defaults() {
    let (cfg, write) = load_or_create_config(true, None, valid_config());
    assert_eq!(cfg.server_port, 65530);
    assert!(!write);
}

#[test]
fn missing_file_writes_the_defaults() {
    let (cfg, write) = load_or_create_config(false, None, valid_config());
    assert_eq!(cfg.server_port, 65530);
    assert!(write);
}

#[test]
fn clone_copies_every_field() {
    let cfg = valid_config();
    let copy = cfg.clone();
    assert_eq!(copy.server_ip, cfg.server_ip);
    assert_eq!(copy.audio_endpoint, cfg.audio_endpoint);
    assert_eq!(copy.audio_encoding, cfg.audio_encoding);
    assert_eq!(copy.server_port, cfg.server_port);
    assert_eq!(copy.notification_error, cfg.notification_error);
}
