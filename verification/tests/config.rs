use prompalette_update::config::update_config::{PublicKeys, UpdateConfiguration};
use prompalette_update::environment::Environment;
use prompalette_update::updater::{get_update_config, UpdateConfig};

#[test]
fn test_default_configuration() {
    let config = UpdateConfiguration::default();
    assert!(config.updates_enabled);
    assert!(config.auto_check_enabled);
    assert!(config.requires_manual_approval);
    assert!(config.backup_enabled);
    assert_eq!(config.check_interval_minutes, 60);
    assert_eq!(config.backup_retention_count, 10);
}

#[test]
fn test_environment_specific_config() {
    let prod_config = UpdateConfiguration::for_environment(Environment::Production, UpdateConfiguration::default());
    assert!(prod_config.auto_check_enabled);
    assert!(prod_config.requires_manual_approval);

    let dev_config = UpdateConfiguration::for_environment(Environment::Development, UpdateConfiguration::default());
    assert!(!dev_config.auto_check_enabled);
    assert!(!dev_config.requires_manual_approval);
    assert!(dev_config.backup_enabled);
}

#[test]
fn staging_checks_by_hand_and_asks() {
    let config = UpdateConfiguration::for_environment(Environment::Staging, UpdateConfiguration::default());
    assert!(!config.auto_check_enabled);
    assert!(config.requires_manual_approval);
    assert!(config.backup_enabled);
    assert!(config.updates_enabled);
}

#[test]
fn test_public_key_retrieval() {
    let mut config = UpdateConfiguration::default();
    config.public_keys.insert("production".to_string(), "test-key".to_string());

    let key = config.get_public_key_for_environment(Environment::Production);
    assert_eq!(key, Some(&"test-key".to_string()));

    let empty_key = config.get_public_key_for_environment(Environment::Staging);
    assert!(empty_key.is_none() || empty_key.unwrap().is_empty());
}

#[test]
fn test_configuration_validation() {
    let mut config =
        UpdateConfiguration::with_public_keys("test-key".to_string(), String::new(), String::new());
    assert!(config.validate().is_ok());

    config.check_interval_minutes = 0;
    assert!(config.validate().is_err());

    config.check_interval_minutes = 60;
    config.backup_retention_count = 0;
    assert!(config.validate().is_err());
}

#[test]
fn validation_messages() {
    let mut config =
        UpdateConfiguration::with_public_keys("test-key".to_string(), String::new(), String::new());
    config.check_interval_minutes = 0;
    config.backup_retention_count = 0;
    assert_eq!(config.validate(), Err("Check interval must be greater than 0".to_string()));
    config.check_interval_minutes = 1;
    assert_eq!(config.validate(), Err("Backup retention count must be greater than 0".to_string()));
    config.backup_retention_count = 1;
    assert_eq!(config.validate(), Ok(()));
}

#[test]
fn production_key_is_required_with_updates_enabled() {
    let mut config = UpdateConfiguration::default();
    assert_eq!(
        config.validate(),
        Err("Production public key is required when updates are enabled".to_string())
    );
    config.updates_enabled = false;
    assert_eq!(config.validate(), Ok(()));

    let mut bare = UpdateConfiguration::default();
    bare.public_keys = PublicKeys::new();
    assert_eq!(
        bare.validate(),
        Err("Production public key is required when updates are enabled".to_string())
    );
    bare.public_keys.insert("staging".to_string(), "k".to_string());
    assert!(bare.validate().is_err());
    bare.public_keys.insert("production".to_string(), "k".to_string());
    assert_eq!(bare.validate(), Ok(()));
}

#[test]
fn public_keys_hold_one_key_per_name() {
    let mut keys = PublicKeys::new();
    assert_eq!(keys.get("production"), None);
    assert!(!keys.insert("production".to_string(), "a".to_string()));
    assert!(!keys.insert("staging".to_string(), "b".to_string()));
    assert!(keys.insert("production".to_string(), "c".to_string()));
    assert_eq!(keys.get("production"), Some(&"c".to_string()));
    assert_eq!(keys.get("staging"), Some(&"b".to_string()));
    assert_eq!(keys.get("development"), None);
}

#[test]
fn empty_key_counts_as_no_key() {
    let config = UpdateConfiguration::with_public_keys(String::new(), "s".to_string(), String::new());
    assert_eq!(config.get_public_key_for_environment(Environment::Production), None);
    assert_eq!(config.get_public_key_for_environment(Environment::Staging), Some(&"s".to_string()));
    assert_eq!(config.get_public_key_for_environment(Environment::Development), None);
}

#[test]
fn update_config_defaults_per_environment() {
    let prod = UpdateConfig::default_for_environment(Environment::Production);
    assert_eq!(prod.environment, "production");
    assert!(prod.updates_enabled);
    assert!(prod.auto_check_enabled);
    assert!(prod.requires_manual_approval);
    assert!(prod.backup_enabled);
    assert_eq!(prod.public_key, None);

    let staging = UpdateConfig::default_for_environment(Environment::Staging);
    assert_eq!(staging.environment, "staging");
    assert!(!staging.auto_check_enabled);
    assert!(staging.requires_manual_approval);

    let dev = UpdateConfig::default_for_environment(Environment::Development);
    assert_eq!(dev.environment, "development");
    assert!(!dev.auto_check_enabled);
    assert!(!dev.requires_manual_approval);
    assert!(dev.backup_enabled);
}

#[test]
fn update_config_in_force_enables_updates() {
    let config = get_update_config(Environment::Development);
    assert!(config.updates_enabled);
    assert_eq!(config.environment, "development");
    assert!(config.backup_enabled);
}
