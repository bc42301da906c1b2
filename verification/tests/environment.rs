use prompalette_update::config;
use prompalette_update::environment::{Environment, Platform};
use prompalette_update::tauri_config::{current_environment, get_update_endpoint, is_updater_active};
use prompalette_update::update_urls::UpdateUrls;

#[test]
fn test_app_identifier() {
    assert_eq!(Environment::Development.app_identifier(), "com.prompalette.app.dev");
    assert_eq!(Environment::Staging.app_identifier(), "com.prompalette.app.staging");
    assert_eq!(Environment::Production.app_identifier(), "com.prompalette.app");
}

#[test]
fn test_app_name() {
    assert_eq!(Environment::Development.app_name(), "PromPalette Dev");
    assert_eq!(Environment::Staging.app_name(), "PromPalette Staging");
    assert_eq!(Environment::Production.app_name(), "PromPalette");
}

#[test]
fn test_database_filename() {
    assert_eq!(Environment::Development.database_filename(), "prompalette-dev.db");
    assert_eq!(Environment::Staging.database_filename(), "prompalette-staging.db");
    assert_eq!(Environment::Production.database_filename(), "prompalette.db");
}

#[test]
fn test_window_title() {
    assert_eq!(Environment::Development.window_title(), "PromPalette [DEV]");
    assert_eq!(Environment::Staging.window_title(), "PromPalette [STAGING]");
    assert_eq!(Environment::Production.window_title(), "PromPalette");
}

#[test]
fn test_data_dir_structure() {
    let dev_dir = Environment::Development.data_dir(Platform::Other, Some("/home/user")).unwrap();
    let staging_dir = Environment::Staging.data_dir(Platform::Other, Some("/home/user")).unwrap();
    let prod_dir = Environment::Production.data_dir(Platform::Other, Some("/home/user")).unwrap();

    assert!(dev_dir.join("/").contains("PromPalette-Dev"));
    assert!(staging_dir.join("/").contains("PromPalette-Staging"));
    assert!(prod_dir.join("/").contains("PromPalette"));

    assert_ne!(dev_dir, staging_dir);
    assert_ne!(staging_dir, prod_dir);
    assert_ne!(dev_dir, prod_dir);
}

#[test]
fn data_dir_segments_per_platform() {
    let linux = Environment::Production.data_dir(Platform::Other, Some("/home/u")).unwrap();
    assert_eq!(linux, vec!["/home/u".to_string(), ".config".to_string(), "PromPalette".to_string()]);
    let mac = Environment::Staging.data_dir(Platform::MacOs, Some("/Users/u")).unwrap();
    assert_eq!(
        mac,
        vec![
            "/Users/u".to_string(),
            "Library/Application Support".to_string(),
            "PromPalette-Staging".to_string()
        ]
    );
    let windows = Environment::Development.data_dir(Platform::Windows, Some("C:\\Users\\u\\AppData")).unwrap();
    assert_eq!(windows, vec!["C:\\Users\\u\\AppData".to_string(), "PromPalette-Dev".to_string()]);
}

#[test]
fn data_dir_without_base_is_an_error() {
    assert_eq!(
        Environment::Production.data_dir(Platform::MacOs, None),
        Err("Cannot find HOME directory on macOS".to_string())
    );
    assert_eq!(
        Environment::Production.data_dir(Platform::Windows, None),
        Err("Cannot find APPDATA directory on Windows".to_string())
    );
    assert_eq!(
        Environment::Production.data_dir(Platform::Other, None),
        Err("Cannot find HOME directory on Linux".to_string())
    );
    assert_eq!(Platform::MacOs.base_variable(), "HOME");
    assert_eq!(Platform::Windows.base_variable(), "APPDATA");
    assert_eq!(Platform::Other.base_variable(), "HOME");
}

#[test]
fn environment_resolves_from_setting() {
    assert_eq!(Environment::current(Some("development"), false), Environment::Development);
    assert_eq!(Environment::current(Some("staging"), true), Environment::Staging);
    assert_eq!(Environment::current(Some("production"), true), Environment::Production);
}

#[test]
fn environment_falls_back_by_build_kind() {
    assert_eq!(Environment::current(None, true), Environment::Development);
    assert_eq!(Environment::current(None, false), Environment::Production);
    assert_eq!(Environment::current(Some("Production"), true), Environment::Development);
    assert_eq!(Environment::current(Some(""), false), Environment::Production);
}

#[test]
fn environment_names_and_suffixes() {
    assert_eq!(Environment::Development.name(), "development");
    assert_eq!(Environment::Staging.name(), "staging");
    assert_eq!(Environment::Production.name(), "production");
    assert_eq!(Environment::Staging.to_string(), "staging");
    assert_eq!(Environment::Development.icon_suffix(), "-dev");
    assert_eq!(Environment::Staging.icon_suffix(), "-staging");
    assert_eq!(Environment::Production.icon_suffix(), "");
    assert_eq!(Environment::Development.storage_prefix(), "prompalette-dev");
    assert_eq!(Environment::Staging.storage_prefix(), "prompalette-staging");
    assert_eq!(Environment::Production.storage_prefix(), "prompalette");
    assert!(Environment::Production.is_production());
    assert!(!Environment::Staging.is_production());
    assert!(!Environment::Development.is_production());
}

#[test]
fn public_key_variable_is_qualified_by_environment() {
    assert_eq!(Environment::Production.public_key_variable(), "PROMPALETTE_PRODUCTION_PUBLIC_KEY");
    assert_eq!(Environment::Staging.public_key_variable(), "PROMPALETTE_STAGING_PUBLIC_KEY");
    assert_eq!(Environment::Development.public_key_variable(), "PROMPALETTE_DEVELOPMENT_PUBLIC_KEY");
}

#[test]
fn test_shortcut_constants() {
    assert_eq!(config::shortcuts::QUICK_LAUNCHER, "CommandOrControl+Shift+P");
}

#[test]
fn search_constants() {
    assert_eq!(config::search::DEBOUNCE_MS, 150);
    assert_eq!(config::search::MAX_RESULTS, 20);
}

#[test]
fn test_updater_config() {
    println!("Updater active: {}", is_updater_active(None));
    println!("Environment: {}", current_environment(None));
    println!("Update endpoint: {}", get_update_endpoint(current_environment(None)));
}

#[test]
fn updater_switch_needs_the_word_true() {
    assert!(is_updater_active(Some("true")));
    assert!(!is_updater_active(Some("false")));
    assert!(!is_updater_active(Some("TRUE")));
    assert!(!is_updater_active(Some("")));
    assert!(!is_updater_active(None));
}

#[test]
fn build_environment_defaults_to_production() {
    assert_eq!(current_environment(None), "production");
    assert_eq!(current_environment(Some("staging")), "staging");
}

#[test]
fn update_endpoint_per_environment() {
    assert_eq!(
        get_update_endpoint("development"),
        "https://github.com/Jun-T-git/prompalette/releases/download/latest-dev.json"
    );
    assert_eq!(
        get_update_endpoint("staging"),
        "https://github.com/Jun-T-git/prompalette/releases/download/latest-staging.json"
    );
    assert_eq!(
        get_update_endpoint("production"),
        "https://github.com/Jun-T-git/prompalette/releases/latest/download/latest.json"
    );
    assert_eq!(
        get_update_endpoint("anything"),
        "https://github.com/Jun-T-git/prompalette/releases/latest/download/latest.json"
    );
}

#[test]
fn test_default_urls() {
    let urls = UpdateUrls::default();
    assert!(urls.production.contains("releases/latest"));
    assert!(urls.staging.contains("releases"));
    assert!(urls.development.contains("releases"));
}

#[test]
fn test_get_url_for_environment() {
    let urls = UpdateUrls {
        production: "https://prod.example.com".to_string(),
        staging: "https://staging.example.com".to_string(),
        development: "https://dev.example.com".to_string(),
    };

    assert_eq!(urls.get_url_for_environment(&Environment::Production), "https://prod.example.com");
    assert_eq!(urls.get_url_for_environment(&Environment::Staging), "https://staging.example.com");
    assert_eq!(urls.get_url_for_environment(&Environment::Development), "https://dev.example.com");
}

#[test]
fn default_urls_are_the_defaults_without_overrides() {
    let urls = UpdateUrls::default();
    let same = UpdateUrls::with_overrides(None, None, None);
    assert_eq!(urls.production, "https://api.github.com/repos/Jun-T-git/prompalette/releases/latest");
    assert_eq!(urls.production, same.production);
    assert_eq!(urls.staging, same.staging);
    assert_eq!(urls.development, same.development);
}

#[test]
fn url_overrides_win() {
    let urls = UpdateUrls::with_overrides(Some("https://p".to_string()), None, Some("https://d".to_string()));
    assert_eq!(urls.production, "https://p");
    assert_eq!(urls.staging, "https://api.github.com/repos/Jun-T-git/prompalette/releases");
    assert_eq!(urls.development, "https://d");
    let merged = urls.merge_with_env(None, Some("https://s".to_string()), None);
    assert_eq!(merged.production, "https://p");
    assert_eq!(merged.staging, "https://s");
    assert_eq!(merged.development, "https://d");
}
