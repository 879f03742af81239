use palangrotte::settings::{load_settings, Settings, SettingsSource, SETTINGS_FILE};

#[test]
fn default_settings_have_the_built_in_values() {
    let settings = Settings::default();
    assert_eq!(settings.folders_file, "folders.enc");
    assert_eq!(settings.log_file, "plgrt.log");
    assert_eq!(settings.keyword, "mustuflux");
    assert_eq!(settings.service_url, "https://jerome.bousquie.fr/palangrotte/index.php");
    assert_eq!(
        settings.canary_file_names,
        vec![
            "passwords", "documentation", "factures", "confidentiel", "profils", "budget",
            "personnel", "secret", "plans", "groupes", "autorisations", "private",
            "confidential", "secret_keys"
        ]
    );
    assert_eq!(
        settings.canary_file_extensions,
        vec!["txt", "pdf", "docx", "xlsx", "pptx", "jpg", "png"]
    );
    assert_eq!(settings.min_canary_files, 2);
    assert_eq!(settings.max_canary_files, 5);
    assert_eq!(settings.min_canary_file_size, 12288);
    assert_eq!(settings.max_canary_file_size, 122880);
    assert_eq!(settings.notification_title, "Security Alert");
    assert_eq!(
        settings.notification_message,
        "A canary file has been modified. The system is shutting down."
    );
}

#[test]
fn settings_file_has_its_name() {
    assert_eq!(SETTINGS_FILE, "palangrotte.toml");
}

#[test]
fn default_settings_are_seedable() {
    assert!(Settings::default().is_seedable());
}

#[test]
fn settings_with_an_empty_range_or_pool_are_not_seedable() {
    let mut settings = Settings::default();
    settings.min_canary_files = 6;
    assert!(!settings.is_seedable());
    let mut settings = Settings::default();
    settings.min_canary_file_size = 122881;
    assert!(!settings.is_seedable());
    let mut settings = Settings::default();
    settings.canary_file_names.clear();
    assert!(!settings.is_seedable());
    let mut settings = Settings::default();
    settings.canary_file_extensions.clear();
    assert!(!settings.is_seedable());
    let mut settings = Settings::default();
    settings.min_canary_files = 5;
    settings.min_canary_file_size = 122880;
    assert!(settings.is_seedable());
}

#[test]
fn parsed_settings_are_taken_as_they_are() {
    let mut parsed = Settings::default();
    parsed.keyword = "other".to_string();
    parsed.max_canary_files = 9;
    let (settings, warning) = load_settings(SettingsSource::Parsed(parsed));
    assert_eq!(settings.keyword, "other");
    assert_eq!(settings.max_canary_files, 9);
    assert_eq!(settings.log_file, "plgrt.log");
    assert_eq!(warning, None);
}

#[test]
fn unparsable_settings_fall_back_to_the_defaults() {
    let (settings, warning) =
        load_settings(SettingsSource::Unparsable("missing field `keyword`".to_string()));
    assert_eq!(settings.keyword, "mustuflux");
    assert_eq!(settings.max_canary_files, 5);
    assert_eq!(
        warning.unwrap(),
        "Warning: Could not parse palangrotte.toml: missing field `keyword`. Using default settings."
    );
}

#[test]
fn missing_settings_fall_back_to_the_defaults() {
    let (settings, warning) = load_settings(SettingsSource::Missing);
    assert_eq!(settings.folders_file, "folders.enc");
    assert_eq!(
        warning.unwrap(),
        "Warning: Could not read palangrotte.toml. Using default settings."
    );
}
