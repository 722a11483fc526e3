//! Configuration defaults, exclusion matching, and the view-state
//! helpers shared by the presentation layers.

use selfspy_core::AppTab;
use selfspy_core::Charts;
use selfspy_core::ChartType;
use selfspy_core::Config;
use selfspy_core::Dashboard;
use selfspy_core::FallbackTracker;
use selfspy_core::MouseButton;
use selfspy_core::PlatformTracker;
use selfspy_core::Settings;
use selfspy_core::Statistics;
use selfspy_core::StatsPeriod;
use selfspy_core::TrayEvent;
use selfspy_core::create_tracker;

#[test]
fn default_config_values() {
    let config = Config::new();
    assert_eq!(config.data_dir, "selfspy");
    assert_eq!(config.database_path, "selfspy/selfspy.db");
    assert!(config.encryption_enabled);
    assert_eq!(config.exclude_apps, vec!["1Password", "Bitwarden", "KeePass"]);
    assert_eq!(config.idle_timeout_seconds, 180);
    assert_eq!(config.flush_interval_seconds, 10);
}

#[test]
fn with_data_dir_moves_the_database_path() {
    let config = Config::new().with_data_dir("/tmp/capture".to_string());
    assert_eq!(config.data_dir, "/tmp/capture");
    assert_eq!(config.database_path, "/tmp/capture/selfspy.db");
    assert!(config.encryption_enabled);
}

#[test]
fn exclusion_matches_exactly() {
    let config = Config::new();
    assert!(config.is_excluded(&"Bitwarden".to_string()));
    assert!(!config.is_excluded(&"bitwarden".to_string()));
    assert!(!config.is_excluded(&"Chrome".to_string()));
}

#[test]
fn mouse_buttons_have_persisted_names() {
    assert_eq!(MouseButton::Left.as_str(), "left");
    assert_eq!(MouseButton::Right.as_str(), "right");
    assert_eq!(MouseButton::Middle.as_str(), "middle");
}

#[test]
fn fallback_tracker_reports_a_fixed_window_and_no_events() {
    let mut tracker = create_tracker();
    let info = tracker.get_active_window().unwrap();
    assert_eq!(info.process_name, "Unknown");
    assert_eq!(info.window_title, "Unknown Window");
    assert_eq!(info.bundle_id, None);
    assert!(tracker.start_input_tracking().is_ok());
    assert!(tracker.get_input_events().is_empty());
    assert!(tracker.stop_input_tracking().is_ok());
    let _also: FallbackTracker = FallbackTracker;
}

#[test]
fn counter_formatting_abbreviates_with_one_decimal() {
    let dashboard = Dashboard::new();
    assert_eq!(dashboard.format_large_number(0), "0");
    assert_eq!(dashboard.format_large_number(999), "999");
    assert_eq!(dashboard.format_large_number(-42), "-42");
    assert_eq!(dashboard.format_large_number(1_000), "1.0K");
    assert_eq!(dashboard.format_large_number(1_234), "1.2K");
    assert_eq!(dashboard.format_large_number(999_999), "1000.0K");
    assert_eq!(dashboard.format_large_number(1_000_000), "1.0M");
    assert_eq!(dashboard.format_large_number(1_550_000), "1.6M");
    assert_eq!(dashboard.format_large_number(25_430_000), "25.4M");
}

#[test]
fn statistics_formatting_matches_dashboard_formatting() {
    let statistics = Statistics::new();
    assert_eq!(statistics.selected_period, StatsPeriod::Today);
    assert!(!statistics.detailed_view);
    assert_eq!(statistics.format_number(25_430), "25.4K");
    assert_eq!(statistics.format_number(3_633), "3.6K");
}

#[test]
fn charts_start_on_the_activity_chart() {
    let charts = Charts::new();
    assert_eq!(charts.selected_chart, ChartType::ActivityOverTime);
    assert_eq!(charts.time_range, 7);
}

#[test]
fn tabs_and_tray_events_compare_by_variant() {
    assert_eq!(AppTab::Dashboard, AppTab::Dashboard);
    assert_ne!(AppTab::Charts, AppTab::Settings);
    assert_ne!(TrayEvent::Show, TrayEvent::Hide);
    assert_eq!(TrayEvent::ToggleMonitoring, TrayEvent::ToggleMonitoring);
    assert_eq!(TrayEvent::Quit, TrayEvent::Quit);
    assert_eq!(TrayEvent::ShowSettings, TrayEvent::ShowSettings);
}

#[test]
fn settings_lists_the_exclusions_as_lines() {
    let settings = Settings::new(Config::new());
    assert_eq!(settings.excluded_apps_text, "1Password\nBitwarden\nKeePass");
    assert!(!settings.show_advanced);
    assert_eq!(settings.password_field, "");
    assert_eq!(settings.confirm_password_field, "");
    assert_eq!(settings.temp_config.data_dir, "selfspy");
}

#[test]
fn saving_parses_trimmed_nonempty_lines() {
    let mut settings = Settings::new(Config::new());
    settings.excluded_apps_text = "  Chrome \n\n\tSlack\r\n   \nFirefox".to_string();
    settings.save_settings();
    assert_eq!(settings.temp_config.exclude_apps, vec!["Chrome", "Slack", "Firefox"]);
    assert_eq!(settings.config.exclude_apps, vec!["Chrome", "Slack", "Firefox"]);
}

#[test]
fn saving_trims_unicode_whitespace() {
    let mut settings = Settings::new(Config::new());
    settings.excluded_apps_text =
        "\u{a0}Chrome\u{a0}\n\u{2003}\n\u{3000}Slack\u{2009}".to_string();
    settings.save_settings();
    assert_eq!(settings.temp_config.exclude_apps, vec!["Chrome", "Slack"]);
}

#[test]
fn revert_restores_the_applied_configuration() {
    let mut settings = Settings::new(Config::new());
    settings.excluded_apps_text = "Other".to_string();
    settings.password_field = "secret".to_string();
    settings.revert_changes();
    assert_eq!(settings.excluded_apps_text, "1Password\nBitwarden\nKeePass");
    assert_eq!(settings.password_field, "");
    assert_eq!(settings.confirm_password_field, "");
}

#[test]
fn reset_to_defaults_resets_the_edited_copy() {
    let mut settings = Settings::new(
        Config::new().with_data_dir("/elsewhere".to_string()),
    );
    settings.reset_to_defaults();
    assert_eq!(settings.temp_config.data_dir, "selfspy");
    assert_eq!(settings.excluded_apps_text, "1Password\nBitwarden\nKeePass");
    assert_eq!(settings.config.data_dir, "/elsewhere");
}

#[test]
fn reset_excluded_apps_touches_only_the_text() {
    let mut settings = Settings::new(Config::new());
    settings.excluded_apps_text = "Changed".to_string();
    settings.password_field = "keep".to_string();
    settings.reset_excluded_apps();
    assert_eq!(settings.excluded_apps_text, "1Password\nBitwarden\nKeePass");
    assert_eq!(settings.password_field, "keep");
}
