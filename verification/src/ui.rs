//! View state for the presentation layers: which tab and chart are
//! selected, the settings being edited, and the counter formatting the
//! panels share.  The drawing itself lives outside the core.

use vstd::prelude::*;

use crate::config::Config;
use crate::config::config_like;
use crate::config::spec_default_excludes;
use crate::config::spec_excludes;
use crate::config::spec_is_default;
use crate::textutil::format_count;
use crate::textutil::join_lines;
use crate::textutil::parse_names;
use crate::textutil::spec_format_count;
use crate::textutil::spec_join_lines;
use crate::textutil::spec_parse_names;

verus! {

/// The tab the application window shows.
#[derive(Debug, Clone, PartialEq, Eq, Structural)]
pub enum AppTab {
    Dashboard,
    Statistics,
    Charts,
    Settings,
}

/// What the tray menu asks the application to do.
#[derive(Debug, Clone, PartialEq, Eq, Structural)]
pub enum TrayEvent {
    Show,
    Hide,
    Quit,
    ToggleMonitoring,
    ShowSettings,
}

/// The chart a charts panel shows.
#[derive(Debug, Clone, PartialEq, Eq, Structural)]
pub enum ChartType {
    ActivityOverTime,
    ApplicationUsage,
    ProductivityTrends,
    HourlyPatterns,
}

/// The period a statistics panel aggregates over.
#[derive(Debug, Clone, PartialEq, Eq, Structural)]
pub enum StatsPeriod {
    Today,
    Week,
    Month,
    Year,
    All,
}

/// State of the dashboard panel.
pub struct Dashboard {}

impl Dashboard {
    pub fn new() -> (r: Dashboard) {
        Dashboard {  }
    }

    /// A large counter rendered for a metric card: millions and
    /// thousands abbreviated to one rounded decimal.
    pub fn format_large_number(&self, num: i64) -> (r: String)
        ensures
            r@ == spec_format_count(num as int),
    {
        format_count(num)
    }
}

/// State of the statistics panel.
pub struct Statistics {
    pub selected_period: StatsPeriod,
    pub detailed_view: bool,
}

impl Statistics {
    pub fn new() -> (r: Statistics)
        ensures
            r.selected_period == StatsPeriod::Today,
            !r.detailed_view,
    {
        Statistics { selected_period: StatsPeriod::Today, detailed_view: false }
    }

    /// A counter rendered for a statistics row: millions and thousands
    /// abbreviated to one rounded decimal.
    pub fn format_number(&self, num: i64) -> (r: String)
        ensures
            r@ == spec_format_count(num as int),
    {
        format_count(num)
    }
}

/// State of the charts panel.
pub struct Charts {
    pub selected_chart: ChartType,
    pub time_range: usize,
}

impl Charts {
    pub fn new() -> (r: Charts)
        ensures
            r.selected_chart == ChartType::ActivityOverTime,
            r.time_range == 7,
    {
        Charts { selected_chart: ChartType::ActivityOverTime, time_range: 7 }
    }
}

/// State of the settings panel: the applied configuration, the edited
/// copy, and the exclusion set as editable text.
pub struct Settings {
    pub config: Config,
    pub temp_config: Config,
    pub show_advanced: bool,
    pub password_field: String,
    pub confirm_password_field: String,
    pub excluded_apps_text: String,
}

impl Settings {
    /// Start editing from the applied configuration: the edited copy
    /// agrees with it and the exclusion text lists its exclusion set.
    pub fn new(config: Config) -> (r: Settings)
        ensures
            r.config == config,
            config_like(r.temp_config, config),
            !r.show_advanced,
            r.password_field@.len() == 0,
            r.confirm_password_field@.len() == 0,
            r.excluded_apps_text@ == spec_join_lines(spec_excludes(config.exclude_apps@)),
    {
        let excluded_apps_text = join_lines(&config.exclude_apps);
        Settings {
            temp_config: config.clone(),
            config,
            show_advanced: false,
            password_field: String::new(),
            confirm_password_field: String::new(),
            excluded_apps_text,
        }
    }

    /// Apply the edits: the exclusion text is parsed back into the
    /// edited copy's exclusion set (lines trimmed, empty lines
    /// dropped), and the edited copy becomes the applied
    /// configuration.
    pub fn save_settings(&mut self)
        ensures
            spec_excludes(final(self).temp_config.exclude_apps@) == spec_parse_names(
                old(self).excluded_apps_text@,
            ),
            final(self).temp_config.data_dir@ == old(self).temp_config.data_dir@,
            final(self).temp_config.database_path@ == old(self).temp_config.database_path@,
            final(self).temp_config.encryption_enabled == old(
                self,
            ).temp_config.encryption_enabled,
            final(self).temp_config.idle_timeout_seconds == old(
                self,
            ).temp_config.idle_timeout_seconds,
            final(self).temp_config.flush_interval_seconds == old(
                self,
            ).temp_config.flush_interval_seconds,
            config_like(final(self).config, final(self).temp_config),
            final(self).show_advanced == old(self).show_advanced,
            final(self).password_field == old(self).password_field,
            final(self).confirm_password_field == old(self).confirm_password_field,
            final(self).excluded_apps_text == old(self).excluded_apps_text,
    {
        self.temp_config.exclude_apps = parse_names(self.excluded_apps_text.as_str());
        self.config = self.temp_config.clone();
    }

    /// Discard the edits: the edited copy and the exclusion text
    /// return to the applied configuration, and the password fields
    /// are cleared.
    pub fn revert_changes(&mut self)
        ensures
            final(self).config == old(self).config,
            config_like(final(self).temp_config, old(self).config),
            final(self).excluded_apps_text@ == spec_join_lines(
                spec_excludes(old(self).config.exclude_apps@),
            ),
            final(self).password_field@.len() == 0,
            final(self).confirm_password_field@.len() == 0,
            final(self).show_advanced == old(self).show_advanced,
    {
        self.temp_config = self.config.clone();
        self.excluded_apps_text = join_lines(&self.config.exclude_apps);
        self.password_field = String::new();
        self.confirm_password_field = String::new();
    }

    /// Return the edited copy and the exclusion text to the default
    /// configuration, and clear the password fields.  The applied
    /// configuration stays as it is.
    pub fn reset_to_defaults(&mut self)
        ensures
            final(self).config == old(self).config,
            spec_is_default(final(self).temp_config),
            final(self).excluded_apps_text@ == spec_join_lines(spec_default_excludes()),
            final(self).password_field@.len() == 0,
            final(self).confirm_password_field@.len() == 0,
            final(self).show_advanced == old(self).show_advanced,
    {
        self.temp_config = Config::new();
        self.excluded_apps_text = join_lines(&self.temp_config.exclude_apps);
        self.password_field = String::new();
        self.confirm_password_field = String::new();
    }

    /// Return only the exclusion text to the default exclusion set.
    pub fn reset_excluded_apps(&mut self)
        ensures
            final(self).excluded_apps_text@ == spec_join_lines(spec_default_excludes()),
            final(self).config == old(self).config,
            final(self).temp_config == old(self).temp_config,
            final(self).show_advanced == old(self).show_advanced,
            final(self).password_field == old(self).password_field,
            final(self).confirm_password_field == old(self).confirm_password_field,
    {
        let default_config = Config::new();
        self.excluded_apps_text = join_lines(&default_config.exclude_apps);
    }
}

} // verus!
