//! Core of a local activity-capture agent: the platform-capture
//! abstraction, the monitoring state machine, the encryption-at-rest
//! subsystem, and the storage/aggregation layer.

mod config;
mod db;
mod encryption;
mod errors;
mod monitor;
mod platform;
mod textutil;
mod ui;

pub use config::Config;
pub use db::ActivityStats;
pub use db::Click;
pub use db::Database;
pub use db::Keys;
pub use db::Process;
pub use db::Window;
pub use encryption::Encryptor;
pub use errors::CryptoError;
pub use errors::StorageError;
pub use errors::TrackerError;
pub use monitor::ActivityMonitor;
pub use monitor::CurrentWindow;
pub use platform::FallbackTracker;
pub use platform::InputEvent;
pub use platform::MouseButton;
pub use platform::PlatformTracker;
pub use platform::WindowInfo;
pub use platform::create_tracker;
pub use ui::AppTab;
pub use ui::ChartType;
pub use ui::Charts;
pub use ui::Dashboard;
pub use ui::Settings;
pub use ui::StatsPeriod;
pub use ui::Statistics;
pub use ui::TrayEvent;
