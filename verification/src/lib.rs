pub mod args;
pub mod controls;
pub mod dashboard;
pub mod hardware;
pub mod signals;
pub mod startup;
mod text;

pub use args::hardware_requested;
pub use controls::{parse_key, KeyCommand};
pub use dashboard::{DashboardState, FramePlan};
pub use hardware::Esp32Source;
pub use signals::{stress_test_indicators, Indicators, Lamp};
pub use startup::{StartupPhase, StartupSequence, STARTUP_TICKS};
