//! Bandwidth telemetry engine for a per-interface network monitor.
//!
//! The engine derives rate-of-change bandwidth from successive raw counter
//! snapshots, keeps a bounded rolling history per interface for display
//! scaling, fans counter collection out across interfaces with a sequential
//! fallback, and drives the monitoring session's selection and tick state.

pub mod app;
pub mod app_improved;
pub mod error;
pub mod format;
pub mod history;
pub mod interface;
pub mod layout;
pub mod linux_api;
pub mod parallel_stats;
pub mod public_ip;
pub mod stats;
pub mod text;

pub use app::App;
pub use app_improved::ImprovedApp;
pub use interface::NetworkInterface;
pub use stats::BandwidthStats;
pub use stats::InterfaceStats;
