//! Watches the size of the symbolication cache, classifies it into tiers,
//! and empties it under strict containment checks.

pub mod audit_log;
pub mod cache_cleaner;
pub mod cache_monitor;
mod clock;
pub mod daemon;
pub mod dir_scan;
pub mod path_guard;
pub mod scheduler;
pub mod text;
pub mod tray;
