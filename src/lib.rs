//! Brightness control for a networked clock display: the daylight policy,
//! the stepped transition engine and the device's command protocol.

pub mod args;
pub mod brightness;
pub mod connection;
pub mod config;
pub mod error;
pub mod suninfo;
pub mod transition;
