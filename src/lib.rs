//! Monitoring core of a CO2 sensor station: per-range tick counters, rolling
//! sample histories at seven time scales, the sensor's frame format, alert
//! levels with their buzzer patterns, and a diffing strip-chart renderer.

pub mod alert;
pub mod clock;
pub mod config;
pub mod history;
pub mod monitor;
pub mod render;
pub mod selector;
pub mod sensor;
