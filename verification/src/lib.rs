//! Incremental synchronisation of energy data: windowed history download,
//! per-stream checkpoints, a single-flight guard and cost aggregation.

pub mod calendar;
pub mod consumption;
pub mod cost;
pub mod download;
pub mod error;
pub mod listener;
pub mod markdown;
pub mod profile;
pub mod provider;
pub mod settings;
pub mod sync;
pub mod tariff;
pub mod window;
