//! Conservation-law bench: the integer and bookkeeping core.
//!
//! The experiment compares bookkeeping strategies that store perceptions and
//! predictions into two rolling databases and checks that their total
//! magnitudes stay balanced. This crate holds the parts of that experiment
//! that are exact: the experiment grid and its labels, the rolling database
//! with its garbage collection, the tick schedule of checks and anomalies,
//! and the names of the strategies.

pub mod config;
pub mod database;
pub mod decimal;
pub mod schedule;
pub mod strategy;

pub use config::{all_configs, config_label, Config};
pub use database::{keep_newest, Database};
pub use decimal::decimal_chars;
pub use schedule::{conservation_check_due, in_anomaly_window, ANOMALY_TICKS, CHECK_INTERVAL};
pub use strategy::{MatchedStrategy, NaiveStrategy, NormalizedStrategy};
