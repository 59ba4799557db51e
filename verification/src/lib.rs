//! A snapshot-delta engine for a terminal resource monitor: it parses textual
//! kernel counter sources into point-in-time snapshots, derives per-second
//! rates and CPU percentages from two snapshots, and classifies the derived
//! metrics against alert thresholds.

pub mod alert;
pub mod deltas;
pub mod parse;
pub mod snapshot;
pub mod text;
