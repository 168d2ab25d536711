//! Page-frame census: classification of kernel page-flag records against a
//! flag catalog, the scan strategies that read the page-flag table (range,
//! unbounded, counters only, sampling with extrapolation), and the data and
//! interaction model of an explorer over the records.
//!
//! Beside it: memory statistics read from the kernel's meminfo table, which
//! also give the census its estimate of the number of page frames, with
//! snapshots, differences, event conditions and human-readable sizes.
pub mod catalog;
pub mod page;
pub mod counters;
pub mod census;
pub mod sampling;
pub mod table;
pub mod explorer;
pub mod text;
pub mod formatting;
pub mod meminfo;
pub mod monitor;
