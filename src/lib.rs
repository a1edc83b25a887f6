//! Sampling history, refresh scheduling and sparkline rendering for a
//! terminal system monitor.

pub mod symbols;
pub mod graph;
pub mod text;
pub mod error;
pub mod history;
pub mod scheduler;
pub mod widgets;
pub mod cli;
pub mod units;
pub mod config;
pub mod process;
pub mod devices;
pub mod view_page;
pub mod theme;
pub mod network;
pub mod battery;
pub mod input;
pub mod gpu_query;
