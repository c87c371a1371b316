//! Verified core of a terminal dashboard for Twitch chat traffic stored in ScyllaDB.
//!
//! The library holds the decisions of the dashboard: command-line values, the rows
//! written for each chat event, the plan that a chat event or a stress round turns
//! into, and the state machine of the terminal UI. The program around it performs
//! the database, network and terminal work.

pub mod args;
pub mod text;
pub mod models;
pub mod transit;
pub mod workload;
pub mod stressor;
pub mod ui;
pub mod payload;
