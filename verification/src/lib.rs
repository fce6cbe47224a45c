//! Health monitoring for EPS services and nodes.
//!
//! The library holds what the monitor decides and computes: which commands it runs, what their
//! output means, which states it records, whom it alerts, and what its pages and its terminal
//! screen show. Running the commands, the database, the network and the terminal belong to the
//! program around it.
pub mod api;
pub mod bytes;
pub mod double;
pub mod logs;
pub mod map;
pub mod names;
pub mod nodes;
pub mod number;
pub mod paths;
pub mod poller;
pub mod settings;
pub mod store;
pub mod text;
pub mod tui;
