//! Supervision of long-running game-server processes: the process table and
//! its state machine, the launch plan for each server, and the configuration
//! documents handed to the servers.

pub mod control;
pub mod error;
pub mod lifecycle;
pub mod manager;
pub mod paths;
pub mod schemas;
pub mod settings;
pub mod table;
