//! Core of an embedded data engine: a catalog of namespaced tables kept by a
//! transaction log, the table lifecycle rules, session state, engine shutdown,
//! validity masks, data frames and load monitoring of bounded channels.

pub mod ident;
pub mod info;
pub mod error;
pub mod cluster;
pub mod config;
pub mod log;
pub mod state;
pub mod mask;
pub mod frame;
pub mod table;
pub mod load_monitor;
pub mod context;
pub mod lazy;
pub mod service;
