//! Local-first mail client core: threading, message digestion, thread
//! state classification, draft workflow rules, configuration checks and the
//! keyboard-driven view state machines, each with its contract.

pub mod ai;
pub mod commands;
pub mod config;
pub mod error;
pub mod index;
pub mod ingest;
pub mod maildir;
pub mod model;
pub mod parse;
pub mod send;
pub mod strmap;
pub mod sync;
pub mod text;
pub mod threading;
pub mod ui;
pub mod watch;
