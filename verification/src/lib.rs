//! Core of a mains-power watchdog: it infers outages from gaps in a liveness
//! heartbeat kept in a durable key-value store, reports how long power was off
//! and on, and guards on-demand status queries behind a per-user approval flag.

pub mod approval;
pub mod command;
pub mod dispatch;
pub mod instant;
pub mod reconcile;
pub mod render;
pub mod store;
