//! Core logic of a public-address change notifier: blacklist filtering of
//! candidate addresses, rendering of the notification payload, the persisted
//! last-known-address record, and the change-detection state machine that
//! drives notification and persistence decisions.

pub mod blacklist;
pub mod config;
pub mod engine;
pub mod store;
pub mod template;
