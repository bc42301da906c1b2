//! Settings of the application: fixed ones, and the update configuration.

pub mod search;
pub mod shortcuts;
pub mod update_config;
