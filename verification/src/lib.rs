//! Update security and release management: environment-scoped constants,
//! signature verification, version policy, backup bookkeeping and the
//! update lifecycle.

pub mod backup;
pub mod base64_text;
pub mod calendar;
pub mod config;
pub mod ed25519;
pub mod environment;
pub mod paths;
pub mod security;
pub mod semantic_version;
pub mod tauri_config;
pub mod text;
pub mod update_urls;
pub mod updater;
