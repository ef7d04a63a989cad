pub mod app_type;
pub mod backup;
pub mod commands;
pub mod config;
pub mod document;
pub mod error;
pub mod json;
pub mod mcp;
pub mod plugin;
pub mod provider;
pub mod sync;
pub mod theme;
pub mod ui;
