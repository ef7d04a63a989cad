pub mod app;
pub mod mcp;
pub mod skills;
