use vstd::prelude::*;

use crate::app_type::AppType;

verus! {

/// The `mcp` subcommands.
pub enum McpCommand {
    /// List all MCP servers.
    List,
    /// Add a new MCP server.
    Add,
    /// Edit an MCP server.
    Edit { id: String },
    /// Delete an MCP server.
    Delete { id: String },
    /// Enable an MCP server for the selected application.
    Enable { id: String },
    /// Disable an MCP server for the selected application.
    Disable { id: String },
    /// Check that a command is on the search path.
    Validate { command: String },
    /// Sync the MCP configuration into the live files.
    Sync,
    /// Import MCP servers from the selected application's live file.
    Import,
}

/// An `mcp` subcommand with the application it acts on resolved.
pub enum McpAction {
    List(AppType),
    Add(AppType),
    Edit(AppType, String),
    Delete(String),
    Enable(AppType, String),
    Disable(AppType, String),
    Validate(String),
    Sync,
    Import(AppType),
}

/// The application a command acts on: the first one unless another is given.
pub open spec fn chosen_app(app: Option<AppType>) -> AppType {
    match app {
        Some(a) => a,
        None => AppType::Claude,
    }
}

pub open spec fn action_for(cmd: McpCommand, app: Option<AppType>) -> McpAction {
    let a = chosen_app(app);
    match cmd {
        McpCommand::List => McpAction::List(a),
        McpCommand::Add => McpAction::Add(a),
        McpCommand::Edit { id } => McpAction::Edit(a, id),
        McpCommand::Delete { id } => McpAction::Delete(id),
        McpCommand::Enable { id } => McpAction::Enable(a, id),
        McpCommand::Disable { id } => McpAction::Disable(a, id),
        McpCommand::Validate { command } => McpAction::Validate(command),
        McpCommand::Sync => McpAction::Sync,
        McpCommand::Import => McpAction::Import(a),
    }
}

/// Decides what an `mcp` subcommand does, for `app` or else the first application.
pub fn execute(cmd: McpCommand, app: Option<AppType>) -> (r: McpAction)
    ensures
        r == action_for(cmd, app),
{
    let app_type = match app {
        Some(a) => a,
        None => AppType::Claude,
    };
    match cmd {
        McpCommand::List => McpAction::List(app_type),
        McpCommand::Add => McpAction::Add(app_type),
        McpCommand::Edit { id } => McpAction::Edit(app_type, id),
        McpCommand::Delete { id } => McpAction::Delete(id),
        McpCommand::Enable { id } => McpAction::Enable(app_type, id),
        McpCommand::Disable { id } => McpAction::Disable(app_type, id),
        McpCommand::Validate { command } => McpAction::Validate(command),
        McpCommand::Sync => McpAction::Sync,
        McpCommand::Import => McpAction::Import(app_type),
    }
}

} // verus!
