use vstd::prelude::*;
use vstd::string::*;

use crate::app_type::AppType;
use crate::error::AppError;

verus! {

/// The `app` subcommands.
pub enum AppCommand {
    /// Show the current application selection.
    Current,
    /// Switch to an application.
    Use { app: AppType },
    /// List the supported applications.
    List,
}

/// The line that each subcommand reports.
pub open spec fn app_message(cmd: AppCommand) -> Seq<char> {
    match cmd {
        AppCommand::Current => "Showing current app..."@,
        AppCommand::Use { .. } => "Switching app..."@,
        AppCommand::List => "Listing supported apps..."@,
    }
}

/// Runs an `app` subcommand and returns the line to show.
pub fn execute(cmd: AppCommand) -> (r: Result<String, AppError>)
    ensures
        r matches Ok(s) && s@ == app_message(cmd),
{
    match cmd {
        AppCommand::Current => Ok(String::from_str("Showing current app...")),
        AppCommand::Use { app: _ } => Ok(String::from_str("Switching app...")),
        AppCommand::List => Ok(String::from_str("Listing supported apps...")),
    }
}

} // verus!
