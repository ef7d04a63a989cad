use vstd::prelude::*;
use vstd::string::*;

use crate::error::AppError;

verus! {

/// The `skills` subcommands.
pub enum SkillsCommand {
    /// List installed skills.
    List,
    /// Search for available skills.
    Search { query: Option<String> },
    /// Install a skill by name or URL.
    Install { name: String },
    /// Uninstall a skill.
    Uninstall { name: String },
    /// Show information on a skill.
    Info { name: String },
    /// Manage skill repositories.
    Repos(SkillReposCommand),
}

/// The `skills repos` subcommands.
pub enum SkillReposCommand {
    /// List all repositories.
    List,
    /// Add a repository.
    Add { url: String },
    /// Remove a repository.
    Remove { url: String },
    /// Update the repository index.
    Update,
}

pub open spec fn repos_message(cmd: SkillReposCommand) -> Seq<char> {
    match cmd {
        SkillReposCommand::List => "Listing repositories..."@,
        SkillReposCommand::Add { .. } => "Adding repository..."@,
        SkillReposCommand::Remove { .. } => "Removing repository..."@,
        SkillReposCommand::Update => "Updating repositories..."@,
    }
}

pub open spec fn skills_message(cmd: SkillsCommand) -> Seq<char> {
    match cmd {
        SkillsCommand::List => "Listing skills..."@,
        SkillsCommand::Search { .. } => "Searching skills..."@,
        SkillsCommand::Install { .. } => "Installing skill..."@,
        SkillsCommand::Uninstall { .. } => "Uninstalling skill..."@,
        SkillsCommand::Info { .. } => "Showing skill info..."@,
        SkillsCommand::Repos(r) => repos_message(r),
    }
}

/// Runs a `skills` subcommand and returns the line to show.
pub fn execute(cmd: SkillsCommand) -> (r: Result<String, AppError>)
    ensures
        r matches Ok(s) && s@ == skills_message(cmd),
{
    match cmd {
        SkillsCommand::List => Ok(String::from_str("Listing skills...")),
        SkillsCommand::Search { query: _ } => Ok(String::from_str("Searching skills...")),
        SkillsCommand::Install { name: _ } => Ok(String::from_str("Installing skill...")),
        SkillsCommand::Uninstall { name: _ } => Ok(String::from_str("Uninstalling skill...")),
        SkillsCommand::Info { name: _ } => Ok(String::from_str("Showing skill info...")),
        SkillsCommand::Repos(repos_cmd) => execute_repos(repos_cmd),
    }
}

fn execute_repos(cmd: SkillReposCommand) -> (r: Result<String, AppError>)
    ensures
        r matches Ok(s) && s@ == repos_message(cmd),
{
    match cmd {
        SkillReposCommand::List => Ok(String::from_str("Listing repositories...")),
        SkillReposCommand::Add { url: _ } => Ok(String::from_str("Adding repository...")),
        SkillReposCommand::Remove { url: _ } => Ok(String::from_str("Removing repository...")),
        SkillReposCommand::Update => Ok(String::from_str("Updating repositories...")),
    }
}

} // verus!
