use vstd::prelude::*;

verus! {

/// The typed failures of the library's operations.
#[derive(Debug)]
pub enum AppError {
    /// A file could not be read or written.
    Io(String),
    /// A document is malformed or does not have the expected shape.
    Parse(String),
    /// A referenced provider or server id does not exist.
    NotFound(String),
    /// A reference inside the configuration is dangling.
    Validation(String),
    /// Any other failure, reported to the user as it stands.
    Message(String),
}

impl AppError {
    /// Whether this is a parse failure.
    pub open spec fn is_parse(&self) -> bool {
        self is Parse
    }
}

} // verus!
