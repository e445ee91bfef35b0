//! Configuration failures.
//!
//! Every failure is fatal for the run: there is no retry and no partial
//! success. Each variant names the field, key or variable involved so the
//! operator can fix the environment and re-run.

use vstd::prelude::*;

verus! {

/// Why configuration resolution, or the credentials write around it, failed.
#[derive(Debug, PartialEq, Eq)]
pub enum ConfigError {
    /// A required variable was set under neither of its two names.
    MissingConfiguration { name: String },
    /// A variable was set but its text does not coerce to the field's type.
    InvalidConfigurationType { name: String, expected: String, actual: String },
    /// The raw values text is not a JSON object all of whose values are strings.
    MalformedValues,
    /// A values entry is an indirection marker naming an unset variable.
    UnresolvedIndirection { key: String, referenced_var: String },
    /// The invoking user's home directory could not be resolved.
    HomeDirectoryUnavailable,
    /// The credentials directory could not be created.
    DirectoryCreationFailed,
    /// The credentials file could not be created or written.
    FileWriteFailed,
}

} // verus!
