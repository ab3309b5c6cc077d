//! The failures that end a run, and the diagnostic each one prints.

use vstd::prelude::*;
use vstd::string::StringExecFns;

verus! {

/// A failure of the environment. Every one of them ends the run at once:
/// none is retried, and none is turned into a silent default.
#[derive(Debug, PartialEq, Eq)]
pub enum RunError {
    /// The wallpaper directory could not be opened.
    DirectoryUnreadable { directory: String },
    /// The memory file exists but could not be read.
    MemoryUnreadable { cache_file: String },
    /// The memory file could not be created.
    MemoryCreateFailed { cache_file: String },
    /// The memory file could not be written.
    MemoryWriteFailed { cache_file: String },
    /// The change command could not be started.
    CommandFailed { command: String },
    /// The chosen path has no file name.
    MissingFileName { path: String },
}

impl RunError {
    /// The diagnostic of each failure, which names the path or command at fault.
    pub open spec fn message_spec(self) -> Seq<char> {
        match self {
            RunError::DirectoryUnreadable { directory } => "Failed to open "@ + directory@,
            RunError::MemoryUnreadable { cache_file } => "Failed to read cache file "@
                + cache_file@ + "."@,
            RunError::MemoryCreateFailed { cache_file } => "Failed to create cache file "@
                + cache_file@ + "."@,
            RunError::MemoryWriteFailed { cache_file } => "Failed to update cache in "@
                + cache_file@,
            RunError::CommandFailed { command } => "Failed to execute "@ + command@ + "."@,
            RunError::MissingFileName { path } => "Failed to get file name from "@ + path@
                + "."@,
        }
    }

    /// Builds the diagnostic to print before the run is aborted.
    pub fn message(&self) -> (text: String)
        ensures
            text@ == self.message_spec(),
    {
        match self {
            RunError::DirectoryUnreadable { directory } => {
                String::from_str("Failed to open ").concat(directory.as_str())
            },
            RunError::MemoryUnreadable { cache_file } => {
                String::from_str("Failed to read cache file ").concat(cache_file.as_str()).concat(
                    ".",
                )
            },
            RunError::MemoryCreateFailed { cache_file } => {
                String::from_str("Failed to create cache file ").concat(
                    cache_file.as_str(),
                ).concat(".")
            },
            RunError::MemoryWriteFailed { cache_file } => {
                String::from_str("Failed to update cache in ").concat(cache_file.as_str())
            },
            RunError::CommandFailed { command } => {
                String::from_str("Failed to execute ").concat(command.as_str()).concat(".")
            },
            RunError::MissingFileName { path } => {
                String::from_str("Failed to get file name from ").concat(path.as_str()).concat(
                    ".",
                )
            },
        }
    }
}

} // verus!
