//! Builds the command line that starts the Volo language server for a worktree.

mod launch;

pub use launch::{binder_schema_glob, language_server_command, server_binary_path, LaunchCommand};
