//! The failures of a pipeline run. Every one of them ends the run.

use vstd::prelude::*;
use crate::text::{join2, join3, join5};

verus! {

/// Why a pipeline run stopped.
pub enum BuildError {
    /// Neither the environment override nor the executable search path gave the tool.
    ToolNotFound { env_var: String, program: String },
    /// The operating system could not start `program`.
    ProcessSpawnFailure { context: String, program: String },
    /// The process ran and reported failure; `log` holds its captured output.
    ProcessExitFailure { context: String, log: Vec<u8> },
    /// Captured output that had to be read as text was not valid UTF-8.
    EncodingFailure { context: String },
    /// The engine's version output could not be parsed.
    VersionUnparsable { output: String },
    /// The engine's major version is not the supported one.
    VersionIncompatible { version: String, major: u64 },
    /// The patch tool reported success but skipped the patch.
    PatchSkipped { patch: String },
    /// A file or directory could not be created, written or read.
    FileIoFailure { path: String },
}

/// What a failure says to the person reading the build log.
pub open spec fn message_of(e: BuildError) -> Seq<char> {
    match e {
        BuildError::ToolNotFound { env_var, program } => "requires '"@ + program@
            + "' executable or a "@ + env_var@
            + " environment variable (with the path to the executable)"@,
        BuildError::ProcessSpawnFailure { context, program } => "failed to execute command: "@
            + context@ + " ('"@ + program@ + "')"@,
        BuildError::ProcessExitFailure { context, log } => "command returned error: "@ + context@,
        BuildError::EncodingFailure { context } => "output is not valid UTF-8: "@ + context@,
        BuildError::VersionUnparsable { output } => "failed to parse engine version '"@ + output@
            + "'"@,
        BuildError::VersionIncompatible { version, major } =>
            "only engine versions with the supported major version are accepted; found version "@
            + version@,
        BuildError::PatchSkipped { patch } => "patch was skipped: "@ + patch@,
        BuildError::FileIoFailure { path } => "failed to access file "@ + path@,
    }
}

impl BuildError {
    /// The failure as one line of text.
    pub fn message(&self) -> (r: String)
        ensures
            r@ == message_of(*self),
    {
        match self {
            BuildError::ToolNotFound { env_var, program } => join5(
                "requires '",
                program.as_str(),
                "' executable or a ",
                env_var.as_str(),
                " environment variable (with the path to the executable)",
            ),
            BuildError::ProcessSpawnFailure { context, program } => join5(
                "failed to execute command: ",
                context.as_str(),
                " ('",
                program.as_str(),
                "')",
            ),
            BuildError::ProcessExitFailure { context, log } => join2("command returned error: ", context.as_str()),
            BuildError::EncodingFailure { context } => join2("output is not valid UTF-8: ", context.as_str()),
            BuildError::VersionUnparsable { output } => join3(
                "failed to parse engine version '",
                output.as_str(),
                "'",
            ),
            BuildError::VersionIncompatible { version, major } => join2("only engine versions with the supported major version are accepted; found version ", version.as_str()),
            BuildError::PatchSkipped { patch } => join2("patch was skipped: ", patch.as_str()),
            BuildError::FileIoFailure { path } => join2("failed to access file ", path.as_str()),
        }
    }
}

} // verus!
