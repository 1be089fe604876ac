//! The failures that registry and build operations report.

use vstd::prelude::*;
use crate::text::{concat_text, push_str};

verus! {

/// Every failure of a registry or build operation, as a typed value.
#[derive(Clone, Debug)]
pub enum RegistryError {
    /// No actor directory of that name.
    NotFound { name: String },
    /// An actor directory of that name is already there.
    AlreadyExists { name: String },
    /// A template name outside the known set.
    UnknownTemplate { name: String },
    /// A manifest, package descriptor or configuration file that could not be read as one.
    ConfigurationError { file: String, diagnostic: String },
    /// The build tool could not be started.
    ToolInvocationError { message: String },
    /// The build tool exited with a failure status.
    BuildFailedError { exit_status: String, excerpt: Option<String> },
    /// The build tool printed no output path.
    OutputResolutionError,
    /// The artifact is not where the build tool's output path says it is.
    ArtifactNotFoundError { path: String },
    /// A build of the same actor is already running.
    BuildInProgress { name: String },
    /// Any other failure to read or write a file.
    FileAccessError { message: String },
    /// A path with no final component to name an actor by.
    InvalidPath { path: String },
    /// A registry root that is not a directory.
    NotADirectory { path: String },
}

/// The text that describes an error.
pub open spec fn message_of(e: RegistryError) -> Seq<char> {
    match e {
        RegistryError::NotFound { name } => "Actor '"@ + name@ + "' not found in registry"@,
        RegistryError::AlreadyExists { name } => "Actor '"@ + name@ + "' already exists"@,
        RegistryError::UnknownTemplate { name } => "Unknown template: "@ + name@,
        RegistryError::ConfigurationError { file, diagnostic } => "Failed to parse "@ + file@ + ": "@
            + diagnostic@,
        RegistryError::ToolInvocationError { message } => "Failed to execute nix build command: "@
            + message@,
        RegistryError::BuildFailedError { exit_status, excerpt } => "Nix build failed with status: "@
            + exit_status@ + match excerpt {
            Some(x) => " ("@ + x@ + ")"@,
            None => Seq::empty(),
        },
        RegistryError::OutputResolutionError => "Failed to determine nix store path"@,
        RegistryError::ArtifactNotFoundError { path } => "Built WASM file not found at expected path: "@
            + path@,
        RegistryError::BuildInProgress { name } => "A build of actor '"@ + name@
            + "' is already running"@,
        RegistryError::FileAccessError { message } => "File access failed: "@ + message@,
        RegistryError::InvalidPath { path } => "Invalid actor path: "@ + path@,
        RegistryError::NotADirectory { path } => "Registry path is not a directory: "@ + path@,
    }
}

impl RegistryError {
    /// A one-line description of the error.
    pub fn message(&self) -> (r: String)
        ensures
            r@ == message_of(*self),
    {
        match self {
            RegistryError::NotFound { name } => {
                let mut s = concat_text("Actor '", name.as_str());
                push_str(&mut s, "' not found in registry");
                s
            },
            RegistryError::AlreadyExists { name } => {
                let mut s = concat_text("Actor '", name.as_str());
                push_str(&mut s, "' already exists");
                s
            },
            RegistryError::UnknownTemplate { name } => concat_text("Unknown template: ", name.as_str()),
            RegistryError::ConfigurationError { file, diagnostic } => {
                let mut s = concat_text("Failed to parse ", file.as_str());
                push_str(&mut s, ": ");
                push_str(&mut s, diagnostic.as_str());
                s
            },
            RegistryError::ToolInvocationError { message } => concat_text(
                "Failed to execute nix build command: ",
                message.as_str(),
            ),
            RegistryError::BuildFailedError { exit_status, excerpt } => {
                let mut s = concat_text("Nix build failed with status: ", exit_status.as_str());
                match excerpt {
                    Some(x) => {
                        push_str(&mut s, " (");
                        push_str(&mut s, x.as_str());
                        push_str(&mut s, ")");
                    },
                    None => {
                        assert(s@ + Seq::<char>::empty() =~= s@);
                    },
                }
                s
            },
            RegistryError::OutputResolutionError => String::from_str(
                "Failed to determine nix store path",
            ),
            RegistryError::ArtifactNotFoundError { path } => concat_text(
                "Built WASM file not found at expected path: ",
                path.as_str(),
            ),
            RegistryError::BuildInProgress { name } => {
                let mut s = concat_text("A build of actor '", name.as_str());
                push_str(&mut s, "' is already running");
                s
            },
            RegistryError::FileAccessError { message } => concat_text(
                "File access failed: ",
                message.as_str(),
            ),
            RegistryError::InvalidPath { path } => concat_text("Invalid actor path: ", path.as_str()),
            RegistryError::NotADirectory { path } => concat_text(
                "Registry path is not a directory: ",
                path.as_str(),
            ),
        }
    }
}

} // verus!
