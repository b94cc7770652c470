//! The failure taxonomy of an install, and the stage context every
//! propagated failure is wrapped with.
use vstd::prelude::*;

verus! {

/// Why a single stage of an install failed.
#[derive(Debug, Clone, Copy, PartialEq, Eq, Structural)]
pub enum InstallError {
    /// A network request could not be made or completed.
    NetworkError,
    /// The server answered with an unexpected status code.
    ServerError(u16),
    /// The server answered 404 for the package's metadata.
    PackageNotFound,
    /// The server's response body could not be decoded.
    ResponseParseError,
    /// The checksum derived from the downloaded bytes differs from the
    /// descriptor's declared checksum.
    ChecksumMismatch,
    /// An archive entry's path would resolve outside the target directory.
    MaliciousArchive,
    /// The descriptor promised an install script, but the archive has none.
    MissingInstallScript,
    /// The install script exited with this non-zero code.
    InstallScriptFailed(i32),
    /// The descriptor asks for a path link but names no executable.
    MissingExecutablePath,
    /// The symlink into the bin directory could not be created.
    LinkCreationFailed,
    /// The registry file's content is not a well-formed package list.
    RegistryCorrupt,
    /// A filesystem operation failed.
    FilesystemError,
}

/// The stages of an install, in the order they run.
#[derive(Debug, Clone, Copy, PartialEq, Eq, Structural)]
pub enum Stage {
    FetchMetadata,
    CreateDirectories,
    DownloadAndVerify,
    RunInstaller,
    LinkExecutable,
    UpdateRegistry,
}

/// A stage failure: the cause, wrapped with the stage it halted.
#[derive(Debug, Clone, Copy, PartialEq, Eq, Structural)]
pub struct StageError {
    pub stage: Stage,
    pub cause: InstallError,
}

impl StageError {
    /// Wraps a cause with its stage.
    pub fn at(stage: Stage, cause: InstallError) -> (r: StageError)
        ensures
            r == (StageError { stage, cause }),
    {
        StageError { stage, cause }
    }
}

} // verus!
