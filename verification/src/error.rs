//! The error of the installation pipeline.

use vstd::prelude::*;

verus! {

/// What stopped the pipeline: one kind for each stage, each with the
/// cause in words.
#[derive(Debug)]
pub enum InstallerError {
    /// The host is not one that releases are built for.
    Platform(String),
    /// No release tag could be determined.
    VersionResolution(String),
    /// The manifest or the asset could not be fetched, or the asset's
    /// digest is not the declared one.
    Download(String),
    /// The archive could not be read, or holds no executable.
    Extraction(String),
    /// The executable could not be written to its place.
    Installation(String),
    /// The running daemon could not be stopped, or the new one not started.
    Restart(String),
}

impl InstallerError {
    /// The words that introduce the cause, by stage.
    pub open spec fn stage(&self) -> Seq<char> {
        match self {
            InstallerError::Platform(_) => "platform detection failed: "@,
            InstallerError::VersionResolution(_) => "version resolution failed: "@,
            InstallerError::Download(_) => "download failed: "@,
            InstallerError::Extraction(_) => "extraction failed: "@,
            InstallerError::Installation(_) => "installation failed: "@,
            InstallerError::Restart(_) => "daemon restart failed: "@,
        }
    }

    /// The cause that the error wraps.
    pub open spec fn cause(&self) -> Seq<char> {
        match self {
            InstallerError::Platform(cause) => cause@,
            InstallerError::VersionResolution(cause) => cause@,
            InstallerError::Download(cause) => cause@,
            InstallerError::Extraction(cause) => cause@,
            InstallerError::Installation(cause) => cause@,
            InstallerError::Restart(cause) => cause@,
        }
    }

    /// The message shown to the user: the stage, then the cause.
    pub fn to_string(&self) -> (message: String)
        ensures
            message@ == self.stage() + self.cause(),
    {
        match self {
            InstallerError::Platform(cause) => {
                let mut message = String::from_str("platform detection failed: ");
                message.append(cause.as_str());
                message
            },
            InstallerError::VersionResolution(cause) => {
                let mut message = String::from_str("version resolution failed: ");
                message.append(cause.as_str());
                message
            },
            InstallerError::Download(cause) => {
                let mut message = String::from_str("download failed: ");
                message.append(cause.as_str());
                message
            },
            InstallerError::Extraction(cause) => {
                let mut message = String::from_str("extraction failed: ");
                message.append(cause.as_str());
                message
            },
            InstallerError::Installation(cause) => {
                let mut message = String::from_str("installation failed: ");
                message.append(cause.as_str());
                message
            },
            InstallerError::Restart(cause) => {
                let mut message = String::from_str("daemon restart failed: ");
                message.append(cause.as_str());
                message
            },
        }
    }
}

} // verus!
