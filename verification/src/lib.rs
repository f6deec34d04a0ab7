//! Installer pipeline for the `centy-daemon` background service.
//!
//! The library holds the decisions of the pipeline: which release artifact
//! fits a platform, how a version request becomes a release tag, where the
//! artifact and its checksum manifest live, how the manifest is read, when
//! a downloaded asset is trusted, which archive member is the executable,
//! where it is installed, and how a running daemon is found, stopped and
//! replaced. Its functions are verified against their contracts; what is
//! taken on trust from the crates that decode archives, JSON and digests
//! is marked where it stands. Network, file system and process control
//! are left to the caller, who hands the library plain values and carries
//! out the actions it asks for.

pub mod daemon;
pub mod download;
pub mod error;
pub mod extract;
pub mod github;
pub mod install;
pub mod pipeline;
pub mod platform;
pub mod text;

pub use error::InstallerError;
pub use extract::extract_binary;
