//! Where the executable is installed, and what installing it takes.
//!
//! The executable is written in place, over any earlier one: there is no
//! write to a temporary file and no rename, so a reader of the path may
//! see a file that is not yet whole while an installation runs.

use vstd::prelude::*;
use crate::text::same_text;

verus! {

/// The directory under the home directory that holds the daemon's files.
pub const DATA_DIR: &'static str = ".centy";

/// The directory under `DATA_DIR` that holds the executable.
pub const BIN_DIR: &'static str = "bin";

/// The file under `DATA_DIR` in which a running daemon records its PID.
pub const PID_FILE: &'static str = "daemon.pid";

/// The permission bits of the installed executable on POSIX systems.
pub const EXECUTABLE_MODE: u32 = 0o755;

/// One step of an installation.
#[derive(Clone, Copy, Debug, PartialEq, Eq)]
pub enum InstallStep {
    /// Create `<home>/.centy/bin` and the directories above it.
    CreateDirs,
    /// Write the executable to its path, over any earlier file.
    WriteBinary,
    /// Set the executable's permission bits.
    SetMode(u32),
}

/// The executable's file name on a system.
pub open spec fn binary_name_of(os: Seq<char>) -> Seq<char> {
    if os == "windows"@ {
        "centy-daemon.exe"@
    } else {
        "centy-daemon"@
    }
}

/// The steps of an installation on a system, in order: the permission
/// bits are set everywhere but on Windows.
pub open spec fn install_steps_of(os: Seq<char>) -> Seq<InstallStep> {
    if os == "windows"@ {
        seq![InstallStep::CreateDirs, InstallStep::WriteBinary]
    } else {
        seq![
            InstallStep::CreateDirs,
            InstallStep::WriteBinary,
            InstallStep::SetMode(EXECUTABLE_MODE),
        ]
    }
}

/// The message for a step that failed, on the path that it worked on.
pub open spec fn install_failure_text(step: InstallStep, path: Seq<char>, cause: Seq<char>) -> Seq<
    char,
> {
    match step {
        InstallStep::CreateDirs => "failed to create "@ + path + ": "@ + cause,
        InstallStep::WriteBinary => "failed to write binary to "@ + path + ": "@ + cause,
        InstallStep::SetMode(_) => "failed to set permissions: "@ + cause,
    }
}

/// The executable's file name on the system `os`, named as
/// `std::env::consts::OS` names it.
pub fn binary_name(os: &str) -> (name: &'static str)
    ensures
        name@ == binary_name_of(os@),
{
    if same_text(os, "windows") {
        "centy-daemon.exe"
    } else {
        "centy-daemon"
    }
}

/// The steps that install the executable on the system `os`. The caller
/// takes them in order and stops at the first that fails.
pub fn install_steps(os: &str) -> (steps: Vec<InstallStep>)
    ensures
        steps@ == install_steps_of(os@),
{
    let mut steps: Vec<InstallStep> = Vec::new();
    steps.push(InstallStep::CreateDirs);
    steps.push(InstallStep::WriteBinary);
    if !same_text(os, "windows") {
        steps.push(InstallStep::SetMode(EXECUTABLE_MODE));
    }
    assert(steps@ =~= install_steps_of(os@));
    steps
}

/// Puts the failure of a step in words.
pub fn install_failure(step: InstallStep, path: &str, cause: &str) -> (message: String)
    ensures
        message@ == install_failure_text(step, path@, cause@),
{
    match step {
        InstallStep::CreateDirs => {
            let mut message = String::from_str("failed to create ");
            message.append(path);
            message.append(": ");
            message.append(cause);
            message
        },
        InstallStep::WriteBinary => {
            let mut message = String::from_str("failed to write binary to ");
            message.append(path);
            message.append(": ");
            message.append(cause);
            message
        },
        InstallStep::SetMode(_) => {
            let mut message = String::from_str("failed to set permissions: ");
            message.append(cause);
            message
        },
    }
}

} // verus!
