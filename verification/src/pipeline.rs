//! The order of the pipeline's stages and the error of each.
//!
//! The pipeline is linear: platform, version, download, extraction,
//! installation, and, where wanted, the restart of a running daemon. The
//! first stage that fails ends it: no stage is tried again and none is
//! taken up later.

use vstd::prelude::*;
use crate::error::InstallerError;

verus! {

/// A stage of the pipeline.
#[derive(Clone, Copy, Debug, PartialEq, Eq)]
pub enum Stage {
    /// Which release artifact fits the host.
    Platform,
    /// Which release is to be installed.
    Version,
    /// Fetching the asset and checking its digest.
    Download,
    /// Taking the executable out of the archive.
    Extraction,
    /// Writing the executable to its place.
    Installation,
    /// Replacing a running daemon by the installed one.
    Restart,
}

/// The place of a stage in the pipeline, the first being 1.
pub open spec fn position(stage: Stage) -> nat {
    match stage {
        Stage::Platform => 1,
        Stage::Version => 2,
        Stage::Download => 3,
        Stage::Extraction => 4,
        Stage::Installation => 5,
        Stage::Restart => 6,
    }
}

/// The stage that follows `stage` once it has succeeded; `None` where the
/// pipeline ends. The restart follows the installation only if `restart`
/// says so.
pub open spec fn following(stage: Stage, restart: bool) -> Option<Stage> {
    match stage {
        Stage::Platform => Some(Stage::Version),
        Stage::Version => Some(Stage::Download),
        Stage::Download => Some(Stage::Extraction),
        Stage::Extraction => Some(Stage::Installation),
        Stage::Installation => if restart {
            Some(Stage::Restart)
        } else {
            None
        },
        Stage::Restart => None,
    }
}

/// The stage whose failure an error reports.
pub open spec fn stage_of(error: InstallerError) -> Stage {
    match error {
        InstallerError::Platform(_) => Stage::Platform,
        InstallerError::VersionResolution(_) => Stage::Version,
        InstallerError::Download(_) => Stage::Download,
        InstallerError::Extraction(_) => Stage::Extraction,
        InstallerError::Installation(_) => Stage::Installation,
        InstallerError::Restart(_) => Stage::Restart,
    }
}

/// The stage with which the pipeline begins.
pub fn first_stage() -> (stage: Stage)
    ensures
        stage == Stage::Platform,
        position(stage) == 1,
{
    Stage::Platform
}

/// The stage to take up after `stage` has succeeded.
pub fn next_stage(stage: Stage, restart: bool) -> (next: Option<Stage>)
    ensures
        next == following(stage, restart),
{
    match stage {
        Stage::Platform => Some(Stage::Version),
        Stage::Version => Some(Stage::Download),
        Stage::Download => Some(Stage::Extraction),
        Stage::Extraction => Some(Stage::Installation),
        Stage::Installation => if restart {
            Some(Stage::Restart)
        } else {
            None
        },
        Stage::Restart => None,
    }
}

/// The error for a stage that failed: of the stage's kind, with the cause
/// as it was given.
pub fn stage_error(stage: Stage, cause: String) -> (error: InstallerError)
    ensures
        stage_of(error) == stage,
        error.cause() == cause@,
{
    match stage {
        Stage::Platform => InstallerError::Platform(cause),
        Stage::Version => InstallerError::VersionResolution(cause),
        Stage::Download => InstallerError::Download(cause),
        Stage::Extraction => InstallerError::Extraction(cause),
        Stage::Installation => InstallerError::Installation(cause),
        Stage::Restart => InstallerError::Restart(cause),
    }
}

/// The pipeline is linear: each stage is followed by the one at the next
/// place, so no stage comes twice, and it ends after the restart, or
/// after the installation where no restart is wanted.
pub proof fn stages_follow_in_order(stage: Stage, restart: bool)
    ensures
        following(stage, restart) is Some ==> position(following(stage, restart)->Some_0)
            == position(stage) + 1,
        following(stage, restart) is None <==> stage == Stage::Restart || (stage
            == Stage::Installation && !restart),
{
}

} // verus!
