use centy_installer::pipeline::{first_stage, next_stage, stage_error, Stage};
use centy_installer::InstallerError;

fn stages(restart: bool) -> Vec<Stage> {
    let mut seen = vec![first_stage()];
    while let Some(next) = next_stage(*seen.last().unwrap(), restart) {
        seen.push(next);
        assert!(seen.len() <= 6);
    }
    seen
}

#[test]
fn stages_with_restart() {
    assert_eq!(
        stages(true),
        vec![
            Stage::Platform,
            Stage::Version,
            Stage::Download,
            Stage::Extraction,
            Stage::Installation,
            Stage::Restart,
        ]
    );
}

#[test]
fn stages_without_restart() {
    assert_eq!(
        stages(false),
        vec![
            Stage::Platform,
            Stage::Version,
            Stage::Download,
            Stage::Extraction,
            Stage::Installation,
        ]
    );
    assert_eq!(next_stage(Stage::Restart, false), None);
}

#[test]
fn stage_errors_keep_kind_and_cause() {
    assert!(matches!(
        stage_error(Stage::Platform, "a".to_string()),
        InstallerError::Platform(cause) if cause == "a"
    ));
    assert!(matches!(
        stage_error(Stage::Version, "b".to_string()),
        InstallerError::VersionResolution(cause) if cause == "b"
    ));
    assert!(matches!(
        stage_error(Stage::Download, "c".to_string()),
        InstallerError::Download(cause) if cause == "c"
    ));
    assert!(matches!(
        stage_error(Stage::Extraction, "d".to_string()),
        InstallerError::Extraction(cause) if cause == "d"
    ));
    assert!(matches!(
        stage_error(Stage::Installation, "e".to_string()),
        InstallerError::Installation(cause) if cause == "e"
    ));
    assert!(matches!(
        stage_error(Stage::Restart, "f".to_string()),
        InstallerError::Restart(cause) if cause == "f"
    ));
    assert_eq!(
        stage_error(Stage::Download, "checksum mismatch".to_string()).to_string(),
        "download failed: checksum mismatch"
    );
}
