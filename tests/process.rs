use hydra_installer::error::InstallError;
use hydra_installer::process::{
    contains_text, installer_outcome, termination_outcome, NO_SUCH_PROCESS_CODE,
};

#[test]
fn terminate_success() {
    assert!(termination_outcome(true, Some(0), "").is_ok());
}

#[test]
fn terminate_not_running_is_success() {
    assert_eq!(NO_SUCH_PROCESS_CODE, 128);
    assert!(termination_outcome(false, Some(128), "").is_ok());
    assert!(termination_outcome(
        false,
        Some(1),
        "ERROR: The process \"Hydra.exe\" not found."
    )
    .is_ok());
    assert!(termination_outcome(false, None, "the process is not running").is_ok());
}

#[test]
fn terminate_other_failure_is_an_error() {
    match termination_outcome(false, Some(1), "ERROR: Access is denied.") {
        Err(InstallError::ProcessFailure { code, detail }) => {
            assert_eq!(code, Some(1));
            assert_eq!(detail, "ERROR: Access is denied.");
        }
        other => panic!("unexpected {:?}", other),
    }
}

#[test]
fn terminate_words_must_be_whole() {
    assert!(termination_outcome(false, Some(1), "not foun").is_err());
    assert!(termination_outcome(false, Some(1), "NOT FOUND").is_err());
}

#[test]
fn installer_exit_codes() {
    assert!(installer_outcome(true, Some(0)).is_ok());
    match installer_outcome(false, Some(2)) {
        Err(InstallError::ProcessFailure { code, detail }) => {
            assert_eq!(code, Some(2));
            assert!(detail.is_empty());
        }
        other => panic!("unexpected {:?}", other),
    }
    assert!(matches!(
        installer_outcome(false, None),
        Err(InstallError::ProcessFailure { code: None, .. })
    ));
}

#[test]
fn substring_search() {
    assert!(contains_text("abc not found.", "not found"));
    assert!(contains_text("not found", "not found"));
    assert!(contains_text("x", ""));
    assert!(!contains_text("not fou", "not found"));
    assert!(!contains_text("", "a"));
    assert!(contains_text("ééa", "éa"));
}
