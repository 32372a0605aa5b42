use zenodo_dl_core::batch::{
    batch_init, batch_should_attempt, batch_step, download_files, EntryResult,
};
use zenodo_dl_core::checksum::FileRead;
use zenodo_dl_core::download::{
    clamp_progress, download_outcome, downloaded_file_ok, DownloadError,
};
use zenodo_dl_core::localfile::{
    check_existing_file, skip_after_delete_attempt, ExistingVerdict, FileProbe,
};

const HELLO_MD5: &str = "5d41402abc4b2a76b9719d911017c592";

#[test]
fn absent_file_is_downloaded() {
    let v = check_existing_file(&FileProbe::Absent, HELLO_MD5);
    assert_eq!(v, ExistingVerdict::Download);
}

#[test]
fn unopenable_file_is_downloaded() {
    let v = check_existing_file(&FileProbe::OpenFailed, HELLO_MD5);
    assert_eq!(v, ExistingVerdict::Download);
}

#[test]
fn matching_file_is_skipped() {
    let probe = FileProbe::Opened(FileRead::Content(b"hello".to_vec()));
    let v = check_existing_file(&probe, HELLO_MD5);
    assert_eq!(v, ExistingVerdict::Skip);
}

#[test]
fn mismatching_file_is_deleted_then_retried() {
    let probe = FileProbe::Opened(FileRead::Content(b"world".to_vec()));
    let v = check_existing_file(&probe, HELLO_MD5);
    assert_eq!(v, ExistingVerdict::DeleteThenRetry);
}

#[test]
fn unreadable_file_is_deleted_then_retried() {
    let probe = FileProbe::Opened(FileRead::Failed);
    let v = check_existing_file(&probe, HELLO_MD5);
    assert_eq!(v, ExistingVerdict::DeleteThenRetry);
}

#[test]
fn deletable_mismatch_is_redownloaded_undeletable_is_skipped() {
    assert!(!skip_after_delete_attempt(true));
    assert!(skip_after_delete_attempt(false));
}

#[test]
fn progress_is_clamped_to_the_declared_size() {
    assert_eq!(clamp_progress(0, 3, 5), 3);
    assert_eq!(clamp_progress(3, 2, 5), 5);
    assert_eq!(clamp_progress(3, 100, 5), 5);
    assert_eq!(clamp_progress(5, 1, 5), 5);
    assert_eq!(clamp_progress(0, 0, 0), 0);
}

#[test]
fn downloaded_file_verifies_against_declared_checksum() {
    let good = FileProbe::Opened(FileRead::Content(b"hello".to_vec()));
    assert!(downloaded_file_ok(&good, HELLO_MD5));
    let bad = FileProbe::Opened(FileRead::Content(b"world".to_vec()));
    assert!(!downloaded_file_ok(&bad, HELLO_MD5));
    assert!(!downloaded_file_ok(&FileProbe::OpenFailed, HELLO_MD5));
    assert!(!downloaded_file_ok(&FileProbe::Absent, HELLO_MD5));
}

#[test]
fn download_outcome_maps_verification_and_deletion() {
    assert_eq!(download_outcome(true, true), Ok(true));
    assert_eq!(download_outcome(true, false), Ok(true));
    assert_eq!(download_outcome(false, true), Ok(false));
    assert_eq!(download_outcome(false, false), Err(DownloadError::DeleteFailed));
}

#[test]
fn batch_without_failures_reports_no_error() {
    let results = vec![
        EntryResult::Skipped,
        EntryResult::Downloaded,
        EntryResult::Skipped,
    ];
    assert!(!download_files(&results, false));
    assert!(!download_files(&results, true));
}

#[test]
fn empty_batch_reports_no_error() {
    assert!(!download_files(&Vec::new(), true));
}

#[test]
fn batch_with_a_failure_reports_an_error() {
    let results = vec![
        EntryResult::Downloaded,
        EntryResult::Failed,
        EntryResult::Downloaded,
    ];
    assert!(download_files(&results, false));
    assert!(download_files(&results, true));
}

#[test]
fn batch_state_stops_attempting_after_a_failure() {
    let mut st = batch_init();
    assert!(batch_should_attempt(&st));
    batch_step(&mut st, false, EntryResult::Downloaded);
    assert!(batch_should_attempt(&st));
    batch_step(&mut st, false, EntryResult::Failed);
    // Once an entry failed, no further entry is attempted, abort flag or not.
    assert!(!batch_should_attempt(&st));
    assert!(st.error_encountered);
    assert!(!st.halted);
}

#[test]
fn abort_on_error_halts_the_batch_outright() {
    let mut st = batch_init();
    batch_step(&mut st, true, EntryResult::Failed);
    assert!(st.error_encountered);
    assert!(st.halted);
    assert!(!batch_should_attempt(&st));
}
