//! End-to-end scenarios over the verified core, with the environment's
//! answers (probes, downloaded bytes, deletions) played in by hand the way
//! the application reports them.

use zenodo_dl_core::batch::{download_files, EntryResult};
use zenodo_dl_core::checksum::FileRead;
use zenodo_dl_core::download::{download_outcome, downloaded_file_ok};
use zenodo_dl_core::localfile::{check_existing_file, ExistingVerdict, FileProbe};
use zenodo_dl_core::manifest::{create_file_list, DataEntry, Links, ZenodoMetaData};

fn one_file_meta() -> ZenodoMetaData {
    ZenodoMetaData {
        enabled: true,
        entries: Some(vec![DataEntry {
            checksum: "md5:5d41402abc4b2a76b9719d911017c592".to_owned(),
            key: "a.txt".to_owned(),
            links: Links { content: "http://x/a".to_owned() },
            size: 5,
        }]),
    }
}

/// Plays one entry through the per-file protocol: probe the path, maybe
/// download, verify what was written, and normalize the outcome.
fn handle_entry(
    existing: FileProbe,
    remote_content: &[u8],
    checksum: &str,
    delete_ok: bool,
) -> (EntryResult, Option<Vec<u8>>) {
    match check_existing_file(&existing, checksum) {
        ExistingVerdict::Skip => (EntryResult::Skipped, None),
        ExistingVerdict::Download | ExistingVerdict::DeleteThenRetry => {
            // The application would delete a mismatched file here; a failed
            // deletion turns into a skip, which these scenarios do not take.
            let written = remote_content.to_vec();
            let reread = FileProbe::Opened(FileRead::Content(written.clone()));
            let ok = downloaded_file_ok(&reread, checksum);
            match download_outcome(ok, delete_ok) {
                Ok(true) => (EntryResult::Downloaded, Some(written)),
                Ok(false) => (EntryResult::Failed, None),
                Err(_) => (EntryResult::Failed, None),
            }
        },
    }
}

#[test]
fn single_file_with_matching_remote_content_succeeds() {
    let list = create_file_list(&one_file_meta());
    assert!(list.data_available);
    assert_eq!(list.file_list[0].filename, "a.txt");
    assert_eq!(list.file_list[0].checksum, "5d41402abc4b2a76b9719d911017c592");
    assert_eq!(list.file_list[0].size, 5);

    let (result, on_disk) = handle_entry(
        FileProbe::Absent,
        b"hello",
        &list.file_list[0].checksum,
        true,
    );
    assert_eq!(result, EntryResult::Downloaded);
    assert_eq!(on_disk, Some(b"hello".to_vec()));

    let results = vec![result];
    assert!(!download_files(&results, false));
}

#[test]
fn single_file_with_mismatching_remote_content_fails_and_is_deleted() {
    let list = create_file_list(&one_file_meta());
    assert!(list.data_available);

    let (result, on_disk) = handle_entry(
        FileProbe::Absent,
        b"world",
        &list.file_list[0].checksum,
        true,
    );
    assert_eq!(result, EntryResult::Failed);
    // The mismatched file was deleted: nothing remains on disk.
    assert_eq!(on_disk, None);

    let results = vec![result];
    assert!(download_files(&results, false));
}

#[test]
fn unavailable_manifest_downloads_nothing_and_reports_no_error() {
    let meta = ZenodoMetaData { enabled: false, entries: None };
    let list = create_file_list(&meta);
    assert!(!list.data_available);
    // The download phase is never entered, so the run reports no error.
    let error_encountered = if list.data_available {
        download_files(&Vec::new(), false)
    } else {
        false
    };
    assert!(!error_encountered);
}

#[test]
fn second_run_over_verified_files_skips_everything() {
    let list = create_file_list(&one_file_meta());
    let checksum = &list.file_list[0].checksum;

    // First run: the file is downloaded and verified.
    let (first, on_disk) = handle_entry(FileProbe::Absent, b"hello", checksum, true);
    assert_eq!(first, EntryResult::Downloaded);

    // Second run: the file left on disk matches, so the entry is skipped.
    let probe = FileProbe::Opened(FileRead::Content(on_disk.unwrap()));
    let (second, _) = handle_entry(probe, b"hello", checksum, true);
    assert_eq!(second, EntryResult::Skipped);
    assert!(!download_files(&vec![second], false));
}
