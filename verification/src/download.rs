//! Decision logic for downloading one remote file: progress accounting while
//! streaming, verification of the written file, and the outcome handed to the
//! batch loop.
//!
//! The application performs the HTTP transfer and the filesystem writes; the
//! functions here decide from the reported outcomes.

use vstd::prelude::*;
use crate::checksum::verify_checksum;
use crate::localfile::{probe_matches, FileProbe};

verus! {

/// Why a single file's download was abandoned with an error.
#[derive(PartialEq, Eq, Structural, Debug, Clone, Copy)]
pub enum DownloadError {
    /// The HTTP request for the file failed.
    Network,
    /// The destination file could not be created.
    CreateFailed,
    /// A chunk could not be written to the destination file.
    WriteFailed,
    /// Buffered bytes could not be flushed to the destination file.
    FlushFailed,
    /// The freshly downloaded file failed verification and could not be
    /// deleted.
    DeleteFailed,
}

/// Advances the running progress count by one received chunk, clamped to the
/// declared file size: the tracked progress never exceeds the declared total,
/// even when the server sends more bytes than announced.
pub fn clamp_progress(bytes_downloaded: u64, chunk_len: usize, filesize: u64) -> (r: u64)
    requires
        bytes_downloaded <= filesize,
    ensures
        r <= filesize,
        r == vstd::math::min(bytes_downloaded as int + chunk_len as int, filesize as int),
{
    let chunk = chunk_len as u64;
    if chunk >= filesize - bytes_downloaded {
        filesize
    } else {
        bytes_downloaded + chunk
    }
}

/// Whether the freshly written file, re-read from disk, matches the declared
/// checksum. A file that cannot be reopened or re-read counts as a mismatch.
pub fn downloaded_file_ok(probe: &FileProbe, checksum: &str) -> (ok: bool)
    ensures
        ok == probe_matches(*probe, checksum@),
{
    match probe {
        FileProbe::Opened(r) => verify_checksum(r, checksum),
        FileProbe::Absent => false,
        FileProbe::OpenFailed => false,
    }
}

/// The result of one file's download once verification has run: a verified
/// file is a success, a mismatched file that was deleted is a recoverable
/// failure, and a mismatched file whose deletion failed is an error.
pub open spec fn download_result_spec(
    p: FileProbe,
    checksum: Seq<char>,
    delete_ok: bool,
) -> Result<bool, DownloadError> {
    if probe_matches(p, checksum) {
        Ok(true)
    } else if delete_ok {
        Ok(false)
    } else {
        Err(DownloadError::DeleteFailed)
    }
}

/// Turns the verification outcome of a freshly downloaded file into the
/// download's result. `success` is the verification outcome; when it is false
/// the application has attempted to delete the file, and `delete_ok` reports
/// whether that attempt succeeded (it is ignored on success).
pub fn download_outcome(success: bool, delete_ok: bool) -> (r: Result<bool, DownloadError>)
    ensures
        r == (if success {
            Ok::<bool, DownloadError>(true)
        } else if delete_ok {
            Ok::<bool, DownloadError>(false)
        } else {
            Err::<bool, DownloadError>(DownloadError::DeleteFailed)
        }),
{
    if success {
        Ok(true)
    } else if delete_ok {
        Ok(false)
    } else {
        Err(DownloadError::DeleteFailed)
    }
}

/// A download that completes with `Ok(true)` left a file on disk whose
/// contents match the declared checksum.
pub proof fn lemma_download_success_matches(p: FileProbe, checksum: Seq<char>, delete_ok: bool)
    requires
        download_result_spec(p, checksum, delete_ok) == Ok::<bool, DownloadError>(true),
    ensures
        probe_matches(p, checksum),
{
}

/// A download whose verification failed never leaves the mismatched file
/// behind silently: either the file was deleted (`Ok(false)`) or the failure
/// to delete is surfaced as an error.
pub proof fn lemma_download_mismatch_never_kept(p: FileProbe, checksum: Seq<char>, delete_ok: bool)
    requires
        !probe_matches(p, checksum),
    ensures
        delete_ok ==> download_result_spec(p, checksum, delete_ok) == Ok::<bool, DownloadError>(
            false,
        ),
        !delete_ok ==> download_result_spec(p, checksum, delete_ok) == Err::<bool, DownloadError>(
            DownloadError::DeleteFailed,
        ),
{
}

} // verus!
