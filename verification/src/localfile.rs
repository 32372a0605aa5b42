//! Decision logic for a file already present at a download target path:
//! trust and skip it, or delete it and download again.
//!
//! The surrounding application probes the path (exists, open, read) and
//! reports the outcome as a [`FileProbe`]; the verdict tells it what to do.

use vstd::prelude::*;
use crate::checksum::{read_matches, verify_checksum, FileRead};

verus! {

/// What probing a target path for a previously downloaded file revealed.
pub enum FileProbe {
    /// The path does not exist, or exists but is not a regular file.
    Absent,
    /// The path is a regular file, but opening it failed.
    OpenFailed,
    /// The file was opened; reading it gave this outcome.
    Opened(FileRead),
}

/// What to do about the file found (or not found) at the target path.
#[derive(PartialEq, Eq, Structural, Debug, Clone, Copy)]
pub enum ExistingVerdict {
    /// Nothing trustworthy is present: download the file.
    Download,
    /// The present file matches its declared checksum: skip the download.
    Skip,
    /// The present file does not match: attempt to delete it, then decide by
    /// [`skip_after_delete_attempt`].
    DeleteThenRetry,
}

/// Whether the probe found a readable file whose contents match the declared
/// checksum.
pub open spec fn probe_matches(p: FileProbe, checksum: Seq<char>) -> bool {
    p matches FileProbe::Opened(r) && read_matches(r, checksum)
}

/// The verdict on a probed path: absent or unopenable files are downloaded
/// afresh, matching files are skipped, mismatching files are deleted first.
pub open spec fn existing_verdict_spec(p: FileProbe, checksum: Seq<char>) -> ExistingVerdict {
    match p {
        FileProbe::Absent => ExistingVerdict::Download,
        FileProbe::OpenFailed => ExistingVerdict::Download,
        FileProbe::Opened(r) => if read_matches(r, checksum) {
            ExistingVerdict::Skip
        } else {
            ExistingVerdict::DeleteThenRetry
        },
    }
}

/// The complete skip decision, `delete_ok` standing for whether deleting a
/// mismatched file succeeded: a matching file is skipped, a mismatched file is
/// downloaded again only once its deletion succeeded, and a mismatched file
/// that could not be deleted is skipped (it is never overwritten).
pub open spec fn should_skip_spec(p: FileProbe, checksum: Seq<char>, delete_ok: bool) -> bool {
    match existing_verdict_spec(p, checksum) {
        ExistingVerdict::Download => false,
        ExistingVerdict::Skip => true,
        ExistingVerdict::DeleteThenRetry => !delete_ok,
    }
}

/// Decides what to do about a previously downloaded file, from the probe of
/// its path and its declared checksum.
pub fn check_existing_file(probe: &FileProbe, checksum: &str) -> (v: ExistingVerdict)
    ensures
        v == existing_verdict_spec(*probe, checksum@),
{
    match probe {
        FileProbe::Absent => ExistingVerdict::Download,
        FileProbe::OpenFailed => ExistingVerdict::Download,
        FileProbe::Opened(r) => {
            if verify_checksum(r, checksum) {
                ExistingVerdict::Skip
            } else {
                ExistingVerdict::DeleteThenRetry
            }
        },
    }
}

/// Decides the skip once a mismatched file's deletion has been tried:
/// `delete_ok` reports whether the deletion succeeded, and the file is
/// skipped exactly when it did not.
pub fn skip_after_delete_attempt(delete_ok: bool) -> (skip: bool)
    ensures
        skip == !delete_ok,
{
    !delete_ok
}

/// A file whose contents already match its declared checksum is always
/// skipped, never deleted or downloaded again.
pub proof fn lemma_matching_file_skipped(p: FileProbe, checksum: Seq<char>, delete_ok: bool)
    requires
        probe_matches(p, checksum),
    ensures
        existing_verdict_spec(p, checksum) is Skip,
        should_skip_spec(p, checksum, delete_ok),
{
}

/// A pre-existing file with a wrong checksum is downloaded again exactly when
/// it could be deleted; when it could not, it is left in place and skipped.
pub proof fn lemma_mismatched_file_policy(p: FileProbe, checksum: Seq<char>, delete_ok: bool)
    requires
        p is Opened,
        !probe_matches(p, checksum),
    ensures
        existing_verdict_spec(p, checksum) is DeleteThenRetry,
        should_skip_spec(p, checksum, delete_ok) == !delete_ok,
{
}

} // verus!
