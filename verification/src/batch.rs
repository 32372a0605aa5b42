//! The batch orchestrator: walks the manifest entries in order, one at a
//! time, and applies the abort-on-error policy.
//!
//! The application performs each entry's probing and downloading and reports
//! the outcome as an [`EntryResult`]; the state machine here decides whether
//! the next entry is attempted and what the run reports. Once any entry has
//! failed, no further entry is attempted, whichever value `abort_on_error`
//! has: the flag only decides whether the loop halts outright or keeps
//! checking a flag, which is not observable from outside.

use vstd::prelude::*;
use crate::localfile::{existing_verdict_spec, probe_matches, FileProbe};

verus! {

/// Normalized outcome of handling one manifest entry.
#[derive(PartialEq, Eq, Structural, Debug, Clone, Copy)]
pub enum EntryResult {
    /// The existing-file check said the entry needs no download.
    Skipped,
    /// The entry was downloaded and verified.
    Downloaded,
    /// The download failed, either with an error or with a checksum mismatch.
    Failed,
}

/// Whether one entry's outcome counts as a failure.
pub open spec fn entry_failed(r: EntryResult) -> bool {
    r is Failed
}

/// Whether a run over entries with these outcomes reports an error: true
/// exactly when the run reaches a failing entry.
pub open spec fn run_error(results: Seq<EntryResult>) -> bool
    decreases results.len(),
{
    if results.len() == 0 {
        false
    } else if entry_failed(results[0]) {
        true
    } else {
        run_error(results.drop_first())
    }
}

/// How many entries a run over these outcomes attempts: every entry up to and
/// including the first failure, and all of them when none fails.
pub open spec fn attempted_count(results: Seq<EntryResult>) -> int
    decreases results.len(),
{
    if results.len() == 0 {
        0
    } else if entry_failed(results[0]) {
        1
    } else {
        1 + attempted_count(results.drop_first())
    }
}

/// The whole record run's report: when the manifest was unavailable the batch
/// is never entered and no error is reported.
pub open spec fn record_run_error(data_available: bool, results: Seq<EntryResult>) -> bool {
    if data_available {
        run_error(results)
    } else {
        false
    }
}

/// How many entries the whole record run attempts: none when the manifest was
/// unavailable.
pub open spec fn record_attempted_count(data_available: bool, results: Seq<EntryResult>) -> int {
    if data_available {
        attempted_count(results)
    } else {
        0
    }
}

/// A run reports an error exactly when some entry's outcome is a failure.
pub proof fn lemma_run_error_iff_some_failure(results: Seq<EntryResult>)
    ensures
        run_error(results) <==> exists|i: int|
            0 <= i < results.len() && entry_failed(results[i]),
    decreases results.len(),
{
    if results.len() > 0 {
        lemma_run_error_iff_some_failure(results.drop_first());
        if !entry_failed(results[0]) {
            if run_error(results) {
                let j = choose|j: int|
                    0 <= j < results.drop_first().len() && entry_failed(results.drop_first()[j]);
                assert(entry_failed(results[j + 1]));
            }
            if exists|i: int| 0 <= i < results.len() && entry_failed(results[i]) {
                let i = choose|i: int| 0 <= i < results.len() && entry_failed(results[i]);
                assert(entry_failed(results.drop_first()[i - 1]));
            }
        }
    }
}

/// A run attempts between zero and all of its entries.
pub proof fn lemma_attempted_count_bounds(results: Seq<EntryResult>)
    ensures
        0 <= attempted_count(results) <= results.len(),
    decreases results.len(),
{
    if results.len() > 0 && !entry_failed(results[0]) {
        lemma_attempted_count_bounds(results.drop_first());
    }
}

/// Appending one outcome to a run: the longer run errs exactly when the
/// shorter one did or the new outcome is a failure.
pub proof fn lemma_run_error_push(results: Seq<EntryResult>, r: EntryResult)
    ensures
        run_error(results.push(r)) == (run_error(results) || entry_failed(r)),
    decreases results.len(),
{
    if results.len() == 0 {
        assert(results.push(r)[0] == r);
        assert(results.push(r).drop_first() =~= Seq::<EntryResult>::empty());
        assert(run_error(Seq::<EntryResult>::empty()) == false);
    } else {
        assert(results.push(r)[0] == results[0]);
        assert(results.push(r).drop_first() =~= results.drop_first().push(r));
        lemma_run_error_push(results.drop_first(), r);
        assert(run_error(results.push(r)) == (entry_failed(results[0]) || run_error(
            results.drop_first().push(r),
        )));
    }
}

/// When the entry at position `n` fails and all entries before it succeed or
/// are skipped, the run reports an error and exactly the entries up to and
/// including `n` are attempted: every entry at a position past `n` lies
/// beyond the attempted count and is left untouched.
pub proof fn lemma_failure_halts_batch(results: Seq<EntryResult>, n: int)
    requires
        0 <= n < results.len(),
        entry_failed(results[n]),
        forall|j: int| 0 <= j < n ==> !entry_failed(results[j]),
    ensures
        run_error(results),
        attempted_count(results) == n + 1,
    decreases n,
{
    if n == 0 {
    } else {
        assert(forall|j: int|
            0 <= j < n - 1 ==> results.drop_first()[j] == results[j + 1]
                && !entry_failed(results[j + 1]));
        assert(results.drop_first()[n - 1] == results[n]);
        lemma_failure_halts_batch(results.drop_first(), n - 1);
    }
}

/// A run whose entries are all skipped or all successfully downloaded
/// attempts every entry and reports no error.
pub proof fn lemma_clean_run_no_error(results: Seq<EntryResult>)
    requires
        forall|i: int| 0 <= i < results.len() ==> !entry_failed(results[i]),
    ensures
        !run_error(results),
        attempted_count(results) == results.len(),
    decreases results.len(),
{
    if results.len() > 0 {
        assert(forall|j: int|
            0 <= j < results.drop_first().len() ==> results.drop_first()[j] == results[j + 1]);
        lemma_clean_run_no_error(results.drop_first());
    }
}

/// An unavailable manifest produces no download attempts and no error,
/// whatever outcomes the entries would have had.
pub proof fn lemma_unavailable_record_untouched(results: Seq<EntryResult>)
    ensures
        !record_run_error(false, results),
        record_attempted_count(false, results) == 0,
{
}

/// Running the batch again over files left by a run with no failures: every
/// file on disk matches its declared checksum, so every entry is skipped, no
/// file is downloaded again, and the second run reports no error.
pub proof fn lemma_second_run_all_skipped(probes: Seq<FileProbe>, checksums: Seq<Seq<char>>)
    requires
        probes.len() == checksums.len(),
        forall|i: int| 0 <= i < probes.len() ==> probe_matches(probes[i], checksums[i]),
    ensures
        forall|i: int|
            0 <= i < probes.len() ==> existing_verdict_spec(probes[i], checksums[i])
                is Skip,
        !run_error(Seq::new(probes.len(), |i: int| EntryResult::Skipped)),
        attempted_count(Seq::new(probes.len(), |i: int| EntryResult::Skipped))
            == probes.len(),
{
    let results = Seq::new(probes.len(), |i: int| EntryResult::Skipped);
    lemma_clean_run_no_error(results);
}

/// The orchestrator's running state: whether an error has been recorded and
/// whether the loop has been halted outright by the abort-on-error policy.
#[derive(PartialEq, Eq, Structural, Debug, Clone, Copy)]
pub struct BatchState {
    /// Whether any entry handled so far failed.
    pub error_encountered: bool,
    /// Whether the abort-on-error policy stopped the loop.
    pub halted: bool,
}

/// The state the batch loop starts in.
pub fn batch_init() -> (st: BatchState)
    ensures
        !st.error_encountered,
        !st.halted,
{
    BatchState { error_encountered: false, halted: false }
}

/// Whether the next entry is attempted at all: not once an error was recorded
/// or the loop was halted.
pub fn batch_should_attempt(st: &BatchState) -> (b: bool)
    ensures
        b == (!st.error_encountered && !st.halted),
{
    !st.error_encountered && !st.halted
}

/// Advances the batch state by one attempted entry's outcome.
pub fn batch_step(st: &mut BatchState, abort_on_error: bool, result: EntryResult)
    requires
        !old(st).error_encountered,
        !old(st).halted,
    ensures
        final(st).error_encountered == entry_failed(result),
        final(st).halted == (abort_on_error && entry_failed(result)),
{
    match result {
        EntryResult::Failed => {
            st.error_encountered = true;
            if abort_on_error {
                st.halted = true;
            }
        },
        EntryResult::Skipped => {},
        EntryResult::Downloaded => {},
    }
}

/// Runs the batch loop over the recorded outcome of each entry, in manifest
/// order, and reports whether an error was encountered. Entries after the
/// first failure are never attempted; `abort_on_error` does not change the
/// report.
pub fn download_files(results: &Vec<EntryResult>, abort_on_error: bool) -> (err: bool)
    ensures
        err == run_error(results@),
{
    let mut st = batch_init();
    let n = results.len();
    let mut i: usize = 0;
    proof {
        assert(results@.take(0) =~= Seq::<EntryResult>::empty());
    }
    while i < n
        invariant
            i <= n,
            n == results@.len(),
            st.error_encountered == run_error(results@.take(i as int)),
            st.halted ==> st.error_encountered,
        decreases n - i,
    {
        if batch_should_attempt(&st) {
            batch_step(&mut st, abort_on_error, results[i]);
        }
        proof {
            assert(results@.take(i + 1) =~= results@.take(i as int).push(results@[i as int]));
            lemma_run_error_push(results@.take(i as int), results@[i as int]);
        }
        i = i + 1;
    }
    proof {
        assert(results@.take(n as int) =~= results@);
    }
    st.error_encountered
}

} // verus!
