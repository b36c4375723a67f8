//! How the outcomes of a batch add up.

use crate::outcome::{BackupFailure, BackupOutcome, BackupSuccess};
use crate::timestamp::Provenance;
use vstd::prelude::*;
use vstd::std_specs::iter::IteratorSpec;

verus! {

/// The kinds of outcome that a batch counts.
#[derive(Clone, Copy, Debug, PartialEq, Eq, Structural)]
pub enum OutcomeClass {
    /// The archive already held the picture.
    Duplicate,
    /// The picture was copied, under a capture time from this source.
    Copied(Provenance),
    /// The picture could not be archived.
    Failed,
}

/// The kind of an outcome.
pub open spec fn class_of(outcome: BackupOutcome) -> OutcomeClass {
    match outcome {
        Ok(BackupSuccess::AlreadyArchived(_)) => OutcomeClass::Duplicate,
        Ok(BackupSuccess::Copied(_, provenance)) => OutcomeClass::Copied(provenance),
        Err(_) => OutcomeClass::Failed,
    }
}

/// How many of `outcomes` are of kind `class`.
pub open spec fn count(outcomes: Seq<BackupOutcome>, class: OutcomeClass) -> nat {
    outcomes.filter(|outcome: BackupOutcome| class_of(outcome) == class).len()
}

/// The failures among `outcomes`, in their order.
pub open spec fn failures_of(outcomes: Seq<BackupOutcome>) -> Seq<BackupFailure> {
    outcomes.filter_map(
        |outcome: BackupOutcome|
            match outcome {
                Ok(_) => None,
                Err(failure) => Some(failure),
            },
    )
}

/// The counts of a batch.
#[derive(Clone, Copy, Debug, PartialEq, Eq, Structural)]
pub struct BatchStatistics {
    /// Pictures that the archive already held.
    pub duplicates: usize,
    /// Pictures copied, whatever the source of their capture time.
    pub copied: usize,
    /// Pictures copied under the capture time of their own metadata.
    pub copied_embedded: usize,
    /// Pictures copied under the capture time that the tool gave.
    pub copied_external_tool: usize,
    /// Pictures copied under their last-modified time.
    pub copied_filesystem: usize,
    /// Pictures that could not be archived.
    pub failed: usize,
}

impl BatchStatistics {
    /// These are the counts of `outcomes`.
    pub open spec fn counts(&self, outcomes: Seq<BackupOutcome>) -> bool {
        &&& self.duplicates == count(outcomes, OutcomeClass::Duplicate)
        &&& self.copied_embedded == count(
            outcomes,
            OutcomeClass::Copied(Provenance::EmbeddedMetadata),
        )
        &&& self.copied_external_tool == count(
            outcomes,
            OutcomeClass::Copied(Provenance::ExternalToolMetadata),
        )
        &&& self.copied_filesystem == count(
            outcomes,
            OutcomeClass::Copied(Provenance::FilesystemModifiedTime),
        )
        &&& self.failed == count(outcomes, OutcomeClass::Failed)
        &&& self.copied == self.copied_embedded + self.copied_external_tool
            + self.copied_filesystem
    }

    /// The number of outcomes counted.
    pub open spec fn total(&self) -> int {
        self.duplicates + self.copied + self.failed
    }
}

/// What a batch reports: its counts, and its failures one by one.
#[derive(Clone, Debug, PartialEq, Eq)]
pub struct BatchReport {
    pub statistics: BatchStatistics,
    pub failures: Vec<BackupFailure>,
}

/// Every outcome is of exactly one kind, so the counts of all kinds add up
/// to the number of outcomes.
pub proof fn lemma_counts_add_up(outcomes: Seq<BackupOutcome>)
    ensures
        count(outcomes, OutcomeClass::Duplicate) + count(
            outcomes,
            OutcomeClass::Copied(Provenance::EmbeddedMetadata),
        ) + count(outcomes, OutcomeClass::Copied(Provenance::ExternalToolMetadata)) + count(
            outcomes,
            OutcomeClass::Copied(Provenance::FilesystemModifiedTime),
        ) + count(outcomes, OutcomeClass::Failed) == outcomes.len(),
        failures_of(outcomes).len() == count(outcomes, OutcomeClass::Failed),
    decreases outcomes.len(),
{
    reveal(Seq::filter);
    if outcomes.len() > 0 {
        lemma_counts_add_up(outcomes.drop_last());
    }
}

/// Taking one outcome out of a batch lowers the count of its kind by one
/// and no other.
pub proof fn lemma_count_without(outcomes: Seq<BackupOutcome>, i: int, class: OutcomeClass)
    requires
        0 <= i < outcomes.len(),
    ensures
        count(outcomes, class) == count(outcomes.remove(i), class) + (if class_of(outcomes[i])
            == class {
            1nat
        } else {
            0nat
        }),
    decreases outcomes.len(),
{
    let kind = |outcome: BackupOutcome| class_of(outcome) == class;
    let front = outcomes.drop_last();
    assert(outcomes =~= front.push(outcomes.last()));
    front.lemma_filter_len_push(kind, outcomes.last());
    if i == outcomes.len() - 1 {
        assert(outcomes.remove(i) =~= front);
    } else {
        lemma_count_without(front, i, class);
        assert(outcomes.remove(i) =~= front.remove(i).push(outcomes.last()));
        front.remove(i).lemma_filter_len_push(kind, outcomes.last());
    }
}

/// The counts of a batch do not depend on the order in which its outcomes
/// came in.
pub proof fn lemma_counts_ignore_order(
    a: Seq<BackupOutcome>,
    b: Seq<BackupOutcome>,
    class: OutcomeClass,
)
    requires
        a.to_multiset() == b.to_multiset(),
    ensures
        count(a, class) == count(b, class),
    decreases a.len(),
{
    broadcast use vstd::multiset::group_multiset_axioms;

    vstd::seq_lib::to_multiset_len(a);
    vstd::seq_lib::to_multiset_len(b);
    if a.len() == 0 {
        assert(a =~= b);
    } else {
        let last = a.last();
        let front = a.drop_last();
        assert(a =~= front.push(last));
        vstd::seq_lib::to_multiset_build(front, last);
        vstd::seq_lib::to_multiset_contains(b, last);
        assert(b.contains(last));
        let i = choose|i: int| 0 <= i < b.len() && b[i] == last;
        vstd::seq_lib::to_multiset_remove(b, i);
        assert(b.remove(i).to_multiset() =~= front.to_multiset());
        lemma_counts_ignore_order(front, b.remove(i), class);
        lemma_count_without(a, a.len() - 1, class);
        assert(a.remove(a.len() - 1) =~= front);
        lemma_count_without(b, i, class);
    }
}

/// Adds up the outcomes of a batch: how many pictures were already there,
/// how many were copied under each source of capture time, how many
/// failed, and the failures themselves in the order of the outcomes.
pub fn tally(outcomes: Vec<BackupOutcome>) -> (report: BatchReport)
    ensures
        report.statistics.counts(outcomes@),
        report.statistics.total() == outcomes@.len(),
        report.failures@ == failures_of(outcomes@),
{
    let mut statistics = BatchStatistics {
        duplicates: 0,
        copied: 0,
        copied_embedded: 0,
        copied_external_tool: 0,
        copied_filesystem: 0,
        failed: 0,
    };
    let mut failures: Vec<BackupFailure> = Vec::new();
    let ghost all = outcomes@;
    proof {
        assert(all.len() == outcomes.len());
        reveal(Seq::filter);
        assert(all.take(0) =~= Seq::<BackupOutcome>::empty());
    }
    for outcome in it: outcomes
        invariant
            it.seq() == all,
            all.len() <= usize::MAX,
            statistics.counts(all.take(it.index() as int)),
            statistics.total() == it.index(),
            failures@ == failures_of(all.take(it.index() as int)),
    {
        proof {
            let seen = all.take(it.index() as int);
            assert(all.take(it.index() + 1) =~= seen.push(outcome));
            assert(all.take(it.index() + 1).drop_last() =~= seen);
            seen.lemma_filter_len_push(
                |o: BackupOutcome| class_of(o) == OutcomeClass::Duplicate,
                outcome,
            );
            seen.lemma_filter_len_push(
                |o: BackupOutcome| class_of(o) == OutcomeClass::Copied(Provenance::EmbeddedMetadata),
                outcome,
            );
            seen.lemma_filter_len_push(
                |o: BackupOutcome|
                    class_of(o) == OutcomeClass::Copied(Provenance::ExternalToolMetadata),
                outcome,
            );
            seen.lemma_filter_len_push(
                |o: BackupOutcome|
                    class_of(o) == OutcomeClass::Copied(Provenance::FilesystemModifiedTime),
                outcome,
            );
            seen.lemma_filter_len_push(
                |o: BackupOutcome| class_of(o) == OutcomeClass::Failed,
                outcome,
            );
        }
        match outcome {
            Ok(BackupSuccess::AlreadyArchived(_)) => {
                statistics.duplicates = statistics.duplicates + 1;
            },
            Ok(BackupSuccess::Copied(_, Provenance::EmbeddedMetadata)) => {
                statistics.copied_embedded = statistics.copied_embedded + 1;
                statistics.copied = statistics.copied + 1;
            },
            Ok(BackupSuccess::Copied(_, Provenance::ExternalToolMetadata)) => {
                statistics.copied_external_tool = statistics.copied_external_tool + 1;
                statistics.copied = statistics.copied + 1;
            },
            Ok(BackupSuccess::Copied(_, Provenance::FilesystemModifiedTime)) => {
                statistics.copied_filesystem = statistics.copied_filesystem + 1;
                statistics.copied = statistics.copied + 1;
            },
            Err(failure) => {
                statistics.failed = statistics.failed + 1;
                failures.push(failure);
            },
        }
    }
    proof {
        assert(all.take(all.len() as int) =~= all);
    }
    BatchReport { statistics, failures }
}

} // verus!
