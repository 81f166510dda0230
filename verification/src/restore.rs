//! Restoring a quarantine, as a state machine: for each record in turn the
//! run names the check or copy to make, the caller makes it and reports
//! back, and the run keeps the tallies.
use vstd::prelude::*;
use crate::model::{QuarantineRecord, RecordView, RestoreSummary, records_view};

verus! {

/// What a restore run asks of the caller, for the record with this index.
#[derive(Debug, Clone, Copy, PartialEq, Eq, Structural)]
pub enum RestoreAction {
    /// Does a file exist at the record's original path?
    CheckOriginal(usize),
    /// Does the quarantined copy exist?
    CheckQuarantined(usize),
    /// Make the original path's parent directory; answer whether it exists
    /// now (or the path has no parent).
    MakeParent(usize),
    /// Copy the quarantined file back; answer whether the copy succeeded.
    Copy(usize),
    /// Every record has been handled.
    Finished,
}

/// What became of one record.
#[derive(Debug, Clone, Copy, PartialEq, Eq, Structural)]
pub enum RestoreOutcome {
    /// A file already exists at the original path; it is left alone.
    Skipped,
    /// The copy is missing, or the directory or the copy could not be made.
    Failed,
    /// The file was copied back.
    Restored,
}

/// The number of outcomes equal to `o`.
pub open spec fn restore_count(os: Seq<RestoreOutcome>, o: RestoreOutcome) -> nat
    decreases os.len(),
{
    if os.len() == 0 {
        0
    } else {
        restore_count(os.drop_last(), o) + if os.last() == o { 1nat } else { 0nat }
    }
}

/// The sizes of the restored files, summed with saturation at `u64::MAX`.
pub open spec fn restored_space(rs: Seq<RecordView>, os: Seq<RestoreOutcome>) -> u64
    decreases os.len(),
{
    if os.len() == 0 {
        0
    } else {
        let before = restored_space(rs, os.drop_last());
        if os.last() == RestoreOutcome::Restored {
            if before + rs[os.len() - 1].size > u64::MAX {
                u64::MAX
            } else {
                (before + rs[os.len() - 1].size) as u64
            }
        } else {
            before
        }
    }
}

proof fn lemma_restore_counts(os: Seq<RestoreOutcome>)
    ensures
        restore_count(os, RestoreOutcome::Skipped) + restore_count(os, RestoreOutcome::Failed)
            + restore_count(os, RestoreOutcome::Restored) == os.len(),
    decreases os.len(),
{
    if os.len() > 0 {
        lemma_restore_counts(os.drop_last());
    }
}

/// The stage of the current record.
#[derive(Debug, Clone, Copy, PartialEq, Eq, Structural)]
pub enum RestoreStage {
    Original,
    Quarantined,
    Parent,
    Copy,
}

/// A restore run over the records of a quarantine manifest.
pub struct RestoreRun {
    records: Vec<QuarantineRecord>,
    pos: usize,
    stage: RestoreStage,
    summary: RestoreSummary,
    outcomes: Ghost<Seq<RestoreOutcome>>,
}

impl RestoreRun {
    /// The records, in the order the run takes them.
    pub closed spec fn records(&self) -> Seq<RecordView> {
        records_view(self.records@)
    }

    /// The outcomes so far, one for each record handled, in order.
    pub closed spec fn outcomes(&self) -> Seq<RestoreOutcome> {
        self.outcomes@
    }

    /// The stage reached with the current record.
    pub closed spec fn stage(&self) -> RestoreStage {
        self.stage
    }

    /// What the caller does next.
    pub open spec fn action(&self) -> RestoreAction {
        let i = self.outcomes().len() as usize;
        if self.outcomes().len() >= self.records().len() {
            RestoreAction::Finished
        } else {
            match self.stage() {
                RestoreStage::Original => RestoreAction::CheckOriginal(i),
                RestoreStage::Quarantined => RestoreAction::CheckQuarantined(i),
                RestoreStage::Parent => RestoreAction::MakeParent(i),
                RestoreStage::Copy => RestoreAction::Copy(i),
            }
        }
    }

    /// The internal invariant.
    pub closed spec fn wf(&self) -> bool {
        &&& self.pos <= self.records@.len()
        &&& self.outcomes@.len() == self.pos
        &&& self.summary.restored == restore_count(self.outcomes@, RestoreOutcome::Restored)
        &&& self.summary.failed == restore_count(self.outcomes@, RestoreOutcome::Failed)
        &&& self.summary.skipped == restore_count(self.outcomes@, RestoreOutcome::Skipped)
        &&& self.summary.restored_space == restored_space(records_view(self.records@), self.outcomes@)
    }

    /// Starts restoring `records`.
    pub fn new(records: Vec<QuarantineRecord>) -> (r: RestoreRun)
        ensures
            r.wf(),
            r.records() == records_view(records@),
            r.outcomes() == Seq::<RestoreOutcome>::empty(),
            r.stage() == RestoreStage::Original,
    {
        RestoreRun {
            records,
            pos: 0,
            stage: RestoreStage::Original,
            summary: RestoreSummary { restored: 0, failed: 0, skipped: 0, restored_space: 0 },
            outcomes: Ghost(Seq::empty()),
        }
    }

    /// What the caller does next.
    pub fn next_action(&self) -> (r: RestoreAction)
        requires
            self.wf(),
        ensures
            r == self.action(),
    {
        if self.pos >= self.records.len() {
            RestoreAction::Finished
        } else {
            match self.stage {
                RestoreStage::Original => RestoreAction::CheckOriginal(self.pos),
                RestoreStage::Quarantined => RestoreAction::CheckQuarantined(self.pos),
                RestoreStage::Parent => RestoreAction::MakeParent(self.pos),
                RestoreStage::Copy => RestoreAction::Copy(self.pos),
            }
        }
    }

    /// The record with index `i`.
    pub fn record(&self, i: usize) -> (r: &QuarantineRecord)
        requires
            i < self.records().len(),
        ensures
            r@ == self.records()[i as int],
    {
        &self.records[i]
    }

    fn finish_record(&mut self, outcome: RestoreOutcome)
        requires
            old(self).wf(),
            old(self).pos < old(self).records@.len(),
        ensures
            final(self).wf(),
            final(self).records@ == old(self).records@,
            final(self).stage == RestoreStage::Original,
            final(self).outcomes@ == old(self).outcomes@.push(outcome),
    {
        proof {
            lemma_restore_counts(self.outcomes@);
        }
        let n = self.records.len();
        let ghost rv = records_view(self.records@);
        let ghost before = self.outcomes@;
        self.outcomes = Ghost(before.push(outcome));
        assert(self.outcomes@.drop_last() =~= before);
        match outcome {
            RestoreOutcome::Skipped => {
                self.summary.skipped = self.summary.skipped + 1;
            },
            RestoreOutcome::Failed => {
                self.summary.failed = self.summary.failed + 1;
            },
            RestoreOutcome::Restored => {
                self.summary.restored = self.summary.restored + 1;
                assert(rv[self.pos as int].size == self.records@[self.pos as int].size);
                self.summary.restored_space = self.summary.restored_space.saturating_add(
                    self.records[self.pos].size,
                );
            },
        }
        self.pos = self.pos + 1;
        self.stage = RestoreStage::Original;
    }

    /// Records the answer to the pending action. A file already at the
    /// original path skips the record; a missing copy, a directory that
    /// could not be made or a failed copy fails it; a copy made restores
    /// it. Otherwise the run moves to the next check.
    pub fn answer(&mut self, yes: bool)
        requires
            old(self).wf(),
            !(old(self).action() is Finished),
        ensures
            final(self).wf(),
            final(self).records() == old(self).records(),
            match old(self).stage() {
                RestoreStage::Original => if yes {
                    final(self).outcomes() == old(self).outcomes().push(RestoreOutcome::Skipped)
                        && final(self).stage() == RestoreStage::Original
                } else {
                    final(self).outcomes() == old(self).outcomes() && final(self).stage()
                        == RestoreStage::Quarantined
                },
                RestoreStage::Quarantined => if yes {
                    final(self).outcomes() == old(self).outcomes() && final(self).stage()
                        == RestoreStage::Parent
                } else {
                    final(self).outcomes() == old(self).outcomes().push(RestoreOutcome::Failed)
                        && final(self).stage() == RestoreStage::Original
                },
                RestoreStage::Parent => if yes {
                    final(self).outcomes() == old(self).outcomes() && final(self).stage() == RestoreStage::Copy
                } else {
                    final(self).outcomes() == old(self).outcomes().push(RestoreOutcome::Failed)
                        && final(self).stage() == RestoreStage::Original
                },
                RestoreStage::Copy => final(self).stage() == RestoreStage::Original && final(self).outcomes()
                    == old(self).outcomes().push(
                    if yes {
                        RestoreOutcome::Restored
                    } else {
                        RestoreOutcome::Failed
                    },
                ),
            },
    {
        let n = self.records.len();
        assert(records_view(self.records@).len() == n);
        match self.stage {
            RestoreStage::Original => {
                if yes {
                    self.finish_record(RestoreOutcome::Skipped);
                } else {
                    self.stage = RestoreStage::Quarantined;
                }
            },
            RestoreStage::Quarantined => {
                if yes {
                    self.stage = RestoreStage::Parent;
                } else {
                    self.finish_record(RestoreOutcome::Failed);
                }
            },
            RestoreStage::Parent => {
                if yes {
                    self.stage = RestoreStage::Copy;
                } else {
                    self.finish_record(RestoreOutcome::Failed);
                }
            },
            RestoreStage::Copy => {
                if yes {
                    self.finish_record(RestoreOutcome::Restored);
                } else {
                    self.finish_record(RestoreOutcome::Failed);
                }
            },
        }
    }

    /// Every record handled is counted once, as restored, failed or
    /// skipped, and the run handles each record at most once.
    pub proof fn tallies_cover_records_handled(&self)
        requires
            self.wf(),
        ensures
            restore_count(self.outcomes(), RestoreOutcome::Restored) + restore_count(
                self.outcomes(),
                RestoreOutcome::Failed,
            ) + restore_count(self.outcomes(), RestoreOutcome::Skipped) == self.outcomes().len(),
            self.outcomes().len() <= self.records().len(),
    {
        lemma_restore_counts(self.outcomes@);
    }

    /// The tallies so far.
    pub fn summary(&self) -> (r: RestoreSummary)
        requires
            self.wf(),
        ensures
            r.restored == restore_count(self.outcomes(), RestoreOutcome::Restored),
            r.failed == restore_count(self.outcomes(), RestoreOutcome::Failed),
            r.skipped == restore_count(self.outcomes(), RestoreOutcome::Skipped),
            r.restored_space == restored_space(self.records(), self.outcomes()),
    {
        RestoreSummary {
            restored: self.summary.restored,
            failed: self.summary.failed,
            skipped: self.summary.skipped,
            restored_space: self.summary.restored_space,
        }
    }
}

} // verus!
