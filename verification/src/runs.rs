//! The delete and Trash runs over the removable files, as state machines:
//! the run names the next step (ask the user, or remove a file), the
//! caller performs it and reports back, and the run keeps the tallies.
use vstd::prelude::*;
use crate::model::{
    CandidateFile, CandidateView, DeleteSummary, DuplicateGroup, TrashSummary, files_view, groups_view,
};
use crate::plan::{removable_files, removable_files_of};
use crate::size::{ascii_lower, is_ascii_text, lowercase, text_equal, to_lowercase_text, trim, trim_bounds};
use crate::text::{chars_of, string_from_chars};

verus! {

/// How removable files are removed.
#[derive(Debug, Clone, Copy, PartialEq, Eq, Structural)]
pub enum RemovalMode {
    /// Deleted permanently; a failure is counted and the run goes on.
    Delete,
    /// Moved to the Trash; the run stops after the first failure.
    Trash,
}

/// What became of one removable file.
#[derive(Debug, Clone, Copy, PartialEq, Eq, Structural)]
pub enum FileOutcome {
    /// The user declined.
    Skipped,
    /// The file was removed.
    Removed,
    /// Removing the file failed.
    Failed,
}

/// What the caller does next.
#[derive(Debug, Clone, Copy, PartialEq, Eq, Structural)]
pub enum RemovalStep {
    /// Ask the user about the removable file with this index.
    Confirm(usize),
    /// Remove the removable file with this index.
    Remove(usize),
    /// Nothing is left to do.
    Finished,
}

/// The number of outcomes equal to `o`.
pub open spec fn outcome_count(os: Seq<FileOutcome>, o: FileOutcome) -> nat
    decreases os.len(),
{
    if os.len() == 0 {
        0
    } else {
        outcome_count(os.drop_last(), o) + if os.last() == o { 1nat } else { 0nat }
    }
}

/// The total size of the files removed, `os[i]` being the outcome of
/// `files[i]`.
pub open spec fn removed_space(files: Seq<CandidateView>, os: Seq<FileOutcome>) -> nat
    decreases os.len(),
{
    if os.len() == 0 {
        0
    } else {
        removed_space(files, os.drop_last()) + if os.last() == FileOutcome::Removed {
            files[os.len() - 1].size as nat
        } else {
            0nat
        }
    }
}

proof fn lemma_counts_sum(os: Seq<FileOutcome>)
    ensures
        outcome_count(os, FileOutcome::Skipped) + outcome_count(os, FileOutcome::Removed) + outcome_count(
            os,
            FileOutcome::Failed,
        ) == os.len(),
    decreases os.len(),
{
    if os.len() > 0 {
        lemma_counts_sum(os.drop_last());
    }
}

/// A delete or Trash run over the removable files of duplicate groups.
pub struct RemovalRun {
    files: Vec<CandidateFile>,
    kept: usize,
    mode: RemovalMode,
    interactive: bool,
    pos: usize,
    confirmed: bool,
    removed: usize,
    failed: usize,
    skipped: usize,
    space: u64,
    stopped: bool,
    outcomes: Ghost<Seq<FileOutcome>>,
}

impl RemovalRun {
    /// The removable files, in the order the run takes them.
    pub closed spec fn files(&self) -> Seq<CandidateView> {
        files_view(self.files@)
    }

    /// The outcomes so far, one for each file taken, in order.
    pub closed spec fn outcomes(&self) -> Seq<FileOutcome> {
        self.outcomes@
    }

    /// The number of duplicate groups, each of which keeps one file.
    pub closed spec fn kept(&self) -> usize {
        self.kept
    }

    /// How files are removed.
    pub closed spec fn mode(&self) -> RemovalMode {
        self.mode
    }

    /// Whether each file is offered to the user first.
    pub closed spec fn interactive(&self) -> bool {
        self.interactive
    }

    /// Whether the user has agreed to remove the current file.
    pub closed spec fn confirmed(&self) -> bool {
        self.confirmed
    }

    /// The total size of the files removed so far.
    pub closed spec fn space(&self) -> u64 {
        self.space
    }

    /// Whether the run is over: every file was taken, or a Trash run met a
    /// failure.
    pub open spec fn finished(&self) -> bool {
        ||| self.outcomes().len() == self.files().len()
        ||| (self.mode() == RemovalMode::Trash && self.outcomes().len() > 0 && self.outcomes().last()
            == FileOutcome::Failed)
    }

    /// The step that comes next.
    pub open spec fn step(&self) -> RemovalStep {
        if self.finished() {
            RemovalStep::Finished
        } else if self.interactive() && !self.confirmed() {
            RemovalStep::Confirm(self.outcomes().len() as usize)
        } else {
            RemovalStep::Remove(self.outcomes().len() as usize)
        }
    }

    /// The internal invariant.
    pub closed spec fn wf(&self) -> bool {
        &&& self.pos <= self.files@.len()
        &&& self.outcomes@.len() == self.pos
        &&& self.removed == outcome_count(self.outcomes@, FileOutcome::Removed)
        &&& self.failed == outcome_count(self.outcomes@, FileOutcome::Failed)
        &&& self.skipped == outcome_count(self.outcomes@, FileOutcome::Skipped)
        &&& self.space == removed_space(files_view(self.files@), self.outcomes@)
        &&& self.confirmed ==> self.interactive
        &&& self.stopped == (self.mode == RemovalMode::Trash && self.pos > 0 && self.outcomes@.last()
            == FileOutcome::Failed)
        &&& self.mode == RemovalMode::Trash ==> forall|i: int|
            0 <= i < self.pos - 1 ==> self.outcomes@[i] != FileOutcome::Failed
    }

    /// Starts a run over the removable files of `groups`.
    pub fn new(groups: &Vec<DuplicateGroup>, mode: RemovalMode, interactive: bool) -> (r: RemovalRun)
        ensures
            r.wf(),
            r.files() == removable_files(groups_view(groups@)),
            r.kept() == groups@.len(),
            r.mode() == mode,
            r.interactive() == interactive,
            r.outcomes() == Seq::<FileOutcome>::empty(),
            !r.confirmed(),
    {
        RemovalRun {
            files: removable_files_of(groups),
            kept: groups.len(),
            mode,
            interactive,
            pos: 0,
            confirmed: false,
            removed: 0,
            failed: 0,
            skipped: 0,
            space: 0,
            stopped: false,
            outcomes: Ghost(Seq::empty()),
        }
    }

    /// The step that comes next.
    pub fn next_step(&self) -> (r: RemovalStep)
        requires
            self.wf(),
        ensures
            r == self.step(),
            match r {
                RemovalStep::Confirm(i) => i < self.files().len(),
                RemovalStep::Remove(i) => i < self.files().len(),
                RemovalStep::Finished => true,
            },
    {
        if self.pos == self.files.len() || self.stopped {
            RemovalStep::Finished
        } else if self.interactive && !self.confirmed {
            RemovalStep::Confirm(self.pos)
        } else {
            RemovalStep::Remove(self.pos)
        }
    }

    /// Records the user's answer about the current file: on a yes the file
    /// is removed next; on a no it is skipped.
    pub fn record_confirmation(&mut self, yes: bool)
        requires
            old(self).wf(),
            old(self).step() is Confirm,
        ensures
            final(self).wf(),
            final(self).files() == old(self).files(),
            final(self).kept() == old(self).kept(),
            final(self).mode() == old(self).mode(),
            final(self).interactive() == old(self).interactive(),
            final(self).space() == old(self).space(),
            yes ==> final(self).outcomes() == old(self).outcomes() && final(self).confirmed(),
            !yes ==> final(self).outcomes() == old(self).outcomes().push(FileOutcome::Skipped),
            !yes ==> !final(self).confirmed(),
    {
        proof {
            lemma_counts_sum(self.outcomes@);
        }
        let n = self.files.len();
        assert(files_view(self.files@).len() == n);
        assert(self.pos < n);
        if yes {
            self.confirmed = true;
        } else {
            let ghost before = self.outcomes@;
            self.outcomes = Ghost(before.push(FileOutcome::Skipped));
            assert(self.outcomes@.drop_last() =~= before);
            self.skipped = self.skipped + 1;
            self.pos = self.pos + 1;
            self.confirmed = false;
        }
    }

    /// Records whether removing the current file succeeded. A removed
    /// file's size is added to the space freed.
    pub fn record_removal(&mut self, ok: bool)
        requires
            old(self).wf(),
            old(self).step() is Remove,
            ok ==> old(self).space() + old(self).files()[old(self).outcomes().len() as int].size <= u64::MAX,
        ensures
            final(self).wf(),
            final(self).files() == old(self).files(),
            final(self).kept() == old(self).kept(),
            final(self).mode() == old(self).mode(),
            final(self).interactive() == old(self).interactive(),
            !final(self).confirmed(),
            final(self).outcomes() == old(self).outcomes().push(
                if ok {
                    FileOutcome::Removed
                } else {
                    FileOutcome::Failed
                },
            ),
    {
        proof {
            lemma_counts_sum(self.outcomes@);
        }
        let ghost before = self.outcomes@;
        let ghost fv = files_view(self.files@);
        let n = self.files.len();
        assert(fv.len() == n);
        assert(self.pos < n);
        let size = self.files[self.pos].size;
        assert(size == fv[self.pos as int].size);
        if ok {
            self.outcomes = Ghost(before.push(FileOutcome::Removed));
            assert(self.outcomes@.drop_last() =~= before);
            self.removed = self.removed + 1;
            self.space = self.space + size;
        } else {
            self.outcomes = Ghost(before.push(FileOutcome::Failed));
            assert(self.outcomes@.drop_last() =~= before);
            self.failed = self.failed + 1;
            if self.mode == RemovalMode::Trash {
                self.stopped = true;
            }
        }
        self.pos = self.pos + 1;
        self.confirmed = false;
    }

    /// A Trash run stops at its first failure: no file fails before the
    /// last one taken, and after a failure nothing is left to do.
    pub proof fn trash_run_stops_after_first_failure(&self)
        requires
            self.wf(),
            self.mode() == RemovalMode::Trash,
        ensures
            forall|i: int|
                0 <= i < self.outcomes().len() && self.outcomes()[i] == FileOutcome::Failed ==> i
                    == self.outcomes().len() - 1 && self.step() == RemovalStep::Finished,
    {
    }

    /// Every file a run has taken is counted once: as skipped, removed or
    /// failed.
    pub proof fn tallies_cover_files_taken(&self)
        requires
            self.wf(),
        ensures
            outcome_count(self.outcomes(), FileOutcome::Skipped) + outcome_count(self.outcomes(), FileOutcome::Removed)
                + outcome_count(self.outcomes(), FileOutcome::Failed) == self.outcomes().len(),
            self.outcomes().len() <= self.files().len(),
    {
        lemma_counts_sum(self.outcomes@);
    }

    /// The tallies of a delete run.
    pub fn delete_summary(&self) -> (r: DeleteSummary)
        requires
            self.wf(),
        ensures
            r.kept == self.kept(),
            r.deleted == outcome_count(self.outcomes(), FileOutcome::Removed),
            r.failed == outcome_count(self.outcomes(), FileOutcome::Failed),
            r.skipped == outcome_count(self.outcomes(), FileOutcome::Skipped),
            r.deleted_space == removed_space(self.files(), self.outcomes()),
    {
        DeleteSummary {
            kept: self.kept,
            deleted: self.removed,
            failed: self.failed,
            skipped: self.skipped,
            deleted_space: self.space,
        }
    }

    /// The tallies of a Trash run.
    pub fn trash_summary(&self) -> (r: TrashSummary)
        requires
            self.wf(),
        ensures
            r.kept == self.kept(),
            r.trashed == outcome_count(self.outcomes(), FileOutcome::Removed),
            r.failed == outcome_count(self.outcomes(), FileOutcome::Failed),
            r.skipped == outcome_count(self.outcomes(), FileOutcome::Skipped),
            r.trashed_space == removed_space(self.files(), self.outcomes()),
    {
        TrashSummary {
            kept: self.kept,
            trashed: self.removed,
            failed: self.failed,
            skipped: self.skipped,
            trashed_space: self.space,
        }
    }
}

/// Whether an answer to a yes/no question is yes: trimmed and lowercased,
/// it reads `y` or `yes`. Anything else, the empty answer included, is no.
pub open spec fn answer_is_yes(answer: Seq<char>) -> bool {
    lowercase(trim(answer)) == "y"@ || lowercase(trim(answer)) == "yes"@
}

/// Whether an answer to a yes/no question is yes (see `answer_is_yes`).
pub fn is_yes_answer(answer: &str) -> (r: bool)
    ensures
        r == answer_is_yes(answer@),
        is_ascii_text(answer@) ==> r == (trim(answer@).map_values(|c: char| ascii_lower(c)) == "y"@
            || trim(answer@).map_values(|c: char| ascii_lower(c)) == "yes"@),
{
    let cs = chars_of(answer);
    let (start, end) = trim_bounds(cs.as_slice());
    let mut trimmed: Vec<char> = Vec::new();
    let mut i: usize = start;
    while i < end
        invariant
            start <= i <= end <= cs@.len(),
            trimmed@ == cs@.subrange(start as int, i as int),
        decreases end - i,
    {
        trimmed.push(cs[i]);
        i = i + 1;
        assert(trimmed@ =~= cs@.subrange(start as int, i as int));
    }
    let text = string_from_chars(trimmed.as_slice());
    let lower = to_lowercase_text(text.as_str());
    is_yes_word(lower.as_str())
}

/// Whether a trimmed and lowercased answer is yes: it reads `y` or `yes`.
pub fn is_yes_word(lowered: &str) -> (r: bool)
    ensures
        r == (lowered@ == "y"@ || lowered@ == "yes"@),
{
    text_equal(lowered, "y") || text_equal(lowered, "yes")
}

} // verus!
