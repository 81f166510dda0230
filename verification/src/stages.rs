//! The order of the stages of a scan, once the duplicate groups are known:
//! what runs next is decided here from the options and what has been done,
//! and the caller carries each stage out and reports back.
use vstd::prelude::*;
use crate::model::{Options, OptionsView};
use crate::plan::acts;
use crate::runs::RemovalMode;

verus! {

/// The counts of a finished quarantine copy.
#[derive(Debug, Clone, Copy, PartialEq, Eq, Structural)]
pub struct QuarantineTally {
    pub copied: usize,
    pub failed: usize,
    pub skipped: usize,
}

/// What has been done so far in a scan that found `groups` duplicate
/// groups with `removable` removable files in all.
#[derive(Debug, Clone, Copy, PartialEq, Eq, Structural)]
pub struct ScanProgress {
    pub groups: usize,
    pub removable: usize,
    /// The outcome of the search was printed.
    pub reported: bool,
    /// The protected candidates were checked (a refusal ends the scan).
    pub protection_checked: bool,
    /// The Trash was found usable (a failure ends the scan).
    pub preflight_passed: bool,
    /// The counts of the quarantine copy, once it ran.
    pub quarantine: Option<QuarantineTally>,
    /// The quarantine manifest was written (a failure ends the scan).
    pub manifest_written: bool,
    /// How many moves to the Trash failed, once that ran.
    pub trash_failed: Option<usize>,
    /// How many deletions failed, once they ran.
    pub delete_failed: Option<usize>,
    /// The duplicate report was written (a failure ends the scan).
    pub report_written: bool,
}

/// What the caller does next.
#[derive(Debug, Clone, Copy, PartialEq, Eq, Structural)]
pub enum ScanStage {
    /// Say that no duplicates were found.
    NoDuplicates,
    /// Print the summary of the duplicate groups.
    Summary,
    /// Check the removable files against the protected paths.
    CheckProtected,
    /// Check that the Trash can take the removable files.
    TrashPreflight,
    /// Copy the removable files into the quarantine.
    Quarantine,
    /// Write the manifest of a quarantine that copied every file.
    WriteManifest,
    /// Refuse the removal: the quarantine before it did not complete.
    RefuseRemoval(RemovalMode),
    /// Remove the removable files.
    Remove(RemovalMode),
    /// Write the duplicate report.
    WriteReport,
    /// Nothing is left; `failed` says whether an action failed.
    Finish { failed: bool },
}

/// What the caller reports once a stage is carried out.
#[derive(Debug, Clone, Copy, PartialEq, Eq, Structural)]
pub enum ScanEvent {
    /// The outcome of the search, or its summary, was printed.
    Reported,
    /// No protected candidate stops the scan.
    ProtectionChecked,
    /// The Trash can take the files.
    PreflightPassed,
    /// The quarantine copy ran, with these counts.
    Quarantined(QuarantineTally),
    /// The quarantine manifest was written.
    ManifestWritten,
    /// A removal ran, and this many files failed.
    Removed(RemovalMode, usize),
    /// The duplicate report was written.
    ReportWritten,
}

/// Whether a quarantine copy took every removable file: none failed or was
/// skipped, and as many were copied as there are removable files.
pub open spec fn tally_complete(q: QuarantineTally, removable: usize) -> bool {
    q.failed == 0 && q.skipped == 0 && q.copied == removable
}

/// The removal stage in `mode`: refused after a quarantine that did not
/// take every file.
pub open spec fn removal_gate(p: ScanProgress, mode: RemovalMode) -> ScanStage {
    match p.quarantine {
        Some(q) => if tally_complete(q, p.removable) {
            ScanStage::Remove(mode)
        } else {
            ScanStage::RefuseRemoval(mode)
        },
        None => ScanStage::Remove(mode),
    }
}

/// Whether an action of the scan failed: a quarantine copy, a move to the
/// Trash or a deletion.
pub open spec fn scan_failed(p: ScanProgress) -> bool {
    ||| (p.quarantine is Some && p.quarantine->0.failed > 0)
    ||| (p.trash_failed is Some && p.trash_failed->0 > 0)
    ||| (p.delete_failed is Some && p.delete_failed->0 > 0)
}

/// The stage that comes next. Without duplicates the scan only says so.
/// Otherwise it prints the summary; where the options ask for an action,
/// it checks the protected paths, the Trash (when files go there), copies
/// into the quarantine (when one is given) and writes its manifest when
/// the copy was clean, then moves to the Trash and deletes, each refused
/// after a quarantine that did not take every file; last it writes the
/// report.
pub open spec fn scan_stage(o: OptionsView, p: ScanProgress) -> ScanStage {
    if p.groups == 0 {
        if !p.reported {
            ScanStage::NoDuplicates
        } else {
            ScanStage::Finish { failed: false }
        }
    } else if !p.reported {
        ScanStage::Summary
    } else if acts(o) && !p.protection_checked {
        ScanStage::CheckProtected
    } else if o.trash && !p.preflight_passed {
        ScanStage::TrashPreflight
    } else if o.quarantine_path is Some && p.quarantine is None {
        ScanStage::Quarantine
    } else if o.quarantine_path is Some && p.quarantine is Some && p.quarantine->0.failed == 0
        && p.quarantine->0.skipped == 0 && !p.manifest_written {
        ScanStage::WriteManifest
    } else if o.trash && p.trash_failed is None {
        removal_gate(p, RemovalMode::Trash)
    } else if o.delete && p.delete_failed is None {
        removal_gate(p, RemovalMode::Delete)
    } else if !p.report_written {
        ScanStage::WriteReport
    } else {
        ScanStage::Finish { failed: scan_failed(p) }
    }
}

/// Whether a stage acts on the removable files or prepares to.
pub open spec fn stage_acts(s: ScanStage) -> bool {
    match s {
        ScanStage::CheckProtected | ScanStage::TrashPreflight | ScanStage::Quarantine
        | ScanStage::WriteManifest | ScanStage::RefuseRemoval(_) | ScanStage::Remove(_) => true,
        _ => false,
    }
}

/// The progress after `e` is reported.
pub open spec fn progress_after(p: ScanProgress, e: ScanEvent) -> ScanProgress {
    match e {
        ScanEvent::Reported => ScanProgress { reported: true, ..p },
        ScanEvent::ProtectionChecked => ScanProgress { protection_checked: true, ..p },
        ScanEvent::PreflightPassed => ScanProgress { preflight_passed: true, ..p },
        ScanEvent::Quarantined(q) => ScanProgress { quarantine: Some(q), ..p },
        ScanEvent::ManifestWritten => ScanProgress { manifest_written: true, ..p },
        ScanEvent::Removed(RemovalMode::Trash, n) => ScanProgress { trash_failed: Some(n), ..p },
        ScanEvent::Removed(RemovalMode::Delete, n) => ScanProgress { delete_failed: Some(n), ..p },
        ScanEvent::ReportWritten => ScanProgress { report_written: true, ..p },
    }
}

impl ScanProgress {
    /// A scan that found `groups` duplicate groups with `removable`
    /// removable files, before anything was done with them.
    pub fn start(groups: usize, removable: usize) -> (r: ScanProgress)
        ensures
            r == (ScanProgress {
                groups,
                removable,
                reported: false,
                protection_checked: false,
                preflight_passed: false,
                quarantine: None,
                manifest_written: false,
                trash_failed: None,
                delete_failed: None,
                report_written: false,
            }),
    {
        ScanProgress {
            groups,
            removable,
            reported: false,
            protection_checked: false,
            preflight_passed: false,
            quarantine: None,
            manifest_written: false,
            trash_failed: None,
            delete_failed: None,
            report_written: false,
        }
    }

    /// Notes that a stage was carried out.
    pub fn record(&mut self, event: ScanEvent)
        ensures
            *final(self) == progress_after(*old(self), event),
    {
        match event {
            ScanEvent::Reported => self.reported = true,
            ScanEvent::ProtectionChecked => self.protection_checked = true,
            ScanEvent::PreflightPassed => self.preflight_passed = true,
            ScanEvent::Quarantined(q) => self.quarantine = Some(q),
            ScanEvent::ManifestWritten => self.manifest_written = true,
            ScanEvent::Removed(RemovalMode::Trash, n) => self.trash_failed = Some(n),
            ScanEvent::Removed(RemovalMode::Delete, n) => self.delete_failed = Some(n),
            ScanEvent::ReportWritten => self.report_written = true,
        }
    }
}

/// The stage of the scan that comes next (see `scan_stage`).
pub fn next_scan_stage(options: &Options, progress: &ScanProgress) -> (r: ScanStage)
    ensures
        r == scan_stage(options@, *progress),
        !acts(options@) ==> !stage_acts(r),
        progress.quarantine is Some && progress.quarantine->0.failed > 0 ==> !(r is Remove),
        r is Remove && options@.quarantine_path is Some ==> progress.quarantine is Some && tally_complete(
            progress.quarantine->0,
            progress.removable,
        ),
{
    let p = progress;
    if p.groups == 0 {
        if !p.reported {
            ScanStage::NoDuplicates
        } else {
            ScanStage::Finish { failed: false }
        }
    } else if !p.reported {
        ScanStage::Summary
    } else if (options.delete || options.trash || options.quarantine_path.is_some()) && !p.protection_checked {
        ScanStage::CheckProtected
    } else if options.trash && !p.preflight_passed {
        ScanStage::TrashPreflight
    } else if options.quarantine_path.is_some() && p.quarantine.is_none() {
        ScanStage::Quarantine
    } else if options.quarantine_path.is_some() && quarantine_clean(&p.quarantine) && !p.manifest_written {
        ScanStage::WriteManifest
    } else if options.trash && p.trash_failed.is_none() {
        gate(p, RemovalMode::Trash)
    } else if options.delete && p.delete_failed.is_none() {
        gate(p, RemovalMode::Delete)
    } else if !p.report_written {
        ScanStage::WriteReport
    } else {
        ScanStage::Finish { failed: failed(p) }
    }
}

fn quarantine_clean(q: &Option<QuarantineTally>) -> (r: bool)
    ensures
        r == (q is Some && q->0.failed == 0 && q->0.skipped == 0),
{
    match q {
        Some(t) => t.failed == 0 && t.skipped == 0,
        None => false,
    }
}

fn gate(p: &ScanProgress, mode: RemovalMode) -> (r: ScanStage)
    ensures
        r == removal_gate(*p, mode),
{
    match p.quarantine {
        Some(q) => if q.failed == 0 && q.skipped == 0 && q.copied == p.removable {
            ScanStage::Remove(mode)
        } else {
            ScanStage::RefuseRemoval(mode)
        },
        None => ScanStage::Remove(mode),
    }
}

fn failed(p: &ScanProgress) -> (r: bool)
    ensures
        r == scan_failed(*p),
{
    let q = match p.quarantine {
        Some(t) => t.failed > 0,
        None => false,
    };
    let t = match p.trash_failed {
        Some(n) => n > 0,
        None => false,
    };
    let d = match p.delete_failed {
        Some(n) => n > 0,
        None => false,
    };
    q || t || d
}

} // verus!
