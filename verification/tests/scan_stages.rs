use nightkrawler::cleanup::{cleanup_step, CleanupRefusal, CleanupStep};
use nightkrawler::model::{KeepPolicy, Options};
use nightkrawler::runs::RemovalMode;
use nightkrawler::stages::{next_scan_stage, QuarantineTally, ScanEvent, ScanProgress, ScanStage};

fn plain_options() -> Options {
    Options {
        root_path: b"/data".to_vec(),
        recursive: false,
        min_size: 1,
        force_dotdirs: false,
        allow_protected: false,
        delete: false,
        trash: false,
        excludes: Vec::new(),
        protected_paths: Vec::new(),
        prefer_paths: Vec::new(),
        keep_policy: KeepPolicy::Default,
        quarantine_path: None,
        report_path: None,
        interactive: false,
        use_colors: false,
    }
}

/// Runs the stages, answering each with the event that `answer` gives, and
/// returns the stages met, up to the first that ends the scan.
fn stages_of(options: &Options, groups: usize, removable: usize, answer: &dyn Fn(ScanStage) -> Option<ScanEvent>) -> Vec<ScanStage> {
    let mut progress = ScanProgress::start(groups, removable);
    let mut seen = Vec::new();
    for _ in 0..20 {
        let stage = next_scan_stage(options, &progress);
        seen.push(stage);
        match answer(stage) {
            Some(event) => progress.record(event),
            None => break,
        }
    }
    seen
}

fn clean_answer(stage: ScanStage) -> Option<ScanEvent> {
    match stage {
        ScanStage::NoDuplicates | ScanStage::Summary => Some(ScanEvent::Reported),
        ScanStage::CheckProtected => Some(ScanEvent::ProtectionChecked),
        ScanStage::TrashPreflight => Some(ScanEvent::PreflightPassed),
        ScanStage::Quarantine => Some(ScanEvent::Quarantined(QuarantineTally { copied: 3, failed: 0, skipped: 0 })),
        ScanStage::WriteManifest => Some(ScanEvent::ManifestWritten),
        ScanStage::Remove(mode) => Some(ScanEvent::Removed(mode, 0)),
        ScanStage::RefuseRemoval(_) => None,
        ScanStage::WriteReport => Some(ScanEvent::ReportWritten),
        ScanStage::Finish { .. } => None,
    }
}

#[test]
fn scan_without_duplicates_only_says_so() {
    let o = plain_options();
    assert_eq!(stages_of(&o, 0, 0, &clean_answer), vec![ScanStage::NoDuplicates, ScanStage::Finish { failed: false }]);
}

#[test]
fn scan_reports_only_by_default() {
    let o = plain_options();
    assert_eq!(
        stages_of(&o, 2, 3, &clean_answer),
        vec![ScanStage::Summary, ScanStage::WriteReport, ScanStage::Finish { failed: false }]
    );
}

#[test]
fn quarantine_then_trash_runs_every_stage_in_order() {
    let mut o = plain_options();
    o.trash = true;
    o.quarantine_path = Some(b"/q".to_vec());
    assert_eq!(
        stages_of(&o, 2, 3, &clean_answer),
        vec![
            ScanStage::Summary,
            ScanStage::CheckProtected,
            ScanStage::TrashPreflight,
            ScanStage::Quarantine,
            ScanStage::WriteManifest,
            ScanStage::Remove(RemovalMode::Trash),
            ScanStage::WriteReport,
            ScanStage::Finish { failed: false },
        ]
    );
}

#[test]
fn incomplete_quarantine_refuses_deletion() {
    let mut o = plain_options();
    o.delete = true;
    o.quarantine_path = Some(b"/q".to_vec());
    let failing = |stage: ScanStage| match stage {
        ScanStage::Quarantine => Some(ScanEvent::Quarantined(QuarantineTally { copied: 2, failed: 1, skipped: 0 })),
        other => clean_answer(other),
    };
    assert_eq!(
        stages_of(&o, 2, 3, &failing),
        vec![
            ScanStage::Summary,
            ScanStage::CheckProtected,
            ScanStage::Quarantine,
            ScanStage::RefuseRemoval(RemovalMode::Delete),
        ]
    );
    let short = |stage: ScanStage| match stage {
        ScanStage::Quarantine => Some(ScanEvent::Quarantined(QuarantineTally { copied: 2, failed: 0, skipped: 0 })),
        other => clean_answer(other),
    };
    let seen = stages_of(&o, 2, 3, &short);
    assert_eq!(seen[3], ScanStage::WriteManifest);
    assert_eq!(seen[4], ScanStage::RefuseRemoval(RemovalMode::Delete));
}

#[test]
fn quarantine_alone_with_failures_still_reports_and_fails() {
    let mut o = plain_options();
    o.quarantine_path = Some(b"/q".to_vec());
    let failing = |stage: ScanStage| match stage {
        ScanStage::Quarantine => Some(ScanEvent::Quarantined(QuarantineTally { copied: 1, failed: 2, skipped: 0 })),
        other => clean_answer(other),
    };
    assert_eq!(
        stages_of(&o, 1, 3, &failing),
        vec![
            ScanStage::Summary,
            ScanStage::CheckProtected,
            ScanStage::Quarantine,
            ScanStage::WriteReport,
            ScanStage::Finish { failed: true },
        ]
    );
}

#[test]
fn failed_deletions_fail_the_scan_after_the_report() {
    let mut o = plain_options();
    o.delete = true;
    let failing = |stage: ScanStage| match stage {
        ScanStage::Remove(mode) => Some(ScanEvent::Removed(mode, 1)),
        other => clean_answer(other),
    };
    assert_eq!(
        stages_of(&o, 1, 1, &failing),
        vec![
            ScanStage::Summary,
            ScanStage::CheckProtected,
            ScanStage::Remove(RemovalMode::Delete),
            ScanStage::WriteReport,
            ScanStage::Finish { failed: true },
        ]
    );
}

#[test]
fn cleanup_steps() {
    assert_eq!(cleanup_step(false, false, None, None), CleanupStep::NothingToClean);
    assert_eq!(cleanup_step(true, true, None, None), CleanupStep::RemoveEmpty);
    assert_eq!(
        cleanup_step(true, true, Some(CleanupRefusal::HomeDirectory), None),
        CleanupStep::Refuse(CleanupRefusal::HomeDirectory)
    );
    assert_eq!(
        cleanup_step(true, true, Some(CleanupRefusal::WorkingDirectory), None),
        CleanupStep::Refuse(CleanupRefusal::WorkingDirectory)
    );
    assert_eq!(cleanup_step(true, false, None, None), CleanupStep::ReadManifest);
    assert_eq!(
        cleanup_step(true, false, None, Some(false)),
        CleanupStep::Refuse(CleanupRefusal::NotAQuarantine)
    );
    assert_eq!(cleanup_step(true, false, None, Some(true)), CleanupStep::RemoveAll);
    assert_eq!(
        cleanup_step(true, false, Some(CleanupRefusal::FilesystemRoot), Some(true)),
        CleanupStep::Refuse(CleanupRefusal::FilesystemRoot)
    );
}
