use nightkrawler::plan::{next_destination_counter, next_probe_counter, quarantine_destination, TRASH_PROBE_ATTEMPTS};
use nightkrawler::cleanup::{cleanup_location_refusal, CleanupRefusal};
use nightkrawler::manifest::{encode_quarantine_manifest, parse_quarantine_manifest, ManifestError};
use nightkrawler::model::{CandidateFile, DuplicateGroup, QuarantineRecord, QuarantineSummary};
use nightkrawler::plan::{
    action_name, protection_verdict, DeviceSet, quarantine_has_room, quarantine_was_complete, total_removable_count,
    total_removable_size, trash_probe_path, trash_probe_targets, unique_quarantine_destination, ProtectionVerdict,
    QuarantineRun,
};
use nightkrawler::restore::{RestoreAction, RestoreRun};
use nightkrawler::runs::{is_yes_answer, is_yes_word, RemovalMode, RemovalRun, RemovalStep};

fn removable(path: &str, size: u64) -> CandidateFile {
    CandidateFile { path: path.as_bytes().to_vec(), size }
}

fn groups() -> Vec<DuplicateGroup> {
    vec![
        DuplicateGroup { keep: removable("/k1", 10), remove: vec![removable("/r1", 10), removable("/r2", 10)] },
        DuplicateGroup { keep: removable("/k2", 5), remove: vec![removable("/r3", 5)] },
    ]
}

#[test]
fn removable_totals() {
    assert_eq!(total_removable_count(&groups()), 3);
    assert_eq!(total_removable_size(&groups()), 25);
    assert_eq!(total_removable_count(&Vec::new()), 0);
}

#[test]
fn quarantine_completeness_gate() {
    let done = QuarantineSummary { copied: 3, failed: 0, skipped: 0, records: Vec::new() };
    assert!(quarantine_was_complete(&groups(), &done));
    let short = QuarantineSummary { copied: 2, failed: 0, skipped: 0, records: Vec::new() };
    assert!(!quarantine_was_complete(&groups(), &short));
    let failed = QuarantineSummary { copied: 3, failed: 1, skipped: 0, records: Vec::new() };
    assert!(!quarantine_was_complete(&groups(), &failed));
    let skipped = QuarantineSummary { copied: 3, failed: 0, skipped: 1, records: Vec::new() };
    assert!(!quarantine_was_complete(&groups(), &skipped));
}

#[test]
fn quarantine_room() {
    assert!(quarantine_has_room(25, 25));
    assert!(!quarantine_has_room(24, 25));
}

#[test]
fn protection_verdicts() {
    assert!(matches!(protection_verdict(&vec![None, None], false), ProtectionVerdict::Clear));
    let roots = vec![None, Some(b"/etc".to_vec()), Some(b"/root".to_vec())];
    assert!(matches!(protection_verdict(&roots, true), ProtectionVerdict::Permitted { count: 2 }));
    match protection_verdict(&roots, false) {
        ProtectionVerdict::Refused { first, root, count } => {
            assert_eq!(first, 1);
            assert_eq!(root, b"/etc".to_vec());
            assert_eq!(count, 2);
        },
        other => panic!("{:?}", other),
    }
}

#[test]
fn quarantine_destinations() {
    let dest = b"/q/docs/a.txt".to_vec();
    let parent = Some(b"/q/docs".to_vec());
    assert_eq!(unique_quarantine_destination(&dest, &parent, 0), dest);
    assert_eq!(unique_quarantine_destination(&dest, &parent, 1), b"/q/docs/a.txt.nightkrawler-1".to_vec());
    assert_eq!(unique_quarantine_destination(&dest, &parent, 12), b"/q/docs/a.txt.nightkrawler-12".to_vec());
    assert_eq!(unique_quarantine_destination(b"a", &Some(Vec::new()), 2), b"a.nightkrawler-2".to_vec());
    assert_eq!(unique_quarantine_destination(b"/", &None, 1), b"./file.nightkrawler-1".to_vec());
    assert_eq!(
        unique_quarantine_destination(b"/q/\xffx", &Some(b"/q".to_vec()), 3),
        "/q/\u{fffd}x.nightkrawler-3".as_bytes().to_vec()
    );
}

#[test]
fn trash_checks_once_per_filesystem() {
    assert_eq!(trash_probe_targets(&vec![5, 7, 5, 9, 7]), vec![0, 1, 3]);
    assert_eq!(trash_probe_targets(&vec![]), Vec::<usize>::new());
    assert_eq!(trash_probe_path(b"/data", 42, 0), b"/data/.nightkrawler-trash-probe-42-0".to_vec());
}

#[test]
fn quarantine_copy_tallies() {
    let mut run = QuarantineRun::new(&groups());
    let mut seen = Vec::new();
    while let Some(f) = run.next_file() {
        let p = f.path.clone();
        seen.push(p.clone());
        if p == b"/r2".to_vec() {
            run.record_copy(None);
        } else {
            let mut d = b"/q".to_vec();
            d.extend_from_slice(&p);
            run.record_copy(Some(d));
        }
    }
    assert_eq!(seen, vec![b"/r1".to_vec(), b"/r2".to_vec(), b"/r3".to_vec()]);
    let summary = run.summary();
    assert_eq!((summary.copied, summary.failed, summary.skipped), (2, 1, 0));
    assert_eq!(summary.records[1].original_path, b"/r3".to_vec());
    assert_eq!(summary.records[1].quarantine_path, b"/q/r3".to_vec());
    assert_eq!(summary.records[1].size, 5);
}

#[test]
fn a_delete_run_goes_on_after_failures() {
    let mut run = RemovalRun::new(&groups(), RemovalMode::Delete, false);
    assert_eq!(run.next_step(), RemovalStep::Remove(0));
    run.record_removal(false);
    assert_eq!(run.next_step(), RemovalStep::Remove(1));
    run.record_removal(true);
    assert_eq!(run.next_step(), RemovalStep::Remove(2));
    run.record_removal(true);
    assert_eq!(run.next_step(), RemovalStep::Finished);
    let s = run.delete_summary();
    assert_eq!((s.kept, s.deleted, s.failed, s.skipped, s.deleted_space), (2, 2, 1, 0, 15));
}

#[test]
fn a_trash_run_stops_at_the_first_failure() {
    let mut run = RemovalRun::new(&groups(), RemovalMode::Trash, false);
    run.record_removal(true);
    assert_eq!(run.next_step(), RemovalStep::Remove(1));
    run.record_removal(false);
    assert_eq!(run.next_step(), RemovalStep::Finished);
    let s = run.trash_summary();
    assert_eq!((s.kept, s.trashed, s.failed, s.skipped, s.trashed_space), (2, 1, 1, 0, 10));
}

#[test]
fn an_interactive_run_asks_first() {
    let mut run = RemovalRun::new(&groups(), RemovalMode::Delete, true);
    assert_eq!(run.next_step(), RemovalStep::Confirm(0));
    run.record_confirmation(false);
    assert_eq!(run.next_step(), RemovalStep::Confirm(1));
    run.record_confirmation(true);
    assert_eq!(run.next_step(), RemovalStep::Remove(1));
    run.record_removal(true);
    assert_eq!(run.next_step(), RemovalStep::Confirm(2));
    run.record_confirmation(false);
    assert_eq!(run.next_step(), RemovalStep::Finished);
    let s = run.delete_summary();
    assert_eq!((s.deleted, s.skipped, s.deleted_space), (1, 2, 10));
}

#[test]
fn an_empty_run_is_finished() {
    let run = RemovalRun::new(&Vec::new(), RemovalMode::Trash, true);
    assert_eq!(run.next_step(), RemovalStep::Finished);
    let s = run.trash_summary();
    assert_eq!((s.kept, s.trashed, s.failed, s.skipped, s.trashed_space), (0, 0, 0, 0, 0));
}

#[test]
fn yes_answers() {
    assert!(is_yes_answer("y\n"));
    assert!(is_yes_answer("  YES \n"));
    assert!(is_yes_answer("Yes"));
    assert!(!is_yes_answer("\n"));
    assert!(!is_yes_answer("no"));
    assert!(!is_yes_answer("yess"));
    assert!(!is_yes_answer("y e s"));
}

fn record(o: &str, q: &str, size: u64) -> QuarantineRecord {
    QuarantineRecord { original_path: o.as_bytes().to_vec(), quarantine_path: q.as_bytes().to_vec(), size }
}

#[test]
fn restore_run_outcomes() {
    let records = vec![record("/a", "/q/a", 3), record("/b", "/q/b", 4), record("/c", "/q/c", 5), record("/d", "/q/d", u64::MAX)];
    let mut run = RestoreRun::new(records);
    assert_eq!(run.next_action(), RestoreAction::CheckOriginal(0));
    run.answer(true);
    assert_eq!(run.next_action(), RestoreAction::CheckOriginal(1));
    run.answer(false);
    assert_eq!(run.next_action(), RestoreAction::CheckQuarantined(1));
    run.answer(false);
    assert_eq!(run.next_action(), RestoreAction::CheckOriginal(2));
    run.answer(false);
    run.answer(true);
    assert_eq!(run.next_action(), RestoreAction::MakeParent(2));
    run.answer(true);
    assert_eq!(run.next_action(), RestoreAction::Copy(2));
    run.answer(true);
    run.answer(false);
    run.answer(true);
    run.answer(true);
    run.answer(true);
    assert_eq!(run.next_action(), RestoreAction::Finished);
    let s = run.summary();
    assert_eq!((s.restored, s.failed, s.skipped), (2, 1, 1));
    assert_eq!(s.restored_space, u64::MAX);
}

#[test]
fn cleanup_refusals() {
    assert_eq!(cleanup_location_refusal(b"/", &None, &None), Some(CleanupRefusal::FilesystemRoot));
    assert_eq!(cleanup_location_refusal(b"//", &None, &None), Some(CleanupRefusal::FilesystemRoot));
    let home = Some(b"/home/u".to_vec());
    let cwd = Some(b"/work".to_vec());
    assert_eq!(cleanup_location_refusal(b"/home/u/", &home, &cwd), Some(CleanupRefusal::HomeDirectory));
    assert_eq!(cleanup_location_refusal(b"/work", &home, &cwd), Some(CleanupRefusal::WorkingDirectory));
    assert_eq!(cleanup_location_refusal(b"/home/u/q", &home, &cwd), None);
    assert_eq!(CleanupRefusal::HomeDirectory.message(), "refusing to clean the home directory");
    assert_eq!(
        CleanupRefusal::NotAQuarantine.message(),
        "directory is not a recognized Nightkrawler quarantine"
    );
}

#[test]
fn manifest_round_trip() {
    let records = vec![record("/a b\tc\n", "/q/x", 7), QuarantineRecord {
        original_path: vec![0xff, 0x00, b'/'],
        quarantine_path: Vec::new(),
        size: u64::MAX,
    }];
    let bytes = encode_quarantine_manifest(&records);
    assert_eq!(&bytes[..4], b"NKQ1");
    let back = parse_quarantine_manifest(&bytes).unwrap();
    assert_eq!(back.len(), 2);
    assert_eq!(back[0].original_path, records[0].original_path);
    assert_eq!(back[1].original_path, records[1].original_path);
    assert_eq!(back[1].quarantine_path, records[1].quarantine_path);
    assert_eq!(back[1].size, u64::MAX);
}

#[test]
fn manifest_errors() {
    assert_eq!(parse_quarantine_manifest(b"NK").unwrap_err(), ManifestError::Truncated);
    assert_eq!(parse_quarantine_manifest(b"XXXX").unwrap_err(), ManifestError::BadMagic);
    assert_eq!(parse_quarantine_manifest(b"NKQ1").unwrap().len(), 0);
    assert_eq!(parse_quarantine_manifest(b"NKQ1\x01\x02").unwrap().len(), 0);
    let mut cut = b"NKQ1".to_vec();
    cut.extend_from_slice(&5u64.to_le_bytes());
    cut.extend_from_slice(b"ab");
    assert_eq!(parse_quarantine_manifest(&cut).unwrap_err(), ManifestError::Truncated);
    let mut long = b"NKQ1".to_vec();
    long.extend_from_slice(&u64::MAX.to_le_bytes());
    let e = parse_quarantine_manifest(&long).unwrap_err();
    assert!(e == ManifestError::PathTooLong || e == ManifestError::Truncated);
}

#[test]
fn action_names() {
    let mut o = nightkrawler::model::Options {
        root_path: b"/d".to_vec(),
        recursive: false,
        min_size: 1,
        force_dotdirs: false,
        allow_protected: false,
        delete: true,
        trash: false,
        excludes: Vec::new(),
        protected_paths: Vec::new(),
        prefer_paths: Vec::new(),
        keep_policy: nightkrawler::model::KeepPolicy::Default,
        quarantine_path: Some(b"/q".to_vec()),
        report_path: None,
        interactive: false,
        use_colors: false,
    };
    assert_eq!(action_name(&o), "delete/quarantine");
    o.delete = false;
    o.trash = true;
    assert_eq!(action_name(&o), "trash/quarantine");
    o.quarantine_path = None;
    assert_eq!(action_name(&o), "trash");
    o.trash = false;
    o.delete = true;
    assert_eq!(action_name(&o), "delete");
    o.delete = false;
    assert_eq!(action_name(&o), "quarantine");
}

#[test]
fn yes_words() {
    assert!(is_yes_word("y"));
    assert!(is_yes_word("yes"));
    assert!(!is_yes_word("Yes"));
    assert!(!is_yes_word(" y"));
    assert!(!is_yes_word("no"));
    assert!(!is_yes_word(""));
    assert!(is_yes_answer(" Y "));
    assert!(!is_yes_answer("yess"));
}

#[test]
fn first_files_on_devices() {
    let devices = vec![7u64, 7, 3, 7, 3, 9];
    let mut met = DeviceSet::new();
    let firsts: Vec<bool> = devices.iter().map(|d| met.first_visit(*d)).collect();
    assert_eq!(firsts, vec![true, false, true, false, false, true]);
    assert_eq!(trash_probe_targets(&devices), vec![0, 2, 5]);
}

#[test]
fn quarantine_destinations_keep_the_path_below_the_root() {
    assert_eq!(quarantine_destination(b"/data/a/b.txt", b"/data", b"/q"), b"/q/a/b.txt".to_vec());
    assert_eq!(quarantine_destination(b"/data/a/b.txt", b"/data/", b"/q/"), b"/q/a/b.txt".to_vec());
    assert_eq!(quarantine_destination(b"/data//a/./b.txt", b"/data", b"/q"), b"/q/a/b.txt".to_vec());
    assert_eq!(quarantine_destination(b"/other/b.txt", b"/data", b"/q"), b"/other/b.txt".to_vec());
    assert_eq!(quarantine_destination(b"/data/../x", b"/data", b"q"), b"q/../x".to_vec());
    assert_eq!(quarantine_destination(b"./d/f", b".", b"/q"), b"/q/d/f".to_vec());
    assert_eq!(quarantine_destination(b"/data", b"/data", b"/q"), b"/q/".to_vec());
}

#[test]
fn trash_probe_counters_run_to_a_thousand() {
    assert_eq!(TRASH_PROBE_ATTEMPTS, 1000);
    assert_eq!(next_probe_counter(0), Some(1));
    assert_eq!(next_probe_counter(998), Some(999));
    assert_eq!(next_probe_counter(999), None);
    let mut tried = 1;
    let mut counter = 0;
    while let Some(next) = next_probe_counter(counter) {
        counter = next;
        tried += 1;
    }
    assert_eq!(tried, 1000);
}

#[test]
fn quarantine_destination_counters() {
    assert_eq!(next_destination_counter(0), Some(1));
    assert_eq!(next_destination_counter(41), Some(42));
    assert_eq!(next_destination_counter(u64::MAX), None);
}
