use nightkrawler::runs::RemovalMode;
use nightkrawler::model::{CandidateFile, DeleteSummary, DuplicateGroup, KeepPolicy, Options, PathClass, QuarantineSummary, RestoreSummary, TrashSummary};
use nightkrawler::output::{
    confirmation_lines, confirmation_question, skipped_lines,
    delete_summary_lines, no_duplicates_lines, no_room_lines, protected_refusal_lines, protected_warning_lines,
    quarantine_safety_stop_lines, report_path_lines, restore_summary_lines, scan_banner_lines, scan_summary_lines,
    trash_summary_lines,
};
use nightkrawler::report::{
    class_label, class_section_name, duplicate_report_lines, format_duration, keep_policy_label, report_action_label,
    report_filename, report_mode_label, report_path_choice, scan_mode_label, yes_no,
};

fn listed(path: &str, size: u64) -> CandidateFile {
    CandidateFile { path: path.as_bytes().to_vec(), size }
}

fn options() -> Options {
    Options {
        root_path: b"/data".to_vec(),
        recursive: true,
        min_size: 1024,
        force_dotdirs: false,
        allow_protected: false,
        delete: false,
        trash: false,
        excludes: Vec::new(),
        protected_paths: vec![b"/srv".to_vec()],
        prefer_paths: Vec::new(),
        keep_policy: KeepPolicy::Default,
        quarantine_path: None,
        report_path: None,
        interactive: false,
        use_colors: false,
    }
}

#[test]
fn durations() {
    assert_eq!(format_duration(0), "0s");
    assert_eq!(format_duration(59), "59s");
    assert_eq!(format_duration(60), "1m 00s");
    assert_eq!(format_duration(125), "2m 05s");
    assert_eq!(format_duration(3600), "1h 00m 00s");
    assert_eq!(format_duration(3 * 3600 + 7 * 60 + 9), "3h 07m 09s");
    assert_eq!(format_duration(100 * 3600 + 59 * 60 + 59), "100h 59m 59s");
}

#[test]
fn labels() {
    let mut o = options();
    assert_eq!(report_mode_label(&o), "report only");
    assert_eq!(report_action_label(&o), "Removable");
    o.trash = true;
    assert_eq!(scan_mode_label(&o), "trash");
    assert_eq!(report_action_label(&o), "To Trash");
    o.quarantine_path = Some(b"/q".to_vec());
    assert_eq!(report_mode_label(&o), "quarantine + trash");
    assert_eq!(report_action_label(&o), "To Quarantine");
    o.trash = false;
    o.delete = true;
    assert_eq!(report_mode_label(&o), "quarantine + permanent delete");
    o.delete = false;
    assert_eq!(report_mode_label(&o), "quarantine");
    o.quarantine_path = None;
    o.delete = true;
    assert_eq!(report_mode_label(&o), "permanent delete");
    assert_eq!(report_action_label(&o), "To Delete");
    assert_eq!(keep_policy_label(KeepPolicy::Default), "default");
    assert_eq!(keep_policy_label(KeepPolicy::HighestVersion), "highest version");
    assert_eq!(class_section_name(PathClass::Generated), "Generated");
    assert_eq!(class_label(PathClass::Protected), "protected");
    assert_eq!(yes_no(true), "yes");
    assert_eq!(yes_no(false), "no");
    assert_eq!(report_filename(1700000000), "nightkrawler-duplicates-1700000000.txt");
}

fn head() -> Vec<String> {
    vec![
        "Nightkrawler duplicate report",
        "",
        "Date: 2024-01-02 03:04:05",
        "OS: Linux-6.1",
        "Arch: x86_64",
        "Hostname: box",
        "Total scan: 1m 05s",
        "Scan root: /data",
        "Minimum size: 1.0K",
        "Recursive: yes",
        "Mode: report only",
        "Keep policy: default",
        "",
        "Exclude:",
        "    none",
        "",
        "Protect:",
        "    /srv",
        "",
    ]
    .into_iter()
    .map(String::from)
    .collect()
}

#[test]
fn report_without_duplicates() {
    let lines = duplicate_report_lines(&Vec::new(), &Vec::new(), &options(), "2024-01-02 03:04:05", "Linux-6.1", "x86_64", "box", 65, None);
    let mut expected = head();
    expected.push("No duplicate files found.".to_string());
    assert_eq!(lines, expected);
}

#[test]
fn report_lists_groups_by_class() {
    let groups = vec![
        DuplicateGroup { keep: listed("/data/a", 2048), remove: vec![listed("/data/b", 2048)] },
        DuplicateGroup { keep: listed("/srv/c", 10), remove: vec![listed("/data/d", 10), listed("/data/e", 10)] },
    ];
    let classes = vec![PathClass::Ordinary, PathClass::Protected];
    let lines = duplicate_report_lines(&groups, &classes, &options(), "2024-01-02 03:04:05", "Linux-6.1", "x86_64", "box", 65, None);
    let sep = "-".repeat(80);
    let mut expected = head();
    for l in [
        "Section: Protected", "", &sep, "", "Duplicate group 1", "  Class: protected", "  Size: 10B", "", "  To Keep:",
        "    /srv/c", "", "  Removable:", "    /data/d", "    /data/e", "", &sep, "", "Section: Ordinary", "", &sep, "",
        "Duplicate group 2", "  Class: ordinary", "  Size: 2.0K", "", "  To Keep:", "    /data/a", "", "  Removable:",
        "    /data/b", "", &sep, "", "Summary", "  Duplicate groups: 2", "  Files kept: 2", "  Files removable: 3",
        "  Reclaimable space: 2.0K",
    ] {
        expected.push(l.to_string());
    }
    assert_eq!(lines, expected);
}

#[test]
fn report_quarantine_section() {
    let groups = vec![DuplicateGroup { keep: listed("/data/a", 1), remove: vec![CandidateFile { path: b"/data/\xff".to_vec(), size: 1 }] }];
    let mut o = options();
    o.quarantine_path = Some(b"/q".to_vec());
    let lines = duplicate_report_lines(&groups, &vec![PathClass::Generated], &o, "d", "o", "a", "h", 0, Some(1));
    let n = lines.len();
    assert_eq!(lines[n - 4..].to_vec(), vec!["", "Quarantine", "  Files: 1", "  Location: /q"]);
    assert!(lines.contains(&"    /data/\u{fffd}".to_string()));
    assert!(lines.contains(&"  To Quarantine:".to_string()));
    let without = duplicate_report_lines(&groups, &vec![PathClass::Generated], &o, "d", "o", "a", "h", 0, None);
    assert_eq!(without.last().unwrap(), "  Reclaimable space: 1B");
}

#[test]
fn summaries_without_colours() {
    let groups = vec![DuplicateGroup { keep: listed("/a", 2048), remove: vec![listed("/b", 2048), listed("/c", 2048)] }];
    let lines = scan_summary_lines(&groups, false);
    assert_eq!(lines[0], "\u{2500}".repeat(88));
    assert_eq!(lines[1], "Scan summary");
    assert_eq!(lines[2], "  Duplicate groups: 1,  Files kept: 1,  Files removable: 2,  Reclaimable space: 4.0K");
    assert_eq!(lines[4], "");
    let d = delete_summary_lines(&DeleteSummary { kept: 1, deleted: 2, failed: 0, skipped: 0, deleted_space: 4096 }, false);
    assert_eq!(d[2], "  Kept: 1,  Deleted: 2,  Failed: 0,  Skipped: 0,  Deleted space: 4.0K");
    assert_eq!(d[5], "Delete completed");
    let t = trash_summary_lines(&TrashSummary { kept: 3, trashed: 1, failed: 1, skipped: 2, trashed_space: 5 }, false);
    assert_eq!(t[0], "\u{2500}".repeat(64));
    assert_eq!(t[2], "  Kept: 3,  Trashed: 1,  Failed: 1,  Skipped: 2,  Trashed space: 5B");
    assert_eq!(t.len(), 7);
    let r = restore_summary_lines(&RestoreSummary { restored: 4, failed: 0, skipped: 1, restored_space: 0 }, false);
    assert_eq!(r, vec!["Restore summary", "  Restored: 4,  Failed: 0,  Skipped: 1,  Restored space: 0B"]);
}

#[test]
fn summary_colours_follow_the_counts() {
    let r = restore_summary_lines(&RestoreSummary { restored: 0, failed: 2, skipped: 0, restored_space: 0 }, true);
    assert_eq!(
        r[1],
        "  \x1b[32mRestored\x1b[0m: \x1b[37m0\x1b[0m,  \x1b[32mFailed\x1b[0m: \x1b[1;31m2\x1b[0m,  \x1b[32mSkipped\x1b[0m: \x1b[37m0\x1b[0m,  \x1b[32mRestored space\x1b[0m: \x1b[1;97m0B\x1b[0m"
    );
}

#[test]
fn banner_and_other_messages() {
    let b = scan_banner_lines(&options());
    assert_eq!(b[0], "Nightkrawler scan");
    assert_eq!(b[1], "  Root:");
    assert_eq!(b[2], "    /data");
    assert_eq!(b[5], "    yes");
    assert_eq!(b[8], "    1.0K");
    assert_eq!(b[11], "    skipped");
    assert_eq!(b[14], "    report only");
    assert_eq!(b[16], "Scanning... this could take a while");
    assert_eq!(b.len(), 18);
    assert_eq!(no_duplicates_lines(false), vec!["Scan complete", "    No duplicate files found.", "", "  Full report:", "    Nothing to report"]);
    assert_eq!(report_path_lines(b"/r.txt", false), vec!["", "Full report:", "    /r.txt"]);
    let s = quarantine_safety_stop_lines("Trash", &QuarantineSummary { copied: 1, failed: 1, skipped: 0, records: Vec::new() }, false);
    assert_eq!(s[5], "    1");
    assert_eq!(s[10], "Trash refused.");
    assert_eq!(s.len(), 12);
    assert_eq!(protected_warning_lines("delete", 3, false)[0], "WARNING: --allow-protected permits delete on 3 protected candidate(s).");
    let p = protected_refusal_lines("trash", b"/etc/x", b"/etc", b"/", 1, false);
    assert_eq!(p.len(), 17);
    assert_eq!(p[3], "    trash");
    let p = protected_refusal_lines("trash", b"/etc/x", b"/etc", b"/", 4, false);
    assert_eq!(p.len(), 20);
    assert_eq!(p[15], "    4");
}

#[test]
fn no_room_refusal_lines() {
    let lines = no_room_lines(b"/mnt/q", 2048, 1000, false);
    assert_eq!(
        lines,
        vec![
            "nightkrawler: not enough free space for quarantine",
            "",
            "  Quarantine path:",
            "    /mnt/q",
            "",
            "  Required:",
            "    2.0K",
            "",
            "  Available:",
            "    1000B",
            "",
            "Nothing was copied.",
            "",
            "Choose a quarantine path on a drive with more free space.",
        ]
    );
    let colored_lines = no_room_lines(b"/mnt/q", 2048, 1000, true);
    assert_eq!(colored_lines.len(), 14);
    assert!(colored_lines[0].starts_with("\x1b["));
    assert!(colored_lines[3].contains("/mnt/q"));
}

#[test]
fn report_path_choices() {
    let name = b"nightkrawler-duplicates-5.txt";
    assert_eq!(report_path_choice(&None, false, b"/home/u", name), b"/home/u/nightkrawler-duplicates-5.txt".to_vec());
    assert_eq!(
        report_path_choice(&Some(b"/tmp/out".to_vec()), true, b"", name),
        b"/tmp/out/nightkrawler-duplicates-5.txt".to_vec()
    );
    assert_eq!(report_path_choice(&Some(b"/tmp/r.txt".to_vec()), false, b"", name), b"/tmp/r.txt".to_vec());
}

#[test]
fn interactive_confirmation_lines() {
    let d = confirmation_lines(b"/d/a.iso", 2048, RemovalMode::Delete);
    assert_eq!(d.len(), 4);
    assert_eq!(d[0], "\x1b[92mCandidate for deletion:\x1b[0m");
    assert!(d[1].contains("/d/a.iso"));
    assert!(d[2].contains("2.0K"));
    assert_eq!(d[3], "");
    let t = confirmation_lines(b"/d/a.iso", 10, RemovalMode::Trash);
    assert!(t[0].contains("Candidate for Trash:"));
    assert!(confirmation_question(RemovalMode::Delete).contains("Delete this file? [y/N] "));
    assert!(confirmation_question(RemovalMode::Trash).contains("Move this file to Trash? [y/N] "));
    assert_eq!(skipped_lines(b"/d/b", false), vec!["Skipped:", "  /d/b", ""]);
}
