use nightkrawler::args::{args_error_lines, expand_home_path, parse_arguments, parse_scan_arguments, ArgsError, ParseOutcome};
use nightkrawler::model::{Command, KeepPolicy, Options};
use nightkrawler::validation::{validate_scan_options, OptionsError};

fn argv(items: &[&str]) -> Vec<String> {
    items.iter().map(|s| s.to_string()).collect()
}

fn home() -> Option<Vec<u8>> {
    Some(b"/home/user".to_vec())
}

fn scan(items: &[&str]) -> Options {
    match parse_arguments(&argv(items), true, &home()) {
        ParseOutcome::Run(Command::Scan(o)) => o,
        other => panic!("expected a scan, got {:?}", other),
    }
}

fn refusal(items: &[&str]) -> ArgsError {
    match parse_arguments(&argv(items), true, &home()) {
        ParseOutcome::Invalid(e) => e,
        other => panic!("expected a refusal, got {:?}", other),
    }
}

#[test]
fn no_arguments_asks_for_usage() {
    assert!(matches!(parse_arguments(&argv(&[]), true, &home()), ParseOutcome::Usage { use_colors: true }));
}

#[test]
fn a_full_scan_command_line() {
    let o = scan(&[
        "~/Downloads", "-R", "--min-size", "100M", "-E", "~/Downloads/keep", "/tmp/x", "-P", "/srv", "-p", "~/DevX",
        "~/Documents", "-q", "~/nk-quarantine", "-t", "-i", "--keep-highest-version", "--force-dotdirs",
        "--allow-protected", "-r", "/tmp/report.txt", "--no-color",
    ]);
    assert_eq!(o.root_path, b"/home/user/Downloads".to_vec());
    assert!(o.recursive);
    assert_eq!(o.min_size, 100 * 1024 * 1024);
    assert_eq!(o.excludes, vec![b"/home/user/Downloads/keep".to_vec(), b"/tmp/x".to_vec()]);
    assert_eq!(o.protected_paths, vec![b"/srv".to_vec()]);
    assert_eq!(o.prefer_paths, vec![b"/home/user/DevX".to_vec(), b"/home/user/Documents".to_vec()]);
    assert_eq!(o.quarantine_path, Some(b"/home/user/nk-quarantine".to_vec()));
    assert_eq!(o.report_path, Some(b"/tmp/report.txt".to_vec()));
    assert!(o.trash && !o.delete && o.interactive && o.force_dotdirs && o.allow_protected);
    assert_eq!(o.keep_policy, KeepPolicy::HighestVersion);
    assert!(!o.use_colors);
}

#[test]
fn defaults_of_a_minimal_scan() {
    let o = scan(&["/data", "--min-size", "1"]);
    assert_eq!(o.root_path, b"/data".to_vec());
    assert!(!o.recursive && !o.trash && !o.delete && !o.interactive && !o.force_dotdirs && !o.allow_protected);
    assert_eq!(o.min_size, 1);
    assert_eq!(o.keep_policy, KeepPolicy::Default);
    assert!(o.excludes.is_empty() && o.protected_paths.is_empty() && o.prefer_paths.is_empty());
    assert_eq!(o.quarantine_path, None);
    assert!(o.use_colors);
}

#[test]
fn help_version_and_manuals_end_the_reading() {
    assert!(matches!(parse_arguments(&argv(&["-h"]), false, &home()), ParseOutcome::Help { use_colors: false }));
    assert!(matches!(parse_arguments(&argv(&["x", "--no-color", "--help"]), true, &home()), ParseOutcome::Help { use_colors: false }));
    assert!(matches!(parse_arguments(&argv(&["--version", "--bogus"]), true, &home()), ParseOutcome::Version));
    assert!(matches!(parse_arguments(&argv(&["--manual"]), true, &home()), ParseOutcome::Manual { use_colors: true }));
    assert!(matches!(
        parse_arguments(&argv(&["--classification-help"]), true, &home()),
        ParseOutcome::ClassificationHelp { use_colors: true }
    ));
}

#[test]
fn restore_and_cleanup_commands() {
    match parse_arguments(&argv(&["-u", "~/q"]), true, &home()) {
        ParseOutcome::Run(Command::Restore(p)) => assert_eq!(p, b"/home/user/q".to_vec()),
        other => panic!("{:?}", other),
    }
    match parse_arguments(&argv(&["--cleanup", "/q"]), true, &home()) {
        ParseOutcome::Run(Command::Cleanup(p)) => assert_eq!(p, b"/q".to_vec()),
        other => panic!("{:?}", other),
    }
    assert_eq!(refusal(&["--restore"]), ArgsError::RestoreNeedsPath);
    assert_eq!(refusal(&["--restore", "a", "b"]), ArgsError::RestoreTooManyPaths);
    assert_eq!(refusal(&["-c"]), ArgsError::CleanupNeedsPath);
    assert_eq!(refusal(&["-c", "a", "b"]), ArgsError::CleanupTooManyPaths);
}

#[test]
fn every_refusal_of_a_scan_command_line() {
    assert_eq!(refusal(&["/d", "--prefer"]), ArgsError::PreferNeedsPath);
    assert_eq!(refusal(&["/d", "--min-size"]), ArgsError::MinSizeNeedsValue);
    assert_eq!(refusal(&["/d", "--min-size", "lots"]), ArgsError::InvalidSize(2));
    assert_eq!(refusal(&["/d", "--min-size", "1", "-E"]), ArgsError::ExcludeNeedsPath);
    assert_eq!(refusal(&["/d", "--min-size", "1", "-P"]), ArgsError::ProtectNeedsPath);
    assert_eq!(refusal(&["/d", "--min-size", "1", "-q"]), ArgsError::QuarantineNeedsPath);
    assert_eq!(refusal(&["/d", "--min-size", "1", "-r"]), ArgsError::ReportNeedsPath);
    assert_eq!(refusal(&["/d", "--min-size", "1", "--frobnicate"]), ArgsError::UnknownOption(3));
    assert_eq!(refusal(&["/d", "/e", "--min-size", "1"]), ArgsError::MultipleScanPaths);
    assert_eq!(refusal(&["--min-size", "1"]), ArgsError::MissingScanPath);
    assert_eq!(refusal(&["/d"]), ArgsError::MissingMinSize);
    assert_eq!(refusal(&["/d", "--min-size", "1", "-t", "-d"]), ArgsError::Options(OptionsError::TrashAndDelete));
    assert_eq!(refusal(&["/d", "--min-size", "1", "-i"]), ArgsError::Options(OptionsError::InteractiveWithoutAction));
    assert_eq!(
        refusal(&["/d", "--min-size", "1", "--allow-protected"]),
        ArgsError::Options(OptionsError::AllowProtectedWithoutAction)
    );
}

#[test]
fn path_lists_stop_at_the_next_option() {
    let o = scan(&["/d", "--prefer", "-R", "--min-size", "1"]);
    assert!(o.prefer_paths.is_empty());
    assert!(o.recursive);
    let o = scan(&["/d", "-E", "a", "b", "--min-size", "1", "-E", "c"]);
    assert_eq!(o.excludes, vec![b"a".to_vec(), b"b".to_vec(), b"c".to_vec()]);
}

#[test]
fn accepted_options_are_consistent() {
    let o = scan(&["/d", "--min-size", "1", "-q", "/q", "--allow-protected"]);
    assert!(o.allow_protected && o.quarantine_path.is_some());
    assert!(!(o.trash && o.delete));
    assert!(validate_scan_options(&o).is_ok());
}

#[test]
fn home_expansion() {
    assert_eq!(expand_home_path("~", &home()), b"/home/user".to_vec());
    assert_eq!(expand_home_path("~/a/b", &home()), b"/home/user/a/b".to_vec());
    assert_eq!(expand_home_path("~other", &home()), b"~other".to_vec());
    assert_eq!(expand_home_path("~/a", &None), b"~/a".to_vec());
    assert_eq!(expand_home_path("~//abs", &home()), b"/abs".to_vec());
    assert_eq!(expand_home_path("~/x", &Some(b"/h/".to_vec())), b"/h/x".to_vec());
}

#[test]
fn refusal_messages() {
    let args = argv(&["/d", "--min-size", "lots"]);
    assert_eq!(args_error_lines(ArgsError::InvalidSize(2), &args), vec!["nightkrawler: invalid size 'lots'".to_string()]);
    assert_eq!(
        args_error_lines(ArgsError::MissingMinSize, &args),
        vec![
            "nightkrawler: --min-size is required".to_string(),
            "example: nk ~/Downloads --recursive --min-size 100M".to_string()
        ]
    );
    assert_eq!(
        args_error_lines(ArgsError::Options(OptionsError::TrashAndDelete), &args),
        vec!["nightkrawler: choose either --trash or --delete, not both".to_string()]
    );
}

#[test]
fn validation_messages() {
    let mut o = scan(&["/d", "--min-size", "1"]);
    o.interactive = true;
    assert_eq!(validate_scan_options(&o), Err("--interactive requires --trash or --delete".to_string()));
    o.interactive = false;
    o.allow_protected = true;
    assert_eq!(
        validate_scan_options(&o),
        Err("--allow-protected requires --quarantine, --trash, or --delete".to_string())
    );
}

#[test]
fn flags_follow_the_arguments_where_options_are_read() {
    let plain = scan(&["/d", "--min-size", "1"]);
    assert!(!plain.recursive && !plain.trash && !plain.delete && !plain.interactive && !plain.force_dotdirs);
    assert!(plain.use_colors);
    assert_eq!(plain.keep_policy, KeepPolicy::Default);
    let as_value = scan(&["/d", "--min-size", "1", "-q", "-R", "-r", "--no-color"]);
    assert!(!as_value.recursive);
    assert!(as_value.use_colors);
    assert_eq!(as_value.quarantine_path, Some(b"-R".to_vec()));
    assert_eq!(as_value.report_path, Some(b"--no-color".to_vec()));
    let given = scan(&["/d", "--min-size", "1", "-E", "/x", "-R", "--no-colours", "-d"]);
    assert!(given.recursive && given.delete && !given.trash);
    assert!(!given.use_colors);
    assert_eq!(given.excludes, vec![b"/x".to_vec()]);
}

#[test]
fn scan_arguments_alone() {
    match parse_scan_arguments(&argv(&["/d", "--min-size", "1K", "-R", "--no-colour"]), true, &home()) {
        ParseOutcome::Run(Command::Scan(o)) => {
            assert!(o.recursive);
            assert!(!o.use_colors);
            assert_eq!(o.min_size, 1024);
        },
        other => panic!("expected a scan, got {:?}", other),
    }
    assert!(matches!(
        parse_scan_arguments(&argv(&["/d", "-t", "-d", "--min-size", "1"]), true, &home()),
        ParseOutcome::Invalid(ArgsError::Options(OptionsError::TrashAndDelete))
    ));
}
