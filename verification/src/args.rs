//! The command line: a scan (`PATH --min-size SIZE [options]`), a restore
//! (`--restore PATH`) or a cleanup (`--cleanup PATH`), or a request for help.
use vstd::prelude::*;
use vstd::utf8::encode_utf8;
use crate::model::{Command, KeepPolicy, Options, OptionsView, opt_path_view, paths_view};
use crate::pathname::{join, join_path};
use crate::size::{parse_size_argument, size_value, text_equal};
use crate::text::{chars_of, push_str, string_from_chars};
use crate::validation::{OptionsError, options_error_message, options_error_text, options_problem, scan_options_problem};

verus! {

/// Why a command line is refused.
#[derive(Debug, Clone, Copy, PartialEq, Eq, Structural)]
pub enum ArgsError {
    PreferNeedsPath,
    MinSizeNeedsValue,
    /// The size at this argument index is not valid.
    InvalidSize(usize),
    ExcludeNeedsPath,
    ProtectNeedsPath,
    QuarantineNeedsPath,
    ReportNeedsPath,
    /// The argument at this index is an unknown option.
    UnknownOption(usize),
    MultipleScanPaths,
    MissingScanPath,
    MissingMinSize,
    Options(OptionsError),
    RestoreNeedsPath,
    RestoreTooManyPaths,
    CleanupNeedsPath,
    CleanupTooManyPaths,
}

/// A command, as a value.
pub enum CommandView {
    Scan(OptionsView),
    Restore(Seq<u8>),
    Cleanup(Seq<u8>),
}

impl View for Command {
    type V = CommandView;

    open spec fn view(&self) -> CommandView {
        match self {
            Command::Scan(o) => CommandView::Scan(o@),
            Command::Restore(p) => CommandView::Restore(p@),
            Command::Cleanup(p) => CommandView::Cleanup(p@),
        }
    }
}

/// What the command line asks for.
#[derive(Debug)]
pub enum ParseOutcome {
    /// Run a command.
    Run(Command),
    /// No arguments: show the help and fail.
    Usage { use_colors: bool },
    /// `--help`.
    Help { use_colors: bool },
    /// `--version`.
    Version,
    /// `--manual`.
    Manual { use_colors: bool },
    /// `--classification-help`.
    ClassificationHelp { use_colors: bool },
    /// A refused command line.
    Invalid(ArgsError),
}

/// What the command line asks for, as a value.
pub enum OutcomeView {
    Run(CommandView),
    Usage(bool),
    Help(bool),
    Version,
    Manual(bool),
    ClassificationHelp(bool),
    Invalid(ArgsError),
}

impl View for ParseOutcome {
    type V = OutcomeView;

    open spec fn view(&self) -> OutcomeView {
        match self {
            ParseOutcome::Run(c) => OutcomeView::Run(c@),
            ParseOutcome::Usage { use_colors } => OutcomeView::Usage(*use_colors),
            ParseOutcome::Help { use_colors } => OutcomeView::Help(*use_colors),
            ParseOutcome::Version => OutcomeView::Version,
            ParseOutcome::Manual { use_colors } => OutcomeView::Manual(*use_colors),
            ParseOutcome::ClassificationHelp { use_colors } => OutcomeView::ClassificationHelp(*use_colors),
            ParseOutcome::Invalid(e) => OutcomeView::Invalid(*e),
        }
    }
}

/// The path an argument names: `~` and a leading `~/` stand for the home
/// directory when it is known; otherwise the argument's own bytes.
pub open spec fn expand_home(value: Seq<char>, home: Option<Seq<u8>>) -> Seq<u8> {
    if value == "~"@ && home is Some {
        home->0
    } else if value.len() >= 2 && value[0] == '~' && value[1] == '/' && home is Some {
        join(home->0, encode_utf8(value.skip(2)))
    } else {
        encode_utf8(value)
    }
}

/// Whether an argument starts with `-`.
pub open spec fn is_option_like(a: Seq<char>) -> bool {
    a.len() > 0 && a[0] == '-'
}

/// The index of the first argument at or after `i` that starts with `-`,
/// or the number of arguments.
pub open spec fn paths_end(args: Seq<Seq<char>>, i: int) -> int
    decreases args.len() - i,
{
    if i >= args.len() {
        args.len() as int
    } else if is_option_like(args[i]) {
        i
    } else {
        paths_end(args, i + 1)
    }
}

pub proof fn lemma_paths_end(args: Seq<Seq<char>>, i: int)
    requires
        0 <= i <= args.len(),
    ensures
        i <= paths_end(args, i) <= args.len(),
    decreases args.len() - i,
{
    if i < args.len() && !is_option_like(args[i]) {
        lemma_paths_end(args, i + 1);
    }
}

/// The paths named by the arguments `from..to`.
pub open spec fn expanded(args: Seq<Seq<char>>, from: int, to: int, home: Option<Seq<u8>>) -> Seq<Seq<u8>> {
    args.subrange(from, to).map_values(|a: Seq<char>| expand_home(a, home))
}

/// The options of a scan as they are gathered from the arguments.
pub struct ScanState {
    pub root_path: Option<Seq<u8>>,
    pub recursive: bool,
    pub min_size: Option<u64>,
    pub force_dotdirs: bool,
    pub allow_protected: bool,
    pub trash: bool,
    pub delete: bool,
    pub excludes: Seq<Seq<u8>>,
    pub protected_paths: Seq<Seq<u8>>,
    pub prefer_paths: Seq<Seq<u8>>,
    pub keep_policy: KeepPolicy,
    pub quarantine_path: Option<Seq<u8>>,
    pub report_path: Option<Seq<u8>>,
    pub interactive: bool,
    pub use_colors: bool,
}

/// The state before the first argument.
pub open spec fn initial_state(use_colors: bool) -> ScanState {
    ScanState {
        root_path: None,
        recursive: false,
        min_size: None,
        force_dotdirs: false,
        allow_protected: false,
        trash: false,
        delete: false,
        excludes: seq![],
        protected_paths: seq![],
        prefer_paths: seq![],
        keep_policy: KeepPolicy::Default,
        quarantine_path: None,
        report_path: None,
        interactive: false,
        use_colors,
    }
}

/// How reading the scan arguments ends: with the gathered state, or early.
pub enum LoopEnd {
    Finished(ScanState),
    Exit(OutcomeView),
}

/// Reads the scan arguments from index `i` on, in state `st`.
pub open spec fn scan_loop(args: Seq<Seq<char>>, i: int, st: ScanState, home: Option<Seq<u8>>) -> LoopEnd
    decreases args.len() - i,
{
    if i < 0 || i >= args.len() {
        LoopEnd::Finished(st)
    } else {
        let a = args[i];
        if a == "-h"@ || a == "--help"@ {
            LoopEnd::Exit(OutcomeView::Help(st.use_colors))
        } else if a == "-v"@ || a == "--version"@ {
            LoopEnd::Exit(OutcomeView::Version)
        } else if a == "--manual"@ {
            LoopEnd::Exit(OutcomeView::Manual(st.use_colors))
        } else if a == "--classification-help"@ {
            LoopEnd::Exit(OutcomeView::ClassificationHelp(st.use_colors))
        } else if a == "--recursive"@ || a == "-R"@ {
            scan_loop(args, i + 1, ScanState { recursive: true, ..st }, home)
        } else if a == "--force-dotdirs"@ {
            scan_loop(args, i + 1, ScanState { force_dotdirs: true, ..st }, home)
        } else if a == "--allow-protected"@ {
            scan_loop(args, i + 1, ScanState { allow_protected: true, ..st }, home)
        } else if a == "--keep-highest-version"@ {
            scan_loop(args, i + 1, ScanState { keep_policy: KeepPolicy::HighestVersion, ..st }, home)
        } else if a == "--interactive"@ || a == "-i"@ {
            scan_loop(args, i + 1, ScanState { interactive: true, ..st }, home)
        } else if a == "--no-color"@ || a == "--no-colour"@ || a == "--no-colors"@ || a == "--no-colours"@ {
            scan_loop(args, i + 1, ScanState { use_colors: false, ..st }, home)
        } else if a == "--prefer"@ || a == "-p"@ {
            if i + 1 >= args.len() {
                LoopEnd::Exit(OutcomeView::Invalid(ArgsError::PreferNeedsPath))
            } else {
                proof {
                    lemma_paths_end(args, i + 1);
                }
                let e = paths_end(args, i + 1);
                scan_loop(
                    args,
                    e,
                    ScanState { prefer_paths: st.prefer_paths + expanded(args, i + 1, e, home), ..st },
                    home,
                )
            }
        } else if a == "--min-size"@ {
            if i + 1 >= args.len() {
                LoopEnd::Exit(OutcomeView::Invalid(ArgsError::MinSizeNeedsValue))
            } else {
                match size_value(args[i + 1]) {
                    None => LoopEnd::Exit(OutcomeView::Invalid(ArgsError::InvalidSize((i + 1) as usize))),
                    Some(v) => scan_loop(args, i + 2, ScanState { min_size: Some(v), ..st }, home),
                }
            }
        } else if a == "--exclude"@ || a == "-E"@ {
            if i + 1 >= args.len() {
                LoopEnd::Exit(OutcomeView::Invalid(ArgsError::ExcludeNeedsPath))
            } else {
                proof {
                    lemma_paths_end(args, i + 1);
                }
                let e = paths_end(args, i + 1);
                scan_loop(
                    args,
                    e,
                    ScanState { excludes: st.excludes + expanded(args, i + 1, e, home), ..st },
                    home,
                )
            }
        } else if a == "--protect"@ || a == "-P"@ {
            if i + 1 >= args.len() {
                LoopEnd::Exit(OutcomeView::Invalid(ArgsError::ProtectNeedsPath))
            } else {
                proof {
                    lemma_paths_end(args, i + 1);
                }
                let e = paths_end(args, i + 1);
                scan_loop(
                    args,
                    e,
                    ScanState { protected_paths: st.protected_paths + expanded(args, i + 1, e, home), ..st },
                    home,
                )
            }
        } else if a == "--trash"@ || a == "-t"@ {
            scan_loop(args, i + 1, ScanState { trash: true, ..st }, home)
        } else if a == "--delete"@ || a == "-d"@ {
            scan_loop(args, i + 1, ScanState { delete: true, ..st }, home)
        } else if a == "--quarantine"@ || a == "-q"@ {
            if i + 1 >= args.len() {
                LoopEnd::Exit(OutcomeView::Invalid(ArgsError::QuarantineNeedsPath))
            } else {
                scan_loop(
                    args,
                    i + 2,
                    ScanState { quarantine_path: Some(expand_home(args[i + 1], home)), ..st },
                    home,
                )
            }
        } else if a == "--report"@ || a == "-r"@ {
            if i + 1 >= args.len() {
                LoopEnd::Exit(OutcomeView::Invalid(ArgsError::ReportNeedsPath))
            } else {
                scan_loop(
                    args,
                    i + 2,
                    ScanState { report_path: Some(expand_home(args[i + 1], home)), ..st },
                    home,
                )
            }
        } else if is_option_like(a) {
            LoopEnd::Exit(OutcomeView::Invalid(ArgsError::UnknownOption(i as usize)))
        } else if st.root_path is Some {
            LoopEnd::Exit(OutcomeView::Invalid(ArgsError::MultipleScanPaths))
        } else {
            scan_loop(args, i + 1, ScanState { root_path: Some(expand_home(a, home)), ..st }, home)
        }
    }
}

/// A flag of a scan command line: an option that takes no value.
#[derive(Debug, Clone, Copy, PartialEq, Eq, Structural)]
pub enum ScanFlag {
    Recursive,
    ForceDotdirs,
    AllowProtected,
    KeepHighestVersion,
    Interactive,
    NoColor,
    Trash,
    Delete,
}

/// The flag that argument `a` spells, if it spells one; the spellings are
/// tried in the order in which a scan command line is read.
pub open spec fn flag_of(a: Seq<char>) -> Option<ScanFlag> {
    if a == "-h"@ || a == "--help"@ || a == "-v"@ || a == "--version"@ || a == "--manual"@ || a
        == "--classification-help"@ {
        None
    } else if a == "--recursive"@ || a == "-R"@ {
        Some(ScanFlag::Recursive)
    } else if a == "--force-dotdirs"@ {
        Some(ScanFlag::ForceDotdirs)
    } else if a == "--allow-protected"@ {
        Some(ScanFlag::AllowProtected)
    } else if a == "--keep-highest-version"@ {
        Some(ScanFlag::KeepHighestVersion)
    } else if a == "--interactive"@ || a == "-i"@ {
        Some(ScanFlag::Interactive)
    } else if a == "--no-color"@ || a == "--no-colour"@ || a == "--no-colors"@ || a == "--no-colours"@ {
        Some(ScanFlag::NoColor)
    } else if a == "--prefer"@ || a == "-p"@ || a == "--min-size"@ || a == "--exclude"@ || a == "-E"@ || a
        == "--protect"@ || a == "-P"@ {
        None
    } else if a == "--trash"@ || a == "-t"@ {
        Some(ScanFlag::Trash)
    } else if a == "--delete"@ || a == "-d"@ {
        Some(ScanFlag::Delete)
    } else {
        None
    }
}

/// Whether argument `a` is one of the spellings of flag `f`.
pub open spec fn flag_matches(f: ScanFlag, a: Seq<char>) -> bool {
    flag_of(a) == Some(f)
}

/// The index of the argument read after the one at `i`: past the paths of
/// `--prefer`, `--exclude` and `--protect`, and past the value of
/// `--min-size`, `--quarantine` and `--report`.
pub open spec fn next_argument(args: Seq<Seq<char>>, i: int) -> int {
    let a = args[i];
    if flag_of(a) is Some || i + 1 >= args.len() {
        i + 1
    } else if a == "--prefer"@ || a == "-p"@ {
        paths_end(args, i + 1)
    } else if a == "--min-size"@ {
        i + 2
    } else if a == "--exclude"@ || a == "-E"@ || a == "--protect"@ || a == "-P"@ {
        paths_end(args, i + 1)
    } else if a == "--quarantine"@ || a == "-q"@ || a == "--report"@ || a == "-r"@ {
        i + 2
    } else {
        i + 1
    }
}

/// Whether flag `f` is given among the arguments from index `i` on, at a
/// place where an option is read (not as the value or a path of another
/// option).
pub open spec fn flag_given(args: Seq<Seq<char>>, i: int, f: ScanFlag) -> bool
    decreases args.len() - i,
{
    if i < 0 || i >= args.len() {
        false
    } else {
        proof {
            lemma_paths_end(args, i + 1);
            assert(next_argument(args, i) > i);
        }
        flag_matches(f, args[i]) || flag_given(args, next_argument(args, i), f)
    }
}

/// Whether a gathered scan state has flag `f` set (for `NoColor`: colours
/// are off).
pub open spec fn flag_set(st: ScanState, f: ScanFlag) -> bool {
    match f {
        ScanFlag::Recursive => st.recursive,
        ScanFlag::ForceDotdirs => st.force_dotdirs,
        ScanFlag::AllowProtected => st.allow_protected,
        ScanFlag::KeepHighestVersion => st.keep_policy == KeepPolicy::HighestVersion,
        ScanFlag::Interactive => st.interactive,
        ScanFlag::NoColor => !st.use_colors,
        ScanFlag::Trash => st.trash,
        ScanFlag::Delete => st.delete,
    }
}

/// The options of a finished scan state that has a root and a minimum size.
pub open spec fn options_of(st: ScanState) -> OptionsView {
    OptionsView {
        root_path: st.root_path->0,
        recursive: st.recursive,
        min_size: st.min_size->0,
        force_dotdirs: st.force_dotdirs,
        allow_protected: st.allow_protected,
        delete: st.delete,
        trash: st.trash,
        excludes: st.excludes,
        protected_paths: st.protected_paths,
        prefer_paths: st.prefer_paths,
        keep_policy: st.keep_policy,
        quarantine_path: st.quarantine_path,
        report_path: st.report_path,
        interactive: st.interactive,
        use_colors: st.use_colors,
    }
}

/// What a scan command line asks for.
pub open spec fn scan_outcome(args: Seq<Seq<char>>, use_colors: bool, home: Option<Seq<u8>>) -> OutcomeView {
    match scan_loop(args, 0, initial_state(use_colors), home) {
        LoopEnd::Exit(e) => e,
        LoopEnd::Finished(st) => if st.root_path is None {
            OutcomeView::Invalid(ArgsError::MissingScanPath)
        } else if st.min_size is None {
            OutcomeView::Invalid(ArgsError::MissingMinSize)
        } else {
            match options_problem(options_of(st)) {
                Some(e) => OutcomeView::Invalid(ArgsError::Options(e)),
                None => OutcomeView::Run(CommandView::Scan(options_of(st))),
            }
        },
    }
}

/// What a command line asks for. `use_colors` is whether colours are on
/// before any option (standard output is a terminal and `NO_COLOR` is not
/// set) and `home` the home directory when it is known.
pub open spec fn parse_outcome(args: Seq<Seq<char>>, use_colors: bool, home: Option<Seq<u8>>) -> OutcomeView {
    if args.len() == 0 {
        OutcomeView::Usage(use_colors)
    } else if args[0] == "--restore"@ || args[0] == "-u"@ {
        if args.len() < 2 {
            OutcomeView::Invalid(ArgsError::RestoreNeedsPath)
        } else if args.len() > 2 {
            OutcomeView::Invalid(ArgsError::RestoreTooManyPaths)
        } else {
            OutcomeView::Run(CommandView::Restore(expand_home(args[1], home)))
        }
    } else if args[0] == "--cleanup"@ || args[0] == "-c"@ {
        if args.len() < 2 {
            OutcomeView::Invalid(ArgsError::CleanupNeedsPath)
        } else if args.len() > 2 {
            OutcomeView::Invalid(ArgsError::CleanupTooManyPaths)
        } else {
            OutcomeView::Run(CommandView::Cleanup(expand_home(args[1], home)))
        }
    } else {
        scan_outcome(args, use_colors, home)
    }
}

/// The texts of the arguments.
pub open spec fn args_view(args: Seq<String>) -> Seq<Seq<char>> {
    args.map_values(|a: String| a@)
}

/// The value of an optional home directory.
pub open spec fn home_view(home: Option<Vec<u8>>) -> Option<Seq<u8>> {
    opt_path_view(home)
}

/// The options of a scan as they are gathered.
struct ScanDraft {
    root_path: Option<Vec<u8>>,
    recursive: bool,
    min_size: Option<u64>,
    force_dotdirs: bool,
    allow_protected: bool,
    trash: bool,
    delete: bool,
    excludes: Vec<Vec<u8>>,
    protected_paths: Vec<Vec<u8>>,
    prefer_paths: Vec<Vec<u8>>,
    keep_policy: KeepPolicy,
    quarantine_path: Option<Vec<u8>>,
    report_path: Option<Vec<u8>>,
    interactive: bool,
    use_colors: bool,
}

impl View for ScanDraft {
    type V = ScanState;

    closed spec fn view(&self) -> ScanState {
        ScanState {
            root_path: opt_path_view(self.root_path),
            recursive: self.recursive,
            min_size: self.min_size,
            force_dotdirs: self.force_dotdirs,
            allow_protected: self.allow_protected,
            trash: self.trash,
            delete: self.delete,
            excludes: paths_view(self.excludes@),
            protected_paths: paths_view(self.protected_paths@),
            prefer_paths: paths_view(self.prefer_paths@),
            keep_policy: self.keep_policy,
            quarantine_path: opt_path_view(self.quarantine_path),
            report_path: opt_path_view(self.report_path),
            interactive: self.interactive,
            use_colors: self.use_colors,
        }
    }
}

/// Whether an argument starts with `-`.
fn starts_with_dash(a: &str) -> (r: bool)
    ensures
        r == is_option_like(a@),
{
    let cs = chars_of(a);
    cs.len() > 0 && cs[0] == '-'
}

/// The path an argument names (see `expand_home`).
pub fn expand_home_path(value: &str, home: &Option<Vec<u8>>) -> (r: Vec<u8>)
    ensures
        r@ == expand_home(value@, home_view(*home)),
{
    if text_equal(value, "~") {
        if let Some(h) = home {
            let r = h.clone();
            assert(r@ =~= h@);
            return r;
        }
    }
    let cs = chars_of(value);
    if cs.len() >= 2 && cs[0] == '~' && cs[1] == '/' {
        if let Some(h) = home {
            let n = value.unicode_len();
            let rest = value.substring_char(2, n);
            assert(rest@ =~= value@.skip(2));
            let rest_bytes = rest.as_bytes_vec();
            return join_path(h.as_slice(), rest_bytes.as_slice());
        }
    }
    value.as_bytes_vec()
}

/// Appends the paths named by the arguments from `index` up to the next one
/// that starts with `-`; returns that index.
fn push_paths(args: &Vec<String>, index: usize, home: &Option<Vec<u8>>, out: &mut Vec<Vec<u8>>) -> (end: usize)
    requires
        index <= args@.len(),
    ensures
        index <= end <= args@.len(),
        end as int == paths_end(args_view(args@), index as int),
        paths_view(final(out)@) == paths_view(old(out)@) + expanded(
            args_view(args@),
            index as int,
            end as int,
            home_view(*home),
        ),
{
    let ghost av = args_view(args@);
    let ghost hv = home_view(*home);
    let ghost before = paths_view(out@);
    let mut i = index;
    proof {
        assert(expanded(av, index as int, index as int, hv) =~= Seq::<Seq<u8>>::empty());
        assert(before + Seq::<Seq<u8>>::empty() =~= before);
    }
    while i < args.len() && !starts_with_dash(args[i].as_str())
        invariant
            index <= i <= args@.len(),
            av == args_view(args@),
            hv == home_view(*home),
            av.len() == args@.len(),
            paths_end(av, index as int) == paths_end(av, i as int),
            out@.len() == before.len() + (i - index),
            paths_view(out@) == before + expanded(av, index as int, i as int, hv),
        decreases args@.len() - i,
    {
        assert(av[i as int] == args@[i as int]@);
        let p = expand_home_path(args[i].as_str(), home);
        let ghost prev = out@;
        out.push(p);
        proof {
            assert(out@ == prev.push(p));
            let e0 = expanded(av, index as int, i as int, hv);
            let e1 = expanded(av, index as int, i + 1, hv);
            assert(e1 =~= e0.push(expand_home(av[i as int], hv)));
            assert(p@ == expand_home(av[i as int], hv));
            assert(paths_view(out@) =~= paths_view(prev).push(p@));
            assert(before + e1 =~= (before + e0).push(p@));
        }
        i = i + 1;
    }
    assert(i < args@.len() ==> is_option_like(av[i as int]));
    i
}

/// Reads the scan argument at `index`: the index of the next argument to
/// read, or how reading ends.
#[verifier::spinoff_prover]
#[verifier::rlimit(50)]
fn scan_step(args: &Vec<String>, index: usize, home: &Option<Vec<u8>>, d: &mut ScanDraft) -> (r: Result<usize, ParseOutcome>)
    requires
        index < args@.len(),
    ensures
        match r {
            Ok(next) => index < next <= args@.len() && scan_loop(args_view(args@), index as int, old(d)@, home_view(*home))
                == scan_loop(args_view(args@), next as int, final(d)@, home_view(*home)),
            Err(o) => scan_loop(args_view(args@), index as int, old(d)@, home_view(*home)) == LoopEnd::Exit(o@),
        },
{
    let ghost av = args_view(args@);
    let n = args.len();
    let a = args[index].as_str();
    assert(a@ == av[index as int]);
    if text_equal(a, "-h") || text_equal(a, "--help") {
        return Err(ParseOutcome::Help { use_colors: d.use_colors });
    } else if text_equal(a, "-v") || text_equal(a, "--version") {
        return Err(ParseOutcome::Version);
    } else if text_equal(a, "--manual") {
        return Err(ParseOutcome::Manual { use_colors: d.use_colors });
    } else if text_equal(a, "--classification-help") {
        return Err(ParseOutcome::ClassificationHelp { use_colors: d.use_colors });
    } else if text_equal(a, "--recursive") || text_equal(a, "-R") {
        d.recursive = true;
        return Ok(index + 1);
    } else if text_equal(a, "--force-dotdirs") {
        d.force_dotdirs = true;
        return Ok(index + 1);
    } else if text_equal(a, "--allow-protected") {
        d.allow_protected = true;
        return Ok(index + 1);
    } else if text_equal(a, "--keep-highest-version") {
        d.keep_policy = KeepPolicy::HighestVersion;
        return Ok(index + 1);
    } else if text_equal(a, "--interactive") || text_equal(a, "-i") {
        d.interactive = true;
        return Ok(index + 1);
    } else if text_equal(a, "--no-color") || text_equal(a, "--no-colour") || text_equal(a, "--no-colors")
        || text_equal(a, "--no-colours") {
        d.use_colors = false;
        return Ok(index + 1);
    } else if text_equal(a, "--prefer") || text_equal(a, "-p") {
        if index + 1 >= n {
            return Err(ParseOutcome::Invalid(ArgsError::PreferNeedsPath));
        }
        let end = push_paths(args, index + 1, home, &mut d.prefer_paths);
        return Ok(end);
    } else if text_equal(a, "--min-size") {
        if index + 1 >= n {
            return Err(ParseOutcome::Invalid(ArgsError::MinSizeNeedsValue));
        }
        assert(args@[index + 1]@ == av[index + 1]);
        match parse_size_argument(args[index + 1].as_str()) {
            None => {
                return Err(ParseOutcome::Invalid(ArgsError::InvalidSize(index + 1)));
            },
            Some(size) => {
                d.min_size = Some(size);
                return Ok(index + 2);
            },
        }
    } else if text_equal(a, "--exclude") || text_equal(a, "-E") {
        if index + 1 >= n {
            return Err(ParseOutcome::Invalid(ArgsError::ExcludeNeedsPath));
        }
        let end = push_paths(args, index + 1, home, &mut d.excludes);
        return Ok(end);
    } else if text_equal(a, "--protect") || text_equal(a, "-P") {
        if index + 1 >= n {
            return Err(ParseOutcome::Invalid(ArgsError::ProtectNeedsPath));
        }
        let end = push_paths(args, index + 1, home, &mut d.protected_paths);
        return Ok(end);
    } else if text_equal(a, "--trash") || text_equal(a, "-t") {
        d.trash = true;
        return Ok(index + 1);
    } else if text_equal(a, "--delete") || text_equal(a, "-d") {
        d.delete = true;
        return Ok(index + 1);
    } else if text_equal(a, "--quarantine") || text_equal(a, "-q") {
        if index + 1 >= n {
            return Err(ParseOutcome::Invalid(ArgsError::QuarantineNeedsPath));
        }
        assert(args@[index + 1]@ == av[index + 1]);
        d.quarantine_path = Some(expand_home_path(args[index + 1].as_str(), home));
        return Ok(index + 2);
    } else if text_equal(a, "--report") || text_equal(a, "-r") {
        if index + 1 >= n {
            return Err(ParseOutcome::Invalid(ArgsError::ReportNeedsPath));
        }
        assert(args@[index + 1]@ == av[index + 1]);
        d.report_path = Some(expand_home_path(args[index + 1].as_str(), home));
        return Ok(index + 2);
    } else if starts_with_dash(a) {
        return Err(ParseOutcome::Invalid(ArgsError::UnknownOption(index)));
    } else if d.root_path.is_some() {
        return Err(ParseOutcome::Invalid(ArgsError::MultipleScanPaths));
    } else {
        d.root_path = Some(expand_home_path(a, home));
        return Ok(index + 1);
    }
}

/// Reading the scan arguments never ends early with a command to run.
pub proof fn lemma_scan_loop_runs_nothing(args: Seq<Seq<char>>, i: int, st: ScanState, home: Option<Seq<u8>>)
    ensures
        match scan_loop(args, i, st, home) {
            LoopEnd::Exit(e) => !(e is Run),
            LoopEnd::Finished(_) => true,
        },
    decreases args.len() - i,
{
    if 0 <= i < args.len() {
        let a = args[i];
        if a == "-h"@ || a == "--help"@ || a == "-v"@ || a == "--version"@ || a == "--manual"@ || a
            == "--classification-help"@ {
        } else if a == "--recursive"@ || a == "-R"@ {
            lemma_scan_loop_runs_nothing(args, i + 1, ScanState { recursive: true, ..st }, home);
        } else if a == "--force-dotdirs"@ {
            lemma_scan_loop_runs_nothing(args, i + 1, ScanState { force_dotdirs: true, ..st }, home);
        } else if a == "--allow-protected"@ {
            lemma_scan_loop_runs_nothing(args, i + 1, ScanState { allow_protected: true, ..st }, home);
        } else if a == "--keep-highest-version"@ {
            lemma_scan_loop_runs_nothing(args, i + 1, ScanState { keep_policy: KeepPolicy::HighestVersion, ..st }, home);
        } else if a == "--interactive"@ || a == "-i"@ {
            lemma_scan_loop_runs_nothing(args, i + 1, ScanState { interactive: true, ..st }, home);
        } else if a == "--no-color"@ || a == "--no-colour"@ || a == "--no-colors"@ || a == "--no-colours"@ {
            lemma_scan_loop_runs_nothing(args, i + 1, ScanState { use_colors: false, ..st }, home);
        } else if a == "--prefer"@ || a == "-p"@ {
            if i + 1 < args.len() {
                lemma_paths_end(args, i + 1);
                let e = paths_end(args, i + 1);
                lemma_scan_loop_runs_nothing(
                    args,
                    e,
                    ScanState { prefer_paths: st.prefer_paths + expanded(args, i + 1, e, home), ..st },
                    home,
                );
            }
        } else if a == "--min-size"@ {
            if i + 1 < args.len() {
                match size_value(args[i + 1]) {
                    None => {},
                    Some(v) => lemma_scan_loop_runs_nothing(args, i + 2, ScanState { min_size: Some(v), ..st }, home),
                }
            }
        } else if a == "--exclude"@ || a == "-E"@ {
            if i + 1 < args.len() {
                lemma_paths_end(args, i + 1);
                let e = paths_end(args, i + 1);
                lemma_scan_loop_runs_nothing(
                    args,
                    e,
                    ScanState { excludes: st.excludes + expanded(args, i + 1, e, home), ..st },
                    home,
                );
            }
        } else if a == "--protect"@ || a == "-P"@ {
            if i + 1 < args.len() {
                lemma_paths_end(args, i + 1);
                let e = paths_end(args, i + 1);
                lemma_scan_loop_runs_nothing(
                    args,
                    e,
                    ScanState { protected_paths: st.protected_paths + expanded(args, i + 1, e, home), ..st },
                    home,
                );
            }
        } else if a == "--trash"@ || a == "-t"@ {
            lemma_scan_loop_runs_nothing(args, i + 1, ScanState { trash: true, ..st }, home);
        } else if a == "--delete"@ || a == "-d"@ {
            lemma_scan_loop_runs_nothing(args, i + 1, ScanState { delete: true, ..st }, home);
        } else if a == "--quarantine"@ || a == "-q"@ {
            if i + 1 < args.len() {
                lemma_scan_loop_runs_nothing(
                    args,
                    i + 2,
                    ScanState { quarantine_path: Some(expand_home(args[i + 1], home)), ..st },
                    home,
                );
            }
        } else if a == "--report"@ || a == "-r"@ {
            if i + 1 < args.len() {
                lemma_scan_loop_runs_nothing(
                    args,
                    i + 2,
                    ScanState { report_path: Some(expand_home(args[i + 1], home)), ..st },
                    home,
                );
            }
        } else if is_option_like(a) {
        } else if st.root_path is Some {
        } else {
            lemma_scan_loop_runs_nothing(args, i + 1, ScanState { root_path: Some(expand_home(a, home)), ..st }, home);
        }
    }
}

/// Reading the arguments from `i` on sets flag `f` exactly when it was set
/// before or is given from `i` on.
#[verifier::spinoff_prover]
#[verifier::rlimit(100)]
pub proof fn lemma_flags_follow_arguments(args: Seq<Seq<char>>, i: int, st: ScanState, home: Option<Seq<u8>>, f: ScanFlag)
    ensures
        match scan_loop(args, i, st, home) {
            LoopEnd::Exit(_) => true,
            LoopEnd::Finished(end) => flag_set(end, f) == (flag_set(st, f) || flag_given(args, i, f)),
        },
    decreases args.len() - i,
{
    if 0 <= i < args.len() {
        let a = args[i];
        lemma_paths_end(args, i + 1);
        if a == "-h"@ || a == "--help"@ || a == "-v"@ || a == "--version"@ || a == "--manual"@ || a
            == "--classification-help"@ {
        } else if a == "--recursive"@ || a == "-R"@ {
            lemma_flags_follow_arguments(args, i + 1, ScanState { recursive: true, ..st }, home, f);
        } else if a == "--force-dotdirs"@ {
            lemma_flags_follow_arguments(args, i + 1, ScanState { force_dotdirs: true, ..st }, home, f);
        } else if a == "--allow-protected"@ {
            lemma_flags_follow_arguments(args, i + 1, ScanState { allow_protected: true, ..st }, home, f);
        } else if a == "--keep-highest-version"@ {
            lemma_flags_follow_arguments(
                args,
                i + 1,
                ScanState { keep_policy: KeepPolicy::HighestVersion, ..st },
                home,
                f,
            );
        } else if a == "--interactive"@ || a == "-i"@ {
            lemma_flags_follow_arguments(args, i + 1, ScanState { interactive: true, ..st }, home, f);
        } else if a == "--no-color"@ || a == "--no-colour"@ || a == "--no-colors"@ || a == "--no-colours"@ {
            lemma_flags_follow_arguments(args, i + 1, ScanState { use_colors: false, ..st }, home, f);
        } else if a == "--prefer"@ || a == "-p"@ {
            if i + 1 < args.len() {
                let e = paths_end(args, i + 1);
                lemma_flags_follow_arguments(
                    args,
                    e,
                    ScanState { prefer_paths: st.prefer_paths + expanded(args, i + 1, e, home), ..st },
                    home,
                    f,
                );
            }
        } else if a == "--min-size"@ {
            if i + 1 < args.len() {
                match size_value(args[i + 1]) {
                    None => {},
                    Some(v) => lemma_flags_follow_arguments(args, i + 2, ScanState { min_size: Some(v), ..st }, home, f),
                }
            }
        } else if a == "--exclude"@ || a == "-E"@ {
            if i + 1 < args.len() {
                let e = paths_end(args, i + 1);
                lemma_flags_follow_arguments(
                    args,
                    e,
                    ScanState { excludes: st.excludes + expanded(args, i + 1, e, home), ..st },
                    home,
                    f,
                );
            }
        } else if a == "--protect"@ || a == "-P"@ {
            if i + 1 < args.len() {
                let e = paths_end(args, i + 1);
                lemma_flags_follow_arguments(
                    args,
                    e,
                    ScanState { protected_paths: st.protected_paths + expanded(args, i + 1, e, home), ..st },
                    home,
                    f,
                );
            }
        } else if a == "--trash"@ || a == "-t"@ {
            lemma_flags_follow_arguments(args, i + 1, ScanState { trash: true, ..st }, home, f);
        } else if a == "--delete"@ || a == "-d"@ {
            lemma_flags_follow_arguments(args, i + 1, ScanState { delete: true, ..st }, home, f);
        } else if a == "--quarantine"@ || a == "-q"@ {
            if i + 1 < args.len() {
                lemma_flags_follow_arguments(
                    args,
                    i + 2,
                    ScanState { quarantine_path: Some(expand_home(args[i + 1], home)), ..st },
                    home,
                    f,
                );
            }
        } else if a == "--report"@ || a == "-r"@ {
            if i + 1 < args.len() {
                lemma_flags_follow_arguments(
                    args,
                    i + 2,
                    ScanState { report_path: Some(expand_home(args[i + 1], home)), ..st },
                    home,
                    f,
                );
            }
        } else if is_option_like(a) {
        } else if st.root_path is Some {
        } else {
            lemma_flags_follow_arguments(
                args,
                i + 1,
                ScanState { root_path: Some(expand_home(a, home)), ..st },
                home,
                f,
            );
        }
    }
}

/// An option of a scan command line that takes one value.
#[derive(Debug, Clone, Copy, PartialEq, Eq, Structural)]
pub enum ValueOption {
    MinSize,
    Quarantine,
    Report,
}

/// The option with a value that argument `a` spells, if it spells one:
/// `--min-size`, `--quarantine` or `-q`, `--report` or `-r`. (The spellings
/// are tried in the order in which a scan command line is read.)
pub open spec fn value_option_of(a: Seq<char>) -> Option<ValueOption> {
    if flag_of(a) is Some {
        None
    } else if a == "--prefer"@ || a == "-p"@ {
        None
    } else if a == "--min-size"@ {
        Some(ValueOption::MinSize)
    } else if a == "--exclude"@ || a == "-E"@ || a == "--protect"@ || a == "-P"@ {
        None
    } else if a == "--quarantine"@ || a == "-q"@ {
        Some(ValueOption::Quarantine)
    } else if a == "--report"@ || a == "-r"@ {
        Some(ValueOption::Report)
    } else {
        None
    }
}

/// The last value given for option `v` from argument `i` on, where an
/// option is read: the argument after its spelling.
pub open spec fn value_given(args: Seq<Seq<char>>, i: int, v: ValueOption) -> Option<Seq<char>>
    decreases args.len() - i,
{
    if i < 0 || i >= args.len() {
        None
    } else {
        proof {
            lemma_paths_end(args, i + 1);
            assert(next_argument(args, i) > i);
        }
        let rest = value_given(args, next_argument(args, i), v);
        if value_option_of(args[i]) == Some(v) && i + 1 < args.len() && rest is None {
            Some(args[i + 1])
        } else {
            rest
        }
    }
}

/// The first argument from `i` on, where an option is read, that is no
/// option and does not start with `-`: the path to scan.
pub open spec fn root_given(args: Seq<Seq<char>>, i: int) -> Option<Seq<char>>
    decreases args.len() - i,
{
    if i < 0 || i >= args.len() {
        None
    } else {
        proof {
            lemma_paths_end(args, i + 1);
            assert(next_argument(args, i) > i);
        }
        let a = args[i];
        if flag_of(a) is None && value_option_of(a) is None && path_list_of(a) is None && !is_option_like(a) {
            Some(a)
        } else {
            root_given(args, next_argument(args, i))
        }
    }
}

/// Reading the arguments from `i` on sets the minimum size, the quarantine
/// path and the report path from the last value given for each, and the
/// scan path from the argument given for it.
#[verifier::spinoff_prover]
#[verifier::rlimit(100)]
pub proof fn lemma_values_follow_arguments(args: Seq<Seq<char>>, i: int, st: ScanState, home: Option<Seq<u8>>)
    ensures
        match scan_loop(args, i, st, home) {
            LoopEnd::Exit(_) => true,
            LoopEnd::Finished(end) => {
                &&& end.min_size == match value_given(args, i, ValueOption::MinSize) {
                    Some(t) => size_value(t),
                    None => st.min_size,
                }
                &&& end.quarantine_path == match value_given(args, i, ValueOption::Quarantine) {
                    Some(t) => Some(expand_home(t, home)),
                    None => st.quarantine_path,
                }
                &&& end.report_path == match value_given(args, i, ValueOption::Report) {
                    Some(t) => Some(expand_home(t, home)),
                    None => st.report_path,
                }
                &&& end.root_path == match root_given(args, i) {
                    Some(t) => Some(expand_home(t, home)),
                    None => st.root_path,
                }
                &&& st.root_path is Some ==> root_given(args, i) is None
            },
        },
    decreases args.len() - i,
{
    if 0 <= i < args.len() {
        let a = args[i];
        lemma_paths_end(args, i + 1);
        if a == "-h"@ || a == "--help"@ || a == "-v"@ || a == "--version"@ || a == "--manual"@ || a
            == "--classification-help"@ {
        } else if a == "--recursive"@ || a == "-R"@ {
            lemma_values_follow_arguments(args, i + 1, ScanState { recursive: true, ..st }, home);
        } else if a == "--force-dotdirs"@ {
            lemma_values_follow_arguments(args, i + 1, ScanState { force_dotdirs: true, ..st }, home);
        } else if a == "--allow-protected"@ {
            lemma_values_follow_arguments(args, i + 1, ScanState { allow_protected: true, ..st }, home);
        } else if a == "--keep-highest-version"@ {
            lemma_values_follow_arguments(
                args,
                i + 1,
                ScanState { keep_policy: KeepPolicy::HighestVersion, ..st },
                home,
            );
        } else if a == "--interactive"@ || a == "-i"@ {
            lemma_values_follow_arguments(args, i + 1, ScanState { interactive: true, ..st }, home);
        } else if a == "--no-color"@ || a == "--no-colour"@ || a == "--no-colors"@ || a == "--no-colours"@ {
            lemma_values_follow_arguments(args, i + 1, ScanState { use_colors: false, ..st }, home);
        } else if a == "--prefer"@ || a == "-p"@ {
            if i + 1 < args.len() {
                let e = paths_end(args, i + 1);
                lemma_values_follow_arguments(
                    args,
                    e,
                    ScanState { prefer_paths: st.prefer_paths + expanded(args, i + 1, e, home), ..st },
                    home,
                );
            }
        } else if a == "--min-size"@ {
            if i + 1 < args.len() {
                match size_value(args[i + 1]) {
                    None => {},
                    Some(v) => lemma_values_follow_arguments(args, i + 2, ScanState { min_size: Some(v), ..st }, home),
                }
            }
        } else if a == "--exclude"@ || a == "-E"@ {
            if i + 1 < args.len() {
                let e = paths_end(args, i + 1);
                lemma_values_follow_arguments(
                    args,
                    e,
                    ScanState { excludes: st.excludes + expanded(args, i + 1, e, home), ..st },
                    home,
                );
            }
        } else if a == "--protect"@ || a == "-P"@ {
            if i + 1 < args.len() {
                let e = paths_end(args, i + 1);
                lemma_values_follow_arguments(
                    args,
                    e,
                    ScanState { protected_paths: st.protected_paths + expanded(args, i + 1, e, home), ..st },
                    home,
                );
            }
        } else if a == "--trash"@ || a == "-t"@ {
            lemma_values_follow_arguments(args, i + 1, ScanState { trash: true, ..st }, home);
        } else if a == "--delete"@ || a == "-d"@ {
            lemma_values_follow_arguments(args, i + 1, ScanState { delete: true, ..st }, home);
        } else if a == "--quarantine"@ || a == "-q"@ {
            if i + 1 < args.len() {
                lemma_values_follow_arguments(
                    args,
                    i + 2,
                    ScanState { quarantine_path: Some(expand_home(args[i + 1], home)), ..st },
                    home,
                );
            }
        } else if a == "--report"@ || a == "-r"@ {
            if i + 1 < args.len() {
                lemma_values_follow_arguments(
                    args,
                    i + 2,
                    ScanState { report_path: Some(expand_home(args[i + 1], home)), ..st },
                    home,
                );
            }
        } else if is_option_like(a) {
        } else if st.root_path is Some {
        } else {
            lemma_values_follow_arguments(
                args,
                i + 1,
                ScanState { root_path: Some(expand_home(a, home)), ..st },
                home,
            );
        }
    }
}

/// A path list of a scan command line: the paths given after an option
/// that takes one or more paths.
#[derive(Debug, Clone, Copy, PartialEq, Eq, Structural)]
pub enum PathList {
    Prefer,
    Exclude,
    Protect,
}

/// The path list whose option argument `a` spells, if it spells one:
/// `--prefer` or `-p`, `--exclude` or `-E`, `--protect` or `-P`. (The
/// spellings are tried in the order in which a scan command line is read.)
pub open spec fn path_list_of(a: Seq<char>) -> Option<PathList> {
    if flag_of(a) is Some {
        None
    } else if a == "--prefer"@ || a == "-p"@ {
        Some(PathList::Prefer)
    } else if a == "--min-size"@ {
        None
    } else if a == "--exclude"@ || a == "-E"@ {
        Some(PathList::Exclude)
    } else if a == "--protect"@ || a == "-P"@ {
        Some(PathList::Protect)
    } else {
        None
    }
}

/// The paths given for list `l` from argument `i` on, where an option is
/// read: after each spelling of its option, the arguments up to the next
/// one that starts with `-`, with `~` expanded.
pub open spec fn paths_given(args: Seq<Seq<char>>, i: int, home: Option<Seq<u8>>, l: PathList) -> Seq<Seq<u8>>
    decreases args.len() - i,
{
    if i < 0 || i >= args.len() {
        seq![]
    } else {
        proof {
            lemma_paths_end(args, i + 1);
            assert(next_argument(args, i) > i);
        }
        if path_list_of(args[i]) == Some(l) && i + 1 < args.len() {
            expanded(args, i + 1, paths_end(args, i + 1), home) + paths_given(args, next_argument(args, i), home, l)
        } else {
            paths_given(args, next_argument(args, i), home, l)
        }
    }
}

/// Path list `l` of a gathered scan state.
pub open spec fn list_set(st: ScanState, l: PathList) -> Seq<Seq<u8>> {
    match l {
        PathList::Prefer => st.prefer_paths,
        PathList::Exclude => st.excludes,
        PathList::Protect => st.protected_paths,
    }
}

/// Reading the arguments from `i` on adds to path list `l` exactly the
/// paths given for it from `i` on.
#[verifier::spinoff_prover]
#[verifier::rlimit(100)]
pub proof fn lemma_lists_follow_arguments(args: Seq<Seq<char>>, i: int, st: ScanState, home: Option<Seq<u8>>, l: PathList)
    ensures
        match scan_loop(args, i, st, home) {
            LoopEnd::Exit(_) => true,
            LoopEnd::Finished(end) => list_set(end, l) == list_set(st, l) + paths_given(args, i, home, l),
        },
    decreases args.len() - i,
{
    if 0 <= i < args.len() {
        let a = args[i];
        lemma_paths_end(args, i + 1);
        let e = paths_end(args, i + 1);
        let rest = paths_given(args, next_argument(args, i), home, l);
        assert(forall|x: Seq<Seq<u8>>, y: Seq<Seq<u8>>, z: Seq<Seq<u8>>| #[trigger] ((x + y) + z) =~= x + (y + z));
        if a == "-h"@ || a == "--help"@ || a == "-v"@ || a == "--version"@ || a == "--manual"@ || a
            == "--classification-help"@ {
        } else if a == "--recursive"@ || a == "-R"@ {
            lemma_lists_follow_arguments(args, i + 1, ScanState { recursive: true, ..st }, home, l);
        } else if a == "--force-dotdirs"@ {
            lemma_lists_follow_arguments(args, i + 1, ScanState { force_dotdirs: true, ..st }, home, l);
        } else if a == "--allow-protected"@ {
            lemma_lists_follow_arguments(args, i + 1, ScanState { allow_protected: true, ..st }, home, l);
        } else if a == "--keep-highest-version"@ {
            lemma_lists_follow_arguments(
                args,
                i + 1,
                ScanState { keep_policy: KeepPolicy::HighestVersion, ..st },
                home,
                l,
            );
        } else if a == "--interactive"@ || a == "-i"@ {
            lemma_lists_follow_arguments(args, i + 1, ScanState { interactive: true, ..st }, home, l);
        } else if a == "--no-color"@ || a == "--no-colour"@ || a == "--no-colors"@ || a == "--no-colours"@ {
            lemma_lists_follow_arguments(args, i + 1, ScanState { use_colors: false, ..st }, home, l);
        } else if a == "--prefer"@ || a == "-p"@ {
            if i + 1 < args.len() {
                lemma_lists_follow_arguments(
                    args,
                    e,
                    ScanState { prefer_paths: st.prefer_paths + expanded(args, i + 1, e, home), ..st },
                    home,
                    l,
                );
            }
        } else if a == "--min-size"@ {
            if i + 1 < args.len() {
                match size_value(args[i + 1]) {
                    None => {},
                    Some(v) => lemma_lists_follow_arguments(args, i + 2, ScanState { min_size: Some(v), ..st }, home, l),
                }
            }
        } else if a == "--exclude"@ || a == "-E"@ {
            if i + 1 < args.len() {
                lemma_lists_follow_arguments(
                    args,
                    e,
                    ScanState { excludes: st.excludes + expanded(args, i + 1, e, home), ..st },
                    home,
                    l,
                );
            }
        } else if a == "--protect"@ || a == "-P"@ {
            if i + 1 < args.len() {
                lemma_lists_follow_arguments(
                    args,
                    e,
                    ScanState { protected_paths: st.protected_paths + expanded(args, i + 1, e, home), ..st },
                    home,
                    l,
                );
            }
        } else if a == "--trash"@ || a == "-t"@ {
            lemma_lists_follow_arguments(args, i + 1, ScanState { trash: true, ..st }, home, l);
        } else if a == "--delete"@ || a == "-d"@ {
            lemma_lists_follow_arguments(args, i + 1, ScanState { delete: true, ..st }, home, l);
        } else if a == "--quarantine"@ || a == "-q"@ {
            if i + 1 < args.len() {
                lemma_lists_follow_arguments(
                    args,
                    i + 2,
                    ScanState { quarantine_path: Some(expand_home(args[i + 1], home)), ..st },
                    home,
                    l,
                );
            }
        } else if a == "--report"@ || a == "-r"@ {
            if i + 1 < args.len() {
                lemma_lists_follow_arguments(
                    args,
                    i + 2,
                    ScanState { report_path: Some(expand_home(args[i + 1], home)), ..st },
                    home,
                    l,
                );
            }
        } else if is_option_like(a) {
        } else if st.root_path is Some {
        } else {
            lemma_lists_follow_arguments(
                args,
                i + 1,
                ScanState { root_path: Some(expand_home(a, home)), ..st },
                home,
                l,
            );
        }
    }
}

/// Whether the flags of options `o` are exactly those given in `args`:
/// each flag is set if and only if one of its spellings stands where an
/// option is read, and colours are on if and only if they were on before
/// and no `--no-color` spelling is given.
pub open spec fn flags_follow(args: Seq<Seq<char>>, use_colors: bool, o: OptionsView) -> bool {
    &&& o.recursive == flag_given(args, 0, ScanFlag::Recursive)
    &&& o.force_dotdirs == flag_given(args, 0, ScanFlag::ForceDotdirs)
    &&& o.allow_protected == flag_given(args, 0, ScanFlag::AllowProtected)
    &&& (o.keep_policy == KeepPolicy::HighestVersion) == flag_given(args, 0, ScanFlag::KeepHighestVersion)
    &&& o.interactive == flag_given(args, 0, ScanFlag::Interactive)
    &&& o.trash == flag_given(args, 0, ScanFlag::Trash)
    &&& o.delete == flag_given(args, 0, ScanFlag::Delete)
    &&& o.use_colors == (use_colors && !flag_given(args, 0, ScanFlag::NoColor))
}

/// Reads the arguments of a scan. Accepted options pass validation, and
/// their flags are exactly those given (see `flags_follow`).
#[verifier::spinoff_prover]
pub fn parse_scan_arguments(args: &Vec<String>, use_colors: bool, home: &Option<Vec<u8>>) -> (r: ParseOutcome)
    ensures
        r@ == scan_outcome(args_view(args@), use_colors, home_view(*home)),
        match r@ {
            OutcomeView::Run(CommandView::Scan(o)) => options_problem(o) is None && flags_follow(
                args_view(args@),
                use_colors,
                o,
            ),
            _ => true,
        },
{
    let ghost av = args_view(args@);
    let ghost hv = home_view(*home);
    let mut d = ScanDraft {
        root_path: None,
        recursive: false,
        min_size: None,
        force_dotdirs: false,
        allow_protected: false,
        trash: false,
        delete: false,
        excludes: Vec::new(),
        protected_paths: Vec::new(),
        prefer_paths: Vec::new(),
        keep_policy: KeepPolicy::Default,
        quarantine_path: None,
        report_path: None,
        interactive: false,
        use_colors,
    };
    assert(d@ =~= initial_state(use_colors)) by {
        assert(paths_view(d.excludes@) =~= Seq::<Seq<u8>>::empty());
        assert(paths_view(d.protected_paths@) =~= Seq::<Seq<u8>>::empty());
        assert(paths_view(d.prefer_paths@) =~= Seq::<Seq<u8>>::empty());
    }
    let n = args.len();
    let mut index: usize = 0;
    while index < n
        invariant
            n == args@.len(),
            av == args_view(args@),
            av.len() == n,
            hv == home_view(*home),
            index <= n,
            scan_loop(av, 0, initial_state(use_colors), hv) == scan_loop(av, index as int, d@, hv),
        decreases n - index,
    {
        let ghost before = d@;
        proof {
            lemma_scan_loop_runs_nothing(av, index as int, before, hv);
        }
        match scan_step(args, index, home, &mut d) {
            Ok(next) => {
                index = next;
            },
            Err(outcome) => {
                return outcome;
            },
        }
    }
    assert(scan_loop(av, index as int, d@, hv) == LoopEnd::Finished(d@));
    let root_path = match d.root_path {
        Some(p) => p,
        None => {
            return ParseOutcome::Invalid(ArgsError::MissingScanPath);
        },
    };
    let min_size = match d.min_size {
        Some(m) => m,
        None => {
            return ParseOutcome::Invalid(ArgsError::MissingMinSize);
        },
    };
    let ghost st = d@;
    let options = Options {
        root_path,
        recursive: d.recursive,
        min_size,
        force_dotdirs: d.force_dotdirs,
        allow_protected: d.allow_protected,
        delete: d.delete,
        trash: d.trash,
        excludes: d.excludes,
        protected_paths: d.protected_paths,
        prefer_paths: d.prefer_paths,
        keep_policy: d.keep_policy,
        quarantine_path: d.quarantine_path,
        report_path: d.report_path,
        interactive: d.interactive,
        use_colors: d.use_colors,
    };
    assert(options@ == options_of(st));
    proof {
        let init = initial_state(use_colors);
        lemma_flags_follow_arguments(av, 0, init, hv, ScanFlag::Recursive);
        lemma_flags_follow_arguments(av, 0, init, hv, ScanFlag::ForceDotdirs);
        lemma_flags_follow_arguments(av, 0, init, hv, ScanFlag::AllowProtected);
        lemma_flags_follow_arguments(av, 0, init, hv, ScanFlag::KeepHighestVersion);
        lemma_flags_follow_arguments(av, 0, init, hv, ScanFlag::Interactive);
        lemma_flags_follow_arguments(av, 0, init, hv, ScanFlag::Trash);
        lemma_flags_follow_arguments(av, 0, init, hv, ScanFlag::Delete);
        lemma_flags_follow_arguments(av, 0, init, hv, ScanFlag::NoColor);
    }
    match scan_options_problem(&options) {
        Some(e) => ParseOutcome::Invalid(ArgsError::Options(e)),
        None => ParseOutcome::Run(Command::Scan(options)),
    }
}

/// Reads a command line (see `parse_outcome`). `use_colors` is whether
/// colours are on before any option, and `home` the home directory when it
/// is known.
pub fn parse_arguments(args: &Vec<String>, use_colors: bool, home: &Option<Vec<u8>>) -> (r: ParseOutcome)
    ensures
        r@ == parse_outcome(args_view(args@), use_colors, home_view(*home)),
{
    let ghost av = args_view(args@);
    if args.len() == 0 {
        return ParseOutcome::Usage { use_colors };
    }
    let first = args[0].as_str();
    assert(first@ == av[0]);
    if text_equal(first, "--restore") || text_equal(first, "-u") {
        if args.len() < 2 {
            return ParseOutcome::Invalid(ArgsError::RestoreNeedsPath);
        }
        if args.len() > 2 {
            return ParseOutcome::Invalid(ArgsError::RestoreTooManyPaths);
        }
        assert(args@[1]@ == av[1]);
        return ParseOutcome::Run(Command::Restore(expand_home_path(args[1].as_str(), home)));
    }
    if text_equal(first, "--cleanup") || text_equal(first, "-c") {
        if args.len() < 2 {
            return ParseOutcome::Invalid(ArgsError::CleanupNeedsPath);
        }
        if args.len() > 2 {
            return ParseOutcome::Invalid(ArgsError::CleanupTooManyPaths);
        }
        assert(args@[1]@ == av[1]);
        return ParseOutcome::Run(Command::Cleanup(expand_home_path(args[1].as_str(), home)));
    }
    parse_scan_arguments(args, use_colors, home)
}

/// What is printed when a command line is refused: one line, or two for a
/// missing minimum size. `args` is the command line the error is about.
pub open spec fn args_error_text(e: ArgsError, args: Seq<Seq<char>>) -> Seq<Seq<char>> {
    match e {
        ArgsError::PreferNeedsPath => seq!["nightkrawler: --prefer requires at least one path"@],
        ArgsError::MinSizeNeedsValue => seq!["nightkrawler: --min-size requires a size, for example 10M"@],
        ArgsError::InvalidSize(i) => seq!["nightkrawler: invalid size '"@ + args[i as int] + "'"@],
        ArgsError::ExcludeNeedsPath => seq!["nightkrawler: --exclude requires at least one path"@],
        ArgsError::ProtectNeedsPath => seq!["nightkrawler: --protect requires at least one path"@],
        ArgsError::QuarantineNeedsPath => seq!["nightkrawler: --quarantine requires a path"@],
        ArgsError::ReportNeedsPath => seq!["nightkrawler: --report requires a directory path"@],
        ArgsError::UnknownOption(i) => seq!["nightkrawler: unknown option '"@ + args[i as int] + "'"@],
        ArgsError::MultipleScanPaths => seq!["nightkrawler: only one scan path is allowed"@],
        ArgsError::MissingScanPath => seq!["nightkrawler: missing scan path"@],
        ArgsError::MissingMinSize => seq![
            "nightkrawler: --min-size is required"@,
            "example: nk ~/Downloads --recursive --min-size 100M"@,
        ],
        ArgsError::Options(o) => seq!["nightkrawler: "@ + options_error_message(o)],
        ArgsError::RestoreNeedsPath => seq!["nightkrawler: --restore requires a quarantine path"@],
        ArgsError::RestoreTooManyPaths => seq!["nightkrawler: --restore accepts only one quarantine path"@],
        ArgsError::CleanupNeedsPath => seq!["nightkrawler: --cleanup requires a quarantine path"@],
        ArgsError::CleanupTooManyPaths => seq!["nightkrawler: --cleanup accepts only one quarantine path"@],
    }
}

fn text_of(s: &str) -> (r: String)
    ensures
        r@ == s@,
{
    let cs = chars_of(s);
    string_from_chars(cs.as_slice())
}

fn quoted(prefix: &str, arg: &str) -> (r: String)
    ensures
        r@ == prefix@ + arg@ + "'"@,
{
    let mut cs: Vec<char> = Vec::new();
    push_str(&mut cs, prefix);
    push_str(&mut cs, arg);
    push_str(&mut cs, "'");
    assert(cs@ =~= prefix@ + arg@ + "'"@);
    string_from_chars(cs.as_slice())
}

/// What is printed when a command line is refused (see `args_error_text`).
pub fn args_error_lines(e: ArgsError, args: &Vec<String>) -> (lines: Vec<String>)
    requires
        match e {
            ArgsError::InvalidSize(i) => i < args@.len(),
            ArgsError::UnknownOption(i) => i < args@.len(),
            _ => true,
        },
    ensures
        lines@.map_values(|s: String| s@) == args_error_text(e, args_view(args@)),
{
    let mut lines: Vec<String> = Vec::new();
    match e {
        ArgsError::PreferNeedsPath => lines.push(text_of("nightkrawler: --prefer requires at least one path")),
        ArgsError::MinSizeNeedsValue => lines.push(text_of("nightkrawler: --min-size requires a size, for example 10M")),
        ArgsError::InvalidSize(i) => lines.push(quoted("nightkrawler: invalid size '", args[i].as_str())),
        ArgsError::ExcludeNeedsPath => lines.push(text_of("nightkrawler: --exclude requires at least one path")),
        ArgsError::ProtectNeedsPath => lines.push(text_of("nightkrawler: --protect requires at least one path")),
        ArgsError::QuarantineNeedsPath => lines.push(text_of("nightkrawler: --quarantine requires a path")),
        ArgsError::ReportNeedsPath => lines.push(text_of("nightkrawler: --report requires a directory path")),
        ArgsError::UnknownOption(i) => lines.push(quoted("nightkrawler: unknown option '", args[i].as_str())),
        ArgsError::MultipleScanPaths => lines.push(text_of("nightkrawler: only one scan path is allowed")),
        ArgsError::MissingScanPath => lines.push(text_of("nightkrawler: missing scan path")),
        ArgsError::MissingMinSize => {
            lines.push(text_of("nightkrawler: --min-size is required"));
            lines.push(text_of("example: nk ~/Downloads --recursive --min-size 100M"));
        },
        ArgsError::Options(o) => {
            let mut cs: Vec<char> = Vec::new();
            push_str(&mut cs, "nightkrawler: ");
            let message = options_error_text(o);
            push_str(&mut cs, message.as_str());
            assert(cs@ =~= "nightkrawler: "@ + options_error_message(o));
            lines.push(string_from_chars(cs.as_slice()));
        },
        ArgsError::RestoreNeedsPath => lines.push(text_of("nightkrawler: --restore requires a quarantine path")),
        ArgsError::RestoreTooManyPaths => lines.push(text_of("nightkrawler: --restore accepts only one quarantine path")),
        ArgsError::CleanupNeedsPath => lines.push(text_of("nightkrawler: --cleanup requires a quarantine path")),
        ArgsError::CleanupTooManyPaths => lines.push(text_of("nightkrawler: --cleanup accepts only one quarantine path")),
    }
    proof {
        match e {
            ArgsError::InvalidSize(i) => {
                assert(args_view(args@)[i as int] == args@[i as int]@);
            },
            ArgsError::UnknownOption(i) => {
                assert(args_view(args@)[i as int] == args@[i as int]@);
            },
            _ => {},
        }
    }
    assert(lines@.map_values(|s: String| s@) =~= args_error_text(e, args_view(args@)));
    lines
}

} // verus!
