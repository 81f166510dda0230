//! The lines the scan prints: banner, summaries and safety stops, with the
//! terminal colours of each part when colours are on.
use vstd::prelude::*;
use crate::model::{
    DeleteSummary, DuplicateGroup, GroupView, Options, OptionsView, QuarantineSummary, RestoreSummary, TrashSummary,
    groups_view,
};
use crate::plan::{removable_count, total_removable_count};
use crate::runs::RemovalMode;
use crate::report::{mode_label_text, reclaimable, scan_mode_label, texts, yes_no, yes_no_text};
use crate::size_text::{human_size, human_size_text};
use crate::text::{colored_text, decimal, lossy_text, push_decimal, push_str, string_from_chars, utf8_lossy};

verus! {

/// The colours of the output.
#[derive(Debug, Clone, Copy, PartialEq, Eq, Structural)]
pub enum Color {
    Heading,
    Path,
    Size,
    Warning,
    Error,
    Muted,
    Line,
    Success,
    Value,
    Wordings,
    BrightYellow,
}

/// The escape sequence of a colour.
pub open spec fn color_code(c: Color) -> Seq<char> {
    match c {
        Color::Heading => "\x1b[92m"@,
        Color::Path => "\x1b[1;97m"@,
        Color::Size => "\x1b[1;97m"@,
        Color::Warning => "\x1b[1;93m"@,
        Color::Error => "\x1b[1;31m"@,
        Color::Muted => "\x1b[32m"@,
        Color::Line => "\x1b[32m"@,
        Color::Success => "\x1b[1;92m"@,
        Color::Value => "\x1b[1;97m"@,
        Color::Wordings => "\x1b[37m"@,
        Color::BrightYellow => "\x1b[1;93m"@,
    }
}

impl Color {
    /// The escape sequence of this colour.
    pub fn code(&self) -> (r: &'static str)
        ensures
            r@ == color_code(*self),
    {
        match self {
            Color::Heading => "\x1b[92m",
            Color::Path => "\x1b[1;97m",
            Color::Size => "\x1b[1;97m",
            Color::Warning => "\x1b[1;93m",
            Color::Error => "\x1b[1;31m",
            Color::Muted => "\x1b[32m",
            Color::Line => "\x1b[32m",
            Color::Success => "\x1b[1;92m",
            Color::Value => "\x1b[1;97m",
            Color::Wordings => "\x1b[37m",
            Color::BrightYellow => "\x1b[1;93m",
        }
    }
}

/// `value` in colour `c` when colours are on.
pub open spec fn paint(value: Seq<char>, c: Color, use_colors: bool) -> Seq<char> {
    colored_text(value, color_code(c), use_colors)
}

/// A count in colour `when_zero` when it is zero and `otherwise` else.
pub open spec fn paint_count(n: nat, when_zero: Color, otherwise: Color, use_colors: bool) -> Seq<char> {
    paint(decimal(n), if n == 0 { when_zero } else { otherwise }, use_colors)
}

/// `n` copies of the box-drawing horizontal line.
pub open spec fn rule(n: nat) -> Seq<char> {
    Seq::new(n, |i: int| '\u{2500}')
}

fn push_painted(out: &mut Vec<char>, value: &[char], c: Color, use_colors: bool)
    ensures
        final(out)@ == old(out)@ + paint(value@, c, use_colors),
{
    if use_colors {
        push_str(out, c.code());
    }
    let ghost mid = out@;
    let mut i: usize = 0;
    while i < value.len()
        invariant
            i <= value@.len(),
            out@ == mid + value@.subrange(0, i as int),
        decreases value@.len() - i,
    {
        out.push(value[i]);
        i = i + 1;
        assert(out@ =~= mid + value@.subrange(0, i as int));
    }
    assert(value@.subrange(0, value@.len() as int) =~= value@);
    if use_colors {
        out.push('\x1b');
        out.push('[');
        out.push('0');
        out.push('m');
    }
    assert(out@ =~= old(out)@ + paint(value@, c, use_colors));
}

fn text_chars(s: &str) -> (r: Vec<char>)
    ensures
        r@ == s@,
{
    let mut r: Vec<char> = Vec::new();
    push_str(&mut r, s);
    assert(r@ =~= s@);
    r
}

fn number_chars(n: u64) -> (r: Vec<char>)
    ensures
        r@ == decimal(n as nat),
{
    let mut r: Vec<char> = Vec::new();
    push_decimal(&mut r, n);
    assert(r@ =~= decimal(n as nat));
    r
}

fn push_painted_str(out: &mut Vec<char>, value: &str, c: Color, use_colors: bool)
    ensures
        final(out)@ == old(out)@ + paint(value@, c, use_colors),
{
    let cs = text_chars(value);
    push_painted(out, cs.as_slice(), c, use_colors);
}

fn push_painted_count(out: &mut Vec<char>, n: u64, when_zero: Color, otherwise: Color, use_colors: bool)
    ensures
        final(out)@ == old(out)@ + paint_count(n as nat, when_zero, otherwise, use_colors),
{
    let cs = number_chars(n);
    let c = if n == 0 {
        when_zero
    } else {
        otherwise
    };
    push_painted(out, cs.as_slice(), c, use_colors);
}

fn line_of(cs: &Vec<char>) -> (s: String)
    ensures
        s@ == cs@,
{
    string_from_chars(cs.as_slice())
}

fn rule_line(n: usize, use_colors: bool) -> (s: String)
    ensures
        s@ == paint(rule(n as nat), Color::Line, use_colors),
{
    let mut cs: Vec<char> = Vec::new();
    let mut i: usize = 0;
    while i < n
        invariant
            i <= n,
            cs@ == rule(i as nat),
        decreases n - i,
    {
        cs.push('\u{2500}');
        i = i + 1;
        assert(cs@ =~= rule(i as nat));
    }
    let mut out: Vec<char> = Vec::new();
    push_painted(&mut out, cs.as_slice(), Color::Line, use_colors);
    assert(out@ =~= paint(rule(n as nat), Color::Line, use_colors));
    line_of(&out)
}

/// A section title in the heading colour.
pub fn section_title(title: &str, use_colors: bool) -> (s: String)
    ensures
        s@ == paint(title@, Color::Heading, use_colors),
{
    let mut out: Vec<char> = Vec::new();
    push_painted_str(&mut out, title, Color::Heading, use_colors);
    assert(out@ =~= paint(title@, Color::Heading, use_colors));
    line_of(&out)
}

/// A label line, `  label:`, the label muted.
pub open spec fn label_line(label: Seq<char>, use_colors: bool) -> Seq<char> {
    "  "@ + paint(label, Color::Muted, use_colors) + ":"@
}

/// A value line, indented by four spaces.
pub open spec fn value_line(value: Seq<char>, c: Color, use_colors: bool) -> Seq<char> {
    "    "@ + paint(value, c, use_colors)
}

fn label_string(label: &str, use_colors: bool) -> (s: String)
    ensures
        s@ == label_line(label@, use_colors),
{
    let mut out: Vec<char> = Vec::new();
    push_str(&mut out, "  ");
    push_painted_str(&mut out, label, Color::Muted, use_colors);
    push_str(&mut out, ":");
    assert(out@ =~= label_line(label@, use_colors));
    line_of(&out)
}

fn value_string(value: &str, c: Color, use_colors: bool) -> (s: String)
    ensures
        s@ == value_line(value@, c, use_colors),
{
    let mut out: Vec<char> = Vec::new();
    push_str(&mut out, "    ");
    push_painted_str(&mut out, value, c, use_colors);
    assert(out@ =~= value_line(value@, c, use_colors));
    line_of(&out)
}

/// The lines that give the path of the full report.
pub open spec fn report_path_text(path: Seq<u8>, use_colors: bool) -> Seq<Seq<char>> {
    seq![
        Seq::<char>::empty(),
        paint("Full report"@, Color::Muted, use_colors) + ":"@,
        value_line(utf8_lossy(path), Color::Path, use_colors),
    ]
}

/// The lines that give the path of the full report.
pub fn report_path_lines(report_path: &[u8], use_colors: bool) -> (lines: Vec<String>)
    ensures
        texts(lines@) == report_path_text(report_path@, use_colors),
{
    let mut lines: Vec<String> = Vec::new();
    lines.push(String::new());
    let mut head: Vec<char> = Vec::new();
    push_painted_str(&mut head, "Full report", Color::Muted, use_colors);
    push_str(&mut head, ":");
    lines.push(line_of(&head));
    let path = lossy_text(report_path);
    lines.push(value_string(path.as_str(), Color::Path, use_colors));
    assert(texts(lines@) =~= report_path_text(report_path@, use_colors));
    lines
}

/// One field of a summary line: the muted label, a colon and the value.
pub open spec fn field(label: Seq<char>, value: Seq<char>, use_colors: bool) -> Seq<char> {
    paint(label, Color::Muted, use_colors) + ": "@ + value
}

fn push_field(out: &mut Vec<char>, label: &str, value: &[char], c: Color, use_colors: bool)
    ensures
        final(out)@ == old(out)@ + field(label@, paint(value@, c, use_colors), use_colors),
{
    push_painted_str(out, label, Color::Muted, use_colors);
    push_str(out, ": ");
    push_painted(out, value, c, use_colors);
    assert(out@ =~= old(out)@ + field(label@, paint(value@, c, use_colors), use_colors));
}

fn push_count_field(out: &mut Vec<char>, label: &str, n: u64, when_zero: Color, otherwise: Color, use_colors: bool)
    ensures
        final(out)@ == old(out)@ + field(label@, paint_count(n as nat, when_zero, otherwise, use_colors), use_colors),
{
    push_painted_str(out, label, Color::Muted, use_colors);
    push_str(out, ": ");
    push_painted_count(out, n, when_zero, otherwise, use_colors);
    assert(out@ =~= old(out)@ + field(label@, paint_count(n as nat, when_zero, otherwise, use_colors), use_colors));
}

fn start_line() -> (out: Vec<char>)
    ensures
        out@ == "  "@,
{
    let mut out: Vec<char> = Vec::new();
    push_str(&mut out, "  ");
    assert(out@ =~= "  "@);
    out
}

/// The summary printed after a scan that found duplicates.
pub open spec fn scan_summary_text(gs: Seq<GroupView>, use_colors: bool) -> Seq<Seq<char>> {
    seq![
        paint(rule(88), Color::Line, use_colors),
        paint("Scan summary"@, Color::Heading, use_colors),
        "  "@ + field("Duplicate groups"@, paint(decimal(gs.len()), Color::Value, use_colors), use_colors) + ",  "@
            + field("Files kept"@, paint(decimal(gs.len()), Color::Value, use_colors), use_colors) + ",  "@
            + field("Files removable"@, paint(decimal(removable_count(gs)), Color::Error, use_colors), use_colors)
            + ",  "@ + field(
            "Reclaimable space"@,
            paint(human_size_text(reclaimable(gs)), Color::Value, use_colors),
            use_colors,
        ),
        paint(rule(88), Color::Line, use_colors),
        Seq::<char>::empty(),
    ]
}

/// The summary printed after a scan that found duplicates. The total size
/// must fit in a `u64`.
pub fn scan_summary_lines(groups: &Vec<DuplicateGroup>, use_colors: bool) -> (lines: Vec<String>)
    requires
        crate::plan::removable_size(groups_view(groups@)) <= u64::MAX,
    ensures
        texts(lines@) == scan_summary_text(groups_view(groups@), use_colors),
{
    let ghost gv = groups_view(groups@);
    let mut lines: Vec<String> = Vec::new();
    lines.push(rule_line(88, use_colors));
    lines.push(section_title("Scan summary", use_colors));
    let mut out = start_line();
    let n = number_chars(groups.len() as u64);
    push_field(&mut out, "Duplicate groups", n.as_slice(), Color::Value, use_colors);
    push_str(&mut out, ",  ");
    push_field(&mut out, "Files kept", n.as_slice(), Color::Value, use_colors);
    push_str(&mut out, ",  ");
    let removable = number_chars(total_removable_count(groups) as u64);
    push_field(&mut out, "Files removable", removable.as_slice(), Color::Error, use_colors);
    push_str(&mut out, ",  ");
    let space = crate::plan::total_removable_size(groups);
    assert(space == reclaimable(gv));
    let size = text_chars(human_size(space).as_str());
    push_field(&mut out, "Reclaimable space", size.as_slice(), Color::Value, use_colors);
    lines.push(line_of(&out));
    lines.push(rule_line(88, use_colors));
    lines.push(String::new());
    assert(texts(lines@) =~= scan_summary_text(gv, use_colors));
    lines
}

/// The summary of a restore.
pub open spec fn restore_summary_text(s: RestoreSummary, use_colors: bool) -> Seq<Seq<char>> {
    seq![
        paint("Restore summary"@, Color::Heading, use_colors),
        "  "@ + field("Restored"@, paint_count(s.restored as nat, Color::Wordings, Color::Success, use_colors), use_colors)
            + ",  "@ + field("Failed"@, paint_count(s.failed as nat, Color::Wordings, Color::Error, use_colors), use_colors)
            + ",  "@ + field(
            "Skipped"@,
            paint_count(s.skipped as nat, Color::Wordings, Color::Warning, use_colors),
            use_colors,
        ) + ",  "@ + field(
            "Restored space"@,
            paint(human_size_text(s.restored_space), Color::Size, use_colors),
            use_colors,
        ),
    ]
}

/// The summary of a restore.
pub fn restore_summary_lines(summary: &RestoreSummary, use_colors: bool) -> (lines: Vec<String>)
    ensures
        texts(lines@) == restore_summary_text(*summary, use_colors),
{
    let mut lines: Vec<String> = Vec::new();
    lines.push(section_title("Restore summary", use_colors));
    let mut out = start_line();
    push_count_field(&mut out, "Restored", summary.restored as u64, Color::Wordings, Color::Success, use_colors);
    push_str(&mut out, ",  ");
    push_count_field(&mut out, "Failed", summary.failed as u64, Color::Wordings, Color::Error, use_colors);
    push_str(&mut out, ",  ");
    push_count_field(&mut out, "Skipped", summary.skipped as u64, Color::Wordings, Color::Warning, use_colors);
    push_str(&mut out, ",  ");
    let size = text_chars(human_size(summary.restored_space).as_str());
    push_field(&mut out, "Restored space", size.as_slice(), Color::Size, use_colors);
    lines.push(line_of(&out));
    assert(texts(lines@) =~= restore_summary_text(*summary, use_colors));
    lines
}

/// The line of a delete or Trash summary: kept, removed, failed, skipped
/// and the space freed, `removed_color` for a nonzero removed count.
pub open spec fn removal_fields(
    kept: nat,
    removed_label: Seq<char>,
    removed: nat,
    removed_color: Color,
    failed: nat,
    skipped: nat,
    space_label: Seq<char>,
    space: u64,
    use_colors: bool,
) -> Seq<char> {
    "  "@ + field("Kept"@, paint(decimal(kept), Color::Value, use_colors), use_colors) + ",  "@ + field(
        removed_label,
        paint_count(removed, Color::Wordings, removed_color, use_colors),
        use_colors,
    ) + ",  "@ + field("Failed"@, paint_count(failed, Color::Wordings, Color::Error, use_colors), use_colors)
        + ",  "@ + field("Skipped"@, paint_count(skipped, Color::Wordings, Color::Value, use_colors), use_colors)
        + ",  "@ + field(space_label, paint(human_size_text(space), Color::Size, use_colors), use_colors)
}

fn removal_line(
    kept: usize,
    removed_label: &str,
    removed: usize,
    removed_color: Color,
    failed: usize,
    skipped: usize,
    space_label: &str,
    space: u64,
    use_colors: bool,
) -> (s: String)
    ensures
        s@ == removal_fields(
            kept as nat,
            removed_label@,
            removed as nat,
            removed_color,
            failed as nat,
            skipped as nat,
            space_label@,
            space,
            use_colors,
        ),
{
    let mut out = start_line();
    let k = number_chars(kept as u64);
    push_field(&mut out, "Kept", k.as_slice(), Color::Value, use_colors);
    push_str(&mut out, ",  ");
    push_count_field(&mut out, removed_label, removed as u64, Color::Wordings, removed_color, use_colors);
    push_str(&mut out, ",  ");
    push_count_field(&mut out, "Failed", failed as u64, Color::Wordings, Color::Error, use_colors);
    push_str(&mut out, ",  ");
    push_count_field(&mut out, "Skipped", skipped as u64, Color::Wordings, Color::Value, use_colors);
    push_str(&mut out, ",  ");
    let size = text_chars(human_size(space).as_str());
    push_field(&mut out, space_label, size.as_slice(), Color::Size, use_colors);
    assert(out@ =~= removal_fields(
        kept as nat,
        removed_label@,
        removed as nat,
        removed_color,
        failed as nat,
        skipped as nat,
        space_label@,
        space,
        use_colors,
    ));
    line_of(&out)
}

/// The summary of a delete run.
pub open spec fn delete_summary_text(s: DeleteSummary, use_colors: bool) -> Seq<Seq<char>> {
    seq![
        paint(rule(64), Color::Line, use_colors),
        paint("Delete summary"@, Color::Heading, use_colors),
        removal_fields(
            s.kept as nat,
            "Deleted"@,
            s.deleted as nat,
            Color::Error,
            s.failed as nat,
            s.skipped as nat,
            "Deleted space"@,
            s.deleted_space,
            use_colors,
        ),
        paint(rule(64), Color::Line, use_colors),
        Seq::<char>::empty(),
        paint("Delete completed"@, Color::Error, use_colors),
    ]
}

/// The summary of a delete run.
pub fn delete_summary_lines(summary: &DeleteSummary, use_colors: bool) -> (lines: Vec<String>)
    ensures
        texts(lines@) == delete_summary_text(*summary, use_colors),
{
    let mut lines: Vec<String> = Vec::new();
    lines.push(rule_line(64, use_colors));
    lines.push(section_title("Delete summary", use_colors));
    lines.push(
        removal_line(
            summary.kept,
            "Deleted",
            summary.deleted,
            Color::Error,
            summary.failed,
            summary.skipped,
            "Deleted space",
            summary.deleted_space,
            use_colors,
        ),
    );
    lines.push(rule_line(64, use_colors));
    lines.push(String::new());
    let mut done: Vec<char> = Vec::new();
    push_painted_str(&mut done, "Delete completed", Color::Error, use_colors);
    lines.push(line_of(&done));
    assert(texts(lines@) =~= delete_summary_text(*summary, use_colors));
    lines
}

/// The summary of a Trash run.
pub open spec fn trash_summary_text(s: TrashSummary, use_colors: bool) -> Seq<Seq<char>> {
    seq![
        paint(rule(64), Color::Line, use_colors),
        paint("Trash summary"@, Color::Heading, use_colors),
        removal_fields(
            s.kept as nat,
            "Trashed"@,
            s.trashed as nat,
            Color::Warning,
            s.failed as nat,
            s.skipped as nat,
            "Trashed space"@,
            s.trashed_space,
            use_colors,
        ),
        paint(rule(64), Color::Line, use_colors),
        Seq::<char>::empty(),
        paint("Trashed files were handed to the system Trash implementation."@, Color::BrightYellow, use_colors),
        paint(
            "If they do not appear immediately, check the Trash location used by this filesystem."@,
            Color::BrightYellow,
            use_colors,
        ),
    ]
}

/// The summary of a Trash run.
pub fn trash_summary_lines(summary: &TrashSummary, use_colors: bool) -> (lines: Vec<String>)
    ensures
        texts(lines@) == trash_summary_text(*summary, use_colors),
{
    let mut lines: Vec<String> = Vec::new();
    lines.push(rule_line(64, use_colors));
    lines.push(section_title("Trash summary", use_colors));
    lines.push(
        removal_line(
            summary.kept,
            "Trashed",
            summary.trashed,
            Color::Warning,
            summary.failed,
            summary.skipped,
            "Trashed space",
            summary.trashed_space,
            use_colors,
        ),
    );
    lines.push(rule_line(64, use_colors));
    lines.push(String::new());
    let mut a: Vec<char> = Vec::new();
    push_painted_str(&mut a, "Trashed files were handed to the system Trash implementation.", Color::BrightYellow, use_colors);
    lines.push(line_of(&a));
    let mut b: Vec<char> = Vec::new();
    push_painted_str(
        &mut b,
        "If they do not appear immediately, check the Trash location used by this filesystem.",
        Color::BrightYellow,
        use_colors,
    );
    lines.push(line_of(&b));
    assert(texts(lines@) =~= trash_summary_text(*summary, use_colors));
    lines
}

/// What a scan that found no duplicates prints.
pub open spec fn no_duplicates_text(use_colors: bool) -> Seq<Seq<char>> {
    seq![
        paint("Scan complete"@, Color::Heading, use_colors),
        value_line("No duplicate files found."@, Color::Success, use_colors),
        Seq::<char>::empty(),
        label_line("Full report"@, use_colors),
        value_line("Nothing to report"@, Color::Value, use_colors),
    ]
}

/// What a scan that found no duplicates prints.
pub fn no_duplicates_lines(use_colors: bool) -> (lines: Vec<String>)
    ensures
        texts(lines@) == no_duplicates_text(use_colors),
{
    let mut lines: Vec<String> = Vec::new();
    lines.push(section_title("Scan complete", use_colors));
    lines.push(value_string("No duplicate files found.", Color::Success, use_colors));
    lines.push(String::new());
    lines.push(label_string("Full report", use_colors));
    lines.push(value_string("Nothing to report", Color::Value, use_colors));
    assert(texts(lines@) =~= no_duplicates_text(use_colors));
    lines
}

/// The banner printed before a scan.
pub open spec fn scan_banner_text(o: OptionsView) -> Seq<Seq<char>> {
    let c = o.use_colors;
    seq![
        paint("Nightkrawler scan"@, Color::Heading, c),
        label_line("Root"@, c),
        value_line(utf8_lossy(o.root_path), Color::Value, c),
        Seq::<char>::empty(),
        label_line("Recursive"@, c),
        value_line(yes_no_text(o.recursive), Color::Wordings, c),
        Seq::<char>::empty(),
        label_line("Minimum size"@, c),
        value_line(human_size_text(o.min_size), Color::Value, c),
        Seq::<char>::empty(),
        label_line("Dot-directories"@, c),
        value_line(if o.force_dotdirs { "included"@ } else { "skipped"@ }, Color::Wordings, c),
        Seq::<char>::empty(),
        label_line("Mode"@, c),
        value_line(mode_label_text(o), Color::Wordings, c),
        Seq::<char>::empty(),
        paint("Scanning... this could take a while"@, Color::Value, c),
        Seq::<char>::empty(),
    ]
}

/// The banner printed before a scan.
pub fn scan_banner_lines(options: &Options) -> (lines: Vec<String>)
    ensures
        texts(lines@) == scan_banner_text(options@),
{
    let c = options.use_colors;
    let mut lines: Vec<String> = Vec::new();
    lines.push(section_title("Nightkrawler scan", c));
    lines.push(label_string("Root", c));
    let root = lossy_text(options.root_path.as_slice());
    lines.push(value_string(root.as_str(), Color::Value, c));
    lines.push(String::new());
    lines.push(label_string("Recursive", c));
    lines.push(value_string(yes_no(options.recursive), Color::Wordings, c));
    lines.push(String::new());
    lines.push(label_string("Minimum size", c));
    let size = human_size(options.min_size);
    lines.push(value_string(size.as_str(), Color::Value, c));
    lines.push(String::new());
    lines.push(label_string("Dot-directories", c));
    lines.push(
        value_string(
            if options.force_dotdirs {
                "included"
            } else {
                "skipped"
            },
            Color::Wordings,
            c,
        ),
    );
    lines.push(String::new());
    lines.push(label_string("Mode", c));
    lines.push(value_string(scan_mode_label(options), Color::Wordings, c));
    lines.push(String::new());
    let mut scanning: Vec<char> = Vec::new();
    push_painted_str(&mut scanning, "Scanning... this could take a while", Color::Value, c);
    lines.push(line_of(&scanning));
    lines.push(String::new());
    assert(texts(lines@) =~= scan_banner_text(options@));
    lines
}

/// What is printed when a quarantine did not complete and `action` is
/// refused.
pub open spec fn safety_stop_text(action: Seq<char>, s: QuarantineSummary, use_colors: bool) -> Seq<Seq<char>> {
    seq![
        paint("Safety stop"@, Color::Error, use_colors),
        Seq::<char>::empty(),
        "  "@ + paint("Quarantine did not complete cleanly."@, Color::Warning, use_colors),
        Seq::<char>::empty(),
        "  "@ + paint("Failed copies"@, Color::Value, use_colors) + ":"@,
        "    "@ + paint_count(s.failed as nat, Color::Muted, Color::Error, use_colors),
        Seq::<char>::empty(),
        "  "@ + paint("Skipped copies"@, Color::Value, use_colors) + ":"@,
        "    "@ + paint_count(s.skipped as nat, Color::Wordings, Color::Warning, use_colors),
        Seq::<char>::empty(),
        paint(action + " refused."@, Color::Error, use_colors),
        paint("No original files were changed."@, Color::BrightYellow, use_colors),
    ]
}

/// What is printed when a quarantine did not complete and `action` is
/// refused.
pub fn quarantine_safety_stop_lines(action: &str, summary: &QuarantineSummary, use_colors: bool) -> (lines: Vec<String>)
    ensures
        texts(lines@) == safety_stop_text(action@, *summary, use_colors),
{
    let mut lines: Vec<String> = Vec::new();
    lines.push(section_title_in("Safety stop", Color::Error, use_colors));
    lines.push(String::new());
    let mut a: Vec<char> = Vec::new();
    push_str(&mut a, "  ");
    push_painted_str(&mut a, "Quarantine did not complete cleanly.", Color::Warning, use_colors);
    lines.push(line_of(&a));
    lines.push(String::new());
    let mut b: Vec<char> = Vec::new();
    push_str(&mut b, "  ");
    push_painted_str(&mut b, "Failed copies", Color::Value, use_colors);
    push_str(&mut b, ":");
    lines.push(line_of(&b));
    let mut f: Vec<char> = Vec::new();
    push_str(&mut f, "    ");
    push_painted_count(&mut f, summary.failed as u64, Color::Muted, Color::Error, use_colors);
    lines.push(line_of(&f));
    lines.push(String::new());
    let mut d: Vec<char> = Vec::new();
    push_str(&mut d, "  ");
    push_painted_str(&mut d, "Skipped copies", Color::Value, use_colors);
    push_str(&mut d, ":");
    lines.push(line_of(&d));
    let mut k: Vec<char> = Vec::new();
    push_str(&mut k, "    ");
    push_painted_count(&mut k, summary.skipped as u64, Color::Wordings, Color::Warning, use_colors);
    lines.push(line_of(&k));
    lines.push(String::new());
    let mut refused: Vec<char> = Vec::new();
    push_str(&mut refused, action);
    push_str(&mut refused, " refused.");
    let mut r: Vec<char> = Vec::new();
    push_painted(&mut r, refused.as_slice(), Color::Error, use_colors);
    lines.push(line_of(&r));
    lines.push(section_title_in("No original files were changed.", Color::BrightYellow, use_colors));
    assert(texts(lines@) =~= safety_stop_text(action@, *summary, use_colors));
    lines
}

/// `text` on a line of its own in colour `c`.
pub fn section_title_in(text: &str, c: Color, use_colors: bool) -> (s: String)
    ensures
        s@ == paint(text@, c, use_colors),
{
    let mut out: Vec<char> = Vec::new();
    push_painted_str(&mut out, text, c, use_colors);
    assert(out@ =~= paint(text@, c, use_colors));
    line_of(&out)
}

/// The warning printed when `--allow-protected` lets an action go on.
pub open spec fn protected_warning_text(action: Seq<char>, count: nat, use_colors: bool) -> Seq<Seq<char>> {
    seq![
        paint(
            "WARNING: --allow-protected permits "@ + action + " on "@ + decimal(count) + " protected candidate(s)."@,
            Color::Warning,
            use_colors,
        ),
        Seq::<char>::empty(),
    ]
}

/// The warning printed when `--allow-protected` lets an action go on.
pub fn protected_warning_lines(action: &str, count: usize, use_colors: bool) -> (lines: Vec<String>)
    ensures
        texts(lines@) == protected_warning_text(action@, count as nat, use_colors),
{
    let mut text: Vec<char> = Vec::new();
    push_str(&mut text, "WARNING: --allow-protected permits ");
    push_str(&mut text, action);
    push_str(&mut text, " on ");
    push_decimal(&mut text, count as u64);
    push_str(&mut text, " protected candidate(s).");
    let mut out: Vec<char> = Vec::new();
    push_painted(&mut out, text.as_slice(), Color::Warning, use_colors);
    let mut lines: Vec<String> = Vec::new();
    lines.push(line_of(&out));
    lines.push(String::new());
    assert(texts(lines@) =~= protected_warning_text(action@, count as nat, use_colors));
    lines
}

/// A heading line, `  heading:`, in colour `c`.
pub open spec fn heading_line(heading: Seq<char>, c: Color, use_colors: bool) -> Seq<char> {
    "  "@ + paint(heading, c, use_colors) + ":"@
}

fn heading_string(heading: &str, c: Color, use_colors: bool) -> (s: String)
    ensures
        s@ == heading_line(heading@, c, use_colors),
{
    let mut out: Vec<char> = Vec::new();
    push_str(&mut out, "  ");
    push_painted_str(&mut out, heading, c, use_colors);
    push_str(&mut out, ":");
    assert(out@ =~= heading_line(heading@, c, use_colors));
    line_of(&out)
}

/// The safety stop printed when an action would touch protected
/// candidates: the action, the first protected candidate, its protected
/// root, the scan path, and how many there are when more than one.
pub open spec fn protected_refusal_text(
    action: Seq<char>,
    candidate: Seq<u8>,
    root: Seq<u8>,
    scan_path: Seq<u8>,
    count: nat,
    use_colors: bool,
) -> Seq<Seq<char>> {
    seq![
        paint("Safety stop"@, Color::Error, use_colors),
        Seq::<char>::empty(),
        heading_line("Action refused"@, Color::Muted, use_colors),
        value_line(action, Color::Error, use_colors),
        Seq::<char>::empty(),
        heading_line("Protected candidate"@, Color::Muted, use_colors),
        value_line(utf8_lossy(candidate), Color::Value, use_colors),
        Seq::<char>::empty(),
        heading_line("Protected root"@, Color::Muted, use_colors),
        value_line(utf8_lossy(root), Color::Path, use_colors),
        Seq::<char>::empty(),
        heading_line("Scan path"@, Color::Heading, use_colors),
        value_line(utf8_lossy(scan_path), Color::Path, use_colors),
    ] + (if count > 1 {
        seq![
            Seq::<char>::empty(),
            heading_line("Protected candidates"@, Color::Heading, use_colors),
            value_line(decimal(count), Color::Muted, use_colors),
        ]
    } else {
        seq![]
    }) + seq![
        Seq::<char>::empty(),
        paint("No files were changed."@, Color::BrightYellow, use_colors),
        Seq::<char>::empty(),
        paint("Action modes require --allow-protected for protected candidates."@, Color::Heading, use_colors),
    ]
}

/// The safety stop printed when an action would touch protected
/// candidates (see `protected_refusal_text`).
pub fn protected_refusal_lines(
    action: &str,
    candidate: &[u8],
    root: &[u8],
    scan_path: &[u8],
    count: usize,
    use_colors: bool,
) -> (lines: Vec<String>)
    ensures
        texts(lines@) == protected_refusal_text(action@, candidate@, root@, scan_path@, count as nat, use_colors),
{
    let mut lines: Vec<String> = Vec::new();
    lines.push(section_title_in("Safety stop", Color::Error, use_colors));
    lines.push(String::new());
    lines.push(heading_string("Action refused", Color::Muted, use_colors));
    lines.push(value_string(action, Color::Error, use_colors));
    lines.push(String::new());
    lines.push(heading_string("Protected candidate", Color::Muted, use_colors));
    let c = lossy_text(candidate);
    lines.push(value_string(c.as_str(), Color::Value, use_colors));
    lines.push(String::new());
    lines.push(heading_string("Protected root", Color::Muted, use_colors));
    let r = lossy_text(root);
    lines.push(value_string(r.as_str(), Color::Path, use_colors));
    lines.push(String::new());
    lines.push(heading_string("Scan path", Color::Heading, use_colors));
    let p = lossy_text(scan_path);
    lines.push(value_string(p.as_str(), Color::Path, use_colors));
    let ghost head = texts(lines@);
    if count > 1 {
        lines.push(String::new());
        lines.push(heading_string("Protected candidates", Color::Heading, use_colors));
        let mut n: Vec<char> = Vec::new();
        push_str(&mut n, "    ");
        let digits = number_chars(count as u64);
        push_painted(&mut n, digits.as_slice(), Color::Muted, use_colors);
        assert(n@ =~= value_line(decimal(count as nat), Color::Muted, use_colors));
        lines.push(line_of(&n));
    }
    let ghost middle = texts(lines@);
    lines.push(String::new());
    lines.push(section_title_in("No files were changed.", Color::BrightYellow, use_colors));
    lines.push(String::new());
    lines.push(section_title_in("Action modes require --allow-protected for protected candidates.", Color::Heading, use_colors));
    assert(texts(lines@) =~= protected_refusal_text(action@, candidate@, root@, scan_path@, count as nat, use_colors));
    lines
}

/// What is printed when the quarantine's drive has less free space than
/// the removable files need.
pub open spec fn no_room_text(quarantine: Seq<u8>, required: u64, available: u64, use_colors: bool) -> Seq<
    Seq<char>,
> {
    seq![
        paint("nightkrawler: not enough free space for quarantine"@, Color::Error, use_colors),
        Seq::<char>::empty(),
        label_line("Quarantine path"@, use_colors),
        value_line(utf8_lossy(quarantine), Color::Path, use_colors),
        Seq::<char>::empty(),
        label_line("Required"@, use_colors),
        value_line(human_size_text(required), Color::Size, use_colors),
        Seq::<char>::empty(),
        label_line("Available"@, use_colors),
        value_line(human_size_text(available), Color::Size, use_colors),
        Seq::<char>::empty(),
        paint("Nothing was copied."@, Color::BrightYellow, use_colors),
        Seq::<char>::empty(),
        paint("Choose a quarantine path on a drive with more free space."@, Color::Warning, use_colors),
    ]
}

/// What is printed when the quarantine does not fit (see `no_room_text`).
pub fn no_room_lines(quarantine: &[u8], required: u64, available: u64, use_colors: bool) -> (lines: Vec<String>)
    ensures
        texts(lines@) == no_room_text(quarantine@, required, available, use_colors),
{
    let mut lines: Vec<String> = Vec::new();
    lines.push(section_title_in("nightkrawler: not enough free space for quarantine", Color::Error, use_colors));
    lines.push(String::new());
    lines.push(label_string("Quarantine path", use_colors));
    let path = lossy_text(quarantine);
    lines.push(value_string(path.as_str(), Color::Path, use_colors));
    lines.push(String::new());
    lines.push(label_string("Required", use_colors));
    let needed = human_size(required);
    lines.push(value_string(needed.as_str(), Color::Size, use_colors));
    lines.push(String::new());
    lines.push(label_string("Available", use_colors));
    let free = human_size(available);
    lines.push(value_string(free.as_str(), Color::Size, use_colors));
    lines.push(String::new());
    lines.push(section_title_in("Nothing was copied.", Color::BrightYellow, use_colors));
    lines.push(String::new());
    lines.push(section_title_in("Choose a quarantine path on a drive with more free space.", Color::Warning, use_colors));
    assert(texts(lines@) =~= no_room_text(quarantine@, required, available, use_colors));
    lines
}

/// What is shown before asking whether to remove a file interactively:
/// a title, the file's path and size, and an empty line, always in colour.
pub open spec fn confirmation_text(path: Seq<u8>, size: u64, mode: RemovalMode) -> Seq<Seq<char>> {
    let (title, label, shown) = match mode {
        RemovalMode::Delete => ("Candidate for deletion:"@, Color::Warning, Color::Path),
        RemovalMode::Trash => ("Candidate for Trash:"@, Color::Muted, Color::Warning),
    };
    seq![
        paint(title, Color::Heading, true),
        "  "@ + paint("path"@, label, true) + ": "@ + paint(utf8_lossy(path), shown, true),
        "  "@ + paint("size"@, Color::Muted, true) + ": "@ + paint(human_size_text(size), Color::Value, true),
        Seq::<char>::empty(),
    ]
}

/// What is shown before asking whether to remove a file (see
/// `confirmation_text`).
pub fn confirmation_lines(path: &[u8], size: u64, mode: RemovalMode) -> (lines: Vec<String>)
    ensures
        texts(lines@) == confirmation_text(path@, size, mode),
{
    let (title, label, shown) = match mode {
        RemovalMode::Delete => ("Candidate for deletion:", Color::Warning, Color::Path),
        RemovalMode::Trash => ("Candidate for Trash:", Color::Muted, Color::Warning),
    };
    let mut lines: Vec<String> = Vec::new();
    lines.push(section_title_in(title, Color::Heading, true));
    let mut p: Vec<char> = Vec::new();
    push_str(&mut p, "  ");
    push_painted_str(&mut p, "path", label, true);
    push_str(&mut p, ": ");
    let text = lossy_text(path);
    push_painted_str(&mut p, text.as_str(), shown, true);
    lines.push(line_of(&p));
    let mut z: Vec<char> = Vec::new();
    push_str(&mut z, "  ");
    push_painted_str(&mut z, "size", Color::Muted, true);
    push_str(&mut z, ": ");
    let amount = human_size(size);
    push_painted_str(&mut z, amount.as_str(), Color::Value, true);
    lines.push(line_of(&z));
    lines.push(String::new());
    assert(texts(lines@) =~= confirmation_text(path@, size, mode));
    lines
}

/// The question asked before removing a file interactively, in colour;
/// the answer is read on the same line.
pub open spec fn confirmation_question_text(mode: RemovalMode) -> Seq<char> {
    match mode {
        RemovalMode::Delete => paint("Delete this file? [y/N] "@, Color::Warning, true),
        RemovalMode::Trash => paint("Move this file to Trash? [y/N] "@, Color::Heading, true),
    }
}

/// The question asked before removing a file (see
/// `confirmation_question_text`).
pub fn confirmation_question(mode: RemovalMode) -> (s: String)
    ensures
        s@ == confirmation_question_text(mode),
{
    match mode {
        RemovalMode::Delete => section_title_in("Delete this file? [y/N] ", Color::Warning, true),
        RemovalMode::Trash => section_title_in("Move this file to Trash? [y/N] ", Color::Heading, true),
    }
}

/// What is shown when a file is not removed because the answer was no.
pub open spec fn skipped_text(path: Seq<u8>, use_colors: bool) -> Seq<Seq<char>> {
    seq![
        paint("Skipped:"@, Color::Heading, use_colors),
        "  "@ + paint(utf8_lossy(path), Color::Muted, use_colors),
        Seq::<char>::empty(),
    ]
}

/// What is shown when a file is not removed (see `skipped_text`).
pub fn skipped_lines(path: &[u8], use_colors: bool) -> (lines: Vec<String>)
    ensures
        texts(lines@) == skipped_text(path@, use_colors),
{
    let mut lines: Vec<String> = Vec::new();
    lines.push(section_title_in("Skipped:", Color::Heading, use_colors));
    let mut p: Vec<char> = Vec::new();
    push_str(&mut p, "  ");
    let text = lossy_text(path);
    push_painted_str(&mut p, text.as_str(), Color::Muted, use_colors);
    lines.push(line_of(&p));
    lines.push(String::new());
    assert(texts(lines@) =~= skipped_text(path@, use_colors));
    lines
}

} // verus!
