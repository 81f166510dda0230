//! The duplicate report: its labels and the lines of the report file.
use vstd::prelude::*;
use crate::model::{
    CandidateView, DuplicateGroup, GroupView, KeepPolicy, Options, OptionsView, PathClass, files_view, groups_view,
    paths_view,
};
use crate::plan::{removable_count, removable_files_of, removable_size, sizes_sum, total_removable_count};
use crate::pathname::{join, join_path};
use crate::size_text::{human_size, human_size_text};
use crate::text::{
    decimal, decimal_two, digit_char, lossy_text, push_decimal, push_str, string_from_chars, utf8_lossy,
};

verus! {

/// `yes` or `no`.
pub open spec fn yes_no_text(value: bool) -> Seq<char> {
    if value {
        "yes"@
    } else {
        "no"@
    }
}

/// `yes` or `no`.
pub fn yes_no(value: bool) -> (r: &'static str)
    ensures
        r@ == yes_no_text(value),
{
    if value {
        "yes"
    } else {
        "no"
    }
}

/// The mode of a scan, as the banner and the report name it.
pub open spec fn mode_label_text(o: OptionsView) -> Seq<char> {
    if o.quarantine_path is Some && o.delete {
        "quarantine + permanent delete"@
    } else if o.quarantine_path is Some && o.trash {
        "quarantine + trash"@
    } else if o.quarantine_path is Some {
        "quarantine"@
    } else if o.delete {
        "permanent delete"@
    } else if o.trash {
        "trash"@
    } else {
        "report only"@
    }
}

/// The mode of a scan, as the report names it.
pub fn report_mode_label(options: &Options) -> (r: &'static str)
    ensures
        r@ == mode_label_text(options@),
{
    if options.quarantine_path.is_some() && options.delete {
        "quarantine + permanent delete"
    } else if options.quarantine_path.is_some() && options.trash {
        "quarantine + trash"
    } else if options.quarantine_path.is_some() {
        "quarantine"
    } else if options.delete {
        "permanent delete"
    } else if options.trash {
        "trash"
    } else {
        "report only"
    }
}

/// The mode of a scan, as the scan banner names it (the same words as the
/// report).
pub fn scan_mode_label(options: &Options) -> (r: &'static str)
    ensures
        r@ == mode_label_text(options@),
{
    report_mode_label(options)
}

/// The name of a keep policy.
pub open spec fn keep_policy_text(p: KeepPolicy) -> Seq<char> {
    match p {
        KeepPolicy::Default => "default"@,
        KeepPolicy::HighestVersion => "highest version"@,
    }
}

/// The name of a keep policy.
pub fn keep_policy_label(policy: KeepPolicy) -> (r: &'static str)
    ensures
        r@ == keep_policy_text(policy),
{
    match policy {
        KeepPolicy::Default => "default",
        KeepPolicy::HighestVersion => "highest version",
    }
}

/// The title of the report section of a class.
pub open spec fn class_section_text(c: PathClass) -> Seq<char> {
    match c {
        PathClass::Protected => "Protected"@,
        PathClass::Generated => "Generated"@,
        PathClass::Ordinary => "Ordinary"@,
    }
}

/// The title of the report section of a class.
pub fn class_section_name(class: PathClass) -> (r: &'static str)
    ensures
        r@ == class_section_text(class),
{
    match class {
        PathClass::Protected => "Protected",
        PathClass::Generated => "Generated",
        PathClass::Ordinary => "Ordinary",
    }
}

/// The label of a class in a group's entry.
pub open spec fn class_label_text(c: PathClass) -> Seq<char> {
    match c {
        PathClass::Protected => "protected"@,
        PathClass::Generated => "generated"@,
        PathClass::Ordinary => "ordinary"@,
    }
}

/// The label of a class in a group's entry.
pub fn class_label(class: PathClass) -> (r: &'static str)
    ensures
        r@ == class_label_text(class),
{
    match class {
        PathClass::Protected => "protected",
        PathClass::Generated => "generated",
        PathClass::Ordinary => "ordinary",
    }
}

/// The heading of the removable files of a group.
pub open spec fn action_label_text(o: OptionsView) -> Seq<char> {
    if o.quarantine_path is Some {
        "To Quarantine"@
    } else if o.trash {
        "To Trash"@
    } else if o.delete {
        "To Delete"@
    } else {
        "Removable"@
    }
}

/// The heading of the removable files of a group.
pub fn report_action_label(options: &Options) -> (r: &'static str)
    ensures
        r@ == action_label_text(options@),
{
    if options.quarantine_path.is_some() {
        "To Quarantine"
    } else if options.trash {
        "To Trash"
    } else if options.delete {
        "To Delete"
    } else {
        "Removable"
    }
}

/// The text of a duration in whole seconds: `1h 02m 03s`, `2m 03s` or `3s`.
pub open spec fn duration_text(total: nat) -> Seq<char> {
    let hours = total / 3600;
    let minutes = (total % 3600) / 60;
    let seconds = total % 60;
    if hours > 0 {
        decimal(hours) + "h "@ + decimal_two(minutes) + "m "@ + decimal_two(seconds) + "s"@
    } else if minutes > 0 {
        decimal(minutes) + "m "@ + decimal_two(seconds) + "s"@
    } else {
        decimal(seconds) + "s"@
    }
}

fn push_two_digits(out: &mut Vec<char>, n: u64)
    requires
        n < 100,
    ensures
        final(out)@ == old(out)@ + decimal_two(n as nat),
{
    if n < 10 {
        out.push('0');
        let ghost mid = out@;
        push_decimal(out, n);
        assert(decimal(n as nat) == seq![digit_char(n as int)]);
        assert(out@ =~= old(out)@ + decimal_two(n as nat));
    } else {
        push_decimal(out, n);
    }
}

/// The text of a duration of `total_seconds` (see `duration_text`).
pub fn format_duration(total_seconds: u64) -> (s: String)
    ensures
        s@ == duration_text(total_seconds as nat),
{
    let hours = total_seconds / 3600;
    let minutes = (total_seconds % 3600) / 60;
    let seconds = total_seconds % 60;
    let mut out: Vec<char> = Vec::new();
    if hours > 0 {
        push_decimal(&mut out, hours);
        push_str(&mut out, "h ");
        push_two_digits(&mut out, minutes);
        push_str(&mut out, "m ");
        push_two_digits(&mut out, seconds);
        push_str(&mut out, "s");
    } else if minutes > 0 {
        push_decimal(&mut out, minutes);
        push_str(&mut out, "m ");
        push_two_digits(&mut out, seconds);
        push_str(&mut out, "s");
    } else {
        push_decimal(&mut out, seconds);
        push_str(&mut out, "s");
    }
    assert(out@ =~= duration_text(total_seconds as nat));
    string_from_chars(out.as_slice())
}

/// The file name of a report made at `timestamp` seconds since the epoch.
pub open spec fn report_filename_text(timestamp: nat) -> Seq<char> {
    "nightkrawler-duplicates-"@ + decimal(timestamp) + ".txt"@
}

/// The file name of a report made at `timestamp` seconds since the epoch.
pub fn report_filename(timestamp: u64) -> (s: String)
    ensures
        s@ == report_filename_text(timestamp as nat),
{
    let mut out: Vec<char> = Vec::new();
    push_str(&mut out, "nightkrawler-duplicates-");
    push_decimal(&mut out, timestamp);
    push_str(&mut out, ".txt");
    string_from_chars(out.as_slice())
}

/// Where the report goes: under `working_dir` when no report path is
/// given, under the given path when it is a directory, and at the given
/// path otherwise. `name` is the report's file name.
pub open spec fn report_location(given: Option<Seq<u8>>, given_is_dir: bool, working_dir: Seq<u8>, name: Seq<u8>) -> Seq<
    u8,
> {
    match given {
        None => join(working_dir, name),
        Some(p) => if given_is_dir {
            join(p, name)
        } else {
            p
        },
    }
}

/// Where the report goes (see `report_location`). `working_dir` is read
/// only when no report path is given.
pub fn report_path_choice(given: &Option<Vec<u8>>, given_is_dir: bool, working_dir: &[u8], name: &[u8]) -> (r: Vec<
    u8,
>)
    ensures
        r@ == report_location(
            match given {
                Some(p) => Some(p@),
                None => None,
            },
            given_is_dir,
            working_dir@,
            name@,
        ),
{
    match given {
        None => join_path(working_dir, name),
        Some(p) => if given_is_dir {
            join_path(p.as_slice(), name)
        } else {
            p.clone()
        },
    }
}

/// The texts of a list of strings.
pub open spec fn texts(ls: Seq<String>) -> Seq<Seq<char>> {
    ls.map_values(|s: String| s@)
}

/// The line between group entries: eighty hyphens.
pub open spec fn group_separator() -> Seq<char> {
    Seq::new(80, |i: int| '-')
}

/// A path on a line of its own, indented by four spaces.
pub open spec fn path_line(p: Seq<u8>) -> Seq<char> {
    "    "@ + utf8_lossy(p)
}

/// A titled list of paths, `none` when empty, then a blank line.
pub open spec fn path_list_lines(title: Seq<char>, ps: Seq<Seq<u8>>) -> Seq<Seq<char>> {
    seq![title] + (if ps.len() == 0 {
        seq!["    none"@]
    } else {
        ps.map_values(|p: Seq<u8>| path_line(p))
    }) + seq![Seq::<char>::empty()]
}

/// The entry of one duplicate group.
pub open spec fn group_entry_lines(g: GroupView, class: PathClass, number: nat, action: Seq<char>) -> Seq<Seq<char>> {
    seq![
        group_separator(),
        Seq::<char>::empty(),
        "Duplicate group "@ + decimal(number),
        "  Class: "@ + class_label_text(class),
        "  Size: "@ + human_size_text(g.keep.size),
        Seq::<char>::empty(),
        "  To Keep:"@,
        path_line(g.keep.path),
        Seq::<char>::empty(),
        "  "@ + action + ":"@,
    ] + g.remove.map_values(|f: CandidateView| path_line(f.path)) + seq![Seq::<char>::empty()]
}

/// The groups of class `c`, in order; `classes[i]` is the class of `gs[i]`.
pub open spec fn class_groups(gs: Seq<GroupView>, classes: Seq<PathClass>, c: PathClass) -> Seq<GroupView>
    decreases gs.len(),
{
    if gs.len() == 0 {
        seq![]
    } else {
        let rest = class_groups(gs.drop_last(), classes.drop_last(), c);
        if classes[gs.len() - 1] == c {
            rest.push(gs.last())
        } else {
            rest
        }
    }
}

/// The entries of groups numbered from `first` on.
pub open spec fn entries_lines(gs: Seq<GroupView>, c: PathClass, first: nat, action: Seq<char>) -> Seq<Seq<char>>
    decreases gs.len(),
{
    if gs.len() == 0 {
        seq![]
    } else {
        entries_lines(gs.drop_last(), c, first, action) + group_entry_lines(
            gs.last(),
            c,
            (first + gs.len() - 1) as nat,
            action,
        )
    }
}

/// The section of the groups of class `c`, numbered from `first` on;
/// nothing when there are none.
pub open spec fn section_lines(gs: Seq<GroupView>, c: PathClass, first: nat, action: Seq<char>) -> Seq<Seq<char>> {
    if gs.len() == 0 {
        seq![]
    } else {
        seq!["Section: "@ + class_section_text(c), Seq::<char>::empty()] + entries_lines(gs, c, first, action)
            + seq![group_separator(), Seq::<char>::empty()]
    }
}

/// What the report says of the scan before its groups.
pub open spec fn report_head(
    o: OptionsView,
    date: Seq<char>,
    os: Seq<char>,
    arch: Seq<char>,
    hostname: Seq<char>,
    seconds: nat,
) -> Seq<Seq<char>> {
    seq![
        "Nightkrawler duplicate report"@,
        Seq::<char>::empty(),
        "Date: "@ + date,
        "OS: "@ + os,
        "Arch: "@ + arch,
        "Hostname: "@ + hostname,
        "Total scan: "@ + duration_text(seconds),
        "Scan root: "@ + utf8_lossy(o.root_path),
        "Minimum size: "@ + human_size_text(o.min_size),
        "Recursive: "@ + yes_no_text(o.recursive),
        "Mode: "@ + mode_label_text(o),
        "Keep policy: "@ + keep_policy_text(o.keep_policy),
        Seq::<char>::empty(),
    ] + path_list_lines("Exclude:"@, o.excludes) + path_list_lines("Protect:"@, o.protected_paths)
}

/// The saturated total size of the removable files.
pub open spec fn reclaimable(gs: Seq<GroupView>) -> u64 {
    if removable_size(gs) > u64::MAX {
        u64::MAX
    } else {
        removable_size(gs) as u64
    }
}

/// The lines of the duplicate report. The groups are listed by class,
/// protected first, then generated, then ordinary, numbered across the
/// sections; `classes[i]` is the class of group `i`, `quarantined` the
/// number of files copied into the quarantine where one was made.
pub open spec fn report_text(
    gs: Seq<GroupView>,
    classes: Seq<PathClass>,
    o: OptionsView,
    date: Seq<char>,
    os: Seq<char>,
    arch: Seq<char>,
    hostname: Seq<char>,
    seconds: nat,
    quarantined: Option<nat>,
) -> Seq<Seq<char>> {
    let head = report_head(o, date, os, arch, hostname, seconds);
    if gs.len() == 0 {
        head + seq!["No duplicate files found."@]
    } else {
        let p = class_groups(gs, classes, PathClass::Protected);
        let g = class_groups(gs, classes, PathClass::Generated);
        let r = class_groups(gs, classes, PathClass::Ordinary);
        let action = action_label_text(o);
        head + section_lines(p, PathClass::Protected, 1, action) + section_lines(
            g,
            PathClass::Generated,
            1 + p.len(),
            action,
        ) + section_lines(r, PathClass::Ordinary, 1 + p.len() + g.len(), action) + seq![
            "Summary"@,
            "  Duplicate groups: "@ + decimal(gs.len()),
            "  Files kept: "@ + decimal(gs.len()),
            "  Files removable: "@ + decimal(removable_count(gs)),
            "  Reclaimable space: "@ + human_size_text(reclaimable(gs)),
        ] + match (o.quarantine_path, quarantined) {
            (Some(q), Some(n)) => seq![
                Seq::<char>::empty(),
                "Quarantine"@,
                "  Files: "@ + decimal(n),
                "  Location: "@ + utf8_lossy(q),
            ],
            _ => seq![],
        }
    }
}

/// The report lists every group in exactly one of its three sections.
pub proof fn report_sections_list_every_group(gs: Seq<GroupView>, classes: Seq<PathClass>)
    requires
        classes.len() == gs.len(),
    ensures
        class_groups(gs, classes, PathClass::Protected).len() + class_groups(gs, classes, PathClass::Generated).len()
            + class_groups(gs, classes, PathClass::Ordinary).len() == gs.len(),
{
    lemma_class_groups_split(gs, classes);
}

proof fn lemma_class_groups_split(gs: Seq<GroupView>, classes: Seq<PathClass>)
    requires
        classes.len() == gs.len(),
    ensures
        class_groups(gs, classes, PathClass::Protected).len() + class_groups(gs, classes, PathClass::Generated).len()
            + class_groups(gs, classes, PathClass::Ordinary).len() == gs.len(),
    decreases gs.len(),
{
    if gs.len() > 0 {
        lemma_class_groups_split(gs.drop_last(), classes.drop_last());
    }
}

/// Appends a line of the characters `cs`.
fn push_line(lines: &mut Vec<String>, cs: &Vec<char>)
    ensures
        texts(final(lines)@) == texts(old(lines)@).push(cs@),
{
    let s = string_from_chars(cs.as_slice());
    lines.push(s);
    assert(texts(lines@) =~= texts(old(lines)@).push(cs@));
}

/// Appends a line of the text `s`.
fn push_text(lines: &mut Vec<String>, s: &str)
    ensures
        texts(final(lines)@) == texts(old(lines)@).push(s@),
{
    let mut cs: Vec<char> = Vec::new();
    push_str(&mut cs, s);
    assert(cs@ =~= s@);
    push_line(lines, &cs);
}

/// Appends a line of `prefix` followed by `rest`.
fn push_joined(lines: &mut Vec<String>, prefix: &str, rest: &str)
    ensures
        texts(final(lines)@) == texts(old(lines)@).push(prefix@ + rest@),
{
    let mut cs: Vec<char> = Vec::new();
    push_str(&mut cs, prefix);
    push_str(&mut cs, rest);
    assert(cs@ =~= prefix@ + rest@);
    push_line(lines, &cs);
}

/// Appends a line of `prefix` followed by the decimal numeral of `n`.
fn push_number(lines: &mut Vec<String>, prefix: &str, n: u64)
    ensures
        texts(final(lines)@) == texts(old(lines)@).push(prefix@ + decimal(n as nat)),
{
    let mut cs: Vec<char> = Vec::new();
    push_str(&mut cs, prefix);
    push_decimal(&mut cs, n);
    assert(cs@ =~= prefix@ + decimal(n as nat));
    push_line(lines, &cs);
}

/// Appends a path line.
fn push_path(lines: &mut Vec<String>, path: &[u8])
    ensures
        texts(final(lines)@) == texts(old(lines)@).push(path_line(path@)),
{
    let text = lossy_text(path);
    push_joined(lines, "    ", text.as_str());
}

/// Appends the group separator.
fn push_separator(lines: &mut Vec<String>)
    ensures
        texts(final(lines)@) == texts(old(lines)@).push(group_separator()),
{
    let mut cs: Vec<char> = Vec::new();
    let mut i: usize = 0;
    while i < 80
        invariant
            i <= 80,
            cs@ == Seq::new(i as nat, |k: int| '-'),
        decreases 80 - i,
    {
        cs.push('-');
        i = i + 1;
        assert(cs@ =~= Seq::new(i as nat, |k: int| '-'));
    }
    push_line(lines, &cs);
}

fn push_path_list(lines: &mut Vec<String>, title: &str, paths: &Vec<Vec<u8>>)
    ensures
        texts(final(lines)@) == texts(old(lines)@) + path_list_lines(title@, paths_view(paths@)),
{
    let ghost pv = paths_view(paths@);
    push_text(lines, title);
    if paths.len() == 0 {
        push_text(lines, "    none");
        assert(texts(lines@) =~= texts(old(lines)@) + seq![title@, "    none"@]);
    } else {
        let mut i: usize = 0;
        while i < paths.len()
            invariant
                i <= paths@.len(),
                pv == paths_view(paths@),
                texts(lines@) == texts(old(lines)@) + seq![title@] + pv.map_values(|p: Seq<u8>| path_line(p)).subrange(
                    0,
                    i as int,
                ),
            decreases paths@.len() - i,
        {
            push_path(lines, paths[i].as_slice());
            i = i + 1;
            assert(texts(lines@) =~= texts(old(lines)@) + seq![title@] + pv.map_values(|p: Seq<u8>| path_line(p)).subrange(
                0,
                i as int,
            ));
        }
        assert(pv.map_values(|p: Seq<u8>| path_line(p)).subrange(0, paths@.len() as int) =~= pv.map_values(
            |p: Seq<u8>| path_line(p),
        ));
    }
    let ghost mid = texts(lines@);
    push_line(lines, &Vec::new());
    assert(texts(lines@) =~= texts(old(lines)@) + path_list_lines(title@, pv));
}

fn push_group_entry(lines: &mut Vec<String>, group: &DuplicateGroup, class: PathClass, number: usize, action: &str)
    ensures
        texts(final(lines)@) == texts(old(lines)@) + group_entry_lines(group@, class, number as nat, action@),
{
    let ghost g = group@;
    push_separator(lines);
    push_line(lines, &Vec::new());
    push_number(lines, "Duplicate group ", number as u64);
    push_joined(lines, "  Class: ", class_label(class));
    let size = human_size(group.keep.size);
    push_joined(lines, "  Size: ", size.as_str());
    push_line(lines, &Vec::new());
    push_text(lines, "  To Keep:");
    push_path(lines, group.keep.path.as_slice());
    push_line(lines, &Vec::new());
    let mut heading: Vec<char> = Vec::new();
    push_str(&mut heading, "  ");
    push_str(&mut heading, action);
    push_str(&mut heading, ":");
    push_line(lines, &heading);
    let ghost head = texts(lines@);
    assert(head =~= texts(old(lines)@) + seq![
        group_separator(),
        Seq::<char>::empty(),
        "Duplicate group "@ + decimal(number as nat),
        "  Class: "@ + class_label_text(class),
        "  Size: "@ + human_size_text(g.keep.size),
        Seq::<char>::empty(),
        "  To Keep:"@,
        path_line(g.keep.path),
        Seq::<char>::empty(),
        "  "@ + action@ + ":"@,
    ]);
    let ghost removes = g.remove.map_values(|f: CandidateView| path_line(f.path));
    let mut k: usize = 0;
    while k < group.remove.len()
        invariant
            k <= group.remove@.len(),
            g == group@,
            removes == g.remove.map_values(|f: CandidateView| path_line(f.path)),
            g.remove.len() == group.remove@.len(),
            texts(lines@) == head + removes.subrange(0, k as int),
        decreases group.remove@.len() - k,
    {
        assert(g.remove[k as int] == group.remove@[k as int]@);
        push_path(lines, group.remove[k].path.as_slice());
        k = k + 1;
        assert(texts(lines@) =~= head + removes.subrange(0, k as int));
    }
    assert(removes.subrange(0, g.remove.len() as int) =~= removes);
    push_line(lines, &Vec::new());
    assert(texts(lines@) =~= texts(old(lines)@) + group_entry_lines(g, class, number as nat, action@));
}

proof fn lemma_class_groups_prefix(gs: Seq<GroupView>, classes: Seq<PathClass>, c: PathClass, i: int)
    requires
        classes.len() == gs.len(),
        0 <= i < gs.len(),
    ensures
        class_groups(gs.subrange(0, i + 1), classes.subrange(0, i + 1), c) == if classes[i] == c {
            class_groups(gs.subrange(0, i), classes.subrange(0, i), c).push(gs[i])
        } else {
            class_groups(gs.subrange(0, i), classes.subrange(0, i), c)
        },
{
    assert(gs.subrange(0, i + 1).drop_last() =~= gs.subrange(0, i));
    assert(classes.subrange(0, i + 1).drop_last() =~= classes.subrange(0, i));
}

proof fn lemma_class_groups_bound(gs: Seq<GroupView>, classes: Seq<PathClass>, c: PathClass)
    ensures
        class_groups(gs, classes, c).len() <= gs.len(),
    decreases gs.len(),
{
    if gs.len() > 0 {
        lemma_class_groups_bound(gs.drop_last(), classes.drop_last(), c);
    }
}

/// Appends the section of class `c` with groups numbered from `first` on,
/// and returns the number of its groups.
fn push_section(
    lines: &mut Vec<String>,
    groups: &Vec<DuplicateGroup>,
    classes: &Vec<PathClass>,
    c: PathClass,
    first: usize,
    action: &str,
) -> (count: usize)
    requires
        classes@.len() == groups@.len(),
        first + class_groups(groups_view(groups@), classes@, c).len() <= usize::MAX,
    ensures
        count == class_groups(groups_view(groups@), classes@, c).len(),
        texts(final(lines)@) == texts(old(lines)@) + section_lines(
            class_groups(groups_view(groups@), classes@, c),
            c,
            first as nat,
            action@,
        ),
{
    let ghost gv = groups_view(groups@);
    let ghost all = class_groups(gv, classes@, c);
    let mut count: usize = 0;
    let mut i: usize = 0;
    while i < groups.len()
        invariant
            i <= groups@.len(),
            classes@.len() == groups@.len(),
            gv == groups_view(groups@),
            count == class_groups(gv.subrange(0, i as int), classes@.subrange(0, i as int), c).len(),
        decreases groups@.len() - i,
    {
        proof {
            lemma_class_groups_prefix(gv, classes@, c, i as int);
            lemma_class_groups_bound(gv.subrange(0, i as int), classes@.subrange(0, i as int), c);
        }
        if classes[i] == c {
            count = count + 1;
        }
        i = i + 1;
    }
    assert(gv.subrange(0, groups@.len() as int) =~= gv);
    assert(classes@.subrange(0, groups@.len() as int) =~= classes@);
    if count == 0 {
        assert(texts(lines@) =~= texts(old(lines)@) + section_lines(all, c, first as nat, action@));
        return 0;
    }
    let mut heading: Vec<char> = Vec::new();
    push_str(&mut heading, "Section: ");
    push_str(&mut heading, class_section_name(c));
    push_line(lines, &heading);
    push_line(lines, &Vec::new());
    let ghost head = texts(lines@);
    let mut seen: usize = 0;
    let mut j: usize = 0;
    while j < groups.len()
        invariant
            j <= groups@.len(),
            classes@.len() == groups@.len(),
            gv == groups_view(groups@),
            all == class_groups(gv, classes@, c),
            first + all.len() <= usize::MAX,
            seen == class_groups(gv.subrange(0, j as int), classes@.subrange(0, j as int), c).len(),
            seen <= all.len(),
            texts(lines@) == head + entries_lines(
                class_groups(gv.subrange(0, j as int), classes@.subrange(0, j as int), c),
                c,
                first as nat,
                action@,
            ),
        decreases groups@.len() - j,
    {
        proof {
            lemma_class_groups_prefix(gv, classes@, c, j as int);
            lemma_class_groups_bound(gv.subrange(0, j as int), classes@.subrange(0, j as int), c);
            lemma_class_groups_mono(gv, classes@, c, j as int + 1);
        }
        if classes[j] == c {
            let ghost before = class_groups(gv.subrange(0, j as int), classes@.subrange(0, j as int), c);
            assert(gv[j as int] == groups@[j as int]@);
            push_group_entry(lines, &groups[j], c, first + seen, action);
            seen = seen + 1;
            assert(before.push(gv[j as int]).drop_last() =~= before);
        }
        j = j + 1;
    }
    assert(gv.subrange(0, groups@.len() as int) =~= gv);
    assert(classes@.subrange(0, groups@.len() as int) =~= classes@);
    push_separator(lines);
    push_line(lines, &Vec::new());
    assert(texts(lines@) =~= texts(old(lines)@) + section_lines(all, c, first as nat, action@));
    count
}

proof fn lemma_class_groups_mono(gs: Seq<GroupView>, classes: Seq<PathClass>, c: PathClass, k: int)
    requires
        classes.len() == gs.len(),
        0 <= k <= gs.len(),
    ensures
        class_groups(gs.subrange(0, k), classes.subrange(0, k), c).len() <= class_groups(gs, classes, c).len(),
    decreases gs.len() - k,
{
    if k < gs.len() {
        lemma_class_groups_mono(gs, classes, c, k + 1);
        lemma_class_groups_prefix(gs, classes, c, k);
    } else {
        assert(gs.subrange(0, k) =~= gs);
        assert(classes.subrange(0, k) =~= classes);
    }
}

/// The saturated total size of the removable files of `groups`.
fn reclaimable_space(groups: &Vec<DuplicateGroup>) -> (r: u64)
    ensures
        r == reclaimable(groups_view(groups@)),
{
    let files = removable_files_of(groups);
    let ghost fv = files_view(files@);
    let mut total: u64 = 0;
    let mut i: usize = 0;
    while i < files.len()
        invariant
            i <= files@.len(),
            fv == files_view(files@),
            total == if sizes_sum(fv.subrange(0, i as int)) > u64::MAX {
                u64::MAX
            } else {
                sizes_sum(fv.subrange(0, i as int)) as u64
            },
        decreases files@.len() - i,
    {
        assert(fv.subrange(0, i + 1).drop_last() =~= fv.subrange(0, i as int));
        assert(fv[i as int].size == files@[i as int].size);
        total = total.saturating_add(files[i].size);
        i = i + 1;
    }
    assert(fv.subrange(0, files@.len() as int) =~= fv);
    total
}

/// The lines of the duplicate report (see `report_text`). `date`, `os`,
/// `arch` and `hostname` describe the machine and the time of the scan,
/// `scan_seconds` its length.
pub fn duplicate_report_lines(
    groups: &Vec<DuplicateGroup>,
    classes: &Vec<PathClass>,
    options: &Options,
    date: &str,
    os: &str,
    arch: &str,
    hostname: &str,
    scan_seconds: u64,
    quarantined: Option<usize>,
) -> (lines: Vec<String>)
    requires
        classes@.len() == groups@.len(),
        groups@.len() < usize::MAX,
    ensures
        texts(lines@) == report_text(
            groups_view(groups@),
            classes@,
            options@,
            date@,
            os@,
            arch@,
            hostname@,
            scan_seconds as nat,
            match quarantined {
                Some(n) => Some(n as nat),
                None => None,
            },
        ),
{
    let ghost o = options@;
    let ghost gv = groups_view(groups@);
    let mut lines: Vec<String> = Vec::new();
    push_text(&mut lines, "Nightkrawler duplicate report");
    push_line(&mut lines, &Vec::new());
    push_joined(&mut lines, "Date: ", date);
    push_joined(&mut lines, "OS: ", os);
    push_joined(&mut lines, "Arch: ", arch);
    push_joined(&mut lines, "Hostname: ", hostname);
    let duration = format_duration(scan_seconds);
    push_joined(&mut lines, "Total scan: ", duration.as_str());
    let root = lossy_text(options.root_path.as_slice());
    push_joined(&mut lines, "Scan root: ", root.as_str());
    let min_size = human_size(options.min_size);
    push_joined(&mut lines, "Minimum size: ", min_size.as_str());
    push_joined(&mut lines, "Recursive: ", yes_no(options.recursive));
    push_joined(&mut lines, "Mode: ", report_mode_label(options));
    push_joined(&mut lines, "Keep policy: ", keep_policy_label(options.keep_policy));
    push_line(&mut lines, &Vec::new());
    push_path_list(&mut lines, "Exclude:", &options.excludes);
    push_path_list(&mut lines, "Protect:", &options.protected_paths);
    let ghost head = report_head(o, date@, os@, arch@, hostname@, scan_seconds as nat);
    assert(texts(lines@) =~= head);
    if groups.len() == 0 {
        push_text(&mut lines, "No duplicate files found.");
        return lines;
    }
    let action = report_action_label(options);
    proof {
        lemma_class_groups_split(gv, classes@);
    }
    let protected = push_section(&mut lines, groups, classes, PathClass::Protected, 1, action);
    let generated = push_section(&mut lines, groups, classes, PathClass::Generated, 1 + protected, action);
    let _ordinary = push_section(
        &mut lines,
        groups,
        classes,
        PathClass::Ordinary,
        1 + protected + generated,
        action,
    );
    push_text(&mut lines, "Summary");
    push_number(&mut lines, "  Duplicate groups: ", groups.len() as u64);
    push_number(&mut lines, "  Files kept: ", groups.len() as u64);
    let removable = total_removable_count(groups);
    push_number(&mut lines, "  Files removable: ", removable as u64);
    let space = human_size(reclaimable_space(groups));
    push_joined(&mut lines, "  Reclaimable space: ", space.as_str());
    match (&options.quarantine_path, quarantined) {
        (Some(q), Some(n)) => {
            push_line(&mut lines, &Vec::new());
            push_text(&mut lines, "Quarantine");
            push_number(&mut lines, "  Files: ", n as u64);
            let location = lossy_text(q.as_slice());
            push_joined(&mut lines, "  Location: ", location.as_str());
        },
        _ => {},
    }
    assert(texts(lines@) =~= report_text(
        gv,
        classes@,
        o,
        date@,
        os@,
        arch@,
        hostname@,
        scan_seconds as nat,
        match quarantined {
            Some(n) => Some(n as nat),
            None => None,
        },
    ));
    lines
}

} // verus!
