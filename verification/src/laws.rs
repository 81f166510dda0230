//! What holds of the library as a whole: facts that span its functions.
use vstd::prelude::*;
use vstd::set_lib::{lemma_int_range, lemma_subset_equality};
use crate::args::{
    paths_given, root_given, value_given, PathList, ValueOption,
    expand_home, expanded, flag_given, is_option_like, lemma_paths_end, parse_outcome, paths_end, scan_loop,
    CommandView, LoopEnd, OutcomeView, ScanFlag, ScanState,
};
use crate::size::{
    has_digit_from, is_digit_char, is_white_space, leading_digits, lowercase, numeral_value, size_value, trim, trim_end,
    trim_start,
};
use crate::cleanup::{cleanup_decision, location_refusal};
use crate::keep::{arranged, is_keep_arrangement, keep_order, keys_of, lemma_keep_flip, KeepKey};
use crate::order::{chars_as_ints, lemma_lex_equal, lemma_lex_flip, lemma_lex_trans, lex_order};
use crate::version::{
    best_version, best_version_of, byte_end, component_bytes, digits_value, later_max, looks_like_version, numerals_fit,
    split_from, trim_leading, version_of,
};
use crate::text::utf8_lossy;
use crate::order::Order;
use crate::model::{CandidateView, KeepPolicy, OptionsView};
use crate::pathname::{components, join, path_starts_with, ComponentView};
use crate::classify::{protected_root_list, max_class_of, class_of, deepest_root, generated_names, is_generated, is_generated_component};
use crate::model::{class_rank, PathClass};
use crate::keep::{first_prefix_from, keep_key, keep_score, preferred_rank, text_contains, text_ends_with};
use vstd::utf8::encode_utf8;
use crate::plan::acts;
use crate::classify::TargetOs;
use crate::manual_text::{classification_blocks, help_blocks, manual_blocks};
use crate::manual_fit::{blocks_short, lemma_classification_blocks_short, lemma_help_blocks_short, lemma_manual_blocks_short};
use crate::manual_plain::{lemma_classification_blocks_esc_free, lemma_help_blocks_esc_free, lemma_manual_blocks_esc_free};
use crate::duplicates::{is_kept_group, is_size_grouping, shared, shared_positions};
use crate::model::{paths_view, GroupView, group_members};
use crate::search::{
    compared_equal, confirmed_group, lemma_arranged_members, lemma_members_alike, lemma_search_compared, lemma_members_shared, lemma_search_content, lemma_shared_positions,
    members_of, search_content,
};
use vstd::multiset::Multiset;
use crate::manual::{document_text, is_palette, BlockView, ManualColors};
use crate::plain_text::{
    block_esc_free, block_fits, lemma_block_short_fits, lemma_document_lengths, lemma_document_shows, lemma_palettes_match, strip_sgr,
};
use crate::stages::{scan_stage, stage_acts, tally_complete, ScanProgress, ScanStage};
use crate::runs::RemovalMode;
use crate::scan::{excluded, member_action, start_action, PathKind, WalkAction};

verus! {

/// The flags of an accepted scan command line are exactly those given:
/// a scan is recursive, forces dot-directories, allows protected
/// candidates, keeps the highest version, asks for confirmation, moves to
/// the Trash or deletes if and only if the argument for it is given where
/// an option is read; and colours are on if and only if they were on
/// before and no `--no-color` spelling is given.
pub proof fn accepted_scan_flags_follow_arguments(
    args: Seq<Seq<char>>,
    use_colors: bool,
    home: Option<Seq<u8>>,
    o: OptionsView,
)
    requires
        parse_outcome(args, use_colors, home) == OutcomeView::Run(CommandView::Scan(o)),
    ensures
        o.recursive == flag_given(args, 0, ScanFlag::Recursive),
        o.force_dotdirs == flag_given(args, 0, ScanFlag::ForceDotdirs),
        o.allow_protected == flag_given(args, 0, ScanFlag::AllowProtected),
        (o.keep_policy == KeepPolicy::HighestVersion) == flag_given(args, 0, ScanFlag::KeepHighestVersion),
        o.interactive == flag_given(args, 0, ScanFlag::Interactive),
        o.trash == flag_given(args, 0, ScanFlag::Trash),
        o.delete == flag_given(args, 0, ScanFlag::Delete),
        o.use_colors == (use_colors && !flag_given(args, 0, ScanFlag::NoColor)),
{
    let st = crate::args::initial_state(use_colors);
    crate::args::lemma_scan_loop_runs_nothing(args, 0, st, home);
    assert(parse_outcome(args, use_colors, home) == crate::args::scan_outcome(args, use_colors, home));
    crate::args::lemma_flags_follow_arguments(args, 0, st, home, ScanFlag::Recursive);
    crate::args::lemma_flags_follow_arguments(args, 0, st, home, ScanFlag::ForceDotdirs);
    crate::args::lemma_flags_follow_arguments(args, 0, st, home, ScanFlag::AllowProtected);
    crate::args::lemma_flags_follow_arguments(args, 0, st, home, ScanFlag::KeepHighestVersion);
    crate::args::lemma_flags_follow_arguments(args, 0, st, home, ScanFlag::Interactive);
    crate::args::lemma_flags_follow_arguments(args, 0, st, home, ScanFlag::Trash);
    crate::args::lemma_flags_follow_arguments(args, 0, st, home, ScanFlag::Delete);
    crate::args::lemma_flags_follow_arguments(args, 0, st, home, ScanFlag::NoColor);
    match scan_loop(args, 0, st, home) {
        LoopEnd::Finished(end) => {
            assert(o == crate::args::options_of(end));
        },
        LoopEnd::Exit(_) => {},
    }
}

/// A scan command line that is accepted never asks for both the Trash and
/// deletion, asks for confirmation only with one of them, and allows
/// protected candidates only when some action is asked for.
pub proof fn accepted_scan_options_are_consistent(args: Seq<Seq<char>>, use_colors: bool, home: Option<Seq<u8>>, o: OptionsView)
    requires
        parse_outcome(args, use_colors, home) == OutcomeView::Run(CommandView::Scan(o)),
    ensures
        !(o.trash && o.delete),
        o.interactive ==> o.trash || o.delete,
        o.allow_protected ==> acts(o),
{
    crate::args::lemma_scan_loop_runs_nothing(args, 0, crate::args::initial_state(use_colors), home);
}

/// Every file of a duplicate group is among its members exactly once: the
/// keeper and the removable files are the group's files, rearranged.
pub proof fn keeper_group_holds_every_file(policy: KeepPolicy, keys: Seq<KeepKey>, files: Seq<CandidateView>, order: Seq<int>)
    requires
        keys.len() == files.len(),
        is_keep_arrangement(policy, keys, order),
    ensures
        arranged(files, order).len() == files.len(),
        forall|i: int| 0 <= i < files.len() ==> #[trigger] order.contains(i),
        order.no_duplicates(),
        forall|j: int| 0 <= j < order.len() ==> #[trigger] arranged(files, order)[j] == files[order[j]],
{
    let n = files.len() as int;
    assert(order.no_duplicates()) by {
        assert forall|a: int, b: int| 0 <= a < order.len() && 0 <= b < order.len() && a != b implies order[a]
            != order[b] by {
            if a < b {
            } else {
            }
        }
    }
    order.unique_seq_to_set();
    lemma_int_range(0, n);
    let range = vstd::set_lib::set_int_range(0, n);
    assert(order.to_set().subset_of(range)) by {
        assert forall|x: int| order.to_set().contains(x) implies range.contains(x) by {
            let j = choose|j: int| 0 <= j < order.len() && order[j] == x;
            assert(0 <= order[j] < keys.len());
        }
    }
    lemma_subset_equality(order.to_set(), range);
    assert forall|i: int| 0 <= i < n implies #[trigger] order.contains(i) by {
        assert(range.contains(i));
        assert(order.to_set().contains(i));
    }
}

proof fn lemma_arrangements_agree_up_to(policy: KeepPolicy, keys: Seq<KeepKey>, o1: Seq<int>, o2: Seq<int>, j: int)
    requires
        is_keep_arrangement(policy, keys, o1),
        is_keep_arrangement(policy, keys, o2),
        0 <= j < o1.len(),
    ensures
        forall|i: int| 0 <= i <= j ==> o1[i] == o2[i],
    decreases j,
{
    if j > 0 {
        lemma_arrangements_agree_up_to(policy, keys, o1, o2, j - 1);
    }
    let files = Seq::new(keys.len(), |i: int| CandidateView { path: seq![], size: 0 });
    keeper_group_holds_every_file(policy, keys, files, o1);
    keeper_group_holds_every_file(policy, keys, files, o2);
    let a = o1[j];
    let b = o2[j];
    if a != b {
        assert(o1.contains(b));
        let k = choose|k: int| 0 <= k < o1.len() && o1[k] == b;
        if k < j {
            assert(o2[k] == b);
            assert(false);
        }
        assert(o2.contains(a));
        let l = choose|l: int| 0 <= l < o2.len() && o2[l] == a;
        if l < j {
            assert(o1[l] == a);
            assert(false);
        }
        lemma_keep_flip(policy, keys[a], keys[b]);
        assert(keep_order(policy, keys[o1[j]], keys[o1[k]]) != Order::Greater);
        assert(keep_order(policy, keys[o2[j]], keys[o2[l]]) != Order::Greater);
        if keep_order(policy, keys[a], keys[b]) == Order::Equal {
            assert(a < b);
            assert(keep_order(policy, keys[b], keys[a]) == Order::Equal);
            assert(b < a);
        }
        assert(false);
    }
}

/// The keeper order decides a group completely: there is one arrangement
/// of a group's files only, so the keeper and the order of the removable
/// files do not depend on anything else.
pub proof fn keep_arrangement_is_unique(policy: KeepPolicy, keys: Seq<KeepKey>, o1: Seq<int>, o2: Seq<int>)
    requires
        is_keep_arrangement(policy, keys, o1),
        is_keep_arrangement(policy, keys, o2),
    ensures
        o1 == o2,
{
    if o1.len() > 0 {
        lemma_arrangements_agree_up_to(policy, keys, o1, o2, o1.len() - 1);
    }
    assert(o1 =~= o2);
}

/// Whether `perm` lists each index below `n` exactly once.
pub open spec fn is_permutation(perm: Seq<int>, n: int) -> bool {
    &&& perm.len() == n
    &&& forall|i: int| 0 <= i < perm.len() ==> 0 <= #[trigger] perm[i] < n
    &&& forall|i: int, j: int| 0 <= i < j < perm.len() ==> perm[i] != perm[j]
}

/// The items of `s` in the order that `perm` gives.
pub open spec fn permuted<T>(s: Seq<T>, perm: Seq<int>) -> Seq<T> {
    perm.map_values(|k: int| s[k])
}

proof fn lemma_equal_keys_have_equal_text(policy: KeepPolicy, a: KeepKey, b: KeepKey)
    requires
        keep_order(policy, a, b) == Order::Equal,
    ensures
        a.text == b.text,
{
    lemma_lex_equal(a.text, b.text);
}

proof fn lemma_texts_differ(x: Seq<char>, y: Seq<char>)
    requires
        x != y,
    ensures
        chars_as_ints(x) != chars_as_ints(y),
{
    if chars_as_ints(x) == chars_as_ints(y) {
        assert(x.len() == chars_as_ints(x).len());
        assert forall|i: int| 0 <= i < x.len() implies x[i] == y[i] by {
            assert(chars_as_ints(x)[i] == chars_as_ints(y)[i]);
            vstd::utf8::char_u32_cast(x[i], x[i] as u32);
            vstd::utf8::char_u32_cast(y[i], y[i] as u32);
        }
        assert(x =~= y);
    }
}

/// Where no two files have the same pathname text, the keeper and the order
/// of the removable files do not depend on the order in which the files are
/// given: any reordering of the files (with their canonical forms) is
/// arranged into the same sequence.
pub proof fn keeper_does_not_depend_on_input_order(
    policy: KeepPolicy,
    files: Seq<CandidateView>,
    canonical: Seq<Seq<u8>>,
    prefers: Seq<Seq<u8>>,
    perm: Seq<int>,
    o1: Seq<int>,
    o2: Seq<int>,
)
    requires
        canonical.len() == files.len(),
        is_permutation(perm, files.len() as int),
        forall|i: int, j: int|
            0 <= i < j < files.len() ==> utf8_lossy(#[trigger] files[i].path) != utf8_lossy(#[trigger] files[j].path),
        is_keep_arrangement(policy, keys_of(files, canonical, prefers), o1),
        is_keep_arrangement(policy, keys_of(permuted(files, perm), permuted(canonical, perm), prefers), o2),
    ensures
        arranged(files, o1) == arranged(permuted(files, perm), o2),
{
    let n = files.len() as int;
    let keys = keys_of(files, canonical, prefers);
    let keys2 = keys_of(permuted(files, perm), permuted(canonical, perm), prefers);
    assert forall|k: int| 0 <= k < n implies #[trigger] keys2[k] == keys[perm[k]] by {}
    let back = o2.map_values(|x: int| perm[x]);
    assert forall|i: int, j: int| 0 <= i < n && 0 <= j < n && i != j implies #[trigger] keys[i].text != #[trigger] keys[j].text by {
        if i < j {
            lemma_texts_differ(utf8_lossy(files[i].path), utf8_lossy(files[j].path));
        } else {
            lemma_texts_differ(utf8_lossy(files[j].path), utf8_lossy(files[i].path));
        }
    }
    assert forall|i: int, j: int| 0 <= i < j < back.len() implies back[i] != back[j] by {
        assert(o2[i] != o2[j]);
        if o2[i] < o2[j] {
        } else {
        }
    }
    assert forall|i: int, j: int| 0 <= i < j < back.len() implies keep_order(policy, keys[back[i]], keys[back[j]])
        != Order::Greater by {
        assert(keys2[o2[i]] == keys[back[i]]);
        assert(keys2[o2[j]] == keys[back[j]]);
    }
    assert forall|i: int, j: int|
        0 <= i < j < back.len() && keep_order(policy, keys[back[i]], keys[back[j]]) == Order::Equal implies back[i]
        < back[j] by {
        lemma_equal_keys_have_equal_text(policy, keys[back[i]], keys[back[j]]);
        assert(back[i] != back[j]);
    }
    assert(is_keep_arrangement(policy, keys, back));
    keep_arrangement_is_unique(policy, keys, o1, back);
    assert(arranged(files, o1) =~= arranged(permuted(files, perm), o2));
}

/// With a quarantine configured, nothing under it is scanned.
pub proof fn quarantine_tree_is_excluded(path: Seq<u8>, quarantine: Seq<u8>, excludes: Seq<Seq<u8>>)
    requires
        path_starts_with(path, quarantine),
    ensures
        excluded(path, Some(quarantine), excludes),
{
}

/// Symbolic links are never followed or collected, wherever they are met.
pub proof fn links_are_never_collected(
    size: u64,
    dotdir: bool,
    excluded: bool,
    recursive: bool,
    force_dotdirs: bool,
    min_size: u64,
)
    ensures
        start_action(PathKind::Symlink, size, dotdir, recursive, force_dotdirs, min_size) == WalkAction::Skip,
        member_action(PathKind::Symlink, size, excluded, recursive, min_size) == WalkAction::Skip,
{
}

/// In a recursive scan a dot-directory given to the walk is read only when
/// forced; a scan that is not recursive reads the directory it is given,
/// dot-directory or not.
pub proof fn dotdirs_are_skipped_unless_forced(size: u64, recursive: bool, force_dotdirs: bool, min_size: u64)
    ensures
        start_action(PathKind::Directory, size, true, recursive, force_dotdirs, min_size) == if recursive
            && !force_dotdirs {
            WalkAction::Skip
        } else {
            WalkAction::Descend
        },
{
}

/// Excluded entries of a directory are never collected or walked,
/// whatever they are.
pub proof fn excluded_entries_are_skipped(kind: PathKind, size: u64, recursive: bool, min_size: u64)
    ensures
        member_action(kind, size, true, recursive, min_size) == WalkAction::Skip,
{
}

/// Cleanup never removes the filesystem root, the home directory or the
/// working directory, empty or not: a quarantine path that is one of them
/// is refused before anything is removed.
pub proof fn cleanup_spares_root_home_and_cwd(
    canonical: Seq<u8>,
    home: Option<Seq<u8>>,
    cwd: Option<Seq<u8>>,
    exists: bool,
    empty: bool,
    magic_ok: Option<bool>,
)
    requires
        components(canonical) == components(seq![47u8]) || (home is Some && components(canonical) == components(
            home->0,
        )) || (cwd is Some && components(canonical) == components(cwd->0)),
    ensures
        location_refusal(canonical, home, cwd) is Some,
        cleanup_decision(exists, empty, location_refusal(canonical, home, cwd), magic_ok) is Refuse,
{
}

/// A scan whose options ask for no action only reports: it never checks,
/// copies, moves or deletes anything.
pub proof fn scan_only_reports_by_default(o: OptionsView, p: ScanProgress)
    requires
        !acts(o),
    ensures
        !stage_acts(scan_stage(o, p)),
{
}

/// With a quarantine configured, files are removed only after the
/// quarantine copy took every one of them; a copy that failed or skipped a
/// file refuses the removal.
pub proof fn removal_follows_complete_quarantine(o: OptionsView, p: ScanProgress)
    requires
        o.quarantine_path is Some,
        scan_stage(o, p) is Remove || scan_stage(o, p) is RefuseRemoval,
    ensures
        p.quarantine is Some,
        scan_stage(o, p) is Remove <==> tally_complete(p.quarantine->0, p.removable),
{
}

/// Colours change no visible character of a framed document: drawn with
/// the manual's palette and with its escape sequences taken out, every line
/// is the line drawn without colours, wrapping and padding included, where
/// the document's own texts hold no escape character.
pub proof fn colours_change_no_visible_character(
    blocks: Seq<BlockView>,
    width: nat,
    on: ManualColors,
    off: ManualColors,
    ascii: bool,
)
    requires
        is_palette(on, true),
        is_palette(off, false),
        forall|i: int| 0 <= i < blocks.len() ==> block_esc_free(#[trigger] blocks[i]),
    ensures
        document_text(blocks, width, on, ascii).len() == document_text(blocks, width, off, ascii).len(),
        forall|i: int|
            0 <= i < document_text(blocks, width, on, ascii).len() ==> strip_sgr(
                #[trigger] document_text(blocks, width, on, ascii)[i],
            ) == document_text(blocks, width, off, ascii)[i],
{
    lemma_palettes_match(on, off);
    lemma_document_shows(blocks, width, on, off, ascii);
}

/// Every line of a framed document fits its frame: where each block fits
/// the inner width (its lines, option descriptions and words are no wider
/// than the room they get), every line shows exactly `width + 6`
/// characters, the frame's bars and margins around the inner width, drawn
/// with colours or without.
pub proof fn framed_lines_fit_the_frame(
    blocks: Seq<BlockView>,
    width: nat,
    on: ManualColors,
    off: ManualColors,
    ascii: bool,
)
    requires
        is_palette(on, true),
        is_palette(off, false),
        forall|i: int| 0 <= i < blocks.len() ==> block_esc_free(#[trigger] blocks[i]),
        forall|i: int| 0 <= i < blocks.len() ==> block_fits(#[trigger] blocks[i], width),
    ensures
        forall|i: int|
            0 <= i < document_text(blocks, width, off, ascii).len() ==> (#[trigger] document_text(
                blocks,
                width,
                off,
                ascii,
            )[i]).len() == width + 6,
        forall|i: int|
            0 <= i < document_text(blocks, width, on, ascii).len() ==> strip_sgr(
                #[trigger] document_text(blocks, width, on, ascii)[i],
            ).len() == width + 6,
{
    lemma_document_lengths(blocks, width, off, ascii);
    colours_change_no_visible_character(blocks, width, on, off, ascii);
}

/// The duplicate groups that the search finds hold what it promises: the
/// files of `files` are grouped by size, the files of each size group by
/// their hashes `hashes[s]`, each hash group by the byte comparisons
/// `answers[s][h]`, and each resulting group of two or more files gets its
/// keeper. Then every group has at least one file to remove, all its files
/// have the keeper's size, one of its files was compared byte for byte with
/// every other and each comparison was answered equal, and no scanned file
/// occurs in the groups more often than it was scanned.
pub proof fn duplicate_search_groups_are_sound(
    files: Seq<CandidateView>,
    size_groups: Seq<Seq<CandidateView>>,
    hashes: Seq<Seq<Option<u64>>>,
    answers: Seq<Seq<spec_fn(int, int) -> bool>>,
    policy: KeepPolicy,
    canonical: Seq<Seq<Vec<u8>>>,
    prefers: Seq<Vec<u8>>,
    r: Seq<GroupView>,
)
    requires
        is_size_grouping(files, size_groups),
        forall|s: int| 0 <= s < size_groups.len() ==> (#[trigger] hashes[s]).len() == size_groups[s].len(),
        r.len() == shared_positions(search_content(size_groups, hashes, answers)).len(),
        forall|j: int|
            0 <= j < r.len() ==> {
                let content = search_content(size_groups, hashes, answers);
                let p = shared_positions(content)[j];
                is_kept_group(policy, content[p], canonical[p], prefers, #[trigger] r[j])
            },
    ensures
        forall|j: int| 0 <= j < r.len() ==> (#[trigger] r[j]).remove.len() >= 1,
        forall|j: int, k: int|
            0 <= j < r.len() && 0 <= k < r[j].remove.len() ==> (#[trigger] r[j].remove[k]).size == r[j].keep.size,
        members_of(r.map_values(|g: GroupView| group_members(g))).subset_of(files.to_multiset()),
        forall|j: int| 0 <= j < r.len() ==> confirmed_group(size_groups, hashes, answers, group_members(#[trigger] r[j])),
{
    let content = search_content(size_groups, hashes, answers);
    lemma_search_compared(size_groups, hashes, answers);
    lemma_search_content(files, size_groups, hashes, answers);
    lemma_shared_positions(content);
    lemma_members_shared(content);
    let ms = r.map_values(|g: GroupView| group_members(g));
    let sh = shared(content);
    assert forall|j: int| 0 <= j < r.len() implies (#[trigger] ms[j]).to_multiset() == sh[j].to_multiset()
        && r[j].remove.len() >= 1 && confirmed_group(size_groups, hashes, answers, group_members(r[j])) && forall|k: int| 0 <= k < r[j].remove.len() ==> (#[trigger] r[j].remove[k]).size
        == r[j].keep.size by {
        let p = shared_positions(content)[j];
        let c = content[p];
        assert(is_kept_group(policy, c, canonical[p], prefers, r[j]));
        let keys = keys_of(c, paths_view(canonical[p]), paths_view(prefers));
        let order = choose|order: Seq<int>|
            {
                &&& is_keep_arrangement(policy, keys, order)
                &&& group_members(r[j]) == arranged(c, order)
            };
        keeper_group_holds_every_file(policy, keys, c, order);
        lemma_arranged_members(c, order);
        assert(ms[j] == arranged(c, order));
        assert(sh[j] == c);
        assert(c.len() >= 2);
        assert(group_members(r[j]).len() == 1 + r[j].remove.len());
        assert(order.contains(0));
        let o = choose|o: int| 0 <= o < order.len() && order[o] == 0;
        let m = group_members(r[j]);
        assert forall|k: int| 0 <= k < m.len() && k != o implies compared_equal(size_groups, hashes, answers, #[trigger] m[k], m[o]) by {
            assert(m[k] == c[order[k]]);
            assert(m[o] == c[0]);
            assert(order[k] != order[o]);
            assert(0 < order[k] < c.len());
            assert(content[p][order[k]] == c[order[k]]);
        }
        assert(crate::search::confirmed_by(size_groups, hashes, answers, m, o));
        assert(confirmed_group(size_groups, hashes, answers, m));
        assert forall|k: int| 0 <= k < r[j].remove.len() implies (#[trigger] r[j].remove[k]).size == r[j].keep.size by {
            assert(group_members(r[j])[k + 1] == r[j].remove[k]);
            assert(group_members(r[j])[0] == r[j].keep);
            assert(arranged(c, order)[k + 1] == c[order[k + 1]]);
            assert(arranged(c, order)[0] == c[order[0]]);
            assert(c[order[k + 1]].size == c[0].size);
            assert(c[order[0]].size == c[0].size);
        }
    }
    assert forall|j: int, k: int| 0 <= j < r.len() && 0 <= k < r[j].remove.len() implies (#[trigger] r[j].remove[k]).size
        == r[j].keep.size by {
        assert(ms[j].to_multiset() == sh[j].to_multiset());
    }
    assert forall|j: int| 0 <= j < r.len() implies (#[trigger] r[j]).remove.len() >= 1 by {
        assert(ms[j].to_multiset() == sh[j].to_multiset());
    }
    assert forall|j: int| 0 <= j < r.len() implies confirmed_group(size_groups, hashes, answers, group_members(#[trigger] r[j])) by {
        assert(ms[j].to_multiset() == sh[j].to_multiset());
    }
    lemma_members_alike(ms, sh);
    lemma_subset_trans_views(members_of(ms), members_of(content), files.to_multiset());
}

proof fn lemma_subset_trans_views(a: Multiset<CandidateView>, b: Multiset<CandidateView>, c: Multiset<CandidateView>)
    requires
        a.subset_of(b),
        b.subset_of(c),
    ensures
        a.subset_of(c),
{
}

/// Colours change no visible character of the help, the manual or the
/// classification help: drawn with the manual's palette and with the
/// escape sequences taken out, each of their lines is the line drawn
/// without colours, wrapping and padding included, at every width, in
/// either frame and on every system.
pub proof fn shipped_documents_read_the_same_without_colours(
    width: nat,
    on: ManualColors,
    off: ManualColors,
    ascii: bool,
    os: TargetOs,
)
    requires
        is_palette(on, true),
        is_palette(off, false),
    ensures
        document_text(help_blocks(), width, on, ascii).len() == document_text(help_blocks(), width, off, ascii).len(),
        forall|i: int|
            0 <= i < document_text(help_blocks(), width, on, ascii).len() ==> strip_sgr(
                #[trigger] document_text(help_blocks(), width, on, ascii)[i],
            ) == document_text(help_blocks(), width, off, ascii)[i],
        document_text(manual_blocks(os), width, on, ascii).len() == document_text(manual_blocks(os), width, off, ascii).len(),
        forall|i: int|
            0 <= i < document_text(manual_blocks(os), width, on, ascii).len() ==> strip_sgr(
                #[trigger] document_text(manual_blocks(os), width, on, ascii)[i],
            ) == document_text(manual_blocks(os), width, off, ascii)[i],
        document_text(classification_blocks(os), width, on, ascii).len() == document_text(
            classification_blocks(os),
            width,
            off,
            ascii,
        ).len(),
        forall|i: int|
            0 <= i < document_text(classification_blocks(os), width, on, ascii).len() ==> strip_sgr(
                #[trigger] document_text(classification_blocks(os), width, on, ascii)[i],
            ) == document_text(classification_blocks(os), width, off, ascii)[i],
{
    lemma_help_blocks_esc_free();
    lemma_manual_blocks_esc_free(os);
    lemma_classification_blocks_esc_free(os);
    colours_change_no_visible_character(help_blocks(), width, on, off, ascii);
    colours_change_no_visible_character(manual_blocks(os), width, on, off, ascii);
    colours_change_no_visible_character(classification_blocks(os), width, on, off, ascii);
}

proof fn lemma_short_blocks_fit(blocks: Seq<BlockView>, k: nat, line: nat, description: nat, width: nat)
    requires
        blocks_short(blocks, k, line, description),
        k + 4 <= width,
        line <= width,
        description + 30 <= width,
    ensures
        forall|i: int| 0 <= i < blocks.len() ==> block_fits(#[trigger] blocks[i], width),
{
    assert forall|i: int| 0 <= i < blocks.len() implies block_fits(#[trigger] blocks[i], width) by {
        lemma_block_short_fits(blocks[i], k, line, description, width);
    }
}

/// The help, the manual and the classification help fit their frames:
/// every line shows exactly `width + 6` characters, drawn with colours or
/// without, in either frame and on every system, for the manual and the
/// classification help at every inner width of 40 columns or more (so at
/// every width the frame is drawn at), and for the help from 89 columns.
/// (Below 89 some option descriptions of the help are wider than their
/// column, and their lines reach past the frame.)
pub proof fn shipped_documents_fit_the_frame(width: nat, on: ManualColors, off: ManualColors, ascii: bool, os: TargetOs)
    requires
        is_palette(on, true),
        is_palette(off, false),
        width >= 40,
    ensures
        width >= 89 ==> forall|i: int|
            0 <= i < document_text(help_blocks(), width, off, ascii).len() ==> (#[trigger] document_text(
                help_blocks(),
                width,
                off,
                ascii,
            )[i]).len() == width + 6,
        width >= 89 ==> forall|i: int|
            0 <= i < document_text(help_blocks(), width, on, ascii).len() ==> strip_sgr(
                #[trigger] document_text(help_blocks(), width, on, ascii)[i],
            ).len() == width + 6,
        forall|i: int|
            0 <= i < document_text(manual_blocks(os), width, off, ascii).len() ==> (#[trigger] document_text(
                manual_blocks(os),
                width,
                off,
                ascii,
            )[i]).len() == width + 6,
        forall|i: int|
            0 <= i < document_text(manual_blocks(os), width, on, ascii).len() ==> strip_sgr(
                #[trigger] document_text(manual_blocks(os), width, on, ascii)[i],
            ).len() == width + 6,
        forall|i: int|
            0 <= i < document_text(classification_blocks(os), width, off, ascii).len() ==> (#[trigger] document_text(
                classification_blocks(os),
                width,
                off,
                ascii,
            )[i]).len() == width + 6,
        forall|i: int|
            0 <= i < document_text(classification_blocks(os), width, on, ascii).len() ==> strip_sgr(
                #[trigger] document_text(classification_blocks(os), width, on, ascii)[i],
            ).len() == width + 6,
{
    lemma_help_blocks_esc_free();
    lemma_manual_blocks_esc_free(os);
    lemma_classification_blocks_esc_free(os);
    lemma_help_blocks_short();
    lemma_manual_blocks_short(os);
    lemma_classification_blocks_short(os);
    if width >= 89 {
        lemma_short_blocks_fit(help_blocks(), 80, 60, 59, width);
        framed_lines_fit_the_frame(help_blocks(), width, on, off, ascii);
    }
    lemma_short_blocks_fit(manual_blocks(os), 36, 40, 0, width);
    lemma_short_blocks_fit(classification_blocks(os), 36, 40, 0, width);
    framed_lines_fit_the_frame(manual_blocks(os), width, on, off, ascii);
    framed_lines_fit_the_frame(classification_blocks(os), width, on, off, ascii);
}

/// The keeper of each group the search returns is the one keeper
/// selection chooses: it ranks before or level with every removable file,
/// and choosing again among the group's own files (in the group's order,
/// with their canonical forms) gives the same keeper and the same order of
/// removable files.
pub proof fn search_keepers_are_chosen_again(
    policy: KeepPolicy,
    content: Seq<CandidateView>,
    canonical: Seq<Vec<u8>>,
    prefers: Seq<Vec<u8>>,
    g: GroupView,
)
    requires
        is_kept_group(policy, content, canonical, prefers, g),
    ensures
        exists|order: Seq<int>|
            {
                let keys = keys_of(content, paths_view(canonical), paths_view(prefers));
                &&& #[trigger] is_permutation(order, content.len() as int)
                &&& group_members(g) == permuted(content, order)
                &&& forall|k: int|
                    1 <= k < content.len() ==> keep_order(policy, keys[order[0]], keys[#[trigger] order[k]])
                        != Order::Greater
                &&& forall|again: Seq<int>|
                    is_keep_arrangement(
                        policy,
                        keys_of(group_members(g), permuted(paths_view(canonical), order), paths_view(prefers)),
                        again,
                    ) ==> #[trigger] arranged(group_members(g), again) == group_members(g)
            },
{
    let keys = keys_of(content, paths_view(canonical), paths_view(prefers));
    let order = choose|order: Seq<int>|
        {
            &&& is_keep_arrangement(policy, keys, order)
            &&& group_members(g) == arranged(content, order)
        };
    keeper_group_holds_every_file(policy, keys, content, order);
    let m = group_members(g);
    assert(arranged(content, order) =~= permuted(content, order));
    let n = content.len() as int;
    let keys2 = keys_of(m, permuted(paths_view(canonical), order), paths_view(prefers));
    assert forall|i: int| 0 <= i < n implies #[trigger] keys2[i] == keys[order[i]] by {}
    let id = Seq::new(n as nat, |i: int| i);
    assert(is_keep_arrangement(policy, keys2, id)) by {
        assert forall|i: int, j: int| 0 <= i < j < id.len() implies keep_order(policy, keys2[id[i]], keys2[id[j]])
            != Order::Greater by {
            assert(keys2[i] == keys[order[i]]);
            assert(keys2[j] == keys[order[j]]);
        }
    }
    assert forall|again: Seq<int>|
        is_keep_arrangement(policy, keys2, again) implies #[trigger] arranged(m, again) == m by {
        keep_arrangement_is_unique(policy, keys2, again, id);
        assert(arranged(m, again) =~= m);
    }
    assert forall|k: int| 1 <= k < content.len() implies keep_order(policy, keys[order[0]], keys[#[trigger] order[k]])
        != Order::Greater by {}
    assert(is_permutation(order, n)) by {
        assert forall|i: int, j: int| 0 <= i < j < order.len() implies order[i] != order[j] by {}
    }
    assert(m == permuted(content, order));
}

/// The path lists of an accepted scan command line are exactly those
/// given: its excluded paths are the paths listed after each `--exclude`
/// or `-E`, its protected paths those after each `--protect` or `-P`, and
/// its preferred paths those after each `--prefer` or `-p`, where an option
/// is read, in order, with `~` expanded.
pub proof fn accepted_scan_lists_follow_arguments(
    args: Seq<Seq<char>>,
    use_colors: bool,
    home: Option<Seq<u8>>,
    o: OptionsView,
)
    requires
        parse_outcome(args, use_colors, home) == OutcomeView::Run(CommandView::Scan(o)),
    ensures
        o.excludes == paths_given(args, 0, home, PathList::Exclude),
        o.protected_paths == paths_given(args, 0, home, PathList::Protect),
        o.prefer_paths == paths_given(args, 0, home, PathList::Prefer),
{
    let st = crate::args::initial_state(use_colors);
    crate::args::lemma_scan_loop_runs_nothing(args, 0, st, home);
    assert(parse_outcome(args, use_colors, home) == crate::args::scan_outcome(args, use_colors, home));
    crate::args::lemma_lists_follow_arguments(args, 0, st, home, PathList::Exclude);
    crate::args::lemma_lists_follow_arguments(args, 0, st, home, PathList::Protect);
    crate::args::lemma_lists_follow_arguments(args, 0, st, home, PathList::Prefer);
    match scan_loop(args, 0, st, home) {
        LoopEnd::Finished(end) => {
            assert(o == crate::args::options_of(end));
            assert(Seq::<Seq<u8>>::empty() + paths_given(args, 0, home, PathList::Exclude) =~= paths_given(args, 0, home, PathList::Exclude));
            assert(Seq::<Seq<u8>>::empty() + paths_given(args, 0, home, PathList::Protect) =~= paths_given(args, 0, home, PathList::Protect));
            assert(Seq::<Seq<u8>>::empty() + paths_given(args, 0, home, PathList::Prefer) =~= paths_given(args, 0, home, PathList::Prefer));
        },
        LoopEnd::Exit(_) => {},
    }
}

/// The keep score of a pathname text: 3 for a path in or under a
/// `Downloads` directory; otherwise 2 for a path under `.cache`, `.cargo`,
/// `.gradle` or `.local/share`; otherwise 0. So a file under one of those
/// locations is never kept before an equally deep file under none of them.
pub proof fn keep_scores_mark_replaceable_locations(t: Seq<char>)
    ensures
        text_contains(t, "/Downloads/"@) || text_ends_with(t, "/Downloads"@) ==> keep_score(t) == 3,
        !(text_contains(t, "/Downloads/"@) || text_ends_with(t, "/Downloads"@)) && (text_contains(t, "/.cache/"@)
            || text_contains(t, "/.cargo/"@) || text_contains(t, "/.gradle/"@) || text_contains(t, "/.local/share/"@))
            ==> keep_score(t) == 2,
        !(text_contains(t, "/Downloads/"@) || text_ends_with(t, "/Downloads"@) || text_contains(t, "/.cache/"@)
            || text_contains(t, "/.cargo/"@) || text_contains(t, "/.gradle/"@) || text_contains(t, "/.local/share/"@))
            ==> keep_score(t) == 0,
{
}

/// The walk collects a path exactly when it is a regular file of at least
/// the minimum size (and, for an entry of a directory, not excluded): no
/// smaller file, link, directory or special file is ever a candidate.
pub proof fn only_files_of_the_minimum_size_are_collected(
    kind: PathKind,
    size: u64,
    dotdir: bool,
    excluded: bool,
    recursive: bool,
    force_dotdirs: bool,
    min_size: u64,
)
    ensures
        (member_action(kind, size, excluded, recursive, min_size) == WalkAction::Collect) == (!excluded && kind
            == PathKind::File && size >= min_size),
        (start_action(kind, size, dotdir, recursive, force_dotdirs, min_size) == WalkAction::Collect) == (kind
            == PathKind::File && size >= min_size),
{
}

proof fn lemma_no_root_holds(p: Seq<u8>, roots: Seq<Seq<u8>>)
    requires
        forall|k: int| 0 <= k < roots.len() ==> !path_starts_with(p, #[trigger] roots[k]),
    ensures
        deepest_root(p, roots) is None,
    decreases roots.len(),
{
    if roots.len() > 0 {
        let rd = roots.drop_last();
        assert forall|k: int| 0 <= k < rd.len() implies !path_starts_with(p, #[trigger] rd[k]) by {
            assert(rd[k] == roots[k]);
        }
        lemma_no_root_holds(p, rd);
        assert(roots.last() == roots[roots.len() - 1]);
    }
}

/// A path with a component named `target`, `build`, `dist`, `.cache`,
/// `__pycache__`, `node_modules` or `.gradle` is generated, and, where no
/// protected root holds its canonical form, its class is Generated.
pub proof fn generated_directories_make_generated_paths(
    path: Seq<u8>,
    canonical: Seq<u8>,
    roots: Seq<Seq<u8>>,
    i: int,
    name: Seq<char>,
)
    requires
        name == "target"@ || name == "build"@ || name == "dist"@ || name == ".cache"@ || name == "__pycache__"@
            || name == "node_modules"@ || name == ".gradle"@,
        0 <= i < components(path).len(),
        components(path)[i] == ComponentView::Normal(encode_utf8(name)),
    ensures
        is_generated(path),
        (forall|k: int| 0 <= k < roots.len() ==> !path_starts_with(canonical, #[trigger] roots[k])) ==> class_of(
            path,
            canonical,
            roots,
        ) == PathClass::Generated,
{
    let names = generated_names();
    let k: int = if name == "target"@ {
        0
    } else if name == "build"@ {
        1
    } else if name == "dist"@ {
        2
    } else if name == ".cache"@ {
        3
    } else if name == "__pycache__"@ {
        4
    } else if name == "node_modules"@ {
        5
    } else {
        6
    };
    assert(names[k] == name);
    assert(is_generated_component(components(path)[i]));
    if forall|k: int| 0 <= k < roots.len() ==> !path_starts_with(canonical, #[trigger] roots[k]) {
        lemma_no_root_holds(canonical, roots);
    }
}

/// A scan that finishes after a failed copy into the quarantine, a failed
/// move to the Trash or a failed deletion finishes failed, and one without
/// such a failure finishes well.
pub proof fn failed_actions_fail_the_scan(o: OptionsView, p: ScanProgress)
    requires
        p.groups > 0,
        scan_stage(o, p) is Finish,
    ensures
        scan_stage(o, p) == (ScanStage::Finish {
            failed: (p.quarantine is Some && p.quarantine->0.failed > 0) || (p.trash_failed is Some
                && p.trash_failed->0 > 0) || (p.delete_failed is Some && p.delete_failed->0 > 0),
        }),
{
}

proof fn lemma_first_prefix(p: Seq<u8>, prefers: Seq<Seq<u8>>, from: int, k: int)
    requires
        0 <= from <= k < prefers.len(),
        path_starts_with(p, prefers[k]),
        forall|j: int| from <= j < k ==> !path_starts_with(p, #[trigger] prefers[j]),
    ensures
        first_prefix_from(p, prefers, from) == Some(k),
    decreases k - from,
{
    if from < k {
        lemma_first_prefix(p, prefers, from + 1, k);
    }
}

proof fn lemma_no_prefix(p: Seq<u8>, prefers: Seq<Seq<u8>>, from: int)
    requires
        0 <= from,
        forall|j: int| from <= j < prefers.len() ==> !path_starts_with(p, #[trigger] prefers[j]),
    ensures
        first_prefix_from(p, prefers, from) is None,
    decreases prefers.len() - from,
{
    if from < prefers.len() {
        lemma_no_prefix(p, prefers, from + 1);
    }
}

/// A file's preference rank is the place of the first preferred tree (in
/// the order given) that holds its canonical form, and it has none where
/// no preferred tree holds it.
pub proof fn preference_rank_is_the_first_tree_that_holds(canonical: Seq<u8>, prefers: Seq<Seq<u8>>, k: int)
    ensures
        0 <= k < prefers.len() && path_starts_with(canonical, prefers[k]) && (forall|j: int|
            0 <= j < k ==> !path_starts_with(canonical, #[trigger] prefers[j])) ==> preferred_rank(canonical, prefers)
            == Some(k),
        (forall|j: int| 0 <= j < prefers.len() ==> !path_starts_with(canonical, #[trigger] prefers[j]))
            ==> preferred_rank(canonical, prefers) is None,
{
    if 0 <= k < prefers.len() && path_starts_with(canonical, prefers[k]) && (forall|j: int|
        0 <= j < k ==> !path_starts_with(canonical, #[trigger] prefers[j])) {
        lemma_first_prefix(canonical, prefers, 0, k);
    }
    if forall|j: int| 0 <= j < prefers.len() ==> !path_starts_with(canonical, #[trigger] prefers[j]) {
        lemma_no_prefix(canonical, prefers, 0);
    }
}

/// How two files rank for keeping, under either policy: a file under a
/// preferred tree comes before one under none, and of two preferred files
/// the one under the earlier tree comes first. Between files under no
/// preferred tree, under the highest-version policy a file with a version
/// comes before one without and a higher version first; otherwise (and
/// under the default policy) a lower keep score comes first, then fewer
/// path components, then the smaller pathname text.
pub proof fn keeper_ranking(
    policy: KeepPolicy,
    pa: Seq<u8>,
    ca: Seq<u8>,
    pb: Seq<u8>,
    cb: Seq<u8>,
    prefers: Seq<Seq<u8>>,
)
    ensures
        ({
            let a = keep_key(pa, ca, prefers);
            let b = keep_key(pb, cb, prefers);
            let plain = preferred_rank(ca, prefers) is None && preferred_rank(cb, prefers) is None && (policy == KeepPolicy::Default || (best_version(pa) is None
                && best_version(pb) is None));
            &&& preferred_rank(ca, prefers) is Some && preferred_rank(cb, prefers) is None ==> keep_order(policy, a, b) == Order::Less
            &&& preferred_rank(ca, prefers) is Some && preferred_rank(cb, prefers) is Some && preferred_rank(ca, prefers)->0 < preferred_rank(cb, prefers)->0 ==> keep_order(policy, a, b) == Order::Less
            &&& policy == KeepPolicy::HighestVersion && preferred_rank(ca, prefers) is None && preferred_rank(cb, prefers) is None && best_version(pa) is Some
                && best_version(pb) is None ==> keep_order(policy, a, b) == Order::Less
            &&& policy == KeepPolicy::HighestVersion && preferred_rank(ca, prefers) is None && preferred_rank(cb, prefers) is None && best_version(pa) is Some
                && best_version(pb) is Some && lex_order(best_version(pb)->0, best_version(pa)->0) == Order::Less ==> keep_order(policy, a, b)
                == Order::Less
            &&& plain && keep_score(utf8_lossy(pa)) < keep_score(utf8_lossy(pb)) ==> keep_order(policy, a, b)
                == Order::Less
            &&& plain && keep_score(utf8_lossy(pa)) == keep_score(utf8_lossy(pb)) && components(pa).len()
                < components(pb).len() ==> keep_order(policy, a, b) == Order::Less
            &&& plain && keep_score(utf8_lossy(pa)) == keep_score(utf8_lossy(pb)) && components(pa).len()
                == components(pb).len() && lex_order(chars_as_ints(utf8_lossy(pa)), chars_as_ints(utf8_lossy(pb)))
                == Order::Less ==> keep_order(policy, a, b) == Order::Less
        }),
{
}

/// The walk reads a directory it meets inside another exactly when the
/// scan is recursive and the directory is not excluded, and a directory it
/// is given unless the scan is recursive, the name begins with a dot and
/// dot-directories are not forced. Nothing else is read.
pub proof fn walk_reads_directories_as_asked(
    kind: PathKind,
    size: u64,
    dotdir: bool,
    excluded: bool,
    recursive: bool,
    force_dotdirs: bool,
    min_size: u64,
)
    ensures
        (member_action(kind, size, excluded, recursive, min_size) == WalkAction::Descend) == (!excluded && kind
            == PathKind::Directory && recursive),
        (start_action(kind, size, dotdir, recursive, force_dotdirs, min_size) == WalkAction::Descend) == (kind
            == PathKind::Directory && !(recursive && dotdir && !force_dotdirs)),
{
}

/// A path is left out of the walk exactly when it lies in the quarantine
/// or under one of the excluded paths.
pub proof fn exclusion_follows_the_excluded_trees(path: Seq<u8>, quarantine: Option<Seq<u8>>, excludes: Seq<Seq<u8>>, k: int)
    ensures
        quarantine is Some && path_starts_with(path, quarantine->0) ==> excluded(path, quarantine, excludes),
        0 <= k < excludes.len() && path_starts_with(path, excludes[k]) ==> excluded(path, quarantine, excludes),
        !(quarantine is Some && path_starts_with(path, quarantine->0)) && (forall|j: int|
            0 <= j < excludes.len() ==> !path_starts_with(path, #[trigger] excludes[j])) ==> !excluded(
            path,
            quarantine,
            excludes,
        ),
{
}

/// A path whose canonical form lies under a protected root is Protected,
/// whatever its name; one under no protected root and with no generated
/// directory name among its components is Ordinary.
pub proof fn protected_roots_decide_first(path: Seq<u8>, canonical: Seq<u8>, roots: Seq<Seq<u8>>, k: int)
    ensures
        0 <= k < roots.len() && path_starts_with(canonical, roots[k]) ==> class_of(path, canonical, roots)
            == PathClass::Protected,
        (forall|j: int| 0 <= j < roots.len() ==> !path_starts_with(canonical, #[trigger] roots[j])) && !is_generated(
            path,
        ) ==> class_of(path, canonical, roots) == PathClass::Ordinary,
{
    if 0 <= k < roots.len() && path_starts_with(canonical, roots[k]) {
        lemma_some_root_holds(canonical, roots, k);
    }
    if forall|j: int| 0 <= j < roots.len() ==> !path_starts_with(canonical, #[trigger] roots[j]) {
        lemma_no_root_holds(canonical, roots);
    }
}

proof fn lemma_some_root_holds(p: Seq<u8>, roots: Seq<Seq<u8>>, k: int)
    requires
        0 <= k < roots.len(),
        path_starts_with(p, roots[k]),
    ensures
        deepest_root(p, roots) is Some,
    decreases roots.len(),
{
    if k < roots.len() - 1 {
        let rd = roots.drop_last();
        assert(rd[k] == roots[k]);
        lemma_some_root_holds(p, rd, k);
    } else {
        assert(roots.last() == roots[k]);
    }
}

/// The class of a group is the most restrictive class of its members: a
/// group with a protected member is Protected, and a group with a
/// generated member is at least Generated.
pub proof fn group_class_is_the_most_restrictive(paths: Seq<Seq<u8>>, canonicals: Seq<Seq<u8>>, roots: Seq<Seq<u8>>, k: int)
    requires
        0 <= k < paths.len(),
        canonicals.len() == paths.len(),
    ensures
        class_rank(max_class_of(paths, canonicals, roots)) >= class_rank(class_of(paths[k], canonicals[k], roots)),
        class_of(paths[k], canonicals[k], roots) == PathClass::Protected ==> max_class_of(paths, canonicals, roots)
            == PathClass::Protected,
    decreases paths.len(),
{
    lemma_max_class_bounds(paths, canonicals, roots);
    if k < paths.len() - 1 {
        group_class_is_the_most_restrictive(paths.drop_last(), canonicals.drop_last(), roots, k);
        assert(paths.drop_last()[k] == paths[k]);
        assert(canonicals.drop_last()[k] == canonicals[k]);
    } else {
        assert(paths.last() == paths[k]);
    }
}

proof fn lemma_max_class_bounds(paths: Seq<Seq<u8>>, canonicals: Seq<Seq<u8>>, roots: Seq<Seq<u8>>)
    ensures
        class_rank(max_class_of(paths, canonicals, roots)) <= class_rank(PathClass::Protected),
        class_rank(max_class_of(paths, canonicals, roots)) == class_rank(PathClass::Protected) ==> max_class_of(
            paths,
            canonicals,
            roots,
        ) == PathClass::Protected,
    decreases paths.len(),
{
    if paths.len() > 0 {
        lemma_max_class_bounds(paths.drop_last(), canonicals.drop_last(), roots);
    }
}

/// The protected roots hold `/boot`, `/etc` and `/root` on every system,
/// `/usr/local/etc` on FreeBSD and `/usr/pkg/etc` on NetBSD, `.ssh`,
/// `.gnupg` and `.config` under the home directory when it is known, and
/// every path the user asked to protect.
pub proof fn protected_roots_hold_the_system_and_the_asked(
    protected_paths: Seq<Seq<u8>>,
    home: Option<Seq<u8>>,
    os: TargetOs,
    k: int,
)
    ensures
        protected_root_list(protected_paths, home, os).contains(encode_utf8("/boot"@)),
        protected_root_list(protected_paths, home, os).contains(encode_utf8("/etc"@)),
        protected_root_list(protected_paths, home, os).contains(encode_utf8("/root"@)),
        os == TargetOs::FreeBsd ==> protected_root_list(protected_paths, home, os).contains(
            encode_utf8("/usr/local/etc"@),
        ),
        os == TargetOs::NetBsd ==> protected_root_list(protected_paths, home, os).contains(encode_utf8("/usr/pkg/etc"@)),
        home is Some ==> protected_root_list(protected_paths, home, os).contains(join(home->0, encode_utf8(".ssh"@))),
        home is Some ==> protected_root_list(protected_paths, home, os).contains(join(home->0, encode_utf8(".gnupg"@))),
        home is Some ==> protected_root_list(protected_paths, home, os).contains(
            join(home->0, encode_utf8(".config"@)),
        ),
        0 <= k < protected_paths.len() ==> protected_root_list(protected_paths, home, os).contains(protected_paths[k]),
{
    let l = protected_root_list(protected_paths, home, os);
    let by_os: Seq<Seq<u8>> = match os {
        TargetOs::FreeBsd => seq![encode_utf8("/usr/local/etc"@)],
        TargetOs::NetBsd => seq![encode_utf8("/usr/pkg/etc"@)],
        TargetOs::Other => seq![],
    };
    let in_home: Seq<Seq<u8>> = match home {
        Some(h) => seq![join(h, encode_utf8(".ssh"@)), join(h, encode_utf8(".gnupg"@)), join(h, encode_utf8(".config"@))],
        None => seq![],
    };
    assert(l[0] == encode_utf8("/boot"@));
    assert(l[1] == encode_utf8("/etc"@));
    assert(l[2] == encode_utf8("/root"@));
    if os != TargetOs::Other {
        assert(l[3] == by_os[0]);
    }
    if home is Some {
        let b: int = 3 + by_os.len() as int;
        assert(l[b] == in_home[0]);
        assert(l[b + 1] == in_home[1]);
        assert(l[b + 2] == in_home[2]);
    }
    if 0 <= k < protected_paths.len() {
        let b: int = 3 + by_os.len() as int + in_home.len() as int;
        assert(l[b + k] == protected_paths[k]);
    }
}

/// The values of an accepted scan command line are those given: it scans
/// the path given where an option is read (with `~` expanded), its
/// minimum size is the size of the last value given after `--min-size`,
/// its quarantine path the last value given after `--quarantine` or `-q`
/// (none where none is given), and its report path the last value given
/// after `--report` or `-r` (none where none is given).
pub proof fn accepted_scan_values_follow_arguments(
    args: Seq<Seq<char>>,
    use_colors: bool,
    home: Option<Seq<u8>>,
    o: OptionsView,
)
    requires
        parse_outcome(args, use_colors, home) == OutcomeView::Run(CommandView::Scan(o)),
    ensures
        root_given(args, 0) is Some && o.root_path == expand_home(root_given(args, 0)->0, home),
        value_given(args, 0, ValueOption::MinSize) is Some && size_value(value_given(args, 0, ValueOption::MinSize)->0)
            == Some(o.min_size),
        o.quarantine_path == match value_given(args, 0, ValueOption::Quarantine) {
            Some(t) => Some(expand_home(t, home)),
            None => None,
        },
        o.report_path == match value_given(args, 0, ValueOption::Report) {
            Some(t) => Some(expand_home(t, home)),
            None => None,
        },
{
    let st = crate::args::initial_state(use_colors);
    crate::args::lemma_scan_loop_runs_nothing(args, 0, st, home);
    assert(parse_outcome(args, use_colors, home) == crate::args::scan_outcome(args, use_colors, home));
    crate::args::lemma_values_follow_arguments(args, 0, st, home);
    match scan_loop(args, 0, st, home) {
        LoopEnd::Finished(end) => {
            assert(o == crate::args::options_of(end));
        },
        LoopEnd::Exit(_) => {},
    }
}

proof fn lemma_leading_digits_of(d: Seq<char>, u: Seq<char>)
    requires
        forall|k: int| 0 <= k < d.len() ==> is_digit_char(#[trigger] d[k]),
        u.len() == 0 || !is_digit_char(u[0]),
    ensures
        leading_digits(d + u) == d.len(),
    decreases d.len(),
{
    if d.len() > 0 {
        assert((d + u).drop_first() =~= d.drop_first() + u);
        assert forall|k: int| 0 <= k < d.drop_first().len() implies is_digit_char(#[trigger] d.drop_first()[k]) by {
            assert(d.drop_first()[k] == d[k + 1]);
        }
        lemma_leading_digits_of(d.drop_first(), u);
        assert((d + u)[0] == d[0]);
    } else {
        assert(d + u =~= u);
    }
}

/// A size argument made of decimal digits followed by a unit counts the
/// number in units: the number times 1 for no unit or `b`, times 1024 for
/// `k`, `kb` or `kib`, times 1024² for `m`, `mb` or `mib`, times 1024³ for
/// `g`, `gb` or `gib`, and times 1024⁴ for `t`, `tb` or `tib` (the unit
/// taken in lowercase), while it fits in 64 bits; any other unit is no
/// size.
pub proof fn size_arguments_count_in_their_unit(d: Seq<char>, u: Seq<char>)
    requires
        d.len() > 0,
        forall|k: int| 0 <= k < d.len() ==> is_digit_char(#[trigger] d[k]),
        forall|k: int| 0 <= k < u.len() ==> !is_digit_char(#[trigger] u[k]),
        u.len() == 0 || !is_white_space(u.last()),
    ensures
        ({
            let n = numeral_value(d);
            let l = lowercase(u);
            let m: nat = if l == ""@ || l == "b"@ {
                1
            } else if l == "k"@ || l == "kb"@ || l == "kib"@ {
                1024
            } else if l == "m"@ || l == "mb"@ || l == "mib"@ {
                1048576
            } else if l == "g"@ || l == "gb"@ || l == "gib"@ {
                1073741824
            } else if l == "t"@ || l == "tb"@ || l == "tib"@ {
                1099511627776
            } else {
                0
            };
            &&& m > 0 && n * m <= u64::MAX ==> size_value(d + u) == Some((n * m) as u64)
            &&& m == 0 || n * m > u64::MAX ==> size_value(d + u) is None
        }),
{
    let t = d + u;
    assert(t[0] == d[0]);
    assert(!is_white_space(t[0]));
    assert(trim_start(t) == t);
    if u.len() > 0 {
        assert(t.last() == u.last());
    } else {
        assert(t.last() == d.last());
        assert(d.last() == d[d.len() - 1]);
    }
    assert(trim_end(t) == t);
    assert(trim(t) == t);
    lemma_leading_digits_of(d, u);
    assert(t.subrange(0, d.len() as int) =~= d);
    assert(t.subrange(d.len() as int, t.len() as int) =~= u);
    assert(!has_digit_from(t, d.len() as int)) by {
        assert forall|k: int| d.len() <= k < t.len() implies !is_digit_char(#[trigger] t[k]) by {
            assert(t[k] == u[k - d.len()]);
        }
    }
    reveal_strlit("");
    reveal_strlit("b");
    reveal_strlit("k");
    reveal_strlit("kb");
    reveal_strlit("kib");
    reveal_strlit("m");
    reveal_strlit("mb");
    reveal_strlit("mib");
    reveal_strlit("g");
    reveal_strlit("gb");
    reveal_strlit("gib");
    reveal_strlit("t");
    reveal_strlit("tb");
    reveal_strlit("tib");
    let n = numeral_value(d);
    if n > u64::MAX {
        assert(n * 1 > u64::MAX);
        assert(n * 1024 > u64::MAX) by (nonlinear_arith)
            requires
                n > u64::MAX,
        ;
        assert(n * 1048576 > u64::MAX) by (nonlinear_arith)
            requires
                n > u64::MAX,
        ;
        assert(n * 1073741824 > u64::MAX) by (nonlinear_arith)
            requires
                n > u64::MAX,
        ;
        assert(n * 1099511627776 > u64::MAX) by (nonlinear_arith)
            requires
                n > u64::MAX,
        ;
    }
}

/// The stages of a scan come in their order: nothing is copied or removed
/// before the summary is printed and the protected candidates checked, and
/// nothing moved to the Trash before the Trash is checked; a removal comes
/// only when its option was given and, with a quarantine, after the copy
/// and its manifest; and a scan with duplicates finishes only once every
/// action it asked for has run and the report is written.
pub proof fn scan_stages_come_in_order(o: OptionsView, p: ScanProgress)
    ensures
        scan_stage(o, p) is Quarantine ==> p.groups > 0 && p.reported && p.protection_checked && (o.trash
            ==> p.preflight_passed) && o.quarantine_path is Some,
        scan_stage(o, p) is Remove ==> p.groups > 0 && p.reported && p.protection_checked && (o.trash
            ==> p.preflight_passed) && (o.quarantine_path is Some ==> p.quarantine is Some && p.manifest_written),
        scan_stage(o, p) == ScanStage::Remove(RemovalMode::Trash) ==> o.trash && p.trash_failed is None,
        scan_stage(o, p) == ScanStage::Remove(RemovalMode::Delete) ==> o.delete && p.delete_failed is None && (o.trash
            ==> p.trash_failed is Some),
        scan_stage(o, p) is WriteReport ==> p.groups > 0 && p.reported && (acts(o) ==> p.protection_checked) && (
        o.quarantine_path is Some ==> p.quarantine is Some) && (o.trash ==> p.trash_failed is Some) && (o.delete
            ==> p.delete_failed is Some),
        scan_stage(o, p) is Finish && p.groups > 0 ==> p.reported && p.report_written && (o.trash ==> p.trash_failed
            is Some) && (o.delete ==> p.delete_failed is Some),
        p.groups == 0 ==> !stage_acts(scan_stage(o, p)) && !(scan_stage(o, p) is WriteReport),
{
}

/// The version of a path is the highest version among its components: no
/// component's version is higher, and the path's version is that of one of
/// its components (a path with no version-like component has none).
pub proof fn path_version_is_the_highest(cs: Seq<ComponentView>)
    ensures
        forall|i: int|
            0 <= i < cs.len() && (#[trigger] version_of(component_bytes(cs[i]))) is Some ==> best_version_of(cs) is Some
                && lex_order(version_of(component_bytes(cs[i]))->0, best_version_of(cs)->0) != Order::Greater,
        best_version_of(cs) is Some ==> exists|i: int|
            0 <= i < cs.len() && #[trigger] version_of(component_bytes(cs[i])) == best_version_of(cs),
    decreases cs.len(),
{
    if cs.len() > 0 {
        let cd = cs.drop_last();
        path_version_is_the_highest(cd);
        let acc = best_version_of(cd);
        let n = cs.len() - 1;
        let cur = version_of(component_bytes(cs[n]));
        assert(cs.last() == cs[n]);
        let best = best_version_of(cs);
        assert(best == later_max(acc, cur));
        if acc is Some && cur is Some {
            lemma_lex_flip(acc->0, cur->0);
            lemma_lex_equal(acc->0, cur->0);
        }
        assert forall|i: int|
            0 <= i < cs.len() && (#[trigger] version_of(component_bytes(cs[i]))) is Some implies best is Some && lex_order(
                version_of(component_bytes(cs[i]))->0,
                best->0,
            ) != Order::Greater by {
            let v = version_of(component_bytes(cs[i]))->0;
            if i < n {
                assert(cd[i] == cs[i]);
                assert(lex_order(v, acc->0) != Order::Greater);
                if best != acc {
                    lemma_lex_trans(v, acc->0, best->0);
                }
            } else {
                lemma_lex_equal(v, v);
                if best != cur {
                    assert(lex_order(v, best->0) != Order::Greater);
                }
            }
        }
        if best is Some {
            if best == cur && cur is Some {
                assert(version_of(component_bytes(cs[n])) == best);
            } else {
                let i = choose|i: int| 0 <= i < cd.len() && #[trigger] version_of(component_bytes(cd[i])) == acc;
                assert(cd[i] == cs[i]);
                assert(version_of(component_bytes(cs[i])) == best);
            }
        }
    }
}

proof fn lemma_byte_end_at(s: Seq<u8>, i: int, e: int)
    requires
        0 <= i <= e <= s.len(),
        forall|k: int| i <= k < e ==> s[k] != 46u8,
        e == s.len() || s[e] == 46u8,
    ensures
        byte_end(s, 46u8, i) == e,
    decreases e - i,
{
    if i < e {
        lemma_byte_end_at(s, i + 1, e);
    }
}

/// A component made of two numerals joined by a dot, with or without a
/// leading `v`, is a version whose numbers are the two numerals' values;
/// a component of digits alone is no version.
pub proof fn version_components_give_their_numbers(a: Seq<u8>, b: Seq<u8>, with_v: bool)
    requires
        a.len() > 0,
        b.len() > 0,
        forall|k: int| 0 <= k < a.len() ==> 48 <= #[trigger] a[k] <= 57,
        forall|k: int| 0 <= k < b.len() ==> 48 <= #[trigger] b[k] <= 57,
        digits_value(a) <= u64::MAX,
        digits_value(b) <= u64::MAX,
    ensures
        version_of((if with_v { seq![118u8] } else { Seq::<u8>::empty() }) + a + seq![46u8] + b) == Some(
            seq![digits_value(a) as int, digits_value(b) as int],
        ),
        version_of(a) is None,
{
    let x = a + seq![46u8] + b;
    let c = (if with_v { seq![118u8] } else { Seq::<u8>::empty() }) + x;
    assert(x[0] == a[0]);
    if with_v {
        assert(c.drop_first() =~= x);
        assert(trim_leading(x, 118u8) == x);
    } else {
        assert(c =~= x);
    }
    assert(trim_leading(c, 118u8) == x);
    assert(trim_leading(x, 86u8) == x);
    let n = a.len() as int;
    assert(x[n] == 46u8);
    assert forall|k: int| 0 <= k < n implies x[k] != 46u8 by {
        assert(x[k] == a[k]);
    }
    lemma_byte_end_at(x, 0, n);
    assert forall|k: int| n + 1 <= k < x.len() implies x[k] != 46u8 by {
        assert(x[k] == b[k - n - 1]);
    }
    lemma_byte_end_at(x, n + 1, x.len() as int);
    assert(x.subrange(0, n) =~= a);
    assert(x.subrange(n + 1, x.len() as int) =~= b);
    let parts = split_from(x, 46u8, 0);
    assert(split_from(x, 46u8, x.len() as int + 1) =~= Seq::<Seq<u8>>::empty());
    assert(split_from(x, 46u8, n + 1) =~= seq![b]);
    assert(parts =~= seq![a, b]);
    assert(looks_like_version(x)) by {
        assert forall|k: int| 0 <= k < x.len() implies x[k] == 46u8 || 48 <= x[k] <= 57 by {
            if k < n {
                assert(x[k] == a[k]);
            } else if k > n {
                assert(x[k] == b[k - n - 1]);
            }
        }
    }
    assert(numerals_fit(parts));
    assert(parts.map_values(|p: Seq<u8>| digits_value(p) as int) =~= seq![digits_value(a) as int, digits_value(b) as int]);
    let pre: Seq<u8> = if with_v { seq![118u8] } else { Seq::<u8>::empty() };
    assert(pre + a + seq![46u8] + b =~= c);
    assert(version_of(c) == Some(seq![digits_value(a) as int, digits_value(b) as int]));
    assert(a[0] != 118u8 && a[0] != 86u8);
    assert(trim_leading(a, 118u8) == a);
    assert(trim_leading(a, 86u8) == a);
    assert(!looks_like_version(a)) by {
        if looks_like_version(a) {
            let k = choose|k: int| 0 <= k < a.len() && a[k] == 46u8;
            assert(48 <= a[k] <= 57);
        }
    }
}

} // verus!
