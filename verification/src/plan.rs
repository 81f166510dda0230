//! The decisions around the action modes: how many files a run touches,
//! whether a quarantine completed, which protected candidates stop an
//! action, and where a quarantined copy goes.
use vstd::prelude::*;
use std::collections::HashSet;
use vstd::slice::slice_to_vec;
use vstd::utf8::encode_utf8;
use crate::model::{
    CandidateFile, CandidateView, DuplicateGroup, GroupView, Options, OptionsView, QuarantineRecord, QuarantineSummary,
    RecordView, files_view, groups_view, records_view,
};
use crate::pathname::{
    component_count, components, components_view, file_name, join, join_path, path_components, path_file_name,
    path_starts_with, starts_with, ComponentView, PathComponent,
};
use crate::text::{decimal, lossy_text, push_decimal, push_str, string_from_chars, utf8_lossy};

verus! {

/// The removable files of all groups, group by group, in order.
pub open spec fn removable_files(gs: Seq<GroupView>) -> Seq<CandidateView>
    decreases gs.len(),
{
    if gs.len() == 0 {
        seq![]
    } else {
        removable_files(gs.drop_last()) + gs.last().remove
    }
}

/// The sum of the sizes of `fs`.
pub open spec fn sizes_sum(fs: Seq<CandidateView>) -> nat
    decreases fs.len(),
{
    if fs.len() == 0 {
        0
    } else {
        sizes_sum(fs.drop_last()) + fs.last().size as nat
    }
}

/// The number of removable files of all groups.
pub open spec fn removable_count(gs: Seq<GroupView>) -> nat {
    removable_files(gs).len()
}

/// The total size of the removable files of all groups.
pub open spec fn removable_size(gs: Seq<GroupView>) -> nat {
    sizes_sum(removable_files(gs))
}

/// The removable files of all groups, group by group, in order.
pub fn removable_files_of(groups: &Vec<DuplicateGroup>) -> (r: Vec<CandidateFile>)
    ensures
        files_view(r@) == removable_files(groups_view(groups@)),
{
    let ghost gv = groups_view(groups@);
    let mut r: Vec<CandidateFile> = Vec::new();
    let mut g: usize = 0;
    while g < groups.len()
        invariant
            g <= groups@.len(),
            gv == groups_view(groups@),
            files_view(r@) == removable_files(gv.subrange(0, g as int)),
        decreases groups@.len() - g,
    {
        let ghost before = files_view(r@);
        let remove = &groups[g].remove;
        let mut k: usize = 0;
        while k < remove.len()
            invariant
                k <= remove@.len(),
                files_view(r@) == before + files_view(remove@).subrange(0, k as int),
            decreases remove@.len() - k,
        {
            let ghost prior = r@;
            let e = remove[k].duplicate();
            r.push(e);
            assert(files_view(r@) =~= files_view(prior).push(e@));
            k = k + 1;
            assert(files_view(r@) =~= before + files_view(remove@).subrange(0, k as int));
        }
        assert(gv.subrange(0, g + 1).drop_last() =~= gv.subrange(0, g as int));
        assert(files_view(remove@).subrange(0, remove@.len() as int) =~= gv[g as int].remove);
        g = g + 1;
    }
    assert(gv.subrange(0, groups@.len() as int) =~= gv);
    r
}

/// The number of removable files of all groups.
pub fn total_removable_count(groups: &Vec<DuplicateGroup>) -> (r: usize)
    ensures
        r == removable_count(groups_view(groups@)),
{
    let files = removable_files_of(groups);
    files.len()
}

/// The total size of the removable files of all groups.
pub fn total_removable_size(groups: &Vec<DuplicateGroup>) -> (r: u64)
    requires
        removable_size(groups_view(groups@)) <= u64::MAX,
    ensures
        r == removable_size(groups_view(groups@)),
{
    let files = removable_files_of(groups);
    let ghost fv = files_view(files@);
    let mut total: u64 = 0;
    let mut i: usize = 0;
    while i < files.len()
        invariant
            i <= files@.len(),
            fv == files_view(files@),
            sizes_sum(fv) <= u64::MAX,
            total == sizes_sum(fv.subrange(0, i as int)),
        decreases files@.len() - i,
    {
        proof {
            lemma_sizes_sum_prefix(fv, i as int + 1);
        }
        assert(fv.subrange(0, i + 1).drop_last() =~= fv.subrange(0, i as int));
        total = total + files[i].size;
        i = i + 1;
    }
    assert(fv.subrange(0, files@.len() as int) =~= fv);
    total
}

/// A prefix never sums to more than the whole.
pub proof fn lemma_sizes_sum_prefix(fs: Seq<CandidateView>, k: int)
    requires
        0 <= k <= fs.len(),
    ensures
        sizes_sum(fs.subrange(0, k)) <= sizes_sum(fs),
    decreases fs.len(),
{
    if k < fs.len() {
        lemma_sizes_sum_prefix(fs.drop_last(), k);
        assert(fs.drop_last().subrange(0, k) =~= fs.subrange(0, k));
    } else {
        assert(fs.subrange(0, k) =~= fs);
    }
}

/// Whether a quarantine copied every removable file: no copy failed or was
/// skipped, and as many were copied as there are removable files.
pub fn quarantine_was_complete(groups: &Vec<DuplicateGroup>, summary: &QuarantineSummary) -> (r: bool)
    ensures
        r == (summary.failed == 0 && summary.skipped == 0 && summary.copied == removable_count(
            groups_view(groups@),
        )),
{
    summary.failed == 0 && summary.skipped == 0 && summary.copied == total_removable_count(groups)
}

/// Whether a quarantine fits: the free space is at least what it needs.
pub fn quarantine_has_room(available: u64, required: u64) -> (r: bool)
    ensures
        r == (available >= required),
{
    available >= required
}

/// The name of the actions that options ask for, as warnings and refusals
/// name them.
pub open spec fn action_name_text(o: OptionsView) -> Seq<char> {
    if o.delete && o.quarantine_path is Some {
        "delete/quarantine"@
    } else if o.trash && o.quarantine_path is Some {
        "trash/quarantine"@
    } else if o.delete {
        "delete"@
    } else if o.trash {
        "trash"@
    } else {
        "quarantine"@
    }
}

/// Whether the options ask for any action on the removable files.
pub open spec fn acts(o: OptionsView) -> bool {
    o.delete || o.trash || o.quarantine_path is Some
}

/// The name of the actions that `options` ask for.
pub fn action_name(options: &Options) -> (r: &'static str)
    ensures
        r@ == action_name_text(options@),
{
    if options.delete && options.quarantine_path.is_some() {
        "delete/quarantine"
    } else if options.trash && options.quarantine_path.is_some() {
        "trash/quarantine"
    } else if options.delete {
        "delete"
    } else if options.trash {
        "trash"
    } else {
        "quarantine"
    }
}

/// What the protected candidates among the removable files mean for an
/// action.
#[derive(Debug)]
pub enum ProtectionVerdict {
    /// No removable file lies under a protected root.
    Clear,
    /// Some do, and `--allow-protected` lets the action go on.
    Permitted { count: usize },
    /// Some do, and the action is refused: `first` is the index of the
    /// first such file among the removable files and `root` its protected
    /// root.
    Refused { first: usize, root: Vec<u8>, count: usize },
}

/// The number of files that lie under a protected root.
pub open spec fn protected_count(roots: Seq<Option<Vec<u8>>>) -> nat
    decreases roots.len(),
{
    if roots.len() == 0 {
        0
    } else {
        protected_count(roots.drop_last()) + if roots.last() is Some { 1nat } else { 0nat }
    }
}

proof fn lemma_protected_count_prefix(roots: Seq<Option<Vec<u8>>>, k: int)
    requires
        0 <= k <= roots.len(),
    ensures
        protected_count(roots.subrange(0, k)) <= k,
    decreases k,
{
    if k > 0 {
        assert(roots.subrange(0, k).drop_last() =~= roots.subrange(0, k - 1));
        lemma_protected_count_prefix(roots, k - 1);
    }
}

proof fn lemma_protected_count_zero(roots: Seq<Option<Vec<u8>>>)
    requires
        forall|i: int| 0 <= i < roots.len() ==> roots[i] is None,
    ensures
        protected_count(roots) == 0,
    decreases roots.len(),
{
    if roots.len() > 0 {
        lemma_protected_count_zero(roots.drop_last());
    }
}

proof fn lemma_protected_count_pos(roots: Seq<Option<Vec<u8>>>, f: int)
    requires
        0 <= f < roots.len(),
        roots[f] is Some,
    ensures
        protected_count(roots) > 0,
    decreases roots.len(),
{
    if f < roots.len() - 1 {
        lemma_protected_count_pos(roots.drop_last(), f);
    }
}

/// Decides whether protected candidates stop an action. `roots[i]` is the
/// protected root under which the `i`-th removable file lies, if any.
pub fn protection_verdict(roots: &Vec<Option<Vec<u8>>>, allow_protected: bool) -> (r: ProtectionVerdict)
    ensures
        protected_count(roots@) == 0 ==> r is Clear,
        protected_count(roots@) > 0 && allow_protected ==> r == (ProtectionVerdict::Permitted {
            count: protected_count(roots@) as usize,
        }),
        protected_count(roots@) > 0 && !allow_protected ==> match r {
            ProtectionVerdict::Refused { first, root, count } => {
                &&& first < roots@.len()
                &&& roots@[first as int] is Some
                &&& roots@[first as int]->0@ == root@
                &&& forall|i: int| 0 <= i < first ==> roots@[i] is None
                &&& count == protected_count(roots@)
            },
            _ => false,
        },
{
    let mut count: usize = 0;
    let mut first: Option<usize> = None;
    let mut i: usize = 0;
    while i < roots.len()
        invariant
            i <= roots@.len(),
            count == protected_count(roots@.subrange(0, i as int)),
            match first {
                Some(f) => f < i && roots@[f as int] is Some && forall|j: int| 0 <= j < f ==> roots@[j] is None,
                None => forall|j: int| 0 <= j < i ==> roots@[j] is None,
            },
        decreases roots@.len() - i,
    {
        proof {
            lemma_protected_count_prefix(roots@, i as int);
        }
        assert(roots@.subrange(0, i + 1).drop_last() =~= roots@.subrange(0, i as int));
        if roots[i].is_some() {
            count = count + 1;
            if first.is_none() {
                first = Some(i);
            }
        }
        i = i + 1;
    }
    assert(roots@.subrange(0, roots@.len() as int) =~= roots@);
    match first {
        None => {
            proof {
                lemma_protected_count_zero(roots@);
            }
            ProtectionVerdict::Clear
        },
        Some(f) => {
            proof {
                lemma_protected_count_pos(roots@, f as int);
            }
            if allow_protected {
                ProtectionVerdict::Permitted { count }
            } else {
                let root = match &roots[f] {
                    Some(p) => p.clone(),
                    None => Vec::new(),
                };
                assert(root@ == roots@[f as int]->0@);
                ProtectionVerdict::Refused { first: f, root, count }
            }
        },
    }
}

/// The bytes of a component in a relative path: a name itself, `.` or
/// `..`; the root contributes nothing before its separator.
pub open spec fn component_bytes(c: ComponentView) -> Seq<u8> {
    match c {
        ComponentView::RootDir => seq![],
        ComponentView::CurDir => seq![46u8],
        ComponentView::ParentDir => seq![46u8, 46u8],
        ComponentView::Normal(n) => n,
    }
}

/// Components written out, separated by `/`.
pub open spec fn components_text(cs: Seq<ComponentView>) -> Seq<u8>
    decreases cs.len(),
{
    if cs.len() == 0 {
        seq![]
    } else if cs.len() == 1 {
        component_bytes(cs[0])
    } else {
        components_text(cs.drop_last()) + seq![47u8] + component_bytes(cs.last())
    }
}

/// Where the copy of the file at `path` goes in the quarantine: below
/// `quarantine`, at the path of the file relative to the scan `root` (its
/// components after those of `root`, separated by `/`, as
/// `Path::strip_prefix` gives them with repeated separators and inner `.`
/// segments left out). A file outside the root keeps its whole path, which
/// then stands for itself when joined.
pub open spec fn quarantine_target(path: Seq<u8>, root: Seq<u8>, quarantine: Seq<u8>) -> Seq<u8> {
    join(
        quarantine,
        if path_starts_with(path, root) {
            components_text(components(path).skip(components(root).len() as int))
        } else {
            path
        },
    )
}

/// Where the copy of the file at `path` goes in the quarantine (see
/// `quarantine_target`).
pub fn quarantine_destination(path: &[u8], root: &[u8], quarantine: &[u8]) -> (r: Vec<u8>)
    ensures
        r@ == quarantine_target(path@, root@, quarantine@),
{
    if !starts_with(path, root) {
        return join_path(quarantine, path);
    }
    let cs = path_components(path);
    let k = component_count(root);
    let ghost cv = components_view(cs@);
    let mut rel: Vec<u8> = Vec::new();
    let mut i: usize = k;
    assert(cv.subrange(k as int, k as int) =~= Seq::<ComponentView>::empty());
    while i < cs.len()
        invariant
            k <= i <= cs@.len(),
            cv == components_view(cs@),
            cv == components(path@),
            rel@ == components_text(cv.subrange(k as int, i as int)),
        decreases cs@.len() - i,
    {
        let ghost before = rel@;
        if i > k {
            rel.push(47u8);
        }
        let ghost with_sep = rel@;
        match &cs[i] {
            PathComponent::RootDir => {},
            PathComponent::CurDir => {
                rel.push(46u8);
            },
            PathComponent::ParentDir => {
                rel.push(46u8);
                rel.push(46u8);
            },
            PathComponent::Normal(n) => {
                let mut j: usize = 0;
                while j < n.len()
                    invariant
                        j <= n@.len(),
                        rel@ == with_sep + n@.subrange(0, j as int),
                    decreases n@.len() - j,
                {
                    rel.push(n[j]);
                    j = j + 1;
                    assert(rel@ =~= with_sep + n@.subrange(0, j as int));
                }
                assert(n@.subrange(0, n@.len() as int) =~= n@);
            },
        }
        proof {
            let next = cv.subrange(k as int, i + 1);
            assert(next.drop_last() =~= cv.subrange(k as int, i as int));
            assert(next.last() == cs@[i as int]@);
            assert(rel@ =~= components_text(next));
        }
        i = i + 1;
    }
    assert(cv.subrange(k as int, cs@.len() as int) =~= cv.skip(k as int));
    join_path(quarantine, rel.as_slice())
}

/// The name of the `counter`-th alternative to a taken quarantine
/// destination: the destination's file name (or `file`), a dot, the word
/// `nightkrawler`, a hyphen and the counter.
pub open spec fn numbered_name(name: Option<Seq<u8>>, counter: nat) -> Seq<char> {
    (match name {
        Some(n) => utf8_lossy(n),
        None => "file"@,
    }) + ".nightkrawler-"@ + decimal(counter)
}

/// The `counter`-th place tried for a quarantined copy: the destination
/// itself first, then numbered names beside it, in its parent directory
/// (or `.` where it has none).
pub open spec fn destination_candidate(destination: Seq<u8>, parent: Option<Seq<u8>>, counter: nat) -> Seq<u8> {
    if counter == 0 {
        destination
    } else {
        join(
            match parent {
                Some(p) => p,
                None => seq![46u8],
            },
            encode_utf8(numbered_name(file_name(destination), counter)),
        )
    }
}

/// The `counter`-th place to try for a quarantined copy meant for
/// `destination`, whose parent directory is `parent`: the first of
/// counter 0, 1, 2, ... that is not taken is used.
pub fn unique_quarantine_destination(destination: &[u8], parent: &Option<Vec<u8>>, counter: u64) -> (r: Vec<u8>)
    ensures
        r@ == destination_candidate(
            destination@,
            match parent {
                Some(p) => Some(p@),
                None => None,
            },
            counter as nat,
        ),
{
    if counter == 0 {
        return slice_to_vec(destination);
    }
    let mut name: Vec<char> = Vec::new();
    match path_file_name(destination) {
        Some(n) => {
            let text = lossy_text(n.as_slice());
            push_str(&mut name, text.as_str());
        },
        None => {
            push_str(&mut name, "file");
        },
    }
    push_str(&mut name, ".nightkrawler-");
    push_decimal(&mut name, counter);
    let text = string_from_chars(name.as_slice());
    let bytes = slice_to_vec(text.as_str().as_bytes());
    let dir: Vec<u8> = match parent {
        Some(p) => p.clone(),
        None => {
            let mut d: Vec<u8> = Vec::new();
            d.push(46u8);
            d
        },
    };
    assert(name@ == numbered_name(file_name(destination@), counter as nat));
    join_path(dir.as_slice(), bytes.as_slice())
}

/// The counter of the next place to try for a quarantined copy after the
/// place of `counter` was found taken (see `unique_quarantine_destination`):
/// the next counter, or `None` once the counters are used up.
pub fn next_destination_counter(counter: u64) -> (r: Option<u64>)
    ensures
        r == (if counter < u64::MAX {
            Some((counter + 1) as u64)
        } else {
            None::<u64>
        }),
{
    if counter < u64::MAX {
        Some(counter + 1)
    } else {
        None
    }
}

/// Whether the `i`-th file is the first on its filesystem: no file before
/// it has the same device number.
pub open spec fn first_on_device(devices: Seq<u64>, i: int) -> bool {
    forall|k: int| 0 <= k < i ==> devices[k] != devices[i]
}

/// The filesystems already met, by device number.
pub struct DeviceSet {
    seen: HashSet<u64>,
}

impl View for DeviceSet {
    type V = Set<u64>;

    closed spec fn view(&self) -> Set<u64> {
        self.seen@
    }
}

impl DeviceSet {
    /// No filesystem met yet.
    pub fn new() -> (r: DeviceSet)
        ensures
            r@ == Set::<u64>::empty(),
    {
        DeviceSet { seen: HashSet::new() }
    }

    /// Notes the filesystem `device`; whether it was met for the first time.
    pub fn first_visit(&mut self, device: u64) -> (r: bool)
        ensures
            r == !old(self)@.contains(device),
            final(self)@ == old(self)@.insert(device),
    {
        broadcast use vstd::std_specs::hash::group_hash_axioms;

        self.seen.insert(device)
    }
}

/// The files whose filesystem the Trash is tried on before a Trash run:
/// the first removable file of each filesystem, in order. `devices[i]` is
/// the device number of the `i`-th removable file.
pub fn trash_probe_targets(devices: &Vec<u64>) -> (r: Vec<usize>)
    ensures
        forall|j: int| 0 <= j < r@.len() ==> (#[trigger] r@[j]) < devices@.len() && first_on_device(devices@, r@[j] as int),
        forall|i: int| 0 <= i < devices@.len() && first_on_device(devices@, i) ==> #[trigger] r@.contains(i as usize),
        forall|a: int, b: int| 0 <= a < b < r@.len() ==> r@[a] < r@[b],
{
    let mut r: Vec<usize> = Vec::new();
    let mut met = DeviceSet::new();
    let mut i: usize = 0;
    while i < devices.len()
        invariant
            i <= devices@.len(),
            forall|d: u64| met@.contains(d) <==> exists|k: int| 0 <= k < i && devices@[k] == d,
            forall|j: int| 0 <= j < r@.len() ==> (#[trigger] r@[j]) < i && first_on_device(devices@, r@[j] as int),
            forall|k: int| 0 <= k < i && first_on_device(devices@, k) ==> #[trigger] r@.contains(k as usize),
            forall|a: int, b: int| 0 <= a < b < r@.len() ==> r@[a] < r@[b],
        decreases devices@.len() - i,
    {
        let d = devices[i];
        assert(first_on_device(devices@, i as int) == !met@.contains(d)) by {
            if met@.contains(d) {
                let k = choose|k: int| 0 <= k < i && devices@[k] == d;
                assert(devices@[k] == devices@[i as int]);
            }
        }
        let first = met.first_visit(d);
        if first {
            let ghost before = r@;
            r.push(i);
            assert forall|q: int| 0 <= q < i + 1 && first_on_device(devices@, q) implies #[trigger] r@.contains(q as usize) by {
                if q < i {
                    assert(before.contains(q as usize));
                    let w = choose|w: int| 0 <= w < before.len() && before[w] == q as usize;
                    assert(r@[w] == q as usize);
                } else {
                    assert(r@[before.len() as int] == i);
                }
            }
        } else {
            assert forall|q: int| 0 <= q < i + 1 && first_on_device(devices@, q) implies #[trigger] r@.contains(
                q as usize,
            ) by {
                assert(q != i);
            }
        }
        assert forall|x: u64| met@.contains(x) <==> exists|k: int| 0 <= k < i + 1 && devices@[k] == x by {
            if met@.contains(x) && x != d {
                let k = choose|k: int| 0 <= k < i && devices@[k] == x;
                assert(0 <= k < i + 1 && devices@[k] == x);
            }
            if x == d {
                assert(devices@[i as int] == x);
            }
        }
        i = i + 1;
    }
    r
}

/// The name of the `counter`-th file tried for a Trash check by process
/// `pid`.
pub open spec fn probe_name(pid: nat, counter: nat) -> Seq<char> {
    ".nightkrawler-trash-probe-"@ + decimal(pid) + "-"@ + decimal(counter)
}

/// The `counter`-th path tried for a Trash check in `directory` by
/// process `pid`.
pub fn trash_probe_path(directory: &[u8], pid: u32, counter: usize) -> (r: Vec<u8>)
    ensures
        r@ == join(directory@, encode_utf8(probe_name(pid as nat, counter as nat))),
{
    let mut name: Vec<char> = Vec::new();
    push_str(&mut name, ".nightkrawler-trash-probe-");
    push_decimal(&mut name, pid as u64);
    push_str(&mut name, "-");
    push_decimal(&mut name, counter as u64);
    let text = string_from_chars(name.as_slice());
    let bytes = slice_to_vec(text.as_str().as_bytes());
    join_path(directory, bytes.as_slice())
}

/// The copy of the removable files into a quarantine: the run names each
/// file in turn, the caller copies it and reports where the copy went (or
/// that it failed), and the run keeps the tallies and the records.
pub struct QuarantineRun {
    files: Vec<CandidateFile>,
    pos: usize,
    copied: usize,
    failed: usize,
    records: Vec<QuarantineRecord>,
    copies: Ghost<Seq<Option<Seq<u8>>>>,
}

/// The records of the copies made: each file copied, with its destination.
pub open spec fn copy_records(files: Seq<CandidateView>, copies: Seq<Option<Seq<u8>>>) -> Seq<RecordView>
    decreases copies.len(),
{
    if copies.len() == 0 {
        seq![]
    } else {
        let before = copy_records(files, copies.drop_last());
        match copies.last() {
            Some(d) => before.push(
                RecordView { original_path: files[copies.len() - 1].path, quarantine_path: d, size: files[copies.len() - 1].size },
            ),
            None => before,
        }
    }
}

/// The number of copies that failed.
pub open spec fn failed_copies(copies: Seq<Option<Seq<u8>>>) -> nat
    decreases copies.len(),
{
    if copies.len() == 0 {
        0
    } else {
        failed_copies(copies.drop_last()) + if copies.last() is None { 1nat } else { 0nat }
    }
}

proof fn lemma_copy_counts(files: Seq<CandidateView>, copies: Seq<Option<Seq<u8>>>)
    ensures
        copy_records(files, copies).len() + failed_copies(copies) == copies.len(),
    decreases copies.len(),
{
    if copies.len() > 0 {
        lemma_copy_counts(files, copies.drop_last());
    }
}

proof fn lemma_failed_copies_zero(copies: Seq<Option<Seq<u8>>>)
    ensures
        failed_copies(copies) == 0 <==> forall|i: int| 0 <= i < copies.len() ==> (#[trigger] copies[i]) is Some,
    decreases copies.len(),
{
    if copies.len() > 0 {
        lemma_failed_copies_zero(copies.drop_last());
        if failed_copies(copies) == 0 {
            assert forall|i: int| 0 <= i < copies.len() implies (#[trigger] copies[i]) is Some by {
                if i < copies.len() - 1 {
                    assert(copies[i] == copies.drop_last()[i]);
                }
            }
        } else if copies.last() is Some {
            let w = choose|i: int| 0 <= i < copies.drop_last().len() && !(copies.drop_last()[i] is Some);
            assert(copies[w] == copies.drop_last()[w]);
        }
    }
}

/// A quarantine copy counts every file it copied as a record and every
/// other as a failure, so it reports as many copies as there are files
/// exactly when every copy succeeded.
pub proof fn quarantine_counts_every_file(files: Seq<CandidateView>, copies: Seq<Option<Seq<u8>>>)
    ensures
        copy_records(files, copies).len() + failed_copies(copies) == copies.len(),
        (copy_records(files, copies).len() == copies.len()) <==> forall|i: int|
            0 <= i < copies.len() ==> (#[trigger] copies[i]) is Some,
{
    lemma_copy_counts(files, copies);
    lemma_failed_copies_zero(copies);
}

impl QuarantineRun {
    /// The removable files, in the order they are copied.
    pub closed spec fn files(&self) -> Seq<CandidateView> {
        files_view(self.files@)
    }

    /// Where each file taken so far was copied, `None` for a failure.
    pub closed spec fn copies(&self) -> Seq<Option<Seq<u8>>> {
        self.copies@
    }

    /// The internal invariant.
    pub closed spec fn wf(&self) -> bool {
        &&& self.pos <= self.files@.len()
        &&& self.copies@.len() == self.pos
        &&& records_view(self.records@) == copy_records(files_view(self.files@), self.copies@)
        &&& self.copied == self.records@.len()
        &&& self.failed == failed_copies(self.copies@)
    }

    /// Starts copying the removable files of `groups`.
    pub fn new(groups: &Vec<DuplicateGroup>) -> (r: QuarantineRun)
        ensures
            r.wf(),
            r.files() == removable_files(groups_view(groups@)),
            r.copies() == Seq::<Option<Seq<u8>>>::empty(),
    {
        let r = QuarantineRun {
            files: removable_files_of(groups),
            pos: 0,
            copied: 0,
            failed: 0,
            records: Vec::new(),
            copies: Ghost(Seq::empty()),
        };
        assert(records_view(r.records@) =~= Seq::<RecordView>::empty());
        r
    }

    /// The file to copy next, or `None` when all are done.
    pub fn next_file(&self) -> (r: Option<&CandidateFile>)
        requires
            self.wf(),
        ensures
            match r {
                Some(f) => self.copies().len() < self.files().len() && f@ == self.files()[self.copies().len() as int],
                None => self.copies().len() == self.files().len(),
            },
    {
        if self.pos < self.files.len() {
            Some(&self.files[self.pos])
        } else {
            None
        }
    }

    /// Records where the current file was copied, or `None` when the copy
    /// failed.
    pub fn record_copy(&mut self, destination: Option<Vec<u8>>)
        requires
            old(self).wf(),
            old(self).copies().len() < old(self).files().len(),
        ensures
            final(self).wf(),
            final(self).files() == old(self).files(),
            final(self).copies() == old(self).copies().push(
                match destination {
                    Some(d) => Some(d@),
                    None => None,
                },
            ),
    {
        proof {
            lemma_copy_counts(files_view(self.files@), self.copies@);
        }
        let n = self.files.len();
        assert(files_view(self.files@).len() == n);
        let ghost before = self.copies@;
        let ghost fv = files_view(self.files@);
        let ghost old_records = self.records@;
        let ghost entry = match &destination {
            Some(d) => Some(d@),
            None => None,
        };
        self.copies = Ghost(before.push(entry));
        assert(self.copies@.drop_last() =~= before);
        match destination {
            Some(d) => {
                let file = &self.files[self.pos];
                let record = QuarantineRecord { original_path: file.path.clone(), quarantine_path: d, size: file.size };
                assert(record@ == RecordView {
                    original_path: fv[self.pos as int].path,
                    quarantine_path: entry->0,
                    size: fv[self.pos as int].size,
                });
                self.records.push(record);
                assert(records_view(self.records@) =~= records_view(old_records).push(record@));
                self.copied = self.copied + 1;
            },
            None => {
                self.failed = self.failed + 1;
            },
        }
        self.pos = self.pos + 1;
    }

    /// The outcome of the copy so far; no copy is ever skipped.
    pub fn summary(self) -> (r: QuarantineSummary)
        requires
            self.wf(),
        ensures
            r.copied == copy_records(self.files(), self.copies()).len(),
            r.failed == failed_copies(self.copies()),
            r.skipped == 0,
            records_view(r.records@) == copy_records(self.files(), self.copies()),
    {
        QuarantineSummary { copied: self.copied, failed: self.failed, skipped: 0, records: self.records }
    }
}

/// How many names a Trash check tries in a directory before it gives up.
pub const TRASH_PROBE_ATTEMPTS: usize = 1000;

/// The counter of the next name a Trash check tries after the name of
/// `counter` was taken: counters run from 0 up to `TRASH_PROBE_ATTEMPTS`,
/// and `None` means the attempts are used up.
pub fn next_probe_counter(counter: usize) -> (r: Option<usize>)
    ensures
        r == (if counter + 1 < TRASH_PROBE_ATTEMPTS {
            Some((counter + 1) as usize)
        } else {
            None::<usize>
        }),
{
    if counter < TRASH_PROBE_ATTEMPTS - 1 {
        Some(counter + 1)
    } else {
        None
    }
}

} // verus!
