//! Finding duplicates in stages: files are grouped by size, then files of a
//! shared size by content hash, then files of a shared hash by comparing
//! their bytes. Reading files is the caller's part: the stages here take
//! the sizes, the hashes and the answers of byte comparisons.
use vstd::prelude::*;
use std::collections::BTreeMap;
use vstd::std_specs::btree::increasing_seq;
use vstd::std_specs::iter::{IteratorSpec, VerusForLoopWrapper};
use crate::keep::{duplicate_group_from_files, is_keep_arrangement, keys_of, arranged};
use crate::model::paths_view;
use crate::model::{
    CandidateFile, CandidateView, DuplicateGroup, GroupView, KeepPolicy, duplicate_files, files_view, group_members,
};

verus! {

/// The files whose key is `Some(k)`, in order.
pub open spec fn key_members(files: Seq<CandidateView>, keys: Seq<Option<u64>>, k: u64) -> Seq<CandidateView>
    decreases files.len(),
{
    if files.len() == 0 || keys.len() == 0 {
        seq![]
    } else {
        let rest = key_members(files.drop_last(), keys.drop_last(), k);
        if keys.last() == Some(k) {
            rest.push(files.last())
        } else {
            rest
        }
    }
}

/// The distinct keys, in the order of their first appearance.
pub open spec fn first_seen(keys: Seq<Option<u64>>) -> Seq<u64>
    decreases keys.len(),
{
    if keys.len() == 0 {
        seq![]
    } else {
        let rest = first_seen(keys.drop_last());
        match keys.last() {
            Some(k) => if rest.contains(k) {
                rest
            } else {
                rest.push(k)
            },
            None => rest,
        }
    }
}

/// The size of every file, as a key.
pub open spec fn size_keys(files: Seq<CandidateView>) -> Seq<Option<u64>> {
    files.map_values(|f: CandidateView| Some(f.size))
}

/// The files of size `s`, in order.
pub open spec fn files_of_size(files: Seq<CandidateView>, s: u64) -> Seq<CandidateView> {
    key_members(files, size_keys(files), s)
}

/// Whether `groups` are exactly the files of each size shared by two or
/// more files, by increasing size (how a `BTreeMap` keyed by size visits
/// them).
pub open spec fn is_size_grouping(files: Seq<CandidateView>, groups: Seq<Seq<CandidateView>>) -> bool {
    &&& forall|j: int|
        0 <= j < groups.len() ==> (#[trigger] groups[j]).len() >= 2 && groups[j] == files_of_size(
            files,
            groups[j][0].size,
        )
    &&& forall|i: int, j: int| 0 <= i < j < groups.len() ==> groups[i][0].size < groups[j][0].size
    &&& forall|s: u64|
        #![trigger files_of_size(files, s)]
        files_of_size(files, s).len() >= 2 ==> exists|j: int| 0 <= j < groups.len() && groups[j][0].size == s
}

/// The groups of files that share a hash, two or more files each, in the
/// order in which their hashes first appear. Files without a hash (they
/// could not be read) take no part.
pub open spec fn hash_groups(files: Seq<CandidateView>, hashes: Seq<Option<u64>>) -> Seq<Seq<CandidateView>> {
    shared(first_seen(hashes).map_values(|h: u64| key_members(files, hashes, h)))
}

/// The groups of two or more files among `gs`, in order.
pub open spec fn shared(gs: Seq<Seq<CandidateView>>) -> Seq<Seq<CandidateView>>
    decreases gs.len(),
{
    if gs.len() == 0 {
        seq![]
    } else if gs.last().len() >= 2 {
        shared(gs.drop_last()).push(gs.last())
    } else {
        shared(gs.drop_last())
    }
}

/// The values of a list of groups of files.
pub open spec fn file_groups_view(gs: Seq<Vec<CandidateFile>>) -> Seq<Seq<CandidateView>> {
    gs.map_values(|g: Vec<CandidateFile>| files_view(g@))
}

proof fn lemma_first_seen_grows(keys: Seq<Option<u64>>, k: u64)
    requires
        keys.len() > 0,
    ensures
        first_seen(keys.drop_last()).contains(k) ==> first_seen(keys).contains(k),
        keys.last() == Some(k) ==> first_seen(keys).contains(k),
        first_seen(keys).contains(k) ==> first_seen(keys.drop_last()).contains(k) || keys.last() == Some(k),
{
    let rest = first_seen(keys.drop_last());
    match keys.last() {
        Some(h) => {
            if !rest.contains(h) {
                let pushed = rest.push(h);
                assert(pushed[rest.len() as int] == h);
                if rest.contains(k) {
                    let w = choose|w: int| 0 <= w < rest.len() && rest[w] == k;
                    assert(pushed[w] == k);
                }
                if pushed.contains(k) && k != h {
                    let w = choose|w: int| 0 <= w < pushed.len() && pushed[w] == k;
                    assert(w < rest.len());
                    assert(rest[w] == k);
                }
            }
        },
        None => {},
    }
}

proof fn lemma_key_members_first(files: Seq<CandidateView>, keys: Seq<Option<u64>>, k: u64)
    requires
        files.len() == keys.len(),
    ensures
        key_members(files, keys, k).len() > 0 <==> first_seen(keys).contains(k),
    decreases files.len(),
{
    if files.len() > 0 {
        lemma_key_members_first(files.drop_last(), keys.drop_last(), k);
        lemma_first_seen_grows(keys, k);
    }
}

pub(crate) proof fn lemma_first_seen_distinct(keys: Seq<Option<u64>>)
    ensures
        forall|i: int, j: int| 0 <= i < j < first_seen(keys).len() ==> first_seen(keys)[i] != first_seen(keys)[j],
    decreases keys.len(),
{
    if keys.len() > 0 {
        lemma_first_seen_distinct(keys.drop_last());
        let rest = first_seen(keys.drop_last());
        match keys.last() {
            Some(h) => {
                if !rest.contains(h) {
                    let pushed = rest.push(h);
                    assert forall|i: int, j: int| 0 <= i < j < pushed.len() implies pushed[i] != pushed[j] by {
                        if j == rest.len() {
                            assert(pushed[i] == rest[i]);
                        } else {
                            assert(pushed[i] == rest[i] && pushed[j] == rest[j]);
                        }
                    }
                }
            },
            None => {},
        }
    }
}

/// Splits `files` by key, in the order of first appearance of the keys;
/// files with no key take no part. Returns the keys and their files.
pub fn bucket_by_key(files: &Vec<CandidateFile>, keys: &Vec<Option<u64>>) -> (r: (Vec<u64>, Vec<Vec<CandidateFile>>))
    requires
        keys@.len() == files@.len(),
    ensures
        r.0@ == first_seen(keys@),
        r.1@.len() == r.0@.len(),
        forall|j: int| 0 <= j < r.1@.len() ==> files_view((#[trigger] r.1@[j])@) == key_members(files_view(files@), keys@, r.0@[j]),
{
    let ghost fv = files_view(files@);
    let mut seen: Vec<u64> = Vec::new();
    let mut buckets: Vec<Vec<CandidateFile>> = Vec::new();
    let mut i: usize = 0;
    while i < files.len()
        invariant
            i <= files@.len(),
            keys@.len() == files@.len(),
            fv == files_view(files@),
            fv.len() == files@.len(),
            seen@ == first_seen(keys@.subrange(0, i as int)),
            buckets@.len() == seen@.len(),
            forall|j: int|
                0 <= j < buckets@.len() ==> files_view((#[trigger] buckets@[j])@) == key_members(
                    fv.subrange(0, i as int),
                    keys@.subrange(0, i as int),
                    seen@[j],
                ),
        decreases files@.len() - i,
    {
        let ghost fs0 = fv.subrange(0, i as int);
        let ghost ks0 = keys@.subrange(0, i as int);
        let ghost fs1 = fv.subrange(0, i + 1);
        let ghost ks1 = keys@.subrange(0, i + 1);
        assert(fs1.drop_last() =~= fs0);
        assert(ks1.drop_last() =~= ks0);
        assert(fs1.last() == files@[i as int]@);
        assert(ks1.last() == keys@[i as int]);
        match keys[i] {
            None => {
                assert forall|j: int| 0 <= j < buckets@.len() implies files_view((#[trigger] buckets@[j])@)
                    == key_members(fs1, ks1, seen@[j]) by {}
            },
            Some(k) => {
                let mut j: usize = 0;
                while j < seen.len() && seen[j] != k
                    invariant
                        j <= seen@.len(),
                        forall|m: int| 0 <= m < j ==> seen@[m] != k,
                    decreases seen@.len() - j,
                {
                    j = j + 1;
                }
                let ghost old_buckets = buckets@;
                if j < seen.len() {
                    assert(seen@[j as int] == k);
                    assert(seen@.contains(k));
                    proof {
                        lemma_first_seen_distinct(ks0);
                    }
                    let file = files[i].duplicate();
                    let mut bucket = buckets.remove(j);
                    let ghost old_bucket = bucket@;
                    bucket.push(file);
                    buckets.insert(j, bucket);
                    proof {
                        assert(buckets@ =~= old_buckets.update(j as int, bucket));
                        assert(files_view(bucket@) =~= files_view(old_bucket).push(file@));
                        assert forall|m: int| 0 <= m < buckets@.len() implies files_view((#[trigger] buckets@[m])@)
                            == key_members(fs1, ks1, seen@[m]) by {
                            if m != j {
                                assert(buckets@[m] == old_buckets[m]);
                                assert(seen@[m] != k);
                                assert(key_members(fs1, ks1, seen@[m]) == key_members(fs0, ks0, seen@[m]));
                            } else {
                                assert(key_members(fs1, ks1, k) == key_members(fs0, ks0, k).push(fs1.last()));
                            }
                        }
                    }
                } else {
                    assert(!seen@.contains(k));
                    let file = files[i].duplicate();
                    let mut bucket: Vec<CandidateFile> = Vec::new();
                    bucket.push(file);
                    let ghost old_seen = seen@;
                    seen.push(k);
                    buckets.push(bucket);
                    proof {
                        assert(files_view(bucket@) =~= seq![file@]);
                        lemma_key_members_first(fs0, ks0, k);
                        assert(key_members(fs0, ks0, k) =~= Seq::<CandidateView>::empty());
                        assert(key_members(fs1, ks1, k) =~= seq![file@]);
                        assert forall|m: int| 0 <= m < buckets@.len() implies files_view((#[trigger] buckets@[m])@)
                            == key_members(fs1, ks1, seen@[m]) by {
                            if m < old_buckets.len() {
                                assert(buckets@[m] == old_buckets[m]);
                                assert(seen@[m] == old_seen[m]);
                            }
                        }
                    }
                }
            },
        }
        i = i + 1;
    }
    assert(fv.subrange(0, files@.len() as int) =~= fv);
    assert(keys@.subrange(0, files@.len() as int) =~= keys@);
    (seen, buckets)
}

proof fn lemma_key_members_key(files: Seq<CandidateView>, s: u64)
    ensures
        forall|m: int| 0 <= m < files_of_size(files, s).len() ==> (#[trigger] files_of_size(files, s)[m]).size == s,
    decreases files.len(),
{
    if files.len() > 0 {
        let fd = files.drop_last();
        lemma_key_members_key(fd, s);
        assert(size_keys(files).drop_last() =~= size_keys(fd));
        assert(size_keys(files).last() == Some(files.last().size));
        let rest = files_of_size(fd, s);
        assert(key_members(files.drop_last(), size_keys(files).drop_last(), s) == rest);
        if files.last().size == s {
            assert(files_of_size(files, s) == rest.push(files.last()));
        } else {
            assert(files_of_size(files, s) == rest);
        }
    }
}

/// Whether sizes compare as integers do, which a `BTreeMap` keyed by size
/// relies on.
pub open spec fn sizes_ordered() -> bool {
    vstd::laws_cmp::obeys_cmp::<u64>()
}

/// Sizes compare as integers do.
proof fn lemma_sizes_are_ordered()
    ensures
        sizes_ordered(),
{
    broadcast use vstd::laws_cmp::group_laws_cmp;
}

/// The sizes that a `BTreeMap` keyed by size hands back come in increasing
/// order.
proof fn lemma_sizes_increase(entries: Seq<(&u64, &Vec<CandidateFile>)>)
    requires
        increasing_seq(entries.map_values(|kv: (&u64, &Vec<CandidateFile>)| *kv.0)),
    ensures
        forall|a: int, b: int| 0 <= a < b < entries.len() ==> *entries[a].0 < *entries[b].0,
{
    broadcast use vstd::std_specs::btree::group_btree_axioms;

    lemma_sizes_are_ordered();
    let keys = entries.map_values(|kv: (&u64, &Vec<CandidateFile>)| *kv.0);
    assert forall|a: int, b: int| 0 <= a < b < entries.len() implies *entries[a].0 < *entries[b].0 by {
        assert(vstd::std_specs::cmp::OrdSpec::cmp_spec(&keys[a], &keys[b]) is Less);
    }
}

/// Groups the files by size: each group holds every file of one size, in
/// the given order, and there is one group for each size shared by two or
/// more files, by increasing size. The files are gathered in a `BTreeMap`
/// keyed by size, which hands them back by increasing size.
pub fn group_by_size(files: &Vec<CandidateFile>) -> (groups: Vec<Vec<CandidateFile>>)
    ensures
        is_size_grouping(files_view(files@), file_groups_view(groups@)),
{
    broadcast use vstd::std_specs::btree::group_btree_axioms;

    let ghost fv = files_view(files@);
    proof {
        lemma_sizes_are_ordered();
    }
    let mut by_size: BTreeMap<u64, Vec<CandidateFile>> = BTreeMap::new();
    let mut i: usize = 0;
    while i < files.len()
        invariant
            i <= files@.len(),
            fv == files_view(files@),
            sizes_ordered(),
            forall|s: u64| #[trigger] by_size@.contains_key(s) <==> files_of_size(fv.subrange(0, i as int), s).len() > 0,
            forall|s: u64| #[trigger] by_size@.contains_key(s) ==> files_view(by_size@[s]@) == files_of_size(
                fv.subrange(0, i as int),
                s,
            ),
        decreases files@.len() - i,
    {
        let size = files[i].size;
        let ghost pre = fv.subrange(0, i as int);
        let ghost next = fv.subrange(0, i + 1);
        proof {
            assert(next.drop_last() =~= pre);
            assert(next.last() == fv[i as int]);
            assert(size_keys(next).drop_last() =~= size_keys(pre));
            assert(size_keys(next).last() == Some(size));
        }
        let mut same = match by_size.remove(&size) {
            Some(v) => v,
            None => Vec::new(),
        };
        proof {
            if files_of_size(pre, size).len() == 0 {
                assert(files_of_size(pre, size) =~= Seq::<CandidateView>::empty());
            }
            assert(files_view(same@) == files_of_size(pre, size));
        }
        let ghost before = same@;
        same.push(files[i].duplicate());
        by_size.insert(size, same);
        proof {
            assert forall|s: u64| #[trigger] by_size@.contains_key(s) <==> files_of_size(next, s).len() > 0 by {
                if s != size {
                    assert(files_of_size(next, s) == files_of_size(pre, s));
                }
            }
            assert forall|s: u64| #[trigger] by_size@.contains_key(s) implies files_view(by_size@[s]@) == files_of_size(next, s) by {
                if s != size {
                    assert(files_of_size(next, s) == files_of_size(pre, s));
                } else {
                    assert(files_view(by_size@[s]@) =~= files_view(before).push(fv[i as int]));
                }
            }
        }
        i = i + 1;
    }
    proof {
        assert(fv.subrange(0, files@.len() as int) =~= fv);
    }
    let mut groups: Vec<Vec<CandidateFile>> = Vec::new();
    let ghost m = by_size@;
    let entries = by_size.iter();
    let ghost rem = IteratorSpec::remaining(&entries);
    proof {
        lemma_sizes_increase(rem);
    }
    let mut walk = VerusForLoopWrapper::new(entries, Ghost(None));
    assert(walk.seq() == rem);
    let ghost mut done: int = 0;
    loop
        invariant
            m == by_size@,
            walk.wf(),
            walk.seq() == rem,
            walk.index() == done,
            0 <= done <= rem.len(),
            rem.len() == m.dom().len(),
            forall|k: int| 0 <= k < rem.len() ==> #[trigger] m.contains_key(*rem[k].0) && m[*rem[k].0] == *rem[k].1,
            forall|s: u64| #[trigger] m.contains_key(s) ==> rem.contains((&s, &m[s])),
            forall|a: int, b: int| 0 <= a < b < rem.len() ==> *rem[a].0 < *rem[b].0,
            forall|s: u64| #[trigger] m.contains_key(s) <==> files_of_size(fv, s).len() > 0,
            forall|s: u64| #[trigger] m.contains_key(s) ==> files_view(m[s]@) == files_of_size(fv, s),
            forall|j: int| 0 <= j < groups@.len() ==> (#[trigger] file_groups_view(groups@)[j]).len() >= 2,
            forall|j: int| 0 <= j < groups@.len() ==> (#[trigger] file_groups_view(groups@)[j]) == files_of_size(
                fv,
                file_groups_view(groups@)[j][0].size,
            ),
            forall|a: int, b: int|
                0 <= a < b < groups@.len() ==> file_groups_view(groups@)[a][0].size < file_groups_view(groups@)[b][0].size,
            groups@.len() > 0 ==> exists|k: int| 0 <= k < done && *rem[k].0 == file_groups_view(groups@)[groups@.len() - 1][0].size,
            forall|k: int| 0 <= k < done && (*rem[k].1)@.len() >= 2 ==> exists|j: int| 0 <= j < groups@.len() && file_groups_view(groups@)[j][0].size == #[trigger] *rem[k].0,
        ensures
            done == rem.len(),
        decreases m.dom().len() - done,
    {
        let step = walk.next();
        match step {
            None => {
                assert(walk.index() == walk.seq().len());
                break;
            },
            Some(entry) => {
                let (size, same) = entry;
                let ghost idx = done;
                let ghost old_groups = groups@;
                assert(entry == rem[idx]);
                assert(m.contains_key(*rem[idx].0));
                assert(m.contains_key(*size) && m[*size] == *same);
                if same.len() >= 2 {
                    let group = duplicate_files(same);
                    proof {
                        lemma_key_members_key(fv, *size);
                        assert(files_view(group@) == files_of_size(fv, *size));
                        assert(files_view(group@)[0].size == *size);
                        if old_groups.len() > 0 {
                            let k = choose|k: int| 0 <= k < idx && *rem[k].0 == file_groups_view(old_groups)[old_groups.len() - 1][0].size;
                            assert(*rem[k].0 < *size);
                        }
                    }
                    groups.push(group);
                    proof {
                        assert(file_groups_view(groups@) =~= file_groups_view(old_groups).push(files_view(group@)));
                        assert(*rem[idx].0 == file_groups_view(groups@)[groups@.len() - 1][0].size);
                    }
                }
                proof {
                    assert forall|j: int| 0 <= j < old_groups.len() implies file_groups_view(groups@)[j] == file_groups_view(old_groups)[j] by {
                        assert(groups@[j] == old_groups[j]);
                    }
                    assert forall|k: int| 0 <= k <= idx && (*rem[k].1)@.len() >= 2 implies exists|j: int| 0 <= j < groups@.len()
                        && file_groups_view(groups@)[j][0].size == #[trigger] *rem[k].0 by {
                        if k < idx {
                            let j = choose|j: int| 0 <= j < old_groups.len() && file_groups_view(old_groups)[j][0].size == *rem[k].0;
                            assert(file_groups_view(groups@)[j] == file_groups_view(old_groups)[j]);
                        } else {
                            assert(file_groups_view(groups@)[groups@.len() - 1][0].size == *rem[idx].0);
                        }
                    }
                    if groups@.len() > 0 && groups@.len() == old_groups.len() {
                        let k = choose|k: int| 0 <= k < idx && *rem[k].0 == file_groups_view(old_groups)[old_groups.len() - 1][0].size;
                        assert(file_groups_view(groups@)[groups@.len() - 1] == file_groups_view(old_groups)[old_groups.len() - 1]);
                        assert(0 <= k < idx + 1);
                    }
                    done = done + 1;
                }
            },
        }
    }
    proof {
        assert forall|s: u64| #![trigger files_of_size(fv, s)] files_of_size(fv, s).len() >= 2 implies exists|j: int|
            0 <= j < groups@.len() && file_groups_view(groups@)[j][0].size == s by {
            assert(m.contains_key(s));
            assert(files_view(m[s]@).len() == m[s]@.len());
            assert(rem.contains((&s, &m[s])));
            let k = choose|k: int| 0 <= k < rem.len() && rem[k] == (&s, &m[s]);
            assert(*rem[k].0 == s);
            assert((*rem[k].1)@.len() >= 2);
        }
    }
    groups
}

/// Groups the files by content hash: one group for each hash shared by two
/// or more files, holding those files in the given order, the groups in
/// the order in which their hashes first appear. `hashes[i]` is the hash of
/// `files[i]`, or `None` where the file could not be read; such files take
/// no part.
pub fn group_by_hash(files: &Vec<CandidateFile>, hashes: &Vec<Option<u64>>) -> (groups: Vec<Vec<CandidateFile>>)
    requires
        hashes@.len() == files@.len(),
    ensures
        file_groups_view(groups@) == hash_groups(files_view(files@), hashes@),
{
    let ghost fv = files_view(files@);
    let (seen, buckets) = bucket_by_key(files, hashes);
    let ghost all = first_seen(hashes@).map_values(|h: u64| key_members(fv, hashes@, h));
    let mut groups: Vec<Vec<CandidateFile>> = Vec::new();
    let mut i: usize = 0;
    while i < buckets.len()
        invariant
            i <= buckets@.len(),
            buckets@.len() == seen@.len(),
            seen@ == first_seen(hashes@),
            all == first_seen(hashes@).map_values(|h: u64| key_members(fv, hashes@, h)),
            forall|j: int| 0 <= j < buckets@.len() ==> files_view((#[trigger] buckets@[j])@) == key_members(fv, hashes@, seen@[j]),
            file_groups_view(groups@) == shared(all.subrange(0, i as int)),
        decreases buckets@.len() - i,
    {
        let ghost old_groups = groups@;
        assert(all.subrange(0, i + 1).drop_last() =~= all.subrange(0, i as int));
        assert(all.subrange(0, i + 1).last() == files_view(buckets@[i as int]@));
        if buckets[i].len() >= 2 {
            let group = duplicate_files(&buckets[i]);
            groups.push(group);
            assert(file_groups_view(groups@) =~= file_groups_view(old_groups).push(files_view(group@)));
        }
        i = i + 1;
    }
    assert(all.subrange(0, buckets@.len() as int) =~= all);
    groups
}

/// The first group, from index `from` on, whose first member compared
/// equal to candidate `c`.
pub open spec fn first_match(groups: Seq<Seq<int>>, c: int, same: spec_fn(int, int) -> bool, from: int) -> Option<int>
    decreases groups.len() - from,
{
    if 0 <= from < groups.len() {
        if same(c, groups[from][0]) {
            Some(from)
        } else {
            first_match(groups, c, same, from + 1)
        }
    } else {
        None
    }
}

/// Candidate `c` joins the first group whose first member has the same
/// content, or starts a group of its own.
pub open spec fn place(groups: Seq<Seq<int>>, c: int, same: spec_fn(int, int) -> bool) -> Seq<Seq<int>> {
    match first_match(groups, c, same, 0) {
        Some(g) => groups.update(g, groups[g].push(c)),
        None => groups.push(seq![c]),
    }
}

/// The groups of the first `n` candidates (by index), each candidate
/// placed in turn, where `same(c, f)` answers whether candidate `c` has
/// the content of candidate `f`.
pub open spec fn content_groups(n: nat, same: spec_fn(int, int) -> bool) -> Seq<Seq<int>>
    decreases n,
{
    if n == 0 {
        seq![]
    } else {
        place(content_groups((n - 1) as nat, same), n - 1, same)
    }
}

/// Groups of indices, as values.
pub open spec fn index_groups(gs: Seq<Vec<usize>>) -> Seq<Seq<int>> {
    gs.map_values(|g: Vec<usize>| g@.map_values(|k: usize| k as int))
}

/// The candidates that groups of indices name.
pub open spec fn named_groups(gs: Seq<Seq<int>>, files: Seq<CandidateView>) -> Seq<Seq<CandidateView>> {
    gs.map_values(|g: Seq<int>| g.map_values(|k: int| files[k]))
}

proof fn lemma_first_match_skip(groups: Seq<Seq<int>>, c: int, same: spec_fn(int, int) -> bool, p: int)
    requires
        0 <= p <= groups.len(),
        forall|g: int| 0 <= g < p ==> !same(c, #[trigger] groups[g][0]),
    ensures
        first_match(groups, c, same, 0) == first_match(groups, c, same, p),
    decreases p,
{
    if p > 0 {
        lemma_first_match_skip(groups, c, same, p - 1);
        assert(!same(c, groups[p - 1][0]));
    }
}

proof fn lemma_first_match_frame(
    groups: Seq<Seq<int>>,
    c: int,
    s1: spec_fn(int, int) -> bool,
    s2: spec_fn(int, int) -> bool,
    from: int,
)
    requires
        forall|j: int| #[trigger] s1(c, j) == s2(c, j),
    ensures
        first_match(groups, c, s1, from) == first_match(groups, c, s2, from),
    decreases groups.len() - from,
{
    if 0 <= from < groups.len() {
        assert(s1(c, groups[from][0]) == s2(c, groups[from][0]));
        lemma_first_match_frame(groups, c, s1, s2, from + 1);
    }
}

pub(crate) proof fn lemma_first_match_found(groups: Seq<Seq<int>>, c: int, same: spec_fn(int, int) -> bool, from: int)
    requires
        0 <= from,
    ensures
        match first_match(groups, c, same, from) {
            Some(g) => from <= g < groups.len() && same(c, groups[g][0]) && forall|h: int|
                from <= h < g ==> !same(c, #[trigger] groups[h][0]),
            None => forall|h: int| from <= h < groups.len() ==> !same(c, #[trigger] groups[h][0]),
        },
    decreases groups.len() - from,
{
    if 0 <= from < groups.len() {
        lemma_first_match_found(groups, c, same, from + 1);
    }
}

/// Content groups depend only on the answers for the candidates placed.
proof fn lemma_content_groups_frame(n: nat, s1: spec_fn(int, int) -> bool, s2: spec_fn(int, int) -> bool)
    requires
        forall|i: int, j: int| 0 <= i < n ==> #[trigger] s1(i, j) == s2(i, j),
    ensures
        content_groups(n, s1) == content_groups(n, s2),
    decreases n,
{
    if n > 0 {
        lemma_content_groups_frame((n - 1) as nat, s1, s2);
        let g = content_groups((n - 1) as nat, s1);
        assert forall|j: int| #[trigger] s1(n - 1, j) == s2(n - 1, j) by {}
        lemma_first_match_frame(g, n - 1, s1, s2, 0);
    }
}

/// Every content group is nonempty, names candidates below `n`, and the
/// groups are in the order of their first members.
pub proof fn lemma_content_groups_shape(n: nat, same: spec_fn(int, int) -> bool)
    ensures
        forall|g: int| 0 <= g < content_groups(n, same).len() ==> (#[trigger] content_groups(n, same)[g]).len() > 0,
        forall|g: int, k: int|
            0 <= g < content_groups(n, same).len() && 0 <= k < content_groups(n, same)[g].len() ==> 0
                <= #[trigger] content_groups(n, same)[g][k] < n,
        forall|g: int, h: int|
            0 <= g < h < content_groups(n, same).len() ==> content_groups(n, same)[g][0] < content_groups(n, same)[h][0],
    decreases n,
{
    if n > 0 {
        let m = (n - 1) as nat;
        lemma_content_groups_shape(m, same);
        let old = content_groups(m, same);
        let new = content_groups(n, same);
        lemma_first_match_found(old, m as int, same, 0);
        match first_match(old, m as int, same, 0) {
            Some(t) => {
                assert forall|g: int| 0 <= g < new.len() implies (#[trigger] new[g]).len() > 0 by {
                    if g != t {
                        assert(new[g] == old[g]);
                    }
                }
                assert forall|g: int, k: int| 0 <= g < new.len() && 0 <= k < new[g].len() implies 0 <= #[trigger] new[g][k] < n by {
                    if g != t {
                        assert(new[g] == old[g]);
                    } else if k < old[g].len() {
                        assert(new[g][k] == old[g][k]);
                    }
                }
                assert forall|g: int, h: int| 0 <= g < h < new.len() implies new[g][0] < new[h][0] by {
                    assert(new[g][0] == old[g][0]);
                    assert(new[h][0] == old[h][0]);
                }
            },
            None => {
                assert forall|g: int| 0 <= g < new.len() implies (#[trigger] new[g]).len() > 0 by {
                    if g < old.len() {
                        assert(new[g] == old[g]);
                    }
                }
                assert forall|g: int, k: int| 0 <= g < new.len() && 0 <= k < new[g].len() implies 0 <= #[trigger] new[g][k] < n by {
                    if g < old.len() {
                        assert(new[g] == old[g]);
                    }
                }
                assert forall|g: int, h: int| 0 <= g < h < new.len() implies new[g][0] < new[h][0] by {
                    assert(new[g] == old[g]);
                    if h < old.len() {
                        assert(new[h] == old[h]);
                    } else {
                        assert(old[g].len() > 0);
                        assert(old[g][0] < m);
                    }
                }
            },
        }
    }
}

/// Whether `same` is an equivalence on the candidates below `n`, as
/// having the same bytes is.
pub open spec fn is_equivalence(same: spec_fn(int, int) -> bool, n: nat) -> bool {
    &&& forall|i: int| 0 <= i < n ==> #[trigger] same(i, i)
    &&& forall|i: int, j: int| 0 <= i < n && 0 <= j < n && #[trigger] same(i, j) ==> same(j, i)
    &&& forall|i: int, j: int, k: int|
        0 <= i < n && 0 <= j < n && 0 <= k < n && #[trigger] same(i, j) && #[trigger] same(j, k) ==> same(i, k)
}

/// Whether candidates `i` and `j` are members of one group.
pub open spec fn same_group(gs: Seq<Seq<int>>, i: int, j: int) -> bool {
    exists|g: int, a: int, b: int|
        0 <= g < gs.len() && 0 <= a < gs[g].len() && 0 <= b < gs[g].len() && #[trigger] gs[g][a] == i && #[trigger] gs[g][b] == j
}

proof fn lemma_firsts_differ(n: nat, m: nat, same: spec_fn(int, int) -> bool)
    requires
        is_equivalence(same, n),
        m <= n,
    ensures
        forall|g: int, h: int|
            0 <= g < content_groups(m, same).len() && 0 <= h < content_groups(m, same).len() && g != h ==> !same(
                #[trigger] content_groups(m, same)[g][0],
                #[trigger] content_groups(m, same)[h][0],
            ),
    decreases m,
{
    if m > 0 {
        let p = (m - 1) as nat;
        lemma_firsts_differ(n, p, same);
        lemma_content_groups_shape(p, same);
        let old = content_groups(p, same);
        let new = content_groups(m, same);
        lemma_first_match_found(old, p as int, same, 0);
        match first_match(old, p as int, same, 0) {
            Some(t) => {
                assert forall|g: int| 0 <= g < new.len() implies new[g][0] == old[g][0] by {
                    if g == t {
                        assert(new[g] == old[t].push(p as int));
                    }
                }
                assert forall|g: int, h: int| 0 <= g < new.len() && 0 <= h < new.len() && g != h implies !same(
                    #[trigger] new[g][0],
                    #[trigger] new[h][0],
                ) by {
                    assert(new[g][0] == old[g][0]);
                    assert(new[h][0] == old[h][0]);
                }
            },
            None => {
                assert forall|g: int, h: int| 0 <= g < new.len() && 0 <= h < new.len() && g != h implies !same(
                    #[trigger] new[g][0],
                    #[trigger] new[h][0],
                ) by {
                    if g < old.len() && h < old.len() {
                        assert(new[g] == old[g]);
                        assert(new[h] == old[h]);
                    } else if g < old.len() {
                        assert(new[g] == old[g]);
                        assert(new[h] == seq![p as int]);
                        assert(!same(p as int, old[g][0]));
                        assert(0 <= old[g][0] < p);
                        if same(old[g][0], p as int) {
                            assert(same(p as int, old[g][0]));
                        }
                    } else {
                        assert(new[h] == old[h]);
                        assert(new[g] == seq![p as int]);
                        assert(!same(p as int, old[h][0]));
                    }
                }
            },
        }
    }
}

/// Where the answers come from an equivalence (such as having the same
/// bytes), two candidates end in one group exactly when they are
/// equivalent: a file joins the group of its equals, and a file without
/// an equal stays alone.
pub proof fn content_groups_follow_an_equivalence(n: nat, same: spec_fn(int, int) -> bool)
    requires
        is_equivalence(same, n),
    ensures
        forall|i: int, j: int| 0 <= i < n && 0 <= j < n ==> (same(i, j) <==> #[trigger] same_group(content_groups(n, same), i, j)),
{
    let cg = content_groups(n, same);
    content_groups_rest_on_comparisons(n, same);
    lemma_content_groups_shape(n, same);
    lemma_firsts_differ(n, n, same);
    assert forall|i: int, j: int| 0 <= i < n && 0 <= j < n implies (same(i, j) <==> #[trigger] same_group(cg, i, j)) by {
        if same_group(cg, i, j) {
            let (g, a, b) = choose|g: int, a: int, b: int|
                0 <= g < cg.len() && 0 <= a < cg[g].len() && 0 <= b < cg[g].len() && #[trigger] cg[g][a] == i && #[trigger] cg[g][b] == j;
            let f = cg[g][0];
            assert(0 <= f < n);
            assert(same(i, f)) by {
                if a > 0 {
                } else {
                    assert(i == f);
                }
            }
            assert(same(j, f)) by {
                if b > 0 {
                } else {
                    assert(j == f);
                }
            }
            assert(same(f, j));
        }
        if same(i, j) {
            assert(in_some_group(cg, i));
            assert(in_some_group(cg, j));
            let (g, a) = choose|g: int, a: int| 0 <= g < cg.len() && 0 <= a < cg[g].len() && #[trigger] cg[g][a] == i;
            let (h, b) = choose|h: int, b: int| 0 <= h < cg.len() && 0 <= b < cg[h].len() && #[trigger] cg[h][b] == j;
            let fi = cg[g][0];
            let fj = cg[h][0];
            assert(same(i, fi)) by {
                if a == 0 {
                    assert(i == fi);
                }
            }
            assert(same(j, fj)) by {
                if b == 0 {
                    assert(j == fj);
                }
            }
            assert(same(fi, i));
            assert(same(fi, j));
            assert(same(fi, fj));
            if g != h {
                assert(!same(cg[g][0], cg[h][0]));
            }
            assert(cg[g][b] == j);
        }
    }
}

/// Whether candidate `i` is a member of one of the groups.
pub open spec fn in_some_group(gs: Seq<Seq<int>>, i: int) -> bool {
    exists|g: int, k: int| 0 <= g < gs.len() && 0 <= k < gs[g].len() && #[trigger] gs[g][k] == i
}

/// A hash match alone puts no two files together: every member of a
/// content group after the first compared equal to the first, and every
/// candidate is in some group.
pub proof fn content_groups_rest_on_comparisons(n: nat, same: spec_fn(int, int) -> bool)
    ensures
        forall|g: int, k: int|
            0 <= g < content_groups(n, same).len() && 0 < k < content_groups(n, same)[g].len() ==> same(
                #[trigger] content_groups(n, same)[g][k],
                content_groups(n, same)[g][0],
            ),
        forall|i: int| 0 <= i < n ==> #[trigger] in_some_group(content_groups(n, same), i),
    decreases n,
{
    if n > 0 {
        let m = (n - 1) as nat;
        content_groups_rest_on_comparisons(m, same);
        lemma_content_groups_shape(m, same);
        let old = content_groups(m, same);
        let new = content_groups(n, same);
        lemma_first_match_found(old, m as int, same, 0);
        match first_match(old, m as int, same, 0) {
            Some(t) => {
                assert forall|g: int, k: int| 0 <= g < new.len() && 0 < k < new[g].len() implies same(
                    #[trigger] new[g][k],
                    new[g][0],
                ) by {
                    if g != t {
                        assert(new[g] == old[g]);
                    } else {
                        assert(new[g][0] == old[g][0]);
                        if k < old[g].len() {
                            assert(new[g][k] == old[g][k]);
                        }
                    }
                }
                assert forall|i: int| 0 <= i < n implies #[trigger] in_some_group(new, i) by {
                    if i == m {
                        assert(new[t][old[t].len() as int] == i);
                    } else {
                        assert(in_some_group(old, i));
                        let (g, k) = choose|g: int, k: int| 0 <= g < old.len() && 0 <= k < old[g].len() && #[trigger] old[g][k] == i;
                        if g == t {
                            assert(new[g][k] == old[g][k]);
                        } else {
                            assert(new[g] == old[g]);
                        }
                    }
                }
            },
            None => {
                assert forall|g: int, k: int| 0 <= g < new.len() && 0 < k < new[g].len() implies same(
                    #[trigger] new[g][k],
                    new[g][0],
                ) by {
                    if g < old.len() {
                        assert(new[g] == old[g]);
                    }
                }
                assert forall|i: int| 0 <= i < n implies #[trigger] in_some_group(new, i) by {
                    if i == m {
                        assert(new[old.len() as int][0] == i);
                    } else {
                        assert(in_some_group(old, i));
                        let (g, k) = choose|g: int, k: int| 0 <= g < old.len() && 0 <= k < old[g].len() && #[trigger] old[g][k] == i;
                        assert(new[g] == old[g]);
                    }
                }
            },
        }
    }
}

proof fn lemma_content_groups_count(n: nat, same: spec_fn(int, int) -> bool)
    ensures
        content_groups(n, same).len() <= n,
    decreases n,
{
    if n > 0 {
        let m = (n - 1) as nat;
        lemma_content_groups_count(m, same);
        let g = content_groups(m, same);
        lemma_first_match_found(g, m as int, same, 0);
        match first_match(g, m as int, same, 0) {
            Some(k) => assert(place(g, m as int, same).len() == g.len()),
            None => assert(place(g, m as int, same).len() == g.len() + 1),
        }
    }
}

/// Every file of a size group has the group's size.
pub proof fn size_groups_share_one_size(files: Seq<CandidateView>, groups: Seq<Seq<CandidateView>>)
    requires
        is_size_grouping(files, groups),
    ensures
        forall|j: int, m: int| 0 <= j < groups.len() && 0 <= m < groups[j].len() ==> (#[trigger] groups[j][m]).size == groups[j][0].size,
{
    assert forall|j: int, m: int| 0 <= j < groups.len() && 0 <= m < groups[j].len() implies (#[trigger] groups[j][m]).size
        == groups[j][0].size by {
        lemma_key_members_key(files, groups[j][0].size);
    }
}

/// Splits files of one size and hash into groups of identical content by
/// byte comparison. Each candidate in turn is compared with the first
/// member of each group made so far, in order, and joins the first that
/// compares equal, or starts a group of its own. The comparisons are made
/// by the caller: `pending` names the next one, `answer` records its
/// result.
pub struct ContentGrouping {
    candidates: Vec<CandidateFile>,
    groups: Vec<Vec<usize>>,
    next: usize,
    probe: usize,
    same: Ghost<spec_fn(int, int) -> bool>,
}

impl ContentGrouping {
    /// The candidates being grouped.
    pub closed spec fn candidates(&self) -> Seq<CandidateView> {
        files_view(self.candidates@)
    }

    /// The answers recorded so far: `answers()(c, f)` is whether candidate
    /// `c` compared equal to candidate `f`.
    pub closed spec fn answers(&self) -> spec_fn(int, int) -> bool {
        self.same@
    }

    /// The comparison to make next, as indices of two candidates, or
    /// `None` when every candidate has been placed.
    pub closed spec fn pending(&self) -> Option<(int, int)> {
        if self.next < self.candidates@.len() {
            Some((self.next as int, self.groups@[self.probe as int]@[0] as int))
        } else {
            None
        }
    }

    /// How far the grouping is from done: it falls with every answer.
    pub closed spec fn left(&self) -> nat {
        let n = self.candidates@.len();
        if self.next <= n {
            ((n - self.next) * (n + 2) + if self.probe <= n {
                n + 1 - self.probe
            } else {
                0
            }) as nat
        } else {
            0
        }
    }

    /// The internal invariant.
    pub closed spec fn wf(&self) -> bool {
        &&& self.next <= self.candidates@.len()
        &&& index_groups(self.groups@) == content_groups(self.next as nat, self.same@)
        &&& self.next < self.candidates@.len() ==> self.probe < self.groups@.len()
        &&& forall|g: int|
            0 <= g < self.probe ==> !(self.same@)(self.next as int, #[trigger] index_groups(self.groups@)[g][0])
    }

    proof fn lemma_index_groups_facts(&self)
        requires
            self.wf(),
        ensures
            forall|g: int| 0 <= g < self.groups@.len() ==> (#[trigger] self.groups@[g])@.len() > 0,
            forall|g: int, k: int|
                0 <= g < self.groups@.len() && 0 <= k < self.groups@[g]@.len() ==> (#[trigger] self.groups@[g]@[k]) < self.next,
            forall|g: int, h: int|
                0 <= g < h < self.groups@.len() ==> self.groups@[g]@[0] < self.groups@[h]@[0],
    {
        lemma_content_groups_shape(self.next as nat, self.same@);
        let ig = index_groups(self.groups@);
        assert forall|g: int| 0 <= g < self.groups@.len() implies (#[trigger] self.groups@[g])@.len() > 0 by {
            assert(ig[g].len() == self.groups@[g]@.len());
        }
        assert forall|g: int, k: int|
            0 <= g < self.groups@.len() && 0 <= k < self.groups@[g]@.len() implies (#[trigger] self.groups@[g]@[k]) < self.next by {
            assert(ig[g][k] == self.groups@[g]@[k] as int);
        }
        assert forall|g: int, h: int| 0 <= g < h < self.groups@.len() implies self.groups@[g]@[0] < self.groups@[h]@[0] by {
            assert(ig[g][0] == self.groups@[g]@[0] as int);
            assert(ig[h][0] == self.groups@[h]@[0] as int);
        }
    }

    /// Starts a group of its own for the next candidate when no group is
    /// left to compare it with.
    fn settle(&mut self)
        requires
            old(self).next <= old(self).candidates@.len(),
            index_groups(old(self).groups@) == content_groups(old(self).next as nat, old(self).same@),
            old(self).probe <= old(self).groups@.len(),
            old(self).next < old(self).candidates@.len() || old(self).probe == 0,
            forall|g: int|
                0 <= g < old(self).probe ==> !(old(self).same@)(old(self).next as int, #[trigger] index_groups(old(self).groups@)[g][0]),
        ensures
            final(self).wf(),
            final(self).candidates@ == old(self).candidates@,
            final(self).same@ == old(self).same@,
            final(self).next >= old(self).next,
            final(self).next == old(self).next ==> final(self).probe == old(self).probe,
    {
        if self.next < self.candidates.len() && self.probe == self.groups.len() {
            let ghost g0 = index_groups(self.groups@);
            proof {
                lemma_first_match_skip(g0, self.next as int, self.same@, self.probe as int);
            }
            let c = self.next;
            let mut fresh: Vec<usize> = Vec::new();
            fresh.push(c);
            let ghost old_groups = self.groups@;
            assert(fresh@.map_values(|k: usize| k as int) =~= seq![c as int]);
            self.groups.push(fresh);
            self.next = c + 1;
            self.probe = 0;
            assert(self.groups@ == old_groups.push(fresh));
            assert(index_groups(self.groups@) =~= g0.push(seq![c as int]));
        }
    }

    /// Prepares the grouping of `candidates`.
    pub fn new(candidates: Vec<CandidateFile>) -> (r: ContentGrouping)
        ensures
            r.wf(),
            r.candidates() == files_view(candidates@),
            forall|i: int, j: int| !(#[trigger] (r.answers())(i, j)),
    {
        let mut r = ContentGrouping {
            candidates,
            groups: Vec::new(),
            next: 0,
            probe: 0,
            same: Ghost(|i: int, j: int| false),
        };
        assert(index_groups(r.groups@) =~= content_groups(0, r.same@));
        r.settle();
        r
    }

    /// The comparison to make next: the indices of the candidate being
    /// placed and of the first member of the group it is compared with.
    pub fn next_comparison(&self) -> (r: Option<(usize, usize)>)
        requires
            self.wf(),
        ensures
            match r {
                Some((c, f)) => self.pending() == Some((c as int, f as int)) && c < self.candidates().len() && f
                    < self.candidates().len(),
                None => self.pending() is None,
            },
    {
        proof {
            self.lemma_index_groups_facts();
        }
        if self.next < self.candidates.len() {
            Some((self.next, self.groups[self.probe][0]))
        } else {
            None
        }
    }

    /// Records whether the pending comparison found equal content, and
    /// moves on.
    pub fn answer(&mut self, equal: bool)
        requires
            old(self).wf(),
            old(self).pending() is Some,
        ensures
            final(self).wf(),
            final(self).candidates() == old(self).candidates(),
            final(self).left() < old(self).left(),
            ({
                let (c, f) = old(self).pending()->0;
                final(self).answers() == with_answer(old(self).answers(), c, f, equal)
            }),
    {
        proof {
            self.lemma_index_groups_facts();
        }
        let ghost g0 = index_groups(self.groups@);
        let ghost s0 = self.same@;
        let ghost old_left = self.left();
        let c = self.next;
        let p = self.probe;
        let n = self.candidates.len();
        let glen = self.groups.len();
        assert(c < n);
        assert(p < glen);
        proof {
            lemma_content_groups_count(c as nat, s0);
            assert(g0.len() == glen);
        }
        let f = self.groups[p][0];
        let ghost s1 = |i: int, j: int| if i == c as int && j == f as int { equal } else { s0(i, j) };
        self.same = Ghost(s1);
        proof {
            assert forall|i: int, j: int| 0 <= i < c implies #[trigger] s0(i, j) == s1(i, j) by {}
            lemma_content_groups_frame(c as nat, s0, s1);
            assert forall|g: int| 0 <= g < p implies !s1(c as int, #[trigger] g0[g][0]) by {
                assert(g0[g][0] == self.groups@[g]@[0] as int);
                assert(self.groups@[g]@[0] < self.groups@[p as int]@[0]);
            }
        }
        if equal {
            proof {
                lemma_first_match_skip(g0, c as int, s1, p as int);
                assert(g0[p as int][0] == f as int);
            }
            let mut grown = self.groups.remove(p);
            let ghost before = grown@;
            grown.push(c);
            self.groups.insert(p, grown);
            self.next = c + 1;
            self.probe = 0;
            proof {
                assert(grown@.map_values(|k: usize| k as int) =~= before.map_values(|k: usize| k as int).push(c as int));
                assert(index_groups(self.groups@) =~= g0.update(p as int, g0[p as int].push(c as int)));
            }
        } else {
            self.probe = p + 1;
        }
        self.settle();
        proof {
            let nn = n as int;
            let c2 = self.next as int;
            let p2 = self.probe as int;
            assert(self.candidates@.len() == nn);
            assert(old_left == (nn - c) * (nn + 2) + (nn + 1 - p));
            if c2 == c {
                assert(p2 == p + 1);
            } else {
                assert(c2 >= c + 1);
                assert(c2 <= nn);
                assert((nn - c2) * (nn + 2) <= (nn - c - 1) * (nn + 2)) by (nonlinear_arith)
                    requires
                        c2 >= c + 1,
                        nn + 2 > 0,
                {
                }
                assert((nn - c - 1) * (nn + 2) + (nn + 2) == (nn - c) * (nn + 2)) by (nonlinear_arith);
            }
        }
    }

    /// The groups made, each with its candidates in their given order, the
    /// groups in the order of their first members.
    pub fn into_groups(&self) -> (groups: Vec<Vec<CandidateFile>>)
        requires
            self.wf(),
            self.pending() is None,
        ensures
            file_groups_view(groups@) == named_groups(
                content_groups(self.candidates().len(), self.answers()),
                self.candidates(),
            ),
    {
        proof {
            self.lemma_index_groups_facts();
        }
        let ghost cv = files_view(self.candidates@);
        let ghost ig = index_groups(self.groups@);
        let mut out: Vec<Vec<CandidateFile>> = Vec::new();
        let mut g: usize = 0;
        while g < self.groups.len()
            invariant
                g <= self.groups@.len(),
                ig == index_groups(self.groups@),
                cv == files_view(self.candidates@),
                self.next == self.candidates@.len(),
                forall|a: int, k: int|
                    0 <= a < self.groups@.len() && 0 <= k < self.groups@[a]@.len() ==> (#[trigger] self.groups@[a]@[k])
                        < self.next,
                file_groups_view(out@) == named_groups(ig, cv).subrange(0, g as int),
            decreases self.groups@.len() - g,
        {
            let members = &self.groups[g];
            let mut group: Vec<CandidateFile> = Vec::new();
            let mut k: usize = 0;
            while k < members.len()
                invariant
                    k <= members@.len(),
                    *members == self.groups@[g as int],
                    g < self.groups@.len(),
                    cv == files_view(self.candidates@),
                    self.next == self.candidates@.len(),
                    forall|q: int| 0 <= q < members@.len() ==> (#[trigger] members@[q]) < self.next,
                    files_view(group@) == members@.map_values(|i: usize| cv[i as int]).subrange(0, k as int),
                decreases members@.len() - k,
            {
                let ghost before = group@;
                let e = self.candidates[members[k]].duplicate();
                group.push(e);
                assert(files_view(group@) =~= files_view(before).push(e@));
                k = k + 1;
                assert(files_view(group@) =~= members@.map_values(|i: usize| cv[i as int]).subrange(0, k as int));
            }
            let ghost old_out = out@;
            assert(files_view(group@) =~= ig[g as int].map_values(|i: int| cv[i]));
            out.push(group);
            assert(file_groups_view(out@) =~= file_groups_view(old_out).push(files_view(group@)));
            g = g + 1;
            assert(file_groups_view(out@) =~= named_groups(ig, cv).subrange(0, g as int));
        }
        assert(named_groups(ig, cv).subrange(0, self.groups@.len() as int) =~= named_groups(ig, cv));
        out
    }
}

/// The answers `answers`, with the comparison of candidate `c` against
/// candidate `f` answered `equal`.
pub open spec fn with_answer(answers: spec_fn(int, int) -> bool, c: int, f: int, equal: bool) -> spec_fn(int, int) -> bool {
    |i: int, j: int|
        if i == c && j == f {
            equal
        } else {
            answers(i, j)
        }
}

/// Whether no comparison has been answered equal in `answers`.
pub open spec fn unanswered(answers: spec_fn(int, int) -> bool) -> bool {
    forall|i: int, j: int| !#[trigger] answers(i, j)
}

/// Whether `g` holds the files of `files` ranked by the keeper order: the
/// first kept, the rest removable.
pub open spec fn is_kept_group(
    policy: KeepPolicy,
    files: Seq<CandidateView>,
    canonical: Seq<Vec<u8>>,
    prefers: Seq<Vec<u8>>,
    g: GroupView,
) -> bool {
    exists|order: Seq<int>|
        {
            &&& is_keep_arrangement(policy, keys_of(files, paths_view(canonical), paths_view(prefers)), order)
            &&& group_members(g) == arranged(files, order)
        }
}

/// The positions of the groups of two or more files, in order.
pub open spec fn shared_positions(gs: Seq<Seq<CandidateView>>) -> Seq<int>
    decreases gs.len(),
{
    if gs.len() == 0 {
        seq![]
    } else if gs.last().len() >= 2 {
        shared_positions(gs.drop_last()).push(gs.len() - 1)
    } else {
        shared_positions(gs.drop_last())
    }
}

pub(crate) proof fn lemma_shared_positions_bounds(gs: Seq<Seq<CandidateView>>)
    ensures
        forall|j: int| 0 <= j < shared_positions(gs).len() ==> 0 <= #[trigger] shared_positions(gs)[j] < gs.len(),
    decreases gs.len(),
{
    if gs.len() > 0 {
        lemma_shared_positions_bounds(gs.drop_last());
        let rest = shared_positions(gs.drop_last());
        if gs.last().len() >= 2 {
            assert forall|j: int| 0 <= j < rest.len() + 1 implies 0 <= #[trigger] rest.push(gs.len() - 1)[j] < gs.len() by {
                if j < rest.len() {
                    assert(rest.push(gs.len() - 1)[j] == rest[j]);
                }
            }
        }
    }
}

/// The last stage of the search: turns the groups of identical content
/// (made by `group_by_size`, `group_by_hash` and `ContentGrouping`) into
/// duplicate groups. Each group of two or more files, in order, gets its
/// keeper and removable files; a file alone is no duplicate. `canonical_paths[i][k]` is the canonical
/// form of `groups[i][k]` and `canonical_prefer_paths` those of the
/// preferred trees.
pub fn find_duplicate_groups(
    groups: &Vec<Vec<CandidateFile>>,
    canonical_paths: &Vec<Vec<Vec<u8>>>,
    keep_policy: KeepPolicy,
    canonical_prefer_paths: &Vec<Vec<u8>>,
) -> (r: Vec<DuplicateGroup>)
    requires
        canonical_paths@.len() == groups@.len(),
        forall|i: int| 0 <= i < groups@.len() ==> (#[trigger] canonical_paths@[i])@.len() == groups@[i]@.len(),
    ensures
        r@.len() == shared_positions(file_groups_view(groups@)).len(),
        forall|j: int|
            0 <= j < r@.len() ==> {
                let i = shared_positions(file_groups_view(groups@))[j];
                is_kept_group(
                    keep_policy,
                    files_view(groups@[i]@),
                    canonical_paths@[i]@,
                    canonical_prefer_paths@,
                    (#[trigger] r@[j])@,
                )
            },
{
    let ghost gv = file_groups_view(groups@);
    let mut out: Vec<DuplicateGroup> = Vec::new();
    let mut i: usize = 0;
    while i < groups.len()
        invariant
            i <= groups@.len(),
            gv == file_groups_view(groups@),
            canonical_paths@.len() == groups@.len(),
            forall|q: int| 0 <= q < groups@.len() ==> (#[trigger] canonical_paths@[q])@.len() == groups@[q]@.len(),
            out@.len() == shared_positions(gv.subrange(0, i as int)).len(),
            forall|j: int|
                0 <= j < out@.len() ==> {
                    let q = shared_positions(gv.subrange(0, i as int))[j];
                    is_kept_group(
                        keep_policy,
                        files_view(groups@[q]@),
                        canonical_paths@[q]@,
                        canonical_prefer_paths@,
                        (#[trigger] out@[j])@,
                    )
                },
        decreases groups@.len() - i,
    {
        let ghost before = gv.subrange(0, i as int);
        let ghost after = gv.subrange(0, i + 1);
        assert(after.drop_last() =~= before);
        assert(after.last() == files_view(groups@[i as int]@));
        proof {
            lemma_shared_positions_bounds(before);
        }
        if groups[i].len() >= 2 {
            let files = duplicate_files(&groups[i]);
            let group = duplicate_group_from_files(files, &canonical_paths[i], keep_policy, canonical_prefer_paths);
            let ghost old_out = out@;
            out.push(group);
            proof {
                assert(shared_positions(after) == shared_positions(before).push(i as int));
                assert forall|j: int|
                    0 <= j < out@.len() implies {
                        let q = shared_positions(after)[j];
                        is_kept_group(
                            keep_policy,
                            files_view(groups@[q]@),
                            canonical_paths@[q]@,
                            canonical_prefer_paths@,
                            (#[trigger] out@[j])@,
                        )
                    } by {
                    if j < old_out.len() {
                        assert(out@[j] == old_out[j]);
                    }
                }
            }
        } else {
            assert(shared_positions(after) == shared_positions(before));
        }
        i = i + 1;
    }
    assert(gv.subrange(0, groups@.len() as int) =~= gv);
    out
}

} // verus!
