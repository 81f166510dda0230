//! The duplicate search as a whole: the groups found by size, then by
//! hash, then by byte comparison, and their keepers. What holds of the
//! groups at the end: each holds files of one size, has a file to remove,
//! and no scanned file is used twice.
use vstd::prelude::*;
use crate::duplicates::{
    file_groups_view, find_duplicate_groups, group_by_hash, group_by_size, is_kept_group, unanswered, with_answer,
    ContentGrouping,
    content_groups, first_match, first_seen, hash_groups, is_size_grouping, key_members, size_groups_share_one_size,
    size_keys, lemma_first_match_found,
    lemma_first_seen_distinct, named_groups, place, shared, shared_positions,
};
use crate::keep::arranged;
use crate::model::{
    files_view, group_members, groups_view, CandidateFile, CandidateView, DuplicateGroup, GroupView, KeepPolicy, duplicate_files,
};
use vstd::multiset::Multiset;

verus! {

broadcast use vstd::multiset::group_multiset_axioms, vstd::seq_lib::group_to_multiset_ensures;

/// Every file of the groups `gs`, counted as often as it occurs.
pub open spec fn members_of(gs: Seq<Seq<CandidateView>>) -> Multiset<CandidateView>
    decreases gs.len(),
{
    if gs.len() == 0 {
        Multiset::empty()
    } else {
        members_of(gs.drop_last()).add(gs.last().to_multiset())
    }
}

proof fn lemma_members_concat(a: Seq<Seq<CandidateView>>, b: Seq<Seq<CandidateView>>)
    ensures
        members_of(a + b) =~= members_of(a).add(members_of(b)),
    decreases b.len(),
{
    if b.len() == 0 {
        assert(a + b =~= a);
    } else {
        assert((a + b).drop_last() =~= a + b.drop_last());
        lemma_members_concat(a, b.drop_last());
    }
}

proof fn lemma_members_update(gs: Seq<Seq<CandidateView>>, j: int, x: Seq<CandidateView>)
    requires
        0 <= j < gs.len(),
    ensures
        members_of(gs.update(j, x)).add(gs[j].to_multiset()) =~= members_of(gs).add(x.to_multiset()),
    decreases gs.len(),
{
    let u = gs.update(j, x);
    if j < gs.len() - 1 {
        assert(u.drop_last() =~= gs.drop_last().update(j, x));
        assert(u.last() == gs.last());
        lemma_members_update(gs.drop_last(), j, x);
        assert(gs.drop_last()[j] == gs[j]);
        assert(members_of(u) == members_of(u.drop_last()).add(u.last().to_multiset()));
        assert(members_of(gs) == members_of(gs.drop_last()).add(gs.last().to_multiset()));
        let l = members_of(u).add(gs[j].to_multiset());
        let r = members_of(gs).add(x.to_multiset());
        let l0 = members_of(u.drop_last()).add(gs[j].to_multiset());
        let r0 = members_of(gs.drop_last()).add(x.to_multiset());
        assert(l0 =~= r0);
        assert forall|v: CandidateView| l.count(v) == r.count(v) by {
            assert(l0.count(v) == r0.count(v));
        }
    } else {
        assert(u.drop_last() =~= gs.drop_last());
        assert(u.last() == x);
        assert(gs.last() == gs[j]);
        assert(members_of(u) == members_of(u.drop_last()).add(u.last().to_multiset()));
        assert(members_of(gs) == members_of(gs.drop_last()).add(gs.last().to_multiset()));
        let l = members_of(u).add(gs[j].to_multiset());
        let r = members_of(gs).add(x.to_multiset());
        assert forall|v: CandidateView| l.count(v) == r.count(v) by {}
    }
    assert(members_of(u).add(gs[j].to_multiset()) =~= members_of(gs).add(x.to_multiset()));
}

pub proof fn lemma_members_shared(gs: Seq<Seq<CandidateView>>)
    ensures
        members_of(shared(gs)).subset_of(members_of(gs)),
    decreases gs.len(),
{
    if gs.len() > 0 {
        lemma_members_shared(gs.drop_last());
        let a = members_of(shared(gs.drop_last()));
        let b = members_of(gs.drop_last());
        assert(members_of(gs) == b.add(gs.last().to_multiset()));
        if gs.last().len() >= 2 {
            assert(shared(gs) == shared(gs.drop_last()).push(gs.last()));
            assert(shared(gs).drop_last() =~= shared(gs.drop_last()));
            assert(members_of(shared(gs)) == a.add(gs.last().to_multiset()));
        } else {
            assert(shared(gs) == shared(gs.drop_last()));
        }
        assert forall|v: CandidateView| members_of(shared(gs)).count(v) <= members_of(gs).count(v) by {
            assert(a.count(v) <= b.count(v));
        }
    }
}

/// The groups of the files whose key is each of `ks`, in the order of `ks`.
pub open spec fn keyed_groups(files: Seq<CandidateView>, keys: Seq<Option<u64>>, ks: Seq<u64>) -> Seq<Seq<CandidateView>> {
    ks.map_values(|k: u64| key_members(files, keys, k))
}

/// What the last file adds to the groups of the keys `ks`.
pub open spec fn last_extra(files: Seq<CandidateView>, keys: Seq<Option<u64>>, ks: Seq<u64>) -> Multiset<CandidateView> {
    if keys.last() is Some && ks.contains(keys.last()->0) {
        Multiset::singleton(files.last())
    } else {
        Multiset::empty()
    }
}

proof fn lemma_key_step(files: Seq<CandidateView>, keys: Seq<Option<u64>>, ks: Seq<u64>)
    requires
        files.len() == keys.len(),
        files.len() > 0,
        ks.no_duplicates(),
    ensures
        members_of(keyed_groups(files, keys, ks)) =~= members_of(
            keyed_groups(files.drop_last(), keys.drop_last(), ks),
        ).add(last_extra(files, keys, ks)),
    decreases ks.len(),
{
    let fd = files.drop_last();
    let kd = keys.drop_last();
    if ks.len() == 0 {
        assert(last_extra(files, keys, ks) =~= Multiset::empty());
    } else {
        let k0 = ks.last();
        let kr = ks.drop_last();
        assert(kr.no_duplicates());
        lemma_key_step(files, keys, kr);
        assert(keyed_groups(files, keys, ks).drop_last() =~= keyed_groups(files, keys, kr));
        assert(keyed_groups(fd, kd, ks).drop_last() =~= keyed_groups(fd, kd, kr));
        assert(keyed_groups(files, keys, ks).last() == key_members(files, keys, k0));
        assert(keyed_groups(fd, kd, ks).last() == key_members(fd, kd, k0));
        let km = key_members(files, keys, k0);
        let kmd = key_members(fd, kd, k0);
        if keys.last() == Some(k0) {
            assert(km == kmd.push(files.last()));
            assert(!kr.contains(k0)) by {
                if kr.contains(k0) {
                    let i = choose|i: int| 0 <= i < kr.len() && kr[i] == k0;
                    assert(ks[i] == ks[ks.len() - 1]);
                }
            }
            assert(ks.contains(k0)) by {
                assert(ks[ks.len() - 1] == k0);
            }
        } else {
            assert(km == kmd);
            if keys.last() is Some {
                let h = keys.last()->0;
                assert(ks.contains(h) == kr.contains(h)) by {
                    if ks.contains(h) {
                        let i = choose|i: int| 0 <= i < ks.len() && ks[i] == h;
                        assert(i != ks.len() - 1);
                        assert(kr[i] == h);
                    }
                    if kr.contains(h) {
                        let i = choose|i: int| 0 <= i < kr.len() && kr[i] == h;
                        assert(ks[i] == h);
                    }
                }
            }
        }
        let a = members_of(keyed_groups(files, keys, ks));
        let b = members_of(keyed_groups(fd, kd, ks)).add(last_extra(files, keys, ks));
        assert forall|v: CandidateView| a.count(v) == b.count(v) by {}
        assert(a =~= b);
    }
}

/// The groups of distinct keys hold no file more often than the files do.
pub proof fn lemma_keyed_members(files: Seq<CandidateView>, keys: Seq<Option<u64>>, ks: Seq<u64>)
    requires
        files.len() == keys.len(),
        ks.no_duplicates(),
    ensures
        members_of(keyed_groups(files, keys, ks)).subset_of(files.to_multiset()),
    decreases files.len(),
{
    if files.len() == 0 {
        assert forall|v: CandidateView| members_of(keyed_groups(files, keys, ks)).count(v) == 0 by {
            lemma_keyed_empty(files, keys, ks, v);
        }
    } else {
        let fd = files.drop_last();
        lemma_keyed_members(fd, keys.drop_last(), ks);
        lemma_key_step(files, keys, ks);
        assert(files =~= fd.push(files.last()));
        assert(files.to_multiset() =~= fd.to_multiset().insert(files.last()));
    }
}

proof fn lemma_keyed_empty(files: Seq<CandidateView>, keys: Seq<Option<u64>>, ks: Seq<u64>, v: CandidateView)
    requires
        files.len() == 0,
    ensures
        members_of(keyed_groups(files, keys, ks)).count(v) == 0,
    decreases ks.len(),
{
    if ks.len() > 0 {
        assert(keyed_groups(files, keys, ks).drop_last() =~= keyed_groups(files, keys, ks.drop_last()));
        lemma_keyed_empty(files, keys, ks.drop_last(), v);
        assert(key_members(files, keys, ks.last()) =~= Seq::<CandidateView>::empty());
    }
}

proof fn lemma_place_members(gs: Seq<Seq<int>>, c: int, same: spec_fn(int, int) -> bool, files: Seq<CandidateView>)
    ensures
        members_of(named_groups(place(gs, c, same), files)) =~= members_of(named_groups(gs, files)).insert(files[c]),
{
    lemma_first_match_found(gs, c, same, 0);
    let ng = named_groups(gs, files);
    match first_match(gs, c, same, 0) {
        Some(g) => {
            let grown = gs[g].push(c);
            let x = ng[g].push(files[c]);
            assert(grown.map_values(|k: int| files[k]) =~= x);
            assert(named_groups(place(gs, c, same), files) =~= ng.update(g, x));
            lemma_members_update(ng, g, x);
            let l = members_of(ng.update(g, x));
            let r = members_of(ng).insert(files[c]);
            assert(x.to_multiset() =~= ng[g].to_multiset().insert(files[c]));
            assert forall|v: CandidateView| l.count(v) == r.count(v) by {
                assert(l.add(ng[g].to_multiset()).count(v) == members_of(ng).add(x.to_multiset()).count(v));
            }
            assert(l =~= r);
        },
        None => {
            let single = seq![c].map_values(|k: int| files[k]);
            assert(single =~= seq![files[c]]);
            assert(named_groups(place(gs, c, same), files) =~= ng.push(single));
            assert(named_groups(place(gs, c, same), files).drop_last() =~= ng);
            assert(seq![files[c]] =~= Seq::<CandidateView>::empty().push(files[c]));
            assert(single.to_multiset() =~= Multiset::<CandidateView>::empty().insert(files[c]));
        },
    }
}

/// The groups of identical content hold every compared file exactly once.
pub proof fn lemma_content_members(n: nat, same: spec_fn(int, int) -> bool, files: Seq<CandidateView>)
    requires
        n <= files.len(),
    ensures
        members_of(named_groups(content_groups(n, same), files)) =~= files.subrange(0, n as int).to_multiset(),
    decreases n,
{
    if n == 0 {
        assert(files.subrange(0, 0) =~= Seq::<CandidateView>::empty());
    } else {
        let m = (n - 1) as nat;
        lemma_content_members(m, same, files);
        lemma_place_members(content_groups(m, same), m as int, same, files);
        assert(files.subrange(0, n as int) =~= files.subrange(0, m as int).push(files[m as int]));
    }
}

/// Files rearranged by an order that lists each of their indices once are
/// the same files, each as often.
pub proof fn lemma_arranged_members(files: Seq<CandidateView>, order: Seq<int>)
    requires
        order.len() == files.len(),
        order.no_duplicates(),
        forall|i: int| 0 <= i < order.len() ==> 0 <= #[trigger] order[i] < files.len(),
        forall|i: int| 0 <= i < files.len() ==> #[trigger] order.contains(i),
    ensures
        arranged(files, order).to_multiset() =~= files.to_multiset(),
    decreases files.len(),
{
    let n = files.len() as int;
    if n == 0 {
        assert(arranged(files, order) =~= Seq::<CandidateView>::empty());
        assert(files =~= Seq::<CandidateView>::empty());
    } else {
        let m = n - 1;
        assert(order.contains(m));
        let p = choose|p: int| 0 <= p < order.len() && order[p] == m;
        let o2 = order.remove(p);
        let fd = files.drop_last();
        assert forall|i: int| 0 <= i < o2.len() implies 0 <= #[trigger] o2[i] < fd.len() by {
            if i < p {
                assert(o2[i] == order[i]);
                assert(order[i] != order[p]);
            } else {
                assert(o2[i] == order[i + 1]);
                assert(order[i + 1] != order[p]);
            }
        }
        assert(o2.no_duplicates()) by {
            assert forall|i: int, j: int| 0 <= i < o2.len() && 0 <= j < o2.len() && i != j implies o2[i] != o2[j] by {
                let a = if i < p { i } else { i + 1 };
                let b = if j < p { j } else { j + 1 };
                assert(o2[i] == order[a]);
                assert(o2[j] == order[b]);
            }
        }
        assert forall|i: int| 0 <= i < fd.len() implies #[trigger] o2.contains(i) by {
            assert(order.contains(i));
            let q = choose|q: int| 0 <= q < order.len() && order[q] == i;
            assert(q != p);
            if q < p {
                assert(o2[q] == i);
            } else {
                assert(o2[q - 1] == i);
            }
        }
        lemma_arranged_members(fd, o2);
        let a = arranged(files, order);
        assert(a.remove(p) =~= arranged(fd, o2)) by {
            assert forall|i: int| 0 <= i < o2.len() implies a.remove(p)[i] == arranged(fd, o2)[i] by {
                if i < p {
                    assert(a.remove(p)[i] == a[i]);
                    assert(o2[i] == order[i]);
                } else {
                    assert(a.remove(p)[i] == a[i + 1]);
                    assert(o2[i] == order[i + 1]);
                }
            }
        }
        assert(a[p] == files[m]);
        assert(a.remove(p).to_multiset() =~= a.to_multiset().remove(files[m]));
        assert(files =~= fd.push(files[m]));
        assert(files.to_multiset() =~= fd.to_multiset().insert(files[m]));
        assert(a.to_multiset().count(files[m]) > 0) by {
            assert(a.contains(files[m]));
        }
        assert forall|v: CandidateView| a.to_multiset().count(v) == files.to_multiset().count(v) by {
            assert(a.to_multiset().remove(files[m]).count(v) == fd.to_multiset().count(v));
        }
    }
}

/// The groups of identical content made from the hash groups `hgs`, where
/// `answers[h]` holds the byte comparisons made within `hgs[h]`.
pub open spec fn hash_stage_content(
    hgs: Seq<Seq<CandidateView>>,
    answers: Seq<spec_fn(int, int) -> bool>,
) -> Seq<Seq<CandidateView>>
    decreases hgs.len(),
{
    if hgs.len() == 0 {
        seq![]
    } else {
        hash_stage_content(hgs.drop_last(), answers) + named_groups(
            content_groups(hgs.last().len(), answers[hgs.len() - 1]),
            hgs.last(),
        )
    }
}

/// The groups of identical content the whole search makes from the size
/// groups `sgs`: `hashes[s]` holds the hashes of the files of `sgs[s]`, and
/// `answers[s][h]` the byte comparisons within the `h`-th hash group of
/// `sgs[s]`.
pub open spec fn search_content(
    sgs: Seq<Seq<CandidateView>>,
    hashes: Seq<Seq<Option<u64>>>,
    answers: Seq<Seq<spec_fn(int, int) -> bool>>,
) -> Seq<Seq<CandidateView>>
    decreases sgs.len(),
{
    if sgs.len() == 0 {
        seq![]
    } else {
        search_content(sgs.drop_last(), hashes, answers) + hash_stage_content(
            hash_groups(sgs.last(), hashes[sgs.len() - 1]),
            answers[sgs.len() - 1],
        )
    }
}

/// Whether every file of every group has size `size`.
pub open spec fn all_of_size(gs: Seq<Seq<CandidateView>>, size: u64) -> bool {
    forall|i: int, k: int| 0 <= i < gs.len() && 0 <= k < gs[i].len() ==> (#[trigger] gs[i][k]).size == size
}

/// Whether each group holds files of one size.
pub open spec fn one_size_each(gs: Seq<Seq<CandidateView>>) -> bool {
    forall|i: int, k: int| 0 <= i < gs.len() && 0 <= k < gs[i].len() ==> (#[trigger] gs[i][k]).size == gs[i][0].size
}

proof fn lemma_subset_add(a: Multiset<CandidateView>, b: Multiset<CandidateView>, c: Multiset<CandidateView>, d: Multiset<CandidateView>)
    requires
        a.subset_of(b),
        c.subset_of(d),
    ensures
        a.add(c).subset_of(b.add(d)),
{
}

proof fn lemma_subset_trans(a: Multiset<CandidateView>, b: Multiset<CandidateView>, c: Multiset<CandidateView>)
    requires
        a.subset_of(b),
        b.subset_of(c),
    ensures
        a.subset_of(c),
{
}

proof fn lemma_key_members_within(files: Seq<CandidateView>, keys: Seq<Option<u64>>, k: u64, size: u64)
    requires
        forall|i: int| 0 <= i < files.len() ==> (#[trigger] files[i]).size == size,
    ensures
        forall|i: int| 0 <= i < key_members(files, keys, k).len() ==> (#[trigger] key_members(files, keys, k)[i]).size == size,
    decreases files.len(),
{
    if files.len() > 0 && keys.len() > 0 {
        let fd = files.drop_last();
        assert forall|i: int| 0 <= i < fd.len() implies (#[trigger] fd[i]).size == size by {
            assert(fd[i] == files[i]);
        }
        lemma_key_members_within(fd, keys.drop_last(), k, size);
        let rest = key_members(fd, keys.drop_last(), k);
        if keys.last() == Some(k) {
            assert forall|i: int| 0 <= i < rest.push(files.last()).len() implies (#[trigger] rest.push(files.last())[i]).size == size by {
                if i < rest.len() {
                    assert(rest.push(files.last())[i] == rest[i]);
                }
            }
        }
    }
}

proof fn lemma_shared_sizes(gs: Seq<Seq<CandidateView>>, size: u64)
    requires
        all_of_size(gs, size),
    ensures
        all_of_size(shared(gs), size),
    decreases gs.len(),
{
    if gs.len() > 0 {
        let gd = gs.drop_last();
        assert(all_of_size(gd, size)) by {
            assert forall|i: int, k: int| 0 <= i < gd.len() && 0 <= k < gd[i].len() implies (#[trigger] gd[i][k]).size == size by {
                assert(gd[i] == gs[i]);
            }
        }
        lemma_shared_sizes(gd, size);
        let sd = shared(gd);
        if gs.last().len() >= 2 {
            assert forall|i: int, k: int| 0 <= i < sd.push(gs.last()).len() && 0 <= k < sd.push(gs.last())[i].len() implies (#[trigger] sd.push(gs.last())[i][k]).size == size by {
                if i < sd.len() {
                    assert(sd.push(gs.last())[i] == sd[i]);
                } else {
                    assert(gs.last() == gs[gs.len() - 1]);
                }
            }
        }
    }
}

proof fn lemma_named_sizes(idx: Seq<Seq<int>>, files: Seq<CandidateView>, size: u64)
    requires
        forall|i: int| 0 <= i < files.len() ==> (#[trigger] files[i]).size == size,
        forall|g: int, k: int| 0 <= g < idx.len() && 0 <= k < idx[g].len() ==> 0 <= #[trigger] idx[g][k] < files.len(),
    ensures
        all_of_size(named_groups(idx, files), size),
{
    assert forall|i: int, k: int| 0 <= i < named_groups(idx, files).len() && 0 <= k < named_groups(idx, files)[i].len() implies (#[trigger] named_groups(idx, files)[i][k]).size == size by {
        assert(named_groups(idx, files)[i][k] == files[idx[i][k]]);
    }
}

proof fn lemma_sizes_concat(a: Seq<Seq<CandidateView>>, b: Seq<Seq<CandidateView>>)
    requires
        one_size_each(a),
        one_size_each(b),
    ensures
        one_size_each(a + b),
{
    assert forall|i: int, k: int| 0 <= i < (a + b).len() && 0 <= k < (a + b)[i].len() implies (#[trigger] (a + b)[i][k]).size == (a + b)[i][0].size by {
        if i < a.len() {
            assert((a + b)[i] == a[i]);
        } else {
            assert((a + b)[i] == b[i - a.len()]);
        }
    }
}

proof fn lemma_hash_stage_content(hgs: Seq<Seq<CandidateView>>, answers: Seq<spec_fn(int, int) -> bool>, size: u64)
    requires
        all_of_size(hgs, size),
    ensures
        members_of(hash_stage_content(hgs, answers)) =~= members_of(hgs),
        all_of_size(hash_stage_content(hgs, answers), size),
    decreases hgs.len(),
{
    if hgs.len() == 0 {
    } else {
        let hd = hgs.drop_last();
        assert(all_of_size(hd, size)) by {
            assert forall|i: int, k: int| 0 <= i < hd.len() && 0 <= k < hd[i].len() implies (#[trigger] hd[i][k]).size == size by {
                assert(hd[i] == hgs[i]);
            }
        }
        lemma_hash_stage_content(hd, answers, size);
        let last = hgs.last();
        let idx = content_groups(last.len(), answers[hgs.len() - 1]);
        let named = named_groups(idx, last);
        lemma_content_members(last.len(), answers[hgs.len() - 1], last);
        assert(last.subrange(0, last.len() as int) =~= last);
        lemma_members_concat(hash_stage_content(hd, answers), named);
        crate::duplicates::lemma_content_groups_shape(last.len(), answers[hgs.len() - 1]);
        assert forall|i: int| 0 <= i < last.len() implies (#[trigger] last[i]).size == size by {
            assert(last == hgs[hgs.len() - 1]);
        }
        lemma_named_sizes(idx, last, size);
        let prev = hash_stage_content(hd, answers);
        assert forall|i: int, k: int| 0 <= i < (prev + named).len() && 0 <= k < (prev + named)[i].len() implies (#[trigger] (prev + named)[i][k]).size == size by {
            if i < prev.len() {
                assert((prev + named)[i] == prev[i]);
            } else {
                assert((prev + named)[i] == named[i - prev.len()]);
            }
        }
    }
}

/// The hash stage and the byte comparisons within one size group: the
/// groups hold files of the group's size, none more often than the size
/// group does.
proof fn lemma_size_group_stage(
    g: Seq<CandidateView>,
    hashes: Seq<Option<u64>>,
    answers: Seq<spec_fn(int, int) -> bool>,
    size: u64,
)
    requires
        g.len() == hashes.len(),
        forall|i: int| 0 <= i < g.len() ==> (#[trigger] g[i]).size == size,
    ensures
        members_of(hash_stage_content(hash_groups(g, hashes), answers)).subset_of(g.to_multiset()),
        all_of_size(hash_stage_content(hash_groups(g, hashes), answers), size),
{
    let ks = first_seen(hashes);
    lemma_first_seen_distinct(hashes);
    assert(ks.no_duplicates());
    let kg = keyed_groups(g, hashes, ks);
    assert(hash_groups(g, hashes) == shared(kg));
    lemma_keyed_members(g, hashes, ks);
    lemma_members_shared(kg);
    assert(all_of_size(kg, size)) by {
        assert forall|i: int, k: int| 0 <= i < kg.len() && 0 <= k < kg[i].len() implies (#[trigger] kg[i][k]).size == size by {
            lemma_key_members_within(g, hashes, ks[i], size);
        }
    }
    lemma_shared_sizes(kg, size);
    lemma_hash_stage_content(shared(kg), answers, size);
    lemma_subset_trans(members_of(shared(kg)), members_of(kg), g.to_multiset());
}

proof fn lemma_search_prefix(
    sgs: Seq<Seq<CandidateView>>,
    hashes: Seq<Seq<Option<u64>>>,
    answers: Seq<Seq<spec_fn(int, int) -> bool>>,
)
    requires
        forall|s: int| 0 <= s < sgs.len() ==> (#[trigger] hashes[s]).len() == sgs[s].len(),
        one_size_each(sgs),
    ensures
        members_of(search_content(sgs, hashes, answers)).subset_of(members_of(sgs)),
        one_size_each(search_content(sgs, hashes, answers)),
    decreases sgs.len(),
{
    if sgs.len() > 0 {
        let sd = sgs.drop_last();
        let n = sgs.len() - 1;
        assert forall|s: int| 0 <= s < sd.len() implies (#[trigger] hashes[s]).len() == sd[s].len() by {
            assert(sd[s] == sgs[s]);
        }
        assert(one_size_each(sd)) by {
            assert forall|i: int, k: int| 0 <= i < sd.len() && 0 <= k < sd[i].len() implies (#[trigger] sd[i][k]).size == sd[i][0].size by {
                assert(sd[i] == sgs[i]);
            }
        }
        lemma_search_prefix(sd, hashes, answers);
        let last = sgs.last();
        assert(last == sgs[n]);
        assert(hashes[n].len() == last.len());
        let size = if last.len() > 0 { last[0].size } else { 0 };
        assert forall|i: int| 0 <= i < last.len() implies (#[trigger] last[i]).size == size by {
            assert(sgs[n][i].size == sgs[n][0].size);
        }
        lemma_size_group_stage(last, hashes[n], answers[n], size);
        let prev = search_content(sd, hashes, answers);
        let stage = hash_stage_content(hash_groups(last, hashes[n]), answers[n]);
        lemma_members_concat(prev, stage);
        lemma_subset_add(members_of(prev), members_of(sd), members_of(stage), last.to_multiset());
        assert(one_size_each(stage)) by {
            assert forall|i: int, k: int| 0 <= i < stage.len() && 0 <= k < stage[i].len() implies (#[trigger] stage[i][k]).size == stage[i][0].size by {
                assert(stage[i][0].size == size);
            }
        }
        lemma_sizes_concat(prev, stage);
    }
}

/// The groups of identical content that the search makes from the size
/// groups of `files` hold files of one size each, and no file more often
/// than `files` does.
pub proof fn lemma_search_content(
    files: Seq<CandidateView>,
    sgs: Seq<Seq<CandidateView>>,
    hashes: Seq<Seq<Option<u64>>>,
    answers: Seq<Seq<spec_fn(int, int) -> bool>>,
)
    requires
        is_size_grouping(files, sgs),
        forall|s: int| 0 <= s < sgs.len() ==> (#[trigger] hashes[s]).len() == sgs[s].len(),
    ensures
        members_of(search_content(sgs, hashes, answers)).subset_of(files.to_multiset()),
        one_size_each(search_content(sgs, hashes, answers)),
{
    size_groups_share_one_size(files, sgs);
    lemma_search_prefix(sgs, hashes, answers);
    let ks = sgs.map_values(|g: Seq<CandidateView>| g[0].size);
    assert(ks.no_duplicates()) by {
        assert forall|i: int, j: int| 0 <= i < ks.len() && 0 <= j < ks.len() && i != j implies ks[i] != ks[j] by {
            if i < j {
                assert(sgs[i][0].size < sgs[j][0].size);
            } else {
                assert(sgs[j][0].size < sgs[i][0].size);
            }
        }
    }
    assert(sgs =~= keyed_groups(files, size_keys(files), ks));
    lemma_keyed_members(files, size_keys(files), ks);
    lemma_subset_trans(members_of(search_content(sgs, hashes, answers)), members_of(sgs), files.to_multiset());
}

/// The groups of two or more files are the groups at their positions.
pub proof fn lemma_shared_positions(gs: Seq<Seq<CandidateView>>)
    ensures
        shared(gs).len() == shared_positions(gs).len(),
        forall|j: int| 0 <= j < shared_positions(gs).len() ==> {
            let p = #[trigger] shared_positions(gs)[j];
            0 <= p < gs.len() && gs[p].len() >= 2 && shared(gs)[j] == gs[p]
        },
    decreases gs.len(),
{
    if gs.len() > 0 {
        let gd = gs.drop_last();
        lemma_shared_positions(gd);
        let sp = shared_positions(gd);
        let sh = shared(gd);
        assert forall|j: int| 0 <= j < sp.len() implies gd[sp[j]] == gs[sp[j]] by {}
        if gs.last().len() >= 2 {
            assert forall|j: int| 0 <= j < sp.push(gs.len() - 1).len() implies {
                let p = #[trigger] sp.push(gs.len() - 1)[j];
                0 <= p < gs.len() && gs[p].len() >= 2 && sh.push(gs.last())[j] == gs[p]
            } by {
                if j < sp.len() {
                    assert(sp.push(gs.len() - 1)[j] == sp[j]);
                    assert(sh.push(gs.last())[j] == sh[j]);
                }
            }
        }
    }
}

/// Groups that hold, one for one, the same files as often hold the same
/// files in all.
pub proof fn lemma_members_alike(a: Seq<Seq<CandidateView>>, b: Seq<Seq<CandidateView>>)
    requires
        a.len() == b.len(),
        forall|j: int| 0 <= j < a.len() ==> (#[trigger] a[j]).to_multiset() == b[j].to_multiset(),
    ensures
        members_of(a) == members_of(b),
    decreases a.len(),
{
    if a.len() > 0 {
        lemma_members_alike(a.drop_last(), b.drop_last());
        assert(a.last() == a[a.len() - 1]);
        assert(b.last() == b[b.len() - 1]);
    }
}

/// The content made from hash groups depends on the answers of those
/// groups only.
pub proof fn lemma_hash_stage_frame(
    hgs: Seq<Seq<CandidateView>>,
    a1: Seq<spec_fn(int, int) -> bool>,
    a2: Seq<spec_fn(int, int) -> bool>,
)
    requires
        forall|h: int| 0 <= h < hgs.len() ==> a1[h] == a2[h],
    ensures
        hash_stage_content(hgs, a1) == hash_stage_content(hgs, a2),
    decreases hgs.len(),
{
    if hgs.len() > 0 {
        lemma_hash_stage_frame(hgs.drop_last(), a1, a2);
        assert(a1[hgs.len() - 1] == a2[hgs.len() - 1]);
    }
}

/// The content of the search depends on the hashes and answers of its
/// size groups only.
pub proof fn lemma_search_frame(
    sgs: Seq<Seq<CandidateView>>,
    h1: Seq<Seq<Option<u64>>>,
    h2: Seq<Seq<Option<u64>>>,
    a1: Seq<Seq<spec_fn(int, int) -> bool>>,
    a2: Seq<Seq<spec_fn(int, int) -> bool>>,
)
    requires
        forall|s: int| 0 <= s < sgs.len() ==> h1[s] == h2[s] && a1[s] == a2[s],
    ensures
        search_content(sgs, h1, a1) == search_content(sgs, h2, a2),
    decreases sgs.len(),
{
    if sgs.len() > 0 {
        lemma_search_frame(sgs.drop_last(), h1, h2, a1, a2);
        assert(h1[sgs.len() - 1] == h2[sgs.len() - 1]);
        assert(a1[sgs.len() - 1] == a2[sgs.len() - 1]);
    }
}

/// Whether the hashes `new` keep those of `old` and only add size groups
/// with no hash yet.
pub open spec fn hashes_extended(old: Seq<Seq<Option<u64>>>, new: Seq<Seq<Option<u64>>>) -> bool {
    &&& old.len() <= new.len()
    &&& forall|s: int| 0 <= s < old.len() ==> #[trigger] new[s] == old[s]
    &&& forall|s: int| old.len() <= s < new.len() ==> (#[trigger] new[s]).len() == 0
}

/// Whether the answers `new` keep those of `old` and only add hash groups
/// where nothing was answered equal yet.
pub open spec fn answers_extended(
    old: Seq<Seq<spec_fn(int, int) -> bool>>,
    new: Seq<Seq<spec_fn(int, int) -> bool>>,
) -> bool {
    &&& old.len() <= new.len()
    &&& forall|s: int| 0 <= s < old.len() ==> (#[trigger] old[s]).len() <= new[s].len()
    &&& forall|s: int, h: int| 0 <= s < old.len() && 0 <= h < old[s].len() ==> #[trigger] new[s][h] == old[s][h]
    &&& forall|s: int, h: int|
        0 <= s < new.len() && 0 <= h < new[s].len() && (s >= old.len() || h >= old[s].len()) ==> unanswered(
            #[trigger] new[s][h],
        )
}

/// Whether the progress `a` comes strictly before `b`: the first component
/// in which they differ is smaller in `a`.
pub open spec fn earlier(a: (nat, nat, nat, nat, nat), b: (nat, nat, nat, nat, nat)) -> bool {
    ||| a.0 < b.0
    ||| (a.0 == b.0 && a.1 < b.1)
    ||| (a.0 == b.0 && a.1 == b.1 && a.2 < b.2)
    ||| (a.0 == b.0 && a.1 == b.1 && a.2 == b.2 && a.3 < b.3)
    ||| (a.0 == b.0 && a.1 == b.1 && a.2 == b.2 && a.3 == b.3 && a.4 < b.4)
}

proof fn lemma_hashes_extended_trans(a: Seq<Seq<Option<u64>>>, b: Seq<Seq<Option<u64>>>, c: Seq<Seq<Option<u64>>>)
    requires
        hashes_extended(a, b),
        hashes_extended(b, c),
    ensures
        hashes_extended(a, c),
{
    assert forall|s: int| a.len() <= s < c.len() implies (#[trigger] c[s]).len() == 0 by {
        if s < b.len() {
            assert(c[s] == b[s]);
        }
    }
}

proof fn lemma_answers_extended_trans(
    a: Seq<Seq<spec_fn(int, int) -> bool>>,
    b: Seq<Seq<spec_fn(int, int) -> bool>>,
    c: Seq<Seq<spec_fn(int, int) -> bool>>,
)
    requires
        answers_extended(a, b),
        answers_extended(b, c),
    ensures
        answers_extended(a, c),
{
    assert forall|s: int| 0 <= s < a.len() implies (#[trigger] a[s]).len() <= c[s].len() by {
        assert(a[s].len() <= b[s].len());
        assert(b[s].len() <= c[s].len());
    }
    assert forall|s: int, h: int| 0 <= s < a.len() && 0 <= h < a[s].len() implies #[trigger] c[s][h] == a[s][h] by {
        assert(a[s].len() <= b[s].len());
        assert(c[s][h] == b[s][h]);
        assert(b[s][h] == a[s][h]);
    }
    assert forall|s: int, h: int|
        0 <= s < c.len() && 0 <= h < c[s].len() && (s >= a.len() || h >= a[s].len()) implies unanswered(
            #[trigger] c[s][h],
        ) by {
        if s < b.len() && h < b[s].len() {
            assert(c[s][h] == b[s][h]);
            if s < a.len() {
                assert(a[s].len() <= b[s].len());
            }
            assert(unanswered(b[s][h]));
        }
    }
}

/// Whether, among the hash groups `hgs`, some byte comparison within one
/// of them was answered equal for file `a` against file `b`.
pub open spec fn stage_compared(hgs: Seq<Seq<CandidateView>>, answers: Seq<spec_fn(int, int) -> bool>, a: CandidateView, b: CandidateView) -> bool {
    exists|h: int, i: int, j: int|
        0 <= h < hgs.len() && 0 <= i < hgs[h].len() && 0 <= j < hgs[h].len() && #[trigger] (answers[h])(i, j)
            && hgs[h][i] == a && hgs[h][j] == b
}

/// Whether, in the search over the size groups `sgs` with the hashes
/// `hashes` and the answers `answers`, some byte comparison was answered
/// equal for file `a` against file `b`.
pub open spec fn compared_equal(
    sgs: Seq<Seq<CandidateView>>,
    hashes: Seq<Seq<Option<u64>>>,
    answers: Seq<Seq<spec_fn(int, int) -> bool>>,
    a: CandidateView,
    b: CandidateView,
) -> bool {
    exists|s: int| 0 <= s < sgs.len() && #[trigger] stage_compared(hash_groups(sgs[s], hashes[s]), answers[s], a, b)
}

proof fn lemma_stage_compared(hgs: Seq<Seq<CandidateView>>, answers: Seq<spec_fn(int, int) -> bool>)
    ensures
        forall|p: int, k: int|
            0 <= p < hash_stage_content(hgs, answers).len() && 0 < k < hash_stage_content(hgs, answers)[p].len()
                ==> stage_compared(hgs, answers, #[trigger] hash_stage_content(hgs, answers)[p][k], hash_stage_content(hgs, answers)[p][0]),
    decreases hgs.len(),
{
    if hgs.len() > 0 {
        let hd = hgs.drop_last();
        lemma_stage_compared(hd, answers);
        let prev = hash_stage_content(hd, answers);
        let last = hgs.last();
        let n = hgs.len() - 1;
        let same = answers[n];
        let cg = content_groups(last.len(), same);
        let named = named_groups(cg, last);
        crate::duplicates::content_groups_rest_on_comparisons(last.len(), same);
        crate::duplicates::lemma_content_groups_shape(last.len(), same);
        let all = hash_stage_content(hgs, answers);
        assert(all == prev + named);
        assert forall|p: int, k: int| 0 <= p < all.len() && 0 < k < all[p].len() implies stage_compared(hgs, answers, #[trigger] all[p][k], all[p][0]) by {
            if p < prev.len() {
                assert(all[p] == prev[p]);
                assert(stage_compared(hd, answers, prev[p][k], prev[p][0]));
                let (h, i, j) = choose|h: int, i: int, j: int|
                    0 <= h < hd.len() && 0 <= i < hd[h].len() && 0 <= j < hd[h].len() && #[trigger] (answers[h])(i, j)
                        && hd[h][i] == prev[p][k] && hd[h][j] == prev[p][0];
                assert(hd[h] == hgs[h]);
                assert((answers[h])(i, j));
            } else {
                let q = p - prev.len();
                assert(all[p] == named[q]);
                assert(named[q] == cg[q].map_values(|x: int| last[x]));
                assert(same(cg[q][k], cg[q][0]));
                assert(last == hgs[n]);
                assert(named[q][k] == last[cg[q][k]]);
                assert(named[q][0] == last[cg[q][0]]);
                assert((answers[n])(cg[q][k], cg[q][0]));
            }
        }
    }
}

/// Whether one file of the group `m` was compared byte for byte with every
/// other file of it, each comparison answered equal.
pub open spec fn confirmed_group(
    sgs: Seq<Seq<CandidateView>>,
    hashes: Seq<Seq<Option<u64>>>,
    answers: Seq<Seq<spec_fn(int, int) -> bool>>,
    m: Seq<CandidateView>,
) -> bool {
    exists|o: int| 0 <= o < m.len() && #[trigger] confirmed_by(sgs, hashes, answers, m, o)
}

/// Whether the `o`-th file of the group `m` was compared byte for byte
/// with every other file of it, each comparison answered equal.
pub open spec fn confirmed_by(
    sgs: Seq<Seq<CandidateView>>,
    hashes: Seq<Seq<Option<u64>>>,
    answers: Seq<Seq<spec_fn(int, int) -> bool>>,
    m: Seq<CandidateView>,
    o: int,
) -> bool {
    forall|k: int| 0 <= k < m.len() && k != o ==> compared_equal(sgs, hashes, answers, #[trigger] m[k], m[o])
}

/// In the search's groups of identical content, every file after the first
/// was compared with the first byte for byte, and the comparison was
/// answered equal.
pub proof fn lemma_search_compared(
    sgs: Seq<Seq<CandidateView>>,
    hashes: Seq<Seq<Option<u64>>>,
    answers: Seq<Seq<spec_fn(int, int) -> bool>>,
)
    ensures
        forall|p: int, k: int|
            0 <= p < search_content(sgs, hashes, answers).len() && 0 < k < search_content(sgs, hashes, answers)[p].len()
                ==> compared_equal(
                sgs,
                hashes,
                answers,
                #[trigger] search_content(sgs, hashes, answers)[p][k],
                search_content(sgs, hashes, answers)[p][0],
            ),
    decreases sgs.len(),
{
    if sgs.len() > 0 {
        let sd = sgs.drop_last();
        lemma_search_compared(sd, hashes, answers);
        let n = sgs.len() - 1;
        let prev = search_content(sd, hashes, answers);
        let hgs = hash_groups(sgs.last(), hashes[n]);
        let stage = hash_stage_content(hgs, answers[n]);
        lemma_stage_compared(hgs, answers[n]);
        let all = search_content(sgs, hashes, answers);
        assert(all == prev + stage);
        assert forall|p: int, k: int| 0 <= p < all.len() && 0 < k < all[p].len() implies compared_equal(sgs, hashes, answers, #[trigger] all[p][k], all[p][0]) by {
            if p < prev.len() {
                assert(all[p] == prev[p]);
                assert(compared_equal(sd, hashes, answers, prev[p][k], prev[p][0]));
                let s2 = choose|s2: int| 0 <= s2 < sd.len() && #[trigger] stage_compared(hash_groups(sd[s2], hashes[s2]), answers[s2], prev[p][k], prev[p][0]);
                assert(sd[s2] == sgs[s2]);
                assert(stage_compared(hash_groups(sgs[s2], hashes[s2]), answers[s2], all[p][k], all[p][0]));
            } else {
                let q = p - prev.len();
                assert(all[p] == stage[q]);
                assert(stage_compared(hgs, answers[n], stage[q][k], stage[q][0]));
                assert(sgs.last() == sgs[n]);
                assert(stage_compared(hash_groups(sgs[n], hashes[n]), answers[n], all[p][k], all[p][0]));
            }
        }
    }
}

/// What the caller of a search does next.
#[derive(Debug)]
pub enum SearchStep {
    /// Read the file and hand its content hash to `give_hash` (`None` where
    /// it cannot be read).
    Hash(CandidateFile),
    /// Compare the bytes of the two files and hand the answer to
    /// `give_answer`.
    Compare(CandidateFile, CandidateFile),
    /// The groups of identical content are complete.
    Finished,
}

/// The duplicate search from scanned files to groups of identical content:
/// the files are grouped by size, the files of each size group by the
/// hashes the caller reads, and the files of each hash group by the byte
/// comparisons the caller makes.
pub struct DuplicateSearch {
    sizes: Vec<Vec<CandidateFile>>,
    s: usize,
    hashes: Vec<Option<u64>>,
    hashed: bool,
    hgroups: Vec<Vec<CandidateFile>>,
    h: usize,
    grouping: ContentGrouping,
    content: Vec<Vec<CandidateFile>>,
    files: Ghost<Seq<CandidateView>>,
    all_hashes: Ghost<Seq<Seq<Option<u64>>>>,
    all_answers: Ghost<Seq<Seq<spec_fn(int, int) -> bool>>>,
    cur_answers: Ghost<Seq<spec_fn(int, int) -> bool>>,
}

impl DuplicateSearch {
    /// The scanned files.
    pub closed spec fn files(&self) -> Seq<CandidateView> {
        self.files@
    }

    /// The size groups of the scanned files.
    pub closed spec fn size_groups(&self) -> Seq<Seq<CandidateView>> {
        file_groups_view(self.sizes@)
    }

    /// The hashes handed in so far: `hashes_now()[s][k]` is the hash of the
    /// `k`-th file of size group `s`.
    pub closed spec fn hashes_now(&self) -> Seq<Seq<Option<u64>>> {
        if self.s < self.sizes@.len() {
            self.all_hashes@.push(self.hashes@)
        } else {
            self.all_hashes@
        }
    }

    /// The comparison answers handed in so far: `answers_now()[s][h]`
    /// answers, for the `h`-th hash group of size group `s`, whether its
    /// candidate `c` has the bytes of its candidate `f`.
    pub closed spec fn answers_now(&self) -> Seq<Seq<spec_fn(int, int) -> bool>> {
        if self.s < self.sizes@.len() {
            self.all_answers@.push(
                if self.hashed {
                    self.cur_answers@ + if self.h < self.hgroups@.len() {
                        seq![self.grouping.answers()]
                    } else {
                        Seq::<spec_fn(int, int) -> bool>::empty()
                    }
                } else {
                    Seq::<spec_fn(int, int) -> bool>::empty()
                },
            )
        } else {
            self.all_answers@
        }
    }

    /// The file whose hash the search waits for, as the size group and the
    /// file's place in it.
    pub closed spec fn hash_target(&self) -> Option<(int, int)> {
        if self.s < self.sizes@.len() && !self.hashed {
            Some((self.s as int, self.hashes@.len() as int))
        } else {
            None
        }
    }

    /// The comparison the search waits for: size group, hash group, and the
    /// places in the hash group of the candidate and of the file it is
    /// compared with.
    pub closed spec fn pending_comparison(&self) -> Option<(int, int, int, int)> {
        if self.s < self.sizes@.len() && self.hashed && self.h < self.hgroups@.len() {
            match self.grouping.pending() {
                Some((c, f)) => Some((self.s as int, self.h as int, c, f)),
                None => None,
            }
        } else {
            None
        }
    }

    /// The `k`-th file of the `h`-th hash group of size group `s`.
    pub open spec fn member(&self, s: int, h: int, k: int) -> CandidateView {
        hash_groups(self.size_groups()[s], self.hashes_now()[s])[h][k]
    }

    /// How far the search is from done: size groups left, whether the
    /// current one still waits for hashes, hashes left in it, hash groups
    /// left in it, and how far the current comparison is from done.
    pub closed spec fn progress(&self) -> (nat, nat, nat, nat, nat) {
        let n = self.sizes@.len();
        (
            (if self.s <= n { n - self.s } else { 0 }) as nat,
            if self.hashed { 0 } else { 1 },
            (if self.s < n && self.hashes@.len() <= self.sizes@[self.s as int]@.len() {
                self.sizes@[self.s as int]@.len() - self.hashes@.len()
            } else {
                0
            }) as nat,
            (if self.hashed && self.h <= self.hgroups@.len() { self.hgroups@.len() - self.h } else { 0 }) as nat,
            if self.hashed && self.h < self.hgroups@.len() { self.grouping.left() } else { 0 },
        )
    }

    /// Whether every size group is done.
    pub closed spec fn finished(&self) -> bool {
        self.s >= self.sizes@.len()
    }

    /// The groups of identical content found so far.
    pub closed spec fn content(&self) -> Seq<Seq<CandidateView>> {
        file_groups_view(self.content@)
    }

    /// The state's invariant, before the search is moved on to the next
    /// question.
    pub closed spec fn inv(&self) -> bool {
        let sgv = file_groups_view(self.sizes@);
        let hgv = file_groups_view(self.hgroups@);
        &&& is_size_grouping(self.files@, sgv)
        &&& self.s <= sgv.len()
        &&& self.all_hashes@.len() == self.s
        &&& self.all_answers@.len() == self.s
        &&& forall|i: int| 0 <= i < self.s ==> (#[trigger] self.all_hashes@[i]).len() == sgv[i].len()
        &&& self.s < sgv.len() ==> self.hashes@.len() <= sgv[self.s as int].len()
        &&& self.hashed ==> {
            &&& self.s < sgv.len()
            &&& self.hashes@.len() == sgv[self.s as int].len()
            &&& hgv == hash_groups(sgv[self.s as int], self.hashes@)
            &&& self.h <= hgv.len()
            &&& self.cur_answers@.len() == self.h
            &&& self.h < hgv.len() ==> self.grouping.wf() && self.grouping.candidates() == hgv[self.h as int]
        }
        &&& file_groups_view(self.content@) == search_content(
            sgv.subrange(0, self.s as int),
            self.all_hashes@,
            self.all_answers@,
        ) + if self.hashed {
            hash_stage_content(hgv.subrange(0, self.h as int), self.cur_answers@)
        } else {
            Seq::<Seq<CandidateView>>::empty()
        }
    }

    /// The invariant, with the search waiting for an answer or finished.
    pub closed spec fn wf(&self) -> bool {
        &&& self.inv()
        &&& self.s < self.sizes@.len() ==> {
            &&& !self.hashed ==> self.hashes@.len() < self.sizes@[self.s as int]@.len()
            &&& self.hashed ==> self.h < self.hgroups@.len() && self.grouping.pending() is Some
        }
    }

    /// Starts the search over the scanned `files`.
    pub fn new(files: &Vec<CandidateFile>) -> (r: DuplicateSearch)
        ensures
            r.wf(),
            r.files() == files_view(files@),
    {
        let sizes = group_by_size(files);
        let mut r = DuplicateSearch {
            sizes,
            s: 0,
            hashes: Vec::new(),
            hashed: false,
            hgroups: Vec::new(),
            h: 0,
            grouping: ContentGrouping::new(Vec::new()),
            content: Vec::new(),
            files: Ghost(files_view(files@)),
            all_hashes: Ghost(Seq::empty()),
            all_answers: Ghost(Seq::empty()),
            cur_answers: Ghost(Seq::empty()),
        };
        proof {
            let sgv = file_groups_view(r.sizes@);
            assert(sgv.subrange(0, 0) =~= Seq::<Seq<CandidateView>>::empty());
            assert(file_groups_view(r.content@) =~= Seq::<Seq<CandidateView>>::empty());
            assert(Seq::<Seq<CandidateView>>::empty() + Seq::<Seq<CandidateView>>::empty() =~= Seq::<Seq<CandidateView>>::empty());
        }
        r.settle();
        r
    }

    fn settle(&mut self)
        requires
            old(self).inv(),
        ensures
            final(self).wf(),
            final(self).files() == old(self).files(),
            final(self).size_groups() == old(self).size_groups(),
            hashes_extended(old(self).hashes_now(), final(self).hashes_now()),
            answers_extended(old(self).answers_now(), final(self).answers_now()),
            final(self).progress() == old(self).progress() || earlier(final(self).progress(), old(self).progress()),
    {
        loop
            invariant
                self.inv(),
                self.files@ == old(self).files@,
                self.sizes@ == old(self).sizes@,
                hashes_extended(old(self).hashes_now(), self.hashes_now()),
                answers_extended(old(self).answers_now(), self.answers_now()),
                self.progress() == old(self).progress() || earlier(self.progress(), old(self).progress()),
            decreases self.sizes@.len() - self.s, if self.hashed { 0int } else { 1int }, self.hgroups@.len() - self.h,
        {
            let ghost sgv = file_groups_view(self.sizes@);
            let ghost ph = self.hashes_now();
            let ghost pa = self.answers_now();
            let ghost pp = self.progress();
            if self.s >= self.sizes.len() {
                return;
            }
            if !self.hashed {
                if self.hashes.len() < self.sizes[self.s].len() {
                    return;
                }
                let hg = group_by_hash(&self.sizes[self.s], &self.hashes);
                self.hgroups = hg;
                self.hashed = true;
                self.h = 0;
                self.cur_answers = Ghost(Seq::empty());
                proof {
                    let hgv = file_groups_view(self.hgroups@);
                    assert(hgv.subrange(0, 0) =~= Seq::<Seq<CandidateView>>::empty());
                    assert(search_content(sgv.subrange(0, self.s as int), self.all_hashes@, self.all_answers@)
                        + Seq::<Seq<CandidateView>>::empty() =~= search_content(
                        sgv.subrange(0, self.s as int),
                        self.all_hashes@,
                        self.all_answers@,
                    ));
                }
                if self.hgroups.len() > 0 {
                    let first = duplicate_files(&self.hgroups[0]);
                    self.grouping = ContentGrouping::new(first);
                }
                proof {
                    assert(self.hashes_now() == ph);
                    let na = self.answers_now();
                    assert(pa.len() == na.len());
                    assert forall|s2: int, h2: int|
                        0 <= s2 < na.len() && 0 <= h2 < na[s2].len() && (s2 >= pa.len() || h2 >= pa[s2].len()) implies unanswered(
                            #[trigger] na[s2][h2],
                        ) by {
                        assert(s2 == self.s);
                        assert(h2 == 0);
                        assert(na[s2][h2] == self.grouping.answers());
                    }
                    assert forall|s2: int, h2: int| 0 <= s2 < pa.len() && 0 <= h2 < pa[s2].len() implies #[trigger] na[s2][h2] == pa[s2][h2] by {
                        assert(s2 < self.s);
                    }
                    assert(answers_extended(pa, na));
                    assert(earlier(self.progress(), pp));
                    lemma_answers_extended_trans(old(self).answers_now(), pa, na);
                }
            } else if self.h < self.hgroups.len() {
                let pending = self.grouping.next_comparison();
                if pending.is_some() {
                    return;
                }
                let mut made = self.grouping.into_groups();
                let ghost hgv = file_groups_view(self.hgroups@);
                let ghost before = file_groups_view(self.content@);
                let ghost made_view = file_groups_view(made@);
                let ghost ans = self.grouping.answers();
                self.content.append(&mut made);
                assert(file_groups_view(self.content@) =~= before + made_view);
                let ghost old_answers = self.cur_answers@;
                self.cur_answers = Ghost(old_answers.push(ans));
                proof {
                    let h = self.h as int;
                    let sub1 = hgv.subrange(0, h + 1);
                    assert(sub1.drop_last() =~= hgv.subrange(0, h));
                    assert(sub1.last() == hgv[h]);
                    lemma_hash_stage_frame(hgv.subrange(0, h), old_answers, self.cur_answers@);
                    assert(hash_stage_content(sub1, self.cur_answers@) == hash_stage_content(hgv.subrange(0, h), old_answers)
                        + named_groups(content_groups(hgv[h].len(), ans), hgv[h]));
                    let pre = search_content(sgv.subrange(0, self.s as int), self.all_hashes@, self.all_answers@);
                    assert(pre + hash_stage_content(sub1, self.cur_answers@) =~= (pre + hash_stage_content(hgv.subrange(0, h), old_answers)) + named_groups(content_groups(hgv[h].len(), ans), hgv[h]));
                }
                self.h = self.h + 1;
                if self.h < self.hgroups.len() {
                    let next = duplicate_files(&self.hgroups[self.h]);
                    self.grouping = ContentGrouping::new(next);
                }
                proof {
                    assert(self.hashes_now() == ph);
                    let na = self.answers_now();
                    let s0 = self.s as int;
                    assert(pa[s0] == old_answers.push(ans));
                    assert(na[s0] =~= self.cur_answers@ + if self.h < self.hgroups@.len() {
                        seq![self.grouping.answers()]
                    } else {
                        Seq::<spec_fn(int, int) -> bool>::empty()
                    });
                    assert forall|s2: int| 0 <= s2 < pa.len() implies (#[trigger] pa[s2]).len() <= na[s2].len() by {}
                    assert forall|s2: int, h2: int| 0 <= s2 < pa.len() && 0 <= h2 < pa[s2].len() implies #[trigger] na[s2][h2] == pa[s2][h2] by {
                        if s2 == s0 {
                            assert(na[s2][h2] == self.cur_answers@[h2]);
                        }
                    }
                    assert forall|s2: int, h2: int|
                        0 <= s2 < na.len() && 0 <= h2 < na[s2].len() && (s2 >= pa.len() || h2 >= pa[s2].len()) implies unanswered(
                            #[trigger] na[s2][h2],
                        ) by {
                        assert(s2 == s0);
                        assert(na[s2][h2] == self.grouping.answers());
                    }
                    assert(answers_extended(pa, na));
                    assert(earlier(self.progress(), pp));
                    lemma_answers_extended_trans(old(self).answers_now(), pa, na);
                }
            } else {
                let ghost hgv = file_groups_view(self.hgroups@);
                let ghost old_h = self.all_hashes@;
                let ghost old_a = self.all_answers@;
                let ghost s0 = self.s as int;
                self.all_hashes = Ghost(old_h.push(self.hashes@));
                self.all_answers = Ghost(old_a.push(self.cur_answers@));
                proof {
                    assert(hgv.subrange(0, hgv.len() as int) =~= hgv);
                    let sub1 = sgv.subrange(0, s0 + 1);
                    assert(sub1.drop_last() =~= sgv.subrange(0, s0));
                    assert(sub1.last() == sgv[s0]);
                    lemma_search_frame(sgv.subrange(0, s0), old_h, self.all_hashes@, old_a, self.all_answers@);
                    assert(search_content(sub1, self.all_hashes@, self.all_answers@) == search_content(
                        sgv.subrange(0, s0),
                        old_h,
                        old_a,
                    ) + hash_stage_content(hash_groups(sgv[s0], self.hashes@), self.cur_answers@));
                    assert(search_content(sub1, self.all_hashes@, self.all_answers@) + Seq::<Seq<CandidateView>>::empty()
                        =~= search_content(sub1, self.all_hashes@, self.all_answers@));
                }
                self.s = self.s + 1;
                self.hashed = false;
                self.hashes = Vec::new();
                proof {
                    let nh = self.hashes_now();
                    let na = self.answers_now();
                    assert(ph =~= old_h.push(nh[s0]));
                    assert forall|s2: int| 0 <= s2 < ph.len() implies #[trigger] nh[s2] == ph[s2] by {}
                    assert(hashes_extended(ph, nh));
                    assert(self.cur_answers@ + Seq::<spec_fn(int, int) -> bool>::empty() =~= self.cur_answers@);
                    assert forall|s2: int, h2: int| 0 <= s2 < pa.len() && 0 <= h2 < pa[s2].len() implies #[trigger] na[s2][h2] == pa[s2][h2] by {}
                    assert forall|s2: int| 0 <= s2 < pa.len() implies (#[trigger] pa[s2]).len() <= na[s2].len() by {}
                    assert(answers_extended(pa, na));
                    assert(earlier(self.progress(), pp));
                    lemma_hashes_extended_trans(old(self).hashes_now(), ph, nh);
                    lemma_answers_extended_trans(old(self).answers_now(), pa, na);
                }
            }
        }
    }

    /// What the search waits for next: the hash of the file it names, the
    /// comparison of the two files it names, or nothing more.
    pub fn next_step(&self) -> (r: SearchStep)
        requires
            self.wf(),
        ensures
            r is Finished <==> self.finished(),
            r is Hash <==> self.hash_target() is Some,
            r is Compare <==> self.pending_comparison() is Some,
            match r {
                SearchStep::Hash(f) => {
                    let (s, k) = self.hash_target()->0;
                    &&& f@ == self.size_groups()[s][k]
                    &&& k == self.hashes_now()[s].len()
                },
                SearchStep::Compare(a, b) => {
                    let (s, h, c, f) = self.pending_comparison()->0;
                    &&& a@ == self.member(s, h, c)
                    &&& b@ == self.member(s, h, f)
                },
                SearchStep::Finished => true,
            },
    {
        if self.s >= self.sizes.len() {
            return SearchStep::Finished;
        }
        if !self.hashed {
            let f = self.sizes[self.s][self.hashes.len()].duplicate();
            proof {
                assert(file_groups_view(self.sizes@)[self.s as int] == files_view(self.sizes@[self.s as int]@));
            }
            return SearchStep::Hash(f);
        }
        match self.grouping.next_comparison() {
            Some((c, f)) => {
                let cands = &self.hgroups[self.h];
                proof {
                    assert(file_groups_view(self.hgroups@)[self.h as int] == files_view(cands@));
                    assert(self.hashes_now()[self.s as int] == self.hashes@);
                }
                SearchStep::Compare(cands[c].duplicate(), cands[f].duplicate())
            },
            None => SearchStep::Finished,
        }
    }

    /// Hands in the hash of the file that `next_step` named: it is recorded
    /// as that file's hash, and the search moves on.
    pub fn give_hash(&mut self, hash: Option<u64>)
        requires
            old(self).wf(),
            old(self).hash_target() is Some,
        ensures
            final(self).wf(),
            final(self).files() == old(self).files(),
            final(self).size_groups() == old(self).size_groups(),
            ({
                let (s, k) = old(self).hash_target()->0;
                hashes_extended(
                    old(self).hashes_now().update(s, old(self).hashes_now()[s].push(hash)),
                    final(self).hashes_now(),
                )
            }),
            answers_extended(old(self).answers_now(), final(self).answers_now()),
            earlier(final(self).progress(), old(self).progress()),
    {
        let ghost oh = self.hashes_now();
        let ghost s0 = self.s as int;
        self.hashes.push(hash);
        proof {
            assert(self.hashes_now() =~= oh.update(s0, oh[s0].push(hash)));
        }
        self.settle();
    }

    /// Hands in whether the two files that `next_step` named have the same
    /// bytes: the answer is recorded for exactly that comparison, and the
    /// search moves on.
    pub fn give_answer(&mut self, equal: bool)
        requires
            old(self).wf(),
            old(self).pending_comparison() is Some,
        ensures
            final(self).wf(),
            final(self).files() == old(self).files(),
            final(self).size_groups() == old(self).size_groups(),
            hashes_extended(old(self).hashes_now(), final(self).hashes_now()),
            ({
                let (s, h, c, f) = old(self).pending_comparison()->0;
                let answers = old(self).answers_now();
                answers_extended(
                    answers.update(s, answers[s].update(h, with_answer(answers[s][h], c, f, equal))),
                    final(self).answers_now(),
                )
            }),
            earlier(final(self).progress(), old(self).progress()),
    {
        let ghost oa = self.answers_now();
        let ghost s0 = self.s as int;
        let ghost h0 = self.h as int;
        let ghost g0 = self.grouping.answers();
        let ghost pend = self.grouping.pending()->0;
        self.grouping.answer(equal);
        proof {
            let sgv = file_groups_view(self.sizes@);
            let hgv = file_groups_view(self.hgroups@);
            assert(self.grouping.candidates() == hgv[self.h as int]);
            assert(oa[s0][h0] == g0);
            let upd = oa.update(s0, oa[s0].update(h0, with_answer(g0, pend.0, pend.1, equal)));
            assert(self.answers_now() =~= upd) by {
                assert(self.answers_now()[s0] =~= upd[s0]);
            }
        }
        self.settle();
    }

    /// The groups of identical content, once the search is finished.
    pub fn groups(&self) -> (r: &Vec<Vec<CandidateFile>>)
        requires
            self.wf(),
        ensures
            file_groups_view(r@) == self.content(),
    {
        &self.content
    }

    /// Turns the groups of identical content into duplicate groups (see
    /// `find_duplicate_groups`): every group has a file to remove, all its
    /// files have the keeper's size, one of its files was compared byte for
    /// byte with every other and each comparison was answered equal, and no
    /// scanned file occurs in the groups more often than it was scanned.
    pub fn finish(
        &self,
        canonical_paths: &Vec<Vec<Vec<u8>>>,
        keep_policy: KeepPolicy,
        canonical_prefer_paths: &Vec<Vec<u8>>,
    ) -> (r: Vec<DuplicateGroup>)
        requires
            self.wf(),
            self.finished(),
            canonical_paths@.len() == self.content().len(),
            forall|i: int| 0 <= i < self.content().len() ==> (#[trigger] canonical_paths@[i])@.len() == self.content()[i].len(),
        ensures
            self.content() == search_content(self.size_groups(), self.hashes_now(), self.answers_now()),
            is_size_grouping(self.files(), self.size_groups()),
            r@.len() == shared_positions(self.content()).len(),
            forall|j: int|
                0 <= j < r@.len() ==> {
                    let i = shared_positions(self.content())[j];
                    is_kept_group(
                        keep_policy,
                        self.content()[i],
                        canonical_paths@[i]@,
                        canonical_prefer_paths@,
                        (#[trigger] r@[j])@,
                    )
                },
            forall|j: int| 0 <= j < r@.len() ==> (#[trigger] r@[j]).remove@.len() >= 1,
            forall|j: int, k: int|
                0 <= j < r@.len() && 0 <= k < r@[j].remove@.len() ==> (#[trigger] r@[j].remove@[k]).size == r@[j].keep.size,
            members_of(groups_view(r@).map_values(|g: GroupView| group_members(g))).subset_of(self.files().to_multiset()),
            forall|j: int|
                0 <= j < r@.len() ==> confirmed_group(
                    self.size_groups(),
                    self.hashes_now(),
                    self.answers_now(),
                    group_members((#[trigger] r@[j])@),
                ),
    {
        let ghost sgv = file_groups_view(self.sizes@);
        proof {
            assert(sgv.subrange(0, sgv.len() as int) =~= sgv);
            assert(self.content() =~= search_content(sgv, self.all_hashes@, self.all_answers@));
            assert forall|i: int| 0 <= i < sgv.len() implies (#[trigger] self.all_hashes@[i]).len() == sgv[i].len() by {}
        }
        assert(file_groups_view(self.content@) == self.content());
        let r = find_duplicate_groups(&self.content, canonical_paths, keep_policy, canonical_prefer_paths);
        proof {
            crate::duplicates::lemma_shared_positions_bounds(self.content());
            assert forall|j: int|
                0 <= j < r@.len() implies {
                    let i = shared_positions(self.content())[j];
                    is_kept_group(
                        keep_policy,
                        self.content()[i],
                        canonical_paths@[i]@,
                        canonical_prefer_paths@,
                        (#[trigger] r@[j])@,
                    )
                } by {
                let i = shared_positions(self.content())[j];
                assert(self.content()[i] == files_view(self.content@[i]@));
            }
        }
        proof {
            let gv = groups_view(r@);
            let content = self.content();
            let canon = Seq::new(content.len(), |i: int| canonical_paths@[i]@);
            assert forall|j: int| 0 <= j < gv.len() implies {
                let p = shared_positions(content)[j];
                is_kept_group(keep_policy, content[p], canon[p], canonical_prefer_paths@, #[trigger] gv[j])
            } by {
                crate::duplicates::lemma_shared_positions_bounds(content);
                assert(gv[j] == r@[j]@);
            }
            crate::laws::duplicate_search_groups_are_sound(
                self.files@,
                sgv,
                self.all_hashes@,
                self.all_answers@,
                keep_policy,
                canon,
                canonical_prefer_paths@,
                gv,
            );
            assert forall|j: int| 0 <= j < r@.len() implies (#[trigger] r@[j]).remove@.len() >= 1 by {
                assert(gv[j] == r@[j]@);
            }
            assert forall|j: int|
                0 <= j < r@.len() implies confirmed_group(
                    self.size_groups(),
                    self.hashes_now(),
                    self.answers_now(),
                    group_members((#[trigger] r@[j])@),
                ) by {
                assert(gv[j] == r@[j]@);
            }
            assert forall|j: int, k: int| 0 <= j < r@.len() && 0 <= k < r@[j].remove@.len() implies (#[trigger] r@[j].remove@[k]).size == r@[j].keep.size by {
                assert(gv[j] == r@[j]@);
                assert(gv[j].remove[k] == r@[j].remove@[k]@);
            }
        }
        r
    }
}

} // verus!
