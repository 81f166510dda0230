//! Keeper selection: the deterministic order in which the members of a
//! duplicate group are ranked, the first of which is kept.
use vstd::prelude::*;
use crate::model::{
    CandidateFile, CandidateView, DuplicateGroup, KeepPolicy, files_view, group_members, paths_view,
};
use crate::order::{
    Order, chars_as_ints, compare_chars, compare_u64, compare_u64s, flip, int_order,
    lemma_lex_equal, lemma_lex_flip, lemma_lex_trans, lex_order, then_order, u64s_as_ints,
};
use crate::pathname::{components, component_count, path_starts_with, starts_with};
use crate::text::{chars_of, lossy_text, utf8_lossy};
use crate::version::{best_version, best_version_in_path};

verus! {

/// Whether `p` occurs in `t` at position `i`.
pub open spec fn occurs_at(t: Seq<char>, p: Seq<char>, i: int) -> bool {
    0 <= i && i + p.len() <= t.len() && t.subrange(i, i + p.len()) == p
}

/// Whether `p` occurs in `t` (`str::contains`).
pub open spec fn text_contains(t: Seq<char>, p: Seq<char>) -> bool {
    exists|i: int| occurs_at(t, p, i)
}

/// Whether `t` ends with `p` (`str::ends_with`).
pub open spec fn text_ends_with(t: Seq<char>, p: Seq<char>) -> bool {
    p.len() <= t.len() && t.subrange(t.len() - p.len(), t.len() as int) == p
}

/// How replaceable a location looks (lower is kept first): 3 under a
/// `Downloads` directory, 2 under `.cache`, `.cargo`, `.gradle` or
/// `.local/share`, else 0.
pub open spec fn keep_score(t: Seq<char>) -> int {
    if text_contains(t, "/Downloads/"@) || text_ends_with(t, "/Downloads"@) {
        3
    } else if text_contains(t, "/.cache/"@) || text_contains(t, "/.cargo/"@) || text_contains(
        t,
        "/.gradle/"@,
    ) || text_contains(t, "/.local/share/"@) {
        2
    } else {
        0
    }
}

/// The index of the first preferred path at or after `k` that `p` lies under.
pub open spec fn first_prefix_from(p: Seq<u8>, prefers: Seq<Seq<u8>>, k: int) -> Option<int>
    decreases prefers.len() - k,
{
    if k < 0 || k >= prefers.len() {
        None
    } else if path_starts_with(p, prefers[k]) {
        Some(k)
    } else {
        first_prefix_from(p, prefers, k + 1)
    }
}

/// The rank of the first preferred tree that holds `canonical`, if any.
pub open spec fn preferred_rank(canonical: Seq<u8>, prefers: Seq<Seq<u8>>) -> Option<int> {
    first_prefix_from(canonical, prefers, 0)
}

/// Everything keeper selection reads of a file.
pub struct KeepKey {
    pub pref: Option<int>,
    pub version: Option<Seq<int>>,
    pub score: int,
    pub depth: int,
    pub text: Seq<int>,
}

/// The key of a file at `path`, whose canonical form is `canonical`, when
/// `prefers` are the canonical preferred trees in order.
pub open spec fn keep_key(path: Seq<u8>, canonical: Seq<u8>, prefers: Seq<Seq<u8>>) -> KeepKey {
    KeepKey {
        pref: preferred_rank(canonical, prefers),
        version: best_version(path),
        score: keep_score(utf8_lossy(path)),
        depth: components(path).len() as int,
        text: chars_as_ints(utf8_lossy(path)),
    }
}

/// The default order: keep score, then number of components, then the
/// pathname text.
pub open spec fn default_order(a: KeepKey, b: KeepKey) -> Order {
    then_order(
        int_order(a.score, b.score),
        then_order(int_order(a.depth, b.depth), lex_order(a.text, b.text)),
    )
}

/// The order of the keep policy: under `HighestVersion` a higher version
/// comes first and a path with a version before one without.
pub open spec fn policy_order(policy: KeepPolicy, a: KeepKey, b: KeepKey) -> Order {
    match policy {
        KeepPolicy::HighestVersion => match (a.version, b.version) {
            (Some(x), Some(y)) => then_order(lex_order(y, x), default_order(a, b)),
            (Some(_), None) => Order::Less,
            (None, Some(_)) => Order::Greater,
            (None, None) => default_order(a, b),
        },
        KeepPolicy::Default => default_order(a, b),
    }
}

/// The keeper order: a file under a preferred tree comes before one that is
/// not, a lower preference rank first; then the keep policy decides.
pub open spec fn keep_order(policy: KeepPolicy, a: KeepKey, b: KeepKey) -> Order {
    match (a.pref, b.pref) {
        (Some(x), Some(y)) => then_order(int_order(x, y), policy_order(policy, a, b)),
        (Some(_), None) => Order::Less,
        (None, Some(_)) => Order::Greater,
        (None, None) => policy_order(policy, a, b),
    }
}

proof fn lemma_default_flip(a: KeepKey, b: KeepKey)
    ensures
        default_order(b, a) == flip(default_order(a, b)),
{
    lemma_lex_flip(a.text, b.text);
}

proof fn lemma_policy_flip(policy: KeepPolicy, a: KeepKey, b: KeepKey)
    ensures
        policy_order(policy, b, a) == flip(policy_order(policy, a, b)),
{
    lemma_default_flip(a, b);
    if a.version is Some && b.version is Some {
        lemma_lex_flip(a.version->0, b.version->0);
    }
}

/// Swapping two keys flips their keeper order.
pub proof fn lemma_keep_flip(policy: KeepPolicy, a: KeepKey, b: KeepKey)
    ensures
        keep_order(policy, b, a) == flip(keep_order(policy, a, b)),
{
    lemma_policy_flip(policy, a, b);
}

proof fn lemma_default_trans(a: KeepKey, b: KeepKey, c: KeepKey)
    requires
        default_order(a, b) != Order::Greater,
        default_order(b, c) != Order::Greater,
    ensures
        default_order(a, c) != Order::Greater,
        (default_order(a, b) == Order::Less || default_order(b, c) == Order::Less)
            ==> default_order(a, c) == Order::Less,
{
    lemma_lex_equal(a.text, b.text);
    lemma_lex_equal(b.text, c.text);
    lemma_lex_equal(a.text, c.text);
    if a.score == b.score && b.score == c.score && a.depth == b.depth && b.depth == c.depth {
        lemma_lex_trans(a.text, b.text, c.text);
    }
}

proof fn lemma_policy_trans(policy: KeepPolicy, a: KeepKey, b: KeepKey, c: KeepKey)
    requires
        policy_order(policy, a, b) != Order::Greater,
        policy_order(policy, b, c) != Order::Greater,
    ensures
        policy_order(policy, a, c) != Order::Greater,
        (policy_order(policy, a, b) == Order::Less || policy_order(policy, b, c) == Order::Less)
            ==> policy_order(policy, a, c) == Order::Less,
{
    match policy {
        KeepPolicy::Default => {
            lemma_default_trans(a, b, c);
        },
        KeepPolicy::HighestVersion => {
            if a.version is Some && b.version is Some && c.version is Some {
                let (x, y, z) = (a.version->0, b.version->0, c.version->0);
                lemma_lex_equal(y, x);
                lemma_lex_equal(z, y);
                lemma_lex_equal(z, x);
                if lex_order(y, x) == Order::Equal && lex_order(z, y) == Order::Equal {
                    lemma_default_trans(a, b, c);
                } else if lex_order(y, x) != Order::Greater && lex_order(z, y) != Order::Greater {
                    lemma_lex_trans(z, y, x);
                }
            } else if a.version is None && b.version is None && c.version is None {
                lemma_default_trans(a, b, c);
            }
        },
    }
}

/// The keeper order is transitive, strictly when either step is.
pub proof fn lemma_keep_trans(policy: KeepPolicy, a: KeepKey, b: KeepKey, c: KeepKey)
    requires
        keep_order(policy, a, b) != Order::Greater,
        keep_order(policy, b, c) != Order::Greater,
    ensures
        keep_order(policy, a, c) != Order::Greater,
        (keep_order(policy, a, b) == Order::Less || keep_order(policy, b, c) == Order::Less)
            ==> keep_order(policy, a, c) == Order::Less,
{
    if a.pref is Some && b.pref is Some && c.pref is Some {
        if a.pref == b.pref && b.pref == c.pref {
            lemma_policy_trans(policy, a, b, c);
        }
    } else if a.pref is None && b.pref is None && c.pref is None {
        lemma_policy_trans(policy, a, b, c);
    }
}

/// Whether `order` lists every index of `keys` once, ranked by the keeper
/// order, with equally ranked files in their original order (a stable sort).
pub open spec fn is_keep_arrangement(policy: KeepPolicy, keys: Seq<KeepKey>, order: Seq<int>) -> bool {
    &&& order.len() == keys.len()
    &&& forall|i: int| 0 <= i < order.len() ==> 0 <= #[trigger] order[i] < keys.len()
    &&& forall|i: int, j: int| 0 <= i < j < order.len() ==> order[i] != order[j]
    &&& forall|i: int, j: int|
        0 <= i < j < order.len() ==> keep_order(policy, keys[order[i]], keys[order[j]])
            != Order::Greater
    &&& forall|i: int, j: int|
        0 <= i < j < order.len() && keep_order(policy, keys[order[i]], keys[order[j]])
            == Order::Equal ==> order[i] < order[j]
}

/// The keys of a list of files, given their canonical forms.
pub open spec fn keys_of(files: Seq<CandidateView>, canonical: Seq<Seq<u8>>, prefers: Seq<Seq<u8>>) -> Seq<KeepKey> {
    Seq::new(files.len(), |i: int| keep_key(files[i].path, canonical[i], prefers))
}

/// A key, as computed.
struct ExecKey {
    pref: Option<usize>,
    version: Option<Vec<u64>>,
    score: u64,
    depth: usize,
    text: Vec<char>,
}

impl ExecKey {
    spec fn key(&self) -> KeepKey {
        KeepKey {
            pref: match self.pref {
                Some(k) => Some(k as int),
                None => None,
            },
            version: match self.version {
                Some(v) => Some(u64s_as_ints(v@)),
                None => None,
            },
            score: self.score as int,
            depth: self.depth as int,
            text: chars_as_ints(self.text@),
        }
    }
}

/// Whether `p` occurs in `t` at position `i`, computed.
fn occurs_at_exec(t: &[char], p: &[char], i: usize) -> (r: bool)
    requires
        i + p@.len() <= t@.len(),
    ensures
        r == occurs_at(t@, p@, i as int),
{
    let tl = t.len();
    let mut j: usize = 0;
    while j < p.len()
        invariant
            tl == t@.len(),
            i + p@.len() <= t@.len(),
            j <= p@.len(),
            forall|k: int| 0 <= k < j ==> t@[i + k] == p@[k],
        decreases p@.len() - j,
    {
        if t[i + j] != p[j] {
            assert(t@.subrange(i as int, i + p@.len())[j as int] != p@[j as int]);
            return false;
        }
        j = j + 1;
    }
    assert(t@.subrange(i as int, i + p@.len()) =~= p@);
    true
}

/// Whether `p` occurs in `t`.
fn contains_chars(t: &[char], p: &[char]) -> (r: bool)
    ensures
        r == text_contains(t@, p@),
{
    if p.len() > t.len() {
        return false;
    }
    let last = t.len() - p.len();
    let mut i: usize = 0;
    while i < last
        invariant
            last == t@.len() - p@.len(),
            i <= last,
            forall|k: int| 0 <= k < i ==> !occurs_at(t@, p@, k),
        decreases last - i,
    {
        if occurs_at_exec(t, p, i) {
            return true;
        }
        i = i + 1;
    }
    if occurs_at_exec(t, p, last) {
        return true;
    }
    assert forall|k: int| !occurs_at(t@, p@, k) by {
        if 0 <= k && k + p@.len() <= t@.len() {
            assert(k <= last);
        }
    }
    false
}

/// Whether `t` ends with `p`.
fn ends_with_chars(t: &[char], p: &[char]) -> (r: bool)
    ensures
        r == text_ends_with(t@, p@),
{
    if p.len() > t.len() {
        return false;
    }
    let tl = t.len();
    let off = t.len() - p.len();
    let mut j: usize = 0;
    while j < p.len()
        invariant
            tl == t@.len(),
            p@.len() <= t@.len(),
            off == t@.len() - p@.len(),
            j <= p@.len(),
            forall|k: int| 0 <= k < j ==> t@[off + k] == p@[k],
        decreases p@.len() - j,
    {
        if t[off + j] != p[j] {
            assert(t@.subrange(off as int, t@.len() as int)[j as int] != p@[j as int]);
            return false;
        }
        j = j + 1;
    }
    assert(t@.subrange(off as int, t@.len() as int) =~= p@);
    true
}

/// The keep score of pathname text (see `keep_score`).
pub fn keep_score_of(t: &[char]) -> (r: u64)
    ensures
        r == keep_score(t@),
{
    let downloads_dir = chars_of("/Downloads/");
    let downloads = chars_of("/Downloads");
    if contains_chars(t, downloads_dir.as_slice()) || ends_with_chars(t, downloads.as_slice()) {
        return 3;
    }
    let cache = chars_of("/.cache/");
    let cargo = chars_of("/.cargo/");
    let gradle = chars_of("/.gradle/");
    let local_share = chars_of("/.local/share/");
    if contains_chars(t, cache.as_slice()) || contains_chars(t, cargo.as_slice()) || contains_chars(
        t,
        gradle.as_slice(),
    ) || contains_chars(t, local_share.as_slice()) {
        return 2;
    }
    0
}

/// The rank of the first preferred tree that holds `canonical`.
pub fn preferred_path_rank(canonical: &[u8], prefers: &Vec<Vec<u8>>) -> (r: Option<usize>)
    ensures
        match r {
            Some(k) => preferred_rank(canonical@, paths_view(prefers@)) == Some(k as int),
            None => preferred_rank(canonical@, paths_view(prefers@)) is None,
        },
{
    let ghost ps = paths_view(prefers@);
    let mut k: usize = 0;
    while k < prefers.len()
        invariant
            k <= prefers@.len(),
            ps == paths_view(prefers@),
            preferred_rank(canonical@, ps) == first_prefix_from(canonical@, ps, k as int),
        decreases prefers@.len() - k,
    {
        assert(ps[k as int] == prefers@[k as int]@);
        if starts_with(canonical, prefers[k].as_slice()) {
            return Some(k);
        }
        k = k + 1;
    }
    None
}

/// The key of one file.
fn key_of(file: &CandidateFile, canonical: &[u8], prefers: &Vec<Vec<u8>>) -> (r: ExecKey)
    ensures
        r.key() == keep_key(file.path@, canonical@, paths_view(prefers@)),
{
    let pref = preferred_path_rank(canonical, prefers);
    let version = best_version_in_path(file.path.as_slice());
    let lossy = lossy_text(file.path.as_slice());
    let text = chars_of(lossy.as_str());
    let score = keep_score_of(text.as_slice());
    let depth = component_count(file.path.as_slice());
    ExecKey { pref, version, score, depth, text }
}

fn compare_opt_rank(a: Option<usize>, b: Option<usize>) -> (r: Option<Order>)
    ensures
        match (a, b) {
            (Some(x), Some(y)) => r == Some(int_order(x as int, y as int)),
            (Some(_), None) => r == Some(Order::Less),
            (None, Some(_)) => r == Some(Order::Greater),
            (None, None) => r is None,
        },
{
    match (a, b) {
        (Some(x), Some(y)) => Some(compare_u64(x as u64, y as u64)),
        (Some(_), None) => Some(Order::Less),
        (None, Some(_)) => Some(Order::Greater),
        (None, None) => None,
    }
}

fn default_keep_order(a: &ExecKey, b: &ExecKey) -> (r: Order)
    ensures
        r == default_order(a.key(), b.key()),
{
    let s = compare_u64(a.score, b.score);
    if s != Order::Equal {
        return s;
    }
    let d = compare_u64(a.depth as u64, b.depth as u64);
    if d != Order::Equal {
        return d;
    }
    compare_chars(a.text.as_slice(), b.text.as_slice())
}

fn compare_keep_policy_candidates(policy: KeepPolicy, a: &ExecKey, b: &ExecKey) -> (r: Order)
    ensures
        r == policy_order(policy, a.key(), b.key()),
{
    match policy {
        KeepPolicy::HighestVersion => match (&a.version, &b.version) {
            (Some(x), Some(y)) => {
                let v = compare_u64s(y.as_slice(), x.as_slice());
                if v != Order::Equal {
                    v
                } else {
                    default_keep_order(a, b)
                }
            },
            (Some(_), None) => Order::Less,
            (None, Some(_)) => Order::Greater,
            (None, None) => default_keep_order(a, b),
        },
        KeepPolicy::Default => default_keep_order(a, b),
    }
}

/// The keeper order of two keys (see `keep_order`).
fn compare_keep_candidates(policy: KeepPolicy, a: &ExecKey, b: &ExecKey) -> (r: Order)
    ensures
        r == keep_order(policy, a.key(), b.key()),
{
    match compare_opt_rank(a.pref, b.pref) {
        Some(Order::Equal) => compare_keep_policy_candidates(policy, a, b),
        Some(o) => o,
        None => compare_keep_policy_candidates(policy, a, b),
    }
}

/// Views of computed keys.
spec fn exec_keys(ks: Seq<ExecKey>) -> Seq<KeepKey> {
    ks.map_values(|k: ExecKey| k.key())
}

/// A stable insertion sort of the indices of `keys` by the keeper order.
fn keep_arrangement(policy: KeepPolicy, keys: &Vec<ExecKey>) -> (order: Vec<usize>)
    ensures
        is_keep_arrangement(policy, exec_keys(keys@), order@.map_values(|k: usize| k as int)),
{
    let ghost ks = exec_keys(keys@);
    let n = keys.len();
    let mut order: Vec<usize> = Vec::new();
    let mut i: usize = 0;
    while i < n
        invariant
            n == keys@.len(),
            ks == exec_keys(keys@),
            ks.len() == n,
            i <= n,
            order@.len() == i,
            forall|p: int| 0 <= p < i ==> #[trigger] order@[p] < i,
            forall|p: int, q: int| 0 <= p < q < i ==> order@[p] != order@[q],
            forall|p: int, q: int|
                0 <= p < q < i ==> keep_order(policy, ks[order@[p] as int], ks[order@[q] as int])
                    != Order::Greater,
            forall|p: int, q: int|
                0 <= p < q < i && keep_order(policy, ks[order@[p] as int], ks[order@[q] as int])
                    == Order::Equal ==> order@[p] < order@[q],
        decreases n - i,
    {
        let mut pos = i;
        while pos > 0 && compare_keep_candidates(policy, &keys[order[pos - 1]], &keys[i]) == Order::Greater
            invariant
                n == keys@.len(),
                ks == exec_keys(keys@),
                ks.len() == n,
                i < n,
                pos <= i,
                order@.len() == i,
                forall|p: int| 0 <= p < i ==> #[trigger] order@[p] < i,
                forall|p: int| pos <= p < i ==> keep_order(policy, ks[order@[p] as int], ks[i as int])
                    == Order::Greater,
            decreases pos,
        {
            assert(ks[order@[pos - 1] as int] == keys@[order@[pos - 1] as int].key());
            assert(ks[i as int] == keys@[i as int].key());
            pos = pos - 1;
        }
        let ghost old_order = order@;
        proof {
            if pos > 0 {
                assert(ks[old_order[pos - 1] as int] == keys@[old_order[pos - 1] as int].key());
                assert(ks[i as int] == keys@[i as int].key());
                assert(keep_order(policy, ks[old_order[pos - 1] as int], ks[i as int]) != Order::Greater);
            }
        }
        order.insert(pos, i);
        proof {
            assert(order@ == old_order.insert(pos as int, i));
            assert forall|p: int| 0 <= p < i + 1 implies #[trigger] order@[p] < i + 1 by {
                if p < pos {
                    assert(order@[p] == old_order[p]);
                } else if p > pos {
                    assert(order@[p] == old_order[p - 1]);
                }
            }
            assert forall|p: int, q: int| 0 <= p < q < i + 1 implies order@[p] != order@[q] by {
                if p < pos {
                    assert(order@[p] == old_order[p]);
                } else if p > pos {
                    assert(order@[p] == old_order[p - 1]);
                }
                if q < pos {
                    assert(order@[q] == old_order[q]);
                } else if q > pos {
                    assert(order@[q] == old_order[q - 1]);
                }
            }
            assert forall|p: int, q: int|
                0 <= p < q < i + 1 implies keep_order(policy, ks[order@[p] as int], ks[order@[q] as int])
                    != Order::Greater && (keep_order(policy, ks[order@[p] as int], ks[order@[q] as int])
                    == Order::Equal ==> order@[p] < order@[q]) by {
                let xi = ks[i as int];
                if q < pos {
                    assert(order@[p] == old_order[p]);
                    assert(order@[q] == old_order[q]);
                } else if q == pos {
                    assert(order@[p] == old_order[p]);
                    assert(order@[q] == i);
                    let last = ks[old_order[pos - 1] as int];
                    let xp = ks[old_order[p] as int];
                    if p < pos - 1 {
                        lemma_keep_trans(policy, xp, last, xi);
                    }
                } else if p == pos {
                    assert(order@[p] == i);
                    assert(order@[q] == old_order[q - 1]);
                    lemma_keep_flip(policy, ks[old_order[q - 1] as int], xi);
                } else if p < pos {
                    assert(order@[p] == old_order[p]);
                    assert(order@[q] == old_order[q - 1]);
                } else {
                    assert(order@[p] == old_order[p - 1]);
                    assert(order@[q] == old_order[q - 1]);
                }
            }
        }
        i = i + 1;
    }
    proof {
        let om = order@.map_values(|k: usize| k as int);
        assert forall|p: int| 0 <= p < om.len() implies 0 <= #[trigger] om[p] < ks.len() by {
            assert(om[p] == order@[p] as int);
        }
        assert forall|p: int, q: int| 0 <= p < q < om.len() implies om[p] != om[q] by {
            assert(om[p] == order@[p] as int);
            assert(om[q] == order@[q] as int);
        }
        assert forall|p: int, q: int|
            0 <= p < q < om.len() implies keep_order(policy, ks[om[p]], ks[om[q]]) != Order::Greater
                && (keep_order(policy, ks[om[p]], ks[om[q]]) == Order::Equal ==> om[p] < om[q]) by {
            assert(om[p] == order@[p] as int);
            assert(om[q] == order@[q] as int);
        }
    }
    order
}

/// The members of a group arranged by `order`.
pub open spec fn arranged(files: Seq<CandidateView>, order: Seq<int>) -> Seq<CandidateView> {
    order.map_values(|k: int| files[k])
}

/// Selects the keeper of a group of files with identical content.
///
/// `canonical_paths[i]` is the canonical form of `files[i]` and
/// `canonical_prefer_paths` those of the preferred trees, in order of
/// preference (each the path itself where it cannot be resolved). The files
/// are ranked by the keeper order, equally ranked files staying in their
/// given order; the first is kept and the rest are removable, in rank order.
pub fn duplicate_group_from_files(
    files: Vec<CandidateFile>,
    canonical_paths: &Vec<Vec<u8>>,
    keep_policy: KeepPolicy,
    canonical_prefer_paths: &Vec<Vec<u8>>,
) -> (group: DuplicateGroup)
    requires
        files@.len() >= 1,
        canonical_paths@.len() == files@.len(),
    ensures
        exists|order: Seq<int>|
            {
                &&& is_keep_arrangement(
                    keep_policy,
                    keys_of(
                        files_view(files@),
                        paths_view(canonical_paths@),
                        paths_view(canonical_prefer_paths@),
                    ),
                    order,
                )
                &&& group_members(group@) == arranged(files_view(files@), order)
            },
{
    let ghost fv = files_view(files@);
    let ghost cv = paths_view(canonical_paths@);
    let ghost pv = paths_view(canonical_prefer_paths@);
    let mut keys: Vec<ExecKey> = Vec::new();
    let mut i: usize = 0;
    while i < files.len()
        invariant
            i <= files@.len(),
            canonical_paths@.len() == files@.len(),
            fv == files_view(files@),
            cv == paths_view(canonical_paths@),
            pv == paths_view(canonical_prefer_paths@),
            keys@.len() == i,
            forall|k: int| 0 <= k < i ==> (#[trigger] keys@[k]).key() == keys_of(fv, cv, pv)[k],
        decreases files@.len() - i,
    {
        let key = key_of(&files[i], canonical_paths[i].as_slice(), canonical_prefer_paths);
        keys.push(key);
        i = i + 1;
    }
    let ghost ks = keys_of(fv, cv, pv);
    assert(exec_keys(keys@) =~= ks);
    let order = keep_arrangement(keep_policy, &keys);
    let ghost om = order@.map_values(|k: usize| k as int);
    let n = files.len();
    assert(om[0] == order@[0] as int);
    let keep = files[order[0]].duplicate();
    let mut remove: Vec<CandidateFile> = Vec::new();
    let mut j: usize = 1;
    while j < n
        invariant
            1 <= j <= n,
            n == files@.len(),
            fv == files_view(files@),
            om == order@.map_values(|k: usize| k as int),
            is_keep_arrangement(keep_policy, ks, om),
            ks.len() == n,
            remove@.len() == j - 1,
            forall|k: int| 0 <= k < j - 1 ==> (#[trigger] remove@[k])@ == fv[om[k + 1]],
        decreases n - j,
    {
        assert(om[j as int] == order@[j as int] as int);
        remove.push(files[order[j]].duplicate());
        j = j + 1;
    }
    let group = DuplicateGroup { keep, remove };
    proof {
        assert(om[0] == order@[0] as int);
        assert(group_members(group@) =~= arranged(fv, om));
    }
    group
}

} // verus!
