//! Path classification: Ordinary, Generated (under a rebuildable tree such
//! as `target` or `node_modules`) or Protected (under a sensitive tree).
//!
//! Protected roots and files are compared in canonical form. Resolving a
//! path on disk is the caller's part: the functions here take the canonical
//! forms (each the path itself where it cannot be resolved).
use vstd::prelude::*;
use vstd::utf8::encode_utf8;
use crate::model::{DuplicateGroup, GroupView, PathClass, class_rank, group_members};
use crate::pathname::{
    ComponentView, PathComponent, component_count, components, components_view, join,
    join_path, path_components, path_starts_with, starts_with,
};

verus! {

/// The directory names that mark generated, cached or rebuildable content.
pub open spec fn generated_names() -> Seq<Seq<char>> {
    seq![
        "target"@,
        "build"@,
        "dist"@,
        ".cache"@,
        "__pycache__"@,
        "node_modules"@,
        ".gradle"@,
    ]
}

/// Whether a component is one of the generated directory names.
pub open spec fn is_generated_component(c: ComponentView) -> bool {
    c is Normal && exists|k: int|
        0 <= k < generated_names().len() && c->Normal_0 == encode_utf8(#[trigger] generated_names()[k])
}

/// Whether some component of `path` is a generated directory name.
pub open spec fn is_generated(path: Seq<u8>) -> bool {
    exists|i: int| 0 <= i < components(path).len() && is_generated_component(#[trigger] components(path)[i])
}

/// The operating systems whose protected roots differ.
#[derive(Debug, Clone, Copy, PartialEq, Eq, Structural)]
pub enum TargetOs {
    FreeBsd,
    NetBsd,
    Other,
}

/// The protected roots before they are resolved: `/boot`, `/etc`, `/root`,
/// `/usr/local/etc` on FreeBSD, `/usr/pkg/etc` on NetBSD, `.ssh`, `.gnupg`
/// and `.config` under the home directory when it is known, then the paths
/// the user asked to protect.
pub open spec fn protected_root_list(
    protected_paths: Seq<Seq<u8>>,
    home: Option<Seq<u8>>,
    os: TargetOs,
) -> Seq<Seq<u8>> {
    let fixed = seq![encode_utf8("/boot"@), encode_utf8("/etc"@), encode_utf8("/root"@)];
    let by_os = match os {
        TargetOs::FreeBsd => seq![encode_utf8("/usr/local/etc"@)],
        TargetOs::NetBsd => seq![encode_utf8("/usr/pkg/etc"@)],
        TargetOs::Other => seq![],
    };
    let in_home = match home {
        Some(h) => seq![
            join(h, encode_utf8(".ssh"@)),
            join(h, encode_utf8(".gnupg"@)),
            join(h, encode_utf8(".config"@)),
        ],
        None => seq![],
    };
    fixed + by_os + in_home + protected_paths
}

/// Among the roots that hold `p`, the one with the most components; of
/// equally deep ones the last (`max_by_key`).
pub open spec fn deepest_root(p: Seq<u8>, roots: Seq<Seq<u8>>) -> Option<Seq<u8>>
    decreases roots.len(),
{
    if roots.len() == 0 {
        None
    } else {
        let rest = deepest_root(p, roots.drop_last());
        let r = roots.last();
        if path_starts_with(p, r) {
            match rest {
                None => Some(r),
                Some(b) => if components(r).len() >= components(b).len() {
                    Some(r)
                } else {
                    Some(b)
                },
            }
        } else {
            rest
        }
    }
}

/// The class of a path: Protected when a protected root holds its canonical
/// form, else Generated when a component is a generated name, else Ordinary.
pub open spec fn class_of(path: Seq<u8>, canonical: Seq<u8>, roots: Seq<Seq<u8>>) -> PathClass {
    if deepest_root(canonical, roots) is Some {
        PathClass::Protected
    } else if is_generated(path) {
        PathClass::Generated
    } else {
        PathClass::Ordinary
    }
}

/// The most restrictive class among members given with their canonical forms.
pub open spec fn max_class_of(paths: Seq<Seq<u8>>, canonicals: Seq<Seq<u8>>, roots: Seq<Seq<u8>>) -> PathClass
    decreases paths.len(),
{
    if paths.len() == 0 {
        PathClass::Ordinary
    } else {
        let rest = max_class_of(paths.drop_last(), canonicals.drop_last(), roots);
        let cur = class_of(paths.last(), canonicals[paths.len() - 1], roots);
        if class_rank(cur) >= class_rank(rest) {
            cur
        } else {
            rest
        }
    }
}

/// The values of a list of pathnames.
pub open spec fn path_values(ps: Seq<Vec<u8>>) -> Seq<Seq<u8>> {
    ps.map_values(|p: Vec<u8>| p@)
}

/// The pathnames of a group's members, keeper first.
pub open spec fn member_paths(g: GroupView) -> Seq<Seq<u8>> {
    group_members(g).map_values(|f: crate::model::CandidateView| f.path)
}

fn ascii_path(s: &str) -> (r: Vec<u8>)
    ensures
        r@ == encode_utf8(s@),
{
    s.as_bytes_vec()
}

/// Whether some component of `path` is a generated directory name.
pub fn is_generated_path(path: &[u8]) -> (r: bool)
    ensures
        r == is_generated(path@),
{
    let cs = path_components(path);
    let names: [&str; 7] = ["target", "build", "dist", ".cache", "__pycache__", "node_modules", ".gradle"];
    let ghost gn = generated_names();
    assert(names@.map_values(|s: &str| s@) =~= gn);
    let mut i: usize = 0;
    while i < cs.len()
        invariant
            i <= cs@.len(),
            components_view(cs@) == components(path@),
            cs@.len() == components(path@).len(),
            names@.map_values(|s: &str| s@) == gn,
            gn == generated_names(),
            forall|k: int| 0 <= k < i ==> !is_generated_component(#[trigger] components(path@)[k]),
        decreases cs@.len() - i,
    {
        assert(components(path@)[i as int] == cs@[i as int]@);
        match &cs[i] {
            PathComponent::Normal(name) => {
                let mut k: usize = 0;
                while k < 7
                    invariant
                        i < cs@.len(),
                        components_view(cs@) == components(path@),
                        cs@.len() == components(path@).len(),
                        cs@[i as int]@ == ComponentView::Normal(name@),
                        k <= 7,
                        names@.len() == 7,
                        names@.map_values(|s: &str| s@) == gn,
                        gn == generated_names(),
                        forall|m: int| 0 <= m < k ==> name@ != encode_utf8(#[trigger] gn[m]),
                    decreases 7 - k,
                {
                    assert(gn[k as int] == names@[k as int]@);
                    let candidate = names[k].as_bytes();
                    if crate::pathname::bytes_equal(name.as_slice(), candidate) {
                        assert(is_generated_component(components(path@)[i as int]));
                        return true;
                    }
                    k = k + 1;
                }
            },
            _ => {},
        }
        i = i + 1;
    }
    false
}

/// The protected roots before resolution (see `protected_root_list`).
/// `home` is the home directory when it is known.
pub fn protected_roots(protected_paths: &Vec<Vec<u8>>, home: &Option<Vec<u8>>, os: TargetOs) -> (r: Vec<Vec<u8>>)
    ensures
        path_values(r@) == protected_root_list(
            path_values(protected_paths@),
            match home {
                Some(h) => Some(h@),
                None => None,
            },
            os,
        ),
{
    let mut roots: Vec<Vec<u8>> = Vec::new();
    roots.push(ascii_path("/boot"));
    roots.push(ascii_path("/etc"));
    roots.push(ascii_path("/root"));
    match os {
        TargetOs::FreeBsd => roots.push(ascii_path("/usr/local/etc")),
        TargetOs::NetBsd => roots.push(ascii_path("/usr/pkg/etc")),
        TargetOs::Other => {},
    }
    match home {
        Some(h) => {
            let ssh = ascii_path(".ssh");
            let gnupg = ascii_path(".gnupg");
            let config = ascii_path(".config");
            roots.push(join_path(h.as_slice(), ssh.as_slice()));
            roots.push(join_path(h.as_slice(), gnupg.as_slice()));
            roots.push(join_path(h.as_slice(), config.as_slice()));
        },
        None => {},
    }
    let ghost head = path_values(roots@);
    let mut i: usize = 0;
    while i < protected_paths.len()
        invariant
            i <= protected_paths@.len(),
            roots@.len() == head.len() + i,
            path_values(roots@) == head + path_values(protected_paths@).subrange(0, i as int),
        decreases protected_paths@.len() - i,
    {
        let ghost before = roots@;
        let c = protected_paths[i].clone();
        assert(c@ =~= protected_paths@[i as int]@);
        roots.push(c);
        proof {
            assert(roots@ == before.push(c));
            assert(path_values(roots@) =~= head + path_values(protected_paths@).subrange(0, i + 1)) by {
                assert forall|k: int| 0 <= k < roots@.len() implies path_values(roots@)[k]
                    == (head + path_values(protected_paths@).subrange(0, i + 1))[k] by {
                    if k < before.len() {
                        assert(roots@[k] == before[k]);
                        assert(path_values(before)[k] == before[k]@);
                    }
                }
            }
        }
        i = i + 1;
    }
    assert(path_values(protected_paths@).subrange(0, protected_paths@.len() as int) =~= path_values(protected_paths@));
    assert(path_values(roots@) =~= protected_root_list(
        path_values(protected_paths@),
        match home {
            Some(h) => Some(h@),
            None => None,
        },
        os,
    ));
    roots
}

/// The protected root that holds `canonical_path`: of those that do, the one
/// with the most components, the last of equally deep ones.
/// `canonical_roots` are the protected roots in canonical form.
pub fn matching_protected_root(canonical_path: &[u8], canonical_roots: &Vec<Vec<u8>>) -> (r: Option<Vec<u8>>)
    ensures
        match r {
            Some(root) => deepest_root(canonical_path@, path_values(canonical_roots@)) == Some(root@),
            None => deepest_root(canonical_path@, path_values(canonical_roots@)) is None,
        },
{
    let ghost rv = path_values(canonical_roots@);
    let mut best: Option<Vec<u8>> = None;
    let mut best_depth: usize = 0;
    let mut i: usize = 0;
    while i < canonical_roots.len()
        invariant
            i <= canonical_roots@.len(),
            rv == path_values(canonical_roots@),
            rv.len() == canonical_roots@.len(),
            match best {
                Some(b) => deepest_root(canonical_path@, rv.subrange(0, i as int)) == Some(b@)
                    && best_depth == components(b@).len(),
                None => deepest_root(canonical_path@, rv.subrange(0, i as int)) is None,
            },
        decreases canonical_roots@.len() - i,
    {
        assert(rv.subrange(0, i + 1).drop_last() =~= rv.subrange(0, i as int));
        assert(rv.subrange(0, i + 1).last() == canonical_roots@[i as int]@);
        let root = &canonical_roots[i];
        if starts_with(canonical_path, root.as_slice()) {
            let depth = component_count(root.as_slice());
            match &best {
                None => {
                    best = Some(root.clone());
                    best_depth = depth;
                },
                Some(_) => {
                    if depth >= best_depth {
                        best = Some(root.clone());
                        best_depth = depth;
                    }
                },
            }
        }
        i = i + 1;
    }
    assert(rv.subrange(0, canonical_roots@.len() as int) =~= rv);
    best
}

/// The class of a path (see `class_of`), given its canonical form and the
/// protected roots in canonical form.
pub fn classify_path(path: &[u8], canonical_path: &[u8], canonical_roots: &Vec<Vec<u8>>) -> (r: PathClass)
    ensures
        r == class_of(path@, canonical_path@, path_values(canonical_roots@)),
{
    if matching_protected_root(canonical_path, canonical_roots).is_some() {
        PathClass::Protected
    } else if is_generated_path(path) {
        PathClass::Generated
    } else {
        PathClass::Ordinary
    }
}

fn rank(c: PathClass) -> (r: u8)
    ensures
        r as int == class_rank(c),
{
    match c {
        PathClass::Ordinary => 0,
        PathClass::Generated => 1,
        PathClass::Protected => 2,
    }
}

/// The class of a whole group: the most restrictive class of its members
/// (Protected > Generated > Ordinary). `member_canonicals` are the canonical
/// forms of the members, keeper first.
pub fn classify_group(
    group: &DuplicateGroup,
    member_canonicals: &Vec<Vec<u8>>,
    canonical_roots: &Vec<Vec<u8>>,
) -> (r: PathClass)
    requires
        member_canonicals@.len() == group.remove@.len() + 1,
    ensures
        r == max_class_of(member_paths(group@), path_values(member_canonicals@), path_values(canonical_roots@)),
{
    let ghost ps = member_paths(group@);
    let ghost cs = path_values(member_canonicals@);
    let ghost rs = path_values(canonical_roots@);
    let n = member_canonicals.len();
    assert(ps.len() == n);
    assert(ps[0] == group.keep.path@);
    let mut best = PathClass::Ordinary;
    let mut i: usize = 0;
    while i < n
        invariant
            i <= n,
            n == group.remove@.len() + 1,
            ps == member_paths(group@),
            ps.len() == n,
            cs == path_values(member_canonicals@),
            cs.len() == n,
            rs == path_values(canonical_roots@),
            best == max_class_of(ps.subrange(0, i as int), cs.subrange(0, i as int), rs),
        decreases n - i,
    {
        let path = if i == 0 {
            &group.keep.path
        } else {
            &group.remove[i - 1].path
        };
        assert(path@ == ps[i as int]);
        assert(ps.subrange(0, i + 1).drop_last() =~= ps.subrange(0, i as int));
        assert(cs.subrange(0, i + 1).drop_last() =~= cs.subrange(0, i as int));
        assert(cs.subrange(0, i + 1)[i as int] == member_canonicals@[i as int]@);
        let cur = classify_path(path.as_slice(), member_canonicals[i].as_slice(), canonical_roots);
        if rank(cur) >= rank(best) {
            best = cur;
        }
        i = i + 1;
    }
    assert(ps.subrange(0, n as int) =~= ps);
    assert(cs.subrange(0, n as int) =~= cs);
    best
}

} // verus!
