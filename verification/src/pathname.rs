//! UNIX pathnames held as raw bytes, and the parts of their structure that
//! the duplicate finder reads: components, prefix tests and joining.
use vstd::prelude::*;
use vstd::slice::slice_subrange;
use vstd::slice::slice_to_vec;

verus! {

/// The byte of the path separator `/`.
pub open spec fn sep() -> u8 {
    47u8
}

/// The byte of `.`.
pub open spec fn dot() -> u8 {
    46u8
}

/// A pathname component, as a value.
pub enum ComponentView {
    RootDir,
    CurDir,
    ParentDir,
    Normal(Seq<u8>),
}

/// A pathname component.
#[derive(Debug)]
pub enum PathComponent {
    RootDir,
    CurDir,
    ParentDir,
    Normal(Vec<u8>),
}

impl View for PathComponent {
    type V = ComponentView;

    open spec fn view(&self) -> ComponentView {
        match self {
            PathComponent::RootDir => ComponentView::RootDir,
            PathComponent::CurDir => ComponentView::CurDir,
            PathComponent::ParentDir => ComponentView::ParentDir,
            PathComponent::Normal(name) => ComponentView::Normal(name@),
        }
    }
}

/// The views of a sequence of components.
pub open spec fn components_view(cs: Seq<PathComponent>) -> Seq<ComponentView> {
    cs.map_values(|c: PathComponent| c@)
}

/// The index of the first separator at or after `i`, or the length.
pub open spec fn segment_end(p: Seq<u8>, i: int) -> int
    decreases p.len() - i,
{
    if i >= p.len() {
        p.len() as int
    } else if p[i] == sep() {
        i
    } else {
        segment_end(p, i + 1)
    }
}

/// What one separator-delimited segment contributes to the components:
/// nothing for an empty segment or `.`, `ParentDir` for `..`, else the name.
pub open spec fn segment_components(seg: Seq<u8>) -> Seq<ComponentView> {
    if seg.len() == 0 || (seg.len() == 1 && seg[0] == dot()) {
        seq![]
    } else if seg.len() == 2 && seg[0] == dot() && seg[1] == dot() {
        seq![ComponentView::ParentDir]
    } else {
        seq![ComponentView::Normal(seg)]
    }
}

/// The components of the segments that start at or after `i`.
pub open spec fn body_components(p: Seq<u8>, i: int) -> Seq<ComponentView>
    decreases p.len() + 1 - i,
{
    if i < 0 || i >= p.len() {
        seq![]
    } else {
        proof {
            lemma_segment_end_bounds(p, i);
        }
        let e = segment_end(p, i);
        segment_components(p.subrange(i, e)) + body_components(p, e + 1)
    }
}

/// Whether a relative path begins with a `.` of its own (`.` or `./...`).
pub open spec fn starts_with_cur_dir(p: Seq<u8>) -> bool {
    p.len() >= 1 && p[0] == dot() && (p.len() == 1 || p[1] == sep())
}

/// The components of a UNIX path, as `std::path::Path::components` yields
/// them: a leading `/` gives `RootDir`, a leading `.` segment of a relative
/// path gives `CurDir`, then every other segment except empty ones and `.`.
pub open spec fn components(p: Seq<u8>) -> Seq<ComponentView> {
    if p.len() > 0 && p[0] == sep() {
        seq![ComponentView::RootDir] + body_components(p, 0)
    } else if starts_with_cur_dir(p) {
        seq![ComponentView::CurDir] + body_components(p, 0)
    } else {
        body_components(p, 0)
    }
}

/// Whether `base`'s components are a prefix of `p`'s (`Path::starts_with`).
pub open spec fn path_starts_with(p: Seq<u8>, base: Seq<u8>) -> bool {
    let a = components(p);
    let b = components(base);
    b.len() <= a.len() && a.subrange(0, b.len() as int) =~= b
}

/// `PathBuf::join` on UNIX: an absolute `rest` replaces `base`; otherwise a
/// separator is put between them unless `base` is empty or ends in one.
pub open spec fn join(base: Seq<u8>, rest: Seq<u8>) -> Seq<u8> {
    if rest.len() > 0 && rest[0] == sep() {
        rest
    } else if base.len() > 0 && base.last() != sep() {
        base + seq![sep()] + rest
    } else {
        base + rest
    }
}

/// The last component when it is a name (`Path::file_name`).
pub open spec fn file_name(p: Seq<u8>) -> Option<Seq<u8>> {
    let cs = components(p);
    if cs.len() > 0 && cs.last() is Normal {
        Some(cs.last()->Normal_0)
    } else {
        None
    }
}

pub proof fn lemma_segment_end_bounds(p: Seq<u8>, i: int)
    requires
        0 <= i,
    ensures
        i <= p.len() ==> i <= segment_end(p, i) <= p.len(),
        i > p.len() ==> segment_end(p, i) == p.len(),
        segment_end(p, i) < p.len() ==> p[segment_end(p, i)] == sep(),
        forall|k: int| i <= k < segment_end(p, i) ==> p[k] != sep(),
    decreases p.len() - i,
{
    if i < p.len() && p[i] != sep() {
        lemma_segment_end_bounds(p, i + 1);
    }
}

/// Copies `p[start..end]`.
pub fn copy_range(p: &[u8], start: usize, end: usize) -> (r: Vec<u8>)
    requires
        start <= end <= p@.len(),
    ensures
        r@ == p@.subrange(start as int, end as int),
{
    slice_to_vec(slice_subrange(p, start, end))
}

/// The components of one segment.
fn segment_to_components(seg: Vec<u8>, out: &mut Vec<PathComponent>)
    ensures
        components_view(final(out)@) == components_view(old(out)@) + segment_components(seg@),
{
    let ghost s = seg@;
    if seg.len() == 0 || (seg.len() == 1 && seg[0] == 46u8) {
        assert(components_view(out@) == components_view(old(out)@) + segment_components(s));
    } else if seg.len() == 2 && seg[0] == 46u8 && seg[1] == 46u8 {
        out.push(PathComponent::ParentDir);
        assert(components_view(out@) =~= components_view(old(out)@) + segment_components(s));
    } else {
        out.push(PathComponent::Normal(seg));
        assert(components_view(out@) =~= components_view(old(out)@) + segment_components(s));
    }
}

/// The components of `p` (see `components`).
pub fn path_components(p: &[u8]) -> (r: Vec<PathComponent>)
    ensures
        components_view(r@) == components(p@),
{
    let mut out: Vec<PathComponent> = Vec::new();
    let n = p.len();
    if n > 0 && p[0] == 47u8 {
        out.push(PathComponent::RootDir);
    } else if n >= 1 && p[0] == 46u8 && (n == 1 || p[1] == 47u8) {
        out.push(PathComponent::CurDir);
    }
    let ghost head = components_view(out@);
    assert(components(p@) == head + body_components(p@, 0)) by {
        assert(components_view(seq![PathComponent::RootDir]) =~= seq![ComponentView::RootDir]);
        assert(components_view(seq![PathComponent::CurDir]) =~= seq![ComponentView::CurDir]);
        assert(components_view(Seq::<PathComponent>::empty()) =~= Seq::<ComponentView>::empty());
    }
    let mut start: usize = 0;
    while start < n
        invariant
            n == p@.len(),
            start <= n,
            components_view(out@) + body_components(p@, start as int) == components(p@),
        decreases n - start,
    {
        let mut end = start;
        while end < n && p[end] != 47u8
            invariant
                start <= end <= n,
                n == p@.len(),
                segment_end(p@, start as int) == segment_end(p@, end as int),
            decreases n - end,
        {
            end = end + 1;
        }
        proof {
            lemma_segment_end_bounds(p@, start as int);
        }
        assert(end as int == segment_end(p@, start as int));
        let seg = copy_range(p, start, end);
        let ghost before = components_view(out@);
        segment_to_components(seg, &mut out);
        assert(body_components(p@, start as int) == segment_components(p@.subrange(start as int, end as int))
            + body_components(p@, end + 1));
        assert(components_view(out@) + body_components(p@, end + 1) == components(p@)) by {
            assert(before + (segment_components(p@.subrange(start as int, end as int)) + body_components(p@, end + 1))
                =~= (before + segment_components(p@.subrange(start as int, end as int))) + body_components(p@, end + 1));
        }
        if end == n {
            assert(body_components(p@, end + 1) == Seq::<ComponentView>::empty());
            assert(components_view(out@) =~= components(p@));
            return out;
        }
        start = end + 1;
    }
    assert(body_components(p@, start as int) == Seq::<ComponentView>::empty());
    assert(components_view(out@) =~= components(p@));
    out
}

/// Whether two byte strings are equal.
pub fn bytes_equal(a: &[u8], b: &[u8]) -> (r: bool)
    ensures
        r == (a@ == b@),
{
    if a.len() != b.len() {
        return false;
    }
    let mut i: usize = 0;
    while i < a.len()
        invariant
            a@.len() == b@.len(),
            i <= a@.len(),
            forall|k: int| 0 <= k < i ==> a@[k] == b@[k],
        decreases a@.len() - i,
    {
        if a[i] != b[i] {
            return false;
        }
        i = i + 1;
    }
    assert(a@ =~= b@);
    true
}

/// Whether two components are equal.
pub fn component_equal(a: &PathComponent, b: &PathComponent) -> (r: bool)
    ensures
        r == (a@ == b@),
{
    match (a, b) {
        (PathComponent::RootDir, PathComponent::RootDir) => true,
        (PathComponent::CurDir, PathComponent::CurDir) => true,
        (PathComponent::ParentDir, PathComponent::ParentDir) => true,
        (PathComponent::Normal(x), PathComponent::Normal(y)) => bytes_equal(x.as_slice(), y.as_slice()),
        _ => false,
    }
}

/// `Path::starts_with`: whether `base`'s components are a prefix of `p`'s.
pub fn starts_with(p: &[u8], base: &[u8]) -> (r: bool)
    ensures
        r == path_starts_with(p@, base@),
{
    let a = path_components(p);
    let b = path_components(base);
    if b.len() > a.len() {
        return false;
    }
    let mut i: usize = 0;
    while i < b.len()
        invariant
            b@.len() <= a@.len(),
            i <= b@.len(),
            components_view(a@) == components(p@),
            components_view(b@) == components(base@),
            forall|k: int| 0 <= k < i ==> components(p@)[k] == components(base@)[k],
        decreases b@.len() - i,
    {
        if !component_equal(&a[i], &b[i]) {
            assert(components(p@).subrange(0, components(base@).len() as int)[i as int]
                != components(base@)[i as int]);
            return false;
        }
        i = i + 1;
    }
    assert(components(p@).subrange(0, components(base@).len() as int) =~= components(base@));
    true
}

/// The number of components of `p` (`path.components().count()`).
pub fn component_count(p: &[u8]) -> (r: usize)
    ensures
        r == components(p@).len(),
{
    let cs = path_components(p);
    cs.len()
}

/// `Path`'s `==`: whether two paths have the same components.
pub fn same_path(a: &[u8], b: &[u8]) -> (r: bool)
    ensures
        r == (components(a@) == components(b@)),
{
    let r = starts_with(a, b) && component_count(a) == component_count(b);
    proof {
        if components(a@).len() == components(b@).len() && path_starts_with(a@, b@) {
            assert(components(a@).subrange(0, components(b@).len() as int) =~= components(a@));
        }
    }
    r
}

/// `PathBuf::join` on UNIX (see `join`).
pub fn join_path(base: &[u8], rest: &[u8]) -> (r: Vec<u8>)
    ensures
        r@ == join(base@, rest@),
{
    let mut out = slice_to_vec(base);
    if rest.len() > 0 && rest[0] == 47u8 {
        return slice_to_vec(rest);
    }
    if base.len() > 0 && base[base.len() - 1] != 47u8 {
        out.push(47u8);
    }
    let mut i: usize = 0;
    let ghost start = out@;
    while i < rest.len()
        invariant
            i <= rest@.len(),
            out@ == start + rest@.subrange(0, i as int),
        decreases rest@.len() - i,
    {
        out.push(rest[i]);
        i = i + 1;
        assert(out@ =~= start + rest@.subrange(0, i as int));
    }
    assert(rest@.subrange(0, rest@.len() as int) =~= rest@);
    out
}

/// `Path::file_name`: the last component when it is a name.
pub fn path_file_name(p: &[u8]) -> (r: Option<Vec<u8>>)
    ensures
        match r {
            Some(n) => file_name(p@) == Some(n@),
            None => file_name(p@) is None,
        },
{
    let cs = path_components(p);
    if cs.len() == 0 {
        return None;
    }
    match &cs[cs.len() - 1] {
        PathComponent::Normal(name) => Some(name.clone()),
        _ => None,
    }
}

} // verus!
