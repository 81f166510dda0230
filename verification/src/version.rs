//! Version-like pathname components (`1.2`, `v3.4`, `2.0.1`) and the
//! highest version found in a path.
use vstd::prelude::*;
use crate::order::{Order, lex_order, u64s_as_ints, compare_u64s};
use crate::pathname::{ComponentView, PathComponent, components, components_view, copy_range, dot, path_components, sep};

verus! {

/// Whether a byte is an ASCII decimal digit.
pub open spec fn is_digit(b: u8) -> bool {
    48 <= b <= 57
}

/// The value of a string of decimal digits (0 for the empty string).
pub open spec fn digits_value(s: Seq<u8>) -> nat
    decreases s.len(),
{
    if s.len() == 0 {
        0
    } else {
        digits_value(s.drop_last()) * 10 + (s.last() - 48) as nat
    }
}

/// `s` without its leading bytes equal to `b` (`str::trim_start_matches`).
pub open spec fn trim_leading(s: Seq<u8>, b: u8) -> Seq<u8>
    decreases s.len(),
{
    if s.len() > 0 && s[0] == b {
        trim_leading(s.drop_first(), b)
    } else {
        s
    }
}

/// The index of the first `b` at or after `i`, or the length.
pub open spec fn byte_end(s: Seq<u8>, b: u8, i: int) -> int
    decreases s.len() - i,
{
    if i >= s.len() {
        s.len() as int
    } else if s[i] == b {
        i
    } else {
        byte_end(s, b, i + 1)
    }
}

pub proof fn lemma_byte_end_bounds(s: Seq<u8>, b: u8, i: int)
    requires
        0 <= i,
    ensures
        i <= s.len() ==> i <= byte_end(s, b, i) <= s.len(),
        byte_end(s, b, i) < s.len() ==> s[byte_end(s, b, i)] == b,
        forall|k: int| i <= k < byte_end(s, b, i) ==> s[k] != b,
    decreases s.len() - i,
{
    if i < s.len() && s[i] != b {
        lemma_byte_end_bounds(s, b, i + 1);
    }
}

/// The pieces of `s` from index `i` on, split at every `b` (`str::split`):
/// empty pieces included, and one piece for an empty remainder.
pub open spec fn split_from(s: Seq<u8>, b: u8, i: int) -> Seq<Seq<u8>>
    decreases s.len() + 1 - i,
{
    if i < 0 || i > s.len() {
        seq![]
    } else {
        proof {
            lemma_byte_end_bounds(s, b, i);
        }
        let e = byte_end(s, b, i);
        seq![s.subrange(i, e)] + split_from(s, b, e + 1)
    }
}

/// `looks_like_version_component`: digits and dots only, at least one dot.
pub open spec fn looks_like_version(s: Seq<u8>) -> bool {
    &&& s.len() > 0
    &&& forall|i: int| 0 <= i < s.len() ==> s[i] == dot() || is_digit(s[i])
    &&& exists|i: int| 0 <= i < s.len() && s[i] == dot()
}

/// Whether every piece is a nonempty numeral that fits in a `u64`.
pub open spec fn numerals_fit(parts: Seq<Seq<u8>>) -> bool {
    forall|k: int| 0 <= k < parts.len() ==> parts[k].len() > 0 && digits_value(#[trigger] parts[k]) <= u64::MAX
}

/// The version numbers of a pathname component, when it is one: the
/// component without leading `v`s and then `V`s must look like a version,
/// and each dot-separated piece must parse as a `u64`.
pub open spec fn version_of(component: Seq<u8>) -> Option<Seq<int>> {
    let t = trim_leading(trim_leading(component, 118u8), 86u8);
    let parts = split_from(t, dot(), 0);
    if looks_like_version(t) && numerals_fit(parts) {
        Some(parts.map_values(|p: Seq<u8>| digits_value(p) as int))
    } else {
        None
    }
}

/// The bytes that stand for a component (`Component::as_os_str`).
pub open spec fn component_bytes(c: ComponentView) -> Seq<u8> {
    match c {
        ComponentView::RootDir => seq![sep()],
        ComponentView::CurDir => seq![dot()],
        ComponentView::ParentDir => seq![dot(), dot()],
        ComponentView::Normal(n) => n,
    }
}

/// The greater of two optional versions; of two equal ones the later.
pub open spec fn later_max(acc: Option<Seq<int>>, cur: Option<Seq<int>>) -> Option<Seq<int>> {
    match (acc, cur) {
        (None, x) => x,
        (x, None) => x,
        (Some(a), Some(b)) => if lex_order(b, a) == Order::Less {
            Some(a)
        } else {
            Some(b)
        },
    }
}

/// The highest version among components (`Iterator::max` of the versions).
pub open spec fn best_version_of(cs: Seq<ComponentView>) -> Option<Seq<int>>
    decreases cs.len(),
{
    if cs.len() == 0 {
        None
    } else {
        later_max(best_version_of(cs.drop_last()), version_of(component_bytes(cs.last())))
    }
}

/// The highest version-like component of a path.
pub open spec fn best_version(path: Seq<u8>) -> Option<Seq<int>> {
    best_version_of(components(path))
}

proof fn lemma_digits_value_grows(s: Seq<u8>, k: int)
    requires
        0 <= k <= s.len(),
    ensures
        digits_value(s.subrange(0, k)) <= digits_value(s),
    decreases s.len() - k,
{
    if k < s.len() {
        lemma_digits_value_grows(s, k + 1);
        assert(s.subrange(0, k + 1).drop_last() =~= s.subrange(0, k));
    } else {
        assert(s.subrange(0, k) =~= s);
    }
}

/// The value of the digits `s[start..end]`, or `None` when the numeral is
/// empty or too large for a `u64`.
fn parse_numeral(s: &[u8], start: usize, end: usize) -> (r: Option<u64>)
    requires
        start <= end <= s@.len(),
        forall|k: int| start <= k < end ==> is_digit(s@[k]),
    ensures
        match r {
            Some(v) => end > start && v as nat == digits_value(s@.subrange(start as int, end as int)),
            None => end == start || digits_value(s@.subrange(start as int, end as int)) > u64::MAX,
        },
{
    if start == end {
        return None;
    }
    let ghost whole = s@.subrange(start as int, end as int);
    let mut value: u64 = 0;
    let mut i = start;
    assert(whole.subrange(0, 0) =~= Seq::<u8>::empty());
    while i < end
        invariant
            start <= i <= end,
            end <= s@.len(),
            whole == s@.subrange(start as int, end as int),
            forall|k: int| start <= k < end ==> is_digit(s@[k]),
            value as nat == digits_value(whole.subrange(0, i - start)),
        decreases end - i,
    {
        let d = (s[i] - 48u8) as u64;
        assert(whole.subrange(0, i - start + 1).drop_last() =~= whole.subrange(0, i - start));
        assert(whole.subrange(0, i - start + 1).last() == s@[i as int]);
        match value.checked_mul(10) {
            Some(m) => match m.checked_add(d) {
                Some(n) => {
                    value = n;
                },
                None => {
                    proof {
                        lemma_digits_value_grows(whole, i - start + 1);
                    }
                    return None;
                },
            },
            None => {
                proof {
                    lemma_digits_value_grows(whole, i - start + 1);
                }
                return None;
            },
        }
        i = i + 1;
    }
    assert(whole.subrange(0, end - start) =~= whole);
    Some(value)
}

/// The version numbers of a pathname component (see `version_of`).
pub fn parse_version_component(component: &[u8]) -> (r: Option<Vec<u64>>)
    ensures
        match r {
            Some(v) => version_of(component@) == Some(u64s_as_ints(v@)),
            None => version_of(component@) is None,
        },
{
    let n = component.len();
    let mut i: usize = 0;
    proof {
        assert(component@.skip(0) =~= component@);
    }
    while i < n && component[i] == 118u8
        invariant
            i <= n,
            n == component@.len(),
            trim_leading(component@, 118u8) == trim_leading(component@.skip(i as int), 118u8),
        decreases n - i,
    {
        assert(component@.skip(i as int).drop_first() =~= component@.skip(i + 1));
        i = i + 1;
    }
    while i < n && component[i] == 86u8
        invariant
            i <= n,
            n == component@.len(),
            trim_leading(trim_leading(component@, 118u8), 86u8) == trim_leading(component@.skip(i as int), 86u8),
        decreases n - i,
    {
        assert(component@.skip(i as int).drop_first() =~= component@.skip(i + 1));
        i = i + 1;
    }
    let t = copy_range(component, i, n);
    assert(t@ =~= component@.skip(i as int));
    assert(t@ == trim_leading(trim_leading(component@, 118u8), 86u8));
    let m = t.len();
    // looks like a version: only digits and dots, at least one dot
    if m == 0 {
        return None;
    }
    let mut dots: usize = 0;
    let mut j: usize = 0;
    while j < m
        invariant
            j <= m,
            m == t@.len(),
            t@ == trim_leading(trim_leading(component@, 118u8), 86u8),
            dots <= j,
            forall|k: int| 0 <= k < j ==> t@[k] == dot() || is_digit(t@[k]),
            (dots > 0) == (exists|k: int| 0 <= k < j && t@[k] == dot()),
        decreases m - j,
    {
        if t[j] == 46u8 {
            dots = dots + 1;
        } else if !(48u8 <= t[j] && t[j] <= 57u8) {
            assert(!looks_like_version(t@));
            return None;
        }
        j = j + 1;
    }
    if dots == 0 {
        assert(!looks_like_version(t@));
        return None;
    }
    assert(looks_like_version(t@));
    // the dot-separated numerals
    let mut numbers: Vec<u64> = Vec::new();
    let mut start: usize = 0;
    let ghost mut done: Seq<Seq<u8>> = seq![];
    proof {
        lemma_byte_end_bounds(t@, dot(), 0);
        assert(split_from(t@, dot(), 0) == done + split_from(t@, dot(), 0));
    }
    loop
        invariant
            start <= m,
            m == t@.len(),
            looks_like_version(t@),
            split_from(t@, dot(), 0) == done + split_from(t@, dot(), start as int),
            numerals_fit(done),
            t@ == trim_leading(trim_leading(component@, 118u8), 86u8),
            numbers@.len() == done.len(),
            u64s_as_ints(numbers@) == done.map_values(|p: Seq<u8>| digits_value(p) as int),
        decreases m - start,
    {
        let mut end = start;
        while end < m && t[end] != 46u8
            invariant
                start <= end <= m,
                m == t@.len(),
                byte_end(t@, dot(), start as int) == byte_end(t@, dot(), end as int),
            decreases m - end,
        {
            end = end + 1;
        }
        proof {
            lemma_byte_end_bounds(t@, dot(), start as int);
        }
        assert(end == byte_end(t@, dot(), start as int));
        let ghost piece = t@.subrange(start as int, end as int);
        assert(split_from(t@, dot(), start as int) == seq![piece] + split_from(t@, dot(), end + 1));
        match parse_numeral(t.as_slice(), start, end) {
            None => {
                let ghost all = split_from(t@, dot(), 0);
                assert(all[done.len() as int] == piece);
                assert(!numerals_fit(all));
                assert(t@ == trim_leading(trim_leading(component@, 118u8), 86u8));
                assert(version_of(component@) is None);
                return None;
            },
            Some(v) => {
                let ghost old_numbers = numbers@;
                numbers.push(v);
                proof {
                    let nd = done.push(piece);
                    assert(nd + split_from(t@, dot(), end + 1) =~= done + (seq![piece] + split_from(t@, dot(), end + 1)));
                    assert forall|k: int| 0 <= k < nd.len() implies nd[k].len() > 0 && digits_value(#[trigger] nd[k]) <= u64::MAX by {
                        if k < done.len() {
                            assert(nd[k] == done[k]);
                        }
                    }
                    assert(numbers@ == old_numbers.push(v));
                    assert forall|k: int| 0 <= k < nd.len() implies u64s_as_ints(numbers@)[k] == nd.map_values(|p: Seq<u8>| digits_value(p) as int)[k] by {
                        if k < done.len() {
                            assert(numbers@[k] == old_numbers[k]);
                            assert(u64s_as_ints(old_numbers)[k] == done.map_values(|p: Seq<u8>| digits_value(p) as int)[k]);
                        }
                    }
                    assert(u64s_as_ints(numbers@) =~= nd.map_values(|p: Seq<u8>| digits_value(p) as int));
                    done = nd;
                }
                if end == m {
                    proof {
                        assert(split_from(t@, dot(), end + 1) == Seq::<Seq<u8>>::empty());
                        assert(done + Seq::<Seq<u8>>::empty() =~= done);
                    }
                    return Some(numbers);
                }
                start = end + 1;
            },
        }
    }
}

/// The bytes of a component (`Component::as_os_str`).
fn component_text(c: &PathComponent) -> (r: Vec<u8>)
    ensures
        r@ == component_bytes(c@),
{
    match c {
        PathComponent::RootDir => {
            let r = vec![47u8];
            assert(r@ =~= component_bytes(c@));
            r
        },
        PathComponent::CurDir => {
            let r = vec![46u8];
            assert(r@ =~= component_bytes(c@));
            r
        },
        PathComponent::ParentDir => {
            let r = vec![46u8, 46u8];
            assert(r@ =~= component_bytes(c@));
            r
        },
        PathComponent::Normal(n) => n.clone(),
    }
}

/// The highest version-like component of `path`, compared as `Vec<u64>`.
pub fn best_version_in_path(path: &[u8]) -> (r: Option<Vec<u64>>)
    ensures
        match r {
            Some(v) => best_version(path@) == Some(u64s_as_ints(v@)),
            None => best_version(path@) is None,
        },
{
    let cs = path_components(path);
    let ghost cv = components(path@);
    let mut best: Option<Vec<u64>> = None;
    let mut i: usize = 0;
    while i < cs.len()
        invariant
            i <= cs@.len(),
            components_view(cs@) == cv,
            cv.len() == cs@.len(),
            match best {
                Some(v) => best_version_of(cv.subrange(0, i as int)) == Some(u64s_as_ints(v@)),
                None => best_version_of(cv.subrange(0, i as int)) is None,
            },
        decreases cs@.len() - i,
    {
        assert(cv.subrange(0, i + 1).drop_last() =~= cv.subrange(0, i as int));
        assert(cv.subrange(0, i + 1).last() == cs@[i as int]@);
        let text = component_text(&cs[i]);
        let cur = parse_version_component(text.as_slice());
        match cur {
            None => {},
            Some(v) => {
                match &best {
                    None => {
                        best = Some(v);
                    },
                    Some(b) => {
                        if compare_u64s(v.as_slice(), b.as_slice()) != Order::Less {
                            best = Some(v);
                        }
                    },
                }
            },
        }
        i = i + 1;
    }
    assert(cv.subrange(0, cs@.len() as int) =~= cv);
    best
}

} // verus!
