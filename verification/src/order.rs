//! Three-way comparison results, and the lexicographic order of sequences
//! of integers with its laws.
use vstd::prelude::*;

verus! {

/// The result of a three-way comparison.
#[derive(Debug, Clone, Copy, PartialEq, Eq, Structural)]
pub enum Order {
    Less,
    Equal,
    Greater,
}

/// The comparison of two integers.
pub open spec fn int_order(a: int, b: int) -> Order {
    if a < b {
        Order::Less
    } else if a == b {
        Order::Equal
    } else {
        Order::Greater
    }
}

/// `o`, or `next` when `o` is `Equal` (`Ordering::then`).
pub open spec fn then_order(o: Order, next: Order) -> Order {
    if o == Order::Equal {
        next
    } else {
        o
    }
}

/// The comparison with the operands swapped (`Ordering::reverse`).
pub open spec fn flip(o: Order) -> Order {
    match o {
        Order::Less => Order::Greater,
        Order::Equal => Order::Equal,
        Order::Greater => Order::Less,
    }
}

/// The lexicographic order of integer sequences: the first difference
/// decides, and a proper prefix comes first (as `Vec` and `str` compare).
pub open spec fn lex_order(a: Seq<int>, b: Seq<int>) -> Order
    decreases a.len(),
{
    if a.len() == 0 {
        if b.len() == 0 {
            Order::Equal
        } else {
            Order::Less
        }
    } else if b.len() == 0 {
        Order::Greater
    } else {
        then_order(int_order(a[0], b[0]), lex_order(a.drop_first(), b.drop_first()))
    }
}

/// Two sequences compare `Equal` exactly when they are equal.
pub proof fn lemma_lex_equal(a: Seq<int>, b: Seq<int>)
    ensures
        (lex_order(a, b) == Order::Equal) == (a == b),
    decreases a.len(),
{
    if a.len() > 0 && b.len() > 0 {
        lemma_lex_equal(a.drop_first(), b.drop_first());
        if lex_order(a, b) == Order::Equal {
            assert(a[0] == b[0]);
            assert(a.drop_first() == b.drop_first());
            assert(a =~= seq![a[0]] + a.drop_first());
            assert(b =~= seq![b[0]] + b.drop_first());
        }
        if a == b {
            assert(a.drop_first() =~= b.drop_first());
        }
    } else if a.len() == 0 && b.len() == 0 {
        assert(a =~= b);
    } else {
        assert(a.len() != b.len());
    }
}

/// Swapping the operands flips the result.
pub proof fn lemma_lex_flip(a: Seq<int>, b: Seq<int>)
    ensures
        lex_order(b, a) == flip(lex_order(a, b)),
    decreases a.len(),
{
    if a.len() > 0 && b.len() > 0 {
        lemma_lex_flip(a.drop_first(), b.drop_first());
    }
}

/// The lexicographic order is transitive, strictly when either step is.
pub proof fn lemma_lex_trans(a: Seq<int>, b: Seq<int>, c: Seq<int>)
    requires
        lex_order(a, b) != Order::Greater,
        lex_order(b, c) != Order::Greater,
    ensures
        lex_order(a, c) != Order::Greater,
        (lex_order(a, b) == Order::Less || lex_order(b, c) == Order::Less) ==> lex_order(a, c)
            == Order::Less,
    decreases a.len(),
{
    if a.len() > 0 && b.len() > 0 && c.len() > 0 {
        if a[0] == b[0] && b[0] == c[0] {
            lemma_lex_trans(a.drop_first(), b.drop_first(), c.drop_first());
        }
    }
}

/// Comparing after an equal prefix is comparing what follows it.
pub proof fn lemma_lex_skip(a: Seq<int>, b: Seq<int>, i: int)
    requires
        0 <= i <= a.len(),
        i <= b.len(),
        a.subrange(0, i) == b.subrange(0, i),
    ensures
        lex_order(a, b) == lex_order(a.skip(i), b.skip(i)),
    decreases i,
{
    if i > 0 {
        assert(a[0] == a.subrange(0, i)[0]);
        assert(b[0] == b.subrange(0, i)[0]);
        assert(a.drop_first().subrange(0, i - 1) =~= a.subrange(0, i).drop_first());
        assert(b.drop_first().subrange(0, i - 1) =~= b.subrange(0, i).drop_first());
        lemma_lex_skip(a.drop_first(), b.drop_first(), i - 1);
        assert(a.drop_first().skip(i - 1) =~= a.skip(i));
        assert(b.drop_first().skip(i - 1) =~= b.skip(i));
    } else {
        assert(a.skip(0) =~= a);
        assert(b.skip(0) =~= b);
    }
}

/// The integer values of a sequence of `u64`.
pub open spec fn u64s_as_ints(s: Seq<u64>) -> Seq<int> {
    s.map_values(|x: u64| x as int)
}

/// The code points of a sequence of characters.
pub open spec fn chars_as_ints(s: Seq<char>) -> Seq<int> {
    s.map_values(|c: char| (c as u32) as int)
}

/// Compares two `u64` slices lexicographically (`Vec<u64>::cmp`).
pub fn compare_u64s(a: &[u64], b: &[u64]) -> (r: Order)
    ensures
        r == lex_order(u64s_as_ints(a@), u64s_as_ints(b@)),
{
    let ghost sa = u64s_as_ints(a@);
    let ghost sb = u64s_as_ints(b@);
    let mut i: usize = 0;
    proof {
        assert(sa.subrange(0, 0) =~= sb.subrange(0, 0));
        lemma_lex_skip(sa, sb, 0);
    }
    while i < a.len() && i < b.len()
        invariant
            i <= a@.len(),
            i <= b@.len(),
            sa == u64s_as_ints(a@),
            sb == u64s_as_ints(b@),
            sa.len() == a@.len(),
            sb.len() == b@.len(),
            lex_order(sa, sb) == lex_order(sa.skip(i as int), sb.skip(i as int)),
        decreases a@.len() - i,
    {
        assert(sa.skip(i as int)[0] == a@[i as int] as int);
        assert(sb.skip(i as int)[0] == b@[i as int] as int);
        if a[i] < b[i] {
            return Order::Less;
        }
        if a[i] > b[i] {
            return Order::Greater;
        }
        assert(sa.skip(i as int).drop_first() =~= sa.skip(i + 1));
        assert(sb.skip(i as int).drop_first() =~= sb.skip(i + 1));
        i = i + 1;
    }
    if i < a.len() {
        Order::Greater
    } else if i < b.len() {
        Order::Less
    } else {
        Order::Equal
    }
}

/// Compares two character slices lexicographically by code point, which is
/// how `str` values compare.
pub fn compare_chars(a: &[char], b: &[char]) -> (r: Order)
    ensures
        r == lex_order(chars_as_ints(a@), chars_as_ints(b@)),
{
    let ghost sa = chars_as_ints(a@);
    let ghost sb = chars_as_ints(b@);
    let mut i: usize = 0;
    proof {
        assert(sa.subrange(0, 0) =~= sb.subrange(0, 0));
        lemma_lex_skip(sa, sb, 0);
    }
    while i < a.len() && i < b.len()
        invariant
            i <= a@.len(),
            i <= b@.len(),
            sa == chars_as_ints(a@),
            sb == chars_as_ints(b@),
            sa.len() == a@.len(),
            sb.len() == b@.len(),
            lex_order(sa, sb) == lex_order(sa.skip(i as int), sb.skip(i as int)),
        decreases a@.len() - i,
    {
        assert(sa.skip(i as int)[0] == (a@[i as int] as u32) as int);
        assert(sb.skip(i as int)[0] == (b@[i as int] as u32) as int);
        let x = a[i] as u32;
        let y = b[i] as u32;
        if x < y {
            return Order::Less;
        }
        if x > y {
            return Order::Greater;
        }
        assert(sa.skip(i as int).drop_first() =~= sa.skip(i + 1));
        assert(sb.skip(i as int).drop_first() =~= sb.skip(i + 1));
        i = i + 1;
    }
    if i < a.len() {
        Order::Greater
    } else if i < b.len() {
        Order::Less
    } else {
        Order::Equal
    }
}

/// Compares two integers.
pub fn compare_u64(a: u64, b: u64) -> (r: Order)
    ensures
        r == int_order(a as int, b as int),
{
    if a < b {
        Order::Less
    } else if a == b {
        Order::Equal
    } else {
        Order::Greater
    }
}

} // verus!
