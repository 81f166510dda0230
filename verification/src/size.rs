//! Sizes given on the command line: a decimal number with an optional unit
//! (`B`, `K`/`KB`/`KiB`, `M`..., `G`..., `T`...), all binary multiples.
use vstd::prelude::*;
use crate::text::{chars_of, string_from_chars};

verus! {

/// Whether `c` has the Unicode White_Space property (`char::is_whitespace`).
pub open spec fn is_white_space(c: char) -> bool {
    ||| ('\t' <= c && c <= '\r')
    ||| c == ' '
    ||| c == '\u{85}'
    ||| c == '\u{A0}'
    ||| c == '\u{1680}'
    ||| ('\u{2000}' <= c && c <= '\u{200A}')
    ||| c == '\u{2028}'
    ||| c == '\u{2029}'
    ||| c == '\u{202F}'
    ||| c == '\u{205F}'
    ||| c == '\u{3000}'
}

/// `s` without leading white space.
pub open spec fn trim_start(s: Seq<char>) -> Seq<char>
    decreases s.len(),
{
    if s.len() > 0 && is_white_space(s[0]) {
        trim_start(s.drop_first())
    } else {
        s
    }
}

/// `s` without trailing white space.
pub open spec fn trim_end(s: Seq<char>) -> Seq<char>
    decreases s.len(),
{
    if s.len() > 0 && is_white_space(s.last()) {
        trim_end(s.drop_last())
    } else {
        s
    }
}

/// `s` without leading and trailing white space (`str::trim`).
pub open spec fn trim(s: Seq<char>) -> Seq<char> {
    trim_end(trim_start(s))
}

/// Whether `c` is an ASCII decimal digit.
pub open spec fn is_digit_char(c: char) -> bool {
    '0' <= c && c <= '9'
}

/// The value of a string of decimal digit characters.
pub open spec fn numeral_value(s: Seq<char>) -> nat
    decreases s.len(),
{
    if s.len() == 0 {
        0
    } else {
        numeral_value(s.drop_last()) * 10 + ((s.last() as u32) - 48) as nat
    }
}

/// The number of leading ASCII digits of `s`.
pub open spec fn leading_digits(s: Seq<char>) -> nat
    decreases s.len(),
{
    if s.len() > 0 && is_digit_char(s[0]) {
        1 + leading_digits(s.drop_first())
    } else {
        0
    }
}

/// The text that `str::to_lowercase` makes of `s` (full Unicode lowercase
/// mapping).
pub uninterp spec fn lowercase(s: Seq<char>) -> Seq<char>;

/// Whether every character of `s` is ASCII.
pub open spec fn is_ascii_text(s: Seq<char>) -> bool {
    forall|i: int| 0 <= i < s.len() ==> (#[trigger] s[i] as u32) < 128
}

/// The ASCII lowercase of a character: `A` to `Z` become `a` to `z`, and
/// every other character stays.
pub open spec fn ascii_lower(c: char) -> char {
    if 65 <= (c as u32) && (c as u32) <= 90 {
        ((c as u32) + 32) as char
    } else {
        c
    }
}

/// Lowercases text. Calls `str::to_lowercase`; the contract claims that the
/// result is `lowercase` of the text, a function of the text alone, and that
/// text made of ASCII characters only has its letters `A` to `Z` lowercased
/// and every other character kept.
#[verifier::external_body]
pub(crate) fn to_lowercase_text(s: &str) -> (r: String)
    ensures
        r@ == lowercase(s@),
        is_ascii_text(s@) ==> r@ == s@.map_values(|c: char| ascii_lower(c)),
{
    s.to_lowercase()
}

/// The multiplier of a lowercased unit.
pub open spec fn unit_multiplier(unit: Seq<char>) -> Option<nat> {
    if unit == ""@ || unit == "b"@ {
        Some(1)
    } else if unit == "k"@ || unit == "kb"@ || unit == "kib"@ {
        Some(1024)
    } else if unit == "m"@ || unit == "mb"@ || unit == "mib"@ {
        Some(1024 * 1024)
    } else if unit == "g"@ || unit == "gb"@ || unit == "gib"@ {
        Some(1024 * 1024 * 1024)
    } else if unit == "t"@ || unit == "tb"@ || unit == "tib"@ {
        Some(1024 * 1024 * 1024 * 1024)
    } else {
        None
    }
}

/// Whether some character of `t` at or after `d` is an ASCII digit.
pub open spec fn has_digit_from(t: Seq<char>, d: int) -> bool {
    exists|k: int| d <= k < t.len() && is_digit_char(#[trigger] t[k])
}

/// The number of bytes a size argument stands for: after trimming white
/// space it is one or more ASCII digits followed by a unit with no digit in
/// it; the number must fit in a `u64`, the unit (lowercased) must be known,
/// and the product must fit in a `u64`.
pub open spec fn size_value(value: Seq<char>) -> Option<u64> {
    let t = trim(value);
    let d = leading_digits(t) as int;
    let number = numeral_value(t.subrange(0, d));
    let unit = t.subrange(d, t.len() as int);
    if d == 0 || has_digit_from(t, d) {
        None
    } else if number > u64::MAX {
        None
    } else {
        match unit_multiplier(lowercase(unit)) {
            None => None,
            Some(m) => if number * m <= u64::MAX {
                Some((number * m) as u64)
            } else {
                None
            },
        }
    }
}

/// Whether two strings hold the same text.
pub fn text_equal(a: &str, b: &str) -> (r: bool)
    ensures
        r == (a@ == b@),
{
    let x = chars_of(a);
    let y = chars_of(b);
    chars_equal(x.as_slice(), y.as_slice())
}

/// Whether two character slices are equal.
pub fn chars_equal(a: &[char], b: &[char]) -> (r: bool)
    ensures
        r == (a@ == b@),
{
    if a.len() != b.len() {
        return false;
    }
    let mut i: usize = 0;
    while i < a.len()
        invariant
            a@.len() == b@.len(),
            i <= a@.len(),
            forall|k: int| 0 <= k < i ==> a@[k] == b@[k],
        decreases a@.len() - i,
    {
        if a[i] != b[i] {
            return false;
        }
        i = i + 1;
    }
    assert(a@ =~= b@);
    true
}

/// Whether `c` is white space (see `is_white_space`).
pub fn white_space(c: char) -> (r: bool)
    ensures
        r == is_white_space(c),
{
    ('\t' <= c && c <= '\r') || c == ' ' || c == '\u{85}' || c == '\u{A0}' || c == '\u{1680}' || ('\u{2000}'
        <= c && c <= '\u{200A}') || c == '\u{2028}' || c == '\u{2029}' || c == '\u{202F}' || c
        == '\u{205F}' || c == '\u{3000}'
}

/// The bounds of `cs` without leading and trailing white space.
pub fn trim_bounds(cs: &[char]) -> (r: (usize, usize))
    ensures
        r.0 <= r.1 <= cs@.len(),
        cs@.subrange(r.0 as int, r.1 as int) == trim(cs@),
{
    let n = cs.len();
    let mut start: usize = 0;
    proof {
        assert(cs@.skip(0) =~= cs@);
    }
    while start < n && white_space(cs[start])
        invariant
            start <= n,
            n == cs@.len(),
            trim_start(cs@) == trim_start(cs@.skip(start as int)),
        decreases n - start,
    {
        assert(cs@.skip(start as int).drop_first() =~= cs@.skip(start + 1));
        start = start + 1;
    }
    assert(trim_start(cs@) == cs@.skip(start as int));
    let mut end: usize = n;
    let ghost s = cs@.skip(start as int);
    proof {
        assert(cs@.subrange(start as int, n as int) =~= s);
    }
    while end > start && white_space(cs[end - 1])
        invariant
            start <= end <= n,
            n == cs@.len(),
            s == cs@.skip(start as int),
            trim_end(s) == trim_end(cs@.subrange(start as int, end as int)),
        decreases end,
    {
        assert(cs@.subrange(start as int, end as int).drop_last() =~= cs@.subrange(start as int, end - 1));
        end = end - 1;
    }
    (start, end)
}

fn is_digit(c: char) -> (r: bool)
    ensures
        r == is_digit_char(c),
{
    '0' <= c && c <= '9'
}

proof fn lemma_numeral_grows(s: Seq<char>, k: int)
    requires
        0 <= k <= s.len(),
    ensures
        numeral_value(s.subrange(0, k)) <= numeral_value(s),
    decreases s.len() - k,
{
    if k < s.len() {
        lemma_numeral_grows(s, k + 1);
        assert(s.subrange(0, k + 1).drop_last() =~= s.subrange(0, k));
    } else {
        assert(s.subrange(0, k) =~= s);
    }
}

proof fn lemma_leading_digits(s: Seq<char>)
    ensures
        leading_digits(s) <= s.len(),
        forall|k: int| 0 <= k < leading_digits(s) ==> is_digit_char(#[trigger] s[k]),
        leading_digits(s) < s.len() ==> !is_digit_char(s[leading_digits(s) as int]),
    decreases s.len(),
{
    if s.len() > 0 && is_digit_char(s[0]) {
        lemma_leading_digits(s.drop_first());
        assert forall|k: int| 0 <= k < leading_digits(s) implies is_digit_char(#[trigger] s[k]) by {
            if k > 0 {
                assert(s[k] == s.drop_first()[k - 1]);
            }
        }
    }
}

/// The value of the digit characters `cs[start..end]`, or `None` when it does
/// not fit in a `u64`.
pub fn numeral(cs: &[char], start: usize, end: usize) -> (r: Option<u64>)
    requires
        start <= end <= cs@.len(),
        forall|k: int| start <= k < end ==> is_digit_char(cs@[k]),
    ensures
        match r {
            Some(v) => v as nat == numeral_value(cs@.subrange(start as int, end as int)),
            None => numeral_value(cs@.subrange(start as int, end as int)) > u64::MAX,
        },
{
    let ghost whole = cs@.subrange(start as int, end as int);
    let mut value: u64 = 0;
    let mut i = start;
    assert(whole.subrange(0, 0) =~= Seq::<char>::empty());
    while i < end
        invariant
            start <= i <= end,
            end <= cs@.len(),
            whole == cs@.subrange(start as int, end as int),
            forall|k: int| start <= k < end ==> is_digit_char(cs@[k]),
            value as nat == numeral_value(whole.subrange(0, i - start)),
        decreases end - i,
    {
        let d = ((cs[i] as u32) - 48) as u64;
        assert(whole.subrange(0, i - start + 1).drop_last() =~= whole.subrange(0, i - start));
        assert(whole.subrange(0, i - start + 1).last() == cs@[i as int]);
        match value.checked_mul(10) {
            Some(m) => match m.checked_add(d) {
                Some(n) => {
                    value = n;
                },
                None => {
                    proof {
                        lemma_numeral_grows(whole, i - start + 1);
                    }
                    return None;
                },
            },
            None => {
                proof {
                    lemma_numeral_grows(whole, i - start + 1);
                }
                return None;
            },
        }
        i = i + 1;
    }
    assert(whole.subrange(0, end - start) =~= whole);
    Some(value)
}

/// The multiplier of a lowercased unit (see `unit_multiplier`): `None` for
/// a unit that is not known.
pub fn multiplier_of(unit: &str) -> (r: Option<u64>)
    ensures
        match r {
            Some(m) => unit_multiplier(unit@) == Some(m as nat),
            None => unit_multiplier(unit@) is None,
        },
{
    if text_equal(unit, "") || text_equal(unit, "b") {
        Some(1)
    } else if text_equal(unit, "k") || text_equal(unit, "kb") || text_equal(unit, "kib") {
        Some(1024)
    } else if text_equal(unit, "m") || text_equal(unit, "mb") || text_equal(unit, "mib") {
        Some(1024 * 1024)
    } else if text_equal(unit, "g") || text_equal(unit, "gb") || text_equal(unit, "gib") {
        Some(1024 * 1024 * 1024)
    } else if text_equal(unit, "t") || text_equal(unit, "tb") || text_equal(unit, "tib") {
        Some(1024 * 1024 * 1024 * 1024)
    } else {
        None
    }
}

/// The number of bytes a size argument stands for (see `size_value`).
pub fn parse_size_argument(value: &str) -> (r: Option<u64>)
    ensures
        r == size_value(value@),
{
    let cs = chars_of(value);
    let (start, end) = trim_bounds(cs.as_slice());
    let ghost t = trim(value@);
    let mut d = start;
    proof {
        assert(cs@.subrange(start as int, end as int) == t);
        lemma_leading_digits(t);
    }
    while d < end && is_digit(cs[d])
        invariant
            start <= d <= end,
            end <= cs@.len(),
            t == cs@.subrange(start as int, end as int),
            forall|k: int| start <= k < d ==> is_digit_char(cs@[k]),
        decreases end - d,
    {
        d = d + 1;
    }
    let ghost dl = leading_digits(t) as int;
    proof {
        lemma_leading_digits(t);
        if dl < d - start {
            assert(t[dl] == cs@[start + dl]);
        }
        if d - start < dl {
            assert(t[d - start] == cs@[d as int]);
        }
    }
    assert(dl == d - start);
    if d == start {
        return None;
    }
    let mut k = d;
    while k < end
        invariant
            start < d <= k <= end,
            end <= cs@.len(),
            cs@ == value@,
            t == trim(value@),
            dl == leading_digits(t) as int,
            dl == d - start,
            t == cs@.subrange(start as int, end as int),
            forall|m: int| d <= m < k ==> !is_digit_char(cs@[m]),
        decreases end - k,
    {
        if is_digit(cs[k]) {
            assert(t[k - start] == cs@[k as int]);
            assert(d - start <= k - start < t.len() && is_digit_char(t[k - start]));
            assert(has_digit_from(t, dl));
            assert(size_value(value@) is None);
            return None;
        }
        k = k + 1;
    }
    assert(!has_digit_from(t, dl)) by {
        assert forall|m: int| dl <= m < t.len() implies !is_digit_char(#[trigger] t[m]) by {
            assert(t[m] == cs@[start + m]);
        }
    }
    let number = numeral(cs.as_slice(), start, d);
    assert(cs@.subrange(start as int, d as int) =~= t.subrange(0, dl));
    let number = match number {
        Some(n) => n,
        None => {
            return None;
        },
    };
    let unit_chars = vstd::slice::slice_to_vec(vstd::slice::slice_subrange(cs.as_slice(), d, end));
    assert(unit_chars@ =~= t.subrange(dl, t.len() as int));
    let unit = string_from_chars(unit_chars.as_slice());
    let lower = to_lowercase_text(unit.as_str());
    match multiplier_of(lower.as_str()) {
        None => None,
        Some(m) => number.checked_mul(m),
    }
}

} // verus!
