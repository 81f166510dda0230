//! Human-readable sizes: `512B`, `1.5K`, `10.0M`, ... with one decimal in
//! binary units, rounded as the formatting of an `f64` rounds.
use vstd::prelude::*;
use vstd::arithmetic::div_mod::lemma_fundamental_div_mod;
use crate::text::{decimal, digit_char, push_decimal, push_str, string_from_chars};

verus! {

/// The spacing of `f64` values at the magnitude of `b`, for `b < 2^64`:
/// 1 below 2^53, doubling with each further binary digit.
pub open spec fn float_grain(b: nat, g: nat, steps: nat) -> nat
    decreases steps,
{
    if steps == 0 || b < 9007199254740992 * g {
        g
    } else {
        float_grain(b, 2 * g, (steps - 1) as nat)
    }
}

/// `n / g` rounded to the nearest integer, ties to even.
pub open spec fn div_round_even(n: nat, g: nat) -> nat {
    let q = n / g;
    let r = n % g;
    if 2 * r > g || (2 * r == g && q % 2 == 1) {
        q + 1
    } else {
        q
    }
}

/// The value of `bytes as f64`: `bytes` rounded to the nearest `f64`, ties
/// to even.
pub open spec fn nearest_f64(bytes: u64) -> nat {
    let g = float_grain(bytes as nat, 1, 11);
    div_round_even(bytes as nat, g) * g
}

/// The number of times 1024 divides into a size before it drops below 1024,
/// at most 4 (the `T` unit).
pub open spec fn unit_level(f: nat) -> nat {
    if f >= 1099511627776 {
        4
    } else if f >= 1073741824 {
        3
    } else if f >= 1048576 {
        2
    } else if f >= 1024 {
        1
    } else {
        0
    }
}

/// 1024 to the power `k`, for `k <= 4`.
pub open spec fn unit_divisor(k: nat) -> nat {
    if k == 1 {
        1024
    } else if k == 2 {
        1048576
    } else if k == 3 {
        1073741824
    } else if k == 4 {
        1099511627776
    } else {
        1
    }
}

/// The letter of a unit level.
pub open spec fn unit_letter(k: nat) -> Seq<char> {
    if k == 1 {
        "K"@
    } else if k == 2 {
        "M"@
    } else if k == 3 {
        "G"@
    } else {
        "T"@
    }
}

/// The text of a size: the exact byte count and `B` below 1024; otherwise
/// the size in the largest unit up to `T` that leaves at least 1, with one
/// decimal, rounded to nearest with ties to even (`format!("{:.1}")` of the
/// `f64` value), and the unit letter.
pub open spec fn human_size_text(bytes: u64) -> Seq<char> {
    if bytes < 1024 {
        decimal(bytes as nat) + "B"@
    } else {
        let f = nearest_f64(bytes);
        let k = unit_level(f);
        let t = div_round_even(f * 10, unit_divisor(k));
        decimal(t / 10) + "."@ + seq![digit_char((t % 10) as int)] + unit_letter(k)
    }
}

/// `n / g` rounded to nearest, ties to even.
fn div_round_even_exec(n: u128, g: u128) -> (r: u128)
    requires
        0 < g <= 0x10000000000,
        n < 0x100000000000000000000,
    ensures
        r == div_round_even(n as nat, g as nat),
        n / g <= r <= n / g + 1,
{
    let q = n / g;
    let r = n % g;
    assert(r < g);
    if 2 * r > g || (2 * r == g && q % 2 == 1) {
        q + 1
    } else {
        q
    }
}

/// 2 to the power `n`.
pub open spec fn two_pow(n: nat) -> nat
    decreases n,
{
    if n == 0 {
        1
    } else {
        2 * two_pow((n - 1) as nat)
    }
}

proof fn lemma_two_pow_small(n: nat)
    requires
        n <= 11,
    ensures
        1 <= two_pow(n) <= 2048,
{
    reveal_with_fuel(two_pow, 12);
}

/// The text of a size (see `human_size_text`).
pub fn human_size(bytes: u64) -> (s: String)
    ensures
        s@ == human_size_text(bytes),
{
    let mut out: Vec<char> = Vec::new();
    if bytes < 1024 {
        push_decimal(&mut out, bytes);
        push_str(&mut out, "B");
        assert(out@ =~= human_size_text(bytes));
        return string_from_chars(out.as_slice());
    }
    let b = bytes as u128;
    let mut g: u128 = 1;
    let mut steps: u128 = 11;
    while steps > 0 && b >= 9007199254740992 * g
        invariant
            b == bytes,
            steps <= 11,
            g == two_pow((11 - steps) as nat),
            1 <= g <= 2048,
            g > 1 ==> b >= 9007199254740992,
            float_grain(bytes as nat, 1, 11) == float_grain(bytes as nat, g as nat, steps as nat),
        decreases steps,
    {
        g = 2 * g;
        steps = steps - 1;
        proof {
            lemma_two_pow_small((11 - steps) as nat);
        }
    }
    proof {
        lemma_two_pow_small((11 - steps) as nat);
        lemma_fundamental_div_mod(b as int, g as int);
    }
    let q = div_round_even_exec(b, g);
    assert(q * g <= b + g && q * g + (b % g) >= b) by (nonlinear_arith)
        requires
            b / g <= q <= b / g + 1,
            g > 0,
            b == g * (b / g) + (b % g),
            b % g >= 0,
    ;
    assert(b % g < g);
    let f = q * g;
    assert(f == nearest_f64(bytes));
    let k: u128;
    let d: u128;
    let letter: &str;
    if f >= 1099511627776 {
        k = 4;
        d = 1099511627776;
        letter = "T";
    } else if f >= 1073741824 {
        k = 3;
        d = 1073741824;
        letter = "G";
    } else if f >= 1048576 {
        k = 2;
        d = 1048576;
        letter = "M";
    } else {
        k = 1;
        d = 1024;
        letter = "K";
    }
    assert(f >= 1024);
    assert(k == unit_level(f as nat));
    assert(d == unit_divisor(k as nat));
    assert(letter@ == unit_letter(k as nat));
    let t = div_round_even_exec(f * 10, d);
    assert((f * 10) as int / d as int <= (f * 10) as int / 1024);
    assert(t / 10 <= u64::MAX);
    push_decimal(&mut out, (t / 10) as u64);
    push_str(&mut out, ".");
    push_decimal(&mut out, (t % 10) as u64);
    push_str(&mut out, letter);
    assert(decimal(((t % 10) as u64) as nat) == seq![digit_char((t % 10) as int)]);
    assert(out@ =~= human_size_text(bytes));
    string_from_chars(out.as_slice())
}

} // verus!
