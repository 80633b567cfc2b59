use vstd::prelude::*;
use vstd::arithmetic::div_mod::lemma_div_decreases;
use vstd::arithmetic::div_mod::lemma_div_is_ordered;
use crate::numfmt::dec_seq;
use crate::numfmt::digit_char;

verus! {

/// 1000 raised to the power `k`.
pub open spec fn pow1000(k: nat) -> nat
    decreases k,
{
    if k == 0 {
        1
    } else {
        1000 * pow1000((k - 1) as nat)
    }
}

/// How many times `n` can be divided down by 1000: the index of the SI
/// prefix chosen when formatting `n` bytes (0 for none, 1 for "k", ...).
pub open spec fn si_divisions(n: nat) -> nat
    decreases n,
{
    if n < 1000 {
        0
    } else {
        1 + si_divisions(n / 1000)
    }
}

/// The SI prefix letter for division count `d`. A `u64` byte count never
/// scales beyond "E" (1000 to the seventh exceeds `u64::MAX`).
pub open spec fn si_prefix(d: nat) -> Seq<char> {
    if d == 0 {
        Seq::empty()
    } else if d == 1 {
        "k"@
    } else if d == 2 {
        "M"@
    } else if d == 3 {
        "G"@
    } else if d == 4 {
        "T"@
    } else if d == 5 {
        "P"@
    } else if d == 6 {
        "E"@
    } else if d == 7 {
        "Z"@
    } else {
        "Y"@
    }
}

/// The human-readable SI size of `n` bytes, trailing unit "B" included:
/// the whole multiple of the chosen power of 1000, then — for scaled
/// values — a point and one truncated fractional digit, then the SI
/// prefix letter. For example 999 renders as "999B" and 1999 as "1.9kB".
pub open spec fn si_size_spec(n: nat) -> Seq<char> {
    let d = si_divisions(n);
    if d == 0 {
        dec_seq(n) + "B"@
    } else {
        let p = pow1000(d);
        dec_seq(n / p) + "."@ + seq![digit_char((n % p) * 10 / p)] + si_prefix(d) + "B"@
    }
}

/// Relies on `size_format::SizeFormatterSI` rendered with default
/// precision: it divides by 1000 until the value is below the prefix
/// base, prints the truncated whole part, a point and one truncated
/// fractional digit when a prefix applies, and the SI prefix letter.
#[verifier::external_body]
pub(crate) fn si_format(bytes: u64) -> (r: String)
    ensures
        r@ == si_size_spec(bytes as nat),
{
    format!("{}B", size_format::SizeFormatterSI::new(bytes))
}

/// Size formatting is monotone in magnitude: of two byte counts the
/// smaller one never renders with a larger SI prefix, so the prefix
/// portion of the output is non-decreasing in magnitude order as the
/// byte count grows.
pub proof fn lemma_si_divisions_monotone(a: nat, b: nat)
    requires
        a <= b,
    ensures
        si_divisions(a) <= si_divisions(b),
    decreases b,
{
    if b < 1000 {
        // both counts render without a prefix
    } else if a < 1000 {
        // si_divisions(a) is zero
    } else {
        lemma_div_is_ordered(a as int, b as int, 1000);
        lemma_div_decreases(b as int, 1000);
        lemma_si_divisions_monotone(a / 1000, b / 1000);
    }
}

} // verus!
