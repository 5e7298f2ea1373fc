//! Chi-squared sampling: each observed value is `mean * (1 + a)` for an
//! auxiliary draw `a` from a chi-squared distribution with one degree of
//! freedom.
//!
//! The auxiliary draws come from a floating-point sampler that cannot stand
//! in this library, so the caller hands them in already converted to
//! millionths (they are nonnegative); this function applies the scaling
//! transform exactly.

use vstd::prelude::*;

use crate::CmdArgs;

verus! {

/// The observed chi-squared value in millionths: `mean * (1 + a)` where the
/// auxiliary draw `a` is given in millionths.
pub open spec fn chi_transform(mean: int, aux_micros: int) -> int {
    mean * (1_000_000 + aux_micros)
}

proof fn lemma_chi_bounds(mean: int, aux: int)
    requires
        -0x8000_0000 <= mean <= 0x8000_0000,
        0 <= aux <= u64::MAX,
    ensures
        i128::MIN < chi_transform(mean, aux) < i128::MAX,
        mean >= 0 ==> chi_transform(mean, aux) >= mean * 1_000_000,
{
    let f = 1_000_000 + aux;
    assert(0 < f <= 1_000_000 + u64::MAX);
    assert(mean * f <= 0x8000_0000 * (1_000_000 + u64::MAX as int)) by (nonlinear_arith)
        requires
            mean <= 0x8000_0000,
            0 < f <= 1_000_000 + u64::MAX,
    ;
    assert(mean * f >= -0x8000_0000 * (1_000_000 + u64::MAX as int)) by (nonlinear_arith)
        requires
            mean >= -0x8000_0000,
            0 < f <= 1_000_000 + u64::MAX,
    ;
    if mean >= 0 {
        assert(mean * f >= mean * 1_000_000) by (nonlinear_arith)
            requires
                mean >= 0,
                f >= 1_000_000,
        ;
    }
}

/// Draws `elements` chi-squared samples for the configured mean, the given
/// values being the nonnegative auxiliary draws in millionths; each sample
/// is `mean * (1 + auxiliary)`.
///
/// When the mean is nonnegative, every sample is at least the mean.
pub fn chi_number(args: &CmdArgs, aux_micros: &Vec<u64>) -> (r: Vec<i128>)
    requires
        aux_micros@.len() == args.elements,
    ensures
        r@.len() == args.elements,
        forall|i: int|
            0 <= i < r@.len() ==> #[trigger] r@[i] == chi_transform(
                args.mean_value as int,
                aux_micros@[i] as int,
            ),
        forall|i: int| 0 <= i < r@.len() ==> i128::MIN < #[trigger] r@[i] < i128::MAX,
        args.mean_value >= 0 ==> (forall|i: int|
            0 <= i < r@.len() ==> #[trigger] r@[i] >= args.mean_value * 1_000_000),
{
    let mut numbers: Vec<i128> = Vec::new();
    let n: usize = aux_micros.len();
    for k in 0..n
        invariant
            n == aux_micros@.len(),
            numbers@.len() == k,
            forall|i: int|
                0 <= i < k ==> #[trigger] numbers@[i] == chi_transform(
                    args.mean_value as int,
                    aux_micros@[i] as int,
                ),
            forall|i: int| 0 <= i < k ==> i128::MIN < #[trigger] numbers@[i] < i128::MAX,
            args.mean_value >= 0 ==> (forall|i: int|
                0 <= i < k ==> #[trigger] numbers@[i] >= args.mean_value * 1_000_000),
    {
        proof {
            lemma_chi_bounds(args.mean_value as int, aux_micros@[k as int] as int);
        }
        let value: i128 = (args.mean_value as i128) * (1_000_000i128 + (aux_micros[k] as i128));
        numbers.push(value);
    }
    numbers
}

} // verus!
