//! Binomial sampling: each sample counts the successes of `trials`
//! independent Bernoulli draws at the configured probability.
//!
//! The probability is an exact ratio of millionths, so each Bernoulli draw
//! is one integer-ratio draw of the random crate; no approximation is
//! involved.

use vstd::prelude::*;

use crate::CmdArgs;
use crate::ExporterError;
use crate::MICRO_UNIT;

verus! {

/// What holds of every binomial sample: it is an integer-valued real in
/// `[0, trials]`.
pub open spec fn binomial_value_ok(v: int, trials: int) -> bool {
    &&& 0 <= v <= trials * 1_000_000
    &&& v % 1_000_000 == 0
}

/// Relies on `rand::random_ratio`: the result is true with probability
/// `numerator / denominator`; it is guaranteed false for a zero numerator
/// and guaranteed true when the numerator equals the denominator. The call
/// panics when the denominator is zero or smaller than the numerator.
#[verifier::external_body]
fn bernoulli_draw(numerator: u32, denominator: u32) -> (r: bool)
    requires
        0 < denominator,
        numerator <= denominator,
    ensures
        numerator == 0 ==> !r,
        numerator == denominator ==> r,
{
    rand::random_ratio(numerator, denominator)
}

/// Draws `elements` binomial samples with `trials = mean_value` draws at the
/// configured success probability; each sample is the count of successes.
///
/// A negative trial count or a probability outside `[0, 1]` is an invalid
/// parameter, reported before any draw.
pub fn binomial_number(args: &CmdArgs) -> (r: Result<Vec<i128>, ExporterError>)
    ensures
        r is Ok <==> args.mean_value >= 0 && 0 <= args.p_millionths <= MICRO_UNIT,
        r matches Ok(v) ==> v@.len() == args.elements && (forall|i: int|
            0 <= i < v@.len() ==> binomial_value_ok(#[trigger] v@[i] as int, args.mean_value as int)),
        r is Err ==> r == Err::<Vec<i128>, ExporterError>(ExporterError::InvalidParameter),
{
    if args.mean_value < 0 || args.p_millionths < 0 || args.p_millionths > MICRO_UNIT {
        return Err(ExporterError::InvalidParameter);
    }
    let trials: u32 = args.mean_value as u32;
    let p: u32 = args.p_millionths as u32;
    let mut numbers: Vec<i128> = Vec::new();
    let n: u32 = args.elements;
    for k in 0..n
        invariant
            trials == args.mean_value,
            p == args.p_millionths,
            p <= 1_000_000,
            numbers@.len() == k,
            forall|i: int|
                0 <= i < k ==> binomial_value_ok(#[trigger] numbers@[i] as int, args.mean_value as int),
    {
        let mut successes: u32 = 0;
        for t in 0..trials
            invariant
                p <= 1_000_000,
                successes <= t,
        {
            if bernoulli_draw(p, 1_000_000) {
                successes = successes + 1;
            }
        }
        numbers.push((successes as i128) * 1_000_000);
    }
    Ok(numbers)
}

} // verus!
