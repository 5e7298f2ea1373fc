//! Gaussian sampling: shapes normally distributed draws into a sample
//! sequence.
//!
//! The draws themselves come from a floating-point sampler that cannot stand
//! in this library, so the caller hands them in already converted to
//! millionths; this function validates the parameters and lays the draws out
//! as the sample sequence.

use vstd::prelude::*;

use crate::CmdArgs;
use crate::ExporterError;

verus! {

/// Draws `elements` gaussian samples with the configured mean and standard
/// deviation, the given values being the draws in millionths.
///
/// A negative standard deviation is an invalid parameter, reported before
/// the draws are used.
pub fn gauss_number(args: &CmdArgs, draws_micros: &Vec<i64>) -> (r: Result<
    Vec<i128>,
    ExporterError,
>)
    requires
        draws_micros@.len() == args.elements,
    ensures
        r is Ok <==> args.deviation_value >= 0,
        r matches Ok(v) ==> v@.len() == args.elements && (forall|i: int|
            0 <= i < v@.len() ==> #[trigger] v@[i] == draws_micros@[i] as int),
        r is Err ==> r == Err::<Vec<i128>, ExporterError>(ExporterError::InvalidParameter),
{
    if args.deviation_value < 0 {
        return Err(ExporterError::InvalidParameter);
    }
    let mut numbers: Vec<i128> = Vec::new();
    let n: usize = draws_micros.len();
    for k in 0..n
        invariant
            n == draws_micros@.len(),
            numbers@.len() == k,
            forall|i: int| 0 <= i < k ==> #[trigger] numbers@[i] == draws_micros@[i] as int,
    {
        numbers.push(draws_micros[k] as i128);
    }
    Ok(numbers)
}

} // verus!
