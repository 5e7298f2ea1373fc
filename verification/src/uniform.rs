//! Uniform sampling: integer draws from the half-open interval
//! `[mean - deviation, mean + deviation)`.

use vstd::prelude::*;

use crate::CmdArgs;
use crate::ExporterError;

verus! {

/// The lower end of the uniform interval, in millionths.
pub open spec fn uniform_min_micros(args: CmdArgs) -> int {
    (args.mean_value - args.deviation_value) * 1_000_000
}

/// The upper end of the uniform interval, in millionths.
pub open spec fn uniform_max_micros(args: CmdArgs) -> int {
    (args.mean_value + args.deviation_value) * 1_000_000
}

/// What holds of every uniform sample: it is an integer-valued real inside
/// the configured half-open interval.
pub open spec fn uniform_value_ok(v: int, args: CmdArgs) -> bool {
    &&& uniform_min_micros(args) <= v < uniform_max_micros(args)
    &&& v % 1_000_000 == 0
}

/// Relies on `rand::random_range` over `min..max`: the result is drawn
/// uniformly from the half-open interval, which must not be empty (the call
/// panics on an empty range).
#[verifier::external_body]
fn uniform_draw(min: i64, max: i64) -> (r: i64)
    requires
        min < max,
    ensures
        min <= r < max,
{
    rand::random_range(min..max)
}

/// Draws `elements` integers uniformly from
/// `[mean - deviation, mean + deviation)`.
///
/// The interval must be nonempty, so a deviation of zero or less is an
/// invalid parameter, reported before any draw.
pub fn uniform_number(args: &CmdArgs) -> (r: Result<Vec<i128>, ExporterError>)
    ensures
        r is Ok <==> args.deviation_value > 0,
        r matches Ok(v) ==> v@.len() == args.elements && (forall|i: int|
            0 <= i < v@.len() ==> uniform_value_ok(#[trigger] v@[i] as int, *args)),
        r is Err ==> r == Err::<Vec<i128>, ExporterError>(ExporterError::InvalidParameter),
{
    if args.deviation_value <= 0 {
        return Err(ExporterError::InvalidParameter);
    }
    let min: i64 = args.mean_value as i64 - args.deviation_value as i64;
    let max: i64 = args.mean_value as i64 + args.deviation_value as i64;
    let mut numbers: Vec<i128> = Vec::new();
    let n: u32 = args.elements;
    for k in 0..n
        invariant
            min == args.mean_value - args.deviation_value,
            max == args.mean_value + args.deviation_value,
            min < max,
            numbers@.len() == k,
            forall|i: int| 0 <= i < k ==> uniform_value_ok(#[trigger] numbers@[i] as int, *args),
    {
        let d: i64 = uniform_draw(min, max);
        numbers.push((d as i128) * 1_000_000);
    }
    Ok(numbers)
}

} // verus!
