//! Registry assembly: one gauge metric instance per sampled element, named
//! and labeled deterministically, plus two scrape-metadata metrics.

use vstd::prelude::*;

use crate::CmdArgs;
use crate::DistKind;
use crate::ExporterError;
use crate::MICRO_UNIT;
use crate::binomial::binomial_number;
use crate::binomial::binomial_value_ok;
use crate::chisquared::chi_number;
use crate::chisquared::chi_transform;
use crate::gauss::gauss_number;
use crate::kind_of;
use crate::numbers::int_str;
use crate::numbers::micros_str;
use crate::numbers::spec_int_str;
use crate::numbers::spec_micros_str;
use crate::spec_kind_of;
use crate::uniform::uniform_number;
use crate::uniform::uniform_value_ok;

verus! {

/// One metric instance: a gauge with a fully prefixed name, a help text, an
/// ordered label set, and a value in millionths.
pub struct MetricSample {
    pub name: String,
    pub help: String,
    pub labels: Vec<(String, String)>,
    pub value_micros: i128,
}

impl MetricSample {
    /// The value of the gauge, in millionths.
    pub fn get(&self) -> (v: i128)
        ensures
            v == self.value_micros,
    {
        self.value_micros
    }
}

/// The metric instances assembled for one scrape, in emission order.
pub struct Registry {
    pub samples: Vec<MetricSample>,
}

impl Registry {
    /// How many metric instances the registry holds.
    pub fn len(&self) -> (n: usize)
        ensures
            n == self.samples@.len(),
    {
        self.samples.len()
    }
}

/// The auxiliary draws that the gaussian and chi-squared samplers consume,
/// in millionths. They are drawn outside this library (they come from
/// floating-point samplers) and are handed in per request.
pub struct AuxDraws {
    pub gauss_micros: Vec<i64>,
    pub chi_micros: Vec<u64>,
}

/// A metric name under the configured namespace: the prefix, an underscore,
/// and the base name.
pub open spec fn prefixed(prefix: Seq<char>, name: Seq<char>) -> Seq<char> {
    prefix + "_"@ + name
}

/// The fixed shape of one metric instance: its full name, help text, and
/// label keys and values.
pub open spec fn sample_shape(
    m: MetricSample,
    name: Seq<char>,
    help: Seq<char>,
    labels: Seq<(Seq<char>, Seq<char>)>,
) -> bool {
    &&& m.name@ == name
    &&& m.help@ == help
    &&& m.labels@.len() == labels.len()
    &&& forall|j: int|
        0 <= j < labels.len() ==> (#[trigger] m.labels@[j]).0@ == labels[j].0 && m.labels@[j].1@
            == labels[j].1
}

pub open spec fn gauss_labels(args: CmdArgs, i: int) -> Seq<(Seq<char>, Seq<char>)> {
    seq![
        ("mean"@, spec_int_str(args.mean_value as int)),
        ("deviation"@, spec_int_str(args.deviation_value as int)),
        ("element"@, spec_int_str(i)),
    ]
}

pub open spec fn uniform_labels(args: CmdArgs, i: int) -> Seq<(Seq<char>, Seq<char>)> {
    seq![
        ("min"@, spec_int_str(args.mean_value - args.deviation_value)),
        ("max"@, spec_int_str(args.mean_value + args.deviation_value)),
        ("element"@, spec_int_str(i)),
    ]
}

pub open spec fn chi_labels(args: CmdArgs, i: int) -> Seq<(Seq<char>, Seq<char>)> {
    seq![("expected"@, spec_int_str(args.mean_value as int)), ("element"@, spec_int_str(i))]
}

pub open spec fn binomial_labels(args: CmdArgs, i: int) -> Seq<(Seq<char>, Seq<char>)> {
    seq![
        ("trials"@, spec_int_str(args.mean_value as int)),
        ("probability"@, spec_micros_str(args.p_millionths as int)),
        ("element"@, spec_int_str(i)),
    ]
}

pub open spec fn gauss_item_spec(m: MetricSample, args: CmdArgs, i: int, value: int) -> bool {
    &&& sample_shape(
        m,
        prefixed(args.prefix@, "value_gaussian"@),
        "value of the requested distribution gaussian"@,
        gauss_labels(args, i),
    )
    &&& m.value_micros == value
}

pub open spec fn uniform_item_spec(m: MetricSample, args: CmdArgs, i: int, value: int) -> bool {
    &&& sample_shape(
        m,
        prefixed(args.prefix@, "value_uniform"@),
        "value of the requested distribution uniform"@,
        uniform_labels(args, i),
    )
    &&& m.value_micros == value
}

pub open spec fn chi_item_spec(m: MetricSample, args: CmdArgs, i: int, value: int) -> bool {
    &&& sample_shape(
        m,
        prefixed(args.prefix@, "value_chisquared"@),
        "value of the requested distribution chisquared"@,
        chi_labels(args, i),
    )
    &&& m.value_micros == value
}

pub open spec fn binomial_item_spec(m: MetricSample, args: CmdArgs, i: int, value: int) -> bool {
    &&& sample_shape(
        m,
        prefixed(args.prefix@, "value_binomial"@),
        "value of the requested distribution Binomial"@,
        binomial_labels(args, i),
    )
    &&& m.value_micros == value
}

pub open spec fn duration_item_spec(m: MetricSample, args: CmdArgs, value: int) -> bool {
    &&& sample_shape(
        m,
        prefixed(args.prefix@, "scrape_collector_duration_seconds"@),
        "time duration of scraping"@,
        Seq::empty(),
    )
    &&& m.value_micros == value
}

pub open spec fn timestamp_item_spec(m: MetricSample, args: CmdArgs, value: int) -> bool {
    &&& sample_shape(
        m,
        prefixed(args.prefix@, "scrape_timestamp_msec"@),
        "timestamp of scraping"@,
        Seq::empty(),
    )
    &&& m.value_micros == value
}

/// One sample of the registry, placed at element index `i` of its kind.
pub open spec fn wf_gauss_at(m: MetricSample, args: CmdArgs, i: int, aux: AuxDraws) -> bool {
    gauss_item_spec(m, args, i, aux.gauss_micros@[i] as int)
}

pub open spec fn wf_uniform_at(m: MetricSample, args: CmdArgs, i: int) -> bool {
    &&& uniform_item_spec(m, args, i, m.value_micros as int)
    &&& uniform_value_ok(m.value_micros as int, args)
}

pub open spec fn wf_chi_at(m: MetricSample, args: CmdArgs, i: int, aux: AuxDraws) -> bool {
    &&& chi_item_spec(m, args, i, chi_transform(args.mean_value as int, aux.chi_micros@[i] as int))
    &&& i128::MIN < m.value_micros < i128::MAX
}

pub open spec fn wf_binomial_at(m: MetricSample, args: CmdArgs, i: int) -> bool {
    &&& binomial_item_spec(m, args, i, m.value_micros as int)
    &&& binomial_value_ok(m.value_micros as int, args.mean_value as int)
}

pub open spec fn wf_duration_at(m: MetricSample, args: CmdArgs) -> bool {
    &&& duration_item_spec(m, args, m.value_micros as int)
    &&& 0 <= m.value_micros
}

pub open spec fn wf_timestamp_at(m: MetricSample, args: CmdArgs) -> bool {
    &&& timestamp_item_spec(m, args, m.value_micros as int)
    &&& 0 <= m.value_micros
    &&& m.value_micros % 1_000_000 == 0
}

/// How many distribution kinds one configured kind invokes.
pub open spec fn kind_count(k: DistKind) -> int {
    if k == DistKind::All {
        4
    } else {
        1
    }
}

/// Whether the configured parameters lie in the domain of every
/// distribution that the configured kind invokes.
pub open spec fn kind_params_ok(k: DistKind, args: CmdArgs) -> bool {
    match k {
        DistKind::Gaussian => args.deviation_value >= 0,
        DistKind::Uniform => args.deviation_value > 0,
        DistKind::Binomial => args.mean_value >= 0 && 0 <= args.p_millionths <= MICRO_UNIT,
        DistKind::ChiSquared => true,
        DistKind::All => args.deviation_value > 0 && args.mean_value >= 0 && 0
            <= args.p_millionths <= MICRO_UNIT,
    }
}

/// Whether building a registry for this configuration succeeds: the
/// distribution name must be recognized and the parameters valid for it.
pub open spec fn create_ok(args: CmdArgs) -> bool {
    match spec_kind_of(args.distribution@) {
        Some(k) => kind_params_ok(k, args),
        None => false,
    }
}

/// What the registry of one scrape looks like: one block of `elements`
/// samples per invoked distribution kind, in the fixed kind order, followed
/// by exactly the scrape-duration and scrape-timestamp metrics.
pub open spec fn reg_wf(samples: Seq<MetricSample>, args: CmdArgs, aux: AuxDraws) -> bool {
    match spec_kind_of(args.distribution@) {
        Some(k) => {
            let n = args.elements as int;
            &&& samples.len() == kind_count(k) * n + 2
            &&& (match k {
                DistKind::Gaussian => forall|i: int|
                    0 <= i < n ==> wf_gauss_at(#[trigger] samples[i], args, i, aux),
                DistKind::Uniform => forall|i: int|
                    0 <= i < n ==> wf_uniform_at(#[trigger] samples[i], args, i),
                DistKind::ChiSquared => forall|i: int|
                    0 <= i < n ==> wf_chi_at(#[trigger] samples[i], args, i, aux),
                DistKind::Binomial => forall|i: int|
                    0 <= i < n ==> wf_binomial_at(#[trigger] samples[i], args, i),
                DistKind::All => {
                    &&& (forall|i: int|
                        0 <= i < n ==> wf_gauss_at(#[trigger] samples[i], args, i, aux))
                    &&& (forall|i: int|
                        n <= i < 2 * n ==> wf_uniform_at(#[trigger] samples[i], args, i - n))
                    &&& (forall|i: int|
                        2 * n <= i < 3 * n ==> wf_chi_at(
                            #[trigger] samples[i],
                            args,
                            i - 2 * n,
                            aux,
                        ))
                    &&& (forall|i: int|
                        3 * n <= i < 4 * n ==> wf_binomial_at(
                            #[trigger] samples[i],
                            args,
                            i - 3 * n,
                        ))
                },
            })
            &&& wf_duration_at(samples[samples.len() - 2], args)
            &&& wf_timestamp_at(samples[samples.len() - 1], args)
            &&& forall|j: int|
                0 <= j < samples.len() ==> i128::MIN < (#[trigger] samples[j]).value_micros
        },
        None => false,
    }
}

/// Law: a well-formed registry holds one metric instance per element for
/// each distribution kind the configuration invokes, plus exactly the two
/// scrape-metadata metrics; for the `all` kind that count is
/// `4 * elements + 2`.
pub proof fn lemma_registry_count(samples: Seq<MetricSample>, args: CmdArgs, aux: AuxDraws)
    requires
        reg_wf(samples, args, aux),
    ensures
        samples.len() == kind_count(spec_kind_of(args.distribution@)->Some_0) * args.elements + 2,
        spec_kind_of(args.distribution@) == Some(DistKind::All) ==> samples.len() == 4
            * args.elements + 2,
{
}

/// The full metric name for a base name under the configured prefix.
fn prefixed_name(prefix: &String, name: &str) -> (r: String)
    ensures
        r@ == prefixed(prefix@, name@),
{
    let mut r = prefix.clone();
    r.append("_");
    r.append(name);
    r
}

/// The gauge for one gaussian sample, labeled with the mean, the deviation
/// and the element index.
pub fn metric_item_gauss(number: i128, i: usize, args: &CmdArgs) -> (m: MetricSample)
    ensures
        gauss_item_spec(m, *args, i as int, number as int),
{
    let name = prefixed_name(&args.prefix, "value_gaussian");
    let help = String::from_str("value of the requested distribution gaussian");
    let mut labels: Vec<(String, String)> = Vec::new();
    labels.push((String::from_str("mean"), int_str(args.mean_value as i128)));
    labels.push((String::from_str("deviation"), int_str(args.deviation_value as i128)));
    labels.push((String::from_str("element"), int_str(i as i128)));
    MetricSample { name, help, labels, value_micros: number }
}

/// The gauge for one uniform sample, labeled with the interval ends and the
/// element index.
pub fn metric_item_uniform(number: i128, i: usize, args: &CmdArgs) -> (m: MetricSample)
    ensures
        uniform_item_spec(m, *args, i as int, number as int),
{
    let name = prefixed_name(&args.prefix, "value_uniform");
    let help = String::from_str("value of the requested distribution uniform");
    let min_v: i64 = args.mean_value as i64 - args.deviation_value as i64;
    let max_v: i64 = args.mean_value as i64 + args.deviation_value as i64;
    let mut labels: Vec<(String, String)> = Vec::new();
    labels.push((String::from_str("min"), int_str(min_v as i128)));
    labels.push((String::from_str("max"), int_str(max_v as i128)));
    labels.push((String::from_str("element"), int_str(i as i128)));
    MetricSample { name, help, labels, value_micros: number }
}

/// The gauge for one chi-squared sample, labeled with the expected value and
/// the element index.
pub fn metric_item_chi(number: i128, i: usize, args: &CmdArgs) -> (m: MetricSample)
    ensures
        chi_item_spec(m, *args, i as int, number as int),
{
    let name = prefixed_name(&args.prefix, "value_chisquared");
    let help = String::from_str("value of the requested distribution chisquared");
    let mut labels: Vec<(String, String)> = Vec::new();
    labels.push((String::from_str("expected"), int_str(args.mean_value as i128)));
    labels.push((String::from_str("element"), int_str(i as i128)));
    MetricSample { name, help, labels, value_micros: number }
}

/// The gauge for one binomial sample, labeled with the trial count, the
/// probability and the element index.
pub fn metric_item_binomial(number: i128, i: usize, args: &CmdArgs) -> (m: MetricSample)
    ensures
        binomial_item_spec(m, *args, i as int, number as int),
{
    let name = prefixed_name(&args.prefix, "value_binomial");
    let help = String::from_str("value of the requested distribution Binomial");
    let mut labels: Vec<(String, String)> = Vec::new();
    labels.push((String::from_str("trials"), int_str(args.mean_value as i128)));
    labels.push((String::from_str("probability"), micros_str(args.p_millionths as i128)));
    labels.push((String::from_str("element"), int_str(i as i128)));
    MetricSample { name, help, labels, value_micros: number }
}

/// The scrape-duration metadata gauge; the duration is given in millionths
/// of a second, so it is the value directly.
pub fn metric_item_scrape_collector_duration(duration_micros: u64, args: &CmdArgs) -> (m:
    MetricSample)
    ensures
        duration_item_spec(m, *args, duration_micros as int),
{
    let name = prefixed_name(&args.prefix, "scrape_collector_duration_seconds");
    let help = String::from_str("time duration of scraping");
    let labels: Vec<(String, String)> = Vec::new();
    MetricSample { name, help, labels, value_micros: duration_micros as i128 }
}

/// The scrape-timestamp metadata gauge; the value counts epoch milliseconds.
pub fn metric_item_scrape_timestamp_msec(scrape_time_ms: u64, args: &CmdArgs) -> (m: MetricSample)
    ensures
        timestamp_item_spec(m, *args, scrape_time_ms as int * 1_000_000),
{
    let name = prefixed_name(&args.prefix, "scrape_timestamp_msec");
    let help = String::from_str("timestamp of scraping");
    let labels: Vec<(String, String)> = Vec::new();
    MetricSample { name, help, labels, value_micros: (scrape_time_ms as i128) * 1_000_000 }
}

/// Relies on std `SystemTime::now` and `duration_since(UNIX_EPOCH)`: the
/// clock's offset from the Unix epoch in microseconds, or zero when the
/// clock reads before the epoch. Nothing is assumed of the result.
#[verifier::external_body]
fn now_epoch_micros() -> u64 {
    match std::time::SystemTime::now().duration_since(std::time::UNIX_EPOCH) {
        Ok(d) => d.as_micros() as u64,
        Err(_) => 0,
    }
}

/// Relies on std `SystemTime::now` and `duration_since(UNIX_EPOCH)`: the
/// clock's offset from the Unix epoch in milliseconds, or zero when the
/// clock reads before the epoch. Nothing is assumed of the result.
#[verifier::external_body]
fn now_epoch_millis() -> u64 {
    match std::time::SystemTime::now().duration_since(std::time::UNIX_EPOCH) {
        Ok(d) => d.as_millis() as u64,
        Err(_) => 0,
    }
}

/// Checks the configured parameters against the domain of every distribution
/// the kind invokes.
fn check_params(k: DistKind, args: &CmdArgs) -> (b: bool)
    ensures
        b == kind_params_ok(k, *args),
{
    match k {
        DistKind::Gaussian => args.deviation_value >= 0,
        DistKind::Uniform => args.deviation_value > 0,
        DistKind::Binomial => args.mean_value >= 0 && 0 <= args.p_millionths
            && args.p_millionths <= MICRO_UNIT,
        DistKind::ChiSquared => true,
        DistKind::All => args.deviation_value > 0 && args.mean_value >= 0 && 0
            <= args.p_millionths && args.p_millionths <= MICRO_UNIT,
    }
}

fn gauss_block(args: &CmdArgs, aux: &AuxDraws) -> (b: Vec<MetricSample>)
    requires
        aux.gauss_micros@.len() == args.elements,
        args.deviation_value >= 0,
    ensures
        b@.len() == args.elements,
        forall|i: int| 0 <= i < b@.len() ==> wf_gauss_at(#[trigger] b@[i], *args, i, *aux),
{
    let vals = match gauss_number(args, &aux.gauss_micros) {
        Ok(v) => v,
        Err(_) => {
            proof {
                assert(false);
            }
            Vec::new()
        },
    };
    let mut b: Vec<MetricSample> = Vec::new();
    let n: usize = vals.len();
    for i in 0..n
        invariant
            n == vals@.len(),
            n == args.elements,
            aux.gauss_micros@.len() == args.elements,
            forall|j: int| 0 <= j < n ==> #[trigger] vals@[j] == aux.gauss_micros@[j] as int,
            b@.len() == i,
            forall|j: int| 0 <= j < i ==> wf_gauss_at(#[trigger] b@[j], *args, j, *aux),
    {
        b.push(metric_item_gauss(vals[i], i, args));
    }
    b
}

fn uniform_block(args: &CmdArgs) -> (b: Vec<MetricSample>)
    requires
        args.deviation_value > 0,
    ensures
        b@.len() == args.elements,
        forall|i: int| 0 <= i < b@.len() ==> wf_uniform_at(#[trigger] b@[i], *args, i),
{
    let vals = match uniform_number(args) {
        Ok(v) => v,
        Err(_) => {
            proof {
                assert(false);
            }
            Vec::new()
        },
    };
    let mut b: Vec<MetricSample> = Vec::new();
    let n: usize = vals.len();
    for i in 0..n
        invariant
            n == vals@.len(),
            n == args.elements,
            forall|j: int| 0 <= j < n ==> uniform_value_ok(#[trigger] vals@[j] as int, *args),
            b@.len() == i,
            forall|j: int| 0 <= j < i ==> wf_uniform_at(#[trigger] b@[j], *args, j),
    {
        b.push(metric_item_uniform(vals[i], i, args));
    }
    b
}

fn chi_block(args: &CmdArgs, aux: &AuxDraws) -> (b: Vec<MetricSample>)
    requires
        aux.chi_micros@.len() == args.elements,
    ensures
        b@.len() == args.elements,
        forall|i: int| 0 <= i < b@.len() ==> wf_chi_at(#[trigger] b@[i], *args, i, *aux),
{
    let vals = chi_number(args, &aux.chi_micros);
    let mut b: Vec<MetricSample> = Vec::new();
    let n: usize = vals.len();
    for i in 0..n
        invariant
            n == vals@.len(),
            n == args.elements,
            aux.chi_micros@.len() == args.elements,
            forall|j: int|
                0 <= j < n ==> #[trigger] vals@[j] == chi_transform(
                    args.mean_value as int,
                    aux.chi_micros@[j] as int,
                ),
            forall|j: int| 0 <= j < n ==> i128::MIN < #[trigger] vals@[j] < i128::MAX,
            b@.len() == i,
            forall|j: int| 0 <= j < i ==> wf_chi_at(#[trigger] b@[j], *args, j, *aux),
    {
        b.push(metric_item_chi(vals[i], i, args));
    }
    b
}

fn binomial_block(args: &CmdArgs) -> (b: Vec<MetricSample>)
    requires
        args.mean_value >= 0,
        0 <= args.p_millionths <= MICRO_UNIT,
    ensures
        b@.len() == args.elements,
        forall|i: int| 0 <= i < b@.len() ==> wf_binomial_at(#[trigger] b@[i], *args, i),
{
    let vals = match binomial_number(args) {
        Ok(v) => v,
        Err(_) => {
            proof {
                assert(false);
            }
            Vec::new()
        },
    };
    let mut b: Vec<MetricSample> = Vec::new();
    let n: usize = vals.len();
    for i in 0..n
        invariant
            n == vals@.len(),
            n == args.elements,
            forall|j: int|
                0 <= j < n ==> binomial_value_ok(#[trigger] vals@[j] as int, args.mean_value as int),
            b@.len() == i,
            forall|j: int| 0 <= j < i ==> wf_binomial_at(#[trigger] b@[j], *args, j),
    {
        b.push(metric_item_binomial(vals[i], i, args));
    }
    b
}

/// Builds the registry for one scrape: samples every distribution the
/// configured kind invokes, one labeled gauge per element, then appends the
/// scrape-duration and scrape-timestamp metrics.
///
/// An unrecognized distribution name and parameters outside a sampler's
/// domain are reported as errors before any draw, never a fault.
pub fn create_metrics(args: &CmdArgs, aux: &AuxDraws) -> (r: Result<Registry, ExporterError>)
    requires
        aux.gauss_micros@.len() == args.elements,
        aux.chi_micros@.len() == args.elements,
    ensures
        r is Ok <==> create_ok(*args),
        r == Err::<Registry, ExporterError>(ExporterError::UnsupportedDistribution) <==> spec_kind_of(
            args.distribution@,
        ) is None,
        (spec_kind_of(args.distribution@) matches Some(k) && !kind_params_ok(k, *args)) ==> r
            == Err::<Registry, ExporterError>(ExporterError::InvalidParameter),
        r matches Ok(reg) ==> reg_wf(reg.samples@, *args, *aux),
{
    let start_micros: u64 = now_epoch_micros();
    let kind = match kind_of(&args.distribution) {
        Some(k) => k,
        None => {
            return Err(ExporterError::UnsupportedDistribution);
        },
    };
    if !check_params(kind, args) {
        return Err(ExporterError::InvalidParameter);
    }
    let mut samples: Vec<MetricSample> = Vec::new();
    match kind {
        DistKind::All => {
            let mut b1 = gauss_block(args, aux);
            samples.append(&mut b1);
            let mut b2 = uniform_block(args);
            samples.append(&mut b2);
            let mut b3 = chi_block(args, aux);
            samples.append(&mut b3);
            let mut b4 = binomial_block(args);
            samples.append(&mut b4);
        },
        DistKind::Gaussian => {
            let mut b = gauss_block(args, aux);
            samples.append(&mut b);
        },
        DistKind::Uniform => {
            let mut b = uniform_block(args);
            samples.append(&mut b);
        },
        DistKind::ChiSquared => {
            let mut b = chi_block(args, aux);
            samples.append(&mut b);
        },
        DistKind::Binomial => {
            let mut b = binomial_block(args);
            samples.append(&mut b);
        },
    }
    let end_micros: u64 = now_epoch_micros();
    let duration: u64 = if end_micros >= start_micros {
        end_micros - start_micros
    } else {
        0
    };
    samples.push(metric_item_scrape_collector_duration(duration, args));
    let ts: u64 = now_epoch_millis();
    samples.push(metric_item_scrape_timestamp_msec(ts, args));
    Ok(Registry { samples })
}

} // verus!
