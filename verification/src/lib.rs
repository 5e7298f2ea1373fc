//! Synthetic statistical-metrics exporter: draws random samples from
//! configurable distributions, assembles them into a labeled metric registry,
//! and encodes the registry in the Prometheus text exposition format.
//!
//! Real values are represented throughout as integer millionths (fixed-point
//! with six decimal places), so that sampling, registry assembly and encoding
//! are exact integer arithmetic.

use vstd::prelude::*;

mod binomial;
mod chisquared;
mod exposition;
mod gauss;
mod http;
mod numbers;
mod prom_exporter;
mod uniform;
mod validate;

pub use prom_exporter::AuxDraws;
pub use prom_exporter::MetricSample;
pub use prom_exporter::Registry;
pub use prom_exporter::create_metrics;
pub use prom_exporter::create_ok;
pub use prom_exporter::kind_count;
pub use prom_exporter::lemma_registry_count;
pub use prom_exporter::kind_params_ok;
pub use prom_exporter::metric_item_binomial;
pub use prom_exporter::metric_item_chi;
pub use prom_exporter::metric_item_gauss;
pub use prom_exporter::metric_item_scrape_collector_duration;
pub use prom_exporter::metric_item_scrape_timestamp_msec;
pub use prom_exporter::metric_item_uniform;
pub use prom_exporter::reg_wf;
pub use exposition::encode_registry;
pub use exposition::spec_doc;
pub use http::get_metrics;
pub use http::handle_request;
pub use http::is_metrics_request;
pub use http::notfound_response;
pub use http::ok_response_prefix;
pub use http::spec_is_metrics_request;

pub use binomial::binomial_number;
pub use binomial::binomial_value_ok;
pub use chisquared::chi_number;
pub use chisquared::chi_transform;
pub use gauss::gauss_number;
pub use uniform::uniform_number;
pub use uniform::uniform_value_ok;
pub use numbers::int_str;
pub use numbers::micros_str;
pub use numbers::spec_dec;
pub use numbers::spec_int_str;
pub use numbers::spec_micros_str;
pub use validate::evaluate_args;
pub use validate::evaluate_binding_address;
pub use validate::evaluate_pvalue;
pub use validate::valid_ipv4;

verus! {

/// One million: the denominator of the fixed-point representation used for
/// all real-valued samples and probabilities.
pub const MICRO_UNIT: i64 = 1_000_000;

/// The immutable configuration of the exporter, fixed at startup.
///
/// The probability is held in millionths (`p_millionths == 500_000` means
/// one half), so that range checks and labels are exact.
pub struct CmdArgs {
    /// port the endpoint binds to
    pub port: u32,
    /// binding address, expected in IPv4 dotted-decimal notation
    pub binding_address: String,
    /// mean or expected value
    pub mean_value: i32,
    /// probability for the binomial distribution, in millionths
    pub p_millionths: i64,
    /// deviation, or half the width of the uniform interval
    pub deviation_value: i32,
    /// count of elements drawn per distribution kind
    pub elements: u32,
    /// name of the distribution: all, gaussian, uniform, binomial, chisquared
    pub distribution: String,
    /// namespace prepended to every metric name
    pub prefix: String,
    /// print the document to stdout once and exit instead of serving
    pub dry_run: bool,
}

/// A request-time failure: either the configured distribution name is not
/// recognized, or a parameter is outside the domain of the distribution it
/// is handed to.
#[derive(Clone, Copy, Debug, PartialEq, Eq, Structural)]
pub enum ExporterError {
    UnsupportedDistribution,
    InvalidParameter,
}

/// The distribution kinds the exporter recognizes, dispatched from the
/// configured distribution name.
#[derive(Clone, Copy, Debug, PartialEq, Eq, Structural)]
pub enum DistKind {
    Gaussian,
    Uniform,
    Binomial,
    ChiSquared,
    All,
}

/// The distribution kind a configured name stands for; dispatch is
/// case-sensitive, and any other name is unsupported.
pub open spec fn spec_kind_of(name: Seq<char>) -> Option<DistKind> {
    if name == "all"@ {
        Some(DistKind::All)
    } else if name == "gaussian"@ {
        Some(DistKind::Gaussian)
    } else if name == "uniform"@ {
        Some(DistKind::Uniform)
    } else if name == "binomial"@ {
        Some(DistKind::Binomial)
    } else if name == "chisquared"@ {
        Some(DistKind::ChiSquared)
    } else {
        None
    }
}

/// Resolves a distribution name to its kind.
pub fn kind_of(name: &String) -> (k: Option<DistKind>)
    ensures
        k == spec_kind_of(name@),
{
    if *name == String::from_str("all") {
        Some(DistKind::All)
    } else if *name == String::from_str("gaussian") {
        Some(DistKind::Gaussian)
    } else if *name == String::from_str("uniform") {
        Some(DistKind::Uniform)
    } else if *name == String::from_str("binomial") {
        Some(DistKind::Binomial)
    } else if *name == String::from_str("chisquared") {
        Some(DistKind::ChiSquared)
    } else {
        None
    }
}

impl ExporterError {
    /// A description of the failure, for logs and error responses.
    pub fn message(&self) -> (m: &'static str)
        ensures
            m@ == self.spec_message(),
    {
        match self {
            ExporterError::UnsupportedDistribution => "distribution is not supported",
            ExporterError::InvalidParameter => "invalid distribution parameter",
        }
    }

    pub open spec fn spec_message(self) -> Seq<char> {
        match self {
            ExporterError::UnsupportedDistribution => "distribution is not supported"@,
            ExporterError::InvalidParameter => "invalid distribution parameter"@,
        }
    }
}

} // verus!
