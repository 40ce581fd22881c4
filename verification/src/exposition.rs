//! The trusted boundary to the `prometheus` and `opentelemetry-prometheus`
//! crates: the registry, its gathered snapshots, the text encoder and the
//! exporter installation. Everything else in the crate is verified against
//! the contracts stated here.

use vstd::prelude::*;

verus! {

/// The in-process collection of registered instruments (`prometheus::Registry`).
#[verifier::external_type_specification]
#[verifier::external_body]
pub struct ExRegistry(prometheus::Registry);

/// One gathered metric family (`prometheus::proto::MetricFamily`).
#[verifier::external_type_specification]
#[verifier::external_body]
pub struct ExMetricFamily(prometheus::proto::MetricFamily);

/// The error the `prometheus` crate reports (`prometheus::Error`).
#[verifier::external_type_specification]
#[verifier::external_body]
pub struct ExPromError(prometheus::Error);

/// The error the exporter builder reports
/// (`opentelemetry_sdk::error::OTelSdkError`).
#[verifier::external_type_specification]
#[verifier::external_body]
pub struct ExOTelSdkError(opentelemetry_sdk::error::OTelSdkError);

/// The installed exporter (`opentelemetry_prometheus::PrometheusExporter`);
/// it bridges an OpenTelemetry meter provider into the registry.
#[verifier::external_type_specification]
#[verifier::external_body]
pub struct ExPrometheusExporter(opentelemetry_prometheus::PrometheusExporter);

/// The text exposition of a snapshot. The exact text takes the whole
/// format convention to write out, but it is a function of the gathered
/// families alone; this name stands for it in every contract.
pub uninterp spec fn text_encoding(families: Seq<prometheus::proto::MetricFamily>) -> Seq<char>;

/// Whether a family's type is the untyped one: what
/// `prometheus::proto::MetricFamily::get_field_type` answers, a function of
/// the family alone. The text encoder does not accept such a family.
pub uninterp spec fn is_untyped(family: prometheus::proto::MetricFamily) -> bool;

/// The family's name: what `prometheus::proto::MetricFamily::name` returns,
/// a function of the family alone.
pub uninterp spec fn family_name(family: prometheus::proto::MetricFamily) -> Seq<char>;

/// How many metrics the family holds: the length of what
/// `prometheus::proto::MetricFamily::get_metric` returns, a function of the
/// family alone.
pub uninterp spec fn family_metric_count(family: prometheus::proto::MetricFamily) -> int;

/// The content type the text encoder declares for its output.
pub open spec fn text_format() -> Seq<char> {
    "text/plain; version=0.0.4"@
}

/// When the text encoder accepts a snapshot: every family holds at least
/// one metric and a non-empty name.
pub open spec fn encodes_ok(families: Seq<prometheus::proto::MetricFamily>) -> bool {
    forall|i: int|
        0 <= i < families.len() ==> (#[trigger] family_metric_count(families[i]) > 0
            && family_name(families[i]).len() > 0)
}

/// Strict lexicographic order on names, character by character, a shorter
/// prefix first: the order `String` keys take in an ordered map.
pub open spec fn name_lt(a: Seq<char>, b: Seq<char>) -> bool
    decreases a.len(),
{
    if b.len() == 0 {
        false
    } else if a.len() == 0 {
        true
    } else if a[0] != b[0] {
        a[0] < b[0]
    } else {
        name_lt(a.skip(1), b.skip(1))
    }
}

/// Relies on `prometheus::Registry::new`: a fresh, empty registry.
#[verifier::external_body]
pub(crate) fn new_registry() -> prometheus::Registry {
    prometheus::Registry::new()
}

/// Relies on `opentelemetry_prometheus::exporter` with
/// `ExporterBuilder::with_registry` and `ExporterBuilder::build`: installs a
/// collector in the given registry and returns the exporter, or the error
/// when the registry refuses the collector (in particular when one is
/// already installed there).
#[verifier::external_body]
pub(crate) fn build_exporter(
    registry: &prometheus::Registry,
) -> Result<opentelemetry_prometheus::PrometheusExporter, opentelemetry_sdk::error::OTelSdkError> {
    opentelemetry_prometheus::exporter().with_registry(registry.clone()).build()
}

/// Relies on `prometheus::Registry::gather`: the current metric families,
/// merged into an ordered map keyed by family name, so they come back
/// strictly sorted by name, and families without metrics are pruned. Which
/// families there are depends on the instruments registered and their
/// values at the moment of the call.
#[verifier::external_body]
pub(crate) fn gather(registry: &prometheus::Registry) -> (r: Vec<prometheus::proto::MetricFamily>)
    ensures
        forall|i: int| 0 <= i < r@.len() ==> #[trigger] family_metric_count(r@[i]) > 0,
        forall|i: int, j: int|
            0 <= i < j < r@.len() ==> #[trigger] name_lt(family_name(r@[i]), family_name(r@[j])),
{
    registry.gather()
}

/// Relies on `prometheus::TextEncoder::encode_to_string`: writes the text
/// exposition of the given families, a function of the families alone. It
/// succeeds exactly when every family holds a metric and a name (so on no
/// families it writes nothing and succeeds), and it does not accept an
/// untyped family at all.
#[verifier::external_body]
pub(crate) fn encode_text(families: &Vec<prometheus::proto::MetricFamily>) -> (r: Result<String, prometheus::Error>)
    requires
        forall|i: int| 0 <= i < families@.len() ==> !is_untyped(#[trigger] families@[i]),
    ensures
        r matches Ok(text) ==> text@ == text_encoding(families@),
        r matches Ok(text) ==> (families@.len() == 0 ==> text@.len() == 0),
        r is Ok <==> encodes_ok(families@),
{
    prometheus::TextEncoder.encode_to_string(families.as_slice())
}

/// Relies on `prometheus::proto::MetricFamily::get_field_type`: whether
/// this family's type is the untyped one.
#[verifier::external_body]
pub(crate) fn family_is_untyped(family: &prometheus::proto::MetricFamily) -> (r: bool)
    ensures
        r == is_untyped(*family),
{
    family.get_field_type() == prometheus::proto::MetricType::UNTYPED
}

/// Relies on `prometheus::Encoder::format_type` of `TextEncoder`: it returns
/// the constant `prometheus::TEXT_FORMAT`, `"text/plain; version=0.0.4"`.
#[verifier::external_body]
pub(crate) fn format_type() -> (r: String)
    ensures
        r@ == text_format(),
{
    prometheus::Encoder::format_type(&prometheus::TextEncoder).to_owned()
}

/// Relies on `<str as PartialEq>::eq`: true exactly when the two strings
/// hold the same characters.
#[verifier::external_body]
pub(crate) fn str_eq(a: &str, b: &str) -> (r: bool)
    ensures
        r == (a@ == b@),
{
    a == b
}

} // verus!
