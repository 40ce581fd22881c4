//! The server's shared state: the registry every request reads, together
//! with the exporter installed in it.

use vstd::prelude::*;
use crate::errors::MetricsError;
use crate::exposition::{
    build_exporter, family_metric_count, family_name, gather, name_lt, new_registry,
};

verus! {

/// What every request handler shares, read-only: the registry, and the
/// exporter that feeds it. It is created once, before the listener starts.
pub struct MetricsState {
    registry: prometheus::Registry,
    exporter: opentelemetry_prometheus::PrometheusExporter,
}

impl MetricsState {
    /// The state holds exactly this registry, with this exporter beside it.
    pub closed spec fn wraps(
        self,
        registry: prometheus::Registry,
        exporter: opentelemetry_prometheus::PrometheusExporter,
    ) -> bool {
        self.registry == registry && self.exporter == exporter
    }

    /// The state serves exactly this registry: every snapshot it gathers
    /// is read from it.
    pub open spec fn serves(self, registry: prometheus::Registry) -> bool {
        exists|exporter: opentelemetry_prometheus::PrometheusExporter|
            self.wraps(registry, exporter)
    }

    /// Turns the outcome of installing the exporter into the server state.
    ///
    /// Law: a failed installation is reported, never swallowed — the state
    /// exists exactly when the installation succeeded, it is the state over
    /// the given registry and exporter, and every failure becomes the
    /// initialization error.
    pub fn from_build(
        registry: prometheus::Registry,
        built: Result<opentelemetry_prometheus::PrometheusExporter, opentelemetry_sdk::error::OTelSdkError>,
    ) -> (r: Result<MetricsState, MetricsError>)
        ensures
            r is Ok <==> built is Ok,
            built matches Ok(exporter) ==> (r matches Ok(s) && s.wraps(registry, exporter)),
            built is Err ==> (r matches Err(e) && e == MetricsError::Initialization),
    {
        match built {
            Ok(exporter) => Ok(MetricsState { registry, exporter }),
            Err(_) => Err(MetricsError::Initialization),
        }
    }

    /// Installs the exporter in the given registry. The state comes back
    /// exactly when the installation succeeded, and then it serves that
    /// registry; in particular, a registry that already holds an exporter's
    /// collector yields the initialization error, not a silently empty
    /// endpoint.
    pub fn install(registry: prometheus::Registry) -> (r: Result<MetricsState, MetricsError>)
        ensures
            r matches Ok(s) ==> s.serves(registry),
            r matches Err(e) ==> e == MetricsError::Initialization,
    {
        let built = build_exporter(&registry);
        Self::from_build(registry, built)
    }

    /// A state over a fresh, empty registry.
    pub fn initialize() -> (r: Result<MetricsState, MetricsError>)
        ensures
            r matches Err(e) ==> e == MetricsError::Initialization,
    {
        Self::install(new_registry())
    }

    /// The current snapshot of the registry this state serves: families
    /// that each hold at least one metric, strictly sorted by name.
    pub fn gather_families(&self) -> (r: Vec<prometheus::proto::MetricFamily>)
        ensures
            forall|i: int| 0 <= i < r@.len() ==> #[trigger] family_metric_count(r@[i]) > 0,
            forall|i: int, j: int|
                0 <= i < j < r@.len() ==> #[trigger] name_lt(
                    family_name(r@[i]),
                    family_name(r@[j]),
                ),
    {
        gather(&self.registry)
    }
}

} // verus!
