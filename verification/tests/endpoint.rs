use prometheus::proto::{Metric, MetricFamily, MetricType};

use metrics_endpoint::errors::MetricsError;
use metrics_endpoint::handler::{drop_untyped, handle_request, metrics_response, route_matches};
use metrics_endpoint::state::MetricsState;

fn untyped_family(name: &str) -> MetricFamily {
    let mut family = MetricFamily::default();
    family.set_name(name.to_string());
    family.set_field_type(MetricType::UNTYPED);
    family.set_metric(vec![Metric::default()]);
    family
}

struct UntypedProducer {
    desc: prometheus::core::Desc,
}

impl prometheus::core::Collector for UntypedProducer {
    fn desc(&self) -> Vec<&prometheus::core::Desc> {
        vec![&self.desc]
    }

    fn collect(&self) -> Vec<MetricFamily> {
        vec![untyped_family("odd_family")]
    }
}

fn counter_state() -> MetricsState {
    let registry = prometheus::Registry::new();
    let counter = prometheus::IntCounter::new("requests_total", "total requests").unwrap();
    registry.register(Box::new(counter.clone())).unwrap();
    counter.inc();
    MetricsState::install(registry.clone()).unwrap()
}

#[test]
fn it_works() {
    let result: i32 = 2 + 2;
    assert_eq!(result, 4);
}

#[test]
fn metrics_route_serves_exposition() {
    let state = counter_state();
    let r = handle_request("GET", "/metrics", &state);
    assert_eq!(r.status, 200);
    assert_eq!(r.content_type, Some("text/plain; version=0.0.4".to_string()));
    assert_eq!(
        r.body,
        "# HELP requests_total total requests\n\
         # TYPE requests_total counter\n\
         requests_total 1\n"
    );
}

#[test]
fn content_type_is_the_encoders_declared_format() {
    let state = counter_state();
    let r = handle_request("GET", "/metrics", &state);
    assert_eq!(r.content_type.as_deref(), Some(prometheus::TEXT_FORMAT));
}

#[test]
fn wrong_method_is_not_found() {
    let state = counter_state();
    let r = handle_request("POST", "/metrics", &state);
    assert_eq!(r.status, 404);
    assert_eq!(r.content_type, None);
    assert_eq!(r.body, "Not Found");
}

#[test]
fn wrong_path_is_not_found() {
    let state = counter_state();
    let r = handle_request("GET", "/other", &state);
    assert_eq!(r.status, 404);
    assert_eq!(r.body, "Not Found");
    let r = handle_request("GET", "/", &state);
    assert_eq!(r.status, 404);
    let r = handle_request("PUT", "/metrics/", &state);
    assert_eq!(r.status, 404);
}

#[test]
fn route_matches_only_get_metrics() {
    assert!(route_matches("GET", "/metrics"));
    assert!(!route_matches("POST", "/metrics"));
    assert!(!route_matches("GET", "/"));
    assert!(!route_matches("get", "/metrics"));
}

#[test]
fn empty_registry_yields_zero_families() {
    // A fresh registry gathers no families, and the exposition of no
    // families is the empty text: a decoder finds zero families in it.
    let state = MetricsState::initialize().unwrap();
    let r = handle_request("GET", "/metrics", &state);
    assert_eq!(r.status, 200);
    assert!(r.body.is_empty());
    assert_eq!(prometheus::Registry::new().gather().len(), 0);
}

#[test]
fn repeated_requests_give_identical_bodies() {
    let state = counter_state();
    let first = handle_request("GET", "/metrics", &state);
    let second = handle_request("GET", "/metrics", &state);
    assert_eq!(first.status, 200);
    assert_eq!(second.status, 200);
    assert_eq!(first.body.as_bytes(), second.body.as_bytes());
}

#[test]
fn many_requests_all_succeed() {
    let state = counter_state();
    let mut i: usize = 0;
    while i < 50 {
        let r = handle_request("GET", "/metrics", &state);
        assert_eq!(r.status, 200);
        i += 1;
    }
}

#[test]
fn double_install_reports_initialization_error() {
    let registry = prometheus::Registry::new();
    let first = MetricsState::install(registry.clone());
    assert!(first.is_ok());
    let second = MetricsState::install(registry.clone());
    assert!(matches!(second, Err(MetricsError::Initialization)));
}

#[test]
fn untyped_families_are_dropped_not_served() {
    // A host-registered collector may hand back a family of the untyped
    // type, which the text encoder refuses; the endpoint serves the rest.
    let registry = prometheus::Registry::new();
    let desc = prometheus::core::Desc::new(
        "odd_family".to_string(),
        "a family the text format cannot carry".to_string(),
        Vec::new(),
        std::collections::HashMap::new(),
    )
    .unwrap();
    registry.register(Box::new(UntypedProducer { desc })).unwrap();
    let counter = prometheus::IntCounter::new("requests_total", "total requests").unwrap();
    registry.register(Box::new(counter.clone())).unwrap();
    counter.inc();
    let state = MetricsState::install(registry.clone()).unwrap();
    let r = handle_request("GET", "/metrics", &state);
    assert_eq!(r.status, 200);
    assert_eq!(
        r.body,
        "# HELP requests_total total requests\n\
         # TYPE requests_total counter\n\
         requests_total 1\n"
    );
}

#[test]
fn drop_untyped_keeps_the_rest_in_order() {
    let mut counter_family = MetricFamily::default();
    counter_family.set_name("kept_total".to_string());
    counter_family.set_field_type(MetricType::COUNTER);
    counter_family.set_metric(vec![Metric::default()]);

    let families = vec![
        untyped_family("first_odd"),
        counter_family.clone(),
        untyped_family("second_odd"),
    ];
    let kept = drop_untyped(families);
    assert_eq!(kept.len(), 1);
    assert_eq!(kept[0], counter_family);
}

#[test]
fn families_are_served_in_name_order() {
    let registry = prometheus::Registry::new();
    let late = prometheus::IntCounter::new("zz_total", "last by name").unwrap();
    let early = prometheus::IntCounter::new("aa_total", "first by name").unwrap();
    registry.register(Box::new(late.clone())).unwrap();
    registry.register(Box::new(early.clone())).unwrap();
    early.inc();
    late.inc();
    let state = MetricsState::install(registry.clone()).unwrap();
    let r = handle_request("GET", "/metrics", &state);
    assert_eq!(r.status, 200);
    let first = r.body.find("aa_total").unwrap();
    let second = r.body.find("zz_total").unwrap();
    assert!(first < second);
}

#[test]
fn encoder_failure_becomes_internal_error() {
    let r = metrics_response(Err(prometheus::Error::Msg("boom".to_string())));
    assert_eq!(r.status, 500);
    assert_eq!(r.content_type, None);
    assert_eq!(r.body, "Internal Server Error");
}

#[test]
fn successful_encoding_is_passed_through() {
    let r = metrics_response(Ok("sample 1\n".to_string()));
    assert_eq!(r.status, 200);
    assert_eq!(r.body, "sample 1\n");
    assert_eq!(r.content_type.as_deref(), Some("text/plain; version=0.0.4"));
}

#[test]
fn error_messages_name_the_failure() {
    assert_eq!(
        MetricsError::Initialization.message(),
        "metrics exporter initialization failed"
    );
    assert_eq!(MetricsError::Bind.message(), "could not bind the metrics listener");
    assert_eq!(MetricsError::Encoding.message(), "metrics snapshot could not be encoded");
}
