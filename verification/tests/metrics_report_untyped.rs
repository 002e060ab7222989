use prometheus::proto::{Metric, MetricFamily, MetricType};
use service_sdk::MetricsMiddleware;

/// A collector whose only family is untyped.
struct Legacy;

impl prometheus::core::Collector for Legacy {
    fn desc(&self) -> Vec<&prometheus::core::Desc> {
        Vec::new()
    }

    fn collect(&self) -> Vec<MetricFamily> {
        let mut family = MetricFamily::default();
        family.set_name("legacy_total".to_string());
        family.set_help("a family of no type".to_string());
        family.set_field_type(MetricType::UNTYPED);
        family.mut_metric().push(Metric::default());
        vec![family]
    }
}

#[test]
fn an_untyped_family_in_the_registry_is_answered_with_502() {
    prometheus::register(Box::new(Legacy)).unwrap();
    match MetricsMiddleware::new().handle_request("/metrics") {
        Some(Err(fail)) => {
            assert_eq!(fail.output.status_code, 502);
            assert!(!fail.write_telemetry);
            assert!(!fail.write_to_log);
            assert_eq!(
                fail.output.content,
                "no text format for the untyped metric family legacy_total"
            );
        }
        other => panic!("an untyped family was rendered: {other:?}"),
    }
}
