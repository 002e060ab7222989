use prometheus::proto::{Metric, MetricFamily};
use service_sdk::MetricsMiddleware;

/// A collector whose only family has a metric and no name.
struct Nameless;

impl prometheus::core::Collector for Nameless {
    fn desc(&self) -> Vec<&prometheus::core::Desc> {
        Vec::new()
    }

    fn collect(&self) -> Vec<MetricFamily> {
        let mut family = MetricFamily::default();
        family.mut_metric().push(Metric::default());
        vec![family]
    }
}

#[test]
fn a_report_that_the_encoder_refuses_is_answered_with_502() {
    prometheus::register(Box::new(Nameless)).unwrap();
    match MetricsMiddleware::new().handle_request("/metrics") {
        Some(Err(fail)) => {
            assert_eq!(fail.output.status_code, 502);
            assert!(!fail.write_telemetry);
            assert!(!fail.write_to_log);
            assert!(fail.output.content.starts_with("Error: MetricFamily has no name"));
        }
        other => panic!("the encoder accepted a family without a name: {other:?}"),
    }
}
