use service_sdk::sdk_metrics::http_metrics_middleware::find_without_text_format;
use service_sdk::sdk_metrics::http_metrics_tech_middleware::duration_since;
use service_sdk::{
    render_families, report_response, DateTimeAsMicroseconds, GatheredFamily, HttpFailResult,
    HttpOkResult, HttpOutput, HttpRequestData, Label, MetricKind, MetricSeries, MetricUpdate,
    MetricValue, MetricsMiddleware, MetricsTechMiddleware, ResponseData,
};

fn at(unix_microseconds: i64) -> DateTimeAsMicroseconds {
    DateTimeAsMicroseconds { unix_microseconds }
}

fn request(method: &str, path: &str, started: i64) -> HttpRequestData {
    HttpRequestData { method: method.to_string(), path: path.to_string(), started: at(started) }
}

fn label(name: &str, value: &str) -> Label {
    Label { name: name.to_string(), value: value.to_string() }
}

fn common(method: &str, path: &str) -> Vec<Label> {
    vec![label("method", method), label("path", path)]
}

fn failed(method: &str, path: &str, status: &str) -> Vec<Label> {
    vec![label("method", method), label("path", path), label("status_code", status)]
}

fn series(updates: &[MetricUpdate]) -> Vec<MetricSeries> {
    updates.iter().map(|update| update.series).collect()
}

#[test]
fn the_series_have_their_names() {
    assert_eq!(MetricSeries::RequestCount.name(), "http_request_count");
    assert_eq!(MetricSeries::RequestMillisDurationSum.name(), "http_request_milis_duration_sum");
    assert_eq!(MetricSeries::RequestDurationSec.name(), "http_request_duration_sec");
    assert_eq!(MetricSeries::FailedRequestCount.name(), "http_failed_request_count");
    assert_eq!(
        MetricSeries::FailedRequestMillisDurationSum.name(),
        "http_failed_request_milis_duration_sum"
    );
    assert_eq!(MetricSeries::FailedRequestDurationSec.name(), "http_failed_request_duration_sec");
}

#[test]
fn a_successful_request_goes_to_the_request_series() {
    let updates = MetricsTechMiddleware.got_result(
        &request("GET", "/ping", 1_000_000),
        &ResponseData { status_code: 200, has_error: false },
        at(1_012_345),
    );
    assert_eq!(
        updates,
        vec![
            MetricUpdate {
                series: MetricSeries::RequestDurationSec,
                labels: common("GET", "/ping"),
                value: MetricValue::RecordMicros(12_345),
            },
            MetricUpdate {
                series: MetricSeries::RequestMillisDurationSum,
                labels: common("GET", "/ping"),
                value: MetricValue::Increment(12),
            },
            MetricUpdate {
                series: MetricSeries::RequestCount,
                labels: common("GET", "/ping"),
                value: MetricValue::Increment(1),
            },
        ]
    );
}

#[test]
fn not_found_counts_as_a_request_and_never_as_a_failure() {
    for has_error in [true, false] {
        let updates = MetricsTechMiddleware.got_result(
            &request("GET", "/nowhere", 0),
            &ResponseData { status_code: 404, has_error },
            at(2_500),
        );
        assert_eq!(
            series(&updates),
            vec![
                MetricSeries::RequestDurationSec,
                MetricSeries::RequestMillisDurationSum,
                MetricSeries::RequestCount,
            ]
        );
        assert_eq!(updates[2].value, MetricValue::Increment(1));
        assert_eq!(updates[2].labels, common("GET", "/nowhere"));
    }
}

#[test]
fn a_failure_goes_to_the_failed_series_only() {
    let updates = MetricsTechMiddleware.got_result(
        &request("POST", "/orders", 10),
        &ResponseData { status_code: 500, has_error: true },
        at(3_010),
    );
    assert_eq!(
        updates,
        vec![
            MetricUpdate {
                series: MetricSeries::FailedRequestCount,
                labels: failed("POST", "/orders", "500"),
                value: MetricValue::Increment(1),
            },
            MetricUpdate {
                series: MetricSeries::FailedRequestMillisDurationSum,
                labels: failed("POST", "/orders", "500"),
                value: MetricValue::Increment(3),
            },
            MetricUpdate {
                series: MetricSeries::FailedRequestDurationSec,
                labels: failed("POST", "/orders", "500"),
                value: MetricValue::RecordMicros(3_000),
            },
        ]
    );
}

#[test]
fn the_status_code_label_is_the_code() {
    for code in [400u16, 401, 403, 405, 502, 503, 599, 65535, 0] {
        let updates = MetricsTechMiddleware.got_result(
            &request("PUT", "/x", 0),
            &ResponseData { status_code: code, has_error: true },
            at(0),
        );
        assert_eq!(updates.len(), 3);
        for update in &updates {
            assert_eq!(update.labels[2], label("status_code", &code.to_string()));
        }
        assert_eq!(updates[0].series, MetricSeries::FailedRequestCount);
        assert_eq!(updates[0].value, MetricValue::Increment(1));
    }
}

#[test]
fn a_status_of_500_without_a_failure_counts_as_a_request() {
    let updates = MetricsTechMiddleware.got_result(
        &request("GET", "/x", 0),
        &ResponseData { status_code: 500, has_error: false },
        at(1),
    );
    assert_eq!(updates[2].series, MetricSeries::RequestCount);
}

#[test]
fn a_clock_that_went_back_gives_no_duration() {
    assert_eq!(duration_since(at(5), at(9)), 0);
    assert_eq!(duration_since(at(9), at(9)), 0);
    assert_eq!(duration_since(at(9), at(5)), 4);
    let updates = MetricsTechMiddleware.got_result(
        &request("GET", "/x", 9_000),
        &ResponseData { status_code: 200, has_error: false },
        at(1_000),
    );
    assert_eq!(updates[0].value, MetricValue::RecordMicros(0));
    assert_eq!(updates[1].value, MetricValue::Increment(0));
}

#[test]
fn the_longest_duration_fits() {
    assert_eq!(duration_since(at(i64::MAX), at(i64::MIN)), u64::MAX);
    assert_eq!(duration_since(at(i64::MIN), at(i64::MAX)), 0);
    assert_eq!(duration_since(at(0), at(i64::MIN)), 1u64 << 63);
}

#[test]
fn milliseconds_are_rounded_down() {
    let updates = MetricsTechMiddleware.got_result(
        &request("GET", "/x", 0),
        &ResponseData { status_code: 200, has_error: false },
        at(1_999),
    );
    assert_eq!(updates[1].value, MetricValue::Increment(1));
    assert_eq!(updates[0].value, MetricValue::RecordMicros(1_999));
}

#[test]
fn a_rendered_report_is_served_with_status_200() {
    assert_eq!(
        report_response(Ok("# HELP up\nup 1\n".to_string())),
        Ok(HttpOkResult {
            write_telemetry: false,
            output: HttpOutput { status_code: 200, content: "# HELP up\nup 1\n".to_string() },
        })
    );
}

#[test]
fn a_report_that_could_not_be_rendered_is_a_502() {
    assert_eq!(
        report_response(Err("broken".to_string())),
        Err(HttpFailResult {
            write_telemetry: false,
            write_to_log: false,
            output: HttpOutput { status_code: 502, content: "broken".to_string() },
        })
    );
}

#[test]
fn only_the_metrics_path_is_answered() {
    let middleware = MetricsMiddleware::new();
    assert_eq!(middleware.handle_request("/"), None);
    assert_eq!(middleware.handle_request("/metric"), None);
    assert_eq!(middleware.handle_request("/metrics/"), None);
    assert_eq!(middleware.handle_request("/Metrics"), None);
    assert_eq!(middleware.handle_request("metrics"), None);
    assert!(middleware.handle_request("/metrics").is_some());
}

#[test]
fn the_report_holds_what_the_default_registry_holds() {
    let counter = prometheus::Counter::new("orders_shipped_total", "orders shipped").unwrap();
    prometheus::register(Box::new(counter.clone())).unwrap();
    counter.inc_by(3.0);
    match MetricsMiddleware::new().handle_request("/metrics") {
        Some(Ok(ok)) => {
            assert_eq!(ok.output.status_code, 200);
            assert!(!ok.write_telemetry);
            assert!(ok.output.content.contains("# HELP orders_shipped_total orders shipped"));
            assert!(ok.output.content.contains("orders_shipped_total 3"));
        }
        other => panic!("no report: {other:?}"),
    }
}

#[test]
fn output_builders_keep_the_body() {
    let output = HttpOutput::as_text("body".to_string());
    assert_eq!(output, HttpOutput { status_code: 200, content: "body".to_string() });
    let other = output.set_status_code(418);
    assert_eq!(other, HttpOutput { status_code: 418, content: "body".to_string() });
    let fail = other.into_fail_result(true, false);
    assert!(fail.write_telemetry);
    assert!(!fail.write_to_log);
    assert_eq!(fail.output.status_code, 418);
}

#[test]
fn a_bare_status_is_a_failure_outside_the_2xx_codes() {
    for (status_code, has_error) in
        [(0, true), (199, true), (200, false), (204, false), (299, false), (300, true), (404, true)]
    {
        assert_eq!(ResponseData::from_status(status_code), ResponseData { status_code, has_error });
    }
}

fn counter_sample(value: u32) -> prometheus::proto::Metric {
    let mut counter = prometheus::proto::Counter::default();
    counter.set_value(value.into());
    let mut sample = prometheus::proto::Metric::default();
    sample.set_counter(counter);
    sample
}

fn family(name: &str, kind: MetricKind) -> GatheredFamily {
    GatheredFamily {
        name: name.to_string(),
        help: "what it measures".to_string(),
        kind,
        samples: vec![counter_sample(7)],
    }
}

#[test]
fn families_with_a_text_format_are_rendered_by_the_encoder() {
    let families =
        vec![family("jobs_done", MetricKind::Counter), family("jobs", MetricKind::Gauge)];
    assert_eq!(find_without_text_format(&families), None);
    let report = render_families(&families).unwrap();
    assert_eq!(
        report,
        "# HELP jobs_done what it measures\n# TYPE jobs_done counter\njobs_done 7\n\
         # HELP jobs what it measures\n# TYPE jobs gauge\njobs 0\n"
    );
}

#[test]
fn no_family_gives_an_empty_report() {
    assert_eq!(render_families(&Vec::new()), Ok(String::new()));
}

#[test]
fn an_untyped_family_is_named_as_the_reason() {
    let families = vec![
        family("jobs_done", MetricKind::Counter),
        family("legacy", MetricKind::Untyped),
        family("older", MetricKind::Untyped),
    ];
    assert_eq!(find_without_text_format(&families), Some(1));
    assert_eq!(
        render_families(&families),
        Err("no text format for the untyped metric family legacy".to_string())
    );
}

#[test]
fn an_untyped_family_without_a_name_is_a_reason_too() {
    let families = vec![family("", MetricKind::Untyped)];
    assert_eq!(
        render_families(&families),
        Err("no text format for the untyped metric family ".to_string())
    );
}

#[test]
fn the_encoder_refuses_a_family_without_samples() {
    let mut empty = family("jobs_done", MetricKind::Histogram);
    empty.samples.clear();
    let reason = render_families(&vec![empty]).unwrap_err();
    assert!(reason.starts_with("Error: MetricFamily has no metrics"));
}

#[test]
fn every_kind_reaches_the_encoder_under_its_own_type() {
    for (kind, type_line) in [
        (MetricKind::Counter, "# TYPE m counter\n"),
        (MetricKind::Gauge, "# TYPE m gauge\n"),
        (MetricKind::Summary, "# TYPE m summary\n"),
        (MetricKind::Histogram, "# TYPE m histogram\n"),
    ] {
        let report = render_families(&vec![family("m", kind)]).unwrap();
        assert!(report.contains(type_line), "{report}");
    }
}

#[test]
fn the_encoder_refuses_a_family_without_a_name() {
    let reason = render_families(&vec![family("", MetricKind::Gauge)]).unwrap_err();
    assert!(reason.starts_with("Error: MetricFamily has no name"));
}

#[test]
fn the_encoder_accepts_exactly_the_complete_families() {
    for name in ["", "jobs"] {
        for samples in [0usize, 1, 2] {
            let mut one = family(name, MetricKind::Summary);
            one.samples = (0..samples).map(|_| counter_sample(1)).collect();
            let complete = !name.is_empty() && samples > 0;
            let families = vec![family("first", MetricKind::Counter), one];
            assert_eq!(render_families(&families).is_ok(), complete, "{name:?} {samples}");
        }
    }
}

#[test]
fn the_same_families_are_rendered_to_the_same_text() {
    let again = || vec![family("a", MetricKind::Counter), family("b", MetricKind::Histogram)];
    assert_eq!(render_families(&again()), render_families(&again()));
}

#[test]
fn the_answer_carries_the_rendering_of_the_families() {
    let middleware = MetricsMiddleware::new();
    let typed = vec![family("jobs_done", MetricKind::Counter)];
    assert_eq!(
        middleware.report(&typed),
        Ok(HttpOkResult {
            write_telemetry: false,
            output: HttpOutput {
                status_code: 200,
                content: "# HELP jobs_done what it measures\n# TYPE jobs_done counter\n\
                          jobs_done 7\n"
                    .to_string(),
            },
        })
    );
    let untyped = vec![family("legacy", MetricKind::Untyped)];
    assert_eq!(
        middleware.report(&untyped),
        Err(HttpFailResult {
            write_telemetry: false,
            write_to_log: false,
            output: HttpOutput {
                status_code: 502,
                content: "no text format for the untyped metric family legacy".to_string(),
            },
        })
    );
}
