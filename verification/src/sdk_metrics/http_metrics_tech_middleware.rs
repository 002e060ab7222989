//! What a finished request adds to the metrics.
//!
//! The observer decides here which series a request goes to and with which
//! labels and values. Whoever owns the metrics sink applies the updates.

use crate::decimal::{decimal_text, u16_to_decimal};
use vstd::prelude::*;

verus! {

/// The six series of the HTTP metrics.
#[derive(Clone, Copy, Debug, PartialEq, Eq, Structural)]
pub enum MetricSeries {
    RequestCount,
    RequestMillisDurationSum,
    RequestDurationSec,
    FailedRequestCount,
    FailedRequestMillisDurationSum,
    FailedRequestDurationSec,
}

impl MetricSeries {
    /// The name of the series in the metrics sink.
    pub open spec fn name_text(self) -> Seq<char> {
        match self {
            MetricSeries::RequestCount => "http_request_count"@,
            MetricSeries::RequestMillisDurationSum => "http_request_milis_duration_sum"@,
            MetricSeries::RequestDurationSec => "http_request_duration_sec"@,
            MetricSeries::FailedRequestCount => "http_failed_request_count"@,
            MetricSeries::FailedRequestMillisDurationSum
                => "http_failed_request_milis_duration_sum"@,
            MetricSeries::FailedRequestDurationSec => "http_failed_request_duration_sec"@,
        }
    }

    /// True for the three series of failed requests.
    pub open spec fn is_failed(self) -> bool {
        self is FailedRequestCount || self is FailedRequestMillisDurationSum
            || self is FailedRequestDurationSec
    }

    /// The name of the series in the metrics sink.
    pub fn name(&self) -> (name: &'static str)
        ensures
            name@ == self.name_text(),
    {
        match self {
            MetricSeries::RequestCount => "http_request_count",
            MetricSeries::RequestMillisDurationSum => "http_request_milis_duration_sum",
            MetricSeries::RequestDurationSec => "http_request_duration_sec",
            MetricSeries::FailedRequestCount => "http_failed_request_count",
            MetricSeries::FailedRequestMillisDurationSum
                => "http_failed_request_milis_duration_sum",
            MetricSeries::FailedRequestDurationSec => "http_failed_request_duration_sec",
        }
    }
}

/// What an update does to its series.
#[derive(Clone, Copy, Debug, PartialEq, Eq, Structural)]
pub enum MetricValue {
    /// Adds to a counter.
    Increment(u64),
    /// Records a duration in a histogram of seconds. The duration is given
    /// in microseconds.
    RecordMicros(u64),
}

/// A label of a series: a name and a value.
#[derive(Debug, PartialEq, Eq)]
pub struct Label {
    pub name: String,
    pub value: String,
}

impl View for Label {
    type V = (Seq<char>, Seq<char>);

    open spec fn view(&self) -> (Seq<char>, Seq<char>) {
        (self.name@, self.value@)
    }
}

/// The labels as pairs of texts, in order.
pub open spec fn label_models(labels: Seq<Label>) -> Seq<(Seq<char>, Seq<char>)> {
    labels.map_values(|label: Label| label@)
}

/// One update of the metrics sink.
#[derive(Debug, PartialEq, Eq)]
pub struct MetricUpdate {
    pub series: MetricSeries,
    pub labels: Vec<Label>,
    pub value: MetricValue,
}

/// An update as a mathematical value.
pub struct MetricUpdateModel {
    pub series: MetricSeries,
    pub labels: Seq<(Seq<char>, Seq<char>)>,
    pub value: MetricValue,
}

impl View for MetricUpdate {
    type V = MetricUpdateModel;

    open spec fn view(&self) -> MetricUpdateModel {
        MetricUpdateModel {
            series: self.series,
            labels: label_models(self.labels@),
            value: self.value,
        }
    }
}

/// The updates as models, in order.
pub open spec fn update_models(updates: Seq<MetricUpdate>) -> Seq<MetricUpdateModel> {
    updates.map_values(|update: MetricUpdate| update@)
}

/// A point in time, in microseconds since the Unix epoch.
#[derive(Clone, Copy, Debug, PartialEq, Eq, Structural)]
pub struct DateTimeAsMicroseconds {
    pub unix_microseconds: i64,
}

/// What the observer sees of a request.
#[derive(Debug, PartialEq, Eq)]
pub struct HttpRequestData {
    pub method: String,
    pub path: String,
    pub started: DateTimeAsMicroseconds,
}

/// What the observer sees of the result of a request.
#[derive(Clone, Copy, Debug, PartialEq, Eq, Structural)]
pub struct ResponseData {
    pub status_code: u16,
    /// True when the pipeline ended in a failure.
    pub has_error: bool,
}

impl ResponseData {
    /// The result of a request of which only the status is known: a failure
    /// unless the status is one of the `2xx` codes.
    pub fn from_status(status_code: u16) -> (response: Self)
        ensures
            response == (ResponseData {
                status_code,
                has_error: !(200 <= status_code && status_code <= 299),
            }),
    {
        ResponseData { status_code, has_error: status_code < 200 || status_code > 299 }
    }

    /// True when the response goes to the series of failed requests: the
    /// pipeline ended in a failure, and the status is not `404`. A request
    /// for something that does not exist is no failure of the service.
    pub open spec fn counts_as_failed(self) -> bool {
        self.has_error && self.status_code != 404
    }
}

/// The microseconds from `started` to `now`; zero where `now` is earlier.
pub open spec fn elapsed_micros(started: DateTimeAsMicroseconds, now: DateTimeAsMicroseconds)
    -> nat {
    if now.unix_microseconds > started.unix_microseconds {
        (now.unix_microseconds - started.unix_microseconds) as nat
    } else {
        0
    }
}

/// The labels of the three series of all requests.
pub open spec fn common_labels(method: Seq<char>, path: Seq<char>) -> Seq<
    (Seq<char>, Seq<char>),
> {
    seq![("method"@, method), ("path"@, path)]
}

/// The labels of the three series of failed requests: the common ones and
/// the status code in decimal.
pub open spec fn failed_labels(method: Seq<char>, path: Seq<char>, status_code: u16) -> Seq<
    (Seq<char>, Seq<char>),
> {
    seq![
        ("method"@, method),
        ("path"@, path),
        ("status_code"@, decimal_text(status_code as nat)),
    ]
}

/// The updates that one request causes. A failed request adds one to the
/// count of failed requests, its milliseconds to their duration sum and its
/// duration to their histogram, all under its status code, and touches no
/// other series. Every other request, one answered with `404` among them,
/// does the same to the three series of requests.
pub open spec fn request_updates(
    method: Seq<char>,
    path: Seq<char>,
    response: ResponseData,
    micros: nat,
) -> Seq<MetricUpdateModel> {
    if response.counts_as_failed() {
        let labels = failed_labels(method, path, response.status_code);
        seq![
            MetricUpdateModel {
                series: MetricSeries::FailedRequestCount,
                labels,
                value: MetricValue::Increment(1),
            },
            MetricUpdateModel {
                series: MetricSeries::FailedRequestMillisDurationSum,
                labels,
                value: MetricValue::Increment((micros / 1000) as u64),
            },
            MetricUpdateModel {
                series: MetricSeries::FailedRequestDurationSec,
                labels,
                value: MetricValue::RecordMicros(micros as u64),
            },
        ]
    } else {
        let labels = common_labels(method, path);
        seq![
            MetricUpdateModel {
                series: MetricSeries::RequestDurationSec,
                labels,
                value: MetricValue::RecordMicros(micros as u64),
            },
            MetricUpdateModel {
                series: MetricSeries::RequestMillisDurationSum,
                labels,
                value: MetricValue::Increment((micros / 1000) as u64),
            },
            MetricUpdateModel {
                series: MetricSeries::RequestCount,
                labels,
                value: MetricValue::Increment(1),
            },
        ]
    }
}

/// The microseconds from `started` to `now`; zero where `now` is earlier.
pub fn duration_since(now: DateTimeAsMicroseconds, started: DateTimeAsMicroseconds) -> (micros:
    u64)
    ensures
        micros == elapsed_micros(started, now),
{
    if now.unix_microseconds > started.unix_microseconds {
        (now.unix_microseconds as i128 - started.unix_microseconds as i128) as u64
    } else {
        0
    }
}

/// Makes a label.
fn label(name: &str, value: &str) -> (label: Label)
    ensures
        label@ == (name@, value@),
{
    Label { name: String::from_str(name), value: String::from_str(value) }
}

/// The labels of a request, with the status code where one is given.
fn labels_of(method: &str, path: &str, status_code: Option<u16>) -> (labels: Vec<Label>)
    ensures
        label_models(labels@) == match status_code {
            Some(code) => failed_labels(method@, path@, code),
            None => common_labels(method@, path@),
        },
{
    let mut labels: Vec<Label> = Vec::new();
    labels.push(label("method", method));
    labels.push(label("path", path));
    match status_code {
        Some(code) => {
            let text = u16_to_decimal(code);
            labels.push(label("status_code", text.as_str()));
            assert(label_models(labels@) =~= failed_labels(method@, path@, code));
        },
        None => {
            assert(label_models(labels@) =~= common_labels(method@, path@));
        },
    }
    labels
}

/// The observer that records every finished request in the metrics.
#[derive(Clone, Copy, Debug, PartialEq, Eq, Structural)]
pub struct MetricsTechMiddleware;

impl MetricsTechMiddleware {
    /// Decides what the request `request`, answered with `http_result` at
    /// the time `now`, adds to the metrics.
    pub fn got_result(
        &self,
        request: &HttpRequestData,
        http_result: &ResponseData,
        now: DateTimeAsMicroseconds,
    ) -> (updates: Vec<MetricUpdate>)
        ensures
            update_models(updates@) == request_updates(
                request.method@,
                request.path@,
                *http_result,
                elapsed_micros(request.started, now),
            ),
    {
        let micros = duration_since(now, request.started);
        let millis = micros / 1000;
        let method = request.method.as_str();
        let path = request.path.as_str();
        let mut updates: Vec<MetricUpdate> = Vec::new();
        if http_result.has_error && http_result.status_code != 404 {
            let code = Some(http_result.status_code);
            updates.push(
                MetricUpdate {
                    series: MetricSeries::FailedRequestCount,
                    labels: labels_of(method, path, code),
                    value: MetricValue::Increment(1),
                },
            );
            updates.push(
                MetricUpdate {
                    series: MetricSeries::FailedRequestMillisDurationSum,
                    labels: labels_of(method, path, code),
                    value: MetricValue::Increment(millis),
                },
            );
            updates.push(
                MetricUpdate {
                    series: MetricSeries::FailedRequestDurationSec,
                    labels: labels_of(method, path, code),
                    value: MetricValue::RecordMicros(micros),
                },
            );
        } else {
            updates.push(
                MetricUpdate {
                    series: MetricSeries::RequestDurationSec,
                    labels: labels_of(method, path, None),
                    value: MetricValue::RecordMicros(micros),
                },
            );
            updates.push(
                MetricUpdate {
                    series: MetricSeries::RequestMillisDurationSum,
                    labels: labels_of(method, path, None),
                    value: MetricValue::Increment(millis),
                },
            );
            updates.push(
                MetricUpdate {
                    series: MetricSeries::RequestCount,
                    labels: labels_of(method, path, None),
                    value: MetricValue::Increment(1),
                },
            );
        }
        assert(update_models(updates@) =~= request_updates(
            request.method@,
            request.path@,
            *http_result,
            elapsed_micros(request.started, now),
        ));
        updates
    }
}

/// A response with status `404` adds one to the count of requests and
/// touches none of the series of failed requests.
pub proof fn lemma_not_found_is_no_failure(
    method: Seq<char>,
    path: Seq<char>,
    response: ResponseData,
    micros: nat,
)
    requires
        response.status_code == 404,
    ensures
        forall|i: int|
            0 <= i < request_updates(method, path, response, micros).len() ==> !(
            #[trigger] request_updates(method, path, response, micros)[i]).series.is_failed(),
        request_updates(method, path, response, micros).contains(
            MetricUpdateModel {
                series: MetricSeries::RequestCount,
                labels: common_labels(method, path),
                value: MetricValue::Increment(1),
            },
        ),
{
    let updates = request_updates(method, path, response, micros);
    assert(updates[2] == MetricUpdateModel {
        series: MetricSeries::RequestCount,
        labels: common_labels(method, path),
        value: MetricValue::Increment(1),
    });
}

/// A failed response with a status other than `404` adds one to the count
/// of failed requests, under a `status_code` label that is the status in
/// decimal, and touches none of the series of requests.
pub proof fn lemma_failure_goes_to_failed_series_only(
    method: Seq<char>,
    path: Seq<char>,
    response: ResponseData,
    micros: nat,
)
    requires
        response.has_error,
        response.status_code != 404,
    ensures
        forall|i: int|
            0 <= i < request_updates(method, path, response, micros).len() ==> (
            #[trigger] request_updates(method, path, response, micros)[i]).series.is_failed(),
        forall|i: int|
            0 <= i < request_updates(method, path, response, micros).len() ==> (
            #[trigger] request_updates(method, path, response, micros)[i]).labels.contains(
                ("status_code"@, decimal_text(response.status_code as nat)),
            ),
        request_updates(method, path, response, micros).contains(
            MetricUpdateModel {
                series: MetricSeries::FailedRequestCount,
                labels: failed_labels(method, path, response.status_code),
                value: MetricValue::Increment(1),
            },
        ),
        forall|i: int|
            0 < i < request_updates(method, path, response, micros).len() ==> (
            #[trigger] request_updates(method, path, response, micros)[i]).series
                != MetricSeries::FailedRequestCount,
{
    let updates = request_updates(method, path, response, micros);
    let labels = failed_labels(method, path, response.status_code);
    assert(labels[2] == ("status_code"@, decimal_text(response.status_code as nat)));
    assert(updates[0] == MetricUpdateModel {
        series: MetricSeries::FailedRequestCount,
        labels,
        value: MetricValue::Increment(1),
    });
}

/// A response that is no failure adds one to the count of requests and
/// touches none of the series of failed requests.
pub proof fn lemma_success_goes_to_request_series_only(
    method: Seq<char>,
    path: Seq<char>,
    response: ResponseData,
    micros: nat,
)
    requires
        !response.has_error,
    ensures
        forall|i: int|
            0 <= i < request_updates(method, path, response, micros).len() ==> !(
            #[trigger] request_updates(method, path, response, micros)[i]).series.is_failed(),
        request_updates(method, path, response, micros).contains(
            MetricUpdateModel {
                series: MetricSeries::RequestCount,
                labels: common_labels(method, path),
                value: MetricValue::Increment(1),
            },
        ),
{
    let updates = request_updates(method, path, response, micros);
    assert(updates[2] == MetricUpdateModel {
        series: MetricSeries::RequestCount,
        labels: common_labels(method, path),
        value: MetricValue::Increment(1),
    });
}

} // verus!
