//! The middleware that serves the metrics report.

use crate::http_result::{HttpFailResult, HttpOkResult, HttpOutput, HttpOutputModel};
use crate::text::text_eq;
use prometheus::proto::MetricType;
use vstd::prelude::*;

verus! {

/// One sample of the metrics registry, with its labels and values. Nothing
/// is known of what it holds; it is carried from the registry to the
/// encoder.
#[verifier::external_type_specification]
#[verifier::external_body]
pub struct ExPrometheusMetric(prometheus::proto::Metric);

/// The types that a metric family can have.
#[derive(Clone, Copy, Debug, PartialEq, Eq, Structural)]
pub enum MetricKind {
    Counter,
    Gauge,
    Summary,
    Untyped,
    Histogram,
}

/// A metric family as the registry gathers it: what it is called, what it
/// measures, of which type it is, and its samples.
#[derive(Debug, PartialEq)]
pub struct GatheredFamily {
    pub name: String,
    pub help: String,
    pub kind: MetricKind,
    pub samples: Vec<prometheus::proto::Metric>,
}

/// True for the types that the text exposition format has a rule for.
/// Untyped families have none.
pub open spec fn has_text_format(kind: MetricKind) -> bool {
    kind != MetricKind::Untyped
}

/// True when the family at `index` is the first one without a text format.
pub open spec fn is_first_without_text_format(families: Seq<GatheredFamily>, index: int) -> bool {
    &&& 0 <= index < families.len()
    &&& !has_text_format(families[index].kind)
    &&& forall|earlier: int|
        0 <= earlier < index ==> has_text_format(#[trigger] families[earlier].kind)
}

/// True when every family has a text format.
pub open spec fn all_have_text_format(families: Seq<GatheredFamily>) -> bool {
    forall|i: int| 0 <= i < families.len() ==> has_text_format(#[trigger] families[i].kind)
}

/// What holds of the families that the registry hands out, whatever it
/// holds: each has at least one sample.
pub open spec fn is_gathered(families: Seq<GatheredFamily>) -> bool {
    forall|i: int| 0 <= i < families.len() ==> (#[trigger] families[i]).samples@.len() > 0
}

/// True when every family has a name and at least one sample.
pub open spec fn all_complete(families: Seq<GatheredFamily>) -> bool {
    forall|i: int|
        0 <= i < families.len() ==> (#[trigger] families[i]).name@.len() > 0
            && families[i].samples@.len() > 0
}

/// Why a report with the family `name` cannot be rendered.
pub open spec fn no_text_format_reason(name: Seq<char>) -> Seq<char> {
    "no text format for the untyped metric family "@ + name
}

/// What the text encoder makes of `families`: the report in the text
/// exposition format, or the message of its error.
pub uninterp spec fn text_encoding(families: Seq<GatheredFamily>) -> Result<Seq<char>, Seq<char>>;

/// A report, or the reason why there is none, as sequences of characters.
pub open spec fn report_text(report: Result<String, String>) -> Result<Seq<char>, Seq<char>> {
    match report {
        Ok(text) => Ok(text@),
        Err(reason) => Err(reason@),
    }
}

/// The position of the first family without a text format, where there is
/// one.
pub open spec fn first_without_text_format(families: Seq<GatheredFamily>) -> int {
    choose|index: int| is_first_without_text_format(families, index)
}

/// The report on `families`: what the text encoder makes of them where all
/// have a text format, and else the naming of the first family that has
/// none.
pub open spec fn rendering(families: Seq<GatheredFamily>) -> Result<Seq<char>, Seq<char>> {
    if all_have_text_format(families) {
        text_encoding(families)
    } else {
        Err(no_text_format_reason(families[first_without_text_format(families)].name@))
    }
}

/// Gathers every metric of the process-wide default registry:
/// `prometheus::default_registry().gather()`, each family taken apart into
/// its name, help, type and samples. Which families come back depends on
/// what the process has recorded so far. Whatever they are, each has a
/// sample: the registry drops the families that have none.
#[verifier::external_body]
fn gather_default_registry() -> (families: Vec<GatheredFamily>)
    ensures
        is_gathered(families@),
{
    prometheus::default_registry().gather().into_iter().map(|mut family| GatheredFamily {
        kind: match family.get_field_type() {
            MetricType::COUNTER => MetricKind::Counter,
            MetricType::GAUGE => MetricKind::Gauge,
            MetricType::SUMMARY => MetricKind::Summary,
            MetricType::UNTYPED => MetricKind::Untyped,
            MetricType::HISTOGRAM => MetricKind::Histogram,
        },
        name: family.take_name(),
        help: family.take_help(),
        samples: family.take_metric(),
    }).collect()
}

/// Renders the families in the text exposition format:
/// `prometheus::TextEncoder::encode_to_string`, on families put together
/// from the name, help, type and samples given here, with the message of
/// the error where the encoder refuses. The encoder has no rule for
/// untyped families and does not return on one, so they are left out by
/// `requires`. The result is `text_encoding` of the families. The encoder
/// refuses exactly the lists that hold a family without a name or without
/// a sample; writing the text never fails.
#[verifier::external_body]
fn encode_families(families: &Vec<GatheredFamily>) -> (report: Result<String, String>)
    requires
        all_have_text_format(families@),
    ensures
        report_text(report) == text_encoding(families@),
        report is Ok <==> all_complete(families@),
{
    prometheus::TextEncoder::new().encode_to_string(
        &families.iter().map(|family| prometheus::proto::MetricFamily {
            name: Some(family.name.clone()),
            help: Some(family.help.clone()),
            type_: Some(match family.kind {
                MetricKind::Counter => MetricType::COUNTER,
                MetricKind::Gauge => MetricType::GAUGE,
                MetricKind::Summary => MetricType::SUMMARY,
                MetricKind::Untyped => MetricType::UNTYPED,
                MetricKind::Histogram => MetricType::HISTOGRAM,
            }.into()),
            metric: family.samples.clone(),
            ..Default::default()
        }).collect::<Vec<_>>(),
    ).map_err(|error| error.to_string())
}

/// Finds the first family without a text format.
pub fn find_without_text_format(families: &Vec<GatheredFamily>) -> (found: Option<usize>)
    ensures
        match found {
            Some(index) => is_first_without_text_format(families@, index as int),
            None => all_have_text_format(families@),
        },
{
    let mut i: usize = 0;
    while i < families.len()
        invariant
            i <= families.len(),
            forall|k: int| 0 <= k < i ==> has_text_format(#[trigger] families@[k].kind),
        decreases families.len() - i,
    {
        match families[i].kind {
            MetricKind::Untyped => {
                return Some(i);
            },
            _ => {},
        }
        i = i + 1;
    }
    None
}

/// No two families are the first without a text format.
pub proof fn lemma_first_without_text_format_is_unique(
    families: Seq<GatheredFamily>,
    one: int,
    other: int,
)
    requires
        is_first_without_text_format(families, one),
        is_first_without_text_format(families, other),
    ensures
        one == other,
{
    if one < other {
        assert(has_text_format(families[one].kind));
    } else if other < one {
        assert(has_text_format(families[other].kind));
    }
}

/// Renders the families as the report, or says why there is none. Where a
/// family has no text format, the first such family is named as the reason
/// and the encoder is not asked. Else the result is the encoder's: the
/// text where every family has a name and a sample, and the message of its
/// error where one has not.
pub fn render_families(families: &Vec<GatheredFamily>) -> (report: Result<String, String>)
    ensures
        report_text(report) == rendering(families@),
        report is Ok <==> all_have_text_format(families@) && all_complete(families@),
{
    match find_without_text_format(families) {
        Some(index) => {
            proof {
                lemma_first_without_text_format_is_unique(
                    families@,
                    index as int,
                    first_without_text_format(families@),
                );
            }
            Err(
                String::from_str("no text format for the untyped metric family ").concat(
                    families[index].name.as_str(),
                ),
            )
        },
        None => encode_families(families),
    }
}

/// Path of the metrics report.
pub open spec fn metrics_path() -> Seq<char> {
    seq!['/', 'm', 'e', 't', 'r', 'i', 'c', 's']
}

/// The answer to a request for the report: the report itself with status
/// `200`, or, where it could not be rendered, the reason with status `502`.
/// Neither is written to telemetry or to the log.
pub open spec fn report_answer(report: Result<Seq<char>, Seq<char>>, answer: Result<
    HttpOkResult,
    HttpFailResult,
>) -> bool {
    match report {
        Ok(text) => answer matches Ok(ok) && !ok.write_telemetry && ok.output@ == (HttpOutputModel {
            status_code: 200,
            content: text,
        }),
        Err(reason) => answer matches Err(fail) && !fail.write_telemetry && !fail.write_to_log
            && fail.output@ == (HttpOutputModel { status_code: 502, content: reason }),
    }
}

/// True for the answers to a request for the report, whatever the report
/// holds: a success with status `200`, or a failure with status `502`.
pub open spec fn is_report_answer(answer: Result<HttpOkResult, HttpFailResult>) -> bool {
    match answer {
        Ok(ok) => !ok.write_telemetry && ok.output.status_code == 200,
        Err(fail) => !fail.write_telemetry && !fail.write_to_log && fail.output.status_code == 502,
    }
}

/// Turns the rendered report, or the reason why there is none, into the
/// answer to the request.
pub fn report_response(report: Result<String, String>) -> (answer: Result<
    HttpOkResult,
    HttpFailResult,
>)
    ensures
        report_answer(
            match report {
                Ok(text) => Ok(text@),
                Err(reason) => Err(reason@),
            },
            answer,
        ),
{
    match report {
        Ok(text) => Ok(HttpOutput::as_text(text).into_ok_result(false)),
        Err(reason) => Err(
            HttpOutput::as_text(reason).set_status_code(502).into_fail_result(false, false),
        ),
    }
}

/// The middleware that serves the metrics report.
#[derive(Clone, Copy, Debug, PartialEq, Eq, Structural)]
pub struct MetricsMiddleware;

impl MetricsMiddleware {
    pub fn new() -> (middleware: Self) {
        MetricsMiddleware
    }

    /// The answer to a request for the report when the registry holds
    /// `families`: their rendering, under status `200` where it is a text
    /// and under status `502` where it is a reason.
    pub fn report(&self, families: &Vec<GatheredFamily>) -> (answer: Result<
        HttpOkResult,
        HttpFailResult,
    >)
        ensures
            report_answer(rendering(families@), answer),
            answer is Ok <==> all_have_text_format(families@) && all_complete(families@),
    {
        report_response(render_families(families))
    }

    /// Answers a request for the path `/metrics` with the report on what
    /// the default registry holds at that moment, and passes every other
    /// request on. The answer carries the rendering of the gathered
    /// families: under status `200` the text of the encoder, under status
    /// `502` the reason why there is no text.
    pub fn handle_request(&self, path: &str) -> (answer: Option<
        Result<HttpOkResult, HttpFailResult>,
    >)
        ensures
            path@ != metrics_path() ==> answer is None,
            path@ == metrics_path() ==> (answer matches Some(given) && is_report_answer(given)
                && exists|families: Seq<GatheredFamily>| is_gathered(families) && report_answer(
                    rendering(families),
                    given,
                )),
    {
        proof {
            reveal_strlit("/metrics");
        }
        assert("/metrics"@ =~= metrics_path());
        if text_eq(path, "/metrics") {
            let families = gather_default_registry();
            let given = self.report(&families);
            assert(is_gathered(families@) && report_answer(rendering(families@), given));
            return Some(given);
        }
        None
    }
}

} // verus!
