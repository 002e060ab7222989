//! What a middleware answers a request with.

use vstd::prelude::*;

verus! {

/// A response with a text body.
#[derive(Debug, PartialEq, Eq)]
pub struct HttpOutput {
    pub status_code: u16,
    pub content: String,
}

/// A response as a mathematical value.
pub struct HttpOutputModel {
    pub status_code: u16,
    pub content: Seq<char>,
}

impl View for HttpOutput {
    type V = HttpOutputModel;

    open spec fn view(&self) -> HttpOutputModel {
        HttpOutputModel { status_code: self.status_code, content: self.content@ }
    }
}

/// A response that counts as a success.
#[derive(Debug, PartialEq, Eq)]
pub struct HttpOkResult {
    pub write_telemetry: bool,
    pub output: HttpOutput,
}

/// A response that counts as a failure.
#[derive(Debug, PartialEq, Eq)]
pub struct HttpFailResult {
    pub write_telemetry: bool,
    pub write_to_log: bool,
    pub output: HttpOutput,
}

impl HttpOutput {
    /// A `200` response with `text` as its body.
    pub fn as_text(text: String) -> (output: Self)
        ensures
            output@ == (HttpOutputModel { status_code: 200, content: text@ }),
    {
        HttpOutput { status_code: 200, content: text }
    }

    /// The same body under another status code.
    pub fn set_status_code(self, status_code: u16) -> (output: Self)
        ensures
            output@ == (HttpOutputModel { status_code, content: self@.content }),
    {
        HttpOutput { status_code, content: self.content }
    }

    /// The response as a success.
    pub fn into_ok_result(self, write_telemetry: bool) -> (result: HttpOkResult)
        ensures
            result.write_telemetry == write_telemetry,
            result.output@ == self@,
    {
        HttpOkResult { write_telemetry, output: self }
    }

    /// The response as a failure.
    pub fn into_fail_result(self, write_telemetry: bool, write_to_log: bool) -> (result:
        HttpFailResult)
        ensures
            result.write_telemetry == write_telemetry,
            result.write_to_log == write_to_log,
            result.output@ == self@,
    {
        HttpFailResult { write_telemetry, write_to_log, output: self }
    }
}

} // verus!
