//! The liveness probe: the first stage of every pipeline.

use crate::app_states::ApplicationState;
use crate::text::text_eq;
use vstd::prelude::*;

verus! {

/// What the probe reports.
#[derive(Debug, PartialEq, Eq)]
pub struct LivenessReport {
    pub app_name: String,
    pub app_version: String,
    /// True when the application is ready to serve.
    pub healthy: bool,
}

/// True for the paths that the probe answers: the root, and the health path
/// of the deployment.
pub open spec fn is_liveness_path(path: Seq<char>, health_path: Seq<char>) -> bool {
    path == seq!['/'] || path == health_path
}

/// Answers a request for a liveness path with the name and version of the
/// application and with its readiness, and passes every other request on.
/// The application is reported healthy while its state reads `Initialized`:
/// not before, and not once it shuts down.
pub fn liveness_probe(
    path: &str,
    health_path: &str,
    app_name: &str,
    app_version: &str,
    state: ApplicationState,
) -> (report: Option<LivenessReport>)
    ensures
        !is_liveness_path(path@, health_path@) ==> report is None,
        is_liveness_path(path@, health_path@) ==> (report matches Some(given) && given.app_name@
            == app_name@ && given.app_version@ == app_version@ && given.healthy
            == state.healthy()),
{
    proof {
        reveal_strlit("/");
    }
    assert("/"@ =~= seq!['/']);
    if text_eq(path, "/") || text_eq(path, health_path) {
        Some(
            LivenessReport {
                app_name: String::from_str(app_name),
                app_version: String::from_str(app_version),
                healthy: state.is_initialized(),
            },
        )
    } else {
        None
    }
}

} // verus!
