//! The health report: liveness and the version of the running build.

use vstd::prelude::*;

verus! {

/// The status text of a live service.
pub open spec fn status_ok() -> Seq<char> {
    "ok"@
}

/// The version reported when the deployment configures none.
pub open spec fn default_version() -> Seq<char> {
    "0.1.0"@
}

/// The version to report: the configured one, or the default.
pub open spec fn resolved_version(configured: Option<Seq<char>>) -> Seq<char> {
    match configured {
        Some(version) => version,
        None => default_version(),
    }
}

/// The payload of the health endpoint.
#[derive(Debug)]
pub struct HealthReport {
    /// Always `"ok"`: the report has no failure path.
    pub status: String,
    /// The version of the running build.
    pub version: String,
}

/// The mathematical value of a [`HealthReport`].
pub ghost struct HealthView {
    pub status: Seq<char>,
    pub version: Seq<char>,
}

impl View for HealthReport {
    type V = HealthView;

    open spec fn view(&self) -> HealthView {
        HealthView { status: self.status@, version: self.version@ }
    }
}

/// The report for a deployment that configured `configured` as its version.
pub open spec fn report_for(configured: Option<Seq<char>>) -> HealthView {
    HealthView { status: status_ok(), version: resolved_version(configured) }
}

/// The views of an optional text.
pub open spec fn text_view(text: Option<String>) -> Option<Seq<char>> {
    match text {
        Some(t) => Some(t@),
        None => None,
    }
}

/// Picks the version to report: the configured one, or `"0.1.0"`.
pub fn resolve_version(configured: Option<String>) -> (version: String)
    ensures
        version@ == resolved_version(text_view(configured)),
{
    match configured {
        Some(version) => version,
        None => "0.1.0".to_string(),
    }
}

impl HealthReport {
    /// The report of a live service whose deployment configured `configured`
    /// as its version, if it configured any.
    pub fn new(configured: Option<String>) -> (report: Self)
        ensures
            report@ == report_for(text_view(configured)),
    {
        HealthReport { status: "ok".to_string(), version: resolve_version(configured) }
    }
}

} // verus!
