//! The settings of the tracer: what the deployment configured, and the
//! defaults for what it left open. Installing a tracer from them is the
//! server's business.

use vstd::prelude::*;
use crate::health::{resolve_version, resolved_version, text_view};

verus! {

/// The collector endpoint used when the deployment configures none.
pub open spec fn default_endpoint() -> Seq<char> {
    "http://localhost:4317"@
}

/// The environment name used when the deployment configures none.
pub open spec fn default_environment() -> Seq<char> {
    "development"@
}

/// What a tracer is installed with.
#[derive(Debug)]
pub struct TracerSettings {
    /// Where spans are exported to.
    pub endpoint: String,
    /// The resource attribute `service.name`.
    pub service_name: String,
    /// The resource attribute `service.version`.
    pub service_version: String,
    /// The resource attribute `environment`.
    pub environment: String,
}

/// The mathematical value of [`TracerSettings`].
pub ghost struct TracerSettingsView {
    pub endpoint: Seq<char>,
    pub service_name: Seq<char>,
    pub service_version: Seq<char>,
    pub environment: Seq<char>,
}

impl View for TracerSettings {
    type V = TracerSettingsView;

    open spec fn view(&self) -> TracerSettingsView {
        TracerSettingsView {
            endpoint: self.endpoint@,
            service_name: self.service_name@,
            service_version: self.service_version@,
            environment: self.environment@,
        }
    }
}

/// The settings for a service called `service_name`, given what the
/// deployment configured.
pub open spec fn settings_for(
    service_name: Seq<char>,
    endpoint: Option<Seq<char>>,
    version: Option<Seq<char>>,
    environment: Option<Seq<char>>,
) -> TracerSettingsView {
    TracerSettingsView {
        endpoint: match endpoint {
            Some(configured) => configured,
            None => default_endpoint(),
        },
        service_name,
        service_version: resolved_version(version),
        environment: match environment {
            Some(configured) => configured,
            None => default_environment(),
        },
    }
}

/// The resource attributes, as pairs of key and value, in the order in
/// which they are attached.
pub open spec fn attributes_of(settings: TracerSettingsView) -> Seq<(Seq<char>, Seq<char>)> {
    seq![
        ("service.name"@, settings.service_name),
        ("service.version"@, settings.service_version),
        ("environment"@, settings.environment),
    ]
}

/// The views of a list of pairs of texts.
pub open spec fn pair_views(pairs: Seq<(String, String)>) -> Seq<(Seq<char>, Seq<char>)> {
    pairs.map_values(|pair: (String, String)| (pair.0@, pair.1@))
}

impl TracerSettings {
    /// Settles the settings of the tracer of `service_name`: each value as
    /// the deployment configured it, or its default: the endpoint
    /// `http://localhost:4317`, the version `0.1.0`, the environment
    /// `development`.
    pub fn resolve(
        service_name: &str,
        endpoint: Option<String>,
        version: Option<String>,
        environment: Option<String>,
    ) -> (settings: Self)
        ensures
            settings@ == settings_for(
                service_name@,
                text_view(endpoint),
                text_view(version),
                text_view(environment),
            ),
    {
        TracerSettings {
            endpoint: match endpoint {
                Some(configured) => configured,
                None => "http://localhost:4317".to_string(),
            },
            service_name: service_name.to_string(),
            service_version: resolve_version(version),
            environment: match environment {
                Some(configured) => configured,
                None => "development".to_string(),
            },
        }
    }

    /// The resource attributes that describe the service to the collector.
    pub fn attributes(&self) -> (pairs: Vec<(String, String)>)
        ensures
            pair_views(pairs@) == attributes_of(self@),
    {
        let mut pairs: Vec<(String, String)> = Vec::new();
        pairs.push(("service.name".to_string(), self.service_name.clone()));
        pairs.push(("service.version".to_string(), self.service_version.clone()));
        pairs.push(("environment".to_string(), self.environment.clone()));
        assert(pair_views(pairs@) =~= attributes_of(self@));
        pairs
    }
}

} // verus!
