//! The process-wide metrics registry, rendered in the text exposition
//! format. The registry and its encoder belong to the `prometheus` crate;
//! this module decides what is handed to the encoder and what is answered.

use vstd::prelude::*;
use prometheus::proto::{MetricFamily, MetricType};
use prometheus::Encoder;

verus! {

/// A family of metrics as the registry hands it out. Opaque here: the
/// handler only passes it on.
#[verifier::external_type_specification]
#[verifier::external_body]
pub struct ExMetricFamily(prometheus::proto::MetricFamily);

/// The error of the `prometheus` crate. Opaque here.
#[verifier::external_type_specification]
#[verifier::external_body]
pub struct ExRegistryError(prometheus::Error);

/// The kinds of metric family that the registry knows.
#[derive(Clone, Copy, Debug, PartialEq, Eq, Structural)]
pub enum FamilyKind {
    Counter,
    Gauge,
    Summary,
    Untyped,
    Histogram,
}

/// Why the registry could not be rendered.
#[derive(Clone, Copy, Debug, PartialEq, Eq, Structural)]
pub enum ExpositionError {
    /// A family is of the untyped kind, which the text encoder does not render.
    UntypedFamily,
    /// The encoder refused a family.
    Encoder,
}

/// The kind that a family declares.
pub uninterp spec fn kind_of(family: MetricFamily) -> FamilyKind;

/// The text exposition of `families` as the text encoder writes it into an
/// empty buffer, or nothing where the encoder refuses them. Meaningful for
/// families that are all typed: on others the encoder is never asked.
pub uninterp spec fn exposition_of(families: Seq<MetricFamily>) -> Option<Seq<u8>>;

/// Every family of `families` is of a kind that the text encoder renders.
pub open spec fn all_typed(families: Seq<MetricFamily>) -> bool {
    forall|i: int| 0 <= i < families.len() ==> kind_of(#[trigger] families[i]) != FamilyKind::Untyped
}

/// Calls `MetricFamily::get_field_type` and names the variant that came
/// back. Trusted: the result is the kind that the family declares.
#[verifier::external_body]
fn family_kind(family: &MetricFamily) -> (kind: FamilyKind)
    ensures
        kind == kind_of(*family),
{
    match family.get_field_type() {
        MetricType::COUNTER => FamilyKind::Counter,
        MetricType::GAUGE => FamilyKind::Gauge,
        MetricType::SUMMARY => FamilyKind::Summary,
        MetricType::UNTYPED => FamilyKind::Untyped,
        MetricType::HISTOGRAM => FamilyKind::Histogram,
    }
}

/// Calls `prometheus::gather` on the default registry. Nothing is claimed of
/// what comes back: it depends on what the process has registered and counted.
#[verifier::external_body]
fn gather_families() -> (families: Vec<MetricFamily>) {
    prometheus::gather()
}

/// Calls `TextEncoder::encode` into an empty buffer and hands back the
/// buffer, or the encoder's error. Trusted: what the encoder writes depends
/// on the families alone, so the bytes are the exposition of these
/// families, and an error means that they have none. Families of the
/// untyped kind are kept out: the encoder aborts on them.
#[verifier::external_body]
fn encode_families(families: &Vec<MetricFamily>) -> (encoded: Result<Vec<u8>, prometheus::Error>)
    requires
        all_typed(families@),
    ensures
        match encoded {
            Ok(bytes) => exposition_of(families@) == Some(bytes@),
            Err(_) => exposition_of(families@) is None,
        },
{
    let mut buffer = Vec::new();
    match prometheus::TextEncoder::new().encode(families, &mut buffer) {
        Ok(()) => Ok(buffer),
        Err(error) => Err(error),
    }
}

/// Whether every family is of a kind that the text encoder renders.
fn check_all_typed(families: &Vec<MetricFamily>) -> (typed: bool)
    ensures
        typed == all_typed(families@),
{
    let mut i: usize = 0;
    while i < families.len()
        invariant
            i <= families.len(),
            forall|k: int| 0 <= k < i ==> kind_of(#[trigger] families@[k]) != FamilyKind::Untyped,
        decreases families.len() - i,
    {
        if family_kind(&families[i]) == FamilyKind::Untyped {
            return false;
        }
        i += 1;
    }
    true
}

/// Renders the default registry: gathers its families and renders them as
/// [`render_families`] does. Which families the process holds is not for
/// this library to say; the answer is the rendering of the ones gathered.
pub(crate) fn render_registry() -> (rendered: Result<Vec<u8>, ExpositionError>)
    ensures
        exists|families: Seq<MetricFamily>|
            rendering_view(rendered) == #[trigger] rendering_of(families),
{
    let families = gather_families();
    let rendered = render_families(&families);
    assert(rendering_view(rendered) == rendering_of(families@));
    rendered
}

/// The bytes of a rendering, or why there is none.
pub open spec fn rendering_view(rendered: Result<Vec<u8>, ExpositionError>) -> Result<
    Seq<u8>,
    ExpositionError,
> {
    match rendered {
        Ok(bytes) => Ok(bytes@),
        Err(error) => Err(error),
    }
}

/// What the encoder's answer comes to: the bytes it wrote, or the failure
/// of the encoder, whatever its error was.
pub open spec fn after_encoding(encoded: Result<Vec<u8>, prometheus::Error>) -> Result<
    Vec<u8>,
    ExpositionError,
> {
    match encoded {
        Ok(bytes) => Ok(bytes),
        Err(_) => Err(ExpositionError::Encoder),
    }
}

/// What rendering `families` comes to. An untyped family is refused before
/// the encoder is asked. Families that are all typed are rendered to their
/// exposition, and where the encoder refuses them the encoder has failed.
pub open spec fn rendering_of(families: Seq<MetricFamily>) -> Result<Seq<u8>, ExpositionError> {
    if !all_typed(families) {
        Err(ExpositionError::UntypedFamily)
    } else {
        match exposition_of(families) {
            Some(bytes) => Ok(bytes),
            None => Err(ExpositionError::Encoder),
        }
    }
}

/// Turns the encoder's answer into a rendering: its bytes as they are, or
/// the failure of the encoder.
pub fn rendering_from(encoded: Result<Vec<u8>, prometheus::Error>) -> (rendered: Result<
    Vec<u8>,
    ExpositionError,
>)
    ensures
        rendered == after_encoding(encoded),
{
    match encoded {
        Ok(bytes) => Ok(bytes),
        Err(_) => Err(ExpositionError::Encoder),
    }
}

/// Renders `families`. Where one of them is untyped the answer is
/// [`ExpositionError::UntypedFamily`] and the encoder is not asked.
/// Otherwise the encoder is handed exactly these families: the answer is
/// their exposition, or [`ExpositionError::Encoder`] where they have none.
pub fn render_families(families: &Vec<MetricFamily>) -> (rendered: Result<Vec<u8>, ExpositionError>)
    ensures
        rendering_view(rendered) == rendering_of(families@),
{
    if !check_all_typed(families) {
        return Err(ExpositionError::UntypedFamily);
    }
    rendering_from(encode_families(families))
}

} // verus!
