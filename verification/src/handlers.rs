//! The request handlers: each maps one request, already decoded, to one
//! store operation and one response. They hold no logic beyond that
//! mapping.
//!
//! A request body arrives as `Option<Product>`: `None` stands for a body that
//! could not be read as a product.

use vstd::prelude::*;
use crate::catalog::{
    after_create, after_delete, after_update, create_result, ids_unique, lookup, touch_result,
    CatalogStore,
};
use crate::health::{report_for, text_view, HealthReport};
use crate::metrics::{gauge_text, render_gauge};
use crate::product::{Product, ProductView};
use crate::registry::{render_registry, rendering_of, rendering_view, ExpositionError};
use prometheus::proto::MetricFamily;
use crate::response::{message, Body, BodyView, Response, ResponseView, Status};

verus! {

/// The answer to a request for an identifier that no record carries.
pub open spec fn not_found() -> ResponseView {
    message(Status::NotFound, "Product not found"@)
}

/// The answer to the creation of a record whose identifier is taken.
pub open spec fn conflict() -> ResponseView {
    message(Status::Conflict, "Product already exists"@)
}

/// The answer to a request whose body could not be read as a product.
pub open spec fn bad_request() -> ResponseView {
    message(Status::BadRequest, "Malformed product"@)
}

/// The values of an optional record.
pub open spec fn body_view(body: Option<Product>) -> Option<ProductView> {
    match body {
        Some(record) => Some(record@),
        None => None,
    }
}

/// The answer to `GET /product/{id}`.
pub open spec fn get_product_response(records: Seq<ProductView>, id: u32) -> ResponseView {
    match lookup(records, id) {
        Some(record) => ResponseView { status: Status::Success, body: BodyView::Record(record) },
        None => not_found(),
    }
}

/// The answer to `GET /products`.
pub open spec fn get_products_response(records: Seq<ProductView>) -> ResponseView {
    ResponseView { status: Status::Success, body: BodyView::Records(records) }
}

/// The answer to `POST /product`.
pub open spec fn add_product_response(
    records: Seq<ProductView>,
    body: Option<ProductView>,
) -> ResponseView {
    match body {
        None => bad_request(),
        Some(record) => match create_result(records, record) {
            Ok(_) => ResponseView { status: Status::Created, body: BodyView::Record(record) },
            Err(_) => conflict(),
        },
    }
}

/// The contents that `POST /product` leaves behind.
pub open spec fn after_add_product(
    records: Seq<ProductView>,
    body: Option<ProductView>,
) -> Seq<ProductView> {
    match body {
        None => records,
        Some(record) => after_create(records, record),
    }
}

/// The answer to `PUT /product/{id}`.
pub open spec fn update_product_response(
    records: Seq<ProductView>,
    id: u32,
    body: Option<ProductView>,
) -> ResponseView {
    match body {
        None => bad_request(),
        Some(record) => match touch_result(records, id) {
            Ok(_) => ResponseView {
                status: Status::Success,
                body: BodyView::Record(record.filed_under(id)),
            },
            Err(_) => not_found(),
        },
    }
}

/// The contents that `PUT /product/{id}` leaves behind.
pub open spec fn after_update_product(
    records: Seq<ProductView>,
    id: u32,
    body: Option<ProductView>,
) -> Seq<ProductView> {
    match body {
        None => records,
        Some(record) => after_update(records, id, record),
    }
}

/// The answer to `DELETE /product/{id}`.
pub open spec fn delete_product_response(records: Seq<ProductView>, id: u32) -> ResponseView {
    match touch_result(records, id) {
        Ok(_) => ResponseView { status: Status::Success, body: BodyView::Empty },
        Err(_) => not_found(),
    }
}

/// The answer to `GET /metrics` for the catalog gauge.
pub open spec fn get_metrics_response(records: Seq<ProductView>) -> ResponseView {
    message(Status::Success, gauge_text(records.len()))
}

/// The answer to `GET /health`.
pub open spec fn health_response(configured: Option<Seq<char>>) -> ResponseView {
    ResponseView { status: Status::Success, body: BodyView::Health(report_for(configured)) }
}

/// The answer to `GET /metrics` for the process-wide registry, given how
/// its rendering went.
pub open spec fn exposition_response(rendered: Result<Seq<u8>, ExpositionError>) -> ResponseView {
    match rendered {
        Ok(bytes) => ResponseView { status: Status::Success, body: BodyView::Exposition(bytes) },
        Err(_) => message(Status::InternalServerError, "Metrics unavailable"@),
    }
}

/// `GET /product/{id}`: the record on a hit, "Product not found" on a miss.
pub fn get_product(store: &CatalogStore, id: u32) -> (response: Response)
    ensures
        response@ == get_product_response(store@, id),
{
    match store.get(id) {
        Some(record) => Response { status: Status::Success, body: Body::Record(record) },
        None => Response::message(Status::NotFound, "Product not found"),
    }
}

/// `GET /products`: every record in stored order. An empty catalog answers
/// an empty list, not an error.
pub fn get_products(store: &CatalogStore) -> (response: Response)
    ensures
        response@ == get_products_response(store@),
{
    Response { status: Status::Success, body: Body::Records(store.list()) }
}

/// `POST /product`: creates the record of the body and answers it back; a
/// taken identifier is a conflict and an unreadable body a bad request, and
/// neither changes the catalog.
pub fn add_product(store: &mut CatalogStore, body: Option<Product>) -> (response: Response)
    ensures
        response@ == add_product_response(old(store)@, body_view(body)),
        final(store)@ == after_add_product(old(store)@, body_view(body)),
        ids_unique(final(store)@),
{
    match body {
        None => {
            proof {
                use_type_invariant(&*store);
            }
            Response::message(Status::BadRequest, "Malformed product")
        },
        Some(record) => {
            let copy = record.clone();
            match store.create(record) {
                Ok(_) => Response { status: Status::Created, body: Body::Record(copy) },
                Err(_) => Response::message(Status::Conflict, "Product already exists"),
            }
        },
    }
}

/// `PUT /product/{id}`: files the record of the body under `id`, in the
/// place of the record that carried `id`, and answers it back; an unknown
/// identifier is "Product not found" and an unreadable body a bad request,
/// and neither changes the catalog.
pub fn update_product(store: &mut CatalogStore, id: u32, body: Option<Product>) -> (response:
    Response)
    ensures
        response@ == update_product_response(old(store)@, id, body_view(body)),
        final(store)@ == after_update_product(old(store)@, id, body_view(body)),
        ids_unique(final(store)@),
{
    match body {
        None => {
            proof {
                use_type_invariant(&*store);
            }
            Response::message(Status::BadRequest, "Malformed product")
        },
        Some(record) => {
            let copy = record.clone().filed_under(id);
            match store.update(id, record) {
                Ok(_) => Response { status: Status::Success, body: Body::Record(copy) },
                Err(_) => Response::message(Status::NotFound, "Product not found"),
            }
        },
    }
}

/// `DELETE /product/{id}`: removes the record that carries `id`; an unknown
/// identifier is "Product not found" and changes nothing.
pub fn delete_product(store: &mut CatalogStore, id: u32) -> (response: Response)
    ensures
        response@ == delete_product_response(old(store)@, id),
        final(store)@ == after_delete(old(store)@, id),
        ids_unique(final(store)@),
{
    match store.delete(id) {
        Ok(_) => Response { status: Status::Success, body: Body::Empty },
        Err(_) => Response::message(Status::NotFound, "Product not found"),
    }
}

/// `GET /metrics` for the catalog: the number of products as a gauge in the
/// text exposition format.
pub fn get_metrics(store: &CatalogStore) -> (response: Response)
    ensures
        response@ == get_metrics_response(store@),
{
    Response { status: Status::Success, body: Body::Text(render_gauge(store.count())) }
}

/// `GET /health`: always succeeds, whatever the catalog holds. `configured`
/// is the version that the deployment configured, if it configured any.
pub fn health(configured: Option<String>) -> (response: Response)
    ensures
        response@ == health_response(text_view(configured)),
{
    Response { status: Status::Success, body: Body::Health(HealthReport::new(configured)) }
}

/// Answers a rendering of the process-wide registry: the bytes as they are,
/// or a server error with a fixed message that gives nothing away.
pub fn answer_exposition(rendered: Result<Vec<u8>, ExpositionError>) -> (response: Response)
    ensures
        response@ == exposition_response(rendering_view(rendered)),
{
    match rendered {
        Ok(bytes) => Response { status: Status::Success, body: Body::Exposition(bytes) },
        Err(_) => Response::message(Status::InternalServerError, "Metrics unavailable"),
    }
}

/// `GET /metrics` for the process-wide registry: whatever the process has
/// registered, in the text exposition format. Which families the process
/// holds is not for this library to say; the answer is the one that
/// [`exposition_response`] gives for the rendering of the families gathered:
/// 200 with their exposition, or a server error where one of them is
/// untyped or the encoder refuses them.
pub fn prometheus_metrics() -> (response: Response)
    ensures
        exists|families: Seq<MetricFamily>|
            response@ == exposition_response(#[trigger] rendering_of(families)),
{
    let rendered = render_registry();
    let ghost families = choose|families: Seq<MetricFamily>|
        rendering_view(rendered) == #[trigger] rendering_of(families);
    let response = answer_exposition(rendered);
    assert(response@ == exposition_response(rendering_of(families)));
    response
}

} // verus!
