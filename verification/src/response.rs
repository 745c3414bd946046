//! What a handler answers: a status and a body, as plain values. Turning
//! them into bytes on the wire is left to the server.

use vstd::prelude::*;
use crate::health::{HealthReport, HealthView};
use crate::product::{Product, ProductView, views};

verus! {

/// The outcome class of a request.
#[derive(Clone, Copy, Debug, PartialEq, Eq, Structural)]
pub enum Status {
    /// The request succeeded.
    Success,
    /// The request succeeded and a record was created.
    Created,
    /// The request body could not be read as a product.
    BadRequest,
    /// No record carries the identifier.
    NotFound,
    /// A record already carries the identifier.
    Conflict,
    /// The service failed on its own account.
    InternalServerError,
}

impl Status {
    /// The HTTP status code.
    pub open spec fn code_of(self) -> u16 {
        match self {
            Status::Success => 200,
            Status::Created => 201,
            Status::BadRequest => 400,
            Status::NotFound => 404,
            Status::Conflict => 409,
            Status::InternalServerError => 500,
        }
    }

    /// The HTTP status code.
    pub fn code(self) -> (code: u16)
        ensures
            code == self.code_of(),
    {
        match self {
            Status::Success => 200,
            Status::Created => 201,
            Status::BadRequest => 400,
            Status::NotFound => 404,
            Status::Conflict => 409,
            Status::InternalServerError => 500,
        }
    }

    /// Whether the code lies in the 2xx class.
    pub fn is_success(self) -> (success: bool)
        ensures
            success == (200 <= self.code_of() < 300),
            success == (self == Status::Success || self == Status::Created),
    {
        match self {
            Status::Success => true,
            Status::Created => true,
            _ => false,
        }
    }
}

/// How a body is to be labelled on the wire.
#[derive(Clone, Copy, Debug, PartialEq, Eq, Structural)]
pub enum ContentType {
    /// A serialized record, list of records or report.
    Json,
    /// A plain message, or the catalog gauge.
    PlainText,
    /// The text exposition of the process-wide metrics registry.
    Exposition,
}

impl ContentType {
    /// The value of the `Content-Type` header.
    pub open spec fn header_text(self) -> Seq<char> {
        match self {
            ContentType::Json => "application/json"@,
            ContentType::PlainText => "text/plain; charset=utf-8"@,
            ContentType::Exposition => "text/plain; version=0.0.4; charset=utf-8"@,
        }
    }

    /// The value of the `Content-Type` header.
    pub fn header_value(self) -> (value: &'static str)
        ensures
            value@ == self.header_text(),
    {
        match self {
            ContentType::Json => "application/json",
            ContentType::PlainText => "text/plain; charset=utf-8",
            ContentType::Exposition => "text/plain; version=0.0.4; charset=utf-8",
        }
    }
}

/// The body of a response, before serialization.
#[derive(Debug)]
pub enum Body {
    /// No body.
    Empty,
    /// A plain message.
    Text(String),
    /// One record.
    Record(Product),
    /// A list of records; an empty list is a body like any other.
    Records(Vec<Product>),
    /// The health report.
    Health(HealthReport),
    /// Metrics already encoded in the text exposition format.
    Exposition(Vec<u8>),
}

/// The mathematical value of a [`Body`].
pub ghost enum BodyView {
    Empty,
    Text(Seq<char>),
    Record(ProductView),
    Records(Seq<ProductView>),
    Health(HealthView),
    Exposition(Seq<u8>),
}

impl View for Body {
    type V = BodyView;

    open spec fn view(&self) -> BodyView {
        match self {
            Body::Empty => BodyView::Empty,
            Body::Text(text) => BodyView::Text(text@),
            Body::Record(record) => BodyView::Record(record@),
            Body::Records(records) => BodyView::Records(views(records@)),
            Body::Health(report) => BodyView::Health(report@),
            Body::Exposition(bytes) => BodyView::Exposition(bytes@),
        }
    }
}

impl BodyView {
    /// The label that the body goes out under; none for an empty body.
    pub open spec fn content_type(self) -> Option<ContentType> {
        match self {
            BodyView::Empty => None,
            BodyView::Text(_) => Some(ContentType::PlainText),
            BodyView::Record(_) => Some(ContentType::Json),
            BodyView::Records(_) => Some(ContentType::Json),
            BodyView::Health(_) => Some(ContentType::Json),
            BodyView::Exposition(_) => Some(ContentType::Exposition),
        }
    }
}

impl Body {
    /// The label that the body goes out under; none for an empty body.
    pub fn content_type(&self) -> (label: Option<ContentType>)
        ensures
            label == self@.content_type(),
    {
        match self {
            Body::Empty => None,
            Body::Text(_) => Some(ContentType::PlainText),
            Body::Record(_) => Some(ContentType::Json),
            Body::Records(_) => Some(ContentType::Json),
            Body::Health(_) => Some(ContentType::Json),
            Body::Exposition(_) => Some(ContentType::Exposition),
        }
    }
}

/// The answer to one request.
#[derive(Debug)]
pub struct Response {
    pub status: Status,
    pub body: Body,
}

/// The mathematical value of a [`Response`].
pub ghost struct ResponseView {
    pub status: Status,
    pub body: BodyView,
}

impl View for Response {
    type V = ResponseView;

    open spec fn view(&self) -> ResponseView {
        ResponseView { status: self.status, body: self.body@ }
    }
}

/// A response that carries a plain message.
pub open spec fn message(status: Status, text: Seq<char>) -> ResponseView {
    ResponseView { status, body: BodyView::Text(text) }
}

impl Response {
    /// A response that carries the plain message `text`.
    pub fn message(status: Status, text: &str) -> (response: Self)
        ensures
            response@ == message(status, text@),
    {
        Response { status, body: Body::Text(text.to_string()) }
    }
}

} // verus!
