//! An in-memory product catalog and the request handling around it.
//!
//! - [`product`]: the record that the catalog stores.
//! - [`catalog`]: the store, in which no identifier occurs twice, and the
//!   models of its operations.
//! - [`laws`]: what holds of those models, proved.
//! - [`response`] and [`handlers`]: what each request is answered with.
//! - [`shared`]: the store behind a reader-writer lock, for handlers that
//!   run side by side.
//! - [`metrics`] and [`registry`]: the catalog gauge, and the process-wide
//!   metrics registry.
//! - [`health`] and [`telemetry`]: the health report and the tracer settings.
//! - [`orders`] and [`random`]: the decisions of the programs that submit
//!   and process orders.

pub mod catalog;
pub mod handlers;
pub mod health;
pub mod laws;
pub mod metrics;
pub mod orders;
pub mod product;
pub mod random;
pub mod registry;
pub mod response;
pub mod shared;
pub mod telemetry;
