//! Decision and payload logic of an HTTP interceptor that reports failed
//! requests to an error tracker.

pub mod fields;
pub mod laws;
pub mod middleware;
pub mod payload;
pub mod query;
pub mod reporter;
pub mod status;
pub mod target;
pub mod text;

pub use crate::middleware::{HoneybadgerHandler, HoneybadgerHandlerFuture, HoneybadgerMiddleware};
pub use crate::status::ErrorStatus;
