//! Client library for a REST API that returns resources one at a time or in
//! cursor-paginated collections: building authenticated requests, executing
//! them, classifying the response, and exposing the results either as a
//! single page or as a lazily fetched, cross-page sequence of items.

pub mod api;
pub mod error;
pub mod internal_api;
pub mod json;
pub mod pagination;
pub mod repository;
pub mod requests;

pub use api::API;
pub use error::Error;
pub use json::Json;
pub use pagination::PageIterator;
pub use pagination::Paginated;
