//! A time-bounded read-through cache for a JSON content API, with a
//! path-resolution layer on top of it.
//!
//! The heart of the crate is [`cache::Cache`], a read-through cache whose
//! behaviour is pinned down by a mathematical model over a map from keys to
//! stored entries.  [`resolver::JsonApiClientService`] layers path
//! translation and typed-resource fetching over that primitive, and
//! [`errors::AppError`] is the closed failure taxonomy every operation
//! reports through.

pub mod cache;
pub mod errors;
pub mod purge;
pub mod resolver;
pub mod route;
pub mod store;
