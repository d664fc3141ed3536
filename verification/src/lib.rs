//! An adapter that makes a request filter usable as a generic request
//! handler, while guaranteeing that every request carries a lazily
//! initialized per-request store by the time the inner handler runs.

pub mod ext;
pub mod filter;
pub mod handler;
pub mod request;
pub mod service;
pub mod store;
