//! Payment intake service core: HTTP value types, processor health
//! selection, the payment-creation workflow and the request and response
//! bodies, all stated with contracts. Network, cache and database calls are
//! made by the service binary, which drives the workflows defined here.
pub mod application;
pub mod infrastructure;
pub mod presentation;
