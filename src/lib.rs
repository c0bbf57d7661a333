//! Request-to-persistence layer of the Sweet Models admin service: session
//! issuance and a device registry, with the outcomes of the store mapped to
//! API results.
pub mod error;
pub mod model;
pub mod registry;
pub mod session;
pub mod store;
pub mod text;
