//! A per-user shopping basket: the line-item model, the mutations that the
//! service applies to a stored basket, and the key under which a basket is
//! kept in the store.

pub mod engine;
pub mod laws;
pub mod model;
pub mod store;
