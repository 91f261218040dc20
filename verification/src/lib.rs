//! Task-management core: request validation, the decisions taken around each
//! round trip to the document store, pagination links and status aggregation.
//!
//! The library performs no I/O. Every operation is a small state machine: it
//! hands out the store request to perform and is resumed with the store's reply.

pub mod api;
pub mod constants;
pub mod models;
pub mod render;
pub mod repository;
pub mod services;
