//! The requests that reach the document store and the replies it gives.

pub mod store_model;
pub mod task_repo;
