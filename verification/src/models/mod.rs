//! The data the service exchanges with its callers and with the store.

pub mod error_model;
pub mod task_list_response;
pub mod task_model;
