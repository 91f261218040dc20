//! What a caller hands to the service.

pub mod task_api;
