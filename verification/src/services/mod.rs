//! The decisions of the task service.

pub mod aggregator_service;
pub mod guarantees;
pub mod pagination;
pub mod task_service;
