//! The entry of a create call and the window of a listing.

use vstd::prelude::*;
use crate::models::task_model::Task;
use crate::services::task_service;
use crate::services::task_service::{is_create_step, Step};

verus! {

/// The window that a caller asks for; either part may be left out.
#[derive(Debug, Clone, Copy, PartialEq, Eq)]
pub struct Pagination {
    pub offset: Option<u64>,
    pub limit: Option<i64>,
}

/// Entry of a create call: the payload goes to the service, which checks the
/// length rules before anything is asked of the store.
pub fn create_task(new_task: Task) -> (step: Step)
    ensures
        is_create_step(step@, new_task@),
{
    task_service::create_task(new_task)
}

} // verus!
