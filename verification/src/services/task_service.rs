//! The task service as a state machine. Each operation starts with a
//! [`Step`]: either the result, or a request for the store together with the
//! point at which the operation waits. [`resume`] takes that point and the
//! store's reply to the next step.

use vstd::prelude::*;
use crate::api::task_api::Pagination;
use crate::constants::{DEFAULT_LIMIT_SIZE, DEFAULT_OFFSET_SIZE};
use crate::models::error_model::{ApiErrorType, ApiErrorView};
use crate::models::task_list_response::{
    summary_views,
    Meta,
    MetaView,
    TaskListResponse,
    TaskListResponseView,
    Tasks,
    TasksView,
};
use crate::models::task_model::{
    aggregate_views,
    body_is_valid,
    title_is_valid,
    validation_failure,
    Task,
    TaskAggregate,
    TaskAggregateView,
    TaskView,
};
use crate::repository::task_repo;
use crate::repository::task_repo::{
    is_generated_id,
    summaries_of,
    FieldValue,
    FieldValueView,
    GroupDocument,
    GroupDocumentView,
    StoreRequest,
    StoreRequestView,
    StoreResponse,
    StoreResponseView,
};
use crate::services::pagination::{page_links, page_links_of, render_links, rendered_links};

verus! {

/// The point at which an operation waits for the store.
#[derive(Debug, Clone, PartialEq, Eq)]
pub enum Pending {
    /// A create waits for its insert.
    CreateInsert,
    /// A create waits for the fetch of the inserted record.
    CreateFetch,
    /// A get, or an update that matched, waits for its fetch.
    Fetch,
    /// An update of the task `id` waits for its match count.
    UpdateMatch { id: String },
    /// A delete waits for its delete count.
    Delete,
    /// A listing waits for its page.
    ListPage { offset: u64, limit: i64 },
    /// A listing waits for the total; `page` is absent where the page could
    /// not be had.
    ListCount { offset: u64, limit: i64, page: Option<Vec<Tasks>> },
    /// An aggregation waits for its groups.
    Aggregate,
}

/// Mathematical value of a [`Pending`].
pub enum PendingView {
    CreateInsert,
    CreateFetch,
    Fetch,
    UpdateMatch { id: Seq<char> },
    Delete,
    ListPage { offset: u64, limit: i64 },
    ListCount { offset: u64, limit: i64, page: Option<Seq<TasksView>> },
    Aggregate,
}

/// View of an optional page.
pub open spec fn optional_page_view(page: Option<Vec<Tasks>>) -> Option<Seq<TasksView>> {
    match page {
        Some(p) => Some(summary_views(p@)),
        None => None,
    }
}

impl View for Pending {
    type V = PendingView;

    open spec fn view(&self) -> PendingView {
        match self {
            Pending::CreateInsert => PendingView::CreateInsert,
            Pending::CreateFetch => PendingView::CreateFetch,
            Pending::Fetch => PendingView::Fetch,
            Pending::UpdateMatch { id } => PendingView::UpdateMatch { id: id@ },
            Pending::Delete => PendingView::Delete,
            Pending::ListPage { offset, limit } => PendingView::ListPage {
                offset: *offset,
                limit: *limit,
            },
            Pending::ListCount { offset, limit, page } => PendingView::ListCount {
                offset: *offset,
                limit: *limit,
                page: optional_page_view(*page),
            },
            Pending::Aggregate => PendingView::Aggregate,
        }
    }
}

/// What an operation that succeeded hands to the caller.
#[derive(Debug, Clone, PartialEq, Eq)]
pub enum Outcome {
    /// The record of a task that was just created.
    Created(Task),
    /// The current record of a task.
    Found(Task),
    /// The task was deleted; there is nothing to return.
    Deleted,
    /// One page of tasks.
    Listed(TaskListResponse),
    /// The number of tasks of each status.
    Aggregated(Vec<TaskAggregate>),
}

/// Mathematical value of an [`Outcome`].
pub enum OutcomeView {
    Created(TaskView),
    Found(TaskView),
    Deleted,
    Listed(TaskListResponseView),
    Aggregated(Seq<TaskAggregateView>),
}

impl View for Outcome {
    type V = OutcomeView;

    open spec fn view(&self) -> OutcomeView {
        match self {
            Outcome::Created(task) => OutcomeView::Created(task@),
            Outcome::Found(task) => OutcomeView::Found(task@),
            Outcome::Deleted => OutcomeView::Deleted,
            Outcome::Listed(response) => OutcomeView::Listed(response@),
            Outcome::Aggregated(groups) => OutcomeView::Aggregated(aggregate_views(groups@)),
        }
    }
}

/// View of the result of an operation.
pub open spec fn result_view(result: Result<Outcome, ApiErrorType>) -> Result<
    OutcomeView,
    ApiErrorView,
> {
    match result {
        Ok(outcome) => Ok(outcome@),
        Err(failure) => Err(failure@),
    }
}

/// What the service does next.
#[derive(Debug, PartialEq, Eq)]
pub enum Step {
    /// Perform `request` on the store and resume at `pending` with the reply.
    Call { request: StoreRequest, pending: Pending },
    /// The operation is over.
    Done { result: Result<Outcome, ApiErrorType> },
}

/// Mathematical value of a [`Step`].
pub enum StepView {
    Call { request: StoreRequestView, pending: PendingView },
    Done { result: Result<OutcomeView, ApiErrorView> },
}

impl View for Step {
    type V = StepView;

    open spec fn view(&self) -> StepView {
        match self {
            Step::Call { request, pending } => StepView::Call {
                request: request@,
                pending: pending@,
            },
            Step::Done { result } => StepView::Done { result: result_view(*result) },
        }
    }
}

/// The step that ends an operation with `failure`.
pub open spec fn failed(failure: ApiErrorView) -> StepView {
    StepView::Done { result: Err(failure) }
}

/// The step that ends an operation with `outcome`.
pub open spec fn succeeded(outcome: OutcomeView) -> StepView {
    StepView::Done { result: Ok(outcome) }
}

/// Whether `step` starts the creation of `new_task`: an insert of its title
/// and body under a generated identifier, after which the create waits for
/// the insert.
pub open spec fn is_create_call(step: StepView, new_task: TaskView) -> bool {
    &&& step is Call
    &&& step->pending == PendingView::CreateInsert
    &&& step->request is InsertOne
    &&& step->request->InsertOne_task.title == new_task.title
    &&& step->request->InsertOne_task.body == new_task.body
    &&& step->request->InsertOne_task.id is Some
    &&& is_generated_id(step->request->InsertOne_task.id.unwrap(), 21)
}

/// Whether a payload meets both length rules.
pub open spec fn payload_is_valid(payload: TaskView) -> bool {
    title_is_valid(payload.title) && body_is_valid(payload.body)
}

/// Whether `step` is a first step of a create of `new_task`: a payload that
/// breaks a length rule is rejected with a cause for each offending field and
/// nothing is asked of the store; a valid one is inserted under a generated
/// identifier.
pub open spec fn is_create_step(step: StepView, new_task: TaskView) -> bool {
    if payload_is_valid(new_task) {
        is_create_call(step, new_task)
    } else {
        step == failed(validation_failure(new_task))
    }
}

/// First step of a get: an empty identifier is a bad request, any other is
/// fetched.
pub open spec fn get_step(id: Seq<char>) -> StepView {
    if id.len() == 0 {
        failed(ApiErrorView::BadRequest)
    } else {
        StepView::Call { request: StoreRequestView::FindOne { id }, pending: PendingView::Fetch }
    }
}

/// First step of an update: an empty identifier is a bad request; a payload
/// that breaks a length rule is rejected with a cause for each offending
/// field, and nothing is asked of the store; otherwise title and body of the
/// task are replaced by those of the payload.
pub open spec fn update_step(id: Seq<char>, payload: TaskView) -> StepView {
    if id.len() == 0 {
        failed(ApiErrorView::BadRequest)
    } else if !payload_is_valid(payload) {
        failed(validation_failure(payload))
    } else {
        StepView::Call {
            request: StoreRequestView::UpdateOne { id, title: payload.title, body: payload.body },
            pending: PendingView::UpdateMatch { id },
        }
    }
}

/// First step of a delete: with an empty identifier there is no such task;
/// any other is deleted.
pub open spec fn delete_step(id: Seq<char>) -> StepView {
    if id.len() == 0 {
        failed(ApiErrorView::TaskNotFound)
    } else {
        StepView::Call {
            request: StoreRequestView::DeleteOne { id },
            pending: PendingView::Delete,
        }
    }
}

/// The offset of a listing: the caller's, or zero.
pub open spec fn resolved_offset(pagination: Pagination) -> u64 {
    match pagination.offset {
        Some(offset) => offset,
        None => 0,
    }
}

/// The limit of a listing: the caller's, or twenty.
pub open spec fn resolved_limit(pagination: Pagination) -> i64 {
    match pagination.limit {
        Some(limit) => limit,
        None => 20,
    }
}

/// First step of a listing: the page at the resolved window is asked for.
pub open spec fn list_step(pagination: Pagination) -> StepView {
    StepView::Call {
        request: StoreRequestView::Find {
            skip: resolved_offset(pagination),
            limit: resolved_limit(pagination),
        },
        pending: PendingView::ListPage {
            offset: resolved_offset(pagination),
            limit: resolved_limit(pagination),
        },
    }
}

/// First step of an aggregation.
pub open spec fn aggregate_step() -> StepView {
    StepView::Call { request: StoreRequestView::Aggregate, pending: PendingView::Aggregate }
}

/// What a fetch gives the caller: the record, `TaskNotFound` where there is
/// none, `InternalServerError` where the store failed or answered something
/// else than a fetch.
pub open spec fn fetched(reply: StoreResponseView) -> Result<OutcomeView, ApiErrorView> {
    match reply {
        StoreResponseView::Found { task: Some(task) } => Ok(OutcomeView::Found(task)),
        StoreResponseView::Found { task: None } => Err(ApiErrorView::TaskNotFound),
        _ => Err(ApiErrorView::InternalServerError),
    }
}

/// The envelope of a listing: the page, the window and total that describe
/// it, and the rendered links.
pub open spec fn list_response_of(
    page: Seq<TasksView>,
    offset: u64,
    limit: i64,
    total: u64,
) -> TaskListResponseView {
    TaskListResponseView {
        data: page,
        meta: MetaView {
            offset: offset as int,
            limit: limit as int,
            total_results: total as int,
            search_criteria: None,
            sort_by: None,
        },
        _link: rendered_links(page_links_of(offset as int, limit as int, total as int)),
    }
}

/// The aggregate that a grouping entry decodes to, if it does: the count must
/// be an integer that is not negative, the status a string, null or missing.
pub open spec fn decoded_group(entry: Option<GroupDocumentView>) -> Option<TaskAggregateView> {
    match entry {
        Some(GroupDocumentView { status, count: FieldValueView::Integer(n) }) => {
            if n < 0 {
                None
            } else {
                match status {
                    FieldValueView::Text(text) => Some(
                        TaskAggregateView { status: Some(text), count: n as int },
                    ),
                    FieldValueView::Null => Some(
                        TaskAggregateView { status: None, count: n as int },
                    ),
                    FieldValueView::Missing => Some(
                        TaskAggregateView { status: None, count: n as int },
                    ),
                    _ => None,
                }
            }
        },
        _ => None,
    }
}

/// The aggregates of the entries that decode, in the order of the entries;
/// the others are left out.
pub open spec fn decoded_groups(entries: Seq<Option<GroupDocumentView>>) -> Seq<
    TaskAggregateView,
>
    decreases entries.len(),
{
    if entries.len() == 0 {
        Seq::empty()
    } else {
        let before = decoded_groups(entries.drop_last());
        match decoded_group(entries.last()) {
            Some(group) => before.push(group),
            None => before,
        }
    }
}

/// The step that follows when an operation waiting at `pending` gets `reply`.
///
/// A failed store call ends the operation with `InternalServerError`, and so
/// does a reply of a kind that the operation did not ask for; a failed
/// aggregation ends with `AggregatorError`. A listing asks for the total
/// whether or not it got its page, and fails after that if either is missing.
pub open spec fn next_step(pending: PendingView, reply: StoreResponseView) -> StepView {
    match pending {
        PendingView::CreateInsert => match reply {
            StoreResponseView::Inserted { inserted_id } => StepView::Call {
                request: StoreRequestView::FindOne { id: inserted_id },
                pending: PendingView::CreateFetch,
            },
            _ => failed(ApiErrorView::InternalServerError),
        },
        PendingView::CreateFetch => match reply {
            StoreResponseView::Found { task: Some(task) } => succeeded(OutcomeView::Created(task)),
            _ => failed(ApiErrorView::InternalServerError),
        },
        PendingView::Fetch => StepView::Done { result: fetched(reply) },
        PendingView::UpdateMatch { id } => match reply {
            StoreResponseView::Updated { matched_count } => if matched_count == 1 {
                StepView::Call {
                    request: StoreRequestView::FindOne { id },
                    pending: PendingView::Fetch,
                }
            } else {
                failed(ApiErrorView::TaskNotFound)
            },
            _ => failed(ApiErrorView::InternalServerError),
        },
        PendingView::Delete => match reply {
            StoreResponseView::Deleted { deleted_count } => if deleted_count == 1 {
                succeeded(OutcomeView::Deleted)
            } else {
                failed(ApiErrorView::TaskNotFound)
            },
            _ => failed(ApiErrorView::InternalServerError),
        },
        PendingView::ListPage { offset, limit } => StepView::Call {
            request: StoreRequestView::CountDocuments,
            pending: PendingView::ListCount {
                offset,
                limit,
                page: match reply {
                    StoreResponseView::Listed { tasks } => Some(summaries_of(tasks)),
                    _ => None,
                },
            },
        },
        PendingView::ListCount { offset, limit, page } => match (page, reply) {
            (Some(p), StoreResponseView::Counted { total }) => succeeded(
                OutcomeView::Listed(list_response_of(p, offset, limit, total)),
            ),
            _ => failed(ApiErrorView::InternalServerError),
        },
        PendingView::Aggregate => match reply {
            StoreResponseView::Grouped { groups } => succeeded(
                OutcomeView::Aggregated(decoded_groups(groups)),
            ),
            _ => failed(ApiErrorView::AggregatorError),
        },
    }
}

/// Starts the creation of a task. A payload that breaks a length rule is
/// rejected at once; for a valid one the store is asked to insert it under a
/// fresh identifier.
pub fn create_task(new_task: Task) -> (step: Step)
    ensures
        is_create_step(step@, new_task@),
{
    match new_task.validate() {
        Ok(_) => {
            let data = Task { id: None, title: new_task.title, body: new_task.body };
            Step::Call { request: task_repo::create_task(data), pending: Pending::CreateInsert }
        },
        Err(failure) => Step::Done { result: Err(failure) },
    }
}

/// Starts a get.
pub fn get_task_by_id(id: String) -> (step: Step)
    ensures
        step@ == get_step(id@),
{
    if id.as_str().is_empty() {
        return Step::Done { result: Err(ApiErrorType::BadRequest) };
    }
    Step::Call { request: task_repo::get_task(&id), pending: Pending::Fetch }
}

/// Starts an update. The identifier is looked at first, then the payload's
/// length rules. An identifier that the payload carries is ignored: the task
/// keeps the one it is addressed by.
pub fn update_task(id: String, payload: Task) -> (step: Step)
    ensures
        step@ == update_step(id@, payload@),
{
    if id.as_str().is_empty() {
        return Step::Done { result: Err(ApiErrorType::BadRequest) };
    }
    match payload.validate() {
        Ok(_) => {},
        Err(failure) => {
            return Step::Done { result: Err(failure) };
        },
    }
    let request = task_repo::update_task(&id, payload);
    Step::Call { request, pending: Pending::UpdateMatch { id } }
}

/// Starts a delete.
pub fn delete_task(id: String) -> (step: Step)
    ensures
        step@ == delete_step(id@),
{
    if id.as_str().is_empty() {
        return Step::Done { result: Err(ApiErrorType::TaskNotFound) };
    }
    Step::Call { request: task_repo::delete_task(&id), pending: Pending::Delete }
}

/// Starts a listing, with the defaults for what the caller left out.
pub fn get_all_tasks(pagination: &Pagination) -> (step: Step)
    ensures
        step@ == list_step(*pagination),
{
    let offset: u64 = match pagination.offset {
        Some(offset) => offset,
        None => DEFAULT_OFFSET_SIZE,
    };
    let limit: i64 = match pagination.limit {
        Some(limit) => limit,
        None => DEFAULT_LIMIT_SIZE,
    };
    Step::Call {
        request: task_repo::get_all_tasks(offset, limit),
        pending: Pending::ListPage { offset, limit },
    }
}

/// Turns the reply to a fetch into what the caller gets.
pub fn handle_optional_task_response(reply: StoreResponse) -> (result: Result<
    Outcome,
    ApiErrorType,
>)
    ensures
        result_view(result) == fetched(reply@),
{
    match reply {
        StoreResponse::Found { task: Some(task) } => Ok(Outcome::Found(task)),
        StoreResponse::Found { task: None } => Err(ApiErrorType::TaskNotFound),
        _ => Err(ApiErrorType::InternalServerError),
    }
}

/// Builds the envelope of a listing from the page, the window and the total.
pub fn list_response(page: Vec<Tasks>, offset: u64, limit: i64, total: u64) -> (response:
    TaskListResponse)
    ensures
        response@ == list_response_of(summary_views(page@), offset, limit, total),
{
    TaskListResponse {
        data: page,
        meta: Meta { offset, limit, total_results: total, search_criteria: None, sort_by: None },
        _link: render_links(page_links(offset, limit, total)),
    }
}

/// Decodes one grouping entry; `None` where it does not decode.
pub fn decode_group(entry: &Option<GroupDocument>) -> (group: Option<TaskAggregate>)
    ensures
        crate::models::task_model::optional_aggregate_view(group) == decoded_group(
            task_repo::group_entry_view(*entry),
        ),
        group is Some ==> group.unwrap().well_formed(),
{
    match entry {
        Some(doc) => match &doc.count {
            FieldValue::Integer(n) => {
                if *n < 0 {
                    None
                } else {
                    match &doc.status {
                        FieldValue::Text(text) => Some(
                            TaskAggregate { status: Some(text.clone()), count: *n },
                        ),
                        FieldValue::Null => Some(TaskAggregate { status: None, count: *n }),
                        FieldValue::Missing => Some(TaskAggregate { status: None, count: *n }),
                        _ => None,
                    }
                }
            },
            _ => None,
        },
        None => None,
    }
}

/// Decodes the entries of a grouping reply. An entry that does not decode is
/// left out and the others keep their order.
pub fn decode_groups(entries: &Vec<Option<GroupDocument>>) -> (groups: Vec<TaskAggregate>)
    ensures
        aggregate_views(groups@) == decoded_groups(task_repo::group_entry_views(entries@)),
        forall|k: int| 0 <= k < groups.len() ==> (#[trigger] groups[k]).well_formed(),
        groups.len() <= entries.len(),
{
    let mut groups: Vec<TaskAggregate> = Vec::new();
    let mut i: usize = 0;
    let ghost views = task_repo::group_entry_views(entries@);
    while i < entries.len()
        invariant
            i <= entries.len(),
            groups.len() <= i,
            views == task_repo::group_entry_views(entries@),
            aggregate_views(groups@) == decoded_groups(views.take(i as int)),
            forall|k: int| 0 <= k < groups.len() ==> (#[trigger] groups[k]).well_formed(),
        decreases entries.len() - i,
    {
        let ghost before = groups@;
        proof {
            assert(views.take(i + 1).drop_last() =~= views.take(i as int));
            assert(views.take(i + 1).last() == task_repo::group_entry_view(entries[i as int]));
        }
        match decode_group(&entries[i]) {
            Some(group) => {
                groups.push(group);
                assert(aggregate_views(groups@) =~= aggregate_views(before).push(group@));
            },
            None => {},
        }
        i += 1;
    }
    assert(views.take(i as int) =~= views);
    groups
}

/// Resumes the operation that waits at `pending` with the store's reply.
pub fn resume(pending: Pending, reply: StoreResponse) -> (step: Step)
    ensures
        step@ == next_step(pending@, reply@),
{
    match pending {
        Pending::CreateInsert => match reply {
            StoreResponse::Inserted { inserted_id } => Step::Call {
                request: task_repo::get_task(&inserted_id),
                pending: Pending::CreateFetch,
            },
            _ => Step::Done { result: Err(ApiErrorType::InternalServerError) },
        },
        Pending::CreateFetch => match reply {
            StoreResponse::Found { task: Some(task) } => Step::Done {
                result: Ok(Outcome::Created(task)),
            },
            _ => Step::Done { result: Err(ApiErrorType::InternalServerError) },
        },
        Pending::Fetch => Step::Done { result: handle_optional_task_response(reply) },
        Pending::UpdateMatch { id } => match reply {
            StoreResponse::Updated { matched_count } => {
                if matched_count == 1 {
                    Step::Call { request: task_repo::get_task(&id), pending: Pending::Fetch }
                } else {
                    Step::Done { result: Err(ApiErrorType::TaskNotFound) }
                }
            },
            _ => Step::Done { result: Err(ApiErrorType::InternalServerError) },
        },
        Pending::Delete => match reply {
            StoreResponse::Deleted { deleted_count } => {
                if deleted_count == 1 {
                    Step::Done { result: Ok(Outcome::Deleted) }
                } else {
                    Step::Done { result: Err(ApiErrorType::TaskNotFound) }
                }
            },
            _ => Step::Done { result: Err(ApiErrorType::InternalServerError) },
        },
        Pending::ListPage { offset, limit } => {
            let page = match reply {
                StoreResponse::Listed { tasks } => Some(task_repo::summaries(tasks)),
                _ => None,
            };
            Step::Call {
                request: task_repo::get_tasks_size(),
                pending: Pending::ListCount { offset, limit, page },
            }
        },
        Pending::ListCount { offset, limit, page } => match (page, reply) {
            (Some(p), StoreResponse::Counted { total }) => Step::Done {
                result: Ok(Outcome::Listed(list_response(p, offset, limit, total))),
            },
            _ => Step::Done { result: Err(ApiErrorType::InternalServerError) },
        },
        Pending::Aggregate => match reply {
            StoreResponse::Grouped { groups } => Step::Done {
                result: Ok(Outcome::Aggregated(decode_groups(&groups))),
            },
            _ => Step::Done { result: Err(ApiErrorType::AggregatorError) },
        },
    }
}

/// The service over one collection of tasks.
#[derive(Debug, Clone, PartialEq, Eq)]
pub struct TaskService {
    pub database: String,
    pub collection: String,
}

impl TaskService {
    /// A service over the collection `collection` of `database`.
    pub fn new(database: String, collection: String) -> (service: Self)
        ensures
            service.database@ == database@,
            service.collection@ == collection@,
    {
        TaskService { database, collection }
    }

    /// Starts an aggregation: the store is asked for the number of tasks of
    /// each status.
    pub fn aggregate_tasks(&self) -> (step: Step)
        ensures
            step@ == aggregate_step(),
    {
        Step::Call { request: StoreRequest::Aggregate, pending: Pending::Aggregate }
    }
}

} // verus!
