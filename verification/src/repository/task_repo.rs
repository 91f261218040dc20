//! The seven operations of the task collection, as values: each function
//! here builds the request that the caller's driver performs on the store.

use vstd::prelude::*;
use crate::models::task_list_response::{summary_views, Tasks, TasksView};
use crate::models::task_model::{task_views, Task, TaskView};

verus! {

/// Number of characters of a generated identifier.
pub const ID_LENGTH: usize = 21;

/// One field of a grouped document, as far as the service reads it.
#[derive(Debug, Clone, PartialEq, Eq)]
pub enum FieldValue {
    /// The document has no such field.
    Missing,
    /// The field is null.
    Null,
    /// The field is a string.
    Text(String),
    /// The field is an integer.
    Integer(i64),
    /// The field is of any other type.
    Other,
}

/// Mathematical value of a [`FieldValue`].
pub enum FieldValueView {
    Missing,
    Null,
    Text(Seq<char>),
    Integer(i64),
    Other,
}

impl View for FieldValue {
    type V = FieldValueView;

    open spec fn view(&self) -> FieldValueView {
        match self {
            FieldValue::Missing => FieldValueView::Missing,
            FieldValue::Null => FieldValueView::Null,
            FieldValue::Text(t) => FieldValueView::Text(t@),
            FieldValue::Integer(n) => FieldValueView::Integer(*n),
            FieldValue::Other => FieldValueView::Other,
        }
    }
}

/// One document that the grouping query returned: the status that the group
/// was formed on and the number of tasks in it.
#[derive(Debug, Clone, PartialEq, Eq)]
pub struct GroupDocument {
    pub status: FieldValue,
    pub count: FieldValue,
}

/// Mathematical value of a [`GroupDocument`].
pub struct GroupDocumentView {
    pub status: FieldValueView,
    pub count: FieldValueView,
}

impl View for GroupDocument {
    type V = GroupDocumentView;

    open spec fn view(&self) -> GroupDocumentView {
        GroupDocumentView { status: self.status@, count: self.count@ }
    }
}

/// View of one entry of a grouping reply; `None` stands for a document that
/// the store could not deliver.
pub open spec fn group_entry_view(entry: Option<GroupDocument>) -> Option<GroupDocumentView> {
    match entry {
        Some(doc) => Some(doc@),
        None => None,
    }
}

/// Views of the entries of a grouping reply, element by element.
pub open spec fn group_entry_views(entries: Seq<Option<GroupDocument>>) -> Seq<
    Option<GroupDocumentView>,
> {
    entries.map_values(|e: Option<GroupDocument>| group_entry_view(e))
}

/// A request to the document store.
#[derive(Debug, Clone, PartialEq, Eq)]
pub enum StoreRequest {
    /// Insert the task; it carries its identifier.
    InsertOne { task: Task },
    /// Fetch the task with the identifier.
    FindOne { id: String },
    /// Replace title and body of the task with the identifier.
    UpdateOne { id: String, title: String, body: String },
    /// Delete the task with the identifier.
    DeleteOne { id: String },
    /// List tasks by ascending title, `skip` tasks in, at most `limit`.
    Find { skip: u64, limit: i64 },
    /// Count all tasks.
    CountDocuments,
    /// Count the tasks of each status.
    Aggregate,
}

/// Mathematical value of a [`StoreRequest`].
pub enum StoreRequestView {
    InsertOne { task: TaskView },
    FindOne { id: Seq<char> },
    UpdateOne { id: Seq<char>, title: Seq<char>, body: Seq<char> },
    DeleteOne { id: Seq<char> },
    Find { skip: u64, limit: i64 },
    CountDocuments,
    Aggregate,
}

impl View for StoreRequest {
    type V = StoreRequestView;

    open spec fn view(&self) -> StoreRequestView {
        match self {
            StoreRequest::InsertOne { task } => StoreRequestView::InsertOne { task: task@ },
            StoreRequest::FindOne { id } => StoreRequestView::FindOne { id: id@ },
            StoreRequest::UpdateOne { id, title, body } => StoreRequestView::UpdateOne {
                id: id@,
                title: title@,
                body: body@,
            },
            StoreRequest::DeleteOne { id } => StoreRequestView::DeleteOne { id: id@ },
            StoreRequest::Find { skip, limit } => StoreRequestView::Find {
                skip: *skip,
                limit: *limit,
            },
            StoreRequest::CountDocuments => StoreRequestView::CountDocuments,
            StoreRequest::Aggregate => StoreRequestView::Aggregate,
        }
    }
}

/// What the store answered. An absent task is an ordinary answer; `Failed`
/// stands for any failure of the store or of the way to it.
#[derive(Debug, Clone, PartialEq, Eq)]
pub enum StoreResponse {
    Inserted { inserted_id: String },
    Found { task: Option<Task> },
    Updated { matched_count: u64 },
    Deleted { deleted_count: u64 },
    Listed { tasks: Vec<Task> },
    Counted { total: u64 },
    Grouped { groups: Vec<Option<GroupDocument>> },
    Failed,
}

/// Mathematical value of a [`StoreResponse`].
pub enum StoreResponseView {
    Inserted { inserted_id: Seq<char> },
    Found { task: Option<TaskView> },
    Updated { matched_count: u64 },
    Deleted { deleted_count: u64 },
    Listed { tasks: Seq<TaskView> },
    Counted { total: u64 },
    Grouped { groups: Seq<Option<GroupDocumentView>> },
    Failed,
}

/// View of an optional task.
pub open spec fn optional_task_view(task: Option<Task>) -> Option<TaskView> {
    match task {
        Some(t) => Some(t@),
        None => None,
    }
}

impl View for StoreResponse {
    type V = StoreResponseView;

    open spec fn view(&self) -> StoreResponseView {
        match self {
            StoreResponse::Inserted { inserted_id } => StoreResponseView::Inserted {
                inserted_id: inserted_id@,
            },
            StoreResponse::Found { task } => StoreResponseView::Found {
                task: optional_task_view(*task),
            },
            StoreResponse::Updated { matched_count } => StoreResponseView::Updated {
                matched_count: *matched_count,
            },
            StoreResponse::Deleted { deleted_count } => StoreResponseView::Deleted {
                deleted_count: *deleted_count,
            },
            StoreResponse::Listed { tasks } => StoreResponseView::Listed {
                tasks: task_views(tasks@),
            },
            StoreResponse::Counted { total } => StoreResponseView::Counted { total: *total },
            StoreResponse::Grouped { groups } => StoreResponseView::Grouped {
                groups: group_entry_views(groups@),
            },
            StoreResponse::Failed => StoreResponseView::Failed,
        }
    }
}

/// Whether `c` may occur in a generated identifier: a letter, a digit, an
/// underscore or a hyphen.
pub open spec fn is_id_char(c: char) -> bool {
    ||| c == '_'
    ||| c == '-'
    ||| ('0' <= c && c <= '9')
    ||| ('a' <= c && c <= 'z')
    ||| ('A' <= c && c <= 'Z')
}

/// Whether `id` has the shape of a generated identifier of `size`
/// characters.
pub open spec fn is_generated_id(id: Seq<char>, size: nat) -> bool {
    &&& id.len() == size
    &&& forall|i: int| 0 <= i < id.len() ==> is_id_char(#[trigger] id[i])
}

/// Calls `nanoid::format` with the operating system's random source
/// (`nanoid::rngs::default`) and the URL-safe alphabet
/// (`nanoid::alphabet::SAFE`). Trusted: the result has `size` characters, each
/// of that alphabet. Which characters they are depends on chance, so nothing
/// more is claimed, and two calls may differ. A size of zero is left out: the
/// outside function would not return.
#[verifier::external_body]
fn random_id(size: usize) -> (id: String)
    requires
        1 <= size <= 1024,
    ensures
        is_generated_id(id@, size as nat),
{
    nanoid::format(nanoid::rngs::default, &nanoid::alphabet::SAFE, size)
}

/// The document stored for a new task: the payload's title and body under
/// the identifier `id`. An identifier that the payload carries is ignored.
pub fn new_document(id: String, new_task: Task) -> (doc: Task)
    ensures
        doc@ == (TaskView { id: Some(id@), title: new_task@.title, body: new_task@.body }),
{
    Task { id: Some(id), title: new_task.title, body: new_task.body }
}

/// The request that creates a task: an insert of the payload under a fresh
/// identifier of [`ID_LENGTH`] characters.
pub fn create_task(new_task: Task) -> (request: StoreRequest)
    ensures
        request@ is InsertOne,
        request@->InsertOne_task.title == new_task@.title,
        request@->InsertOne_task.body == new_task@.body,
        request@->InsertOne_task.id is Some,
        is_generated_id(request@->InsertOne_task.id.unwrap(), 21),
{
    let id = random_id(ID_LENGTH);
    StoreRequest::InsertOne { task: new_document(id, new_task) }
}

/// The request that fetches the task with the identifier.
pub fn get_task(id: &String) -> (request: StoreRequest)
    ensures
        request@ == (StoreRequestView::FindOne { id: id@ }),
{
    StoreRequest::FindOne { id: id.clone() }
}

/// The request that replaces title and body of the task with the identifier
/// by those of `updated_task`.
pub fn update_task(id: &String, updated_task: Task) -> (request: StoreRequest)
    ensures
        request@ == (StoreRequestView::UpdateOne {
            id: id@,
            title: updated_task@.title,
            body: updated_task@.body,
        }),
{
    StoreRequest::UpdateOne { id: id.clone(), title: updated_task.title, body: updated_task.body }
}

/// The request that deletes the task with the identifier.
pub fn delete_task(id: &String) -> (request: StoreRequest)
    ensures
        request@ == (StoreRequestView::DeleteOne { id: id@ }),
{
    StoreRequest::DeleteOne { id: id.clone() }
}

/// The request that lists one page of tasks by ascending title.
pub fn get_all_tasks(offset: u64, limit: i64) -> (request: StoreRequest)
    ensures
        request@ == (StoreRequestView::Find { skip: offset, limit }),
{
    StoreRequest::Find { skip: offset, limit }
}

/// The request that counts all tasks.
pub fn get_tasks_size() -> (request: StoreRequest)
    ensures
        request@ == StoreRequestView::CountDocuments,
{
    StoreRequest::CountDocuments
}

/// The summary of a listed task; a task without identifier gets the empty
/// one.
pub open spec fn summary_of(task: TaskView) -> TasksView {
    TasksView {
        id: match task.id {
            Some(id) => id,
            None => Seq::<char>::empty(),
        },
        title: task.title,
        body: task.body,
    }
}

/// The summaries of a listed page, in the order of the page.
pub open spec fn summaries_of(tasks: Seq<TaskView>) -> Seq<TasksView> {
    tasks.map_values(|t: TaskView| summary_of(t))
}

/// Turns a listed page into summaries, keeping its order.
pub fn summaries(tasks: Vec<Task>) -> (page: Vec<Tasks>)
    ensures
        summary_views(page@) == summaries_of(task_views(tasks@)),
{
    let mut page: Vec<Tasks> = Vec::new();
    let mut i: usize = 0;
    while i < tasks.len()
        invariant
            i <= tasks.len(),
            page.len() == i,
            forall|k: int| 0 <= k < i ==> (#[trigger] page[k])@ == summary_of(tasks[k]@),
        decreases tasks.len() - i,
    {
        let task = &tasks[i];
        let id = match &task.id {
            Some(id) => id.clone(),
            None => String::new(),
        };
        page.push(Tasks { id, title: task.title.clone(), body: task.body.clone() });
        i += 1;
    }
    assert(summary_views(page@) =~= summaries_of(task_views(tasks@)));
    page
}

} // verus!
