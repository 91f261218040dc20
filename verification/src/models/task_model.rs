//! The task record and the per-status count derived from it.

use vstd::prelude::*;
use vstd::string::*;
use crate::models::error_model::{ApiErrorType, ApiErrorView, FieldCause, FieldCauseView};

verus! {

/// Fewest characters a title may have.
pub const TITLE_MIN_CHARS: usize = 5;

/// Fewest characters a body may have.
pub const BODY_MIN_CHARS: usize = 10;

/// A title and body record. `id` is absent on a payload that a caller sends
/// and present on every record that the store holds.
#[derive(Debug, Clone, PartialEq, Eq)]
pub struct Task {
    pub id: Option<String>,
    pub title: String,
    pub body: String,
}

/// Mathematical value of a [`Task`].
pub struct TaskView {
    pub id: Option<Seq<char>>,
    pub title: Seq<char>,
    pub body: Seq<char>,
}

impl View for Task {
    type V = TaskView;

    open spec fn view(&self) -> TaskView {
        TaskView {
            id: match self.id {
                Some(id) => Some(id@),
                None => None,
            },
            title: self.title@,
            body: self.body@,
        }
    }
}

/// Whether a title is long enough.
pub open spec fn title_is_valid(title: Seq<char>) -> bool {
    title.len() >= 5
}

/// Whether a body is long enough.
pub open spec fn body_is_valid(body: Seq<char>) -> bool {
    body.len() >= 10
}

/// The cause reported for a title that is too short.
pub open spec fn title_cause() -> FieldCauseView {
    FieldCauseView { field: "title"@, message: "Title must have minimum of 5 characters"@ }
}

/// The cause reported for a body that is too short.
pub open spec fn body_cause() -> FieldCauseView {
    FieldCauseView { field: "body"@, message: "Body must have aleast 10 characters"@ }
}

/// The causes for which a payload is rejected: one per offending field, the
/// title's first. Empty exactly when the payload is valid.
pub open spec fn validation_causes(task: TaskView) -> Seq<FieldCauseView> {
    let for_title = if title_is_valid(task.title) {
        Seq::<FieldCauseView>::empty()
    } else {
        seq![title_cause()]
    };
    let for_body = if body_is_valid(task.body) {
        Seq::<FieldCauseView>::empty()
    } else {
        seq![body_cause()]
    };
    for_title + for_body
}

/// The failure reported for a payload that breaks a length rule.
pub open spec fn validation_failure(task: TaskView) -> ApiErrorView {
    ApiErrorView::ValidationError {
        validation_error: validation_causes(task),
        object: "Task"@,
    }
}

impl Task {
    /// Whether both length rules hold.
    pub open spec fn is_valid(&self) -> bool {
        title_is_valid(self.title@) && body_is_valid(self.body@)
    }

    /// Checks the length rules: a title of at least five characters and a
    /// body of at least ten. A failure names every offending field.
    pub fn validate(&self) -> (checked: Result<(), ApiErrorType>)
        ensures
            checked is Ok <==> self.is_valid(),
            checked is Err ==> checked.unwrap_err()@ == validation_failure(self@),
            checked is Err ==> 1 <= validation_causes(self@).len() <= 2,
    {
        let mut causes: Vec<FieldCause> = Vec::new();
        if self.title.as_str().unicode_len() < TITLE_MIN_CHARS {
            causes.push(
                FieldCause {
                    field: String::from_str("title"),
                    message: String::from_str("Title must have minimum of 5 characters"),
                },
            );
        }
        if self.body.as_str().unicode_len() < BODY_MIN_CHARS {
            causes.push(
                FieldCause {
                    field: String::from_str("body"),
                    message: String::from_str("Body must have aleast 10 characters"),
                },
            );
        }
        if causes.len() == 0 {
            Ok(())
        } else {
            let failure = ApiErrorType::ValidationError {
                validation_error: causes,
                object: String::from_str("Task"),
            };
            assert(crate::models::error_model::cause_views(causes@) =~= validation_causes(
                self@,
            ));
            Err(failure)
        }
    }
}

/// Number of tasks that share one status. `status` is absent for the group
/// of tasks that carry no status.
#[derive(Debug, Clone, PartialEq, Eq)]
pub struct TaskAggregate {
    pub status: Option<String>,
    pub count: i64,
}

/// Mathematical value of a [`TaskAggregate`].
pub struct TaskAggregateView {
    pub status: Option<Seq<char>>,
    pub count: int,
}

impl View for TaskAggregate {
    type V = TaskAggregateView;

    open spec fn view(&self) -> TaskAggregateView {
        TaskAggregateView {
            status: match self.status {
                Some(status) => Some(status@),
                None => None,
            },
            count: self.count as int,
        }
    }
}

impl TaskAggregate {
    /// A count is never negative.
    pub open spec fn well_formed(&self) -> bool {
        self.count >= 0
    }
}

/// View of an optional aggregate.
pub open spec fn optional_aggregate_view(group: Option<TaskAggregate>) -> Option<
    TaskAggregateView,
> {
    match group {
        Some(g) => Some(g@),
        None => None,
    }
}

/// Views of a sequence of tasks, element by element.
pub open spec fn task_views(tasks: Seq<Task>) -> Seq<TaskView> {
    tasks.map_values(|t: Task| t@)
}

/// Views of a sequence of aggregates, element by element.
pub open spec fn aggregate_views(groups: Seq<TaskAggregate>) -> Seq<TaskAggregateView> {
    groups.map_values(|g: TaskAggregate| g@)
}

} // verus!
