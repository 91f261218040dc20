//! The closed set of failures that the service reports.

use vstd::prelude::*;

verus! {

/// Why one field of a payload was rejected.
#[derive(Debug, Clone, PartialEq, Eq)]
pub struct FieldCause {
    pub field: String,
    pub message: String,
}

/// Mathematical value of a [`FieldCause`].
pub struct FieldCauseView {
    pub field: Seq<char>,
    pub message: Seq<char>,
}

impl View for FieldCause {
    type V = FieldCauseView;

    open spec fn view(&self) -> FieldCauseView {
        FieldCauseView { field: self.field@, message: self.message@ }
    }
}

/// Views of a sequence of causes, element by element.
pub open spec fn cause_views(causes: Seq<FieldCause>) -> Seq<FieldCauseView> {
    causes.map_values(|c: FieldCause| c@)
}

/// A failure of a service call.
#[derive(Debug, Clone, PartialEq, Eq)]
pub enum ApiErrorType {
    /// The payload broke a length rule; one cause per offending field.
    ValidationError { validation_error: Vec<FieldCause>, object: String },
    /// The identifier is malformed.
    BadRequest,
    /// No task has the identifier.
    TaskNotFound,
    /// The store failed, or answered in a way that breaks its contract.
    InternalServerError,
    /// The grouping query failed.
    AggregatorError,
}

/// Mathematical value of an [`ApiErrorType`].
pub enum ApiErrorView {
    ValidationError { validation_error: Seq<FieldCauseView>, object: Seq<char> },
    BadRequest,
    TaskNotFound,
    InternalServerError,
    AggregatorError,
}

impl View for ApiErrorType {
    type V = ApiErrorView;

    open spec fn view(&self) -> ApiErrorView {
        match self {
            ApiErrorType::ValidationError { validation_error, object } => {
                ApiErrorView::ValidationError {
                    validation_error: cause_views(validation_error@),
                    object: object@,
                }
            },
            ApiErrorType::BadRequest => ApiErrorView::BadRequest,
            ApiErrorType::TaskNotFound => ApiErrorView::TaskNotFound,
            ApiErrorType::InternalServerError => ApiErrorView::InternalServerError,
            ApiErrorType::AggregatorError => ApiErrorView::AggregatorError,
        }
    }
}

} // verus!
