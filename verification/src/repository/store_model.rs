//! What the service expects of the store, as a mathematical model: the
//! collection is a map from identifier to title, body and status, and each
//! request has the answers that such a collection may give.

use vstd::prelude::*;
use crate::models::task_model::{body_is_valid, title_is_valid, TaskView};
use crate::repository::task_repo::{
    FieldValueView,
    GroupDocumentView,
    StoreRequestView,
    StoreResponseView,
};

verus! {

/// Whether the text `a` equals `b` or comes before it, comparing character
/// by character from the front; a text comes after each of its beginnings.
pub open spec fn text_le(a: Seq<char>, b: Seq<char>) -> bool
    decreases a.len(),
{
    if a.len() == 0 {
        true
    } else if b.len() == 0 {
        false
    } else if a[0] != b[0] {
        a[0] < b[0]
    } else {
        text_le(a.skip(1), b.skip(1))
    }
}

/// Whether the titles of `tasks` ascend, equal titles side by side.
pub open spec fn titles_ascend(tasks: Seq<TaskView>) -> bool {
    forall|i: int, j: int|
        0 <= i < j < tasks.len() ==> text_le((#[trigger] tasks[i]).title, (#[trigger] tasks[j]).title)
}

/// Whether the titles of `tasks` ascend and no two are equal.
pub open spec fn titles_ascend_strictly(tasks: Seq<TaskView>) -> bool {
    forall|i: int, j: int|
        0 <= i < j < tasks.len() ==> !text_le(
            (#[trigger] tasks[j]).title,
            (#[trigger] tasks[i]).title,
        )
}

/// The part of `all` that a listing with `skip` and a limit that is not
/// negative asks for: what follows the first `skip` tasks, cut to `limit`
/// tasks where the limit is positive. A limit of zero does not cut.
pub open spec fn window(all: Seq<TaskView>, skip: u64, limit: i64) -> Seq<TaskView> {
    if skip >= all.len() {
        Seq::empty()
    } else if limit > 0 && skip + limit < all.len() {
        all.subrange(skip as int, skip + limit)
    } else {
        all.skip(skip as int)
    }
}

/// The status that a grouping entry stands for: the text of its status
/// field, or none where the field holds no text.
pub open spec fn group_status(entry: Option<GroupDocumentView>) -> Option<Seq<char>> {
    match entry {
        Some(GroupDocumentView { status: FieldValueView::Text(text), count }) => Some(text),
        _ => None,
    }
}

/// The field that a group carries for `status`: its text, or null for the
/// tasks without status.
pub open spec fn status_field(status: Option<Seq<char>>) -> FieldValueView {
    match status {
        Some(text) => FieldValueView::Text(text),
        None => FieldValueView::Null,
    }
}

/// Title, body and status of a stored task. No request of the service sets
/// the status: it is there for the grouping to read.
pub struct StoredTask {
    pub title: Seq<char>,
    pub body: Seq<char>,
    pub status: Option<Seq<char>>,
}

/// The collection of tasks: each identifier occurs at most once.
pub struct StoreModel {
    pub tasks: Map<Seq<char>, StoredTask>,
}

impl StoreModel {
    /// Whether a task has the identifier.
    pub open spec fn holds(self, id: Seq<char>) -> bool {
        self.tasks.dom().contains(id)
    }

    /// The record of the task with the identifier.
    pub open spec fn record(self, id: Seq<char>) -> TaskView {
        TaskView { id: Some(id), title: self.tasks[id].title, body: self.tasks[id].body }
    }

    /// The task with the identifier, if there is one.
    pub open spec fn fetch(self, id: Seq<char>) -> Option<TaskView> {
        if self.holds(id) {
            Some(self.record(id))
        } else {
            None
        }
    }

    /// The number of tasks that a request on the identifier touches.
    pub open spec fn matches(self, id: Seq<char>) -> u64 {
        if self.holds(id) {
            1
        } else {
            0
        }
    }

    /// Whether every stored title and body meets the length rules.
    pub open spec fn all_valid(self) -> bool {
        forall|id: Seq<char>| #[trigger]
            self.holds(id) ==> title_is_valid(self.tasks[id].title) && body_is_valid(
                self.tasks[id].body,
            )
    }

    /// Whether `all` enumerates the collection by ascending title: every
    /// entry is the record of a task, no task occurs twice, none is missing,
    /// and the titles ascend.
    pub open spec fn lists(self, all: Seq<TaskView>) -> bool {
        &&& forall|i: int|
            0 <= i < all.len() ==> (#[trigger] all[i]).id is Some && self.fetch(
                all[i].id.unwrap(),
            ) == Some(all[i])
        &&& forall|i: int, j: int|
            0 <= i < j < all.len() ==> (#[trigger] all[i]).id != (#[trigger] all[j]).id
        &&& forall|id: Seq<char>| #[trigger]
            self.holds(id) ==> exists|i: int|
                0 <= i < all.len() && (#[trigger] all[i]).id == Some(id)
        &&& titles_ascend(all)
    }

    /// The identifiers of the tasks with the status.
    pub open spec fn with_status(self, status: Option<Seq<char>>) -> Set<Seq<char>> {
        self.tasks.dom().filter(|id: Seq<char>| self.tasks[id].status == status)
    }

    /// The grouping document for the tasks with the status: the status and
    /// their number.
    pub open spec fn group_of(self, status: Option<Seq<char>>) -> GroupDocumentView {
        GroupDocumentView {
            status: status_field(status),
            count: FieldValueView::Integer(self.with_status(status).len() as i64),
        }
    }

    /// Whether `groups` is a grouping of the collection by status: every
    /// entry is the document of a status that some task has, with the number
    /// of tasks that have it; no status occurs twice and none is missing.
    pub open spec fn grouped_by(self, groups: Seq<Option<GroupDocumentView>>) -> bool {
        &&& forall|i: int|
            0 <= i < groups.len() ==> {
                let status = group_status(#[trigger] groups[i]);
                &&& groups[i] == Some(self.group_of(status))
                &&& 0 < self.with_status(status).len() <= i64::MAX
            }
        &&& forall|i: int, j: int|
            0 <= i < j < groups.len() ==> group_status(#[trigger] groups[i]) != group_status(
                #[trigger] groups[j],
            )
        &&& forall|id: Seq<char>| #[trigger]
            self.holds(id) ==> exists|i: int|
                0 <= i < groups.len() && group_status(#[trigger] groups[i])
                    == self.tasks[id].status
    }

    /// Whether `reply` is an answer that the collection may give to `request`
    /// when the store does not fail.
    ///
    /// An insert answers with the identifier of the inserted task; it is not
    /// answered for a task without identifier or with one that is taken. A
    /// fetch answers with the task or with none; an update and a delete with
    /// the number of tasks they matched. A listing answers with the window
    /// that it asks for of an enumeration of all tasks by ascending title;
    /// where titles are equal the store picks their order. With a negative
    /// limit it answers with a beginning of what follows the skipped tasks,
    /// of no more tasks than the limit's magnitude. A count answers with the
    /// number of tasks, a grouping with one document for each status.
    pub open spec fn answers(self, request: StoreRequestView, reply: StoreResponseView) -> bool {
        match request {
            StoreRequestView::InsertOne { task } => {
                &&& task.id is Some
                &&& !self.holds(task.id.unwrap())
                &&& reply == StoreResponseView::Inserted { inserted_id: task.id.unwrap() }
            },
            StoreRequestView::FindOne { id } => reply == StoreResponseView::Found {
                task: self.fetch(id),
            },
            StoreRequestView::UpdateOne { id, title, body } => reply
                == StoreResponseView::Updated { matched_count: self.matches(id) },
            StoreRequestView::DeleteOne { id } => reply == StoreResponseView::Deleted {
                deleted_count: self.matches(id),
            },
            StoreRequestView::Find { skip, limit } => {
                &&& reply is Listed
                &&& exists|all: Seq<TaskView>| #[trigger]
                    self.lists(all) && if limit >= 0 {
                        reply->Listed_tasks == window(all, skip, limit)
                    } else {
                        &&& reply->Listed_tasks.len() <= -limit
                        &&& reply->Listed_tasks.is_prefix_of(
                            window(all, skip, 0),
                        )
                    }
            },
            StoreRequestView::CountDocuments => {
                &&& reply is Counted
                &&& self.tasks.dom().finite()
                &&& reply->Counted_total as nat == self.tasks.dom().len()
            },
            StoreRequestView::Aggregate => {
                &&& reply is Grouped
                &&& self.tasks.dom().finite()
                &&& self.grouped_by(reply->Grouped_groups)
            },
        }
    }

    /// The collection after it has answered `request`. An inserted task has
    /// no status, and an update leaves the status as it was.
    pub open spec fn after(self, request: StoreRequestView) -> StoreModel {
        match request {
            StoreRequestView::InsertOne { task } => match task.id {
                Some(id) => StoreModel {
                    tasks: self.tasks.insert(
                        id,
                        StoredTask { title: task.title, body: task.body, status: None },
                    ),
                },
                None => self,
            },
            StoreRequestView::UpdateOne { id, title, body } => if self.holds(id) {
                StoreModel {
                    tasks: self.tasks.insert(
                        id,
                        StoredTask { title, body, status: self.tasks[id].status },
                    ),
                }
            } else {
                self
            },
            StoreRequestView::DeleteOne { id } => StoreModel { tasks: self.tasks.remove(id) },
            _ => self,
        }
    }

    /// An enumeration of the collection has as many entries as the
    /// collection has tasks.
    pub proof fn lemma_listing_len(self, all: Seq<TaskView>)
        requires
            self.lists(all),
        ensures
            self.tasks.dom().finite(),
            self.tasks.dom().len() == all.len(),
    {
        let ids = all.map_values(|t: TaskView| t.id.unwrap());
        assert(ids.no_duplicates()) by {
            assert forall|i: int, j: int|
                0 <= i < ids.len() && 0 <= j < ids.len() && i != j implies ids[i] != ids[j] by {
                if i < j {
                    assert(all[i].id != all[j].id);
                } else {
                    assert(all[j].id != all[i].id);
                }
            }
        }
        assert(ids.to_set() =~= self.tasks.dom()) by {
            assert forall|id: Seq<char>| self.tasks.dom().contains(id) implies ids.to_set().contains(
                id,
            ) by {
                assert(self.holds(id));
                let i = choose|i: int| 0 <= i < all.len() && (#[trigger] all[i]).id == Some(id);
                assert(ids[i] == id);
            }
            assert forall|id: Seq<char>| ids.to_set().contains(id) implies self.tasks.dom().contains(
                id,
            ) by {
                let i = choose|i: int| 0 <= i < ids.len() && ids[i] == id;
                assert(self.fetch(all[i].id.unwrap()) == Some(all[i]));
            }
        }
        ids.unique_seq_to_set();
    }
}

} // verus!
