//! What a caller can rely on when the operations of the service run against
//! a store that answers as a collection of tasks does.

use vstd::prelude::*;
use crate::api::task_api::Pagination;
use crate::models::error_model::ApiErrorView;
use crate::models::task_list_response::{MetaView, TaskListResponseView};
use crate::models::task_model::{validation_failure, TaskAggregateView, TaskView};
use crate::repository::store_model::{
    group_status,
    text_le,
    titles_ascend_strictly,
    window,
    StoreModel,
};
use crate::repository::task_repo::{summaries_of, GroupDocumentView, StoreResponseView};
use crate::services::pagination::{page_links_of, rendered_links, PageLinks, PageRef};
use crate::services::task_service::{
    aggregate_step,
    decoded_group,
    decoded_groups,
    delete_step,
    failed,
    get_step,
    is_create_step,
    list_step,
    next_step,
    payload_is_valid,
    resolved_limit,
    resolved_offset,
    succeeded,
    update_step,
    OutcomeView,
    PendingView,
    StepView,
};

verus! {

/// A payload that breaks a length rule never reaches the store: a create,
/// and an update of any identifier that is not empty, end at once with a
/// validation failure that names each offending field.
pub proof fn invalid_payload_is_rejected(id: Seq<char>, payload: TaskView, start: StepView)
    requires
        !payload_is_valid(payload),
        is_create_step(start, payload),
    ensures
        start == failed(validation_failure(payload)),
        id.len() > 0 ==> update_step(id, payload) == failed(validation_failure(payload)),
        id.len() == 0 ==> update_step(id, payload) == failed(ApiErrorView::BadRequest),
{
}

/// Every stored title and body keeps to the length rules: if they all do
/// before a create or an update, they all do after each request that the
/// operation hands out, whatever the store replied in between.
pub proof fn stored_tasks_stay_valid(
    store: StoreModel,
    id: Seq<char>,
    payload: TaskView,
    create_start: StepView,
    reply: StoreResponseView,
)
    requires
        store.all_valid(),
        is_create_step(create_start, payload),
    ensures
        create_start is Call ==> store.after(create_start->request).all_valid(),
        create_start is Call && next_step(create_start->pending, reply) is Call ==> store.after(
            create_start->request,
        ).after(next_step(create_start->pending, reply)->request) == store.after(
            create_start->request,
        ),
        update_step(id, payload) is Call ==> store.after(
            update_step(id, payload)->request,
        ).all_valid(),
        update_step(id, payload) is Call && next_step(update_step(id, payload)->pending, reply)
            is Call ==> store.after(update_step(id, payload)->request).after(
            next_step(update_step(id, payload)->pending, reply)->request,
        ) == store.after(update_step(id, payload)->request),
{
    if create_start is Call {
        let after = store.after(create_start->request);
        assert forall|other: Seq<char>| #[trigger] after.holds(other) implies payload_is_valid(
            after.record(other),
        ) by {
            if other != create_start->request->InsertOne_task.id.unwrap() {
                assert(store.holds(other));
            }
        }
    }
    if update_step(id, payload) is Call {
        let after = store.after(update_step(id, payload)->request);
        assert forall|other: Seq<char>| #[trigger] after.holds(other) implies payload_is_valid(
            after.record(other),
        ) by {
            assert(store.holds(other));
        }
    }
}

/// A create of a valid payload that the store answers returns the inserted
/// record: it has a non-empty identifier and the title and body of the
/// payload, and the collection holds it afterwards.
pub proof fn created_task_is_returned(
    store: StoreModel,
    payload: TaskView,
    start: StepView,
    inserted: StoreResponseView,
    fetched: StoreResponseView,
)
    requires
        payload_is_valid(payload),
        is_create_step(start, payload),
        store.answers(start->request, inserted),
        next_step(start->pending, inserted) is Call ==> store.after(start->request).answers(
            next_step(start->pending, inserted)->request,
            fetched,
        ),
    ensures
        next_step(start->pending, inserted) is Call,
        ({
            let id = start->request->InsertOne_task.id.unwrap();
            let record = TaskView { id: Some(id), title: payload.title, body: payload.body };
            &&& id.len() > 0
            &&& next_step(next_step(start->pending, inserted)->pending, fetched) == succeeded(
                OutcomeView::Created(record),
            )
            &&& store.after(start->request).fetch(id) == Some(record)
        }),
{
}

/// A get of an identifier that no task has reports `TaskNotFound`, and a get
/// of the empty identifier is a bad request that never reaches the store.
pub proof fn get_of_absent_task_is_not_found(
    store: StoreModel,
    id: Seq<char>,
    reply: StoreResponseView,
)
    requires
        !store.holds(id),
        id.len() > 0 ==> store.answers(get_step(id)->request, reply),
    ensures
        id.len() == 0 ==> get_step(id) == failed(ApiErrorView::BadRequest),
        id.len() > 0 ==> get_step(id) is Call && next_step(get_step(id)->pending, reply)
            == failed(ApiErrorView::TaskNotFound),
{
}

/// A get of an existing task returns its record and leaves the collection as
/// it was.
pub proof fn get_of_existing_task_returns_it(
    store: StoreModel,
    id: Seq<char>,
    reply: StoreResponseView,
)
    requires
        id.len() > 0,
        store.holds(id),
        store.answers(get_step(id)->request, reply),
    ensures
        next_step(get_step(id)->pending, reply) == succeeded(
            OutcomeView::Found(store.record(id)),
        ),
        store.after(get_step(id)->request) == store,
{
}

/// An update of an existing task with a valid payload returns the record
/// under the same identifier with the title and body of the payload, read
/// back from the store after the write.
pub proof fn update_of_existing_task_returns_new_record(
    store: StoreModel,
    id: Seq<char>,
    payload: TaskView,
    updated: StoreResponseView,
    fetched: StoreResponseView,
)
    requires
        id.len() > 0,
        payload_is_valid(payload),
        store.holds(id),
        store.answers(update_step(id, payload)->request, updated),
        next_step(update_step(id, payload)->pending, updated) is Call ==> store.after(
            update_step(id, payload)->request,
        ).answers(next_step(update_step(id, payload)->pending, updated)->request, fetched),
    ensures
        next_step(update_step(id, payload)->pending, updated) is Call,
        next_step(next_step(update_step(id, payload)->pending, updated)->pending, fetched)
            == succeeded(
            OutcomeView::Found(
                TaskView { id: Some(id), title: payload.title, body: payload.body },
            ),
        ),
{
}

/// An update with a valid payload of an identifier that no task has reports
/// `TaskNotFound` and leaves the collection unchanged.
pub proof fn update_of_absent_task_changes_nothing(
    store: StoreModel,
    id: Seq<char>,
    payload: TaskView,
    updated: StoreResponseView,
)
    requires
        id.len() > 0,
        payload_is_valid(payload),
        !store.holds(id),
        store.answers(update_step(id, payload)->request, updated),
    ensures
        next_step(update_step(id, payload)->pending, updated) == failed(
            ApiErrorView::TaskNotFound,
        ),
        store.after(update_step(id, payload)->request) == store,
{
}

/// A delete of an existing task succeeds, and a get of the same identifier
/// afterwards reports `TaskNotFound`.
pub proof fn get_after_delete_is_not_found(
    store: StoreModel,
    id: Seq<char>,
    deleted: StoreResponseView,
    fetched: StoreResponseView,
)
    requires
        id.len() > 0,
        store.holds(id),
        store.answers(delete_step(id)->request, deleted),
        store.after(delete_step(id)->request).answers(get_step(id)->request, fetched),
    ensures
        next_step(delete_step(id)->pending, deleted) == succeeded(OutcomeView::Deleted),
        next_step(get_step(id)->pending, fetched) == failed(ApiErrorView::TaskNotFound),
{
}

/// The collection after `count` deletes of the task `id`.
pub open spec fn after_deletes(store: StoreModel, id: Seq<char>, count: nat) -> StoreModel
    decreases count,
{
    if count == 0 {
        store
    } else {
        after_deletes(store, id, (count - 1) as nat).after(delete_step(id)->request)
    }
}

/// Deleting is idempotent: once a task has been deleted, every further
/// delete of its identifier, however many came before, reports `TaskNotFound`
/// and never an internal error, and leaves the collection as the first
/// delete left it.
pub proof fn repeated_delete_is_not_found(
    store: StoreModel,
    id: Seq<char>,
    count: nat,
    deleted: StoreResponseView,
)
    requires
        id.len() > 0,
        count >= 1,
        after_deletes(store, id, count).answers(delete_step(id)->request, deleted),
    ensures
        next_step(delete_step(id)->pending, deleted) == failed(ApiErrorView::TaskNotFound),
        after_deletes(store, id, count) == after_deletes(store, id, 1),
        !after_deletes(store, id, count).holds(id),
    decreases count,
{
    reveal_with_fuel(after_deletes, 2);
    let request = delete_step(id)->request;
    if count == 1 {
        assert(after_deletes(store, id, 0) == store);
    } else {
        let earlier = after_deletes(store, id, (count - 1) as nat);
        let reply = StoreResponseView::Deleted { deleted_count: earlier.matches(id) };
        repeated_delete_is_not_found(store, id, (count - 1) as nat, reply);
        assert(earlier.tasks.remove(id) =~= earlier.tasks);
    }
}

/// The end of a listing whose page request got `listed` and whose count got
/// `counted`.
pub open spec fn listing_end(
    pagination: Pagination,
    listed: StoreResponseView,
    counted: StoreResponseView,
) -> StepView {
    next_step(next_step(list_step(pagination)->pending, listed)->pending, counted)
}

/// A listing that the store answers returns the window it asked for of the
/// tasks by ascending title. There is an enumeration of all tasks by
/// ascending title such that the page is what follows the first `offset`
/// tasks, cut to `limit` tasks where the limit is positive; with a negative
/// limit the page is a beginning of what follows, of no more tasks than the
/// limit's magnitude. The envelope reports the resolved window, the number of
/// all tasks as total, and the links computed from these three numbers.
pub proof fn listing_returns_the_window(
    store: StoreModel,
    pagination: Pagination,
    listed: StoreResponseView,
    counted: StoreResponseView,
)
    requires
        store.answers(list_step(pagination)->request, listed),
        store.answers(next_step(list_step(pagination)->pending, listed)->request, counted),
    ensures
        next_step(list_step(pagination)->pending, listed) is Call,
        ({
            let end = listing_end(pagination, listed, counted);
            let offset = resolved_offset(pagination);
            let limit = resolved_limit(pagination);
            &&& end is Done
            &&& end->result is Ok
            &&& end->result->Ok_0 is Listed
            &&& ({
                let page = end->result->Ok_0->Listed_0;
                &&& page.meta == (MetaView {
                    offset: offset as int,
                    limit: limit as int,
                    total_results: store.tasks.dom().len() as int,
                    search_criteria: None,
                    sort_by: None,
                })
                &&& page._link == rendered_links(
                    page_links_of(offset as int, limit as int, store.tasks.dom().len() as int),
                )
                &&& exists|all: Seq<TaskView>| #[trigger]
                    store.lists(all) && all.len() == store.tasks.dom().len() && if limit >= 0 {
                        page.data == summaries_of(window(all, offset, limit))
                    } else {
                        &&& page.data.len() <= -limit
                        &&& page.data.is_prefix_of(summaries_of(window(all, offset, 0)))
                    }
            })
        }),
{
    let offset = resolved_offset(pagination);
    let limit = resolved_limit(pagination);
    let tasks = listed->Listed_tasks;
    let all = choose|all: Seq<TaskView>| #[trigger]
        store.lists(all) && if limit >= 0 {
            tasks == window(all, offset, limit)
        } else {
            &&& tasks.len() <= -limit
            &&& tasks.is_prefix_of(window(all, offset, 0))
        };
    store.lemma_listing_len(all);
    let page = listing_end(pagination, listed, counted)->result->Ok_0->Listed_0;
    assert(page.data == summaries_of(tasks));
    if limit < 0 {
        let rest = window(all, offset, 0);
        assert(summaries_of(tasks) =~= summaries_of(rest).subrange(0, tasks.len() as int));
    }
}

/// A strictly increasing function from the first `n` numbers into
/// themselves is at least the identity.
proof fn lemma_increasing_from_below(f: spec_fn(int) -> int, n: int, k: int)
    requires
        forall|i: int| 0 <= i < n ==> 0 <= #[trigger] f(i) < n,
        forall|i: int, j: int| 0 <= i < j < n ==> #[trigger] f(i) < #[trigger] f(j),
        0 <= k < n,
    ensures
        f(k) >= k,
    decreases k,
{
    if k > 0 {
        lemma_increasing_from_below(f, n, k - 1);
        assert(f(k - 1) < f(k));
    }
}

/// A strictly increasing function from the first `n` numbers into
/// themselves is at most the identity.
proof fn lemma_increasing_from_above(f: spec_fn(int) -> int, n: int, k: int)
    requires
        forall|i: int| 0 <= i < n ==> 0 <= #[trigger] f(i) < n,
        forall|i: int, j: int| 0 <= i < j < n ==> #[trigger] f(i) < #[trigger] f(j),
        0 <= k < n,
    ensures
        f(k) <= k,
    decreases n - k,
{
    if k < n - 1 {
        lemma_increasing_from_above(f, n, k + 1);
        assert(f(k) < f(k + 1));
    }
}

/// Where no two titles are equal the order of a listing is determined: two
/// enumerations of one collection by ascending title are the same.
pub proof fn title_order_is_unique(store: StoreModel, a: Seq<TaskView>, b: Seq<TaskView>)
    requires
        store.lists(a),
        store.lists(b),
        titles_ascend_strictly(a),
    ensures
        a == b,
{
    store.lemma_listing_len(a);
    store.lemma_listing_len(b);
    let n = a.len() as int;
    let pos = |k: int| choose|p: int| 0 <= p < a.len() && (#[trigger] a[p]).id == b[k].id;
    assert forall|k: int| 0 <= k < n implies 0 <= #[trigger] pos(k) < n && a[pos(k)] == b[k] by {
        let id = b[k].id.unwrap();
        assert(store.fetch(id) == Some(b[k]));
        assert(store.holds(id));
        let p = choose|p: int| 0 <= p < a.len() && (#[trigger] a[p]).id == Some(id);
        assert(a[p].id == b[k].id);
        assert(store.fetch(a[pos(k)].id.unwrap()) == Some(a[pos(k)]));
    }
    assert forall|i: int, j: int| 0 <= i < j < n implies #[trigger] pos(i) < #[trigger] pos(
        j,
    ) by {
        assert(a[pos(i)] == b[i] && a[pos(j)] == b[j]);
        assert(b[i].id != b[j].id);
        assert(text_le(b[i].title, b[j].title));
        if pos(j) < pos(i) {
            assert(!text_le(a[pos(i)].title, a[pos(j)].title));
        }
    }
    assert forall|k: int| 0 <= k < n implies a[k] == b[k] by {
        lemma_increasing_from_below(pos, n, k);
        lemma_increasing_from_above(pos, n, k);
        assert(a[pos(k)] == b[k]);
    }
    assert(a =~= b);
}

/// Of five tasks with distinct titles, `all` in ascending order, a listing
/// from offset 0 with limit 2 returns the first two. The total is 5, the
/// last page starts at offset 4, there is no previous page, and the next one
/// starts at offset 2.
pub proof fn first_page_of_five_tasks(
    store: StoreModel,
    all: Seq<TaskView>,
    listed: StoreResponseView,
    counted: StoreResponseView,
)
    requires
        store.lists(all),
        titles_ascend_strictly(all),
        all.len() == 5,
        store.answers(list_step(Pagination { offset: Some(0), limit: Some(2) })->request, listed),
        store.answers(
            next_step(
                list_step(Pagination { offset: Some(0), limit: Some(2) })->pending,
                listed,
            )->request,
            counted,
        ),
    ensures
        listing_end(Pagination { offset: Some(0), limit: Some(2) }, listed, counted) == succeeded(
            OutcomeView::Listed(
                TaskListResponseView {
                    data: summaries_of(seq![all[0], all[1]]),
                    meta: MetaView {
                        offset: 0,
                        limit: 2,
                        total_results: 5,
                        search_criteria: None,
                        sort_by: None,
                    },
                    _link: rendered_links(
                        PageLinks {
                            first: PageRef { offset: 0, limit: 2 },
                            last: PageRef { offset: 4, limit: 2 },
                            previous: None,
                            next: Some(PageRef { offset: 2, limit: 2 }),
                            self_link: PageRef { offset: 0, limit: 2 },
                        },
                    ),
                },
            ),
        ),
{
    let pagination = Pagination { offset: Some(0), limit: Some(2) };
    listing_returns_the_window(store, pagination, listed, counted);
    let page = listing_end(pagination, listed, counted)->result->Ok_0->Listed_0;
    let b = choose|b: Seq<TaskView>| #[trigger]
        store.lists(b) && b.len() == store.tasks.dom().len() && page.data == summaries_of(
            window(b, 0, 2),
        );
    title_order_is_unique(store, all, b);
    store.lemma_listing_len(all);
    assert(window(all, 0, 2) =~= seq![all[0], all[1]]);
    assert(5int / 2int == 2int) by (nonlinear_arith);
}

/// Of the same five tasks, a listing from offset 4 with limit 2 returns the
/// last one alone. The sum of offset and limit passes the last offset, 4, so
/// there is no next page; the previous one starts at offset 2.
pub proof fn last_page_of_five_tasks(
    store: StoreModel,
    all: Seq<TaskView>,
    listed: StoreResponseView,
    counted: StoreResponseView,
)
    requires
        store.lists(all),
        titles_ascend_strictly(all),
        all.len() == 5,
        store.answers(list_step(Pagination { offset: Some(4), limit: Some(2) })->request, listed),
        store.answers(
            next_step(
                list_step(Pagination { offset: Some(4), limit: Some(2) })->pending,
                listed,
            )->request,
            counted,
        ),
    ensures
        listing_end(Pagination { offset: Some(4), limit: Some(2) }, listed, counted) == succeeded(
            OutcomeView::Listed(
                TaskListResponseView {
                    data: summaries_of(seq![all[4]]),
                    meta: MetaView {
                        offset: 4,
                        limit: 2,
                        total_results: 5,
                        search_criteria: None,
                        sort_by: None,
                    },
                    _link: rendered_links(
                        PageLinks {
                            first: PageRef { offset: 0, limit: 2 },
                            last: PageRef { offset: 4, limit: 2 },
                            previous: Some(PageRef { offset: 2, limit: 2 }),
                            next: None,
                            self_link: PageRef { offset: 4, limit: 2 },
                        },
                    ),
                },
            ),
        ),
{
    let pagination = Pagination { offset: Some(4), limit: Some(2) };
    listing_returns_the_window(store, pagination, listed, counted);
    let page = listing_end(pagination, listed, counted)->result->Ok_0->Listed_0;
    let b = choose|b: Seq<TaskView>| #[trigger]
        store.lists(b) && b.len() == store.tasks.dom().len() && page.data == summaries_of(
            window(b, 4, 2),
        );
    title_order_is_unique(store, all, b);
    store.lemma_listing_len(all);
    assert(window(all, 4, 2) =~= seq![all[4]]);
    assert(5int / 2int == 2int) by (nonlinear_arith);
}

/// The aggregate for the tasks of `store` with the status: the status and
/// their number.
pub open spec fn aggregate_of(store: StoreModel, status: Option<Seq<char>>) -> TaskAggregateView {
    TaskAggregateView { status, count: store.with_status(status).len() as int }
}

/// Where every entry is the document of a status with its count, every
/// entry decodes, to the aggregate of that status.
proof fn lemma_all_groups_decode(store: StoreModel, groups: Seq<Option<GroupDocumentView>>)
    requires
        forall|i: int|
            0 <= i < groups.len() ==> {
                let status = group_status(#[trigger] groups[i]);
                &&& groups[i] == Some(store.group_of(status))
                &&& 0 < store.with_status(status).len() <= i64::MAX
            },
    ensures
        decoded_groups(groups).len() == groups.len(),
        forall|i: int|
            0 <= i < groups.len() ==> #[trigger] decoded_groups(groups)[i] == aggregate_of(
                store,
                group_status(groups[i]),
            ),
    decreases groups.len(),
{
    if groups.len() > 0 {
        let before = groups.drop_last();
        assert forall|i: int| 0 <= i < before.len() implies {
            let status = group_status(#[trigger] before[i]);
            &&& before[i] == Some(store.group_of(status))
            &&& 0 < store.with_status(status).len() <= i64::MAX
        } by {
            assert(before[i] == groups[i]);
        }
        lemma_all_groups_decode(store, before);
        let last = groups.last();
        assert(last == groups[groups.len() - 1]);
        assert(decoded_group(last) == Some(aggregate_of(store, group_status(last))));
        assert forall|i: int| 0 <= i < groups.len() implies #[trigger] decoded_groups(groups)[i]
            == aggregate_of(store, group_status(groups[i])) by {
            if i < before.len() {
                assert(before[i] == groups[i]);
                assert(decoded_groups(groups)[i] == decoded_groups(before)[i]);
            }
        }
    }
}

/// An aggregation that the store answers returns one aggregate for each
/// status that some task has, with the number of tasks that have it: none
/// is missing, none occurs twice, and no count is zero.
pub proof fn aggregation_counts_each_status(store: StoreModel, grouped: StoreResponseView)
    requires
        store.answers(aggregate_step()->request, grouped),
    ensures
        next_step(aggregate_step()->pending, grouped) is Done,
        next_step(aggregate_step()->pending, grouped)->result is Ok,
        next_step(aggregate_step()->pending, grouped)->result->Ok_0 is Aggregated,
        ({
            let groups = next_step(aggregate_step()->pending, grouped)->result->Ok_0->Aggregated_0;
            &&& forall|i: int|
                0 <= i < groups.len() ==> {
                    &&& #[trigger] groups[i] == aggregate_of(store, groups[i].status)
                    &&& groups[i].count > 0
                }
            &&& forall|i: int, j: int|
                0 <= i < j < groups.len() ==> (#[trigger] groups[i]).status != (
                #[trigger] groups[j]).status
            &&& forall|id: Seq<char>| #[trigger]
                store.holds(id) ==> exists|i: int|
                    0 <= i < groups.len() && (#[trigger] groups[i]).status
                        == store.tasks[id].status
        }),
{
    let entries = grouped->Grouped_groups;
    lemma_all_groups_decode(store, entries);
    let groups = decoded_groups(entries);
    assert forall|i: int, j: int| 0 <= i < j < groups.len() implies (#[trigger] groups[i]).status
        != (#[trigger] groups[j]).status by {
        assert(group_status(entries[i]) != group_status(entries[j]));
    }
    assert forall|id: Seq<char>| #[trigger] store.holds(id) implies exists|i: int|
        0 <= i < groups.len() && (#[trigger] groups[i]).status == store.tasks[id].status by {
        let i = choose|i: int|
            0 <= i < entries.len() && group_status(#[trigger] entries[i])
                == store.tasks[id].status;
        assert(groups[i].status == store.tasks[id].status);
    }
}

/// An aggregation never fails on a document that does not decode: whatever
/// groups the store delivers, the result is the aggregates of those that
/// decode, in their order.
pub proof fn aggregation_skips_what_does_not_decode(groups: Seq<Option<GroupDocumentView>>)
    ensures
        next_step(PendingView::Aggregate, StoreResponseView::Grouped { groups }) == succeeded(
            OutcomeView::Aggregated(decoded_groups(groups)),
        ),
        decoded_groups(groups).len() <= groups.len(),
    decreases groups.len(),
{
    if groups.len() > 0 {
        aggregation_skips_what_does_not_decode(groups.drop_last());
    }
}

/// Of five tasks, three with one status and two with another, an
/// aggregation returns two aggregates, in either order: the first status
/// with count 3 and the second with count 2.
pub proof fn aggregation_of_three_and_two(
    store: StoreModel,
    ids: Seq<Seq<char>>,
    open: Seq<char>,
    done: Seq<char>,
    grouped: StoreResponseView,
)
    requires
        ids.len() == 5,
        ids.no_duplicates(),
        store.tasks.dom() == ids.to_set(),
        open != done,
        forall|k: int| 0 <= k < 3 ==> store.tasks[#[trigger] ids[k]].status == Some(open),
        forall|k: int| 3 <= k < 5 ==> store.tasks[#[trigger] ids[k]].status == Some(done),
        store.answers(aggregate_step()->request, grouped),
    ensures
        next_step(aggregate_step()->pending, grouped) is Done,
        next_step(aggregate_step()->pending, grouped)->result is Ok,
        next_step(aggregate_step()->pending, grouped)->result->Ok_0 is Aggregated,
        ({
            let groups = next_step(aggregate_step()->pending, grouped)->result->Ok_0->Aggregated_0;
            &&& groups.len() == 2
            &&& groups.contains(TaskAggregateView { status: Some(open), count: 3 })
            &&& groups.contains(TaskAggregateView { status: Some(done), count: 2 })
        }),
{
    aggregation_counts_each_status(store, grouped);
    let groups = next_step(aggregate_step()->pending, grouped)->result->Ok_0->Aggregated_0;
    let opened = ids.subrange(0, 3);
    let closed = ids.subrange(3, 5);
    assert forall|k: int| 0 <= k < 5 implies store.holds(#[trigger] ids[k]) by {
        assert(ids.to_set().contains(ids[k]));
    }
    assert(store.with_status(Some(open)) =~= opened.to_set()) by {
        assert forall|id: Seq<char>| opened.to_set().contains(id) implies store.with_status(
            Some(open),
        ).contains(id) by {
            let k = choose|k: int| 0 <= k < opened.len() && opened[k] == id;
            assert(id == ids[k]);
        }
        assert forall|id: Seq<char>| store.with_status(Some(open)).contains(
            id,
        ) implies opened.to_set().contains(id) by {
            let k = choose|k: int| 0 <= k < ids.len() && ids[k] == id;
            assert(k < 3);
            assert(opened[k] == id);
        }
    }
    assert(store.with_status(Some(done)) =~= closed.to_set()) by {
        assert forall|id: Seq<char>| closed.to_set().contains(id) implies store.with_status(
            Some(done),
        ).contains(id) by {
            let k = choose|k: int| 0 <= k < closed.len() && closed[k] == id;
            assert(id == ids[k + 3]);
        }
        assert forall|id: Seq<char>| store.with_status(Some(done)).contains(
            id,
        ) implies closed.to_set().contains(id) by {
            let k = choose|k: int| 0 <= k < ids.len() && ids[k] == id;
            assert(k >= 3);
            assert(closed[k - 3] == id);
        }
    }
    assert(opened.no_duplicates());
    assert(closed.no_duplicates());
    opened.unique_seq_to_set();
    closed.unique_seq_to_set();
    assert(store.holds(ids[0]));
    assert(store.holds(ids[3]));
    let first = choose|i: int|
        0 <= i < groups.len() && (#[trigger] groups[i]).status == store.tasks[ids[0]].status;
    let second = choose|i: int|
        0 <= i < groups.len() && (#[trigger] groups[i]).status == store.tasks[ids[3]].status;
    assert(groups[first] == TaskAggregateView { status: Some(open), count: 3 });
    assert(groups[second] == TaskAggregateView { status: Some(done), count: 2 });
    assert forall|i: int| 0 <= i < groups.len() implies (#[trigger] groups[i]).status == Some(
        open,
    ) || groups[i].status == Some(done) by {
        let status = groups[i].status;
        assert(groups[i] == aggregate_of(store, status));
        assert(store.with_status(status).len() > 0);
        if store.with_status(status) =~= Set::<Seq<char>>::empty() {
            assert(false);
        }
        let id = choose|id: Seq<char>| store.with_status(status).contains(id);
        assert(store.with_status(status).contains(id));
        let k = choose|k: int| 0 <= k < ids.len() && ids[k] == id;
        assert(store.tasks[ids[k]].status == status);
    }
    assert(first != second);
    if groups.len() > 2 {
        assert(groups[0].status != groups[1].status);
        assert(groups[0].status != groups[2].status);
        assert(groups[1].status != groups[2].status);
    }
}
/// A delete of the empty identifier reports `TaskNotFound` without reaching
/// the store, where a get and an update of it are bad requests.
pub proof fn empty_identifier_is_rejected(payload: TaskView)
    ensures
        get_step(Seq::<char>::empty()) == failed(ApiErrorView::BadRequest),
        update_step(Seq::<char>::empty(), payload) == failed(ApiErrorView::BadRequest),
        delete_step(Seq::<char>::empty()) == failed(ApiErrorView::TaskNotFound),
{
}

} // verus!
