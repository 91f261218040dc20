use task_backend::api::task_api;
use task_backend::api::task_api::Pagination;
use task_backend::models::error_model::ApiErrorType;
use task_backend::models::task_list_response::{LinkHref, TaskListResponse};
use task_backend::models::task_model::{Task, TaskAggregate};
use task_backend::repository::task_repo::{
    FieldValue, GroupDocument, StoreRequest, StoreResponse,
};
use task_backend::services::task_service;
use task_backend::services::task_service::{Outcome, Pending, Step, TaskService};

/// A collection of tasks in memory that answers as the document store does.
struct MemoryStore {
    tasks: Vec<Task>,
    statuses: Vec<(String, Option<String>)>,
    calls: usize,
    failing: bool,
}

fn empty_store() -> MemoryStore {
    MemoryStore { tasks: Vec::new(), statuses: Vec::new(), calls: 0, failing: false }
}

fn position(store: &MemoryStore, id: &str) -> Option<usize> {
    store.tasks.iter().position(|t| t.id.as_deref() == Some(id))
}

fn perform(store: &mut MemoryStore, request: StoreRequest) -> StoreResponse {
    store.calls += 1;
    if store.failing {
        return StoreResponse::Failed;
    }
    match request {
        StoreRequest::InsertOne { task } => match task.id.clone() {
            Some(id) if position(store, &id).is_none() => {
                store.tasks.push(task);
                StoreResponse::Inserted { inserted_id: id }
            }
            _ => StoreResponse::Failed,
        },
        StoreRequest::FindOne { id } => {
            StoreResponse::Found { task: position(store, &id).map(|i| store.tasks[i].clone()) }
        }
        StoreRequest::UpdateOne { id, title, body } => match position(store, &id) {
            Some(i) => {
                store.tasks[i].title = title;
                store.tasks[i].body = body;
                StoreResponse::Updated { matched_count: 1 }
            }
            None => StoreResponse::Updated { matched_count: 0 },
        },
        StoreRequest::DeleteOne { id } => match position(store, &id) {
            Some(i) => {
                store.tasks.remove(i);
                StoreResponse::Deleted { deleted_count: 1 }
            }
            None => StoreResponse::Deleted { deleted_count: 0 },
        },
        StoreRequest::Find { skip, limit } => {
            let mut sorted = store.tasks.clone();
            sorted.sort_by(|a, b| a.title.cmp(&b.title));
            let rest = sorted.into_iter().skip(skip as usize);
            let tasks: Vec<Task> = if limit == 0 {
                rest.collect()
            } else {
                rest.take(limit.unsigned_abs() as usize).collect()
            };
            StoreResponse::Listed { tasks }
        }
        StoreRequest::CountDocuments => StoreResponse::Counted { total: store.tasks.len() as u64 },
        StoreRequest::Aggregate => {
            let mut groups: Vec<(Option<String>, i64)> = Vec::new();
            for (_, status) in store.statuses.iter() {
                match groups.iter().position(|g| &g.0 == status) {
                    Some(i) => groups[i].1 += 1,
                    None => groups.push((status.clone(), 1)),
                }
            }
            StoreResponse::Grouped {
                groups: groups
                    .into_iter()
                    .map(|(status, count)| {
                        Some(GroupDocument {
                            status: match status {
                                Some(s) => FieldValue::Text(s),
                                None => FieldValue::Null,
                            },
                            count: FieldValue::Integer(count),
                        })
                    })
                    .collect(),
            }
        }
    }
}

fn run(store: &mut MemoryStore, start: Step) -> Result<Outcome, ApiErrorType> {
    let mut step = start;
    loop {
        match step {
            Step::Done { result } => return result,
            Step::Call { request, pending } => {
                let reply = perform(store, request);
                step = task_service::resume(pending, reply);
            }
        }
    }
}

fn payload(title: &str, body: &str) -> Task {
    Task { id: None, title: title.to_string(), body: body.to_string() }
}

fn create(store: &mut MemoryStore, title: &str, body: &str) -> Task {
    match run(store, task_api::create_task(payload(title, body))) {
        Ok(Outcome::Created(task)) => task,
        other => panic!("create failed: {:?}", other),
    }
}

fn lettered_store() -> MemoryStore {
    let mut store = empty_store();
    for title in ["Delta", "Alpha", "Echo!", "Bravo", "Candy"] {
        create(&mut store, title, "0123456789");
    }
    store
}

fn list(store: &mut MemoryStore, offset: Option<u64>, limit: Option<i64>) -> TaskListResponse {
    match run(store, task_service::get_all_tasks(&Pagination { offset, limit })) {
        Ok(Outcome::Listed(response)) => response,
        other => panic!("listing failed: {:?}", other),
    }
}

fn titles(response: &TaskListResponse) -> Vec<String> {
    response.data.iter().map(|t| t.title.clone()).collect()
}

fn href(text: &str) -> LinkHref {
    LinkHref { href: text.to_string() }
}

#[test]
fn create_rejects_short_title_and_body_without_store_call() {
    let mut store = empty_store();
    let step = task_api::create_task(payload("ab", "short"));
    match &step {
        Step::Done { result: Err(ApiErrorType::ValidationError { validation_error, object }) } => {
            assert_eq!(object, "Task");
            assert_eq!(validation_error.len(), 2);
            assert_eq!(validation_error[0].field, "title");
            assert_eq!(validation_error[0].message, "Title must have minimum of 5 characters");
            assert_eq!(validation_error[1].field, "body");
            assert_eq!(validation_error[1].message, "Body must have aleast 10 characters");
        }
        other => panic!("unexpected step: {:?}", other),
    }
    assert!(run(&mut store, step).is_err());
    assert_eq!(store.calls, 0);
    assert!(store.tasks.is_empty());
}

#[test]
fn create_rejects_short_title_alone() {
    match task_api::create_task(payload("abcd", "1234567890")) {
        Step::Done { result: Err(ApiErrorType::ValidationError { validation_error, .. }) } => {
            assert_eq!(validation_error.len(), 1);
            assert_eq!(validation_error[0].field, "title");
        }
        other => panic!("unexpected step: {:?}", other),
    }
}

#[test]
fn create_rejects_short_body_alone() {
    match task_api::create_task(payload("abcde", "123456789")) {
        Step::Done { result: Err(ApiErrorType::ValidationError { validation_error, .. }) } => {
            assert_eq!(validation_error.len(), 1);
            assert_eq!(validation_error[0].field, "body");
        }
        other => panic!("unexpected step: {:?}", other),
    }
}

#[test]
fn validation_counts_characters_not_bytes() {
    let four = payload("\u{e9}\u{e9}\u{e9}\u{e9}", "\u{e9}\u{e9}\u{e9}\u{e9}\u{e9}\u{e9}\u{e9}\u{e9}\u{e9}");
    assert!(four.validate().is_err());
    let five = payload("\u{e9}\u{e9}\u{e9}\u{e9}\u{e9}", "\u{e9}\u{e9}\u{e9}\u{e9}\u{e9}\u{e9}\u{e9}\u{e9}\u{e9}\u{e9}");
    assert_eq!(five.validate(), Ok(()));
}

#[test]
fn validation_accepts_the_minimum_lengths() {
    assert_eq!(payload("12345", "1234567890").validate(), Ok(()));
}

#[test]
fn create_returns_stored_task_with_fresh_id() {
    let mut store = empty_store();
    let result = run(&mut store, task_api::create_task(payload("Hello World", "1234567890")));
    match result {
        Ok(Outcome::Created(task)) => {
            let id = task.id.clone().expect("a stored task has an id");
            assert!(!id.is_empty());
            assert_eq!(task.title, "Hello World");
            assert_eq!(task.body, "1234567890");
            assert_eq!(store.tasks, vec![task]);
        }
        other => panic!("unexpected result: {:?}", other),
    }
    assert_eq!(store.calls, 2);
}

#[test]
fn create_ignores_an_id_in_the_payload() {
    let mut store = empty_store();
    let sent = Task {
        id: Some("chosen".to_string()),
        title: "Hello World".to_string(),
        body: "1234567890".to_string(),
    };
    match run(&mut store, task_api::create_task(sent)) {
        Ok(Outcome::Created(task)) => assert_ne!(task.id, Some("chosen".to_string())),
        other => panic!("unexpected result: {:?}", other),
    }
}

#[test]
fn generated_ids_have_twenty_one_url_safe_characters() {
    let mut seen: Vec<String> = Vec::new();
    for _ in 0..50 {
        match task_service::create_task(payload("Hello World", "1234567890")) {
            Step::Call { request: StoreRequest::InsertOne { task }, pending } => {
                assert_eq!(pending, Pending::CreateInsert);
                let id = task.id.expect("an inserted task has an id");
                assert_eq!(id.chars().count(), 21);
                assert!(id.chars().all(|c| c.is_ascii_alphanumeric() || c == '_' || c == '-'));
                assert!(!seen.contains(&id));
                seen.push(id);
            }
            other => panic!("unexpected step: {:?}", other),
        }
    }
}

#[test]
fn create_fails_when_the_insert_fails() {
    let mut store = empty_store();
    store.failing = true;
    let result = run(&mut store, task_api::create_task(payload("Hello World", "1234567890")));
    assert_eq!(result, Err(ApiErrorType::InternalServerError));
    assert_eq!(store.calls, 1);
}

#[test]
fn create_fails_when_the_inserted_record_is_gone() {
    let found_none = task_service::resume(Pending::CreateFetch, StoreResponse::Found { task: None });
    assert_eq!(found_none, Step::Done { result: Err(ApiErrorType::InternalServerError) });
    let failed = task_service::resume(Pending::CreateFetch, StoreResponse::Failed);
    assert_eq!(failed, Step::Done { result: Err(ApiErrorType::InternalServerError) });
}

#[test]
fn create_fetches_the_id_that_the_store_reports() {
    let step = task_service::resume(
        Pending::CreateInsert,
        StoreResponse::Inserted { inserted_id: "abc".to_string() },
    );
    assert_eq!(
        step,
        Step::Call {
            request: StoreRequest::FindOne { id: "abc".to_string() },
            pending: Pending::CreateFetch,
        }
    );
}

#[test]
fn get_with_empty_id_is_bad_request() {
    let mut store = lettered_store();
    let before = store.calls;
    assert_eq!(
        run(&mut store, task_service::get_task_by_id(String::new())),
        Err(ApiErrorType::BadRequest)
    );
    assert_eq!(store.calls, before);
}

#[test]
fn get_of_unknown_id_is_not_found() {
    let mut store = lettered_store();
    assert_eq!(
        run(&mut store, task_service::get_task_by_id("nonexistent".to_string())),
        Err(ApiErrorType::TaskNotFound)
    );
}

#[test]
fn get_returns_the_stored_task() {
    let mut store = empty_store();
    let task = create(&mut store, "Hello World", "1234567890");
    let id = task.id.clone().unwrap();
    assert_eq!(run(&mut store, task_service::get_task_by_id(id)), Ok(Outcome::Found(task)));
}

#[test]
fn get_fails_when_the_store_fails() {
    let mut store = lettered_store();
    store.failing = true;
    assert_eq!(
        run(&mut store, task_service::get_task_by_id("some".to_string())),
        Err(ApiErrorType::InternalServerError)
    );
}

#[test]
fn update_returns_the_task_with_same_id_and_new_text() {
    let mut store = empty_store();
    let task = create(&mut store, "Hello World", "1234567890");
    let id = task.id.clone().unwrap();
    let result =
        run(&mut store, task_service::update_task(id.clone(), payload("New Title", "New Body Text")));
    let expected = Task {
        id: Some(id.clone()),
        title: "New Title".to_string(),
        body: "New Body Text".to_string(),
    };
    assert_eq!(result, Ok(Outcome::Found(expected.clone())));
    assert_eq!(store.tasks, vec![expected]);
}

#[test]
fn update_keeps_the_id_it_is_addressed_by() {
    let mut store = empty_store();
    let task = create(&mut store, "Hello World", "1234567890");
    let id = task.id.clone().unwrap();
    let sent = Task {
        id: Some("another".to_string()),
        title: "New Title".to_string(),
        body: "New Body Text".to_string(),
    };
    match run(&mut store, task_service::update_task(id.clone(), sent)) {
        Ok(Outcome::Found(found)) => assert_eq!(found.id, Some(id)),
        other => panic!("unexpected result: {:?}", other),
    }
}

#[test]
fn update_of_unknown_id_is_not_found_and_changes_nothing() {
    let mut store = lettered_store();
    let before = store.tasks.clone();
    let result = run(
        &mut store,
        task_service::update_task("nonexistent".to_string(), payload("New Title", "New Body Text")),
    );
    assert_eq!(result, Err(ApiErrorType::TaskNotFound));
    assert_eq!(store.tasks, before);
}

#[test]
fn update_with_empty_id_is_bad_request() {
    let step = task_service::update_task(String::new(), payload("New Title", "New Body Text"));
    assert_eq!(step, Step::Done { result: Err(ApiErrorType::BadRequest) });
}

#[test]
fn update_rejects_a_short_title_without_store_call() {
    let mut store = empty_store();
    let task = create(&mut store, "Hello World", "1234567890");
    let id = task.id.clone().unwrap();
    let calls = store.calls;
    let step = task_service::update_task(id, payload("ab", "New Body Text"));
    match &step {
        Step::Done { result: Err(ApiErrorType::ValidationError { validation_error, object }) } => {
            assert_eq!(object, "Task");
            assert_eq!(validation_error.len(), 1);
            assert_eq!(validation_error[0].field, "title");
            assert_eq!(validation_error[0].message, "Title must have minimum of 5 characters");
        }
        other => panic!("unexpected step: {:?}", other),
    }
    assert!(run(&mut store, step).is_err());
    assert_eq!(store.calls, calls);
    assert_eq!(store.tasks, vec![task]);
}

#[test]
fn update_rejects_a_short_body_without_store_call() {
    let mut store = empty_store();
    let task = create(&mut store, "Hello World", "1234567890");
    let id = task.id.clone().unwrap();
    let calls = store.calls;
    let result = run(&mut store, task_service::update_task(id, payload("New Title", "short")));
    match result {
        Err(ApiErrorType::ValidationError { validation_error, .. }) => {
            assert_eq!(validation_error.len(), 1);
            assert_eq!(validation_error[0].field, "body");
            assert_eq!(validation_error[0].message, "Body must have aleast 10 characters");
        }
        other => panic!("unexpected result: {:?}", other),
    }
    assert_eq!(store.calls, calls);
    assert_eq!(store.tasks, vec![task]);
}

#[test]
fn update_rejects_short_title_and_body_of_an_existing_task() {
    let mut store = empty_store();
    store.tasks.push(Task {
        id: Some("t1".to_string()),
        title: "Hello World".to_string(),
        body: "1234567890".to_string(),
    });
    let before = store.tasks.clone();
    let result =
        run(&mut store, task_service::update_task("t1".to_string(), payload("ab", "short")));
    match result {
        Err(ApiErrorType::ValidationError { validation_error, .. }) => {
            assert_eq!(validation_error.len(), 2);
            assert_eq!(validation_error[0].field, "title");
            assert_eq!(validation_error[1].field, "body");
        }
        other => panic!("unexpected result: {:?}", other),
    }
    assert_eq!(store.calls, 0);
    assert_eq!(store.tasks, before);
}

#[test]
fn update_with_empty_id_is_bad_request_before_validation() {
    let step = task_service::update_task(String::new(), payload("ab", "short"));
    assert_eq!(step, Step::Done { result: Err(ApiErrorType::BadRequest) });
}

#[test]
fn update_of_unknown_id_with_short_title_is_a_validation_error() {
    let mut store = lettered_store();
    let calls = store.calls;
    let result = run(
        &mut store,
        task_service::update_task("nonexistent".to_string(), payload("ab", "New Body Text")),
    );
    assert!(matches!(result, Err(ApiErrorType::ValidationError { .. })));
    assert_eq!(store.calls, calls);
}

#[test]
fn stored_tasks_keep_to_the_length_rules() {
    let mut store = lettered_store();
    let id = store.tasks[0].id.clone().unwrap();
    let attempts = [("ab", "short"), ("abcd", "1234567890"), ("Valid title", "123456789")];
    for (title, body) in attempts {
        assert!(run(&mut store, task_api::create_task(payload(title, body))).is_err());
        assert!(run(&mut store, task_service::update_task(id.clone(), payload(title, body)))
            .is_err());
    }
    assert_eq!(
        run(&mut store, task_service::update_task(id, payload("Fresh", "0123456789"))).is_ok(),
        true
    );
    assert_eq!(store.tasks.len(), 5);
    for task in store.tasks.iter() {
        assert!(task.title.chars().count() >= 5);
        assert!(task.body.chars().count() >= 10);
    }
}

#[test]
fn service_create_rejects_a_short_payload_itself() {
    match task_service::create_task(payload("ab", "short")) {
        Step::Done { result: Err(ApiErrorType::ValidationError { validation_error, object }) } => {
            assert_eq!(object, "Task");
            assert_eq!(validation_error.len(), 2);
        }
        other => panic!("unexpected step: {:?}", other),
    }
    assert!(matches!(
        task_service::create_task(payload("Hello World", "1234567890")),
        Step::Call { request: StoreRequest::InsertOne { .. }, pending: Pending::CreateInsert }
    ));
}

#[test]
fn update_with_unexpected_match_count_is_not_found() {
    let step = task_service::resume(
        Pending::UpdateMatch { id: "abc".to_string() },
        StoreResponse::Updated { matched_count: 2 },
    );
    assert_eq!(step, Step::Done { result: Err(ApiErrorType::TaskNotFound) });
}

#[test]
fn update_fails_when_the_store_fails() {
    let mut store = lettered_store();
    store.failing = true;
    let result = run(
        &mut store,
        task_service::update_task("some".to_string(), payload("New Title", "New Body Text")),
    );
    assert_eq!(result, Err(ApiErrorType::InternalServerError));
}

#[test]
fn delete_then_get_is_not_found() {
    let mut store = empty_store();
    let task = create(&mut store, "Hello World", "1234567890");
    let id = task.id.clone().unwrap();
    assert_eq!(run(&mut store, task_service::delete_task(id.clone())), Ok(Outcome::Deleted));
    assert_eq!(
        run(&mut store, task_service::get_task_by_id(id)),
        Err(ApiErrorType::TaskNotFound)
    );
}

#[test]
fn repeated_delete_is_always_not_found() {
    let mut store = lettered_store();
    let id = store.tasks[2].id.clone().unwrap();
    assert_eq!(run(&mut store, task_service::delete_task(id.clone())), Ok(Outcome::Deleted));
    let after_first = store.tasks.clone();
    for _ in 0..3 {
        assert_eq!(
            run(&mut store, task_service::delete_task(id.clone())),
            Err(ApiErrorType::TaskNotFound)
        );
        assert_eq!(store.tasks, after_first);
    }
}

#[test]
fn delete_with_empty_id_is_not_found() {
    let mut store = lettered_store();
    let before = store.calls;
    assert_eq!(
        run(&mut store, task_service::delete_task(String::new())),
        Err(ApiErrorType::TaskNotFound)
    );
    assert_eq!(store.calls, before);
}

#[test]
fn delete_fails_when_the_store_fails() {
    let mut store = lettered_store();
    store.failing = true;
    assert_eq!(
        run(&mut store, task_service::delete_task("some".to_string())),
        Err(ApiErrorType::InternalServerError)
    );
}

#[test]
fn first_page_of_five_tasks() {
    let mut store = lettered_store();
    let response = list(&mut store, Some(0), Some(2));
    assert_eq!(titles(&response), vec!["Alpha".to_string(), "Bravo".to_string()]);
    assert_eq!(response.meta.offset, 0);
    assert_eq!(response.meta.limit, 2);
    assert_eq!(response.meta.total_results, 5);
    assert_eq!(response.meta.search_criteria, None);
    assert_eq!(response.meta.sort_by, None);
    assert_eq!(response._link.first, href("/api/tasks?offset=0&limit=2"));
    assert_eq!(response._link.last, href("/api/tasks?offset=4&limit=2"));
    assert_eq!(response._link.previous, None);
    assert_eq!(response._link.next, Some(href("/api/tasks?offset=2&limit=2")));
    assert_eq!(response._link.self_link, href("/api/tasks?offset=0&limit=2"));
}

#[test]
fn last_page_of_five_tasks() {
    let mut store = lettered_store();
    let response = list(&mut store, Some(4), Some(2));
    assert_eq!(titles(&response), vec!["Echo!".to_string()]);
    assert_eq!(response._link.next, None);
    assert_eq!(response._link.previous, Some(href("/api/tasks?offset=2&limit=2")));
    assert_eq!(response._link.last, href("/api/tasks?offset=4&limit=2"));
}

#[test]
fn listing_uses_the_defaults() {
    let mut store = lettered_store();
    let step = task_service::get_all_tasks(&Pagination { offset: None, limit: None });
    assert_eq!(
        step,
        Step::Call {
            request: StoreRequest::Find { skip: 0, limit: 20 },
            pending: Pending::ListPage { offset: 0, limit: 20 },
        }
    );
    let response = list(&mut store, None, None);
    assert_eq!(response.data.len(), 5);
    assert_eq!(response.meta.offset, 0);
    assert_eq!(response.meta.limit, 20);
    assert_eq!(response._link.self_link, href("/api/tasks?offset=0&limit=20"));
    assert_eq!(response._link.last, href("/api/tasks?offset=0&limit=20"));
    assert_eq!(response._link.next, None);
}

#[test]
fn listing_with_limit_zero_computes_no_paging() {
    let mut store = lettered_store();
    let response = list(&mut store, Some(3), Some(0));
    assert_eq!(response._link.last, href("/api/tasks?offset=0&limit=0"));
    assert_eq!(response._link.previous, Some(href("/api/tasks?offset=3&limit=0")));
    assert_eq!(response._link.next, None);
}

#[test]
fn listing_summaries_carry_id_title_and_body() {
    let mut store = empty_store();
    let task = create(&mut store, "Hello World", "1234567890");
    let response = list(&mut store, None, None);
    assert_eq!(response.data.len(), 1);
    assert_eq!(Some(response.data[0].id.clone()), task.id);
    assert_eq!(response.data[0].title, "Hello World");
    assert_eq!(response.data[0].body, "1234567890");
}

#[test]
fn listing_fails_when_the_store_fails() {
    let mut store = lettered_store();
    store.failing = true;
    let before = store.calls;
    let result = run(
        &mut store,
        task_service::get_all_tasks(&Pagination { offset: Some(0), limit: Some(2) }),
    );
    assert_eq!(result, Err(ApiErrorType::InternalServerError));
    assert_eq!(store.calls, before + 2);
}

#[test]
fn listing_fails_when_only_the_count_fails() {
    let step = task_service::resume(
        Pending::ListCount { offset: 0, limit: 2, page: Some(Vec::new()) },
        StoreResponse::Failed,
    );
    assert_eq!(step, Step::Done { result: Err(ApiErrorType::InternalServerError) });
}

#[test]
fn listing_fails_when_only_the_page_fails() {
    let step = task_service::resume(Pending::ListPage { offset: 0, limit: 2 }, StoreResponse::Failed);
    assert_eq!(
        step,
        Step::Call {
            request: StoreRequest::CountDocuments,
            pending: Pending::ListCount { offset: 0, limit: 2, page: None },
        }
    );
    let end = task_service::resume(
        Pending::ListCount { offset: 0, limit: 2, page: None },
        StoreResponse::Counted { total: 5 },
    );
    assert_eq!(end, Step::Done { result: Err(ApiErrorType::InternalServerError) });
}

#[test]
fn aggregate_counts_tasks_by_status() {
    let mut store = empty_store();
    for (i, status) in ["open", "open", "open", "done", "done"].iter().enumerate() {
        store.statuses.push((format!("task-{}", i), Some(status.to_string())));
    }
    let service = TaskService::new("users".to_string(), "tasks".to_string());
    match run(&mut store, service.aggregate_tasks()) {
        Ok(Outcome::Aggregated(groups)) => {
            assert_eq!(groups.len(), 2);
            assert!(groups.contains(&TaskAggregate { status: Some("open".to_string()), count: 3 }));
            assert!(groups.contains(&TaskAggregate { status: Some("done".to_string()), count: 2 }));
        }
        other => panic!("unexpected result: {:?}", other),
    }
}

#[test]
fn aggregate_skips_entries_that_do_not_decode() {
    let entries = vec![
        Some(GroupDocument {
            status: FieldValue::Text("open".to_string()),
            count: FieldValue::Integer(3),
        }),
        None,
        Some(GroupDocument { status: FieldValue::Other, count: FieldValue::Integer(1) }),
        Some(GroupDocument {
            status: FieldValue::Text("late".to_string()),
            count: FieldValue::Integer(-1),
        }),
        Some(GroupDocument {
            status: FieldValue::Text("lost".to_string()),
            count: FieldValue::Missing,
        }),
        Some(GroupDocument {
            status: FieldValue::Text("text".to_string()),
            count: FieldValue::Text("7".to_string()),
        }),
        Some(GroupDocument { status: FieldValue::Null, count: FieldValue::Integer(2) }),
        Some(GroupDocument { status: FieldValue::Missing, count: FieldValue::Integer(0) }),
    ];
    let groups = task_service::decode_groups(&entries);
    assert_eq!(
        groups,
        vec![
            TaskAggregate { status: Some("open".to_string()), count: 3 },
            TaskAggregate { status: None, count: 2 },
            TaskAggregate { status: None, count: 0 },
        ]
    );
    let step = task_service::resume(Pending::Aggregate, StoreResponse::Grouped { groups: entries });
    assert_eq!(step, Step::Done { result: Ok(Outcome::Aggregated(groups)) });
}

#[test]
fn aggregate_of_no_tasks_is_empty() {
    let mut store = empty_store();
    let service = TaskService::new("users".to_string(), "tasks".to_string());
    assert_eq!(run(&mut store, service.aggregate_tasks()), Ok(Outcome::Aggregated(Vec::new())));
}

#[test]
fn aggregate_fails_with_its_own_error() {
    let mut store = empty_store();
    store.failing = true;
    let service = TaskService::new("users".to_string(), "tasks".to_string());
    assert_eq!(run(&mut store, service.aggregate_tasks()), Err(ApiErrorType::AggregatorError));
}

#[test]
fn reply_of_the_wrong_kind_is_an_internal_error() {
    let wrong = || StoreResponse::Counted { total: 1 };
    for pending in [
        Pending::CreateInsert,
        Pending::CreateFetch,
        Pending::Fetch,
        Pending::UpdateMatch { id: "abc".to_string() },
        Pending::Delete,
    ] {
        assert_eq!(
            task_service::resume(pending, wrong()),
            Step::Done { result: Err(ApiErrorType::InternalServerError) }
        );
    }
    assert_eq!(
        task_service::resume(
            Pending::ListCount { offset: 0, limit: 2, page: Some(Vec::new()) },
            StoreResponse::Found { task: None },
        ),
        Step::Done { result: Err(ApiErrorType::InternalServerError) }
    );
}

#[test]
fn fetch_reply_maps_to_the_callers_result() {
    let task = Task {
        id: Some("abc".to_string()),
        title: "Hello World".to_string(),
        body: "1234567890".to_string(),
    };
    assert_eq!(
        task_service::handle_optional_task_response(StoreResponse::Found {
            task: Some(task.clone())
        }),
        Ok(Outcome::Found(task))
    );
    assert_eq!(
        task_service::handle_optional_task_response(StoreResponse::Found { task: None }),
        Err(ApiErrorType::TaskNotFound)
    );
    assert_eq!(
        task_service::handle_optional_task_response(StoreResponse::Failed),
        Err(ApiErrorType::InternalServerError)
    );
}
