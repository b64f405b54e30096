use todo_ish::api::rest::{
    bind_address, create_task, get_task, get_tasks, new_task, patch_task, CreateTask,
    ErrorResponse, StatusCode, TaskResponse,
};
use todo_ish::config::AppConfig;
use todo_ish::decimal::{to_decimal, unsigned_to_decimal};
use todo_ish::tasks::domain::{Task, TaskError, TaskId};
use todo_ish::tasks::repository::{InMemoryTaskRepository, TaskRepository};

fn task(id: u128, name: &str, done: bool) -> Task {
    Task { id: TaskId(id), name: name.to_string(), done }
}

fn response(id: u128, name: &str, done: bool) -> TaskResponse {
    TaskResponse { name: name.to_string(), id: TaskId(id), done }
}

#[test]
fn status_numbers() {
    assert_eq!(StatusCode::Success.as_u16(), 200);
    assert_eq!(StatusCode::Created.as_u16(), 201);
    assert_eq!(StatusCode::NotFound.as_u16(), 404);
    assert_eq!(StatusCode::InternalServerError.as_u16(), 500);
}

#[test]
fn missing_task_is_answered_with_404() {
    assert_eq!(
        TaskError::IdNotFound.into_response(),
        ErrorResponse { status: StatusCode::NotFound, message: "Task not found" }
    );
}

#[test]
fn store_failures_are_answered_with_500() {
    assert_eq!(
        TaskError::CreationError.into_response(),
        ErrorResponse { status: StatusCode::InternalServerError, message: "Could not create task" }
    );
    assert_eq!(
        TaskError::DbError.into_response(),
        ErrorResponse {
            status: StatusCode::InternalServerError,
            message: "System failure. Please try again later",
        }
    );
    assert_eq!(
        TaskError::GetTaskError.into_response(),
        ErrorResponse { status: StatusCode::InternalServerError, message: "Could not get tasks" }
    );
    assert_eq!(TaskError::DbError.into_response().status.as_u16(), 500);
}

#[test]
fn task_answer_shows_the_task() {
    assert_eq!(TaskResponse::from_task(&task(3, "shop", true)), response(3, "shop", true));
    assert_eq!(TaskResponse::from_task(&task(4, "", false)), response(4, "", false));
}

#[test]
fn listing_answers_every_task_in_order() {
    let listed = Ok(vec![task(2, "b", true), task(1, "a", false)]);
    assert_eq!(get_tasks(listed), Ok(vec![response(2, "b", true), response(1, "a", false)]));
    assert_eq!(get_tasks(Ok(Vec::new())), Ok(Vec::new()));
    assert_eq!(get_tasks(Err(TaskError::GetTaskError)), Err(TaskError::GetTaskError));
}

#[test]
fn new_task_takes_the_name_of_the_request() {
    let a = new_task(CreateTask { name: "Test task".to_string() });
    let b = new_task(CreateTask { name: "Test task".to_string() });
    assert_eq!(a.name, "Test task");
    assert!(!a.done);
    assert!(a.id.is_random());
    assert_ne!(a.id, b.id);
}

#[test]
fn created_task_is_answered_with_201() {
    let t = task(8, "Feed the cow", false);
    assert_eq!(create_task(Ok(()), &t), Ok((StatusCode::Created, response(8, "Feed the cow", false))));
    assert_eq!(create_task(Err(TaskError::CreationError), &t), Err(TaskError::CreationError));
}

#[test]
fn found_task_is_answered() {
    assert_eq!(get_task(Ok(task(9, "another one", true))), Ok(response(9, "another one", true)));
    assert_eq!(get_task(Err(TaskError::IdNotFound)), Err(TaskError::IdNotFound));
}

#[test]
fn update_is_answered_with_200() {
    assert_eq!(patch_task(Ok(())), Ok(StatusCode::Success));
    assert_eq!(patch_task(Err(TaskError::IdNotFound)), Err(TaskError::IdNotFound));
    assert_eq!(patch_task(Err(TaskError::DbError)), Err(TaskError::DbError));
}

#[test]
fn endpoints_over_the_in_memory_store() {
    let mut repo = InMemoryTaskRepository::new();
    assert_eq!(get_tasks(repo.get_all()), Ok(Vec::new()));

    let created = new_task(CreateTask { name: "Feed the cow".to_string() });
    let saved = repo.save(&created);
    let (status, body) = create_task(saved, &created).unwrap();
    assert_eq!(status.as_u16(), 201);
    assert_eq!(body, TaskResponse { name: "Feed the cow".to_string(), id: created.id, done: false });

    assert_eq!(patch_task(repo.update(&created.id)).map(|s| s.as_u16()), Ok(200));
    assert_eq!(get_task(repo.get_by_id(&created.id)).unwrap().done, true);

    let missing = TaskId(1);
    let not_found = get_task(repo.get_by_id(&missing)).unwrap_err().into_response();
    assert_eq!(not_found.status.as_u16(), 404);
    assert_eq!(not_found.message, "Task not found");
    let not_updated = patch_task(repo.update(&missing)).unwrap_err().into_response();
    assert_eq!(not_updated.status.as_u16(), 404);
}

#[test]
fn server_listens_on_every_interface() {
    let config = AppConfig { database_url: "postgres://localhost/tasks".to_string(), server_port: 3000 };
    assert_eq!(bind_address(&config), "0.0.0.0:3000");
    let low = AppConfig { database_url: String::new(), server_port: 0 };
    assert_eq!(bind_address(&low), "0.0.0.0:0");
    let negative = AppConfig { database_url: String::new(), server_port: -1 };
    assert_eq!(bind_address(&negative), "0.0.0.0:-1");
}

#[test]
fn decimal_of_given_numbers() {
    assert_eq!(unsigned_to_decimal(0), "0");
    assert_eq!(unsigned_to_decimal(7), "7");
    assert_eq!(unsigned_to_decimal(10), "10");
    assert_eq!(unsigned_to_decimal(5432), "5432");
    assert_eq!(unsigned_to_decimal(1234567890), "1234567890");
    assert_eq!(unsigned_to_decimal(u64::MAX), "18446744073709551615");
    assert_eq!(to_decimal(0), "0");
    assert_eq!(to_decimal(8080), "8080");
    assert_eq!(to_decimal(-1), "-1");
    assert_eq!(to_decimal(-900), "-900");
    assert_eq!(to_decimal(i64::MAX), "9223372036854775807");
    assert_eq!(to_decimal(i64::MIN), "-9223372036854775808");
}

#[test]
fn decimal_agrees_with_the_standard_formatting() {
    let mut n: i64 = -70_000;
    while n <= 70_000 {
        assert_eq!(to_decimal(n), format!("{}", n));
        n += 7;
    }
    let mut shift = 0;
    while shift < 63 {
        let v: i64 = 1i64 << shift;
        assert_eq!(to_decimal(v), format!("{}", v));
        assert_eq!(to_decimal(-v), format!("{}", -v));
        assert_eq!(to_decimal(v - 1), format!("{}", v - 1));
        shift += 1;
    }
}
