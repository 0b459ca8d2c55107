use todo_api::handler::{link_outcome, update_step, UpdateStep, TAG_NOT_ADDED_TO_TASK};
use todo_api::database::{color_from_stored, Rgb};
use todo_api::error::{Error, ErrorReply};
use todo_api::request::task::deletion_outcome;
use todo_api::storage::db::delete_outcome;
use todo_api::handler::can_page;
use todo_api::handler::auth::{
    check_login, credentials, login_decision, password_hash_for, registration_check, user_by_email_select,
    user_insert, user_login_select, LoginOutcome, ERROR_LOGIN, MISSING_LOGIN,
};
use todo_api::handler::{
    contains_id, linked_tags_select, owned_row_delete, owned_row_select, pagination, retain_listed_projects,
    retain_listed_tasks, tag_link_insert, tag_unlink_delete, tagged_rows_select,
};
use todo_api::model::auth::UserModel;
use todo_api::model::project::ProjectModel;
use todo_api::model::tag::TagModel;
use todo_api::model::task::{TaskModel, TaskTagModel};
use todo_api::model::ToResponse;
use todo_api::schema::area::{CreateAreaSchema, QueryAreaSchema, UpdateAreaSchema};
use todo_api::schema::auth::LoginDetails;
use todo_api::schema::task::{CreateTaskSchema, QueryTaskSchema};
use todo_api::schema::{FilterOptions, QueryMethod, UpdateMethod};
use todo_api::values::{SqlParam, Timestamp, Uuid};

fn stamp() -> Timestamp {
    Timestamp { micros: 100 }
}

fn task(id: u128) -> TaskModel {
    TaskModel {
        task_id: Uuid(id),
        task_title: Some(format!("task {}", id)),
        notes: None,
        start_date: None,
        start_time: None,
        deadline: None,
        completed_on: None,
        logged_on: None,
        trashed_on: None,
        area_id: None,
        project_id: None,
        user_id: Uuid(1),
        created_on: stamp(),
        updated_on: stamp(),
    }
}

fn project(id: u128) -> ProjectModel {
    ProjectModel {
        project_id: Uuid(id),
        project_title: None,
        notes: Some("n".to_string()),
        start_date: None,
        start_time: None,
        deadline: None,
        completed_on: None,
        logged_on: None,
        trashed_on: None,
        area_id: None,
        user_id: Uuid(1),
        created_on: stamp(),
        updated_on: stamp(),
    }
}

fn tag(id: u128) -> TagModel {
    TagModel {
        tag_id: Uuid(id),
        tag_label: Some("label".to_string()),
        color: None,
        category: None,
        user_id: Uuid(1),
        created_on: stamp(),
        updated_on: stamp(),
    }
}

#[test]
fn pages() {
    assert_eq!(pagination(&FilterOptions { page: None, limit: None }), (25, 0));
    assert_eq!(pagination(&FilterOptions { page: Some(3), limit: Some(10) }), (10, 20));
    assert_eq!(pagination(&FilterOptions { page: Some(1), limit: Some(10) }).1, 0);
    let second = pagination(&FilterOptions { page: Some(2), limit: Some(10) }).1;
    let third = pagination(&FilterOptions { page: Some(3), limit: Some(10) }).1;
    assert_eq!(third, second + 10);
}

#[test]
fn retained_tasks_are_the_listed_ones() {
    let mut tasks = vec![task(1), task(2), task(3), task(4)];
    retain_listed_tasks(&mut tasks, &vec![Uuid(4), Uuid(2), Uuid(9)]);
    let ids: Vec<u128> = tasks.iter().map(|t| t.task_id.0).collect();
    assert_eq!(ids, vec![2, 4]);

    let mut projects = vec![project(5), project(6)];
    retain_listed_projects(&mut projects, &vec![Uuid(6)]);
    assert_eq!(projects.len(), 1);
    assert_eq!(projects[0].project_id, Uuid(6));

    assert!(contains_id(&vec![Uuid(1), Uuid(2)], &Uuid(2)));
    assert!(!contains_id(&vec![], &Uuid(2)));
}

#[test]
fn owned_row_statements() {
    let user = Uuid(1);
    let id = Uuid(2);
    let (select, params) = owned_row_select("data.tasks", "user_id", &user, "task_id", &id);
    assert_eq!(select, "SELECT * FROM data.tasks WHERE user_id = $1 AND task_id = $2");
    assert_eq!(params.len(), 2);

    let (delete, _) = owned_row_delete("data.tasks", "user_id", &user, "task_id", &id);
    assert_eq!(delete, "DELETE FROM data.tasks WHERE user_id = $1 AND task_id = $2 RETURNING task_id");
}

#[test]
fn tag_link_statements() {
    let owner = Uuid(1);
    let tag = Uuid(2);
    let (select, _) = linked_tags_select(TagModel::TABLE, TaskTagModel::TABLE, TaskTagModel::TAG_ID, TaskTagModel::TASK_ID, &owner);
    assert_eq!(select, "SELECT * FROM data.tags INNER JOIN data.task_tags USING (tag_id) WHERE task_id = $1");

    let (insert, params) = tag_link_insert(TaskTagModel::TABLE, TaskTagModel::TASK_ID, &owner, TaskTagModel::TAG_ID, &tag);
    assert_eq!(insert, "INSERT INTO data.task_tags (task_id, tag_id) VALUES ($1, $2)");
    assert_eq!(params.len(), 2);

    let (delete, _) = tag_unlink_delete(TaskTagModel::TABLE, TaskTagModel::TASK_ID, &owner);
    assert_eq!(delete, "DELETE FROM data.task_tags WHERE task_id = $1");

    let tags = vec![Uuid(3), Uuid(4)];
    let count: i64 = 2;
    let (tagged, params) = tagged_rows_select(TaskTagModel::TABLE, TaskTagModel::TASK_ID, TaskTagModel::TAG_ID, &tags, &count);
    assert_eq!(
        tagged,
        "SELECT task_id FROM data.task_tags WHERE tag_id = ANY($1) GROUP BY task_id HAVING COUNT(DISTINCT tag_id) = $2"
    );
    assert!(matches!(params[1], SqlParam::BigInt(2)));
}

#[test]
fn task_handler_statements() {
    let user = Uuid(1);
    let body = CreateTaskSchema {
        title: Some("Milk".to_string()),
        notes: None,
        start_date: None,
        start_time: None,
        deadline: None,
        area_id: None,
        project_id: None,
        tag_ids: None,
    };
    let (create, params) = todo_api::handler::task::create_statement(&user, &body);
    assert_eq!(create, "INSERT INTO data.tasks (user_id, task_title) VALUES ($1, $2) RETURNING task_id");
    assert_eq!(params.len(), 2);

    let query = QueryTaskSchema {
        title: None,
        notes: None,
        start_date: None,
        start_time: None,
        deadline: None,
        completed: Some(false),
        logged: None,
        trashed: None,
        area_id: None,
        project_id: None,
        tag_ids: None,
    };
    let (select, params) = todo_api::handler::task::query_statement(&query, &user, 25, 50);
    assert_eq!(select, "SELECT * FROM data.tasks WHERE completed_on IS NULL AND user_id = $1 LIMIT 25 OFFSET 50");
    assert_eq!(params.len(), 1);
}

#[test]
fn area_handler_statements() {
    let user = Uuid(1);
    let id = Uuid(2);
    let now = stamp();
    let body = CreateAreaSchema { name: Some("Home".to_string()), icon_url: None };
    let (create, _) = todo_api::handler::area::create_statement(&user, &body);
    assert_eq!(create, "INSERT INTO data.areas (user_id, area_name) VALUES ($1, $2) RETURNING *");

    let update = UpdateAreaSchema { name: None, icon_url: Some(UpdateMethod::Remove(true)) };
    let (statement, params) = todo_api::handler::area::update_statement(&now, &update, &user, &id);
    assert_eq!(
        statement,
        "UPDATE data.areas SET updated_on=$1, icon_url=$2 WHERE user_id = $3 AND area_id = $4 RETURNING *"
    );
    assert_eq!(params.len(), 4);

    let query = QueryAreaSchema { name: Some(QueryMethod::NotNull(true)) };
    let (select, _) = todo_api::handler::area::query_statement(&query, &user, 10, 0);
    assert_eq!(select, "SELECT * FROM data.areas WHERE area_name NOTNULL AND user_id = $1 LIMIT 10 OFFSET 0");
}

#[test]
fn responses() {
    let t = task(7);
    let mut r = t.to_response();
    assert_eq!(r.title, "task 7");
    assert_eq!(r.notes, "");
    r.add_tags(vec![tag(8), tag(9)]);
    assert_eq!(r.tags.len(), 2);
    assert_eq!(r.tags[1].id, Uuid(9));
    assert_eq!(r.tags[0].label, "label");
    assert_eq!(r.tags[0].color, "");

    let p = project(3).to_response();
    assert_eq!(p.title, "");
    assert_eq!(p.notes, "n");

    let user = UserModel {
        user_id: Uuid(4),
        email: "a@b.c".to_string(),
        password_hash: "secret".to_string(),
        created_on: stamp(),
        updated_on: stamp(),
    };
    let u = user.to_response();
    assert_eq!(u.email, "a@b.c");
    assert_eq!(u.id, Uuid(4));
}

#[test]
fn error_replies() {
    let internal = Error::Internal("pool exhausted".to_string()).to_reply();
    assert_eq!(internal.status, 500);
    assert_eq!(internal.message, "error occured internally");
    let invalid = Error::InvalidRequest("bad".to_string()).to_reply();
    assert_eq!(invalid.status, 400);
    assert_eq!(invalid.message, "error occured with request");
    let other = Error::Internal("another detail".to_string()).to_reply();
    assert_eq!(other.message, internal.message);
}

#[test]
fn login_rules() {
    let missing = LoginDetails { email: Some("a@b.c".to_string()), password: None };
    assert!(credentials(&missing).is_none());
    let full = LoginDetails { email: Some("a@b.c".to_string()), password: Some("pw".to_string()) };
    assert!(credentials(&full).is_some());
    assert_eq!(MISSING_LOGIN, "missing email and/or password");
    assert_eq!(ERROR_LOGIN, "user with given email and password combination not found");

    assert!(registration_check(0).is_ok());
    match registration_check(1) {
        Err(Error::InvalidRequest(m)) => assert_eq!(m, "user with provided email already exists"),
        _ => panic!("a taken email is refused"),
    }

    let email = "a@b.c".to_string();
    let (select, _) = user_by_email_select(&email);
    assert_eq!(select, "SELECT * FROM auth.users WHERE email = $1");
    let (login, _) = user_login_select(&email);
    assert_eq!(login, "SELECT * FROM auth.users WHERE email = $1");
    let hash = "h".to_string();
    let (insert, params) = user_insert(&email, &hash);
    assert_eq!(insert, "INSERT INTO auth.users (email, password_hash) VALUES ($1, $2)");
    assert_eq!(params.len(), 2);
}

#[test]
fn registered_password_logs_in() {
    let password = "correct horse".to_string();
    let hash = password_hash_for(&password).ok().unwrap();
    assert!(hash.starts_with("$argon2"));
    let user = UserModel {
        user_id: Uuid(11),
        email: "a@b.c".to_string(),
        password_hash: hash,
        created_on: stamp(),
        updated_on: stamp(),
    };
    assert!(matches!(check_login(Some(&user), &password), LoginOutcome::Accepted(u) if u == Uuid(11)));
    assert!(matches!(check_login(Some(&user), &"wrong".to_string()), LoginOutcome::Refused));
    assert!(matches!(check_login(None, &password), LoginOutcome::Refused));

    let broken = UserModel { password_hash: String::new(), ..user };
    assert!(matches!(check_login(Some(&broken), &password), LoginOutcome::Failed(Error::Internal(_))));
    assert!(matches!(login_decision(Some(&broken), Ok(false)), LoginOutcome::Refused));
}

#[test]
fn tag_colors() {
    assert_eq!(color_from_stored(Some("#FF69B4")), Some(Rgb { r: 0xFF, g: 0x69, b: 0xB4 }));
    assert_eq!(color_from_stored(Some("#fff")), Some(Rgb { r: 0xFF, g: 0xFF, b: 0xFF }));
    assert_eq!(color_from_stored(Some("red")), None);
    assert_eq!(color_from_stored(Some("#ff69b4")), Some(Rgb { r: 0xFF, g: 0x69, b: 0xB4 }));
    assert_eq!(color_from_stored(Some("#+F0a00")), Some(Rgb { r: 0x0F, g: 0x0A, b: 0x00 }));
    assert_eq!(color_from_stored(Some("#1a2")), Some(Rgb { r: 0x11, g: 0xAA, b: 0x22 }));
    assert_eq!(color_from_stored(Some("#FF69B4AA")), None);
    assert_eq!(color_from_stored(Some("#FG0000")), None);
    assert_eq!(color_from_stored(Some("")), None);
    assert_eq!(color_from_stored(None), None);
}

#[test]
fn delete_outcomes() {

    assert!(matches!(delete_outcome(0), Ok(false)));
    assert!(matches!(delete_outcome(1), Ok(true)));
    match delete_outcome(2) {
        Err(Error::Internal(m)) => assert_eq!(m, "more than one row deleted"),
        _ => panic!("two rows gone is a fault"),
    }
    assert_eq!(deletion_outcome(0), Ok(false));
    assert_eq!(deletion_outcome(1), Ok(true));
    assert_eq!(deletion_outcome(3), Err("More than one task deleted".to_string()));
}

#[test]
fn paging_checks() {
    assert!(can_page(&FilterOptions { page: None, limit: None }));
    assert!(!can_page(&FilterOptions { page: Some(0), limit: Some(25) }));
    assert!(!can_page(&FilterOptions { page: Some(usize::MAX), limit: Some(2) }));
}

#[test]
fn error_reply_by_into() {
    let reply: ErrorReply = Error::InvalidRequest("x".to_string()).into();
    assert_eq!(reply.status, 400);
    assert_eq!(reply.message, "error occured with request");
}

#[test]
fn project_update_returns_identifier() {
    let user = Uuid(1);
    let id = Uuid(2);
    let now = stamp();
    let body = todo_api::schema::project::UpdateProjectSchema {
        title: Some(UpdateMethod::Change("Plan".to_string())),
        notes: None,
        start_date: None,
        start_time: None,
        deadline: None,
        completed: Some(true),
        logged: None,
        trashed: None,
        area_id: None,
        tag_ids: None,
    };
    let (statement, params) = todo_api::handler::project::update_statement(&now, &body, &user, &id);
    assert_eq!(
        statement,
        "UPDATE data.projects SET updated_on=$1, project_title=$2, completed_on=$3 WHERE user_id = $4 AND project_id = $5 RETURNING project_id"
    );
    assert_eq!(params.len(), 5);
}

#[test]
fn link_outcome_accepts_one_row_only() {
    assert!(link_outcome(1, TAG_NOT_ADDED_TO_TASK).is_ok());
    match link_outcome(0, TAG_NOT_ADDED_TO_TASK) {
        Err(Error::Internal(m)) => assert_eq!(m, "tag was not added to task"),
        _ => panic!("expected an internal error"),
    }
    assert!(link_outcome(2, "").is_err());
}

#[test]
fn update_steps() {
    assert!(matches!(update_step(false, true), UpdateStep::NotFound));
    assert!(matches!(update_step(false, false), UpdateStep::NotFound));
    assert!(matches!(update_step(true, true), UpdateStep::ReplaceTags));
    assert!(matches!(update_step(true, false), UpdateStep::Commit));
}
