use todo_api::models::db::TaskModel;
use todo_api::models::request::{CmpFlag, QueryMethod, UpdateMethod};
use todo_api::request::query::{parameter_string, ToQuery};
use todo_api::request::task::{
    matched, tag_links, TaskDeleteRequest, TaskGetRequest, TaskPostRequest, TaskPutRequest, TaskQueryRequest,
};
use todo_api::values::{Date, SqlParam, Timestamp, Uuid};

fn post_request() -> TaskPostRequest {
    TaskPostRequest {
        title: None,
        notes: None,
        start_date: None,
        start_time: None,
        deadline: None,
        area_id: None,
        project_id: None,
        user_id: None,
        tag_ids: None,
    }
}

fn put_request() -> TaskPutRequest {
    TaskPutRequest {
        task_id: None,
        title: None,
        notes: None,
        start_date: None,
        start_time: None,
        deadline: None,
        completed: None,
        logged: None,
        trashed: None,
        area_id: None,
        project_id: None,
        user_id: None,
        timestamp: Timestamp { micros: 0 },
        tag_ids: None,
    }
}

fn query_request() -> TaskQueryRequest {
    TaskQueryRequest {
        search_query: None,
        start_date: None,
        deadline: None,
        completed: None,
        logged: None,
        trashed: None,
        area_id: None,
        project_id: None,
        user_id: None,
        tag_ids: None,
    }
}

#[test]
fn area_test_add() {
    assert!(true);
}

#[test]
fn project_test_add() {
    assert!(true);
}

#[test]
fn tag_test_add() {
    assert!(true);
}

#[test]
fn task_test_add() {
    assert!(true);
}

#[test]
fn parameter_string_numbers_the_range() {
    assert_eq!(parameter_string(1..=3), "$1,$2,$3");
    assert_eq!(parameter_string(3..=2), "");
    assert_eq!(parameter_string(9..=11), "$9,$10,$11");
}

#[test]
fn post_statement_and_params() {
    let mut request = post_request();
    request.user_id(Uuid(1));
    request.title = Some("Title".to_string());
    request.deadline = Some(Date { days_from_ce: 3 });

    assert_eq!(
        request.statement(),
        "INSERT INTO data.tasks (user_id, task_title, deadline) VALUES ($1,$2,$3) RETURNING task_id"
    );
    let params = request.params();
    assert_eq!(params.len(), 3);
    assert!(matches!(params[0], SqlParam::Id(u) if *u == Uuid(1)));
    assert!(matches!(params[2], SqlParam::Date(d) if d.days_from_ce == 3));
}

#[test]
fn get_and_delete_statements() {
    let mut get = TaskGetRequest::default();
    get.task_id(Uuid(7)).user_id(Uuid(8));
    assert_eq!(get.statement(), "SELECT * FROM data.tasks WHERE task_id=$1 AND user_id=$2");
    assert_eq!(get.params().len(), 2);

    let mut delete = TaskDeleteRequest::default();
    delete.task_id(Uuid(7)).user_id(Uuid(8));
    assert_eq!(
        delete.statement(),
        "WITH deleted AS (DELETE FROM data.task_tags WHERE task_id=$1) DELETE FROM data.tasks WHERE task_id=$1 AND user_id=$2"
    );
    assert!(matches!(delete.params()[1], SqlParam::Id(u) if *u == Uuid(8)));
}

#[test]
fn put_statement_and_params() {
    let mut request = put_request();
    request.task_id(Uuid(2)).user_id(Uuid(3));
    request.title = Some(UpdateMethod::Remove);
    request.completed = Some(true);
    request.trashed = Some(false);

    assert_eq!(
        request.statement(),
        "UPDATE data.tasks SET (updated_on, task_title, completed_on, trashed_on)=($3, $4, $5, $6) WHERE user_id=$1 AND task_id=$2 RETURNING *"
    );
    let params = request.params();
    assert_eq!(params.len(), 6);
    assert!(matches!(params[0], SqlParam::Id(u) if *u == Uuid(3)));
    assert!(matches!(params[3], SqlParam::Null));
    assert!(matches!(params[4], SqlParam::Timestamp(_)));
    assert!(matches!(params[5], SqlParam::Null));
}

#[test]
fn query_statement_and_params() {
    let mut request = query_request();
    request.user_id(Uuid(4));
    request.search_query("milk".to_string());
    request.start_date = Some(QueryMethod::Compare(Date { days_from_ce: 1 }, CmpFlag(CmpFlag::BEFORE)));
    request.completed = Some(QueryMethod::NotNull(false));
    request.area_id = Some(QueryMethod::Match(Uuid(5)));

    assert_eq!(
        request.statement(),
        "SELECT * FROM data.tasks WHERE user_id=$1 AND task_title LIKE $2 AND start_date<$3 AND completed_on IS NULL AND area_id=$4"
    );
    let params = request.params();
    assert_eq!(params.len(), 4);
    assert!(matches!(params[1], SqlParam::Text(s) if s == "milk"));
}

#[test]
fn tag_statements() {
    assert_eq!(
        tag_links("data.task_tags", "task_id", "tag_id", 2),
        "INSERT INTO data.task_tags (task_id, tag_id) VALUES ($1, $2), ($1, $3)"
    );
    assert_eq!(
        matched("data.task_tags", TaskModel::ID, "tag_id", 2),
        "SELECT task_id FROM data.task_tags WHERE tag_id IN ($1,$2) GROUP BY task_id HAVING COUNT(DISTINCT tag_id) >= 2"
    );
}

#[test]
fn update_into_option() {
    let change: Option<i32> = UpdateMethod::Change(3).into();
    let remove: Option<i32> = UpdateMethod::Remove.into();
    assert_eq!(change, Some(3));
    assert_eq!(remove, None);
}
