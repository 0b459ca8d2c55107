use chrono::{Datelike, Timelike};
use todo_api::models::db::{parameter_values, TaskModel};
use todo_api::models::request::area::AreaUpdateRequest;
use todo_api::models::request::task::{TaskCreateRequest, TaskRetrieveRequest, TaskUpdateRequest};
use todo_api::models::request::{CmpFlag, QueryMethod, UpdateMethod};
use todo_api::storage::db::{DBQuery, DBSubquery};
use todo_api::values::{Date, SqlParam, Time, Timestamp, Uuid};

const NIL: Uuid = Uuid(0);

fn request_setup() -> TaskCreateRequest {
    TaskCreateRequest {
        title: None,
        notes: None,
        start_date: None,
        start_time: None,
        deadline: None,
        area_id: None,
        project_id: None,
        user_id: Some(NIL),
        tag_ids: None,
    }
}

fn today() -> Date {
    Date { days_from_ce: chrono::Local::now().date_naive().num_days_from_ce() }
}

fn now_time() -> Time {
    let t = chrono::Local::now().time();
    Time { secs_from_midnight: t.num_seconds_from_midnight(), nanos: t.nanosecond() }
}

#[test]
fn blank() {
    let request = request_setup();

    let (query, params) = request.get_query();

    assert_eq!(query.as_str(), "INSERT INTO data.tasks (user_id) VALUES ($1) RETURNING task_id AS id",);
    assert_eq!(params.len(), 1);
}

#[test]
fn task_title() {
    let mut request = request_setup();
    request.title = Some("Test Task".to_string());

    let (query, params) = request.get_query();

    assert_eq!(
        query.as_str(),
        "INSERT INTO data.tasks (user_id,task_title) VALUES ($1,$2) RETURNING task_id AS id",
    );
    assert_eq!(params.len(), 2);
}

#[test]
fn notes() {
    let mut request = request_setup();
    request.notes = Some("Test Notes".to_string());

    let (query, params) = request.get_query();

    assert_eq!(
        query.as_str(),
        "INSERT INTO data.tasks (user_id,task_notes) VALUES ($1,$2) RETURNING task_id AS id",
    );
    assert_eq!(params.len(), 2);
}

#[test]
fn start_date() {
    let mut request = request_setup();
    request.start_date = Some(today());

    let (query, params) = request.get_query();

    assert_eq!(
        query.as_str(),
        "INSERT INTO data.tasks (user_id,start_date) VALUES ($1,$2) RETURNING task_id AS id",
    );
    assert_eq!(params.len(), 2);
}

#[test]
fn start_time() {
    let mut request = request_setup();
    request.start_date = Some(today());
    request.start_time = Some(now_time());

    let (query, params) = request.get_query();

    assert_eq!(
        query.as_str(),
        "INSERT INTO data.tasks (user_id,start_date,start_time) VALUES ($1,$2,$3) RETURNING task_id AS id",
    );
    assert_eq!(params.len(), 3);
}

#[test]
fn deadline() {
    let mut request = request_setup();
    request.deadline = Some(today());

    let (query, params) = request.get_query();

    assert_eq!(
        query.as_str(),
        "INSERT INTO data.tasks (user_id,deadline) VALUES ($1,$2) RETURNING task_id AS id",
    );
    assert_eq!(params.len(), 2);
}

#[test]
fn area_id() {
    let mut request = request_setup();
    request.area_id = Some(NIL);

    let (query, params) = request.get_query();

    assert_eq!(
        query.as_str(),
        "INSERT INTO data.tasks (user_id,area_id) VALUES ($1,$2) RETURNING task_id AS id",
    );
    assert_eq!(params.len(), 2);
}

#[test]
fn project_id() {
    let mut request = request_setup();
    request.project_id = Some(NIL);

    let (query, params) = request.get_query();

    assert_eq!(
        query.as_str(),
        "INSERT INTO data.tasks (user_id,project_id) VALUES ($1,$2) RETURNING task_id AS id",
    );
    assert_eq!(params.len(), 2);
}

#[test]
fn request() {
    let mut request = TaskRetrieveRequest::default();
    request.user_id = Some(NIL);
    request.task_id = Some(NIL);

    let (query, params) = request.get_query();

    assert_eq!(query.as_str(), "SELECT * FROM data.tasks WHERE task_id=$1 AND user_id=$2",);
    assert_eq!(params.len(), 2);
}

#[test]
fn create_links_tags() {
    let mut request = request_setup();
    request.tag_ids = Some(vec![Uuid(1), Uuid(2)]);
    let id = Uuid(9);

    let (query, params) = request.get_subquery(&id);

    assert_eq!(
        query.as_str(),
        "INSERT INTO data.task_tags (task_id,tag_id) SELECT T.id, R.id FROM (SELECT $1::uuid AS id) T CROSS JOIN (SELECT UNNEST($2::uuid[]) AS id) R"
    );
    assert_eq!(params.len(), 2);
    assert!(matches!(params[0], SqlParam::Id(u) if *u == id));
}

#[test]
fn update_assignments() {
    let request = TaskUpdateRequest {
        task_id: Some(Uuid(1)),
        title: Some(UpdateMethod::Change("New".to_string())),
        notes: Some(UpdateMethod::Remove),
        start_date: None,
        start_time: None,
        deadline: None,
        completed: Some(true),
        logged: None,
        trashed: None,
        area_id: None,
        project_id: None,
        user_id: Some(Uuid(2)),
        tag_ids: Some(UpdateMethod::Remove),
        timestamp: Timestamp { micros: 5 },
    };

    let (query, params) = request.get_query();
    assert_eq!(
        query.as_str(),
        "UPDATE data.tasks SET updated_on=$3,task_title=$4,task_notes=NULL,completed_on=$3 WHERE task_id=$1 AND user_id=$2 RETURNING *"
    );
    assert_eq!(params.len(), 4);
    assert!(matches!(params[0], SqlParam::Id(u) if *u == Uuid(1)));
    assert!(matches!(params[3], SqlParam::Text(s) if s == "New"));

    let id = Uuid(1);
    let (sub, sub_params) = request.get_subquery(&id);
    assert_eq!(sub.as_str(), "DELETE FROM data.task_tags WHERE task_id=$1 RETURNING task_id AS id");
    assert_eq!(sub_params.len(), 1);
}

#[test]
fn area_update_assignments() {
    let request = AreaUpdateRequest {
        area_id: Some(Uuid(1)),
        name: Some(UpdateMethod::Change("Home".to_string())),
        icon_url: Some(UpdateMethod::Remove),
        user_id: Some(Uuid(2)),
        timestamp: Timestamp { micros: 5 },
    };

    let (query, params) = request.get_query();
    assert_eq!(
        query.as_str(),
        "UPDATE data.areas SET updated_on=$3,area_name=$4,icon_url=NULL WHERE area_id=$1 AND user_id=$2 RETURNING *"
    );
    assert_eq!(params.len(), 4);
}

#[test]
fn condition_strings() {
    let q: QueryMethod<i32> = QueryMethod::Compare(3, CmpFlag(CmpFlag::ON_AFTER));
    assert_eq!(q.condition_string("col", 4), ("col>=$4".to_string(), 5));
    let q: QueryMethod<i32> = QueryMethod::Match(3);
    assert_eq!(q.condition_string("col", 4), ("col=$4".to_string(), 5));
    let q: QueryMethod<i32> = QueryMethod::NotNull(true);
    assert_eq!(q.condition_string("col", 4), ("col IS NOT NULL".to_string(), 4));
    let q: QueryMethod<i32> = QueryMethod::NotNull(false);
    assert_eq!(q.condition_string("col", 4), ("col IS NULL".to_string(), 4));
    assert_eq!(q.get_param(), None);
}

#[test]
fn update_strings() {
    let u: UpdateMethod<i32> = UpdateMethod::Change(1);
    assert_eq!(u.update_string("col", 12), ("col=$12".to_string(), 13));
    assert_eq!(u.get_param(), Some(&1));
    let u: UpdateMethod<i32> = UpdateMethod::Remove;
    assert_eq!(u.update_string("col", 12), ("col=NULL".to_string(), 12));
}

#[test]
fn flag_operators() {
    assert_eq!(CmpFlag(CmpFlag::EQUAL).to_sql_cmp(), "=");
    assert_eq!(CmpFlag(CmpFlag::BEFORE).to_sql_cmp(), "<");
    assert_eq!(CmpFlag(CmpFlag::ON_BEFORE).to_sql_cmp(), "<=");
    assert_eq!(CmpFlag(CmpFlag::AFTER).to_sql_cmp(), ">");
    assert_eq!(CmpFlag(CmpFlag::ON_AFTER).to_sql_cmp(), ">=");
    assert_eq!(CmpFlag(CmpFlag::NOT_EQUAL).to_sql_cmp(), "!=");
}

#[test]
fn placeholders_of_ranges() {
    assert_eq!(parameter_values(1..=3), vec!["$1".to_string(), "$2".to_string(), "$3".to_string()]);
    assert!(parameter_values(4..=3).is_empty());
    assert_eq!(TaskModel::NOTES, "task_notes");
}
