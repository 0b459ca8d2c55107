use chrono::{Datelike, Timelike};
use todo_api::model::task::TaskModel;
use todo_api::schema::area::{CreateAreaSchema, QueryAreaSchema, UpdateAreaSchema};
use todo_api::schema::task::{CreateTaskSchema, QueryTaskSchema, UpdateTaskSchema};
use todo_api::schema::{AddToQuery, Compare, FilterOptions, QueryMethod, UpdateMethod};
use todo_api::sql_builder::{PostgresCmp, SQLQueryBuilder, ToPostgresCmp};
use todo_api::values::{Date, SqlParam, Time, Timestamp, Uuid};

const ID: Uuid = Uuid(0);

fn today() -> Date {
    Date { days_from_ce: chrono::Local::now().date_naive().num_days_from_ce() }
}

fn now_time() -> Time {
    let t = chrono::Local::now().time();
    Time { secs_from_midnight: t.num_seconds_from_midnight(), nanos: t.nanosecond() }
}

fn now_stamp() -> Timestamp {
    Timestamp { micros: chrono::Local::now().timestamp_micros() }
}

fn new_id() -> Uuid {
    Uuid(uuid::Uuid::new_v4().as_u128())
}

fn create_task_schema() -> CreateTaskSchema {
    CreateTaskSchema {
        title: None,
        notes: None,
        start_date: None,
        start_time: None,
        deadline: None,
        area_id: None,
        project_id: None,
        tag_ids: None,
    }
}

fn update_task_schema() -> UpdateTaskSchema {
    UpdateTaskSchema {
        title: None,
        notes: None,
        start_date: None,
        start_time: None,
        deadline: None,
        completed: None,
        logged: None,
        trashed: None,
        area_id: None,
        project_id: None,
        tag_ids: None,
    }
}

fn query_task_schema() -> QueryTaskSchema {
    QueryTaskSchema {
        title: None,
        notes: None,
        start_date: None,
        start_time: None,
        deadline: None,
        completed: None,
        logged: None,
        trashed: None,
        area_id: None,
        project_id: None,
        tag_ids: None,
    }
}

#[test]
fn area_full() {
    let schema = CreateAreaSchema {
        name: Some("Test Name".to_string()),
        icon_url: Some("https://www.google.com/favicon.ico".to_string()),
    };

    let mut builder = SQLQueryBuilder::new("");
    schema.add_to_query(&mut builder);

    let (statement, params) = builder.build_insert();

    assert_eq!(statement.as_str(), "INSERT INTO data.areas (area_name, icon_url) VALUES ($1, $2)");
    assert_eq!(params.len(), 2);
}

#[test]
fn area_update_full() {
    let schema = UpdateAreaSchema {
        name: Some(UpdateMethod::Change("Test Name".to_string())),
        icon_url: Some(UpdateMethod::Change(
            "https://www.mozilla.org/media/protocol/img/logos/firefox/browser/logo.eb1324e44442.svg".to_string(),
        )),
    };

    let mut builder = SQLQueryBuilder::new("");
    schema.add_to_query(&mut builder);

    let (statement, params) = builder.build_update();

    assert_eq!(statement.as_str(), "UPDATE data.areas SET area_name=$1, icon_url=$2");
    assert_eq!(params.len(), 2);
}

#[test]
fn area_empty() {
    let schema = QueryAreaSchema { name: None };

    let mut builder = SQLQueryBuilder::new("");
    schema.add_to_query(&mut builder);

    let (statement, params) = builder.build_select();

    assert_eq!(statement.as_str(), "SELECT * FROM data.areas");
    assert_eq!(params.len(), 0);
}

#[test]
fn area_query_full() {
    let schema = QueryAreaSchema { name: Some(QueryMethod::Match("Test Name".to_string())) };

    let mut builder = SQLQueryBuilder::new("");
    schema.add_to_query(&mut builder);

    let (statement, params) = builder.build_select();

    assert_eq!(statement.as_str(), "SELECT * FROM data.areas WHERE area_name LIKE '%' || $1 || '%'");
    assert_eq!(params.len(), 1);
}

#[test]
fn area_update_keep_and_clear() {
    let schema = UpdateAreaSchema { name: Some(UpdateMethod::Remove(false)), icon_url: Some(UpdateMethod::Remove(true)) };

    let mut builder = SQLQueryBuilder::new("");
    schema.add_to_query(&mut builder);

    let (statement, params) = builder.build_update();

    assert_eq!(statement.as_str(), "UPDATE data.areas SET icon_url=$1");
    assert_eq!(params.len(), 1);
    assert!(matches!(params[0], SqlParam::Null));
}

#[test]
fn task_empty() {
    let schema = create_task_schema();

    let mut builder = SQLQueryBuilder::new("");
    builder.add_column(TaskModel::USER_ID, SqlParam::Id(&ID));
    schema.add_to_query(&mut builder);

    let (statement, params) = builder.build_insert();

    assert_eq!(statement.as_str(), "INSERT INTO data.tasks (user_id) VALUES ($1)");
    assert_eq!(params.len(), 1);
}

#[test]
fn task_text_only() {
    let mut schema = create_task_schema();
    schema.title = Some("Test Title".to_string());
    schema.notes = Some("Test Note".to_string());

    let mut builder = SQLQueryBuilder::new("");
    builder.add_column(TaskModel::USER_ID, SqlParam::Id(&ID));
    schema.add_to_query(&mut builder);

    let (statement, params) = builder.build_insert();

    assert_eq!(statement.as_str(), "INSERT INTO data.tasks (user_id, task_title, notes) VALUES ($1, $2, $3)");
    assert_eq!(params.len(), 3);
}

#[test]
fn task_date_time_only() {
    let mut schema = create_task_schema();
    schema.start_date = Some(today());
    schema.start_time = Some(now_time());
    schema.deadline = Some(today());

    let mut builder = SQLQueryBuilder::new("");
    builder.add_column(TaskModel::USER_ID, SqlParam::Id(&ID));
    schema.add_to_query(&mut builder);

    let (statement, params) = builder.build_insert();

    assert_eq!(
        statement.as_str(),
        "INSERT INTO data.tasks (user_id, start_date, start_time, deadline) VALUES ($1, $2, $3, $4)"
    );
    assert_eq!(params.len(), 4);
}

#[test]
fn task_id_only() {
    let mut schema = create_task_schema();
    schema.area_id = Some(new_id());
    schema.project_id = Some(new_id());

    let mut builder = SQLQueryBuilder::new("");
    builder.add_column(TaskModel::USER_ID, SqlParam::Id(&ID));
    schema.add_to_query(&mut builder);

    let (statement, params) = builder.build_insert();

    assert_eq!(statement.as_str(), "INSERT INTO data.tasks (user_id, area_id, project_id) VALUES ($1, $2, $3)");
    assert_eq!(params.len(), 3);
}

#[test]
fn task_full() {
    let mut schema = create_task_schema();
    schema.title = Some("Test Title".to_string());
    schema.notes = Some("Test Note".to_string());
    schema.start_date = Some(today());
    schema.start_time = Some(now_time());
    schema.deadline = Some(today());
    schema.area_id = Some(new_id());
    schema.project_id = Some(new_id());

    let mut builder = SQLQueryBuilder::new("");
    builder.add_column(TaskModel::USER_ID, SqlParam::Id(&ID));
    schema.add_to_query(&mut builder);

    let (statement, params) = builder.build_insert();

    assert_eq!(
        statement,
        "INSERT INTO data.tasks (user_id, task_title, notes, start_date, start_time, deadline, area_id, project_id) VALUES ($1, $2, $3, $4, $5, $6, $7, $8)"
    );
    assert_eq!(params.len(), 8);
}

#[test]
fn task_return_some() {
    let mut schema = create_task_schema();
    schema.title = Some("Test Title".to_string());
    schema.start_date = Some(today());
    schema.deadline = Some(today());
    schema.project_id = Some(new_id());

    let mut builder = SQLQueryBuilder::new("");
    builder.add_column(TaskModel::USER_ID, SqlParam::Id(&ID));
    schema.add_to_query(&mut builder);
    builder.set_return(vec![TaskModel::ID]);

    let (statement, params) = builder.build_insert();

    assert_eq!(
        statement.as_str(),
        "INSERT INTO data.tasks (user_id, task_title, start_date, deadline, project_id) VALUES ($1, $2, $3, $4, $5) RETURNING task_id"
    );
    assert_eq!(params.len(), 5);
}

#[test]
fn task_return_all() {
    let mut schema = create_task_schema();
    schema.title = Some("Test Title".to_string());
    schema.start_date = Some(today());
    schema.deadline = Some(today());
    schema.project_id = Some(new_id());

    let mut builder = SQLQueryBuilder::new("");
    builder.add_column(TaskModel::USER_ID, SqlParam::Id(&ID));
    schema.add_to_query(&mut builder);
    builder.set_return_all();

    let (statement, params) = builder.build_insert();

    assert_eq!(
        statement.as_str(),
        "INSERT INTO data.tasks (user_id, task_title, start_date, deadline, project_id) VALUES ($1, $2, $3, $4, $5) RETURNING *"
    );
    assert_eq!(params.len(), 5);
}

#[test]
fn task_update_text_only() {
    let mut schema = update_task_schema();
    schema.title = Some(UpdateMethod::Change("Test Title".to_string()));
    schema.notes = Some(UpdateMethod::Change("Test Note".to_string()));

    let mut builder = SQLQueryBuilder::new("");
    schema.add_to_query(&mut builder);
    builder.add_condition(TaskModel::USER_ID, PostgresCmp::Equal, SqlParam::Id(&ID));
    builder.add_condition(TaskModel::ID, PostgresCmp::Equal, SqlParam::Id(&ID));

    let (statement, params) = builder.build_update();

    assert_eq!(
        statement.as_str(),
        "UPDATE data.tasks SET task_title=$1, notes=$2 WHERE user_id = $3 AND task_id = $4"
    );
    assert_eq!(params.len(), 4);
}

#[test]
fn task_update_date_time_only() {
    let mut schema = update_task_schema();
    schema.start_date = Some(UpdateMethod::Change(today()));
    schema.start_time = Some(UpdateMethod::Change(now_time()));
    schema.deadline = Some(UpdateMethod::Change(today()));

    let mut builder = SQLQueryBuilder::new("");
    schema.add_to_query(&mut builder);
    builder.add_condition(TaskModel::USER_ID, PostgresCmp::Equal, SqlParam::Id(&ID));
    builder.add_condition(TaskModel::ID, PostgresCmp::Equal, SqlParam::Id(&ID));

    let (statement, params) = builder.build_update();

    assert_eq!(
        statement.as_str(),
        "UPDATE data.tasks SET start_date=$1, start_time=$2, deadline=$3 WHERE user_id = $4 AND task_id = $5"
    );
    assert_eq!(params.len(), 5);
}

#[test]
fn bool_only() {
    let now = now_stamp();
    let mut schema = update_task_schema();
    schema.completed = Some(true);
    schema.logged = Some(true);
    schema.trashed = Some(true);

    let mut builder = SQLQueryBuilder::new("");
    builder.add_column(TaskModel::UPDATED, SqlParam::Timestamp(&now));
    schema.add_to_query(&mut builder);
    builder.add_condition(TaskModel::USER_ID, PostgresCmp::Equal, SqlParam::Id(&ID));
    builder.add_condition(TaskModel::ID, PostgresCmp::Equal, SqlParam::Id(&ID));

    let (statement, params) = builder.build_update();

    assert_eq!(
        statement.as_str(),
        "UPDATE data.tasks SET updated_on=$1, completed_on=$2, logged_on=$3, trashed_on=$4 WHERE user_id = $5 AND task_id = $6"
    );
    assert_eq!(params.len(), 6);
    assert!(matches!(params[1], SqlParam::Timestamp(t) if *t == now));
}

#[test]
fn task_update_id_only() {
    let mut schema = update_task_schema();
    schema.area_id = Some(UpdateMethod::Change(new_id()));
    schema.project_id = Some(UpdateMethod::Change(new_id()));

    let mut builder = SQLQueryBuilder::new("");
    schema.add_to_query(&mut builder);
    builder.add_condition(TaskModel::USER_ID, PostgresCmp::Equal, SqlParam::Id(&ID));
    builder.add_condition(TaskModel::ID, PostgresCmp::Equal, SqlParam::Id(&ID));

    let (statement, params) = builder.build_update();

    assert_eq!(
        statement.as_str(),
        "UPDATE data.tasks SET area_id=$1, project_id=$2 WHERE user_id = $3 AND task_id = $4"
    );
    assert_eq!(params.len(), 4);
}

#[test]
fn task_update_full() {
    let now = now_stamp();
    let mut schema = update_task_schema();
    schema.title = Some(UpdateMethod::Change("Test Title".to_string()));
    schema.notes = Some(UpdateMethod::Change("Test Note".to_string()));
    schema.start_date = Some(UpdateMethod::Change(today()));
    schema.start_time = Some(UpdateMethod::Change(now_time()));
    schema.deadline = Some(UpdateMethod::Change(today()));
    schema.completed = Some(true);
    schema.logged = Some(true);
    schema.trashed = Some(true);
    schema.area_id = Some(UpdateMethod::Change(new_id()));
    schema.project_id = Some(UpdateMethod::Change(new_id()));

    let mut builder = SQLQueryBuilder::new("");
    builder.add_column(TaskModel::UPDATED, SqlParam::Timestamp(&now));
    schema.add_to_query(&mut builder);
    builder.add_condition(TaskModel::USER_ID, PostgresCmp::Equal, SqlParam::Id(&ID));
    builder.add_condition(TaskModel::ID, PostgresCmp::Equal, SqlParam::Id(&ID));

    let (statement, params) = builder.build_update();

    assert_eq!(
        statement.as_str(),
        "UPDATE data.tasks SET updated_on=$1, task_title=$2, notes=$3, start_date=$4, start_time=$5, deadline=$6, completed_on=$7, logged_on=$8, trashed_on=$9, area_id=$10, project_id=$11 WHERE user_id = $12 AND task_id = $13"
    );
    assert_eq!(params.len(), 13);
}

#[test]
fn task_update_return_some() {
    let now = now_stamp();
    let mut schema = update_task_schema();
    schema.title = Some(UpdateMethod::Change("Test Title".to_string()));
    schema.start_date = Some(UpdateMethod::Change(today()));
    schema.deadline = Some(UpdateMethod::Change(today()));
    schema.completed = Some(true);
    schema.project_id = Some(UpdateMethod::Change(new_id()));

    let mut builder = SQLQueryBuilder::new("");
    builder.add_column(TaskModel::UPDATED, SqlParam::Timestamp(&now));
    schema.add_to_query(&mut builder);
    builder.add_condition(TaskModel::USER_ID, PostgresCmp::Equal, SqlParam::Id(&ID));
    builder.add_condition(TaskModel::ID, PostgresCmp::Equal, SqlParam::Id(&ID));
    builder.set_return(vec![TaskModel::ID]);

    let (statement, params) = builder.build_update();

    assert_eq!(
        statement.as_str(),
        "UPDATE data.tasks SET updated_on=$1, task_title=$2, start_date=$3, deadline=$4, completed_on=$5, project_id=$6 WHERE user_id = $7 AND task_id = $8 RETURNING task_id"
    );
    assert_eq!(params.len(), 8);
}

#[test]
fn task_update_return_all() {
    let now = now_stamp();
    let mut schema = update_task_schema();
    schema.title = Some(UpdateMethod::Change("Test Title".to_string()));
    schema.start_date = Some(UpdateMethod::Change(today()));
    schema.deadline = Some(UpdateMethod::Change(today()));
    schema.completed = Some(true);
    schema.project_id = Some(UpdateMethod::Change(new_id()));

    let mut builder = SQLQueryBuilder::new("");
    builder.add_column(TaskModel::UPDATED, SqlParam::Timestamp(&now));
    schema.add_to_query(&mut builder);
    builder.add_condition(TaskModel::USER_ID, PostgresCmp::Equal, SqlParam::Id(&ID));
    builder.add_condition(TaskModel::ID, PostgresCmp::Equal, SqlParam::Id(&ID));
    builder.set_return_all();

    let (statement, params) = builder.build_update();

    assert_eq!(
        statement.as_str(),
        "UPDATE data.tasks SET updated_on=$1, task_title=$2, start_date=$3, deadline=$4, completed_on=$5, project_id=$6 WHERE user_id = $7 AND task_id = $8 RETURNING *"
    );
    assert_eq!(params.len(), 8);
}

#[test]
fn task_query_empty() {
    let schema = query_task_schema();

    let mut builder = SQLQueryBuilder::new("");
    schema.add_to_query(&mut builder);
    builder.add_condition(TaskModel::USER_ID, PostgresCmp::Equal, SqlParam::Id(&ID));

    let (statement, params) = builder.build_select();

    assert_eq!(statement.as_str(), "SELECT * FROM data.tasks WHERE user_id = $1");
    assert_eq!(params.len(), 1);
}

#[test]
fn date_time_eq_only() {
    let mut schema = query_task_schema();
    schema.start_date = Some(QueryMethod::Match(today()));
    schema.start_time = Some(QueryMethod::Match(now_time()));
    schema.deadline = Some(QueryMethod::Match(today()));

    let mut builder = SQLQueryBuilder::new("");
    schema.add_to_query(&mut builder);
    builder.add_condition(TaskModel::USER_ID, PostgresCmp::Equal, SqlParam::Id(&ID));

    let (statement, params) = builder.build_select();

    assert_eq!(
        statement.as_str(),
        "SELECT * FROM data.tasks WHERE start_date = $1 AND start_time = $2 AND deadline = $3 AND user_id = $4"
    );
    assert_eq!(params.len(), 4);
}

#[test]
fn date_time_cmp_only() {
    let mut schema = query_task_schema();
    schema.start_date = Some(QueryMethod::Compare(today(), Compare::Less));
    schema.start_time = Some(QueryMethod::Compare(now_time(), Compare::LessEq));
    schema.deadline = Some(QueryMethod::Compare(today(), Compare::Greater));

    let mut builder = SQLQueryBuilder::new("");
    schema.add_to_query(&mut builder);
    builder.add_condition(TaskModel::USER_ID, PostgresCmp::Equal, SqlParam::Id(&ID));

    let (statement, params) = builder.build_select();

    assert_eq!(
        statement.as_str(),
        "SELECT * FROM data.tasks WHERE start_date < $1 AND start_time <= $2 AND deadline > $3 AND user_id = $4"
    );
    assert_eq!(params.len(), 4);
}

#[test]
fn task_query_id_only() {
    let mut schema = query_task_schema();
    schema.area_id = Some(QueryMethod::Match(new_id()));
    schema.project_id = Some(QueryMethod::Match(new_id()));

    let mut builder = SQLQueryBuilder::new("");
    schema.add_to_query(&mut builder);
    builder.add_condition(TaskModel::USER_ID, PostgresCmp::Equal, SqlParam::Id(&ID));

    let (statement, params) = builder.build_select();

    assert_eq!(
        statement.as_str(),
        "SELECT * FROM data.tasks WHERE area_id = $1 AND project_id = $2 AND user_id = $3"
    );
    assert_eq!(params.len(), 3);
}

#[test]
fn task_query_flags_and_text() {
    let mut schema = query_task_schema();
    schema.title = Some(QueryMethod::Match("Test Title".to_string()));
    schema.completed = Some(true);
    schema.trashed = Some(false);
    schema.project_id = Some(QueryMethod::NotNull(true));

    let mut builder = SQLQueryBuilder::new("");
    schema.add_to_query(&mut builder);
    builder.add_condition(TaskModel::USER_ID, PostgresCmp::Equal, SqlParam::Id(&ID));

    let (statement, params) = builder.build_select();

    assert_eq!(
        statement.as_str(),
        "SELECT * FROM data.tasks WHERE task_title LIKE '%' || $1 || '%' AND completed_on NOTNULL AND trashed_on IS NULL AND project_id NOTNULL AND user_id = $2"
    );
    assert_eq!(params.len(), 2);
}

#[test]
fn bool_t_only() {
    let mut schema = query_task_schema();
    schema.completed = Some(true);
    schema.logged = Some(true);
    schema.trashed = Some(true);

    let mut builder = SQLQueryBuilder::new("data.tasks");
    schema.add_to_query(&mut builder);
    builder.add_condition(TaskModel::USER_ID, PostgresCmp::Equal, SqlParam::Id(&ID));

    let (statement, params) = builder.build_select();

    assert_eq!(
        statement.as_str(),
        "SELECT * FROM data.tasks WHERE completed_on NOTNULL AND logged_on NOTNULL AND trashed_on NOTNULL AND user_id = $1"
    );
    assert_eq!(params.len(), 1);
}

#[test]
fn filter_options_default() {
    let opts = FilterOptions::default();
    assert_eq!(opts.page, Some(0));
    assert_eq!(opts.limit, Some(25));
}

#[test]
fn compare_operators() {
    assert_eq!(Compare::Less.to_postgres_cmp().as_sql_cmp(), "<");
    assert_eq!(Compare::NotEqual.to_postgres_cmp().as_sql_cmp(), "<>");
    assert_eq!(Compare::GreaterEq.to_postgres_cmp().as_sql_cmp(), ">=");
}

#[test]
fn set_flags_copy_the_change_time() {
    let mut schema = update_task_schema();
    schema.completed = Some(true);
    schema.trashed = Some(false);
    let now = Timestamp { micros: 1234 };

    let mut builder = SQLQueryBuilder::new("data.tasks");
    builder.add_column(TaskModel::UPDATED, SqlParam::Timestamp(&now));
    schema.add_to_query(&mut builder);

    let (statement, params) = builder.build_update();
    assert_eq!(statement.as_str(), "UPDATE data.tasks SET updated_on=$1, completed_on=$2, trashed_on=$3");
    assert!(matches!(params[1], SqlParam::Timestamp(t) if t.micros == 1234));
    assert!(matches!(params[2], SqlParam::Null));
}

#[test]
fn presence_filters_bind_no_value() {
    let mut schema = query_task_schema();
    schema.title = Some(QueryMethod::NotNull(false));
    schema.notes = Some(QueryMethod::Match("n".to_string()));
    schema.logged = Some(true);
    schema.area_id = Some(QueryMethod::NotNull(true));

    let mut builder = SQLQueryBuilder::new("data.tasks");
    schema.add_to_query(&mut builder);
    let (statement, params) = builder.build_select();
    assert_eq!(
        statement.as_str(),
        "SELECT * FROM data.tasks WHERE task_title IS NULL AND notes LIKE '%' || $1 || '%' AND logged_on NOTNULL AND area_id NOTNULL"
    );
    assert_eq!(params.len(), 1);
    assert!(matches!(params[0], SqlParam::Text(s) if s == "n"));
}

// The searches below check what every rendering agrees on: which conditions
// come in which order, how the parameters are numbered, and where LIMIT and
// OFFSET go. How a text match and a cleared flag read is pinned elsewhere:
// a text match reads `LIKE '%' || $n || '%'`, as in the area search, and a
// cleared flag reads `IS NULL`, as in the builder's own tests.

fn title_and_notes() -> QueryTaskSchema {
    let mut schema = query_task_schema();
    schema.title = Some(QueryMethod::Match("Test Title".to_string()));
    schema.notes = Some(QueryMethod::Match("Test Note".to_string()));
    schema
}

fn title_and_notes_search(schema: &QueryTaskSchema) -> SQLQueryBuilder<SqlParam<'_>> {
    let mut builder = SQLQueryBuilder::new("data.tasks");
    schema.add_to_query(&mut builder);
    builder.add_condition(TaskModel::USER_ID, PostgresCmp::Equal, SqlParam::Id(&ID));
    builder
}

#[test]
fn task_query_text_only() {
    let schema = title_and_notes();
    let (statement, params) = title_and_notes_search(&schema).build_select();

    assert!(statement.starts_with("SELECT * FROM data.tasks WHERE task_title LIKE "));
    assert!(statement.contains("$1"));
    assert!(statement.contains(" AND notes LIKE "));
    assert!(statement.contains("$2"));
    assert!(statement.ends_with(" AND user_id = $3"));
    assert_eq!(params.len(), 3);
}

#[test]
fn limit() {
    let schema = title_and_notes();
    let mut builder = title_and_notes_search(&schema);
    builder.set_limit(25);

    let (statement, params) = builder.build_select();

    assert!(statement.starts_with("SELECT * FROM data.tasks WHERE task_title LIKE "));
    assert!(statement.ends_with(" AND user_id = $3 LIMIT 25"));
    assert_eq!(params.len(), 3);
}

#[test]
fn offset() {
    let schema = title_and_notes();
    let mut builder = title_and_notes_search(&schema);
    builder.set_offset(50);

    let (statement, params) = builder.build_select();

    assert!(statement.starts_with("SELECT * FROM data.tasks WHERE task_title LIKE "));
    assert!(statement.ends_with(" AND user_id = $3 OFFSET 50"));
    assert_eq!(params.len(), 3);
}

#[test]
fn limit_offset() {
    let schema = title_and_notes();
    let mut builder = title_and_notes_search(&schema);
    builder.set_limit(25);
    builder.set_offset(50);

    let (statement, params) = builder.build_select();

    assert!(statement.starts_with("SELECT * FROM data.tasks WHERE task_title LIKE "));
    assert!(statement.ends_with(" AND user_id = $3 LIMIT 25 OFFSET 50"));
    assert_eq!(params.len(), 3);
}

#[test]
fn bool_f_only() {
    let mut schema = query_task_schema();
    schema.completed = Some(false);
    schema.logged = Some(false);
    schema.trashed = Some(false);

    let mut builder = SQLQueryBuilder::new("data.tasks");
    schema.add_to_query(&mut builder);
    builder.add_condition(TaskModel::USER_ID, PostgresCmp::Equal, SqlParam::Id(&ID));

    let (statement, params) = builder.build_select();

    let completed = statement.find("completed_on").unwrap();
    let logged = statement.find(" AND logged_on").unwrap();
    let trashed = statement.find(" AND trashed_on").unwrap();
    assert!(statement.starts_with("SELECT * FROM data.tasks WHERE completed_on"));
    assert!(completed < logged && logged < trashed);
    assert!(statement.ends_with(" AND user_id = $1"));
    assert!(!statement.contains("NOTNULL"));
    assert_eq!(params.len(), 1);
}

#[test]
fn task_query_full() {
    let mut schema = query_task_schema();
    schema.title = Some(QueryMethod::Match("Test Title".to_string()));
    schema.notes = Some(QueryMethod::Match("Test Note".to_string()));
    schema.start_date = Some(QueryMethod::Match(today()));
    schema.start_time = Some(QueryMethod::Match(now_time()));
    schema.deadline = Some(QueryMethod::Compare(today(), Compare::Greater));
    schema.completed = Some(false);
    schema.logged = Some(true);
    schema.trashed = Some(false);
    schema.area_id = Some(QueryMethod::Match(new_id()));
    schema.project_id = Some(QueryMethod::Match(new_id()));

    let mut builder = SQLQueryBuilder::new("data.tasks");
    schema.add_to_query(&mut builder);
    builder.add_condition(TaskModel::USER_ID, PostgresCmp::Equal, SqlParam::Id(&ID));

    let (statement, params) = builder.build_select();

    assert!(statement.starts_with("SELECT * FROM data.tasks WHERE task_title LIKE "));
    assert!(statement.contains(" AND notes LIKE "));
    assert!(statement.contains(" AND start_date = $3 AND start_time = $4 AND deadline > $5 AND completed_on "));
    assert!(statement.contains(" AND logged_on NOTNULL AND trashed_on "));
    assert!(statement.ends_with(" AND area_id = $6 AND project_id = $7 AND user_id = $8"));
    assert_eq!(params.len(), 8);
}
