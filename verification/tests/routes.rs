use todo_api::error::Error;
use todo_api::routes::model::project::{
    ProjectCreateRequest, ProjectDeleteRequest, ProjectQueryRequest, ProjectUpdateRequest,
};
use todo_api::routes::model::tag::{TagCreateRequest, TagDeleteRequest, TagQueryRequest, TagUpdateRequest};
use todo_api::routes::model::{CmpFlag, QueryMethod, UpdateMethod};
use todo_api::routes::utils::extract_user_id;
use todo_api::storage::db::{DBQuery, DBSubquery};
use todo_api::values::{Date, SqlParam, Timestamp, Uuid};

fn project_update() -> ProjectUpdateRequest {
    ProjectUpdateRequest {
        project_id: None,
        title: None,
        notes: None,
        start_date: None,
        start_time: None,
        deadline: None,
        completed: None,
        logged: None,
        trashed: None,
        area_id: None,
        user_id: None,
        tag_ids: None,
        timestamp: Timestamp { micros: 1 },
    }
}

#[test]
fn tag_create_statement() {
    let mut request = TagCreateRequest { label: Some("urgent".to_string()), category: None, color: Some("#fff".to_string()), user_id: None };
    request.set_user_id(Uuid(3));

    let (query, params) = request.get_query();

    assert_eq!(
        query.as_str(),
        "INSERT INTO data.tags (user_id,tag_label,tag_color) VALUES ($1,$2,$3) RETURNING tag_id AS id"
    );
    assert_eq!(params.len(), 3);
}

#[test]
fn tag_update_lists_columns() {
    let mut request = TagUpdateRequest {
        tag_id: None,
        label: Some(UpdateMethod::Change("new".to_string())),
        category: Some(UpdateMethod::Remove),
        color: None,
        user_id: None,
        timestamp: Timestamp { micros: 1 },
    };
    request.set_tag_id(Uuid(1)).set_user_id(Uuid(2));

    let (query, params) = request.get_query();

    assert_eq!(
        query.as_str(),
        "UPDATE data.tags SET (updated_on,tag_label,tag_category)=($3,$4,$5,$6) WHERE tag_id=$1 AND user_id=$2 RETURNING *"
    );
    assert_eq!(params.len(), 4);
}

#[test]
fn tag_delete_returns_row() {
    let mut request = TagDeleteRequest::default();
    request.set_tag_id(Uuid(1)).set_user_id(Uuid(2));

    let (query, params) = request.get_query();

    assert_eq!(query.as_str(), "DELETE FROM data.tags WHERE tag_id=$1 AND user_id=$2 RETURNING *");
    assert_eq!(params.len(), 2);
}

#[test]
fn tag_query_search() {
    let mut request = TagQueryRequest { search_query: None, category: Some(QueryMethod::Match("home".to_string())), user_id: None };
    request.set_search_query("lab".to_string()).set_user_id(Uuid(5));

    let (query, params) = request.get_query();

    assert_eq!(
        query.as_str(),
        "SELECT * FROM data.tags WHERE user_id=$1 AND tag_label LIKE $2 AND tag_category=$3"
    );
    assert_eq!(params.len(), 3);
    assert!(matches!(params[1], SqlParam::Text(s) if s == "%lab%"));
}

#[test]
fn project_create_and_link() {
    let mut request = ProjectCreateRequest {
        title: Some("Garden".to_string()),
        notes: None,
        start_date: Some(Date { days_from_ce: 10 }),
        start_time: None,
        deadline: None,
        area_id: None,
        user_id: None,
        tag_ids: Some(vec![Uuid(4)]),
    };
    request.set_user_id(Uuid(1));

    let (query, params) = request.get_query();
    assert_eq!(
        query.as_str(),
        "INSERT INTO data.projects (user_id,project_title,start_date) VALUES ($1,$2,$3) RETURNING project_id AS id"
    );
    assert_eq!(params.len(), 3);

    let id = Uuid(8);
    let (sub, sub_params) = request.get_subquery(&id);
    assert_eq!(
        sub.as_str(),
        "INSERT INTO data.project_tags (project_id,tag_id) SELECT T.id, R.id FROM (SELECT $1::uuid AS id) T CROSS JOIN (SELECT UNNEST($2::uuid[]) AS id) R"
    );
    assert_eq!(sub_params.len(), 2);
}

#[test]
fn project_update_counts_columns() {
    let mut request = project_update();
    request.set_project_id(Uuid(1)).set_user_id(Uuid(2));
    request.notes = Some(UpdateMethod::Remove);
    request.completed = Some(true);
    request.logged = Some(false);
    request.tag_ids = Some(UpdateMethod::Change(vec![Uuid(3)]));

    let (query, params) = request.get_query();
    assert_eq!(
        query.as_str(),
        "UPDATE data.projects SET (updated_on,project_notes,completed_on,logged_on)=($3,$4,$5,$6) WHERE project_id=$1 AND user_id=$2 RETURNING *"
    );
    assert_eq!(params.len(), 5);
    assert!(matches!(params[3], SqlParam::Timestamp(_)));
    assert!(matches!(params[4], SqlParam::Null));

    let id = Uuid(1);
    let (sub, sub_params) = request.get_subquery(&id);
    assert_eq!(
        sub.as_str(),
        "WITH deleted AS (DELETE FROM data.project_tags WHERE project_id=$1 RETURNING project_id as id) INSERT INTO data.project_tags (project_id,tag_id) SELECT T.id, R.id FROM (SELECT DISTINCT id FROM deleted) T CROSS JOIN (SELECT UNNEST($2::uuid[]) AS id) R"
    );
    assert_eq!(sub_params.len(), 2);
}

#[test]
fn project_delete_statement() {
    let mut request = ProjectDeleteRequest::default();
    request.set_project_id(Uuid(1)).set_user_id(Uuid(2));

    let (query, _) = request.get_query();
    assert_eq!(query.as_str(), "DELETE FROM data.projects WHERE project_id=$1 AND user_id=$2");
}

#[test]
fn project_query_and_tags() {
    let mut request = ProjectQueryRequest {
        search_query: None,
        start_date: Some(QueryMethod::Compare(Date { days_from_ce: 2 }, CmpFlag(CmpFlag::AFTER))),
        deadline: None,
        completed: Some(QueryMethod::NotNull(true)),
        logged: None,
        trashed: None,
        area_id: Some(QueryMethod::Match(Uuid(6))),
        user_id: None,
        tag_ids: Some(QueryMethod::Match(vec![Uuid(1), Uuid(2), Uuid(3)])),
    };
    request.set_user_id(Uuid(9));

    let (query, params) = request.get_query();
    assert_eq!(
        query.as_str(),
        "SELECT * FROM data.projects WHERE user_id=$1 AND start_date>$2 AND completed_on IS NOT NULL AND area_id=$3"
    );
    assert_eq!(params.len(), 3);

    let nil = Uuid(0);
    let (sub, sub_params) = request.get_subquery(&nil);
    assert_eq!(
        sub.as_str(),
        "SELECT DISTINCT project_id FROM data.project_tags WHERE tag_id IN (SELECT UNNEST($1::uuid[])) GROUP BY project_id\tHAVING COUNT(DISTINCT tag_id) >= 3"
    );
    assert_eq!(sub_params.len(), 1);
}

#[test]
fn user_id_from_cookie() {
    let id = extract_user_id(Some("67e55044-10b1-426f-9247-bb680e5fe0c8")).ok().unwrap();
    assert_eq!(id, Uuid(0x67e55044_10b1_426f_9247_bb680e5fe0c8));

    match extract_user_id(None) {
        Err(Error::InvalidRequest(m)) => assert_eq!(m, "User ID was not sent"),
        _ => panic!("a missing cookie is refused"),
    }
    match extract_user_id(Some("not-a-uuid")) {
        Err(Error::InvalidRequest(m)) => assert_eq!(m, "User ID was not a UUID format"),
        _ => panic!("a malformed cookie is refused"),
    }
}

#[test]
fn user_id_forms_all_parse() {
    let expected = Uuid(0x67e55044_10b1_426f_9247_bb680e5fe0c8);
    for text in [
        "67e5504410b1426f9247bb680e5fe0c8",
        "67E55044-10B1-426F-9247-BB680E5FE0C8",
        "{67e55044-10b1-426f-9247-bb680e5fe0c8}",
        "URN:uuid:67e55044-10b1-426f-9247-bb680e5fe0c8",
    ] {
        assert_eq!(extract_user_id(Some(text)).ok(), Some(expected));
    }
    for text in [
        "67e55044-10b1-426f-9247-bb680e5fe0c",
        "67e55044_10b1-426f-9247-bb680e5fe0c8",
        "[67e55044-10b1-426f-9247-bb680e5fe0c8]",
        "urn:uid::67e55044-10b1-426f-9247-bb680e5fe0c8",
        "67e55044-10b1-426f-9247-bb680e5fe0cg",
    ] {
        assert!(extract_user_id(Some(text)).is_err());
    }
}
