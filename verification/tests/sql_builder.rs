use chrono::Datelike;
use todo_api::sql_builder::{Join, PostgresCmp, SQLQueryBuilder, NULL};
use todo_api::values::{Date, SqlParam, Uuid};

fn sample_uuid() -> Uuid {
    Uuid(uuid::Uuid::new_v4().as_u128())
}

fn today() -> Date {
    Date { days_from_ce: chrono::Local::now().date_naive().num_days_from_ce() }
}

#[test]
fn sql_builder_empty() {
    let builder: SQLQueryBuilder<&i32> = SQLQueryBuilder::new("table");

    let (statement, params) = builder.build_select();

    assert_eq!(statement.as_str(), "SELECT * FROM table");
    assert_eq!(params.len(), 0);
}

#[test]
fn sql_builder_one_column() {
    let mut builder: SQLQueryBuilder<&i32> = SQLQueryBuilder::new("table");

    builder.set_return(vec!["col_1"]);

    let (statement, params) = builder.build_select();

    assert_eq!(statement.as_str(), "SELECT col_1 FROM table");
    assert_eq!(params.len(), 0);
}

#[test]
fn sql_builder_many_columns() {
    let mut builder: SQLQueryBuilder<&i32> = SQLQueryBuilder::new("table");

    builder.set_return(vec!["col_1", "col_2", "col_3"]);

    let (statement, params) = builder.build_select();

    assert_eq!(statement.as_str(), "SELECT col_1, col_2, col_3 FROM table");
    assert_eq!(params.len(), 0);
}

#[test]
fn all_columns() {
    let mut builder: SQLQueryBuilder<&i32> = SQLQueryBuilder::new("table");

    builder.set_return_all();

    let (statement, params) = builder.build_select();

    assert_eq!(statement.as_str(), "SELECT * FROM table");
    assert_eq!(params.len(), 0);
}

#[test]
fn sql_builder_one_condition() {
    let mut builder = SQLQueryBuilder::new("table");

    let val_1: i32 = 10;
    builder.add_condition("col_1", PostgresCmp::Less, &val_1);

    let (statement, params) = builder.build_select();

    assert_eq!(statement.as_str(), "SELECT * FROM table WHERE col_1 < $1");
    assert_eq!(params.len(), 1);
}

#[test]
fn sql_builder_many_conditions() {
    let mut builder = SQLQueryBuilder::new("table");

    let val_1: i32 = 10;
    let val_2: i32 = 35;
    builder.add_condition("col_1", PostgresCmp::Less, SqlParam::Int(val_1));
    builder.add_condition("col_2", PostgresCmp::Equal, SqlParam::Int(val_2));
    builder.add_condition("col_3", PostgresCmp::IsNull, NULL);

    let (statement, params) = builder.build_select();

    assert_eq!(
        statement.as_str(),
        "SELECT * FROM table WHERE col_1 < $1 AND col_2 = $2 AND col_3 IS NULL"
    );
    assert_eq!(params.len(), 2);
}

#[test]
fn sql_builder_columns_and_conditions() {
    let mut builder = SQLQueryBuilder::new("table");

    builder.set_return(vec!["col_1"]);

    let val_1: i32 = 10;
    let val_2: i32 = 35;
    let val_3: i32 = 150;
    builder.add_condition("col_1", PostgresCmp::Less, &val_1);
    builder.add_condition("col_2", PostgresCmp::Equal, &val_2);
    builder.add_condition("col_3", PostgresCmp::Greater, &val_3);

    let (statement, params) = builder.build_select();

    assert_eq!(
        statement.as_str(),
        "SELECT col_1 FROM table WHERE col_1 < $1 AND col_2 = $2 AND col_3 > $3"
    );
    assert_eq!(params.len(), 3);
}

#[test]
fn inner_join() {
    let mut builder: SQLQueryBuilder<&i32> = SQLQueryBuilder::new("table");

    builder.add_join(Join::Inner, "table2", "col_1");

    let (statement, params) = builder.build_select();

    assert_eq!(statement.as_str(), "SELECT * FROM table INNER JOIN table2 USING (col_1)");
    assert_eq!(params.len(), 0,);
}

#[test]
fn left_join() {
    let mut builder: SQLQueryBuilder<&i32> = SQLQueryBuilder::new("table");

    builder.add_join(Join::Left, "table2", "col_1");

    let (statement, params) = builder.build_select();

    assert_eq!(statement.as_str(), "SELECT * FROM table LEFT JOIN table2 USING (col_1)");
    assert_eq!(params.len(), 0,);
}

#[test]
fn right_join() {
    let mut builder: SQLQueryBuilder<&i32> = SQLQueryBuilder::new("table");

    builder.add_join(Join::Right, "table2", "col_1");

    let (statement, params) = builder.build_select();

    assert_eq!(statement.as_str(), "SELECT * FROM table RIGHT JOIN table2 USING (col_1)");
    assert_eq!(params.len(), 0,);
}

#[test]
fn full_join() {
    let mut builder: SQLQueryBuilder<&i32> = SQLQueryBuilder::new("table");

    builder.add_join(Join::Full, "table2", "col_1");

    let (statement, params) = builder.build_select();

    assert_eq!(statement.as_str(), "SELECT * FROM table FULL JOIN table2 USING (col_1)");
    assert_eq!(params.len(), 0,);
}

#[test]
fn multi_join() {
    let mut builder: SQLQueryBuilder<&i32> = SQLQueryBuilder::new("table");

    builder.add_join(Join::Inner, "table2", "col_1");
    builder.add_join(Join::Inner, "table3", "col_2");

    let (statement, params) = builder.build_select();

    assert_eq!(
        statement.as_str(),
        "SELECT * FROM table INNER JOIN table2 USING (col_1) INNER JOIN table3 USING (col_2)"
    );
    assert_eq!(params.len(), 0,);
}

#[test]
fn group_by() {
    let mut builder: SQLQueryBuilder<&i32> = SQLQueryBuilder::new("table");

    builder.set_group_by(vec!["col_1"]);

    let (statement, params) = builder.build_select();

    assert_eq!(statement.as_str(), "SELECT * FROM table GROUP BY col_1",);
    assert_eq!(params.len(), 0);
}

#[test]
fn having() {
    let mut builder = SQLQueryBuilder::new("table");

    let val_1: i32 = 10;
    builder.set_having("COUNT(col_1)", PostgresCmp::Equal, &val_1);

    let (statement, params) = builder.build_select();

    assert_eq!(statement.as_str(), "SELECT * FROM table HAVING COUNT(col_1) = $1",);
    assert_eq!(params.len(), 1);
}

#[test]
fn sql_builder_insert_one_column() {
    let mut builder = SQLQueryBuilder::new("table");

    let col_1 = String::from("Sample data");
    builder.add_column("col_1", &col_1);

    let (statement, params) = builder.build_insert();

    assert_eq!(statement.as_str(), "INSERT INTO table (col_1) VALUES ($1)");
    assert_eq!(params.len(), 1);
}

#[test]
fn sql_builder_insert_many_columns() {
    let mut builder = SQLQueryBuilder::new("table");

    let col_1 = sample_uuid();
    let col_2 = String::from("Sample Data");
    let col_3 = today();
    builder.add_column("col_1", SqlParam::Id(&col_1));
    builder.add_column("col_2", SqlParam::Text(&col_2));
    builder.add_column("col_3", SqlParam::Date(&col_3));

    let (statement, params) = builder.build_insert();

    assert_eq!(statement.as_str(), "INSERT INTO table (col_1, col_2, col_3) VALUES ($1, $2, $3)");
    assert_eq!(params.len(), 3);
}

#[test]
fn sql_builder_return_one_column() {
    let mut builder = SQLQueryBuilder::new("table");

    let col_1 = String::from("Sample data");
    builder.add_column("col_1", &col_1);

    builder.set_return(vec!["col_1"]);

    let (statement, params) = builder.build_insert();

    assert_eq!(statement.as_str(), "INSERT INTO table (col_1) VALUES ($1) RETURNING col_1");
    assert_eq!(params.len(), 1);
}

#[test]
fn sql_builder_return_many_columns() {
    let mut builder = SQLQueryBuilder::new("table");

    let col_1 = sample_uuid();
    let col_2 = String::from("Sample Data");
    let col_3 = today();
    builder.add_column("col_1", SqlParam::Id(&col_1));
    builder.add_column("col_2", SqlParam::Text(&col_2));
    builder.add_column("col_3", SqlParam::Date(&col_3));

    builder.set_return(vec!["col_1", "col_2"]);

    let (statement, params) = builder.build_insert();

    assert_eq!(
        statement.as_str(),
        "INSERT INTO table (col_1, col_2, col_3) VALUES ($1, $2, $3) RETURNING col_1, col_2"
    );
    assert_eq!(params.len(), 3);
}

#[test]
fn sql_builder_return_all_columns() {
    let mut builder = SQLQueryBuilder::new("table");

    let col_1 = sample_uuid();
    let col_2 = String::from("Sample Data");
    let col_3 = today();
    builder.add_column("col_1", SqlParam::Id(&col_1));
    builder.add_column("col_2", SqlParam::Text(&col_2));
    builder.add_column("col_3", SqlParam::Date(&col_3));

    builder.set_return_all();

    let (statement, params) = builder.build_insert();

    assert_eq!(
        statement.as_str(),
        "INSERT INTO table (col_1, col_2, col_3) VALUES ($1, $2, $3) RETURNING *"
    );
    assert_eq!(params.len(), 3);
}

#[test]
fn sql_builder_update_one_column() {
    let mut builder = SQLQueryBuilder::new("table");

    let col_1 = String::from("Sample Data");
    builder.add_column("col_1", &col_1);

    let (statement, params) = builder.build_update();

    assert_eq!(statement.as_str(), "UPDATE table SET col_1=$1");
    assert_eq!(params.len(), 1);
}

#[test]
fn sql_builder_update_many_columns() {
    let mut builder = SQLQueryBuilder::new("table");

    let col_1 = sample_uuid();
    let col_2 = String::from("Sample Data");
    let col_3 = today();
    builder.add_column("col_1", SqlParam::Id(&col_1));
    builder.add_column("col_2", SqlParam::Text(&col_2));
    builder.add_column("col_3", SqlParam::Date(&col_3));

    let (statement, params) = builder.build_update();

    assert_eq!(statement.as_str(), "UPDATE table SET col_1=$1, col_2=$2, col_3=$3");
    assert_eq!(params.len(), 3);
}

#[test]
fn sql_builder_update_one_condition() {
    let mut builder = SQLQueryBuilder::new("table");

    let col_1 = String::from("Sample Data");
    builder.add_column("col_1", SqlParam::Text(&col_1));

    let val_1: i32 = 150;
    builder.add_condition("col_2", PostgresCmp::Less, SqlParam::Int(val_1));

    let (statement, params) = builder.build_update();

    assert_eq!(statement.as_str(), "UPDATE table SET col_1=$1 WHERE col_2 < $2");
    assert_eq!(params.len(), 2)
}

#[test]
fn sql_builder_update_many_conditions() {
    let mut builder = SQLQueryBuilder::new("table");

    let col_1 = String::from("Sample Data");
    builder.add_column("col_1", SqlParam::Text(&col_1));

    let val_1: i32 = 150;
    let val_2: i32 = 14;
    builder.add_condition("col_2", PostgresCmp::Less, SqlParam::Int(val_1));
    builder.add_condition("col_3", PostgresCmp::Equal, SqlParam::Int(val_2));

    let (statement, params) = builder.build_update();

    assert_eq!(statement.as_str(), "UPDATE table SET col_1=$1 WHERE col_2 < $2 AND col_3 = $3");
    assert_eq!(params.len(), 3);
}

#[test]
fn sql_builder_update_columns_and_conditions() {
    let mut builder = SQLQueryBuilder::new("table");

    let col_1 = sample_uuid();
    let col_2 = String::from("Sample Data");
    let col_3 = today();
    builder.add_column("col_1", SqlParam::Id(&col_1));
    builder.add_column("col_2", SqlParam::Text(&col_2));
    builder.add_column("col_3", SqlParam::Date(&col_3));

    let val_1: i32 = 150;
    let val_2: i32 = 14;
    builder.add_condition("col_2", PostgresCmp::Less, SqlParam::Int(val_1));
    builder.add_condition("col_3", PostgresCmp::Equal, SqlParam::Int(val_2));

    let (statement, params) = builder.build_update();

    assert_eq!(
        statement.as_str(),
        "UPDATE table SET col_1=$1, col_2=$2, col_3=$3 WHERE col_2 < $4 AND col_3 = $5"
    );
    assert_eq!(params.len(), 5);
}

#[test]
fn sql_builder_update_return_one_column() {
    let mut builder = SQLQueryBuilder::new("table");

    let col_1 = String::from("Sample Data");
    builder.add_column("col_1", &col_1);

    builder.set_return(vec!["col_1"]);

    let (statement, params) = builder.build_update();

    assert_eq!(statement.as_str(), "UPDATE table SET col_1=$1 RETURNING col_1");
    assert_eq!(params.len(), 1);
}

#[test]
fn sql_builder_update_return_many_columns() {
    let mut builder = SQLQueryBuilder::new("table");

    let col_1 = String::from("Sample Data");
    builder.add_column("col_1", &col_1);

    builder.set_return(vec!["col_1", "col_2", "col_3"]);

    let (statement, params) = builder.build_update();

    assert_eq!(statement.as_str(), "UPDATE table SET col_1=$1 RETURNING col_1, col_2, col_3");
    assert_eq!(params.len(), 1);
}

#[test]
fn sql_builder_update_return_all_columns() {
    let mut builder = SQLQueryBuilder::new("table");

    let col_1 = String::from("Sample Data");
    builder.add_column("col_1", SqlParam::Text(&col_1));

    let val_1: i32 = 150;
    builder.add_condition("col_2", PostgresCmp::Less, SqlParam::Int(val_1));

    builder.set_return_all();

    let (statement, params) = builder.build_update();

    assert_eq!(statement.as_str(), "UPDATE table SET col_1=$1 WHERE col_2 < $2 RETURNING *");
    assert_eq!(params.len(), 2);
}

#[test]
fn sql_builder_delete_empty() {
    let builder: SQLQueryBuilder<&i32> = SQLQueryBuilder::new("table");

    let (statement, params) = builder.build_delete();

    assert_eq!(statement.as_str(), "DELETE FROM table");
    assert_eq!(params.len(), 0);
}

#[test]
fn sql_builder_delete_one_condition() {
    let mut builder = SQLQueryBuilder::new("table");

    let val_1: i32 = 150;
    builder.add_condition("col_2", PostgresCmp::Less, &val_1);

    let (statement, params) = builder.build_delete();

    assert_eq!(statement.as_str(), "DELETE FROM table WHERE col_2 < $1");
    assert_eq!(params.len(), 1);
}

#[test]
fn sql_builder_delete_many_conditions() {
    let mut builder = SQLQueryBuilder::new("table");

    let val_1: i32 = 150;
    let val_2: i32 = 18;
    builder.add_condition("col_2", PostgresCmp::Less, &val_1);
    builder.add_condition("col_3", PostgresCmp::Equal, &val_2);

    let (statement, params) = builder.build_delete();

    assert_eq!(statement.as_str(), "DELETE FROM table WHERE col_2 < $1 AND col_3 = $2");
    assert_eq!(params.len(), 2);
}

#[test]
fn sql_builder_delete_return_one_column() {
    let mut builder: SQLQueryBuilder<&i32> = SQLQueryBuilder::new("table");

    builder.set_return(vec!["col_1"]);

    let (statement, params) = builder.build_delete();

    assert_eq!(statement.as_str(), "DELETE FROM table RETURNING col_1");
    assert_eq!(params.len(), 0);
}

#[test]
fn sql_builder_delete_return_many_columns() {
    let mut builder: SQLQueryBuilder<&i32> = SQLQueryBuilder::new("table");

    builder.set_return(vec!["col_1", "col_2"]);

    let (statement, params) = builder.build_delete();

    assert_eq!(statement.as_str(), "DELETE FROM table RETURNING col_1, col_2");
    assert_eq!(params.len(), 0);
}

#[test]
fn sql_builder_delete_return_all_columns() {
    let mut builder: SQLQueryBuilder<&i32> = SQLQueryBuilder::new("table");

    builder.set_return_all();

    let (statement, params) = builder.build_delete();

    assert_eq!(statement.as_str(), "DELETE FROM table RETURNING *");
    assert_eq!(params.len(), 0);
}

#[test]
fn unbound_condition_value_is_ignored() {
    let mut first = SQLQueryBuilder::new("table");
    first.add_condition("col_1", PostgresCmp::NotNull, SqlParam::Int(1));
    let mut second = SQLQueryBuilder::new("table");
    second.add_condition("col_1", PostgresCmp::NotNull, SqlParam::Int(2));

    let (a, pa) = first.build_select();
    let (b, pb) = second.build_select();

    assert_eq!(a, b);
    assert_eq!(a.as_str(), "SELECT * FROM table WHERE col_1 NOTNULL");
    assert_eq!(pa.len(), 0);
    assert_eq!(pb.len(), 0);
}

#[test]
fn like_in_and_limit_render() {
    let mut builder = SQLQueryBuilder::new("table");
    let name = String::from("abc");
    let ids = vec![Uuid(1), Uuid(2)];
    builder.add_condition("col_1", PostgresCmp::Like, SqlParam::Text(&name));
    builder.add_condition("col_2", PostgresCmp::In, SqlParam::Ids(&ids));
    builder.set_limit(25);
    builder.set_offset(50);

    let (statement, params) = builder.build_select();

    assert_eq!(
        statement.as_str(),
        "SELECT * FROM table WHERE col_1 LIKE '%' || $1 || '%' AND col_2 = ANY($2) LIMIT 25 OFFSET 50"
    );
    assert_eq!(params.len(), 2);
}

#[test]
fn get_column_gives_the_value() {
    let mut builder = SQLQueryBuilder::new("table");
    builder.add_column("col_1", SqlParam::Int(7));

    assert!(matches!(builder.get_column(0), Some(SqlParam::Int(7))));
    assert!(builder.get_column(1).is_none());
}

#[test]
fn operator_text() {
    assert_eq!(PostgresCmp::Equal.as_sql_cmp(), "=");
    assert_eq!(PostgresCmp::NotEqual.as_sql_cmp(), "<>");
    assert_eq!(PostgresCmp::LessEq.as_sql_cmp(), "<=");
    assert_eq!(PostgresCmp::GreaterEq.as_sql_cmp(), ">=");
}

#[test]
fn bound_values_follow_the_conditions() {
    let mut builder = SQLQueryBuilder::new("table");
    builder.add_condition("col_1", PostgresCmp::Equal, SqlParam::Int(1));
    builder.add_condition("col_2", PostgresCmp::IsNull, SqlParam::Int(2));
    builder.add_condition("col_3", PostgresCmp::Greater, SqlParam::Int(3));
    builder.set_having("COUNT(col_4)", PostgresCmp::Less, SqlParam::Int(4));

    let (statement, params) = builder.build_select();

    assert_eq!(
        statement.as_str(),
        "SELECT * FROM table WHERE col_1 = $1 AND col_2 IS NULL AND col_3 > $2 HAVING COUNT(col_4) < $3"
    );
    let values: Vec<i32> = params
        .iter()
        .map(|p| match p {
            SqlParam::Int(n) => *n,
            _ => -1,
        })
        .collect();
    assert_eq!(values, vec![1, 3, 4]);
}
