use platform::sql::{
    bind_param, bind_params, column_kind, execute_result, fetch_all_result, fetch_one_result,
    translate_column, translate_row, ColumnKind, ColumnValue, DbFailure, RocExecuteResult,
    SqlData, SqlError, SqlParam,
};

fn param_text(p: &SqlParam) -> String {
    format!("{:?}", p)
}

fn data_text(d: &SqlData) -> String {
    format!("{:?}", d)
}

#[test]
fn each_value_binds_as_its_own_type() {
    assert_eq!(param_text(&bind_param(&SqlData::Int(-7))), "Int(-7)");
    assert_eq!(param_text(&bind_param(&SqlData::Boolean(true))), "Bool(true)");
    assert_eq!(
        param_text(&bind_param(&SqlData::Text("hi".to_string()))),
        "Text(\"hi\")"
    );
    assert_eq!(param_text(&bind_param(&SqlData::Null)), "NullInt");
}

#[test]
fn parameters_bind_in_order() {
    let params = vec![
        SqlData::Text("a".to_string()),
        SqlData::Null,
        SqlData::Int(3),
        SqlData::Boolean(false),
    ];
    let bound: Vec<String> = bind_params(&params).iter().map(param_text).collect();
    assert_eq!(bound, vec!["Text(\"a\")", "NullInt", "Int(3)", "Bool(false)"]);
    assert!(bind_params(&Vec::new()).is_empty());
}

#[test]
fn column_types_by_name() {
    assert_eq!(column_kind("TEXT"), Some(ColumnKind::Text));
    assert_eq!(column_kind("BOOLEAN"), Some(ColumnKind::Boolean));
    assert_eq!(column_kind("INTEGER"), Some(ColumnKind::Integer));
    assert_eq!(column_kind("text"), None);
    assert_eq!(column_kind("REAL"), None);
    assert_eq!(column_kind(""), None);
    assert_eq!(column_kind("TEXTS"), None);
}

#[test]
fn null_columns_become_null() {
    assert_eq!(data_text(&translate_column(&ColumnValue::Text(None))), "Null");
    assert_eq!(data_text(&translate_column(&ColumnValue::Boolean(None))), "Null");
    assert_eq!(data_text(&translate_column(&ColumnValue::Integer(None))), "Null");
    assert_eq!(data_text(&translate_column(&ColumnValue::Integer(Some(9)))), "Int(9)");
}

#[test]
fn rows_translate_column_by_column() {
    let row = vec![
        ColumnValue::Integer(Some(1)),
        ColumnValue::Text(Some("x".to_string())),
        ColumnValue::Boolean(Some(true)),
        ColumnValue::Text(None),
    ];
    let out: Vec<String> = translate_row(&row).iter().map(data_text).collect();
    assert_eq!(out, vec!["Int(1)", "Text(\"x\")", "Boolean(true)", "Null"]);
}

#[test]
fn statement_outcomes() {
    let ok = RocExecuteResult { last_insert_rowid: 4, rows_affected: 1 };
    assert_eq!(execute_result(Ok(ok)), Ok(ok));
    assert_eq!(execute_result(Err(DbFailure::Other)), Err(SqlError::QueryFailed));
    assert_eq!(execute_result(Err(DbFailure::RowNotFound)), Err(SqlError::QueryFailed));
}

#[test]
fn fetch_all_outcomes() {
    let rows = Ok(vec![
        vec![ColumnValue::Integer(Some(1))],
        vec![ColumnValue::Integer(Some(2)), ColumnValue::Text(None)],
    ]);
    let out = fetch_all_result(&rows).unwrap();
    assert_eq!(out.len(), 2);
    assert_eq!(data_text(&out[0][0]), "Int(1)");
    assert_eq!(data_text(&out[1][1]), "Null");
    assert_eq!(
        fetch_all_result(&Err(DbFailure::RowNotFound)).unwrap_err(),
        SqlError::QueryFailed
    );
    assert_eq!(fetch_all_result(&Ok(vec![])).unwrap().len(), 0);
}

#[test]
fn fetch_one_outcomes() {
    let row = Ok(vec![ColumnValue::Boolean(Some(false))]);
    let out = fetch_one_result(&row).unwrap();
    assert_eq!(data_text(&out[0]), "Boolean(false)");
    assert_eq!(fetch_one_result(&Err(DbFailure::RowNotFound)).unwrap_err(), SqlError::NotFound);
    assert_eq!(fetch_one_result(&Err(DbFailure::Other)).unwrap_err(), SqlError::QueryFailed);
}
