use spanner_statement::marshal::ToKind;
use spanner_statement::native::CommitTimestamp;
use spanner_statement::record::XyRecord;
use spanner_statement::statement::Statement;
use spanner_statement::types::Type;
use spanner_statement::value::Kind;

#[test]
fn bind_int64() {
    let mut stmt = Statement::new("SELECT * FROM t WHERE id = @id".to_string());
    stmt.add_param("id", 42i64);
    assert_eq!(stmt.params.len(), 1);
    assert_eq!(stmt.param_types.len(), 1);
    assert_eq!(stmt.params[0].0, "id");
    assert_eq!(stmt.params[0].1, Kind::StringValue("42".to_string()));
    assert_eq!(stmt.param_types[0].0, "id");
    assert_eq!(stmt.param_types[0].1, Type::Int64);
}

#[test]
fn bind_absent_string() {
    let mut stmt = Statement::new("SELECT @name".to_string());
    stmt.add_param("name", Option::<String>::None);
    assert_eq!(stmt.params[0].1, Kind::NullValue);
    assert_eq!(stmt.param_types[0].1, Type::Str);
}

#[test]
fn bind_string_list() {
    let mut stmt = Statement::new("SELECT @tags".to_string());
    stmt.add_param("tags", vec!["a", "b"]);
    assert_eq!(
        stmt.params[0].1,
        Kind::ListValue(vec![
            Kind::StringValue("a".to_string()),
            Kind::StringValue("b".to_string()),
        ])
    );
    assert_eq!(stmt.param_types[0].1, Type::Array(Box::new(Type::Str)));
}

#[test]
fn bind_commit_timestamp_sentinel() {
    let mut stmt = Statement::new("UPDATE t SET ts = @ts".to_string());
    stmt.add_param("ts", CommitTimestamp {});
    assert_eq!(
        stmt.params[0].1,
        Kind::StringValue("spanner.commit_timestamp()".to_string())
    );
    assert_eq!(stmt.param_types[0].1, Type::Timestamp);
}

#[test]
fn bind_record() {
    let mut stmt = Statement::new("SELECT @r".to_string());
    stmt.add_param(
        "r",
        XyRecord {
            x: 1,
            y: "z".to_string(),
        },
    );
    assert_eq!(
        stmt.params[0].1,
        Kind::StructValue(vec![
            ("x".to_string(), Kind::StringValue("1".to_string())),
            ("y".to_string(), Kind::StringValue("z".to_string())),
        ])
    );
    assert_eq!(
        stmt.param_types[0].1,
        Type::Struct(vec![
            ("x".to_string(), Type::Int64),
            ("y".to_string(), Type::Str),
        ])
    );
}

#[test]
fn record_value_and_type_field_names_agree() {
    let r = XyRecord {
        x: 7,
        y: "w".to_string(),
    };
    let k = r.to_kind();
    let t = XyRecord::get_type();
    let value_names: Vec<String> = match k {
        Kind::StructValue(fs) => fs.into_iter().map(|f| f.0).collect(),
        other => panic!("expected a struct value, got {:?}", other),
    };
    let type_names: Vec<String> = match t {
        Type::Struct(fs) => fs.into_iter().map(|f| f.0).collect(),
        other => panic!("expected a struct descriptor, got {:?}", other),
    };
    assert_eq!(value_names, type_names);
}

#[test]
fn rebind_keeps_one_entry_with_second_value() {
    let mut stmt = Statement::new("SELECT @p".to_string());
    stmt.add_param("p", 1i64);
    stmt.add_param("p", true);
    assert_eq!(stmt.params.len(), 1);
    assert_eq!(stmt.param_types.len(), 1);
    assert_eq!(stmt.params[0].0, "p");
    assert_eq!(stmt.params[0].1, Kind::BoolValue(true));
    assert_eq!(stmt.param_types[0].1, Type::Bool);
}

#[test]
fn binding_distinct_names_keeps_both_in_order() {
    let mut stmt = Statement::new("SELECT @a, @b".to_string());
    stmt.add_param("a", 1i64);
    stmt.add_param("b", 2i64);
    assert_eq!(stmt.params.len(), 2);
    assert_eq!(stmt.params[0].0, "a");
    assert_eq!(stmt.params[1].0, "b");
    assert_eq!(stmt.params[1].1, Kind::StringValue("2".to_string()));
}

#[test]
fn sql_text_is_kept_verbatim() {
    let stmt = Statement::new("SELECT 1".to_string());
    assert_eq!(stmt.sql, "SELECT 1");
    assert!(stmt.params.is_empty());
    assert!(stmt.param_types.is_empty());
}

#[test]
fn marshalling_twice_is_structurally_equal() {
    let a = 42i64.to_kind();
    let b = 42i64.to_kind();
    assert_eq!(a, b);
    let v = vec![Some(3i64), None];
    assert_eq!(v.to_kind(), v.to_kind());
    let ta = <Vec<Option<i64>> as ToKind>::get_type();
    let tb = <Vec<Option<i64>> as ToKind>::get_type();
    assert_eq!(ta, tb);
}
