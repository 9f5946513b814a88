use datafusion_expr::TableType;
use framework_plan::table::{check_drop_table, list_table_metadata, TableMetadata, TableTypeName};

#[test]
fn table_type_names_from_datafusion() {
    assert_eq!(TableTypeName::from(TableType::Base), TableTypeName::MANAGED);
    assert_eq!(TableTypeName::from(TableType::View), TableTypeName::VIEW);
    assert_eq!(TableTypeName::from(TableType::Temporary), TableTypeName::TEMPORARY);
}

#[test]
fn table_type_names_to_datafusion() {
    assert_eq!(TableTypeName::EXTERNAL.to_table_type(), TableType::Base);
    assert_eq!(TableTypeName::MANAGED.to_table_type(), TableType::Base);
    assert_eq!(TableTypeName::VIEW.to_table_type(), TableType::View);
    assert_eq!(TableTypeName::TEMPORARY.to_table_type(), TableType::Temporary);
}

#[test]
fn table_type_round_trip() {
    for t in [TableType::Base, TableType::View, TableType::Temporary] {
        assert_eq!(TableTypeName::from(t).to_table_type(), t);
    }
    assert_eq!(TableTypeName::from(TableTypeName::EXTERNAL.to_table_type()), TableTypeName::MANAGED);
}

#[test]
fn table_type_name_text() {
    assert_eq!(TableTypeName::EXTERNAL.to_string(), "EXTERNAL");
    assert_eq!(TableTypeName::MANAGED.to_string(), "MANAGED");
    assert_eq!(TableTypeName::VIEW.to_string(), "VIEW");
    assert_eq!(TableTypeName::TEMPORARY.to_string(), "TEMPORARY");
}

#[test]
fn managed_table_metadata() {
    let m = TableMetadata::new("spark_catalog", "default", "t1", TableType::Base);
    assert_eq!(m.name, "t1");
    assert_eq!(m.catalog, Some("spark_catalog".to_string()));
    assert_eq!(m.namespace, Some(vec!["default".to_string()]));
    assert_eq!(m.description, None);
    assert_eq!(m.table_type, "MANAGED");
    assert!(!m.is_temporary);
}

#[test]
fn temporary_table_metadata() {
    let m = TableMetadata::new("spark_catalog", "default", "tmp", TableType::Temporary);
    assert_eq!(m.name, "tmp");
    assert_eq!(m.catalog, None);
    assert_eq!(m.namespace, None);
    assert_eq!(m.table_type, "TEMPORARY");
    assert!(m.is_temporary);
}

#[test]
fn view_metadata() {
    let m = TableMetadata::new("spark_catalog", "default", "v", TableType::View);
    assert_eq!(m.catalog, None);
    assert_eq!(m.namespace, None);
    assert_eq!(m.table_type, "VIEW");
    assert!(!m.is_temporary);
}

#[test]
fn list_of_table_metadata_keeps_order() {
    let found = vec![
        ("a".to_string(), TableType::Base),
        ("b".to_string(), TableType::View),
        ("c".to_string(), TableType::Temporary),
    ];
    let list = list_table_metadata("cat", "db", &found);
    assert_eq!(list.len(), 3);
    assert_eq!(list[0].name, "a");
    assert_eq!(list[0].catalog, Some("cat".to_string()));
    assert_eq!(list[0].namespace, Some(vec!["db".to_string()]));
    assert_eq!(list[1].name, "b");
    assert_eq!(list[1].table_type, "VIEW");
    assert_eq!(list[1].catalog, None);
    assert_eq!(list[2].name, "c");
    assert!(list[2].is_temporary);
    assert!(list_table_metadata("cat", "db", &vec![]).is_empty());
}

#[test]
fn drop_with_purge_is_refused() {
    assert_eq!(check_drop_table(false), Ok(()));
    assert_eq!(
        check_drop_table(true),
        Err("DROP TABLE ... PURGE is not supported".to_string())
    );
}

