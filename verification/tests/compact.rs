use minerva::compact::{
    compact_followups, compact_info_statement, delete_history_statement, update_history_statement,
    CompactError, CompactResult, COMPACT_INFO_HEAD, COMPACT_INFO_TAIL, COMPACT_INFO_TAIL_LIMITED,
};
use minerva::curr_ptr::{
    curr_ptr_result, refresh_materialized_view_statement, storage_method_from_kind,
    update_curr_table_statements, updated_curr_data_label, CurrDataStorageMethod,
    MaterializeCurrPtrError,
};
use minerva::error::Error;
use minerva::schema::pending_migrations;

#[test]
fn compact_statements() {
    let limited = compact_info_statement("hub_node", true);
    assert_eq!(limited, format!("{COMPACT_INFO_HEAD}hub_node{COMPACT_INFO_TAIL_LIMITED}"));
    assert!(limited.contains("LIMIT $1"));
    let all = compact_info_statement("hub_node", false);
    assert_eq!(all, format!("{COMPACT_INFO_HEAD}hub_node{COMPACT_INFO_TAIL}"));
    assert!(!all.contains("LIMIT"));
    assert!(update_history_statement("hub_node").starts_with("\nUPDATE attribute_history.\"hub_node\" history"));
    assert!(delete_history_statement("a\"b").starts_with("\nDELETE FROM attribute_history.\"a\"\"b\" history"));
}

#[test]
fn compact_followup_marks() {
    assert_eq!(compact_followups(0, 0, None), (false, true));
    assert_eq!(compact_followups(3, 0, Some(10)), (true, false));
    assert_eq!(compact_followups(0, 2, None), (true, true));
}

#[test]
fn compact_texts() {
    let r = CompactResult { record_count: 42, attribute_store_name: "hub_node".to_string(), attribute_store_id: -7 };
    assert_eq!(r.to_display_string(), "Compacted 42 records for 'hub_node'(-7)");
    assert_eq!(CompactError::NoSuchAttributeStoreId(12).to_display_string(), "Could not find attribute store with Id 12");
    assert_eq!(
        CompactError::NoSuchAttributeStoreName("x".to_string()).to_display_string(),
        "Could not find attribute store with name 'x'"
    );
    assert_eq!(CompactError::Unexpected("e".to_string()).to_display_string(), "Unexpected error during compacting: e");
    assert_eq!(CompactError::CurrPtr("e".to_string()).to_display_string(), "Could not materialize curr_ptr data: e");
    assert_eq!(
        CompactError::MarkCompacted(3, "e".to_string()).to_display_string(),
        "Could mark attribute store with ID 3 as compacted: e"
    );
    match CompactError::NoSuchAttributeStoreId(0).to_error() {
        Error::Runtime(e) => assert_eq!(e.msg, "Could not compact attribute data: Could not find attribute store with Id 0"),
        _ => panic!("expected a runtime error"),
    }
}

#[test]
fn curr_ptr_storage_methods() {
    assert_eq!(storage_method_from_kind(109).ok(), Some(CurrDataStorageMethod::MaterializedView));
    assert_eq!(storage_method_from_kind(114).ok(), Some(CurrDataStorageMethod::Table));
    assert_eq!(storage_method_from_kind(118).ok(), Some(CurrDataStorageMethod::View));
    match storage_method_from_kind(102) {
        Err(MaterializeCurrPtrError::Unexpected(m)) => assert_eq!(m, "Unexpected relation type: 'f'"),
        _ => panic!("expected an error"),
    }
    assert_eq!(updated_curr_data_label(CurrDataStorageMethod::MaterializedView), "materialized view");
    let r = curr_ptr_result(5, CurrDataStorageMethod::Table, "hub_node", 2);
    assert_eq!(r.updated_curr_data, "table");
    assert_eq!(r.to_display_string(), "Materialized 5 curr-ptr records for 'hub_node'(2)");
}

#[test]
fn curr_ptr_statements() {
    let (truncate, insert) = update_curr_table_statements("hub_node", &vec!["name".to_string()]);
    assert_eq!(truncate, "TRUNCATE TABLE attribute.\"hub_node\"");
    assert_eq!(
        insert,
        "INSERT INTO attribute.\"hub_node\"(\"id\",\"first_appearance\",\"modified\",\"hash\",\"entity_id\",\"end\",\"name\") \
SELECT history.\"id\",history.\"first_appearance\",history.\"modified\",history.\"hash\",history.\"entity_id\",history.\"end\",history.\"name\" \
FROM attribute_history.\"hub_node\" history JOIN attribute_history.\"hub_node_curr_ptr\" curr_ptr ON history.id = curr_ptr.id"
    );
    assert_eq!(refresh_materialized_view_statement("s"), "REFRESH MATERIALIZED VIEW attribute.\"s\"");
    assert_eq!(
        MaterializeCurrPtrError::NoAttributeStoreWithId(9).to_display_string(),
        "No attribute store matching Id 9"
    );
    assert_eq!(
        MaterializeCurrPtrError::NoAttributeStoreWithName("n".to_string()).to_display_string(),
        "No attribute store matching name 'n'"
    );
    assert_eq!(
        MaterializeCurrPtrError::Unexpected("u".to_string()).to_display_string(),
        "Unexpected error during curr-ptr materialization: u"
    );
}

#[test]
fn schema_pending_migrations() {
    let migrations = vec![
        (3, "c".to_string()),
        (1, "a".to_string()),
        (2, "b1".to_string()),
        (2, "b2".to_string()),
    ];
    let all = pending_migrations(&migrations, None);
    assert_eq!(
        all,
        vec![(1, "a".to_string()), (2, "b1".to_string()), (2, "b2".to_string()), (3, "c".to_string())]
    );
    let rest = pending_migrations(&migrations, Some(1));
    assert_eq!(rest, vec![(2, "b1".to_string()), (2, "b2".to_string()), (3, "c".to_string())]);
    assert!(pending_migrations(&migrations, Some(3)).is_empty());
}
