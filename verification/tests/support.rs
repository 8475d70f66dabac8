use minerva::attribute_history::{self, history_insert_statement};
use minerva::attribute_materialization::{
    attribute_materialization_view_name, materialize_attribute_statements, materialized_columns,
    AddAttributeMaterialization, AttributeMaterialization, AttributeMaterializationTarget,
    AttributeMaterializeError, AttributeStoreRef, AttributeStoreRefError,
};
use minerva::cluster::{
    test_database_env, BuildImageProvider, FixedImageProvider, ImageProvider, ImageRef,
    TestDatabaseError, DEFAULT_CITUS_IMAGE, DEFAULT_CITUS_TAG,
};
use minerva::curr_ptr::MaterializeCurrPtrError;
use minerva::entity::{
    create_entity_statement, created_alias, entity_ids_query, ids_for_names, uncached_names,
    EntityMappingError,
};
use minerva::error::{DatabaseError, Error};
use minerva::kpi::AddKpiData;
use minerva::materialize::{
    analyze_timestamp_statement, chunk_text, chunks_query, materialize_chunk_query, source_text,
    MaterializeConfig, MaterializeError, CHUNKS_SELECT, CHUNKS_TAG_JOIN, CHUNKS_WHERE,
};

#[test]
fn entity_queries() {
    assert_eq!(
        entity_ids_query("node"),
        "WITH lookup_list AS (SELECT unnest($1::text[]) AS name) SELECT l.name, e.id FROM lookup_list l LEFT JOIN entity.\"node\" e ON l.name = e.name "
    );
    assert_eq!(
        create_entity_statement("node"),
        "INSERT INTO entity.\"node\"(name) VALUES($1) ON CONFLICT(name) DO UPDATE SET name=EXCLUDED.name RETURNING id"
    );
    assert_eq!(created_alias("n1"), "alias_for_n1");
}

#[test]
fn entity_mapping() {
    let found = vec![("a".to_string(), 1), ("b".to_string(), 2), ("a".to_string(), 3)];
    let ids = ids_for_names(&found, &vec!["b".to_string(), "a".to_string()]).ok().unwrap();
    assert_eq!(ids, vec![2, 3]);
    assert!(matches!(
        ids_for_names(&found, &vec!["c".to_string()]),
        Err(EntityMappingError::UnmappedEntityError)
    ));
    let names = vec!["x".to_string(), "y".to_string(), "z".to_string()];
    assert_eq!(uncached_names(&names, &vec![Some(1), None, None]), vec!["y".to_string(), "z".to_string()]);
    assert_eq!(EntityMappingError::DatabaseError("d".to_string()).to_display_string(), "Database error: d");
    assert_eq!(
        EntityMappingError::EntityCreationError("c".to_string()).to_display_string(),
        "Could not create entity: c"
    );
    assert_eq!(EntityMappingError::EntityInsertError.to_display_string(), "Could not insert entity");
    assert_eq!(EntityMappingError::UnmappedEntityError.to_display_string(), "Could not map entity");
    assert_eq!(EntityMappingError::CacheError.to_display_string(), "Value unexpectedly not found in cache");
}

#[test]
fn materialize_queries() {
    let plain = MaterializeConfig { tags: None, oldest_first: false, max_materializations: 10 };
    assert_eq!(
        chunks_query(&plain),
        format!("{CHUNKS_SELECT} {CHUNKS_WHERE} ORDER BY ms.timestamp DESC, ts.granularity ASC LIMIT $2")
    );
    let tagged = MaterializeConfig {
        tags: Some(vec!["a".to_string(), "b".to_string()]),
        oldest_first: true,
        max_materializations: 10,
    };
    assert_eq!(
        chunks_query(&tagged),
        format!(
            "{CHUNKS_SELECT} {CHUNKS_TAG_JOIN} {CHUNKS_WHERE} AND tag.name = ANY('{{a,b}}'::text[]) ORDER BY ms.timestamp ASC, ts.granularity ASC LIMIT $2"
        )
    );
    assert_eq!(
        materialize_chunk_query("2024-01-01T00:00:00Z", "m1"),
        "SELECT (trend_directory.materialize(m, '2024-01-01T00:00:00Z'::timestamptz)).row_count FROM trend_directory.materialization m WHERE m::text = 'm1'"
    );
    assert_eq!(analyze_timestamp_statement("p_1"), "ANALYZE trend_partition.\"p_1\"(timestamp)");
    assert_eq!(source_text("src", "f"), "src(f)");
    assert_eq!(chunk_text("t", "n"), "t - n");
    assert_eq!(MaterializeError::UnexpectedError("u".to_string()).to_display_string(), "u");
}

#[test]
fn cluster_settings() {
    let env = test_database_env("localhost", 5432, "db", "postgres");
    assert_eq!(
        env,
        vec![
            ("PGHOST".to_string(), "localhost".to_string()),
            ("PGPORT".to_string(), "5432".to_string()),
            ("PGDATABASE".to_string(), "db".to_string()),
            ("PGUSER".to_string(), "postgres".to_string()),
        ]
    );
    let provider = FixedImageProvider::default();
    let image = provider.image();
    assert_eq!(image.image_name, DEFAULT_CITUS_IMAGE);
    assert_eq!(image.to_display_string(), "citusdata/citus:13.0.3-alpine");
    assert_eq!(DEFAULT_CITUS_TAG, "13.0.3-alpine");
    let built = BuildImageProvider {
        definition_file: "Dockerfile".to_string(),
        image_name: "minerva".to_string(),
        image_tag: "latest".to_string(),
    };
    assert_eq!(built.image_ref().to_display_string(), "minerva:latest");
    let r = ImageRef { image_name: "a".to_string(), image_tag: "b".to_string() };
    assert_eq!(r.to_display_string(), "a:b");
    let e = TestDatabaseError::Connect("refused".to_string());
    assert_eq!(e.to_display_string(), "Could not connect to test database: refused");
    assert!(matches!(e.to_error(), Error::Runtime(r) if r.msg == "Could not connect to test database: refused"));
}

#[test]
fn kpi_display() {
    let add = AddKpiData {
        trigger_name: "t".to_string(),
        kpi_column: "k".to_string(),
        data_type: "numeric".to_string(),
    };
    assert_eq!(add.to_display_string(), "AddKpiData { trigger_name: t, kpi_column: k}");
}

fn target() -> AttributeMaterializationTarget {
    AttributeMaterializationTarget { data_source: "hub".to_string(), entity_type: "node".to_string() }
}

#[test]
fn attribute_materialization_texts() {
    assert_eq!(target().to_display_string(), "hub_node");
    assert_eq!(attribute_materialization_view_name(&target()), "_hub_node");
    let m = AttributeMaterialization { attribute_store: target(), query: "SELECT 1".to_string() };
    assert_eq!(m.view_name(), "_hub_node");
    assert_eq!(m.to_display_string(), "AttributeMaterialization('hub_node')");
    assert_eq!(m.create_view_statement(), "CREATE VIEW attribute.\"_hub_node\" AS SELECT 1");
    assert_eq!(m.source_view(), "attribute.\"_hub_node\"");
    let add = AddAttributeMaterialization { attribute_materialization: m };
    assert_eq!(add.to_display_string(), "AddAttributeMaterialization(AttributeMaterialization('hub_node'))");
    let names = vec!["name".to_string()];
    assert_eq!(materialized_columns(&names), "\"entity_id\",\"timestamp\",\"name\"");
    let (truncate, stage, history) = materialize_attribute_statements("hub_node", &names, "_hub_node");
    assert_eq!(truncate, "TRUNCATE TABLE attribute_staging.\"hub_node\"");
    assert_eq!(
        stage,
        "INSERT INTO attribute_staging.\"hub_node\"(\"entity_id\",\"timestamp\",\"name\") SELECT \"entity_id\",\"timestamp\",\"name\" FROM attribute.\"_hub_node\""
    );
    assert_eq!(
        history,
        "INSERT INTO attribute_history.\"hub_node\"(\"entity_id\",\"timestamp\",\"name\") SELECT \"entity_id\",\"timestamp\",\"name\" FROM attribute_staging.\"hub_node\""
    );
    let store = AttributeStoreRef { id: 4, name: "hub_node".to_string() };
    assert_eq!(store.to_display_string(), "'hub_node'(4)");
}

#[test]
fn attribute_materialization_errors() {
    assert_eq!(AttributeMaterializeError::Unexpected("u".to_string()).to_display_string(), "Unexpected error: u");
    let from = AttributeMaterializeError::from(MaterializeCurrPtrError::NoAttributeStoreWithId(2));
    assert_eq!(from.to_display_string(), "Could not materialize curr ptr data: No attribute store matching Id 2");
    assert_eq!(AttributeStoreRefError::Unexpected("u".to_string()).to_display_string(), "Unexpected error: u");
    assert_eq!(
        AttributeStoreRefError::NoAttributeStoreWithName("n".to_string()).to_display_string(),
        "No attribute store matching name 'n'"
    );
    assert_eq!(
        AttributeStoreRefError::NoAttributeStoreWithId(-1).to_display_string(),
        "No attribute store matching id '-1'"
    );
}

#[test]
fn attribute_history_statement() {
    let store = attribute_history::AttributeStoreRef { id: 1, name: "hub_node".to_string() };
    assert_eq!(
        history_insert_statement(&store, &vec!["a".to_string()], "src"),
        "INSERT INTO attribute_history.\"hub_node\"(\"entity_id\",\"timestamp\",\"a\") SELECT \"entity_id\",\"timestamp\",\"a\" FROM src"
    );
    assert_eq!(attribute_history::AttributeMaterializeError::Unexpected("x".to_string()).to_display_string(), "");
}

#[test]
fn error_messages() {
    let e = Error::Database(DatabaseError::from_msg("db down".to_string()));
    assert_eq!(e.message(), "db down");
    assert_eq!(e.description(), "Database error");
    let u = Error::Database(DatabaseError::UniqueViolation("dup".to_string()));
    assert_eq!(u.message(), "dup");
    let r = Error::from_message("r".to_string());
    assert_eq!(r.description(), "Runtime error");
    assert_eq!(r.message(), "r");
}

#[test]
fn entity_lookup_statements() {
    assert_eq!(
        minerva::entity::entities_query("node", true),
        "WITH lookup_list AS (SELECT unnest($1::text[]) AS name) SELECT l.name, e.id, e.primary_alias FROM lookup_list l LEFT JOIN entity.\"node\" e ON l.name = e.name "
    );
    assert_eq!(
        minerva::entity::entities_query("node", false),
        "WITH lookup_list AS (SELECT unnest($1::text[]) AS name) SELECT l.name, e.id AS primary_alias FROM lookup_list l LEFT JOIN entity.\"node\" e ON l.name = e.name "
    );
    assert_eq!(
        minerva::entity::create_entity_with_alias_statement("node"),
        "INSERT INTO entity.\"node\"(name, primary_alias) VALUES($1, $2) ON CONFLICT(name) DO UPDATE SET name=EXCLUDED.name RETURNING id, primary_alias"
    );
}
