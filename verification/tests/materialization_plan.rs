use minerva::materialization_plan::{
    create_fingerprint_step, create_view_step, define_view_step, drop_fingerprint_step, drop_view_step,
    enable_step, init_view_step, link_outcome, removal_outcome, reset_fingerprint_step,
    source_fingerprint_query, teardown_steps, trend_source_links, update_attributes_step,
    ConnectMaterializationSourcesError, MaterializationAction, MaterializationSettings,
    PopulateSourceFingerprintError,
};
use minerva::sql::{SqlParam, SqlStep};
use minerva::time::Duration;
use minerva::trend_materialization::{
    AddTrendMaterialization, RemoveTrendMaterialization, TrendFunctionMaterialization, TrendMaterialization,
    TrendMaterializationFunction, TrendMaterializationRelationSource, TrendMaterializationSource,
    TrendMaterializationTrendSource, TrendViewMaterialization, UpdateTrendMaterialization, UpdateView,
};
use serde_json::Value;

fn view(enabled: bool) -> TrendViewMaterialization {
    TrendViewMaterialization {
        target_trend_store_part: "hub_node_main_1h".to_string(),
        enabled,
        processing_delay: Duration::from_secs(900),
        stability_delay: Duration::from_secs(300),
        old_data_stability_delay: None,
        old_data_threshold: Some(Duration::from_secs(3600)),
        reprocessing_period: Duration::from_secs(259200),
        sources: vec![
            TrendMaterializationSource::Trend(TrendMaterializationTrendSource {
                trend_store_part: "hub_node_main_15m".to_string(),
                mapping_function: "trend.mapping_15m->1h".to_string(),
            }),
            TrendMaterializationSource::Relation(TrendMaterializationRelationSource { relation: "r".to_string() }),
        ],
        view: "SELECT 1".to_string(),
        fingerprint_function: "SELECT now()".to_string(),
        description: None,
    }
}

fn texts(step: &SqlStep) -> Vec<String> {
    step.params
        .iter()
        .map(|p| match p {
            SqlParam::Text(s) => s.clone(),
            SqlParam::OptionalText(o) => format!("{o:?}"),
            SqlParam::Boolean(b) => b.to_string(),
            SqlParam::Json(v) => format!("json {v}"),
        })
        .collect()
}

#[test]
fn view_statements() {
    let v = view(true);
    let create = create_view_step(&v);
    assert_eq!(create.statement, "CREATE VIEW trend.\"_hub_node_main_1h\" AS SELECT 1");
    assert!(create.params.is_empty());
    assert_eq!(create.failure, "Error creating view");
    assert_eq!(drop_view_step("x").statement, "DROP VIEW IF EXISTS trend.\"_x\"");
    let fp = create_fingerprint_step("x", "SELECT 1");
    assert_eq!(
        fp.statement,
        "CREATE FUNCTION trend.\"x_fingerprint\"(timestamp with time zone) RETURNS trend_directory.fingerprint AS $$\nSELECT 1\n$$ LANGUAGE sql STABLE\n"
    );
    assert_eq!(
        drop_fingerprint_step("x").statement,
        "DROP FUNCTION IF EXISTS trend.\"x_fingerprint\"(timestamp with time zone)"
    );
    let enable = enable_step("x");
    assert_eq!(texts(&enable), vec!["x".to_string()]);
    let init = init_view_step("x");
    assert_eq!(texts(&init), vec!["x".to_string(), "trend.\"_x\"".to_string()]);
}

#[test]
fn view_definition_statement() {
    let step = define_view_step(&view(true));
    assert_eq!(
        step.statement,
        "SELECT trend_directory.define_view_materialization(id, $1::text::interval, $2::text::interval, $3::text::interval, $4::text::regclass, $5::jsonb, '1h'::text::interval, NULL) FROM trend_directory.trend_store_part WHERE name = $6"
    );
    assert_eq!(
        texts(&step),
        vec!["15m", "5m", "3days", "trend.\"_hub_node_main_1h\"", "json \"{}\"", "hub_node_main_1h"]
    );
    assert_eq!(step.failure, "Error defining view materialization");
}

#[test]
fn attribute_update_statement() {
    let mut description = serde_json::Map::new();
    description.insert("owner".to_string(), Value::String("ops".to_string()));
    let settings = MaterializationSettings {
        target: "t".to_string(),
        enabled: false,
        processing_delay: Duration::from_secs(60),
        stability_delay: Duration::from_secs(60),
        reprocessing_period: Duration::from_secs(3600),
        old_data_threshold: None,
        old_data_stability_delay: Some(Duration::from_secs(120)),
        description: Some(Value::Object(description)),
    };
    let step = update_attributes_step(&settings);
    assert!(step.statement.contains("description = '{\"owner\":\"ops\"}'::jsonb"));
    assert_eq!(texts(&step), vec!["1m", "1m", "1h", "false", "None", "Some(\"2m\")", "t"]);
}

fn kinds(actions: &[MaterializationAction]) -> Vec<String> {
    actions
        .iter()
        .map(|a| match a {
            MaterializationAction::Run(s) => s.failure.clone(),
            MaterializationAction::ConnectSources => "connect".to_string(),
        })
        .collect()
}

#[test]
fn materialization_plans() {
    let enabled = TrendMaterialization::View(view(true));
    assert_eq!(
        kinds(&enabled.create_actions()),
        vec![
            "Error creating view",
            "Error creating fingerprint function",
            "Error defining view materialization",
            "Unable to enable materialization",
            "connect"
        ]
    );
    let disabled = TrendMaterialization::View(view(false));
    assert_eq!(kinds(&disabled.create_actions()).len(), 4);
    assert_eq!(kinds(&disabled.delete_actions()), vec!["Error dropping view", "Error dropping fingerprint function"]);
    assert_eq!(
        kinds(&disabled.update_actions()),
        vec![
            "Error creating view",
            "Error initializing view materialization",
            "Error creating fingerprint function",
            "connect",
            "Error updating view materialization attributes"
        ]
    );
    let function = TrendMaterialization::Function(TrendFunctionMaterialization {
        target_trend_store_part: "f".to_string(),
        enabled: false,
        processing_delay: Duration::from_secs(1),
        stability_delay: Duration::from_secs(1),
        old_data_stability_delay: None,
        old_data_threshold: None,
        reprocessing_period: Duration::from_secs(1),
        sources: vec![],
        function: TrendMaterializationFunction {
            return_type: "integer".to_string(),
            src: "BEGIN END;".to_string(),
            language: "plpgsql".to_string(),
        },
        fingerprint_function: "SELECT 1".to_string(),
        description: None,
    });
    assert_eq!(
        kinds(&function.create_actions()),
        vec![
            "Error creating function",
            "Error creating fingerprint function",
            "Error defining function materialization",
            "connect"
        ]
    );
    assert_eq!(
        kinds(&function.delete_actions()),
        vec!["Error removing old sources", "Error deleting view materialization", "Error dropping fingerprint function"]
    );
    assert_eq!(kinds(&function.update_definition_actions()), vec!["Error dropping function", "Error creating function"]);
    assert_eq!(kinds(&function.update_sources_actions()), vec!["Error removing old sources", "connect"]);
    assert_eq!(
        kinds(&function.update_fingerprint_actions()),
        vec!["Error dropping fingerprint function", "Error creating fingerprint function"]
    );
}

#[test]
fn source_links_and_fingerprints() {
    let links = trend_source_links(&view(true).sources);
    assert_eq!(links, vec![("hub_node_main_15m".to_string(), "trend.mapping_15m->1h(timestamptz)".to_string())]);
    assert!(link_outcome(1).is_ok());
    assert!(matches!(link_outcome(0), Err(ConnectMaterializationSourcesError::NoLinkInserted)));
    assert!(matches!(source_fingerprint_query(&vec![]), Err(PopulateSourceFingerprintError::NoSources)));
    let q = source_fingerprint_query(&vec![
        ("trend.m1".to_string(), "a".to_string()),
        ("trend.m2".to_string(), "b".to_string()),
    ])
    .ok()
    .unwrap();
    assert_eq!(
        q,
        "WITH source_1 AS (select trend.m1(timestamp) AS timestamp from trend.\"a\" group by timestamp),source_2 AS (select trend.m2(timestamp) AS timestamp from trend.\"b\" group by timestamp) SELECT trend_directory.update_source_fingerprint(m.id, source_1.timestamp) FROM source_1 JOIN source_2 ON source_1.timestamp = source_2.timestamp, trend_directory.materialization m WHERE m::text = $1"
    );
    assert_eq!(
        reset_fingerprint_step("m").statement,
        "UPDATE trend_directory.materialization_state nms SET source_fingerprint = (trend.\"m_fingerprint\"(ms.timestamp)).body FROM trend_directory.materialization_state ms JOIN trend_directory.materialization m ON ms.materialization_id = m.id WHERE m::text = $1 AND nms.materialization_id = m.id AND nms.timestamp = ms.timestamp"
    );
}

#[test]
fn plan_errors_and_messages() {
    assert!(removal_outcome(1).is_ok());
    assert_eq!(removal_outcome(0), Err("No materializations deleted".to_string()));
    assert_eq!(removal_outcome(3), Err("More than 1 materialization deleted (3)".to_string()));
    assert_eq!(
        ConnectMaterializationSourcesError::NoSuchMaterialization("t".to_string()).to_display_string(),
        "No materialization matching target trend store part 't'"
    );
    assert_eq!(
        ConnectMaterializationSourcesError::NoSuchSourceTrendStorePart("p".to_string()).to_display_string(),
        "No such source trend store part 'p'"
    );
    assert_eq!(ConnectMaterializationSourcesError::Database("d".to_string()).to_display_string(), "Unexpected database error: d");
    assert_eq!(
        PopulateSourceFingerprintError::SourcesLoading("x".to_string()).to_display_string(),
        "Could not load materialization sources: x"
    );
    assert_eq!(
        PopulateSourceFingerprintError::FingerprintUpdating("y".to_string()).to_display_string(),
        "Could not update fingerprints: y"
    );
    let teardown = teardown_steps("m");
    assert_eq!(teardown.len(), 4);
    assert_eq!(teardown[3].failure, "Error dropping fingerprint function 'm_fingerprint'");
    let add = AddTrendMaterialization { trend_materialization: TrendMaterialization::View(view(true)) };
    assert_eq!(add.outcome_message(), "Added trend materialization 'TrendViewMaterialization('hub_node_main_1h')'");
    assert_eq!(
        add.failure_message("boom"),
        "Error adding trend materialization 'TrendViewMaterialization('hub_node_main_1h')': boom"
    );
    let update = UpdateTrendMaterialization { trend_materialization: TrendMaterialization::View(view(true)) };
    assert_eq!(update.apply_actions().len(), 5);
    assert!(update.failure_message("e").starts_with("Error updating trend materialization '"));
    let remove = RemoveTrendMaterialization { name: "m".to_string() };
    assert_eq!(remove.outcome_message(), "Removed trend materialization 'm'");
    assert_eq!(remove.failure_message("e"), "Error removing trend materialization 'm': e");
    let (record, _, _) = remove.apply_steps();
    assert_eq!(record.statement, "DELETE FROM trend_directory.materialization WHERE materialization::text = $1");
    let update_view = UpdateView { trend_view_materialization: view(true) };
    assert_eq!(update_view.outcome_message(), "Updated view _hub_node_main_1h");
}
