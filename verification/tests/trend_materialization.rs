use minerva::change::Change;
use minerva::error::Error;
use minerva::time::Duration;
use minerva::trend_materialization::{
    check_function_materialization_report, check_view_materialization_report, coorce_to_plpgsql,
    create_text_interval, fingerprint_function_name, function_return_type, map_sql_to_plpgsql,
    materialization_view_name, ResultColumn, TrendFunctionMaterialization, TrendMaterialization,
    TrendMaterializationFunction, TrendMaterializationRelationSource, TrendMaterializationSource,
    TrendMaterializationTrendSource, TrendStorePartColumn, TrendViewMaterialization,
};

fn view_materialization(enabled: bool) -> TrendViewMaterialization {
    TrendViewMaterialization {
        target_trend_store_part: "hub_v-network_main_15m".to_string(),
        enabled,
        processing_delay: Duration::from_secs(1800),
        stability_delay: Duration::from_secs(300),
        old_data_stability_delay: None,
        old_data_threshold: None,
        reprocessing_period: Duration::from_secs(259200),
        sources: vec![
            TrendMaterializationSource::Trend(TrendMaterializationTrendSource {
                trend_store_part: "hub_node_main_15m".to_string(),
                mapping_function: "trend.mapping_id".to_string(),
            }),
            TrendMaterializationSource::Relation(TrendMaterializationRelationSource {
                relation: "node->v-network".to_string(),
            }),
        ],
        view: "SELECT 1".to_string(),
        fingerprint_function: "SELECT now()".to_string(),
        description: None,
    }
}

fn function_materialization(language: &str, src: &str) -> TrendFunctionMaterialization {
    TrendFunctionMaterialization {
        target_trend_store_part: "hub_v-network_main_15m".to_string(),
        enabled: true,
        processing_delay: Duration::from_secs(1800),
        stability_delay: Duration::from_secs(300),
        old_data_stability_delay: None,
        old_data_threshold: None,
        reprocessing_period: Duration::from_secs(259200),
        sources: vec![],
        function: TrendMaterializationFunction {
            return_type: "TABLE(x integer)".to_string(),
            src: src.to_string(),
            language: language.to_string(),
        },
        fingerprint_function: "SELECT now()".to_string(),
        description: None,
    }
}

fn change_names(changes: &[Change]) -> Vec<String> {
    changes
        .iter()
        .map(|c| match c {
            Change::UpdateView(c) => c.to_display_string(),
            Change::UpdateTrendViewMaterializationAttributes(c) => c.to_display_string(),
            Change::UpdateFunction(c) => c.to_display_string(),
            Change::UpdateTrendFunctionMaterializationAttributes(c) => c.to_display_string(),
            _ => "other".to_string(),
        })
        .collect()
}

#[test]
fn plpgsql_body() {
    assert_eq!(
        map_sql_to_plpgsql("SELECT 1\n".to_string()),
        "BEGIN\nRETURN QUERY EXECUTE $query$\nSELECT 1\n$query$ USING $1;\nEND;\n"
    );
}

#[test]
fn coerce_languages() {
    let (lang, src) = coorce_to_plpgsql(("sql".to_string(), "SELECT 1\n".to_string())).ok().unwrap();
    assert_eq!(lang, "plpgsql");
    assert_eq!(src, map_sql_to_plpgsql("SELECT 1\n".to_string()));
    let (lang, src) = coorce_to_plpgsql(("plpgsql".to_string(), "BEGIN END;".to_string())).ok().unwrap();
    assert_eq!(lang, "plpgsql");
    assert_eq!(src, "BEGIN END;");
    match coorce_to_plpgsql(("python".to_string(), "x".to_string())) {
        Err(Error::Runtime(e)) => assert_eq!(e.msg, "Unexpected language 'python'"),
        _ => panic!("expected an error"),
    }
}

#[test]
fn names_of_materialization_objects() {
    assert_eq!(materialization_view_name("m"), "_m");
    assert_eq!(fingerprint_function_name("m"), "m_fingerprint");
    let m = TrendMaterialization::View(view_materialization(true));
    assert_eq!(m.name(), "hub_v-network_main_15m");
    assert_eq!(m.to_display_string(), "TrendViewMaterialization('hub_v-network_main_15m')");
    assert_eq!(m.fingerprint_function_name(), "hub_v-network_main_15m_fingerprint");
}

#[test]
fn function_definition_trims_source() {
    let f = function_materialization("sql", "\n  SELECT 1  \n");
    assert_eq!(
        f.complete_function_definition(),
        "CREATE FUNCTION trend.\"hub_v-network_main_15m\"(timestamp with time zone) RETURNS TABLE(x integer) AS $function$\nSELECT 1\n$function$ LANGUAGE sql"
    );
}

#[test]
fn view_diff() {
    let a = view_materialization(true);
    let b = view_materialization(false);
    assert!(a.diff(&a, "fp1", "fp1").is_empty());
    assert_eq!(
        change_names(&a.diff(&b, "fp1", "fp2")),
        vec![
            "UpdateView(hub_v-network_main_15m, _hub_v-network_main_15m)".to_string(),
            "UpdateTrendViewMaterializationAttributes(hub_v-network_main_15m)".to_string(),
        ]
    );
}

#[test]
fn function_diff() {
    let p = function_materialization("PLpgSQL", "BEGIN END;");
    assert!(p.is_plpgsql());
    assert!(p.diff(&p, "tree", "tree").is_empty());
    assert_eq!(change_names(&p.diff(&p, "tree", "other")), vec!["UpdateFunction(hub_v-network_main_15m, hub_v-network_main_15m)".to_string()]);
    let s = function_materialization("sql", "SELECT 1");
    assert!(!s.is_plpgsql());
    assert_eq!(s.diff(&s, "tree", "tree").len(), 1);
}

#[test]
fn mismatched_kinds_give_no_change() {
    let v = TrendMaterialization::View(view_materialization(true));
    let f = TrendMaterialization::Function(function_materialization("sql", "SELECT 1"));
    assert!(v.diff(&f, "a", "b").is_empty());
}

#[test]
fn text_interval() {
    assert_eq!(create_text_interval(None), "NULL");
    assert_eq!(create_text_interval(Some(Duration::from_secs(1800))), "'30m'::text::interval");
}

#[test]
fn return_type_of_columns() {
    let columns = vec![
        ResultColumn { name: "a".to_string(), data_type: "integer".to_string() },
        ResultColumn { name: "b c".to_string(), data_type: "text".to_string() },
    ];
    assert_eq!(function_return_type(&columns), "TABLE (\n    \"a\" integer,\n    \"b c\" text\n)\n");
}

#[test]
fn check_reports() {
    let view = view_materialization(true);
    let returned = vec![
        ResultColumn { name: "entity_id".to_string(), data_type: "integer".to_string() },
        ResultColumn { name: "x".to_string(), data_type: "integer".to_string() },
        ResultColumn { name: "y".to_string(), data_type: "text".to_string() },
    ];
    let trends = vec![
        TrendStorePartColumn { name: "x".to_string(), data_type: "bigint".to_string() },
        TrendStorePartColumn { name: "z".to_string(), data_type: "numeric".to_string() },
    ];
    assert_eq!(
        check_view_materialization_report(&view, &returned, &trends),
        vec![
            "Column 'x'(integer) returned from view differs in type: 'integer' != 'bigint' ".to_string(),
            "Column 'y'(text) is returned from view but has no matching trend".to_string(),
            "Column 'z'(numeric) is defined as trend in trend store part 'hub_v-network_main_15m' but is not returned from view".to_string(),
        ]
    );
    let f = function_materialization("sql", "SELECT 1");
    let ok_returned = vec![ResultColumn { name: "x".to_string(), data_type: "bigint".to_string() }];
    let ok_trends = vec![TrendStorePartColumn { name: "x".to_string(), data_type: "bigint".to_string() }];
    assert!(check_function_materialization_report(&f, &ok_returned, &ok_trends).is_empty());
}
