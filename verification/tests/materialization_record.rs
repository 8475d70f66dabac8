use minerva::error::{DatabaseError, Error};
use minerva::materialization_record::{
    checked_materialization_from_record, checked_materialization_from_row,
    checked_materializations_from_record, materialization_from_record, materialization_from_row,
    materializations_from_record, no_materialization_error, no_trend_materialization_error,
    old_settings_can_be_read, MaterializationLookups, MaterializationRecord,
};
use minerva::time::Duration;
use minerva::trend_materialization::{
    LoadTrendMaterializationError, TrendMaterialization, TrendMaterializationSource,
    TrendMaterializationTrendSource,
};

fn record(view: Option<&str>, function: Option<&str>) -> MaterializationRecord {
    MaterializationRecord {
        id: 1,
        processing_delay: "00:15:00".to_string(),
        stability_delay: "00:05:00".to_string(),
        reprocessing_period: "3 days".to_string(),
        enabled: true,
        description: None,
        target_trend_store_part: "hub_node_main_1h".to_string(),
        src_view: view.map(|v| v.to_string()),
        src_function: function.map(|f| f.to_string()),
        old_data_threshold: Some("01:00:00".to_string()),
        old_data_stability_delay: None,
    }
}

fn sources() -> Vec<TrendMaterializationSource> {
    vec![TrendMaterializationSource::Trend(TrendMaterializationTrendSource {
        trend_store_part: "hub_node_main_15m".to_string(),
        mapping_function: "trend.mapping_15m->1h".to_string(),
    })]
}

fn lookups(language: &str) -> MaterializationLookups {
    MaterializationLookups {
        fingerprint_function: Some(("sql".to_string(), "SELECT now()".to_string())),
        view_definition: Some("SELECT 1".to_string()),
        function_definition: Some((language.to_string(), "SELECT 2".to_string())),
        return_type: None,
        sources: Ok(sources()),
    }
}

#[test]
fn record_with_view_loads_view_materialization() {
    match materialization_from_row(record(Some("trend._hub_node_main_1h"), None), lookups("sql")) {
        Ok(TrendMaterialization::View(v)) => {
            assert_eq!(v.target_trend_store_part, "hub_node_main_1h");
            assert_eq!(v.processing_delay, Duration::from_secs(900));
            assert_eq!(v.stability_delay, Duration::from_secs(300));
            assert_eq!(v.reprocessing_period, Duration::from_secs(259200));
            assert_eq!(v.old_data_threshold, Some(Duration::from_secs(3600)));
            assert_eq!(v.old_data_stability_delay, None);
            assert_eq!(v.view, "SELECT 1");
            assert_eq!(v.fingerprint_function, "SELECT now()");
            assert_eq!(v.sources.len(), 1);
        }
        _ => panic!("expected a view materialization"),
    }
}

#[test]
fn record_with_function_loads_plpgsql_function() {
    match materialization_from_row(record(None, Some("trend.hub_node_main_1h")), lookups("sql")) {
        Ok(TrendMaterialization::Function(f)) => {
            assert_eq!(f.function.language, "plpgsql");
            assert_eq!(f.function.src, "BEGIN\nRETURN QUERY EXECUTE $query$\nSELECT 2$query$ USING $1;\nEND;\n");
            assert_eq!(f.function.return_type, "failed getting return type");
        }
        _ => panic!("expected a function materialization"),
    }
}

#[test]
fn record_errors_by_name() {
    let mut bad = record(Some("v"), None);
    bad.reprocessing_period = "soon".to_string();
    match materialization_from_row(bad, lookups("sql")) {
        Err(LoadTrendMaterializationError::ParseError(m)) => assert!(m.starts_with(
            "Could not load materialization 'hub_node_main_1h' due to failure in parsing of reprocessing_period: Could not parse 'soon' as interval: "
        )),
        _ => panic!("expected a parse error"),
    }
    let mut missing = lookups("sql");
    missing.view_definition = None;
    assert!(matches!(
        materialization_from_row(record(Some("trend.v"), None), missing),
        Err(LoadTrendMaterializationError::NoSuchView(v)) if v == "trend.v"
    ));
    let mut failing = lookups("sql");
    failing.sources = Err(Error::Database(DatabaseError::from_msg("gone".to_string())));
    assert!(matches!(
        materialization_from_row(record(Some("v"), None), failing),
        Err(LoadTrendMaterializationError::Sources(m)) if m == "gone"
    ));
    assert!(matches!(
        materialization_from_row(record(None, Some("f")), lookups("plpython3u")),
        Err(LoadTrendMaterializationError::MaterializationFunction(m))
            if m == "could not load function definition: Unexpected language 'plpython3u'"
    ));
    assert!(matches!(
        materialization_from_row(record(None, None), lookups("sql")),
        Err(LoadTrendMaterializationError::Configuration(m)) if m == "No function or view materialization could be loaded"
    ));
}

#[test]
fn record_as_library_errors() {
    assert!(matches!(
        materialization_from_record(record(None, None), lookups("sql")),
        Err(Error::Runtime(e))
            if e.msg == "Unexpected configuration where materialization is not a view and not a function materialization"
    ));
    assert!(matches!(
        materialization_from_record(record(None, Some("f")), lookups("c")),
        Err(Error::Runtime(e)) if e.msg == "Unexpected language 'c'"
    ));
    assert!(matches!(
        materialization_from_record(record(Some("v"), None), lookups("sql")),
        Ok(TrendMaterialization::View(_))
    ));
    assert!(matches!(no_materialization_error("x"), Error::Configuration(e) if e.msg == "No materialization that matches name 'x'"));
    assert!(matches!(
        no_trend_materialization_error("x"),
        LoadTrendMaterializationError::NotFound(m) if m == "No trend materialization found matching name 'x'"
    ));
}

#[test]
fn record_with_view_and_function_gives_both() {
    let both = materializations_from_record(record(Some("v"), Some("f")), lookups("plpgsql")).ok().unwrap();
    assert_eq!(both.len(), 2);
    assert!(matches!(&both[0], TrendMaterialization::View(_)));
    assert!(matches!(&both[1], TrendMaterialization::Function(f) if f.function.src == "SELECT 2"));
    let none = materializations_from_record(record(None, None), lookups("sql")).ok().unwrap();
    assert!(none.is_empty());
}

#[test]
fn unreadable_old_settings_are_refused() {
    let mut r = record(Some("v"), None);
    r.old_data_stability_delay = Some("whenever".to_string());
    assert!(!old_settings_can_be_read(&r));
    assert!(checked_materialization_from_row(r, lookups("sql")).is_none());
    let ok = record(Some("v"), None);
    assert!(old_settings_can_be_read(&ok));
    assert!(checked_materialization_from_row(ok, lookups("sql")).is_some());
    let mut no_view = lookups("sql");
    no_view.view_definition = None;
    assert!(checked_materialization_from_record(record(Some("v"), None), no_view).is_none());
    assert!(checked_materializations_from_record(record(None, Some("f")), lookups("sql")).is_some());
}
