use minerva::time::Duration;
use minerva::error::DatabaseError;
use minerva::trigger::{Threshold, TriggerError};
use minerva::trigger_template::{
    ExtendedParameterValue, FullTemplatedTrigger, ParameterType, ParameterValue, Template,
    TemplateParameter, TemplatedTrigger, TriggerTemplateError,
};

fn test_template() -> Template {
    Template {
        id: 1,
        name: "Test Template".to_string(),
        description: "Trigger when {trend} {comparison} {value}".to_string(),
        sql: "{trend} {comparison} {value}".to_string(),
        parameters: vec![
            TemplateParameter {
                name: "trend".to_string(),
                parameter_type: ParameterType::Counter,
                has_lookback: false,
                lookback_parameter: None,
            },
            TemplateParameter {
                name: "comparison".to_string(),
                parameter_type: ParameterType::Default,
                has_lookback: false,
                lookback_parameter: None,
            },
            TemplateParameter {
                name: "value".to_string(),
                parameter_type: ParameterType::ThresholdVariable,
                has_lookback: false,
                lookback_parameter: None,
            },
        ],
    }
}

fn value(name: &str, value: &str, data_type: Option<&str>, default_value: Option<&str>) -> ExtendedParameterValue {
    ExtendedParameterValue {
        name: name.to_string(),
        value: value.to_string(),
        data_type: data_type.map(|s| s.to_string()),
        default_value: default_value.map(|s| s.to_string()),
    }
}

#[test]
fn test_templated_trigger_to_full_templated_trigger() {
    let template = test_template();
    let templated_trigger1 = TemplatedTrigger {
        template: template.clone(),
        name: "Test Trigger 1".to_string(),
        description: Some("A test trigger".to_string()),
        parameters: vec![
            value("trend", "cpu_usage", None, None),
            value("comparison", ">", None, None),
            value("value", "min_usage", Some("numeric"), Some("80")),
        ],
        thresholds: None,
        entity_type: "server".to_string(),
        granularity: Duration::from_secs(900),
        weight: 10,
        enabled: true,
    };
    let full_templated_trigger1: FullTemplatedTrigger =
        FullTemplatedTrigger::from_templated(templated_trigger1.clone());
    assert_eq!(full_templated_trigger1.thresholds.len(), 1);
    assert_eq!(full_templated_trigger1.thresholds[0].name, "min_usage");
    assert_eq!(full_templated_trigger1.thresholds[0].data_type, "numeric");
    assert_eq!(full_templated_trigger1.thresholds[0].value, "80");

    let templated_trigger2 = TemplatedTrigger {
        template: template.clone(),
        name: "Test Trigger 1".to_string(),
        description: Some("A test trigger".to_string()),
        parameters: vec![
            value("trend", "cpu_usage", None, None),
            value("comparison", ">", None, None),
            value("value", "min_usage", None, None),
        ],
        thresholds: Some(vec![Threshold {
            name: "min_usage".to_string(),
            data_type: "numeric".to_string(),
            value: "80".to_string(),
        }]),
        entity_type: "server".to_string(),
        granularity: Duration::from_secs(900),
        weight: 10,
        enabled: true,
    };
    let full_templated_trigger2: FullTemplatedTrigger =
        FullTemplatedTrigger::from_templated(templated_trigger2.clone());
    assert_eq!(full_templated_trigger2.thresholds.len(), 1);
    assert_eq!(full_templated_trigger2.thresholds[0].name, "min_usage");
    assert_eq!(full_templated_trigger2.thresholds[0].data_type, "numeric");
    assert_eq!(full_templated_trigger2.thresholds[0].value, "80");

    let templated_trigger3 = TemplatedTrigger {
        template: template.clone(),
        name: "Test Trigger 1".to_string(),
        description: Some("A test trigger".to_string()),
        parameters: vec![
            value("trend", "cpu_usage", None, None),
            value("comparison", ">", None, None),
            value("value", "min_usage", Some("numeric"), Some("80")),
        ],
        thresholds: Some(vec![]),
        entity_type: "server".to_string(),
        granularity: Duration::from_secs(900),
        weight: 10,
        enabled: true,
    };
    let full_templated_trigger3: FullTemplatedTrigger =
        FullTemplatedTrigger::from_templated(templated_trigger3.clone());
    assert_eq!(full_templated_trigger3.thresholds.len(), 1);
    assert_eq!(full_templated_trigger3.thresholds[0].name, "min_usage");
    assert_eq!(full_templated_trigger3.thresholds[0].data_type, "numeric");
    assert_eq!(full_templated_trigger3.thresholds[0].value, "80");
}

fn full_trigger() -> FullTemplatedTrigger {
    FullTemplatedTrigger {
        template: test_template(),
        name: "Test Trigger 1".to_string(),
        description: Some("A test trigger".to_string()),
        parameters: vec![
            ParameterValue { name: "trend".to_string(), value: "cpu_usage".to_string() },
            ParameterValue { name: "comparison".to_string(), value: ">".to_string() },
            ParameterValue { name: "value".to_string(), value: "min_usage".to_string() },
        ],
        thresholds: vec![Threshold {
            name: "min_usage".to_string(),
            data_type: "numeric".to_string(),
            value: "80".to_string(),
        }],
        entity_type: "server".to_string(),
        granularity: Duration::from_secs(900),
        weight: 10,
        enabled: true,
    }
}

#[test]
fn test_template_get_parameter() {
    let found = test_template().get_parameter("comparison");
    match found {
        Some(p) => {
            assert_eq!(p.name, "comparison");
            assert_eq!(p.parameter_type, ParameterType::Default);
        }
        None => panic!("parameter not found"),
    }
    assert!(test_template().get_parameter("missing").is_none());
}

#[test]
fn test_templated_trigger_from_full_keeps_thresholds() {
    let full = full_trigger();
    let templated = TemplatedTrigger::from_full(full.clone());
    assert_eq!(templated.name, "Test Trigger 1");
    assert_eq!(templated.parameters.len(), 3);
    assert_eq!(templated.parameters[2].value, "min_usage");
    assert!(templated.parameters[2].data_type.is_none());
    let thresholds = templated.thresholds.clone().unwrap();
    assert_eq!(thresholds.len(), 1);
    assert_eq!(thresholds[0].value, "80");
    let back = FullTemplatedTrigger::from_templated(templated);
    assert_eq!(back.thresholds.len(), 1);
    assert_eq!(back.thresholds[0].name, "min_usage");
    assert_eq!(back.parameters.len(), 3);
    assert_eq!(back.parameters[0].value, "cpu_usage");
}

#[test]
fn test_template_error_wrapping() {
    let e = TriggerTemplateError::from_database_error(DatabaseError::from_msg("boom".to_string()));
    assert!(matches!(e, TriggerTemplateError::DatabaseError(DatabaseError::Default(ref m)) if m == "boom"));
    let e = TriggerTemplateError::from_trigger_error(TriggerError::DatabaseError(
        DatabaseError::from_msg("lost".to_string()),
    ));
    assert!(matches!(e, TriggerTemplateError::DatabaseError(DatabaseError::Default(ref m)) if m == "lost"));
    let e = TriggerTemplateError::from_trigger_error(TriggerError::Other("odd".to_string()));
    assert!(matches!(e, TriggerTemplateError::TriggerError(TriggerError::Other(ref m)) if m == "odd"));
}

#[test]
fn test_create_trigger_from_lookups_builds_trigger() {
    let full = full_trigger();
    let lookups = vec![vec!["hub_node_main_15m".to_string()]];
    match full.create_trigger_from_lookups(false, &lookups) {
        Ok(t) => {
            assert_eq!(t.name, "Test Trigger 1");
            assert_eq!(t.weight, "10");
            assert_eq!(t.description, "A test trigger");
            assert_eq!(t.notification_store, "template-trigger-notification");
            assert_eq!(t.thresholds.len(), 1);
            assert_eq!(t.trend_store_links.len(), 1);
            assert_eq!(t.trend_store_links[0].part_name, "hub_node_main_15m");
            assert_eq!(t.trend_store_links[0].mapping_function, "mapping_id");
            assert!(t.tags.is_empty());
            assert!(t.enabled);
        }
        Err(_) => panic!("trigger not built"),
    }
}

#[test]
fn test_create_trigger_from_lookups_errors() {
    let full = full_trigger();
    let one = vec![vec!["hub_node_main_15m".to_string()]];
    assert!(matches!(
        full.create_trigger_from_lookups(true, &one),
        Err(TriggerTemplateError::TriggerExists(ref n)) if n == "Test Trigger 1"
    ));
    let none: Vec<Vec<String>> = vec![vec![]];
    assert!(matches!(
        full.create_trigger_from_lookups(false, &none),
        Err(TriggerTemplateError::NoCounter(ref n)) if n == "cpu_usage"
    ));
    let two = vec![vec!["a".to_string(), "b".to_string()]];
    assert!(matches!(
        full.create_trigger_from_lookups(false, &two),
        Err(TriggerTemplateError::CounterNotUnique(ref n)) if n == "cpu_usage"
    ));
    let mut missing = full_trigger();
    missing.thresholds = vec![];
    assert!(matches!(
        missing.create_trigger_from_lookups(false, &one),
        Err(TriggerTemplateError::MissingThreshold(ref n)) if n == "min_usage"
    ));
}
