use minerva::attribute_materialization::{AttributeMaterialization, AttributeMaterializationTarget};
use minerva::attribute_store::{Attribute, AttributeStore, EntityIdType};
use minerva::change::Change;
use minerva::entity_type::EntityType;
use minerva::graph::GraphNode;
use minerva::instance::{
    custom_action, is_executable_mode, CustomAction, DiffOptions, InitStep, InstanceConfig,
    InstanceConfigLoadError, MinervaInstance, RetentionConfig, TrendStore, TrendStorePart,
};
use minerva::relation::Relation;
use minerva::time::Duration;
use minerva::trend_store_change::{Trend, TrendStoreDiffOptions};
use minerva::trend_materialization::{
    TrendMaterialization, TrendMaterializationSource, TrendMaterializationTrendSource,
    TrendViewMaterialization,
};
use minerva::virtual_entity::VirtualEntity;
use petgraph::graph::Graph;
use serde_json::Value;

fn empty_instance() -> MinervaInstance {
    MinervaInstance {
        instance_root: None,
        entity_types: vec![],
        trend_stores: vec![],
        attribute_stores: vec![],
        virtual_entities: vec![],
        relations: vec![],
        trend_materializations: vec![],
        attribute_materializations: vec![],
        triggers: vec![],
    }
}

fn trend_store(granularity: u64, part: &str) -> TrendStore {
    TrendStore {
        data_source: "hub".to_string(),
        entity_type: "node".to_string(),
        granularity: Duration::from_secs(granularity),
        parts: vec![TrendStorePart { name: part.to_string(), trends: vec![trend("outside_temp", "numeric")] }],
    }
}

fn trend(name: &str, data_type: &str) -> Trend {
    Trend { name: name.to_string(), data_type: data_type.to_string(), extra_data: "{}".to_string() }
}

fn attribute(name: &str) -> Attribute {
    Attribute {
        name: name.to_string(),
        data_type: "text".to_string(),
        description: String::new(),
        extra_data: Value::Null,
    }
}

fn attribute_store(attributes: Vec<Attribute>) -> AttributeStore {
    AttributeStore {
        data_source: "hub".to_string(),
        entity_type: "node".to_string(),
        attributes,
        entity_id_type: EntityIdType::I32,
    }
}

fn materialization(target: &str, source: &str) -> TrendMaterialization {
    TrendMaterialization::View(TrendViewMaterialization {
        target_trend_store_part: target.to_string(),
        enabled: true,
        processing_delay: Duration::from_secs(60),
        stability_delay: Duration::from_secs(60),
        old_data_stability_delay: None,
        old_data_threshold: None,
        reprocessing_period: Duration::from_secs(3600),
        sources: vec![TrendMaterializationSource::Trend(TrendMaterializationTrendSource {
            trend_store_part: source.to_string(),
            mapping_function: "trend.mapping_id".to_string(),
        })],
        view: "SELECT 1".to_string(),
        fingerprint_function: "SELECT now()".to_string(),
        description: None,
    })
}

fn names(g: &Graph<GraphNode, String>) -> Vec<String> {
    g.node_indices().map(|i| g[i].to_display_string()).collect()
}

fn edges(g: &Graph<GraphNode, String>) -> Vec<(usize, usize)> {
    g.edge_indices()
        .map(|e| {
            let (s, t) = g.edge_endpoints(e).unwrap();
            (s.index(), t.index())
        })
        .collect()
}

#[test]
fn instance_dependency_graph() {
    let mut inst = empty_instance();
    inst.entity_types.push(EntityType { name: "node".to_string(), primary_alias: None });
    inst.trend_stores.push(trend_store(900, "hub_node_main_15m"));
    inst.trend_stores.push(trend_store(3600, "hub_node_main_1h"));
    inst.attribute_stores.push(attribute_store(vec![attribute("name")]));
    inst.relations.push(Relation { name: "node->site".to_string(), query: "SELECT".to_string() });
    inst.trend_materializations.push(materialization("hub_node_main_1h", "hub_node_main_15m"));
    inst.attribute_materializations.push(AttributeMaterialization {
        attribute_store: AttributeMaterializationTarget {
            data_source: "hub".to_string(),
            entity_type: "node".to_string(),
        },
        query: "SELECT".to_string(),
    });
    inst.virtual_entities.push(VirtualEntity { name: "site".to_string(), sql: "SELECT".to_string() });
    let relation_tables = vec![Some(vec!["entity.node".to_string(), "entity.site".to_string()])];
    let attribute_tables = vec![Some(vec!["entity.node".to_string()])];
    let virtual_tables = vec![Some(vec!["entity.node".to_string()])];
    let g = inst.dependency_graph(&relation_tables, &attribute_tables, &virtual_tables);
    assert_eq!(
        names(&g),
        vec![
            "Table(entity.node)",
            "TrendStorePart(hub_node_main_15m)",
            "TrendStorePart(hub_node_main_1h)",
            "AttributeStore(hub_node)",
            "Relation(node->site)",
            "Table(entity.site)",
            "TrendViewMaterialization(hub_node_main_1h)",
            "AttributeMaterialization(hub_node)",
            "VirtualEntity(site)",
        ]
    );
    assert_eq!(edges(&g), vec![(4, 0), (4, 5), (2, 6), (6, 1), (3, 7), (7, 0), (5, 8), (8, 0)]);
}

#[test]
fn instance_dependency_graph_unreadable_query() {
    let mut inst = empty_instance();
    inst.relations.push(Relation { name: "r".to_string(), query: "garbage".to_string() });
    let g = inst.dependency_graph(&vec![None], &vec![], &vec![]);
    assert_eq!(names(&g), vec!["Relation(r)"]);
    assert!(edges(&g).is_empty());
}

fn change_kind(c: &Change) -> &'static str {
    match c {
        Change::AddTrendStore(_) => "AddTrendStore",
        Change::AddAttributeStore(_) => "AddAttributeStore",
        Change::AddAttributeStoreAttributes(_) => "AddAttributeStoreAttributes",
        Change::RemoveAttributes(_) => "RemoveAttributes",
        Change::AddTrendMaterialization(_) => "AddTrendMaterialization",
        Change::RemoveTrendMaterialization(_) => "RemoveTrendMaterialization",
        Change::UpdateView(_) => "UpdateView",
        _ => "other",
    }
}

#[test]
fn instance_diff_orders_changes() {
    let mut mine = empty_instance();
    mine.trend_stores.push(trend_store(900, "hub_node_main_15m"));
    mine.attribute_stores.push(attribute_store(vec![attribute("name")]));
    mine.trend_materializations.push(materialization("old_target", "hub_node_main_15m"));
    let mut other = empty_instance();
    other.trend_stores.push(trend_store(900, "hub_node_main_15m"));
    other.trend_stores.push(trend_store(3600, "hub_node_main_1h"));
    other.attribute_stores.push(attribute_store(vec![attribute("name"), attribute("vendor")]));
    other.trend_materializations.push(materialization("hub_node_main_1h", "hub_node_main_15m"));
    let options = DiffOptions { ignore_trend_extra_data: false, ignore_trend_data_type: false, ignore_deletions: false };
    let changes = mine.diff(&other, options, &vec![]);
    let kinds: Vec<&str> = changes.iter().map(change_kind).collect();
    assert_eq!(
        kinds,
        vec!["AddTrendStore", "AddAttributeStoreAttributes", "AddTrendMaterialization", "RemoveTrendMaterialization"]
    );
    match &changes[0] {
        Change::AddTrendStore(c) => assert_eq!(c.trend_store.parts[0].name, "hub_node_main_1h"),
        _ => unreachable!(),
    }
    match &changes[3] {
        Change::RemoveTrendMaterialization(c) => assert_eq!(c.name, "old_target"),
        _ => unreachable!(),
    }
}

#[test]
fn instance_diff_with_itself_is_empty() {
    let mut inst = empty_instance();
    inst.trend_stores.push(trend_store(900, "hub_node_main_15m"));
    inst.attribute_stores.push(attribute_store(vec![attribute("name"), attribute("vendor")]));
    inst.trend_materializations.push(materialization("hub_node_main_1h", "hub_node_main_15m"));
    let options = DiffOptions { ignore_trend_extra_data: false, ignore_trend_data_type: false, ignore_deletions: false };
    let analysis = vec![("SELECT 1".to_string(), "fp1".to_string())];
    assert!(inst.diff(&inst, options, &analysis).is_empty());
}

#[test]
fn instance_diff_uses_fingerprints() {
    let mut mine = empty_instance();
    mine.trend_materializations.push(materialization("t", "s"));
    let mut other = empty_instance();
    let mut changed = materialization("t", "s");
    if let TrendMaterialization::View(v) = &mut changed {
        v.view = "SELECT 2".to_string();
    }
    other.trend_materializations.push(changed);
    let options = DiffOptions { ignore_trend_extra_data: false, ignore_trend_data_type: false, ignore_deletions: true };
    let analysis = vec![
        ("SELECT 1".to_string(), "fp1".to_string()),
        ("SELECT 2".to_string(), "fp2".to_string()),
    ];
    let changes = mine.diff(&other, options, &analysis);
    let kinds: Vec<&str> = changes.iter().map(change_kind).collect();
    assert_eq!(kinds, vec!["UpdateView"]);
    let same = vec![
        ("SELECT 1".to_string(), "fp".to_string()),
        ("SELECT 2".to_string(), "fp".to_string()),
    ];
    let options = DiffOptions { ignore_trend_extra_data: false, ignore_trend_data_type: false, ignore_deletions: true };
    assert!(mine.diff(&other, options, &same).is_empty());
}

#[test]
fn retention_lookup() {
    let mut config = InstanceConfig::default();
    assert_eq!(config.granularity_to_retention(Duration::from_secs(900)), None);
    config.retention = Some(vec![
        RetentionConfig { granularity: Duration::from_secs(900), retention_period: Duration::from_secs(86400) },
        RetentionConfig { granularity: Duration::from_secs(3600), retention_period: Duration::from_secs(604800) },
        RetentionConfig { granularity: Duration::from_secs(900), retention_period: Duration::from_secs(1) },
    ]);
    assert_eq!(config.granularity_to_retention(Duration::from_secs(900)), Some(Duration::from_secs(86400)));
    assert_eq!(config.granularity_to_retention(Duration::from_secs(3600)), Some(Duration::from_secs(604800)));
    assert_eq!(config.granularity_to_retention(Duration::from_secs(60)), None);
    let r = RetentionConfig::default();
    assert_eq!(r.granularity, Duration::from_secs(0));
}

fn step_text(s: &InitStep) -> String {
    match s {
        InitStep::Custom(p) => format!("custom {p}"),
        InitStep::AttributeStores => "attribute stores".to_string(),
        InitStep::TrendStores => "trend stores".to_string(),
        InitStep::NotificationStores => "notification stores".to_string(),
        InitStep::VirtualEntities => "virtual entities".to_string(),
        InitStep::Relations => "relations".to_string(),
        InitStep::TrendMaterializations => "trend materializations".to_string(),
        InitStep::AttributeMaterializations => "attribute materializations".to_string(),
        InitStep::Triggers => "triggers".to_string(),
    }
}

#[test]
fn initialization_steps_without_root() {
    let steps: Vec<String> = empty_instance().initialization_steps().iter().map(step_text).collect();
    assert_eq!(
        steps,
        vec![
            "attribute stores",
            "trend stores",
            "notification stores",
            "virtual entities",
            "relations",
            "trend materializations",
            "attribute materializations",
            "triggers",
        ]
    );
}

#[test]
fn initialization_steps_with_root() {
    let mut inst = empty_instance();
    inst.instance_root = Some("/inst".to_string());
    let steps: Vec<String> = inst.initialization_steps().iter().map(step_text).collect();
    assert_eq!(steps.len(), 14);
    assert_eq!(steps[0], "custom /inst/custom/pre-init/**/*");
    assert_eq!(steps[3], "custom /inst/custom/pre-notification-init/**/*");
    assert_eq!(steps[6], "custom /inst/custom/pre-relation-init/**/*");
    assert_eq!(steps[8], "custom /inst/custom/pre-materialization-init/**/*");
    assert_eq!(steps[11], "custom /inst/custom/pre-trigger-init/**/*");
    assert_eq!(steps[12], "triggers");
    assert_eq!(steps[13], "custom /inst/custom/post-init/**/*");
}

#[test]
fn custom_actions() {
    assert_eq!(custom_action(true, Some("sql")), CustomAction::ReportDirectory);
    assert_eq!(custom_action(false, Some("sql")), CustomAction::ExecuteSql);
    assert_eq!(custom_action(false, Some("psql")), CustomAction::ExecutePsql);
    assert_eq!(custom_action(false, Some("sh")), CustomAction::ExecuteIfExecutable);
    assert_eq!(custom_action(false, None), CustomAction::ReportNoExtension);
    assert!(is_executable_mode(0o755));
    assert!(is_executable_mode(0o001));
    assert!(!is_executable_mode(0o644));
}

#[test]
fn config_load_errors() {
    assert_eq!(
        InstanceConfigLoadError::NoSuchFile("/x/config.json".to_string()).to_display_string(),
        "No such config file '/x/config.json'"
    );
    assert_eq!(InstanceConfigLoadError::FileOpen("denied".to_string()).to_display_string(), "Could not open file: denied");
    assert_eq!(
        InstanceConfigLoadError::Deserialize("bad".to_string()).to_display_string(),
        "Could not deserialize config: bad"
    );
}

#[test]
fn instance_diff_compares_matching_trend_stores() {
    let mut mine = empty_instance();
    mine.trend_stores.push(trend_store(900, "hub_node_main_15m"));
    let mut other = empty_instance();
    let mut store = trend_store(900, "hub_node_main_15m");
    store.parts[0].trends[0].data_type = "bigint".to_string();
    store.parts[0].trends.push(trend("inside_temp", "numeric"));
    store.parts.push(TrendStorePart { name: "hub_node_extra_15m".to_string(), trends: vec![] });
    other.trend_stores.push(store);
    let options = DiffOptions { ignore_trend_extra_data: false, ignore_trend_data_type: false, ignore_deletions: false };
    let changes = mine.diff(&other, options, &vec![]);
    assert_eq!(changes.len(), 3);
    match &changes[0] {
        Change::AddTrends(c) => {
            assert_eq!(c.trend_store_part_name, "hub_node_main_15m");
            assert_eq!(c.trends.len(), 1);
            assert_eq!(c.trends[0].name, "inside_temp");
        }
        _ => panic!("expected AddTrends"),
    }
    match &changes[1] {
        Change::ModifyTrendDataTypes(c) => {
            assert_eq!(c.modifications.len(), 1);
            assert_eq!(c.modifications[0].trend_name, "outside_temp");
            assert_eq!(c.modifications[0].from_type, "numeric");
            assert_eq!(c.modifications[0].to_type, "bigint");
            assert_eq!(c.total_trend_count, 2);
        }
        _ => panic!("expected ModifyTrendDataTypes"),
    }
    match &changes[2] {
        Change::AddTrendStorePart(c) => assert_eq!(c.trend_store_part.name, "hub_node_extra_15m"),
        _ => panic!("expected AddTrendStorePart"),
    }
    let ignoring = DiffOptions { ignore_trend_extra_data: false, ignore_trend_data_type: true, ignore_deletions: false };
    assert_eq!(mine.diff(&other, ignoring, &vec![]).len(), 2);
}

#[test]
fn trend_store_diff_removes_trends_and_parts() {
    let mut mine = trend_store(900, "hub_node_main_15m");
    mine.parts[0].trends[0].extra_data = "{\"a\": 1}".to_string();
    mine.parts[0].trends.push(trend("old_trend", "text"));
    mine.parts.push(TrendStorePart { name: "hub_node_gone_15m".to_string(), trends: vec![] });
    let other = trend_store(900, "hub_node_main_15m");
    let all = TrendStoreDiffOptions { ignore_trend_extra_data: false, ignore_trend_data_type: false, ignore_deletions: false };
    let changes = mine.diff(&other, all);
    assert_eq!(changes.len(), 3);
    match &changes[0] {
        Change::RemoveTrends(c) => assert_eq!(c.trends, vec!["old_trend".to_string()]),
        _ => panic!("expected RemoveTrends"),
    }
    match &changes[1] {
        Change::ModifyTrendExtraData(c) => {
            assert_eq!(c.trend_name, "outside_temp");
            assert_eq!(c.to_extra_data, "{}");
        }
        _ => panic!("expected ModifyTrendExtraData"),
    }
    match &changes[2] {
        Change::RemoveTrendStorePart(c) => assert_eq!(c.name, "hub_node_gone_15m"),
        _ => panic!("expected RemoveTrendStorePart"),
    }
    let keep = TrendStoreDiffOptions { ignore_trend_extra_data: true, ignore_trend_data_type: false, ignore_deletions: true };
    assert!(mine.diff(&other, keep).is_empty());
    assert!(mine.diff(&mine, all).is_empty());
}

#[test]
fn change_texts() {
    let mut mine = trend_store(900, "hub_node_main_15m");
    mine.parts[0].trends.push(trend("old_trend", "text"));
    let other = trend_store(900, "hub_node_main_15m");
    let all = TrendStoreDiffOptions { ignore_trend_extra_data: false, ignore_trend_data_type: false, ignore_deletions: false };
    let changes = mine.diff(&other, all);
    assert_eq!(changes[0].to_display_string(), "RemoveTrends(TrendStorePart(hub_node_main_15m), 1):\n - old_trend\n");
    let mut inst = empty_instance();
    let empty = empty_instance();
    inst.trend_stores.push(trend_store(900, "hub_node_main_15m"));
    let options = DiffOptions { ignore_trend_extra_data: false, ignore_trend_data_type: false, ignore_deletions: false };
    let added = empty.diff(&inst, options, &vec![]);
    assert_eq!(added[0].to_display_string(), "AddTrendStore(TrendStore(hub, node, 15m))\n - hub_node_main_15m\n");
}
