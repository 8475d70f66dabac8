use vstd::prelude::*;

use petgraph::graph::Graph;

use crate::attribute_materialization::{target_text, AttributeMaterialization};
use crate::attribute_store::{
    attribute_names, attribute_store_changes, attributes_view, lemma_attribute_store_diff_self, AddAttributeStore, AttributeStore,
    AttributeStoreDiffOptions,
};
use crate::change::{append_changes, changes_view, push_change, Change, ChangeView};
use crate::dependency::{
    build_wf, lemma_registered_wf, lemma_with_edge_wf, lemma_with_node_wf, entity_phase,
    lemma_link_tables_wf, lemma_table_index_wf, link_tables, materialization_phase, object_phase,
    reader_phase, registered, relation_phase, sources_phase, table_index, weightless, GraphBuild,
    GraphBuilder, lemma_extends_trans, lemma_materialization_phase_links, lemma_reader_phase_extends,
    lemma_relation_phase_registers, source_table_name,
};
use crate::entity_type::EntityType;
use crate::graph::{graph_edges, graph_nodes, GraphNode, GraphNodeView, NodeKind};
use crate::relation::Relation;
use crate::text::{lowercased, same_text, strings_view};
use crate::trend_store_change::{
    lemma_trend_store_diff_self, parts_view, trend_store_diff, trend_store_names_distinct,
    duplicate_parts, Trend, TrendStoreDiffOptions, TrendStorePartView,
};
use crate::time::Duration;
use crate::trend_materialization::{
    analysed_text, materialization_changes, materialization_name, AddTrendMaterialization,
    RemoveTrendMaterialization, sources_view, SourceView, TrendMaterialization, TrendMaterializationSource,
    TrendMaterializationView,
};
use crate::trigger::Trigger;
use crate::virtual_entity::VirtualEntity;

verus! {

/// How the data of a relation's target entities is aggregated.
#[derive(Clone, Copy, Debug, PartialEq, Eq, Structural)]
pub enum AggregationType {
    View,
    ViewMaterialization,
    FunctionMaterialization,
    Suppress,
}

/// Options of the comparison of two instances.
#[derive(Clone, Copy)]
pub struct DiffOptions {
    pub ignore_trend_extra_data: bool,
    pub ignore_trend_data_type: bool,
    pub ignore_deletions: bool,
}

/// A hint on how to aggregate along a relation.
pub struct EntityAggregationHint {
    pub relation: String,
    pub materialization_type: AggregationType,
    pub prefix: Option<String>,
}

/// The Docker image of an instance, and the path it is built from.
pub struct InstanceDockerImage {
    pub image_name: String,
    pub image_tag: String,
    pub path: String,
}

/// How long the data of one granularity is kept.
pub struct RetentionConfig {
    pub granularity: Duration,
    pub retention_period: Duration,
}

impl Default for RetentionConfig {
    fn default() -> (r: RetentionConfig)
        ensures
            r.granularity@ == (0nat, 0nat),
            r.retention_period@ == (0nat, 0nat),
    {
        RetentionConfig { granularity: Duration::from_secs(0), retention_period: Duration::from_secs(0) }
    }
}

/// The configuration of an instance.
pub struct InstanceConfig {
    pub docker_image: Option<InstanceDockerImage>,
    pub entity_aggregation_hints: Vec<EntityAggregationHint>,
    pub entity_types: Vec<String>,
    pub retention: Option<Vec<RetentionConfig>>,
    pub old_data_threshold: Duration,
    pub old_data_stability_delay: Duration,
}

impl Default for InstanceConfig {
    fn default() -> (r: InstanceConfig)
        ensures
            r.docker_image is None,
            r.entity_aggregation_hints@.len() == 0,
            r.entity_types@.len() == 0,
            r.retention is None,
            r.old_data_threshold@ == (0nat, 0nat),
            r.old_data_stability_delay@ == (0nat, 0nat),
    {
        InstanceConfig {
            docker_image: None,
            entity_aggregation_hints: Vec::new(),
            entity_types: Vec::new(),
            retention: None,
            old_data_threshold: Duration::from_secs(0),
            old_data_stability_delay: Duration::from_secs(0),
        }
    }
}

/// The retention period of the first retention setting for `granularity`, if there is
/// one.
pub open spec fn retention_for(configs: Seq<RetentionConfig>, granularity: Duration) -> Option<
    Duration,
>
    decreases configs.len(),
{
    if configs.len() == 0 {
        None
    } else if configs[0].granularity == granularity {
        Some(configs[0].retention_period)
    } else {
        retention_for(configs.drop_first(), granularity)
    }
}

impl InstanceConfig {
    /// The retention period that the configuration sets for data of `granularity`: that
    /// of the first retention setting for it, or none when there is none or the
    /// configuration sets no retention.
    pub fn granularity_to_retention(&self, granularity: Duration) -> (r: Option<Duration>)
        ensures
            r == match self.retention {
                Some(l) => retention_for(l@, granularity),
                None => None,
            },
    {
        match &self.retention {
            Some(l) => {
                let mut i: usize = 0;
                assert(l@.skip(0) =~= l@);
                while i < l.len()
                    invariant
                        i <= l.len(),
                        self.retention == Some(*l),
                        retention_for(l@, granularity) == retention_for(l@.skip(i as int), granularity),
                    decreases l.len() - i,
                {
                    assert(l@.skip(i as int).drop_first() =~= l@.skip(i + 1));
                    assert(l@.skip(i as int)[0] == l@[i as int]);
                    assert(l@.skip(i as int).len() > 0);
                    if l[i].granularity.same_as(&granularity) {
                        return Some(l[i].retention_period);
                    }
                    i = i + 1;
                }
                None
            },
            None => None,
        }
    }
}

/// Errors in loading the configuration of an instance.
pub enum InstanceConfigLoadError {
    NoSuchFile(String),
    FileOpen(String),
    Deserialize(String),
}

impl InstanceConfigLoadError {
    /// The message of the error.
    pub fn to_display_string(&self) -> (r: String)
        ensures
            r@ == match self {
                InstanceConfigLoadError::NoSuchFile(p) => "No such config file '"@ + p@ + "'"@,
                InstanceConfigLoadError::FileOpen(m) => "Could not open file: "@ + m@,
                InstanceConfigLoadError::Deserialize(m) => "Could not deserialize config: "@ + m@,
            },
    {
        proof {
            reveal_strlit("No such config file '");
            reveal_strlit("'");
            reveal_strlit("Could not open file: ");
            reveal_strlit("Could not deserialize config: ");
        }
        match self {
            InstanceConfigLoadError::NoSuchFile(p) => {
                let mut s = "No such config file '".to_owned();
                s.append(p.as_str());
                s.append("'");
                s
            },
            InstanceConfigLoadError::FileOpen(m) => {
                let mut s = "Could not open file: ".to_owned();
                s.append(m.as_str());
                s
            },
            InstanceConfigLoadError::Deserialize(m) => {
                let mut s = "Could not deserialize config: ".to_owned();
                s.append(m.as_str());
                s
            },
        }
    }
}

/// A part of a trend store: the table that holds its trends.
pub struct TrendStorePart {
    pub name: String,
    pub trends: Vec<Trend>,
}

/// A trend store: trends of one entity type from one data source, at one granularity,
/// kept in parts.
pub struct TrendStore {
    pub data_source: String,
    pub entity_type: String,
    pub granularity: Duration,
    pub parts: Vec<TrendStorePart>,
}

/// The names of trend store parts, in order.
pub open spec fn part_name_list(parts: Seq<TrendStorePart>) -> Seq<Seq<char>> {
    parts.map_values(|p: TrendStorePart| p.name@)
}

/// The names of the parts of a list of trend stores, store by store and part by part.
pub open spec fn part_names(stores: Seq<TrendStore>) -> Seq<Seq<char>>
    decreases stores.len(),
{
    if stores.len() == 0 {
        Seq::empty()
    } else {
        part_names(stores.drop_last()) + part_name_list(stores.last().parts@)
    }
}

/// The definition of an instance: its objects.
pub struct MinervaInstance {
    pub instance_root: Option<String>,
    pub entity_types: Vec<EntityType>,
    pub trend_stores: Vec<TrendStore>,
    pub attribute_stores: Vec<AttributeStore>,
    pub virtual_entities: Vec<VirtualEntity>,
    pub relations: Vec<Relation>,
    pub trend_materializations: Vec<TrendMaterialization>,
    pub attribute_materializations: Vec<AttributeMaterialization>,
    pub triggers: Vec<Trigger>,
}

/// The table names that an SQL query reads, or none when the query could not be read.
pub open spec fn opt_tables_view(t: Option<Vec<String>>) -> Option<Seq<Seq<char>>> {
    match t {
        Some(v) => Some(strings_view(v@)),
        None => None,
    }
}

/// The names of objects, each with the tables its query reads.
pub open spec fn readers_input(names: Seq<Seq<char>>, tables: Seq<Option<Vec<String>>>) -> Seq<
    (Seq<char>, Option<Seq<Seq<char>>>),
> {
    Seq::new(names.len(), |i: int| (names[i], opt_tables_view(tables[i])))
}

/// The node kind, target and sources of a trend materialization.
pub open spec fn materialization_summary(m: TrendMaterializationView) -> (NodeKind, Seq<char>, Seq<SourceView>) {
    match m {
        TrendMaterializationView::View(v) => (NodeKind::TrendViewMaterialization, v.target_trend_store_part, v.sources),
        TrendMaterializationView::Function(f) => (
            NodeKind::TrendFunctionMaterialization,
            f.target_trend_store_part,
            f.sources,
        ),
    }
}

/// The summaries of a list of trend materializations.
pub open spec fn materializations_summary(ms: Seq<TrendMaterialization>) -> Seq<(NodeKind, Seq<char>, Seq<SourceView>)> {
    ms.map_values(|m: TrendMaterialization| materialization_summary(m@))
}

/// The names of the tables of attribute stores: `data_source_entity_type`.
pub open spec fn store_names(stores: Seq<AttributeStore>) -> Seq<Seq<char>> {
    stores.map_values(|s: AttributeStore| s.data_source@ + "_"@ + s.entity_type@)
}

/// The build of an instance's dependency graph up to its trend materializations:
/// entity tables, trend store parts, attribute stores and relations with the tables
/// they read.
pub open spec fn build_before_materializations(inst: MinervaInstance, relation_tables: Seq<Option<Vec<String>>>) -> GraphBuild {
    let empty = GraphBuild { nodes: Seq::empty(), edges: Seq::empty(), tables: Seq::empty() };
    let b1 = entity_phase(empty, inst.entity_types@.map_values(|e: EntityType| e.name@));
    let b2 = object_phase(b1, NodeKind::TrendStorePart, "trend."@, part_names(inst.trend_stores@));
    let b3 = object_phase(b2, NodeKind::AttributeStore, "attribute."@, store_names(inst.attribute_stores@));
    relation_phase(
        b3,
        readers_input(inst.relations@.map_values(|r: Relation| r.name@), relation_tables),
    )
}

/// The complete build of an instance's dependency graph, given the tables that the
/// queries of its relations, attribute materializations and virtual entities read.
pub open spec fn dependency_build(
    inst: MinervaInstance,
    relation_tables: Seq<Option<Vec<String>>>,
    attribute_materialization_tables: Seq<Option<Vec<String>>>,
    virtual_entity_tables: Seq<Option<Vec<String>>>,
) -> GraphBuild {
    let b4 = build_before_materializations(inst, relation_tables);
    let b5 = materialization_phase(b4, materializations_summary(inst.trend_materializations@));
    let b6 = reader_phase(
        b5,
        NodeKind::AttributeMaterialization,
        "attribute."@,
        readers_input(
            inst.attribute_materializations@.map_values(
                |m: AttributeMaterialization| target_text(m.attribute_store@),
            ),
            attribute_materialization_tables,
        ),
    );
    reader_phase(
        b6,
        NodeKind::VirtualEntity,
        "entity."@,
        readers_input(inst.virtual_entities@.map_values(|v: VirtualEntity| v.name@), virtual_entity_tables),
    )
}

/// Whether the trend store part of each trend materialization, and of each of its trend
/// sources, is registered in `tables`.
pub open spec fn materializations_resolvable(
    tables: Seq<(Seq<char>, usize)>,
    ms: Seq<(NodeKind, Seq<char>, Seq<SourceView>)>,
) -> bool {
    forall|k: int|
        0 <= k < ms.len() ==> {
            &&& table_index(tables, "trend."@ + (#[trigger] ms[k]).1) is Some
            &&& forall|j: int|
                0 <= j < ms[k].2.len() ==> (#[trigger] ms[k].2[j] matches SourceView::Trend {
                    trend_store_part,
                    ..
                } ==> table_index(tables, "trend."@ + trend_store_part) is Some)
        }
}

/// Builds `prefix + name` as a string.
fn prefixed(prefix: &str, name: &str) -> (r: String)
    ensures
        r@ == prefix@ + name@,
{
    let mut s = prefix.to_owned();
    s.append(name);
    s
}

/// Adds a table node for each entity type, registered as `entity.<name>`.
fn add_entity_tables(b: &mut GraphBuilder, entity_types: &Vec<EntityType>)
    requires
        build_wf(old(b)@),
    ensures
        final(b)@ == entity_phase(old(b)@, entity_types@.map_values(|e: EntityType| e.name@)),
        build_wf(final(b)@),
{
    let ghost start = b@;
    let ghost names = entity_types@.map_values(|e: EntityType| e.name@);
    let mut i: usize = 0;
    while i < entity_types.len()
        invariant
            i <= entity_types.len(),
            names == entity_types@.map_values(|e: EntityType| e.name@),
            b@ == entity_phase(start, names.take(i as int)),
            build_wf(b@),
        decreases entity_types.len() - i,
    {
        assert(names.take(i + 1).drop_last() =~= names.take(i as int));
        assert(names.take(i + 1).last() == entity_types@[i as int].name@);
        proof {
            reveal_strlit("entity.");
        }
        let key = prefixed("entity.", entity_types[i].name.as_str());
        proof {
            lemma_registered_wf(b@, (NodeKind::Table, key@), key@);
        }
        b.add_registered(GraphNode::Table(key.clone()), key);
        i = i + 1;
    }
    assert(names.take(entity_types.len() as int) =~= names);
}

/// Adds a node for each part of each trend store, registered as `trend.<name>`.
fn add_trend_store_parts(b: &mut GraphBuilder, stores: &Vec<TrendStore>)
    requires
        build_wf(old(b)@),
    ensures
        final(b)@ == object_phase(old(b)@, NodeKind::TrendStorePart, "trend."@, part_names(stores@)),
        build_wf(final(b)@),
{
    let ghost start = b@;
    proof {
        reveal_strlit("trend.");
    }
    let mut i: usize = 0;
    while i < stores.len()
        invariant
            i <= stores.len(),
            b@ == object_phase(start, NodeKind::TrendStorePart, "trend."@, part_names(stores@.take(i as int))),
            build_wf(b@),
        decreases stores.len() - i,
    {
        let parts = &stores[i].parts;
        let ghost before = part_names(stores@.take(i as int));
        let ghost pn = part_name_list(parts@);
        assert(stores@.take(i + 1).drop_last() =~= stores@.take(i as int));
        assert(stores@.take(i + 1).last() == stores@[i as int]);
        assert(part_names(stores@.take(i + 1)) == before + pn);
        let mut j: usize = 0;
        assert(before + pn.take(0) =~= before);
        while j < parts.len()
            invariant
                j <= parts.len(),
                pn == part_name_list(parts@),
                b@ == object_phase(start, NodeKind::TrendStorePart, "trend."@, before + pn.take(j as int)),
                build_wf(b@),
            decreases parts.len() - j,
        {
            assert((before + pn.take(j + 1)).drop_last() =~= before + pn.take(j as int));
            assert((before + pn.take(j + 1)).last() == parts@[j as int].name@);
            let key = prefixed("trend.", parts[j].name.as_str());
            proof {
                lemma_registered_wf(b@, (NodeKind::TrendStorePart, parts@[j as int].name@), key@);
            }
            b.add_registered(GraphNode::TrendStorePart(parts[j].name.clone()), key);
            j = j + 1;
        }
        assert(pn.take(parts.len() as int) =~= pn);
        i = i + 1;
    }
    assert(stores@.take(stores.len() as int) =~= stores@);
}

/// Adds a node for each attribute store, registered as `attribute.<table name>`.
fn add_attribute_stores(b: &mut GraphBuilder, stores: &Vec<AttributeStore>)
    requires
        build_wf(old(b)@),
    ensures
        final(b)@ == object_phase(old(b)@, NodeKind::AttributeStore, "attribute."@, store_names(stores@)),
        build_wf(final(b)@),
{
    let ghost start = b@;
    let ghost names = store_names(stores@);
    proof {
        reveal_strlit("attribute.");
        reveal_strlit("_");
    }
    let mut i: usize = 0;
    while i < stores.len()
        invariant
            i <= stores.len(),
            names == store_names(stores@),
            b@ == object_phase(start, NodeKind::AttributeStore, "attribute."@, names.take(i as int)),
            build_wf(b@),
        decreases stores.len() - i,
    {
        assert(names.take(i + 1).drop_last() =~= names.take(i as int));
        let mut name = stores[i].data_source.clone();
        name.append("_");
        name.append(stores[i].entity_type.as_str());
        assert(names.take(i + 1).last() == name@);
        let key = prefixed("attribute.", name.as_str());
        proof {
            lemma_registered_wf(b@, (NodeKind::AttributeStore, name@), key@);
        }
        b.add_registered(GraphNode::AttributeStore(name), key);
        i = i + 1;
    }
    assert(names.take(stores.len() as int) =~= names);
}

/// Adds a node for each relation, registered as `relation.<name>`, with an edge to each
/// table its query reads.
fn add_relations(b: &mut GraphBuilder, relations: &Vec<Relation>, tables: &Vec<Option<Vec<String>>>)
    requires
        build_wf(old(b)@),
        relations.len() == tables.len(),
    ensures
        final(b)@ == relation_phase(
            old(b)@,
            readers_input(relations@.map_values(|r: Relation| r.name@), tables@),
        ),
        build_wf(final(b)@),
{
    let ghost start = b@;
    let ghost input = readers_input(relations@.map_values(|r: Relation| r.name@), tables@);
    proof {
        reveal_strlit("relation.");
    }
    let mut i: usize = 0;
    while i < relations.len()
        invariant
            i <= relations.len(),
            relations.len() == tables.len(),
            input == readers_input(relations@.map_values(|r: Relation| r.name@), tables@),
            b@ == relation_phase(start, input.take(i as int)),
            build_wf(b@),
        decreases relations.len() - i,
    {
        assert(input.take(i + 1).drop_last() =~= input.take(i as int));
        assert(input.take(i + 1).last() == input[i as int]);
        let before = b.node_count();
        let key = prefixed("relation.", relations[i].name.as_str());
        proof {
            lemma_registered_wf(b@, (NodeKind::Relation, relations@[i as int].name@), key@);
        }
        b.add_registered(GraphNode::Relation(relations[i].name.clone()), key);
        match &tables[i] {
            Some(t) => {
                proof {
                    lemma_link_tables_wf(b@, before, strings_view(t@));
                }
                b.link_tables(before, t);
            },
            None => {},
        }
        i = i + 1;
    }
    assert(input.take(relations.len() as int) =~= input);
}

/// The key under which a source's table is registered.
fn source_key(source: &TrendMaterializationSource) -> (r: String)
    ensures
        r@ == match source@ {
            SourceView::Trend { trend_store_part, .. } => "trend."@ + trend_store_part,
            SourceView::Attribute { attribute_store } => "attribute."@ + attribute_store,
            SourceView::Relation { relation } => "relation."@ + relation,
        },
{
    proof {
        reveal_strlit("trend.");
        reveal_strlit("attribute.");
        reveal_strlit("relation.");
    }
    match source {
        TrendMaterializationSource::Trend(t) => prefixed("trend.", t.trend_store_part.as_str()),
        TrendMaterializationSource::Attribute(a) => prefixed("attribute.", a.attribute_store.as_str()),
        TrendMaterializationSource::Relation(r) => prefixed("relation.", r.relation.as_str()),
    }
}

/// Adds a node for each trend materialization, with an edge from its target trend
/// store part to it and an edge from it to each registered source.
fn add_trend_materializations(b: &mut GraphBuilder, ms: &Vec<TrendMaterialization>)
    requires
        build_wf(old(b)@),
    ensures
        final(b)@ == materialization_phase(old(b)@, materializations_summary(ms@)),
        build_wf(final(b)@),
{
    let ghost start = b@;
    let ghost input = materializations_summary(ms@);
    proof {
        reveal_strlit("trend.");
    }
    let mut i: usize = 0;
    while i < ms.len()
        invariant
            i <= ms.len(),
            input == materializations_summary(ms@),
            b@ == materialization_phase(start, input.take(i as int)),
            build_wf(b@),
        decreases ms.len() - i,
    {
        assert(input.take(i + 1).drop_last() =~= input.take(i as int));
        assert(input.take(i + 1).last() == input[i as int]);
        let ghost b0 = b@;
        let index = b.node_count();
        let (node, sources) = match &ms[i] {
            TrendMaterialization::View(m) => (
                GraphNode::TrendViewMaterialization(m.target_trend_store_part.clone()),
                &m.sources,
            ),
            TrendMaterialization::Function(m) => (
                GraphNode::TrendFunctionMaterialization(m.target_trend_store_part.clone()),
                &m.sources,
            ),
        };
        assert(input[i as int] == (node@.0, node@.1, sources_view(sources@)));
        let key = prefixed("trend.", node.name());
        proof {
            lemma_with_node_wf(b@, node@);
            lemma_table_index_wf(b@, key@);
        }
        b.add_node(node);
        match b.lookup(&key) {
            Some(s) => {
                proof {
                    lemma_with_edge_wf(b@, s, index);
                }
                b.add_edge(s, index);
            },
            None => {},
        }
        let ghost b2 = b@;
        let ghost sv = sources_view(sources@);
        let mut j: usize = 0;
        while j < sources.len()
            invariant
                j <= sources.len(),
                sv == sources_view(sources@),
                index < b2.nodes.len(),
                b@ == sources_phase(b2, index, sv.take(j as int)),
                build_wf(b@),
            decreases sources.len() - j,
        {
            assert(sv.take(j + 1).drop_last() =~= sv.take(j as int));
            assert(sv.take(j + 1).last() == sources@[j as int]@);
            let skey = source_key(&sources[j]);
            proof {
                lemma_table_index_wf(b@, skey@);
                lemma_sources_phase_nodes(b2, index, sv.take(j as int));
            }
            match b.lookup(&skey) {
                Some(t) => {
                    proof {
                        lemma_with_edge_wf(b@, index, t);
                    }
                    b.add_edge(index, t);
                },
                None => {},
            }
            j = j + 1;
        }
        assert(sv.take(sources.len() as int) =~= sv);
        i = i + 1;
    }
    assert(input.take(ms.len() as int) =~= input);
}

/// The sources phase adds no node.
proof fn lemma_sources_phase_nodes(b: GraphBuild, from: usize, sources: Seq<SourceView>)
    ensures
        sources_phase(b, from, sources).nodes == b.nodes,
        sources_phase(b, from, sources).tables == b.tables,
    decreases sources.len(),
{
    if sources.len() > 0 {
        lemma_sources_phase_nodes(b, from, sources.drop_last());
    }
}

/// Adds a node of `kind` for each reader, with an edge from its registered table
/// (`prefix` and its name) to it and an edge from it to each table its query reads.
fn add_readers(
    b: &mut GraphBuilder,
    kind: NodeKind,
    prefix: &str,
    names: &Vec<String>,
    tables: &Vec<Option<Vec<String>>>,
)
    requires
        build_wf(old(b)@),
        names.len() == tables.len(),
    ensures
        final(b)@ == reader_phase(old(b)@, kind, prefix@, readers_input(strings_view(names@), tables@)),
        build_wf(final(b)@),
{
    let ghost start = b@;
    let ghost input = readers_input(strings_view(names@), tables@);
    let mut i: usize = 0;
    while i < names.len()
        invariant
            i <= names.len(),
            names.len() == tables.len(),
            input == readers_input(strings_view(names@), tables@),
            b@ == reader_phase(start, kind, prefix@, input.take(i as int)),
            build_wf(b@),
        decreases names.len() - i,
    {
        assert(input.take(i + 1).drop_last() =~= input.take(i as int));
        assert(input.take(i + 1).last() == input[i as int]);
        let index = b.node_count();
        let node = GraphNode::from_kind(kind, names[i].clone());
        let key = prefixed(prefix, names[i].as_str());
        proof {
            lemma_with_node_wf(b@, node@);
            lemma_table_index_wf(b@, key@);
        }
        b.add_node(node);
        match b.lookup(&key) {
            Some(s) => {
                proof {
                    lemma_with_edge_wf(b@, s, index);
                }
                b.add_edge(s, index);
            },
            None => {},
        }
        match &tables[i] {
            Some(t) => {
                proof {
                    lemma_link_tables_wf(b@, index, strings_view(t@));
                }
                b.link_tables(index, t);
            },
            None => {},
        }
        i = i + 1;
    }
    assert(input.take(names.len() as int) =~= input);
}

impl MinervaInstance {
    /// The dependency graph of the instance: a node for each entity table, trend store
    /// part, attribute store, relation, trend materialization, attribute materialization
    /// and virtual entity, and for each other table that a query reads, with an edge
    /// from each object to what it reads and from each table to what fills it or is
    /// defined on it. `relation_tables`, `attribute_materialization_tables` and
    /// `virtual_entity_tables` hold, in order, the tables that the query of each
    /// relation, attribute materialization and virtual entity reads, or none where the
    /// query could not be parsed.
    pub fn dependency_graph(
        &self,
        relation_tables: &Vec<Option<Vec<String>>>,
        attribute_materialization_tables: &Vec<Option<Vec<String>>>,
        virtual_entity_tables: &Vec<Option<Vec<String>>>,
    ) -> (g: Graph<GraphNode, String>)
        requires
            relation_tables.len() == self.relations.len(),
            attribute_materialization_tables.len() == self.attribute_materializations.len(),
            virtual_entity_tables.len() == self.virtual_entities.len(),
            materializations_resolvable(
                build_before_materializations(*self, relation_tables@).tables,
                materializations_summary(self.trend_materializations@),
            ),
            dependency_build(
                *self,
                relation_tables@,
                attribute_materialization_tables@,
                virtual_entity_tables@,
            ).nodes.len() <= 0xFFFF_FFFF,
            dependency_build(
                *self,
                relation_tables@,
                attribute_materialization_tables@,
                virtual_entity_tables@,
            ).edges.len() <= 0xFFFF_FFFF,
        ensures
            graph_nodes(g) == dependency_build(
                *self,
                relation_tables@,
                attribute_materialization_tables@,
                virtual_entity_tables@,
            ).nodes,
            graph_edges(g) == weightless(
                dependency_build(
                    *self,
                    relation_tables@,
                    attribute_materialization_tables@,
                    virtual_entity_tables@,
                ).edges,
            ),
    {
        let mut b = GraphBuilder::new();
        add_entity_tables(&mut b, &self.entity_types);
        add_trend_store_parts(&mut b, &self.trend_stores);
        add_attribute_stores(&mut b, &self.attribute_stores);
        add_relations(&mut b, &self.relations, relation_tables);
        add_trend_materializations(&mut b, &self.trend_materializations);
        let mut targets: Vec<String> = Vec::new();
        let mut i: usize = 0;
        while i < self.attribute_materializations.len()
            invariant
                i <= self.attribute_materializations.len(),
                targets.len() == i,
                strings_view(targets@) == self.attribute_materializations@.map_values(
                    |m: AttributeMaterialization| target_text(m.attribute_store@),
                ).take(i as int),
            decreases self.attribute_materializations.len() - i,
        {
            let ghost prev = targets@;
            targets.push(self.attribute_materializations[i].attribute_store.to_display_string());
            proof {
                assert forall|j: int| 0 <= j < prev.len() implies strings_view(targets@)[j]
                    == strings_view(prev)[j] by {
                    assert(targets@[j] == prev[j]);
                }
                assert(strings_view(targets@) =~= self.attribute_materializations@.map_values(
                    |m: AttributeMaterialization| target_text(m.attribute_store@),
                ).take(i + 1));
            }
            i = i + 1;
        }
        assert(self.attribute_materializations@.map_values(
            |m: AttributeMaterialization| target_text(m.attribute_store@),
        ).take(self.attribute_materializations.len() as int) =~= self.attribute_materializations@.map_values(
            |m: AttributeMaterialization| target_text(m.attribute_store@),
        ));
        proof {
            reveal_strlit("attribute.");
            reveal_strlit("entity.");
        }
        add_readers(
            &mut b,
            NodeKind::AttributeMaterialization,
            "attribute.",
            &targets,
            attribute_materialization_tables,
        );
        let mut names: Vec<String> = Vec::new();
        let mut i: usize = 0;
        while i < self.virtual_entities.len()
            invariant
                i <= self.virtual_entities.len(),
                names.len() == i,
                strings_view(names@) == self.virtual_entities@.map_values(|v: VirtualEntity| v.name@).take(
                    i as int,
                ),
            decreases self.virtual_entities.len() - i,
        {
            let ghost prev = names@;
            names.push(self.virtual_entities[i].name.clone());
            proof {
                assert forall|j: int| 0 <= j < prev.len() implies strings_view(names@)[j]
                    == strings_view(prev)[j] by {
                    assert(names@[j] == prev[j]);
                }
                assert(strings_view(names@) =~= self.virtual_entities@.map_values(
                    |v: VirtualEntity| v.name@,
                ).take(i + 1));
            }
            i = i + 1;
        }
        assert(self.virtual_entities@.map_values(|v: VirtualEntity| v.name@).take(
            self.virtual_entities.len() as int,
        ) =~= self.virtual_entities@.map_values(|v: VirtualEntity| v.name@));
        add_readers(&mut b, NodeKind::VirtualEntity, "entity.", &names, virtual_entity_tables);
        b.into_graph()
    }
}

/// A trend store, mathematically: data source, entity type, granularity and its parts.
pub open spec fn trend_store_view(t: TrendStore) -> (Seq<char>, Seq<char>, Duration, Seq<TrendStorePartView>) {
    (t.data_source@, t.entity_type@, t.granularity, parts_view(t.parts@))
}

/// Adding a trend store.
pub struct AddTrendStore {
    pub trend_store: TrendStore,
}

impl TrendStore {
    /// A trend store equal to this one.
    pub fn duplicate(&self) -> (r: TrendStore)
        ensures
            trend_store_view(r) == trend_store_view(*self),
    {
        TrendStore {
            data_source: self.data_source.clone(),
            entity_type: self.entity_type.clone(),
            granularity: self.granularity,
            parts: duplicate_parts(&self.parts),
        }
    }
}

/// The first trend store of `stores` with the data source, entity type and granularity
/// of `t`, if any.
pub open spec fn matching_trend_store(stores: Seq<TrendStore>, t: TrendStore) -> Option<TrendStore>
    decreases stores.len(),
{
    if stores.len() == 0 {
        None
    } else if stores[0].data_source@ == t.data_source@ && stores[0].entity_type@ == t.entity_type@
        && stores[0].granularity == t.granularity {
        Some(stores[0])
    } else {
        matching_trend_store(stores.drop_first(), t)
    }
}

/// The first attribute store of `stores` with the data source and entity type of `a`,
/// if any.
pub open spec fn matching_attribute_store(stores: Seq<AttributeStore>, a: AttributeStore) -> Option<
    AttributeStore,
>
    decreases stores.len(),
{
    if stores.len() == 0 {
        None
    } else if stores[0].data_source@ == a.data_source@ && stores[0].entity_type@ == a.entity_type@ {
        Some(stores[0])
    } else {
        matching_attribute_store(stores.drop_first(), a)
    }
}

/// The first trend materialization of `ms` with the name of `m`, if any.
pub open spec fn matching_materialization(ms: Seq<TrendMaterialization>, m: TrendMaterialization) -> Option<
    TrendMaterialization,
>
    decreases ms.len(),
{
    if ms.len() == 0 {
        None
    } else if materialization_name(ms[0]@) == materialization_name(m@) {
        Some(ms[0])
    } else {
        matching_materialization(ms.drop_first(), m)
    }
}

/// The analysis of the first entry for `text`, if any.
pub open spec fn analysis_of(analysis: Seq<(String, String)>, text: Seq<char>) -> Option<Seq<char>>
    decreases analysis.len(),
{
    if analysis.len() == 0 {
        None
    } else if analysis[0].0@ == text {
        Some(analysis[0].1@)
    } else {
        analysis_of(analysis.drop_first(), text)
    }
}

/// The analysis of `text`, or the empty text.
pub open spec fn analysis_or_empty(analysis: Seq<(String, String)>, text: Seq<char>) -> Seq<char> {
    match analysis_of(analysis, text) {
        Some(k) => k,
        None => Seq::empty(),
    }
}

/// The options of the comparison of trend stores that the options of the comparison of
/// instances give.
pub open spec fn trend_store_options(options: DiffOptions) -> TrendStoreDiffOptions {
    TrendStoreDiffOptions {
        ignore_trend_extra_data: options.ignore_trend_extra_data,
        ignore_trend_data_type: options.ignore_trend_data_type,
        ignore_deletions: options.ignore_deletions,
    }
}

/// The changes for the trend stores of `other`: the changes from the first store of
/// `mine` with the same data source, entity type and granularity, or the addition of the
/// store where there is none.
pub open spec fn trend_store_changes(mine: Seq<TrendStore>, other: Seq<TrendStore>, options: DiffOptions) -> Seq<
    ChangeView,
>
    decreases other.len(),
{
    if other.len() == 0 {
        Seq::empty()
    } else {
        trend_store_changes(mine, other.drop_last(), options) + match matching_trend_store(mine, other.last()) {
            Some(m) => trend_store_diff(m, other.last(), trend_store_options(options)),
            None => seq![ChangeView::AddTrendStore { trend_store: trend_store_view(other.last()) }],
        }
    }
}

/// The changes for the attribute stores of `other`: the changes from the matching store
/// of `mine`, or an addition where there is none.
pub open spec fn attribute_stores_changes(mine: Seq<AttributeStore>, other: Seq<AttributeStore>, ignore_deletions: bool) -> Seq<
    ChangeView,
>
    decreases other.len(),
{
    if other.len() == 0 {
        Seq::empty()
    } else {
        let o = other.last();
        attribute_stores_changes(mine, other.drop_last(), ignore_deletions) + match matching_attribute_store(mine, o) {
            Some(m) => attribute_store_changes(
                (m.data_source@, m.entity_type@),
                attributes_view(m.attributes@),
                attributes_view(o.attributes@),
                ignore_deletions,
            ),
            None => seq![
                ChangeView::AddAttributeStore {
                    data_source: o.data_source@,
                    entity_type: o.entity_type@,
                    attributes: attributes_view(o.attributes@),
                    entity_id_type: o.entity_id_type,
                },
            ],
        }
    }
}

/// The changes for the trend materializations of `other`: the changes from the one of
/// `mine` with the same name, or an addition where there is none.
pub open spec fn materializations_changes(
    mine: Seq<TrendMaterialization>,
    other: Seq<TrendMaterialization>,
    analysis: Seq<(String, String)>,
) -> Seq<ChangeView>
    decreases other.len(),
{
    if other.len() == 0 {
        Seq::empty()
    } else {
        let o = other.last();
        materializations_changes(mine, other.drop_last(), analysis) + match matching_materialization(mine, o) {
            Some(m) => materialization_changes(
                m@,
                o@,
                analysis_or_empty(analysis, analysed_text(m@)),
                analysis_or_empty(analysis, analysed_text(o@)),
            ),
            None => seq![ChangeView::AddTrendMaterialization { materialization: o@ }],
        }
    }
}

/// The removals of the trend materializations of `mine` that `other` has none with
/// the same name of.
pub open spec fn removed_materializations(mine: Seq<TrendMaterialization>, other: Seq<TrendMaterialization>) -> Seq<
    ChangeView,
>
    decreases mine.len(),
{
    if mine.len() == 0 {
        Seq::empty()
    } else {
        removed_materializations(mine.drop_last(), other) + match matching_materialization(other, mine.last()) {
            Some(_) => Seq::empty(),
            None => seq![ChangeView::RemoveTrendMaterialization { name: materialization_name(mine.last()@) }],
        }
    }
}

/// The changes that turn instance `mine` into `other`: for trend stores, attribute
/// stores and trend materializations, in that order, then the removal of trend
/// materializations.
pub open spec fn instance_changes(
    mine: MinervaInstance,
    other: MinervaInstance,
    options: DiffOptions,
    analysis: Seq<(String, String)>,
) -> Seq<ChangeView> {
    trend_store_changes(mine.trend_stores@, other.trend_stores@, options) + attribute_stores_changes(
        mine.attribute_stores@,
        other.attribute_stores@,
        options.ignore_deletions,
    ) + materializations_changes(mine.trend_materializations@, other.trend_materializations@, analysis)
        + removed_materializations(mine.trend_materializations@, other.trend_materializations@)
}

/// The index of the first trend store of `stores` that matches `t`.
fn find_trend_store(stores: &Vec<TrendStore>, t: &TrendStore) -> (r: Option<usize>)
    ensures
        match r {
            Some(i) => i < stores.len() && matching_trend_store(stores@, *t) == Some(stores@[i as int]),
            None => matching_trend_store(stores@, *t) is None,
        },
{
    let mut i: usize = 0;
    assert(stores@.skip(0) =~= stores@);
    while i < stores.len()
        invariant
            i <= stores.len(),
            matching_trend_store(stores@, *t) == matching_trend_store(stores@.skip(i as int), *t),
        decreases stores.len() - i,
    {
        assert(stores@.skip(i as int).drop_first() =~= stores@.skip(i + 1));
        assert(stores@.skip(i as int)[0] == stores@[i as int]);
        assert(stores@.skip(i as int).len() > 0);
        if stores[i].data_source == t.data_source && stores[i].entity_type == t.entity_type
            && stores[i].granularity.same_as(&t.granularity) {
            return Some(i);
        }
        i = i + 1;
    }
    None
}

/// The index of the first attribute store of `stores` that matches `a`.
fn find_attribute_store(stores: &Vec<AttributeStore>, a: &AttributeStore) -> (r: Option<usize>)
    ensures
        match r {
            Some(i) => i < stores.len() && matching_attribute_store(stores@, *a) == Some(stores@[i as int]),
            None => matching_attribute_store(stores@, *a) is None,
        },
{
    let mut i: usize = 0;
    assert(stores@.skip(0) =~= stores@);
    while i < stores.len()
        invariant
            i <= stores.len(),
            matching_attribute_store(stores@, *a) == matching_attribute_store(stores@.skip(i as int), *a),
        decreases stores.len() - i,
    {
        assert(stores@.skip(i as int).drop_first() =~= stores@.skip(i + 1));
        assert(stores@.skip(i as int)[0] == stores@[i as int]);
        assert(stores@.skip(i as int).len() > 0);
        if stores[i].data_source == a.data_source && stores[i].entity_type == a.entity_type {
            return Some(i);
        }
        i = i + 1;
    }
    None
}

/// The index of the first trend materialization of `ms` with the name of `m`.
fn find_materialization(ms: &Vec<TrendMaterialization>, m: &TrendMaterialization) -> (r: Option<usize>)
    ensures
        match r {
            Some(i) => i < ms.len() && matching_materialization(ms@, *m) == Some(ms@[i as int]),
            None => matching_materialization(ms@, *m) is None,
        },
{
    let name = m.name().to_owned();
    let mut i: usize = 0;
    assert(ms@.skip(0) =~= ms@);
    while i < ms.len()
        invariant
            i <= ms.len(),
            name@ == materialization_name(m@),
            matching_materialization(ms@, *m) == matching_materialization(ms@.skip(i as int), *m),
        decreases ms.len() - i,
    {
        assert(ms@.skip(i as int).drop_first() =~= ms@.skip(i + 1));
        assert(ms@.skip(i as int)[0] == ms@[i as int]);
        assert(ms@.skip(i as int).len() > 0);
        if same_text(&name, ms[i].name()) {
            return Some(i);
        }
        i = i + 1;
    }
    None
}

/// The analysis of `text` in `analysis`, or the empty text when there is none.
fn lookup_analysis(analysis: &Vec<(String, String)>, text: &String) -> (r: String)
    ensures
        r@ == analysis_or_empty(analysis@, text@),
{
    let mut i: usize = 0;
    assert(analysis@.skip(0) =~= analysis@);
    while i < analysis.len()
        invariant
            i <= analysis.len(),
            analysis_of(analysis@, text@) == analysis_of(analysis@.skip(i as int), text@),
        decreases analysis.len() - i,
    {
        assert(analysis@.skip(i as int).drop_first() =~= analysis@.skip(i + 1));
        assert(analysis@.skip(i as int)[0] == analysis@[i as int]);
        assert(analysis@.skip(i as int).len() > 0);
        if analysis[i].0 == *text {
            return analysis[i].1.clone();
        }
        i = i + 1;
    }
    String::new()
}

impl MinervaInstance {
    /// The changes that turn this instance into `other`: for each trend store of `other`,
    /// the changes from this instance's first store with the same data source, entity
    /// type and granularity (see `trend_store_diff`), or its addition; for each attribute
    /// store of `other`, the changes from this
    /// instance's store with the same data source and entity type, or its addition; for
    /// each trend materialization of `other`, the changes from this instance's one with
    /// the same name, or its addition; and the removal of each trend materialization
    /// that `other` has none with the same name of. `analysis` holds, for SQL texts, what
    /// pg_query gives for them: the fingerprint of a view's query, or the parse tree of a
    /// function's complete definition.
    pub fn diff(&self, other: &MinervaInstance, options: DiffOptions, analysis: &Vec<(String, String)>) -> (changes: Vec<
        Change,
    >)
        ensures
            changes_view(changes@) == instance_changes(*self, *other, options, analysis@),
    {
        let mut changes: Vec<Change> = Vec::new();
        let ghost ts = other.trend_stores@;
        let mut i: usize = 0;
        while i < other.trend_stores.len()
            invariant
                i <= other.trend_stores.len(),
                ts == other.trend_stores@,
                changes_view(changes@) == trend_store_changes(self.trend_stores@, ts.take(i as int), options),
            decreases other.trend_stores.len() - i,
        {
            assert(ts.take(i + 1).drop_last() =~= ts.take(i as int));
            assert(ts.take(i + 1).last() == ts[i as int]);
            match find_trend_store(&self.trend_stores, &other.trend_stores[i]) {
                Some(j) => {
                    let more = self.trend_stores[j].diff(
                        &other.trend_stores[i],
                        TrendStoreDiffOptions {
                            ignore_trend_extra_data: options.ignore_trend_extra_data,
                            ignore_trend_data_type: options.ignore_trend_data_type,
                            ignore_deletions: options.ignore_deletions,
                        },
                    );
                    append_changes(&mut changes, more);
                    assert(changes_view(changes@) =~= trend_store_changes(self.trend_stores@, ts.take(i + 1), options));
                },
                None => {
                    push_change(
                        &mut changes,
                        Change::AddTrendStore(AddTrendStore { trend_store: other.trend_stores[i].duplicate() }),
                    );
                    assert(changes_view(changes@) =~= trend_store_changes(self.trend_stores@, ts.take(i + 1), options));
                },
            }
            i = i + 1;
        }
        assert(ts.take(other.trend_stores.len() as int) =~= ts);
        let ghost first = changes_view(changes@);
        let ghost ats = other.attribute_stores@;
        let mut i: usize = 0;
        assert(first + attribute_stores_changes(self.attribute_stores@, ats.take(0), options.ignore_deletions) =~= first);
        while i < other.attribute_stores.len()
            invariant
                i <= other.attribute_stores.len(),
                ats == other.attribute_stores@,
                changes_view(changes@) == first + attribute_stores_changes(
                    self.attribute_stores@,
                    ats.take(i as int),
                    options.ignore_deletions,
                ),
            decreases other.attribute_stores.len() - i,
        {
            assert(ats.take(i + 1).drop_last() =~= ats.take(i as int));
            assert(ats.take(i + 1).last() == ats[i as int]);
            let o = &other.attribute_stores[i];
            match find_attribute_store(&self.attribute_stores, o) {
                Some(j) => {
                    let more = self.attribute_stores[j].diff(
                        o,
                        AttributeStoreDiffOptions { ignore_deletions: options.ignore_deletions },
                    );
                    append_changes(&mut changes, more);
                },
                None => {
                    push_change(
                        &mut changes,
                        Change::AddAttributeStore(AddAttributeStore { attribute_store: o.duplicate() }),
                    );
                },
            }
            assert(changes_view(changes@) =~= first + attribute_stores_changes(
                self.attribute_stores@,
                ats.take(i + 1),
                options.ignore_deletions,
            ));
            i = i + 1;
        }
        assert(ats.take(other.attribute_stores.len() as int) =~= ats);
        let ghost second = changes_view(changes@);
        let ghost oms = other.trend_materializations@;
        let mut i: usize = 0;
        assert(second + materializations_changes(self.trend_materializations@, oms.take(0), analysis@) =~= second);
        while i < other.trend_materializations.len()
            invariant
                i <= other.trend_materializations.len(),
                oms == other.trend_materializations@,
                changes_view(changes@) == second + materializations_changes(
                    self.trend_materializations@,
                    oms.take(i as int),
                    analysis@,
                ),
            decreases other.trend_materializations.len() - i,
        {
            assert(oms.take(i + 1).drop_last() =~= oms.take(i as int));
            assert(oms.take(i + 1).last() == oms[i as int]);
            let o = &other.trend_materializations[i];
            match find_materialization(&self.trend_materializations, o) {
                Some(j) => {
                    let m = &self.trend_materializations[j];
                    let my_key = lookup_analysis(analysis, &m.analysed_sql());
                    let other_key = lookup_analysis(analysis, &o.analysed_sql());
                    let more = m.diff(o, my_key.as_str(), other_key.as_str());
                    append_changes(&mut changes, more);
                },
                None => {
                    push_change(
                        &mut changes,
                        Change::AddTrendMaterialization(AddTrendMaterialization { trend_materialization: o.duplicate() }),
                    );
                },
            }
            assert(changes_view(changes@) =~= second + materializations_changes(
                self.trend_materializations@,
                oms.take(i + 1),
                analysis@,
            ));
            i = i + 1;
        }
        assert(oms.take(other.trend_materializations.len() as int) =~= oms);
        let ghost third = changes_view(changes@);
        let ghost mms = self.trend_materializations@;
        let mut i: usize = 0;
        assert(third + removed_materializations(mms.take(0), other.trend_materializations@) =~= third);
        while i < self.trend_materializations.len()
            invariant
                i <= self.trend_materializations.len(),
                mms == self.trend_materializations@,
                changes_view(changes@) == third + removed_materializations(
                    mms.take(i as int),
                    other.trend_materializations@,
                ),
            decreases self.trend_materializations.len() - i,
        {
            assert(mms.take(i + 1).drop_last() =~= mms.take(i as int));
            assert(mms.take(i + 1).last() == mms[i as int]);
            let m = &self.trend_materializations[i];
            match find_materialization(&other.trend_materializations, m) {
                Some(_) => {},
                None => {
                    push_change(
                        &mut changes,
                        Change::RemoveTrendMaterialization(RemoveTrendMaterialization { name: m.name().to_owned() }),
                    );
                },
            }
            assert(changes_view(changes@) =~= third + removed_materializations(
                mms.take(i + 1),
                other.trend_materializations@,
            ));
            i = i + 1;
        }
        assert(mms.take(self.trend_materializations.len() as int) =~= mms);
        assert(changes_view(changes@) =~= instance_changes(*self, *other, options, analysis@));
        changes
    }
}

/// The data source and entity type of each attribute store.
pub open spec fn attribute_store_keys(stores: Seq<AttributeStore>) -> Seq<(Seq<char>, Seq<char>)> {
    stores.map_values(|s: AttributeStore| (s.data_source@, s.entity_type@))
}

/// The data source, entity type and granularity of each trend store.
pub open spec fn trend_store_keys(stores: Seq<TrendStore>) -> Seq<(Seq<char>, Seq<char>, Duration)> {
    stores.map_values(|s: TrendStore| (s.data_source@, s.entity_type@, s.granularity))
}

/// The name of each trend materialization.
pub open spec fn materialization_names(ms: Seq<TrendMaterialization>) -> Seq<Seq<char>> {
    ms.map_values(|m: TrendMaterialization| materialization_name(m@))
}

/// No two attribute stores share a data source and entity type, no store has two
/// attributes of one name, no two trend materializations share a name, and each
/// function materialization is written in PL/pgSQL.
pub open spec fn diffable_with_itself(inst: MinervaInstance) -> bool {
    &&& trend_store_keys(inst.trend_stores@).no_duplicates()
    &&& forall|i: int|
        0 <= i < inst.trend_stores@.len() ==> trend_store_names_distinct(#[trigger] inst.trend_stores@[i])
    &&& attribute_store_keys(inst.attribute_stores@).no_duplicates()
    &&& forall|i: int|
        0 <= i < inst.attribute_stores@.len() ==> attribute_names(
            attributes_view(#[trigger] inst.attribute_stores@[i].attributes@),
        ).no_duplicates()
    &&& materialization_names(inst.trend_materializations@).no_duplicates()
    &&& forall|i: int|
        0 <= i < inst.trend_materializations@.len() ==> match #[trigger] inst.trend_materializations@[i]@ {
            TrendMaterializationView::Function(f) => lowercased(f.function.2) == "plpgsql"@,
            TrendMaterializationView::View(_) => true,
        }
}

proof fn lemma_trend_store_found(stores: Seq<TrendStore>, k: int)
    requires
        0 <= k < stores.len(),
        trend_store_keys(stores).no_duplicates(),
    ensures
        matching_trend_store(stores, stores[k]) == Some(stores[k]),
    decreases stores.len(),
{
    let keys = trend_store_keys(stores);
    if k > 0 {
        if stores[0].data_source@ == stores[k].data_source@ && stores[0].entity_type@ == stores[k].entity_type@
            && stores[0].granularity == stores[k].granularity {
            assert(keys[0] == keys[k]);
        } else {
            assert(trend_store_keys(stores.drop_first()) =~= keys.drop_first());
            assert(stores.drop_first()[k - 1] == stores[k]);
            lemma_trend_store_found(stores.drop_first(), k - 1);
        }
    }
}

proof fn lemma_attribute_store_found(stores: Seq<AttributeStore>, k: int)
    requires
        0 <= k < stores.len(),
        attribute_store_keys(stores).no_duplicates(),
    ensures
        matching_attribute_store(stores, stores[k]) == Some(stores[k]),
    decreases stores.len(),
{
    let keys = attribute_store_keys(stores);
    if k > 0 {
        if stores[0].data_source@ == stores[k].data_source@ && stores[0].entity_type@ == stores[k].entity_type@ {
            assert(keys[0] == keys[k]);
        } else {
            assert(attribute_store_keys(stores.drop_first()) =~= keys.drop_first());
            assert(stores.drop_first()[k - 1] == stores[k]);
            lemma_attribute_store_found(stores.drop_first(), k - 1);
        }
    }
}

proof fn lemma_materialization_found(ms: Seq<TrendMaterialization>, k: int)
    requires
        0 <= k < ms.len(),
    ensures
        matching_materialization(ms, ms[k]) is Some,
        materialization_names(ms).no_duplicates() ==> matching_materialization(ms, ms[k]) == Some(ms[k]),
    decreases ms.len(),
{
    let names = materialization_names(ms);
    if k > 0 {
        if materialization_name(ms[0]@) == materialization_name(ms[k]@) {
            assert(names[0] == names[k]);
        } else {
            assert(materialization_names(ms.drop_first()) =~= names.drop_first());
            assert(ms.drop_first()[k - 1] == ms[k]);
            lemma_materialization_found(ms.drop_first(), k - 1);
        }
    }
}

proof fn lemma_trend_store_changes_empty(inst: MinervaInstance, options: DiffOptions, n: int)
    requires
        diffable_with_itself(inst),
        0 <= n <= inst.trend_stores@.len(),
    ensures
        trend_store_changes(inst.trend_stores@, inst.trend_stores@.take(n), options) == Seq::<ChangeView>::empty(),
    decreases n,
{
    if n > 0 {
        let stores = inst.trend_stores@;
        lemma_trend_store_changes_empty(inst, options, n - 1);
        assert(stores.take(n).drop_last() =~= stores.take(n - 1));
        lemma_trend_store_found(stores, n - 1);
        lemma_trend_store_diff_self(stores[n - 1], trend_store_options(options));
        assert(trend_store_changes(stores, stores.take(n), options) =~= Seq::<ChangeView>::empty());
    }
}

#[verifier::spinoff_prover]
#[verifier::rlimit(40)]
proof fn lemma_attribute_stores_changes_empty(inst: MinervaInstance, ignore_deletions: bool, n: int)
    requires
        diffable_with_itself(inst),
        0 <= n <= inst.attribute_stores@.len(),
    ensures
        attribute_stores_changes(inst.attribute_stores@, inst.attribute_stores@.take(n), ignore_deletions)
            == Seq::<ChangeView>::empty(),
    decreases n,
{
    if n > 0 {
        lemma_attribute_stores_changes_empty(inst, ignore_deletions, n - 1);
        let ats = inst.attribute_stores@;
        assert(ats.take(n).drop_last() =~= ats.take(n - 1));
        lemma_attribute_store_found(ats, n - 1);
        let s = ats[n - 1];
        lemma_attribute_store_diff_self(
            (s.data_source@, s.entity_type@),
            attributes_view(s.attributes@),
            ignore_deletions,
        );
        assert(attribute_stores_changes(ats, ats.take(n), ignore_deletions) =~= Seq::<ChangeView>::empty());
    }
}

#[verifier::spinoff_prover]
proof fn lemma_materializations_changes_empty(inst: MinervaInstance, analysis: Seq<(String, String)>, n: int)
    requires
        diffable_with_itself(inst),
        0 <= n <= inst.trend_materializations@.len(),
    ensures
        materializations_changes(inst.trend_materializations@, inst.trend_materializations@.take(n), analysis)
            == Seq::<ChangeView>::empty(),
        removed_materializations(inst.trend_materializations@.take(n), inst.trend_materializations@)
            == Seq::<ChangeView>::empty(),
    decreases n,
{
    if n > 0 {
        lemma_materializations_changes_empty(inst, analysis, n - 1);
        let ms = inst.trend_materializations@;
        assert(ms.take(n).drop_last() =~= ms.take(n - 1));
        lemma_materialization_found(ms, n - 1);
        let m = ms[n - 1];
        let key = analysis_or_empty(analysis, analysed_text(m@));
        assert(materialization_changes(m@, m@, key, key) =~= Seq::<ChangeView>::empty());
        assert(materializations_changes(ms, ms.take(n), analysis) =~= Seq::<ChangeView>::empty());
        assert(removed_materializations(ms.take(n), ms) =~= Seq::<ChangeView>::empty());
    }
}

/// An instance compared with itself gives no change, when no two of its trend stores
/// share a data source, entity type and granularity, no trend store has two parts of
/// one name or a part with two trends of one name, no two of its attribute stores share
/// a data source and entity type, no store has two attributes of one name, no two trend materializations share a name and each function
/// materialization is written in PL/pgSQL. (The definition of a function in another
/// language is always replaced.)
pub proof fn lemma_instance_diff_self(inst: MinervaInstance, options: DiffOptions, analysis: Seq<(String, String)>)
    requires
        diffable_with_itself(inst),
    ensures
        instance_changes(inst, inst, options, analysis) == Seq::<ChangeView>::empty(),
{
    let ignore_deletions = options.ignore_deletions;
    let nt = inst.trend_stores@.len() as int;
    let na = inst.attribute_stores@.len() as int;
    let nm = inst.trend_materializations@.len() as int;
    lemma_trend_store_changes_empty(inst, options, nt);
    lemma_attribute_stores_changes_empty(inst, ignore_deletions, na);
    lemma_materializations_changes_empty(inst, analysis, nm);
    assert(inst.trend_stores@.take(nt) =~= inst.trend_stores@);
    assert(inst.attribute_stores@.take(na) =~= inst.attribute_stores@);
    assert(inst.trend_materializations@.take(nm) =~= inst.trend_materializations@);
    assert(instance_changes(inst, inst, options, analysis) =~= Seq::<ChangeView>::empty());
}

/// A store that no store of `stores` shares its data source and entity type with has
/// no match among them.
proof fn lemma_no_matching_attribute_store(stores: Seq<AttributeStore>, a: AttributeStore)
    requires
        forall|j: int|
            0 <= j < stores.len() ==> !((#[trigger] stores[j]).data_source@ == a.data_source@
                && stores[j].entity_type@ == a.entity_type@),
    ensures
        matching_attribute_store(stores, a) is None,
    decreases stores.len(),
{
    if stores.len() > 0 {
        assert(!(stores[0].data_source@ == a.data_source@ && stores[0].entity_type@ == a.entity_type@));
        assert forall|j: int| 0 <= j < stores.drop_first().len() implies !((
        #[trigger] stores.drop_first()[j]).data_source@ == a.data_source@ && stores.drop_first()[j].entity_type@
            == a.entity_type@) by {
            assert(stores.drop_first()[j] == stores[j + 1]);
        }
        lemma_no_matching_attribute_store(stores.drop_first(), a);
    }
}

/// The addition of an attribute store, as a change.
pub open spec fn store_addition(a: AttributeStore) -> ChangeView {
    ChangeView::AddAttributeStore {
        data_source: a.data_source@,
        entity_type: a.entity_type@,
        attributes: attributes_view(a.attributes@),
        entity_id_type: a.entity_id_type,
    }
}

/// The changes for the attribute stores of `other` add each store that `mine` has no
/// store with the same data source and entity type of.
proof fn lemma_attribute_stores_changes_add(
    mine: Seq<AttributeStore>,
    other: Seq<AttributeStore>,
    ignore_deletions: bool,
    i: int,
)
    requires
        0 <= i < other.len(),
        forall|j: int|
            0 <= j < mine.len() ==> !((#[trigger] mine[j]).data_source@ == other[i].data_source@
                && mine[j].entity_type@ == other[i].entity_type@),
    ensures
        attribute_stores_changes(mine, other, ignore_deletions).contains(store_addition(other[i])),
    decreases other.len(),
{
    let x = store_addition(other[i]);
    let rest = attribute_stores_changes(mine, other.drop_last(), ignore_deletions);
    let all = attribute_stores_changes(mine, other, ignore_deletions);
    if i == other.len() - 1 {
        lemma_no_matching_attribute_store(mine, other[i]);
        assert(all[rest.len() as int] == x);
    } else {
        assert(other.drop_last()[i] == other[i]);
        lemma_attribute_stores_changes_add(mine, other.drop_last(), ignore_deletions, i);
        let k = choose|k: int| 0 <= k < rest.len() && rest[k] == x;
        assert(all[k] == rest[k]);
    }
}

/// Comparing instances adds every attribute store of `other` that `mine` has no store
/// with the same data source and entity type of: the changes hold an
/// `AddAttributeStore` that carries that store.
pub proof fn lemma_instance_diff_adds_attribute_store(
    mine: MinervaInstance,
    other: MinervaInstance,
    options: DiffOptions,
    analysis: Seq<(String, String)>,
    i: int,
)
    requires
        0 <= i < other.attribute_stores@.len(),
        forall|j: int|
            0 <= j < mine.attribute_stores@.len() ==> !((#[trigger] mine.attribute_stores@[j]).data_source@
                == other.attribute_stores@[i].data_source@ && mine.attribute_stores@[j].entity_type@
                == other.attribute_stores@[i].entity_type@),
    ensures
        instance_changes(mine, other, options, analysis).contains(
            ChangeView::AddAttributeStore {
                data_source: other.attribute_stores@[i].data_source@,
                entity_type: other.attribute_stores@[i].entity_type@,
                attributes: attributes_view(other.attribute_stores@[i].attributes@),
                entity_id_type: other.attribute_stores@[i].entity_id_type,
            },
        ),
{
    let ts = trend_store_changes(mine.trend_stores@, other.trend_stores@, options);
    let ats = attribute_stores_changes(mine.attribute_stores@, other.attribute_stores@, options.ignore_deletions);
    lemma_attribute_stores_changes_add(mine.attribute_stores@, other.attribute_stores@, options.ignore_deletions, i);
    let x = store_addition(other.attribute_stores@[i]);
    let k = choose|k: int| 0 <= k < ats.len() && ats[k] == x;
    let all = instance_changes(mine, other, options, analysis);
    assert(all[ts.len() + k] == x);
}

/// A materialization whose name no materialization of `ms` has has no match among them.
proof fn lemma_no_matching_materialization(ms: Seq<TrendMaterialization>, m: TrendMaterialization)
    requires
        forall|j: int| 0 <= j < ms.len() ==> materialization_name((#[trigger] ms[j])@) != materialization_name(m@),
    ensures
        matching_materialization(ms, m) is None,
    decreases ms.len(),
{
    if ms.len() > 0 {
        assert(materialization_name(ms[0]@) != materialization_name(m@));
        assert forall|j: int| 0 <= j < ms.drop_first().len() implies materialization_name(
            (#[trigger] ms.drop_first()[j])@,
        ) != materialization_name(m@) by {
            assert(ms.drop_first()[j] == ms[j + 1]);
        }
        lemma_no_matching_materialization(ms.drop_first(), m);
    }
}

/// A trend store that no store of `stores` shares its data source, entity type and
/// granularity with has no match among them.
proof fn lemma_no_matching_trend_store(stores: Seq<TrendStore>, t: TrendStore)
    requires
        forall|j: int|
            0 <= j < stores.len() ==> !((#[trigger] stores[j]).data_source@ == t.data_source@
                && stores[j].entity_type@ == t.entity_type@ && stores[j].granularity == t.granularity),
    ensures
        matching_trend_store(stores, t) is None,
    decreases stores.len(),
{
    if stores.len() > 0 {
        assert(!(stores[0].data_source@ == t.data_source@ && stores[0].entity_type@ == t.entity_type@
            && stores[0].granularity == t.granularity));
        assert forall|j: int| 0 <= j < stores.drop_first().len() implies !((
        #[trigger] stores.drop_first()[j]).data_source@ == t.data_source@ && stores.drop_first()[j].entity_type@
            == t.entity_type@ && stores.drop_first()[j].granularity == t.granularity) by {
            assert(stores.drop_first()[j] == stores[j + 1]);
        }
        lemma_no_matching_trend_store(stores.drop_first(), t);
    }
}

/// The changes for the trend stores of `other` add each store that `mine` has no match
/// for.
proof fn lemma_trend_store_changes_add(mine: Seq<TrendStore>, other: Seq<TrendStore>, options: DiffOptions, i: int)
    requires
        0 <= i < other.len(),
        forall|j: int|
            0 <= j < mine.len() ==> !((#[trigger] mine[j]).data_source@ == other[i].data_source@
                && mine[j].entity_type@ == other[i].entity_type@ && mine[j].granularity == other[i].granularity),
    ensures
        trend_store_changes(mine, other, options).contains(
            ChangeView::AddTrendStore { trend_store: trend_store_view(other[i]) },
        ),
    decreases other.len(),
{
    let x = ChangeView::AddTrendStore { trend_store: trend_store_view(other[i]) };
    let rest = trend_store_changes(mine, other.drop_last(), options);
    let all = trend_store_changes(mine, other, options);
    if i == other.len() - 1 {
        lemma_no_matching_trend_store(mine, other[i]);
        assert(all[rest.len() as int] == x);
    } else {
        assert(other.drop_last()[i] == other[i]);
        lemma_trend_store_changes_add(mine, other.drop_last(), options, i);
        let k = choose|k: int| 0 <= k < rest.len() && rest[k] == x;
        assert(all[k] == rest[k]);
    }
}

/// The changes for the materializations of `other` add each one whose name `mine`
/// lacks.
proof fn lemma_materializations_changes_add(
    mine: Seq<TrendMaterialization>,
    other: Seq<TrendMaterialization>,
    analysis: Seq<(String, String)>,
    i: int,
)
    requires
        0 <= i < other.len(),
        forall|j: int| 0 <= j < mine.len() ==> materialization_name((#[trigger] mine[j])@) != materialization_name(other[i]@),
    ensures
        materializations_changes(mine, other, analysis).contains(
            ChangeView::AddTrendMaterialization { materialization: other[i]@ },
        ),
    decreases other.len(),
{
    let x = ChangeView::AddTrendMaterialization { materialization: other[i]@ };
    let rest = materializations_changes(mine, other.drop_last(), analysis);
    let all = materializations_changes(mine, other, analysis);
    if i == other.len() - 1 {
        lemma_no_matching_materialization(mine, other[i]);
        assert(all[rest.len() as int] == x);
    } else {
        assert(other.drop_last()[i] == other[i]);
        lemma_materializations_changes_add(mine, other.drop_last(), analysis, i);
        let k = choose|k: int| 0 <= k < rest.len() && rest[k] == x;
        assert(all[k] == rest[k]);
    }
}

/// The removals list each materialization of `mine` whose name `other` lacks.
proof fn lemma_removed_materializations_listed(mine: Seq<TrendMaterialization>, other: Seq<TrendMaterialization>, i: int)
    requires
        0 <= i < mine.len(),
        forall|j: int| 0 <= j < other.len() ==> materialization_name((#[trigger] other[j])@) != materialization_name(mine[i]@),
    ensures
        removed_materializations(mine, other).contains(
            ChangeView::RemoveTrendMaterialization { name: materialization_name(mine[i]@) },
        ),
    decreases mine.len(),
{
    let x = ChangeView::RemoveTrendMaterialization { name: materialization_name(mine[i]@) };
    let rest = removed_materializations(mine.drop_last(), other);
    let all = removed_materializations(mine, other);
    if i == mine.len() - 1 {
        lemma_no_matching_materialization(other, mine[i]);
        assert(all[rest.len() as int] == x);
    } else {
        assert(mine.drop_last()[i] == mine[i]);
        lemma_removed_materializations_listed(mine.drop_last(), other, i);
        let k = choose|k: int| 0 <= k < rest.len() && rest[k] == x;
        assert(all[k] == rest[k]);
    }
}

/// Comparing instances adds every trend store of `other` that `mine` has no store with
/// the same data source, entity type and granularity of.
pub proof fn lemma_instance_diff_adds_trend_store(
    mine: MinervaInstance,
    other: MinervaInstance,
    options: DiffOptions,
    analysis: Seq<(String, String)>,
    i: int,
)
    requires
        0 <= i < other.trend_stores@.len(),
        forall|j: int|
            0 <= j < mine.trend_stores@.len() ==> !((#[trigger] mine.trend_stores@[j]).data_source@
                == other.trend_stores@[i].data_source@ && mine.trend_stores@[j].entity_type@
                == other.trend_stores@[i].entity_type@ && mine.trend_stores@[j].granularity
                == other.trend_stores@[i].granularity),
    ensures
        instance_changes(mine, other, options, analysis).contains(
            ChangeView::AddTrendStore { trend_store: trend_store_view(other.trend_stores@[i]) },
        ),
{
    lemma_trend_store_changes_add(mine.trend_stores@, other.trend_stores@, options, i);
    let ts = trend_store_changes(mine.trend_stores@, other.trend_stores@, options);
    let x = ChangeView::AddTrendStore { trend_store: trend_store_view(other.trend_stores@[i]) };
    let k = choose|k: int| 0 <= k < ts.len() && ts[k] == x;
    let all = instance_changes(mine, other, options, analysis);
    assert(all[k] == x);
}

/// Comparing instances adds every trend materialization of `other` whose name no
/// materialization of `mine` has, and removes, by name, every one of `mine` whose name
/// no materialization of `other` has.
pub proof fn lemma_instance_diff_adds_and_removes_materializations(
    mine: MinervaInstance,
    other: MinervaInstance,
    options: DiffOptions,
    analysis: Seq<(String, String)>,
    i: int,
    r: int,
)
    ensures
        0 <= i < other.trend_materializations@.len() && (forall|j: int|
            0 <= j < mine.trend_materializations@.len() ==> materialization_name(
                (#[trigger] mine.trend_materializations@[j])@,
            ) != materialization_name(other.trend_materializations@[i]@)) ==> instance_changes(
            mine,
            other,
            options,
            analysis,
        ).contains(ChangeView::AddTrendMaterialization { materialization: other.trend_materializations@[i]@ }),
        0 <= r < mine.trend_materializations@.len() && (forall|j: int|
            0 <= j < other.trend_materializations@.len() ==> materialization_name(
                (#[trigger] other.trend_materializations@[j])@,
            ) != materialization_name(mine.trend_materializations@[r]@)) ==> instance_changes(
            mine,
            other,
            options,
            analysis,
        ).contains(
            ChangeView::RemoveTrendMaterialization { name: materialization_name(mine.trend_materializations@[r]@) },
        ),
{
    let ts = trend_store_changes(mine.trend_stores@, other.trend_stores@, options);
    let ats = attribute_stores_changes(mine.attribute_stores@, other.attribute_stores@, options.ignore_deletions);
    let mcs = materializations_changes(mine.trend_materializations@, other.trend_materializations@, analysis);
    let all = instance_changes(mine, other, options, analysis);
    if 0 <= i < other.trend_materializations@.len() && (forall|j: int|
        0 <= j < mine.trend_materializations@.len() ==> materialization_name(
            (#[trigger] mine.trend_materializations@[j])@,
        ) != materialization_name(other.trend_materializations@[i]@)) {
        lemma_materializations_changes_add(mine.trend_materializations@, other.trend_materializations@, analysis, i);
        let x = ChangeView::AddTrendMaterialization { materialization: other.trend_materializations@[i]@ };
        let k = choose|k: int| 0 <= k < mcs.len() && mcs[k] == x;
        assert(all[ts.len() + ats.len() + k] == x);
    }
    if 0 <= r < mine.trend_materializations@.len() && (forall|j: int|
        0 <= j < other.trend_materializations@.len() ==> materialization_name(
            (#[trigger] other.trend_materializations@[j])@,
        ) != materialization_name(mine.trend_materializations@[r]@)) {
        lemma_removed_materializations_listed(mine.trend_materializations@, other.trend_materializations@, r);
        let rm = removed_materializations(mine.trend_materializations@, other.trend_materializations@);
        let x = ChangeView::RemoveTrendMaterialization { name: materialization_name(mine.trend_materializations@[r]@) };
        let k = choose|k: int| 0 <= k < rm.len() && rm[k] == x;
        assert(all[ts.len() + ats.len() + mcs.len() + k] == x);
    }
}

/// The sources of a trend materialization.
pub open spec fn materialization_sources(m: TrendMaterializationView) -> Seq<SourceView> {
    match m {
        TrendMaterializationView::View(v) => v.sources,
        TrendMaterializationView::Function(f) => f.sources,
    }
}

/// The node that stands for a trend materialization: its kind and its target part.
pub open spec fn materialization_node(m: TrendMaterializationView) -> GraphNodeView {
    match m {
        TrendMaterializationView::View(v) => (NodeKind::TrendViewMaterialization, v.target_trend_store_part),
        TrendMaterializationView::Function(f) => (NodeKind::TrendFunctionMaterialization, f.target_trend_store_part),
    }
}

/// In the dependency graph of an instance, trend materialization `k` has its node right
/// after the nodes of the entity tables, trend store parts, attribute stores and
/// relations; that node has an edge to the node registered for each of its sources
/// (a trend store part as `trend.<part>`, an attribute store as `attribute.<store>`, a
/// relation as `relation.<name>`) wherever that source is registered, and the node
/// registered for its target part has an edge to it.
pub proof fn lemma_dependency_graph_links_sources(
    inst: MinervaInstance,
    relation_tables: Seq<Option<Vec<String>>>,
    attribute_materialization_tables: Seq<Option<Vec<String>>>,
    virtual_entity_tables: Seq<Option<Vec<String>>>,
    k: int,
    j: int,
)
    requires
        0 <= k < inst.trend_materializations@.len(),
        0 <= j < materialization_sources(inst.trend_materializations@[k]@).len(),
        table_index(
            build_before_materializations(inst, relation_tables).tables,
            source_table_name(materialization_sources(inst.trend_materializations@[k]@)[j]),
        ) is Some,
    ensures
        dependency_build(inst, relation_tables, attribute_materialization_tables, virtual_entity_tables).nodes[
            build_before_materializations(inst, relation_tables).nodes.len() + k]
            == materialization_node(inst.trend_materializations@[k]@),
        dependency_build(inst, relation_tables, attribute_materialization_tables, virtual_entity_tables).edges.contains(
            (
                (build_before_materializations(inst, relation_tables).nodes.len() + k) as usize,
                table_index(
                    build_before_materializations(inst, relation_tables).tables,
                    source_table_name(materialization_sources(inst.trend_materializations@[k]@)[j]),
                ).unwrap(),
            ),
        ),
        table_index(
            build_before_materializations(inst, relation_tables).tables,
            "trend."@ + materialization_node(inst.trend_materializations@[k]@).1,
        ) is Some ==> dependency_build(
            inst,
            relation_tables,
            attribute_materialization_tables,
            virtual_entity_tables,
        ).edges.contains(
            (
                table_index(
                    build_before_materializations(inst, relation_tables).tables,
                    "trend."@ + materialization_node(inst.trend_materializations@[k]@).1,
                ).unwrap(),
                (build_before_materializations(inst, relation_tables).nodes.len() + k) as usize,
            ),
        ),
{
    let b4 = build_before_materializations(inst, relation_tables);
    let ms = materializations_summary(inst.trend_materializations@);
    let m = inst.trend_materializations@[k]@;
    assert(ms[k] == materialization_summary(m));
    assert(ms[k].2 == materialization_sources(m));
    assert((ms[k].0, ms[k].1) == materialization_node(m));
    lemma_materialization_phase_links(b4, ms, k, j);
    let b5 = materialization_phase(b4, ms);
    let items6 = readers_input(
        inst.attribute_materializations@.map_values(|a: AttributeMaterialization| target_text(a.attribute_store@)),
        attribute_materialization_tables,
    );
    let b6 = reader_phase(b5, NodeKind::AttributeMaterialization, "attribute."@, items6);
    lemma_reader_phase_extends(b5, NodeKind::AttributeMaterialization, "attribute."@, items6);
    let items7 = readers_input(inst.virtual_entities@.map_values(|v: VirtualEntity| v.name@), virtual_entity_tables);
    let b7 = reader_phase(b6, NodeKind::VirtualEntity, "entity."@, items7);
    lemma_reader_phase_extends(b6, NodeKind::VirtualEntity, "entity."@, items7);
    lemma_extends_trans(b5, b6, b7);
    assert(b7 == dependency_build(inst, relation_tables, attribute_materialization_tables, virtual_entity_tables));
    let e = ((b4.nodes.len() + k) as usize, table_index(b4.tables, source_table_name(ms[k].2[j])).unwrap());
    let q = choose|q: int| 0 <= q < b5.edges.len() && b5.edges[q] == e;
    assert(b7.edges[q] == b5.edges[q]);
    assert(b7.nodes[b4.nodes.len() + k] == b5.nodes[b4.nodes.len() + k]);
    if table_index(b4.tables, "trend."@ + ms[k].1) is Some {
        let f = (table_index(b4.tables, "trend."@ + ms[k].1).unwrap(), (b4.nodes.len() + k) as usize);
        let p = choose|p: int| 0 <= p < b5.edges.len() && b5.edges[p] == f;
        assert(b7.edges[p] == b5.edges[p]);
    }
}

/// Every relation of an instance is registered as `relation.<name>` by the time the
/// trend materializations are linked.
pub proof fn lemma_relations_registered(inst: MinervaInstance, relation_tables: Seq<Option<Vec<String>>>, r: int)
    requires
        0 <= r < inst.relations@.len(),
    ensures
        table_index(
            build_before_materializations(inst, relation_tables).tables,
            "relation."@ + inst.relations@[r].name@,
        ) is Some,
{
    let empty = GraphBuild { nodes: Seq::empty(), edges: Seq::empty(), tables: Seq::empty() };
    let b1 = entity_phase(empty, inst.entity_types@.map_values(|e: EntityType| e.name@));
    let b2 = object_phase(b1, NodeKind::TrendStorePart, "trend."@, part_names(inst.trend_stores@));
    let b3 = object_phase(b2, NodeKind::AttributeStore, "attribute."@, store_names(inst.attribute_stores@));
    let items = readers_input(inst.relations@.map_values(|x: Relation| x.name@), relation_tables);
    lemma_relation_phase_registers(b3, items);
    assert(items[r].0 == inst.relations@[r].name@);
}

/// In the dependency graph of an instance, a trend materialization that reads a
/// relation of the instance has an edge from its node to the node registered as that
/// relation.
pub proof fn lemma_dependency_graph_links_relations(
    inst: MinervaInstance,
    relation_tables: Seq<Option<Vec<String>>>,
    attribute_materialization_tables: Seq<Option<Vec<String>>>,
    virtual_entity_tables: Seq<Option<Vec<String>>>,
    k: int,
    j: int,
    r: int,
)
    requires
        0 <= k < inst.trend_materializations@.len(),
        0 <= j < materialization_sources(inst.trend_materializations@[k]@).len(),
        0 <= r < inst.relations@.len(),
        materialization_sources(inst.trend_materializations@[k]@)[j] == (SourceView::Relation {
            relation: inst.relations@[r].name@,
        }),
    ensures
        table_index(
            build_before_materializations(inst, relation_tables).tables,
            "relation."@ + inst.relations@[r].name@,
        ) is Some,
        dependency_build(inst, relation_tables, attribute_materialization_tables, virtual_entity_tables).edges.contains(
            (
                (build_before_materializations(inst, relation_tables).nodes.len() + k) as usize,
                table_index(
                    build_before_materializations(inst, relation_tables).tables,
                    "relation."@ + inst.relations@[r].name@,
                ).unwrap(),
            ),
        ),
{
    lemma_relations_registered(inst, relation_tables, r);
    assert(source_table_name(materialization_sources(inst.trend_materializations@[k]@)[j]) == "relation."@
        + inst.relations@[r].name@);
    lemma_dependency_graph_links_sources(
        inst,
        relation_tables,
        attribute_materialization_tables,
        virtual_entity_tables,
        k,
        j,
    );
}

/// A step of the initialization of an instance in a database.
pub enum InitStep {
    Custom(String),
    AttributeStores,
    TrendStores,
    NotificationStores,
    VirtualEntities,
    Relations,
    TrendMaterializations,
    AttributeMaterializations,
    Triggers,
}

/// A step of the initialization, mathematically.
pub enum InitStepView {
    Custom(Seq<char>),
    AttributeStores,
    TrendStores,
    NotificationStores,
    VirtualEntities,
    Relations,
    TrendMaterializations,
    AttributeMaterializations,
    Triggers,
}

impl View for InitStep {
    type V = InitStepView;

    open spec fn view(&self) -> InitStepView {
        match self {
            InitStep::Custom(p) => InitStepView::Custom(p@),
            InitStep::AttributeStores => InitStepView::AttributeStores,
            InitStep::TrendStores => InitStepView::TrendStores,
            InitStep::NotificationStores => InitStepView::NotificationStores,
            InitStep::VirtualEntities => InitStepView::VirtualEntities,
            InitStep::Relations => InitStepView::Relations,
            InitStep::TrendMaterializations => InitStepView::TrendMaterializations,
            InitStep::AttributeMaterializations => InitStepView::AttributeMaterializations,
            InitStep::Triggers => InitStepView::Triggers,
        }
    }
}

/// The text of an optional root.
pub open spec fn root_view(root: Option<String>) -> Option<Seq<char>> {
    match root {
        Some(r) => Some(r@),
        None => None,
    }
}

/// The glob pattern of the custom files of a phase under an instance's root.
pub open spec fn custom_pattern(root: Seq<char>, phase: Seq<char>) -> Seq<char> {
    root + "/custom/"@ + phase + "/**/*"@
}

/// The custom step of a phase, when the instance has a root.
pub open spec fn custom_steps(root: Option<Seq<char>>, phase: Seq<char>) -> Seq<InitStepView> {
    match root {
        Some(r) => seq![InitStepView::Custom(custom_pattern(r, phase))],
        None => Seq::empty(),
    }
}

/// The steps of the initialization of an instance: the custom files of each phase
/// (only for an instance with a root) around the creation of its objects, in the order
/// in which they depend on each other.
pub open spec fn initialization_plan(root: Option<Seq<char>>) -> Seq<InitStepView> {
    custom_steps(root, "pre-init"@) + seq![InitStepView::AttributeStores, InitStepView::TrendStores]
        + custom_steps(root, "pre-notification-init"@) + seq![
        InitStepView::NotificationStores,
        InitStepView::VirtualEntities,
    ] + custom_steps(root, "pre-relation-init"@) + seq![InitStepView::Relations] + custom_steps(
        root,
        "pre-materialization-init"@,
    ) + seq![InitStepView::TrendMaterializations, InitStepView::AttributeMaterializations]
        + custom_steps(root, "pre-trigger-init"@) + seq![InitStepView::Triggers] + custom_steps(
        root,
        "post-init"@,
    )
}

/// The views of steps.
pub open spec fn steps_view(steps: Seq<InitStep>) -> Seq<InitStepView> {
    steps.map_values(|s: InitStep| s@)
}

/// Appends a step.
fn push_step(steps: &mut Vec<InitStep>, step: InitStep)
    ensures
        steps_view(final(steps)@) == steps_view(old(steps)@).push(step@),
{
    let ghost prev = steps@;
    steps.push(step);
    assert forall|j: int| 0 <= j < prev.len() implies steps_view(steps@)[j] == steps_view(prev)[j] by {
        assert(steps@[j] == prev[j]);
    }
    assert(steps_view(steps@) =~= steps_view(prev).push(step@));
}

/// Appends the custom step of a phase, when there is a root.
fn push_custom(steps: &mut Vec<InitStep>, root: &Option<String>, phase: &str)
    ensures
        steps_view(final(steps)@) == steps_view(old(steps)@) + custom_steps(root_view(*root), phase@),
{
    match root {
        Some(r) => {
            let mut p = r.clone();
            p.append("/custom/");
            p.append(phase);
            p.append("/**/*");
            proof {
                reveal_strlit("/custom/");
                reveal_strlit("/**/*");
            }
            push_step(steps, InitStep::Custom(p));
            assert(steps_view(steps@) =~= steps_view(old(steps)@) + custom_steps(Some(r@), phase@));
        },
        None => {
            assert(steps_view(steps@) =~= steps_view(old(steps)@) + custom_steps(None, phase@));
        },
    }
}

/// Whether a file's permission bits let anyone run it.
pub fn is_executable_mode(mode: u32) -> (r: bool)
    ensures
        r == (mode & 0o111 != 0),
{
    mode & 0o111 != 0
}

/// What to do with a path that a custom glob pattern matched.
#[derive(Clone, Copy, Debug, PartialEq, Eq, Structural)]
pub enum CustomAction {
    ReportDirectory,
    ExecuteSql,
    ExecutePsql,
    ExecuteIfExecutable,
    ReportNoExtension,
}

/// What to do with a custom path: report a directory; run a `.sql` file in the
/// database and a `.psql` file with psql; run any other file when it is executable; and
/// report a file without an extension. An extension that is not valid UTF-8 counts as
/// an empty one.
pub fn custom_action(is_dir: bool, extension: Option<&str>) -> (r: CustomAction)
    ensures
        r == (if is_dir {
            CustomAction::ReportDirectory
        } else {
            match extension {
                None => CustomAction::ReportNoExtension,
                Some(e) => if e@ == "sql"@ {
                    CustomAction::ExecuteSql
                } else if e@ == "psql"@ {
                    CustomAction::ExecutePsql
                } else {
                    CustomAction::ExecuteIfExecutable
                },
            }
        }),
{
    if is_dir {
        return CustomAction::ReportDirectory;
    }
    proof {
        reveal_strlit("sql");
        reveal_strlit("psql");
    }
    match extension {
        None => CustomAction::ReportNoExtension,
        Some(e) => {
            let ext = e.to_owned();
            if same_text(&ext, "sql") {
                CustomAction::ExecuteSql
            } else if same_text(&ext, "psql") {
                CustomAction::ExecutePsql
            } else {
                CustomAction::ExecuteIfExecutable
            }
        },
    }
}

impl MinervaInstance {
    /// The steps of the initialization of this instance in a database.
    pub fn initialization_steps(&self) -> (steps: Vec<InitStep>)
        ensures
            steps_view(steps@) == initialization_plan(root_view(self.instance_root)),
    {
        let mut steps: Vec<InitStep> = Vec::new();
        push_custom(&mut steps, &self.instance_root, "pre-init");
        push_step(&mut steps, InitStep::AttributeStores);
        push_step(&mut steps, InitStep::TrendStores);
        push_custom(&mut steps, &self.instance_root, "pre-notification-init");
        push_step(&mut steps, InitStep::NotificationStores);
        push_step(&mut steps, InitStep::VirtualEntities);
        push_custom(&mut steps, &self.instance_root, "pre-relation-init");
        push_step(&mut steps, InitStep::Relations);
        push_custom(&mut steps, &self.instance_root, "pre-materialization-init");
        push_step(&mut steps, InitStep::TrendMaterializations);
        push_step(&mut steps, InitStep::AttributeMaterializations);
        push_custom(&mut steps, &self.instance_root, "pre-trigger-init");
        push_step(&mut steps, InitStep::Triggers);
        push_custom(&mut steps, &self.instance_root, "post-init");
        proof {
            reveal_strlit("pre-init");
            reveal_strlit("pre-notification-init");
            reveal_strlit("pre-relation-init");
            reveal_strlit("pre-materialization-init");
            reveal_strlit("pre-trigger-init");
            reveal_strlit("post-init");
            assert(steps_view(steps@) =~= initialization_plan(root_view(self.instance_root)));
        }
        steps
    }
}

} // verus!
