use vstd::prelude::*;

use petgraph::graph::Graph;

use crate::graph::{
    add_graph_edge, add_graph_node, graph_edges, graph_nodes, new_graph, GraphNode, GraphNodeView,
    NodeKind,
};

use crate::trend_materialization::SourceView;

verus! {

/// A dependency graph under construction: its nodes, its edges, and the table names
/// under which nodes are registered, in the order of registration.
pub struct GraphBuild {
    pub nodes: Seq<GraphNodeView>,
    pub edges: Seq<(usize, usize)>,
    pub tables: Seq<(Seq<char>, usize)>,
}

/// The node registered last under the table name `key`, if any: a later registration
/// overrides an earlier one.
pub open spec fn table_index(tables: Seq<(Seq<char>, usize)>, key: Seq<char>) -> Option<usize>
    decreases tables.len(),
{
    if tables.len() == 0 {
        None
    } else if tables.last().0 == key {
        Some(tables.last().1)
    } else {
        table_index(tables.drop_last(), key)
    }
}

/// The build with a node appended.
pub open spec fn with_node(b: GraphBuild, node: GraphNodeView) -> GraphBuild {
    GraphBuild { nodes: b.nodes.push(node), ..b }
}

/// The build with an edge appended.
pub open spec fn with_edge(b: GraphBuild, source: usize, target: usize) -> GraphBuild {
    GraphBuild { edges: b.edges.push((source, target)), ..b }
}

/// The build with a node appended and registered under the table name `key`.
pub open spec fn registered(b: GraphBuild, node: GraphNodeView, key: Seq<char>) -> GraphBuild {
    GraphBuild {
        nodes: b.nodes.push(node),
        edges: b.edges,
        tables: b.tables.push((key, b.nodes.len() as usize)),
    }
}

/// The build with an edge from node `from` to the node registered under the table
/// name `name`; when there is none, a table node called `name` is added and registered
/// first.
pub open spec fn link_table(b: GraphBuild, from: usize, name: Seq<char>) -> GraphBuild {
    match table_index(b.tables, name) {
        Some(i) => with_edge(b, from, i),
        None => with_edge(registered(b, (NodeKind::Table, name), name), from, b.nodes.len() as usize),
    }
}

/// The build with an edge from node `from` to each table of `names`, in order.
pub open spec fn link_tables(b: GraphBuild, from: usize, names: Seq<Seq<char>>) -> GraphBuild
    decreases names.len(),
{
    if names.len() == 0 {
        b
    } else {
        link_table(link_tables(b, from, names.drop_last()), from, names.last())
    }
}

/// The build with a node for each entity type, named and registered
/// `entity.<name>`.
pub open spec fn entity_phase(b: GraphBuild, names: Seq<Seq<char>>) -> GraphBuild
    decreases names.len(),
{
    if names.len() == 0 {
        b
    } else {
        let key = "entity."@ + names.last();
        registered(entity_phase(b, names.drop_last()), (NodeKind::Table, key), key)
    }
}

/// The build with a node for each object of `kind` in `names`, registered under its
/// name behind `prefix`.
pub open spec fn object_phase(b: GraphBuild, kind: NodeKind, prefix: Seq<char>, names: Seq<Seq<char>>) -> GraphBuild
    decreases names.len(),
{
    if names.len() == 0 {
        b
    } else {
        registered(
            object_phase(b, kind, prefix, names.drop_last()),
            (kind, names.last()),
            prefix + names.last(),
        )
    }
}

/// The step of a relation: its node, registered as `relation.<name>`, and an edge from
/// it to each table its query reads, if its query could be read.
pub open spec fn relation_step(b: GraphBuild, relation: (Seq<char>, Option<Seq<Seq<char>>>)) -> GraphBuild {
    let i = b.nodes.len() as usize;
    let b1 = registered(b, (NodeKind::Relation, relation.0), "relation."@ + relation.0);
    match relation.1 {
        Some(t) => link_tables(b1, i, t),
        None => b1,
    }
}

/// The build with the steps of the relations, in order.
pub open spec fn relation_phase(b: GraphBuild, relations: Seq<(Seq<char>, Option<Seq<Seq<char>>>)>) -> GraphBuild
    decreases relations.len(),
{
    if relations.len() == 0 {
        b
    } else {
        relation_step(relation_phase(b, relations.drop_last()), relations.last())
    }
}

/// The edge from a materialization's node `from` to one of its sources: a trend store
/// part, an attribute store or a relation, looked up by its table name; a source that
/// is not registered gives no edge.
pub open spec fn source_step(b: GraphBuild, from: usize, source: SourceView) -> GraphBuild {
    let key = match source {
        SourceView::Trend { trend_store_part, .. } => "trend."@ + trend_store_part,
        SourceView::Attribute { attribute_store } => "attribute."@ + attribute_store,
        SourceView::Relation { relation } => "relation."@ + relation,
    };
    match table_index(b.tables, key) {
        Some(t) => with_edge(b, from, t),
        None => b,
    }
}

/// The build with the edges to the sources, in order.
pub open spec fn sources_phase(b: GraphBuild, from: usize, sources: Seq<SourceView>) -> GraphBuild
    decreases sources.len(),
{
    if sources.len() == 0 {
        b
    } else {
        source_step(sources_phase(b, from, sources.drop_last()), from, sources.last())
    }
}

/// The step of a trend materialization, of node kind `m.0` with target trend store
/// part `m.1` and sources `m.2`: its node, an edge from the target part to it, and an
/// edge from it to each source.
pub open spec fn materialization_step(b: GraphBuild, m: (NodeKind, Seq<char>, Seq<SourceView>)) -> GraphBuild {
    let i = b.nodes.len() as usize;
    let b1 = with_node(b, (m.0, m.1));
    let b2 = match table_index(b.tables, "trend."@ + m.1) {
        Some(s) => with_edge(b1, s, i),
        None => b1,
    };
    sources_phase(b2, i, m.2)
}

/// The build with the steps of the trend materializations, in order.
pub open spec fn materialization_phase(b: GraphBuild, ms: Seq<(NodeKind, Seq<char>, Seq<SourceView>)>) -> GraphBuild
    decreases ms.len(),
{
    if ms.len() == 0 {
        b
    } else {
        materialization_step(materialization_phase(b, ms.drop_last()), ms.last())
    }
}

/// The step of an object that fills a registered table and reads tables: its node of
/// `kind` called `item.0`, an edge from the table registered as `prefix` and its name
/// to it when there is one, and an edge from it to each table its query reads, if the
/// query could be read.
pub open spec fn reader_step(
    b: GraphBuild,
    kind: NodeKind,
    prefix: Seq<char>,
    item: (Seq<char>, Option<Seq<Seq<char>>>),
) -> GraphBuild {
    let i = b.nodes.len() as usize;
    let b1 = with_node(b, (kind, item.0));
    let b2 = match table_index(b.tables, prefix + item.0) {
        Some(s) => with_edge(b1, s, i),
        None => b1,
    };
    match item.1 {
        Some(t) => link_tables(b2, i, t),
        None => b2,
    }
}

/// The build with the steps of the readers, in order.
pub open spec fn reader_phase(
    b: GraphBuild,
    kind: NodeKind,
    prefix: Seq<char>,
    items: Seq<(Seq<char>, Option<Seq<Seq<char>>>)>,
) -> GraphBuild
    decreases items.len(),
{
    if items.len() == 0 {
        b
    } else {
        reader_step(reader_phase(b, kind, prefix, items.drop_last()), kind, prefix, items.last())
    }
}

/// Whether the build's edges and registrations point at its nodes.
pub open spec fn build_wf(b: GraphBuild) -> bool {
    &&& forall|k: int|
        0 <= k < b.edges.len() ==> (#[trigger] b.edges[k]).0 < b.nodes.len() && b.edges[k].1
            < b.nodes.len()
    &&& forall|k: int| 0 <= k < b.tables.len() ==> (#[trigger] b.tables[k]).1 < b.nodes.len()
}

/// A registered node is a node.
pub proof fn lemma_table_index_wf(b: GraphBuild, key: Seq<char>)
    requires
        build_wf(b),
    ensures
        table_index(b.tables, key) matches Some(i) ==> i < b.nodes.len(),
{
    lemma_table_index_in(b.tables, key);
    if let Some(i) = table_index(b.tables, key) {
        let k = choose|k: int| 0 <= k < b.tables.len() && b.tables[k].1 == i;
        assert(b.tables[k].1 < b.nodes.len());
    }
}

/// What `table_index` finds is registered.
pub proof fn lemma_table_index_in(tables: Seq<(Seq<char>, usize)>, key: Seq<char>)
    ensures
        table_index(tables, key) matches Some(i) ==> exists|k: int|
            0 <= k < tables.len() && (#[trigger] tables[k]).1 == i,
    decreases tables.len(),
{
    if tables.len() > 0 && tables.last().0 != key {
        lemma_table_index_in(tables.drop_last(), key);
        if let Some(i) = table_index(tables, key) {
            let k = choose|k: int| 0 <= k < tables.drop_last().len() && (#[trigger] tables.drop_last()[k]).1 == i;
            assert(tables[k] == tables.drop_last()[k]);
        }
    } else if tables.len() > 0 {
        assert(tables[tables.len() - 1] == tables.last());
    }
}

/// Whether `c` keeps the nodes, edges and table registrations of `b` in place, at the
/// start of its own.
pub open spec fn extends(b: GraphBuild, c: GraphBuild) -> bool {
    &&& b.nodes.len() <= c.nodes.len()
    &&& b.edges.len() <= c.edges.len()
    &&& b.tables.len() <= c.tables.len()
    &&& forall|i: int| 0 <= i < b.nodes.len() ==> c.nodes[i] == #[trigger] b.nodes[i]
    &&& forall|i: int| 0 <= i < b.edges.len() ==> c.edges[i] == #[trigger] b.edges[i]
    &&& forall|i: int| 0 <= i < b.tables.len() ==> c.tables[i] == #[trigger] b.tables[i]
}

/// Extending is transitive.
pub proof fn lemma_extends_trans(a: GraphBuild, b: GraphBuild, c: GraphBuild)
    requires
        extends(a, b),
        extends(b, c),
    ensures
        extends(a, c),
{
    assert forall|i: int| 0 <= i < a.nodes.len() implies c.nodes[i] == #[trigger] a.nodes[i] by {
        assert(b.nodes[i] == a.nodes[i]);
    }
    assert forall|i: int| 0 <= i < a.edges.len() implies c.edges[i] == #[trigger] a.edges[i] by {
        assert(b.edges[i] == a.edges[i]);
    }
    assert forall|i: int| 0 <= i < a.tables.len() implies c.tables[i] == #[trigger] a.tables[i] by {
        assert(b.tables[i] == a.tables[i]);
    }
}

/// Linking a table extends the build.
proof fn lemma_link_table_extends(b: GraphBuild, from: usize, name: Seq<char>)
    ensures
        extends(b, link_table(b, from, name)),
{
}

/// Linking tables extends the build.
proof fn lemma_link_tables_extends(b: GraphBuild, from: usize, names: Seq<Seq<char>>)
    ensures
        extends(b, link_tables(b, from, names)),
    decreases names.len(),
{
    if names.len() > 0 {
        lemma_link_tables_extends(b, from, names.drop_last());
        let m = link_tables(b, from, names.drop_last());
        lemma_link_table_extends(m, from, names.last());
        lemma_extends_trans(b, m, link_tables(b, from, names));
    }
}

/// The steps of readers extend the build.
pub proof fn lemma_reader_phase_extends(
    b: GraphBuild,
    kind: NodeKind,
    prefix: Seq<char>,
    items: Seq<(Seq<char>, Option<Seq<Seq<char>>>)>,
)
    ensures
        extends(b, reader_phase(b, kind, prefix, items)),
    decreases items.len(),
{
    if items.len() > 0 {
        lemma_reader_phase_extends(b, kind, prefix, items.drop_last());
        let m = reader_phase(b, kind, prefix, items.drop_last());
        let item = items.last();
        let i = m.nodes.len() as usize;
        let b1 = with_node(m, (kind, item.0));
        let b2 = match table_index(m.tables, prefix + item.0) {
            Some(x) => with_edge(b1, x, i),
            None => b1,
        };
        assert(extends(m, b2));
        if let Some(t) = item.1 {
            lemma_link_tables_extends(b2, i, t);
            lemma_extends_trans(m, b2, link_tables(b2, i, t));
        }
        lemma_extends_trans(b, m, reader_phase(b, kind, prefix, items));
    }
}

/// The steps of relations extend the build, and each relation is registered as
/// `relation.<name>` in the result.
pub proof fn lemma_relation_phase_registers(b: GraphBuild, relations: Seq<(Seq<char>, Option<Seq<Seq<char>>>)>)
    ensures
        extends(b, relation_phase(b, relations)),
        forall|r: int|
            0 <= r < relations.len() ==> table_index(
                relation_phase(b, relations).tables,
                "relation."@ + (#[trigger] relations[r]).0,
            ) is Some,
    decreases relations.len(),
{
    if relations.len() > 0 {
        let rest = relations.drop_last();
        lemma_relation_phase_registers(b, rest);
        let m = relation_phase(b, rest);
        let rel = relations.last();
        let i = m.nodes.len() as usize;
        let b1 = registered(m, (NodeKind::Relation, rel.0), "relation."@ + rel.0);
        assert(extends(m, b1));
        let c = relation_phase(b, relations);
        if let Some(t) = rel.1 {
            lemma_link_tables_extends(b1, i, t);
            lemma_extends_trans(m, b1, link_tables(b1, i, t));
        }
        lemma_extends_trans(b, m, c);
        assert(extends(b1, c));
        assert forall|r: int| 0 <= r < relations.len() implies table_index(
            c.tables,
            "relation."@ + (#[trigger] relations[r]).0,
        ) is Some by {
            if r < relations.len() - 1 {
                assert(rest[r] == relations[r]);
                lemma_table_index_kept(m.tables, c.tables, "relation."@ + relations[r].0);
            } else {
                assert(table_index(b1.tables, "relation."@ + rel.0) is Some);
                lemma_table_index_kept(b1.tables, c.tables, "relation."@ + rel.0);
            }
        }
    }
}

/// A key registered in a list of registrations stays registered when more are
/// appended.
pub proof fn lemma_table_index_kept(a: Seq<(Seq<char>, usize)>, c: Seq<(Seq<char>, usize)>, key: Seq<char>)
    requires
        a.len() <= c.len(),
        forall|i: int| 0 <= i < a.len() ==> c[i] == #[trigger] a[i],
        table_index(a, key) is Some,
    ensures
        table_index(c, key) is Some,
    decreases c.len(),
{
    if c.len() > a.len() && c.last().0 != key {
        assert forall|i: int| 0 <= i < a.len() implies c.drop_last()[i] == #[trigger] a[i] by {
            assert(c[i] == a[i]);
        }
        lemma_table_index_kept(a, c.drop_last(), key);
    } else if c.len() == a.len() {
        assert(c =~= a);
    }
}

/// The table name under which a source of a materialization is registered:
/// `trend.<part>`, `attribute.<store>` or `relation.<name>`.
pub open spec fn source_table_name(source: SourceView) -> Seq<char> {
    match source {
        SourceView::Trend { trend_store_part, .. } => "trend."@ + trend_store_part,
        SourceView::Attribute { attribute_store } => "attribute."@ + attribute_store,
        SourceView::Relation { relation } => "relation."@ + relation,
    }
}

/// The edges to the sources keep the nodes and registrations and extend the edges; the
/// source at `j`, where it is registered, gets an edge from `from`.
proof fn lemma_sources_phase_links(b: GraphBuild, from: usize, sources: Seq<SourceView>, j: int)
    ensures
        extends(b, sources_phase(b, from, sources)),
        sources_phase(b, from, sources).nodes == b.nodes,
        sources_phase(b, from, sources).tables == b.tables,
        0 <= j < sources.len() && table_index(b.tables, source_table_name(sources[j])) is Some ==> sources_phase(
            b,
            from,
            sources,
        ).edges.contains((from, table_index(b.tables, source_table_name(sources[j])).unwrap())),
    decreases sources.len(),
{
    if sources.len() > 0 {
        let rest = sources.drop_last();
        lemma_sources_phase_links(b, from, rest, j);
        let m = sources_phase(b, from, rest);
        let c = sources_phase(b, from, sources);
        assert(extends(m, c));
        lemma_extends_trans(b, m, c);
        if 0 <= j < sources.len() && table_index(b.tables, source_table_name(sources[j])) is Some {
            let e = (from, table_index(b.tables, source_table_name(sources[j])).unwrap());
            if j < sources.len() - 1 {
                assert(rest[j] == sources[j]);
                let q = choose|q: int| 0 <= q < m.edges.len() && m.edges[q] == e;
                assert(c.edges[q] == m.edges[q]);
            } else {
                assert(c.edges[c.edges.len() - 1] == e);
            }
        }
    }
}

/// The steps of the materializations keep the registrations, add one node for each
/// materialization, and give materialization `k` an edge to each of its registered
/// sources; the result extends the build.
pub proof fn lemma_materialization_phase_links(
    b: GraphBuild,
    ms: Seq<(NodeKind, Seq<char>, Seq<SourceView>)>,
    k: int,
    j: int,
)
    ensures
        extends(b, materialization_phase(b, ms)),
        materialization_phase(b, ms).tables == b.tables,
        materialization_phase(b, ms).nodes.len() == b.nodes.len() + ms.len(),
        0 <= k < ms.len() ==> materialization_phase(b, ms).nodes[b.nodes.len() + k] == (ms[k].0, ms[k].1),
        0 <= k < ms.len() && table_index(b.tables, "trend."@ + ms[k].1) is Some ==> materialization_phase(
            b,
            ms,
        ).edges.contains((table_index(b.tables, "trend."@ + ms[k].1).unwrap(), (b.nodes.len() + k) as usize)),
        0 <= k < ms.len() && 0 <= j < ms[k].2.len() && table_index(b.tables, source_table_name(ms[k].2[j]))
            is Some ==> materialization_phase(b, ms).edges.contains(
            (
                (b.nodes.len() + k) as usize,
                table_index(b.tables, source_table_name(ms[k].2[j])).unwrap(),
            ),
        ),
    decreases ms.len(),
{
    if ms.len() > 0 {
        let rest = ms.drop_last();
        lemma_materialization_phase_links(b, rest, k, j);
        let m = materialization_phase(b, rest);
        let last = ms.last();
        let i = m.nodes.len() as usize;
        let b1 = with_node(m, (last.0, last.1));
        let b2 = match table_index(m.tables, "trend."@ + last.1) {
            Some(s) => with_edge(b1, s, i),
            None => b1,
        };
        assert(extends(m, b2));
        lemma_sources_phase_links(b2, i, last.2, j);
        let c = materialization_phase(b, ms);
        assert(c == sources_phase(b2, i, last.2));
        lemma_extends_trans(m, b2, c);
        lemma_extends_trans(b, m, c);
        if 0 <= k < ms.len() {
            if k < ms.len() - 1 {
                assert(rest[k] == ms[k]);
                assert(c.nodes[b.nodes.len() + k] == m.nodes[b.nodes.len() + k]);
                if 0 <= j < ms[k].2.len() && table_index(b.tables, source_table_name(ms[k].2[j])) is Some {
                    let e = ((b.nodes.len() + k) as usize, table_index(b.tables, source_table_name(ms[k].2[j])).unwrap());
                    let q = choose|q: int| 0 <= q < m.edges.len() && m.edges[q] == e;
                    assert(c.edges[q] == m.edges[q]);
                }
                if table_index(b.tables, "trend."@ + ms[k].1) is Some {
                    let e = (table_index(b.tables, "trend."@ + ms[k].1).unwrap(), (b.nodes.len() + k) as usize);
                    let q = choose|q: int| 0 <= q < m.edges.len() && m.edges[q] == e;
                    assert(c.edges[q] == m.edges[q]);
                }
            } else {
                assert(c.nodes[b.nodes.len() + k] == b2.nodes[m.nodes.len() as int]);
                if table_index(b.tables, "trend."@ + ms[k].1) is Some {
                    assert(b2.edges[b2.edges.len() - 1] == (
                        table_index(b.tables, "trend."@ + ms[k].1).unwrap(),
                        (b.nodes.len() + k) as usize,
                    ));
                    assert(c.edges[b2.edges.len() - 1] == b2.edges[b2.edges.len() - 1]);
                }
            }
        }
    }
}

/// The exec side of a dependency graph under construction.
pub struct GraphBuilder {
    nodes: Vec<GraphNode>,
    edges: Vec<(usize, usize)>,
    tables: Vec<(String, usize)>,
}

/// The views of nodes.
pub open spec fn nodes_view(nodes: Seq<GraphNode>) -> Seq<GraphNodeView> {
    nodes.map_values(|n: GraphNode| n@)
}

/// The views of table registrations.
pub open spec fn tables_view(tables: Seq<(String, usize)>) -> Seq<(Seq<char>, usize)> {
    tables.map_values(|t: (String, usize)| (t.0@, t.1))
}

impl View for GraphBuilder {
    type V = GraphBuild;

    closed spec fn view(&self) -> GraphBuild {
        GraphBuild {
            nodes: nodes_view(self.nodes@),
            edges: self.edges@,
            tables: tables_view(self.tables@),
        }
    }
}

impl GraphBuilder {
    /// An empty build.
    pub fn new() -> (r: GraphBuilder)
        ensures
            r@ == (GraphBuild { nodes: Seq::empty(), edges: Seq::empty(), tables: Seq::empty() }),
    {
        let r = GraphBuilder { nodes: Vec::new(), edges: Vec::new(), tables: Vec::new() };
        assert(nodes_view(r.nodes@) =~= Seq::<GraphNodeView>::empty());
        assert(tables_view(r.tables@) =~= Seq::<(Seq<char>, usize)>::empty());
        r
    }

    /// The number of nodes.
    pub fn node_count(&self) -> (n: usize)
        ensures
            n == self@.nodes.len(),
    {
        self.nodes.len()
    }

    /// Appends a node.
    pub fn add_node(&mut self, node: GraphNode)
        ensures
            final(self)@ == with_node(old(self)@, node@),
    {
        let ghost prev = self.nodes@;
        self.nodes.push(node);
        proof {
            assert forall|j: int| 0 <= j < prev.len() implies nodes_view(self.nodes@)[j]
                == nodes_view(prev)[j] by {
                assert(self.nodes@[j] == prev[j]);
            }
            assert(nodes_view(self.nodes@) =~= nodes_view(prev).push(node@));
        }
    }

    /// Appends an edge.
    pub fn add_edge(&mut self, source: usize, target: usize)
        ensures
            final(self)@ == with_edge(old(self)@, source, target),
    {
        self.edges.push((source, target));
    }

    /// Appends a node and registers it under `key`.
    pub fn add_registered(&mut self, node: GraphNode, key: String)
        ensures
            final(self)@ == registered(old(self)@, node@, key@),
    {
        let i = self.nodes.len();
        self.add_node(node);
        let ghost prev = self.tables@;
        self.tables.push((key, i));
        proof {
            assert forall|j: int| 0 <= j < prev.len() implies tables_view(self.tables@)[j]
                == tables_view(prev)[j] by {
                assert(self.tables@[j] == prev[j]);
            }
            assert(tables_view(self.tables@) =~= tables_view(prev).push((key@, i)));
        }
    }

    /// The node registered last under `key`, if any.
    pub fn lookup(&self, key: &String) -> (r: Option<usize>)
        ensures
            r == table_index(self@.tables, key@),
    {
        let ghost v = tables_view(self.tables@);
        let mut i: usize = self.tables.len();
        assert(v.take(i as int) =~= v);
        while i > 0
            invariant
                i <= self.tables.len(),
                v == tables_view(self.tables@),
                v == self@.tables,
                table_index(v, key@) == table_index(v.take(i as int), key@),
            decreases i,
        {
            let ghost t = v.take(i as int);
            assert(t.drop_last() =~= v.take(i - 1));
            assert(t.last() == (self.tables@[i - 1].0@, self.tables@[i - 1].1));
            if self.tables[i - 1].0 == *key {
                return Some(self.tables[i - 1].1);
            }
            i = i - 1;
        }
        None
    }

    /// Adds an edge from node `from` to the table called `name`, adding the table
    /// first when it is not registered.
    pub fn link_table(&mut self, from: usize, name: &String)
        ensures
            final(self)@ == link_table(old(self)@, from, name@),
    {
        match self.lookup(name) {
            Some(i) => self.add_edge(from, i),
            None => {
                let i = self.nodes.len();
                self.add_registered(GraphNode::Table(name.clone()), name.clone());
                self.add_edge(from, i);
            },
        }
    }

    /// Adds an edge from node `from` to each table of `names`.
    pub fn link_tables(&mut self, from: usize, names: &Vec<String>)
        ensures
            final(self)@ == link_tables(old(self)@, from, names@.map_values(|n: String| n@)),
    {
        let ghost start = self@;
        let ghost views = names@.map_values(|n: String| n@);
        let mut i: usize = 0;
        while i < names.len()
            invariant
                i <= names.len(),
                views == names@.map_values(|n: String| n@),
                self@ == link_tables(start, from, views.take(i as int)),
            decreases names.len() - i,
        {
            assert(views.take(i + 1).drop_last() =~= views.take(i as int));
            assert(views.take(i + 1).last() == names@[i as int]@);
            self.link_table(from, &names[i]);
            i = i + 1;
        }
        assert(views.take(names.len() as int) =~= views);
    }

    /// The graph that the build describes, with an empty weight on each edge.
    pub fn into_graph(&self) -> (g: Graph<GraphNode, String>)
        requires
            build_wf(self@),
            self@.nodes.len() <= 0xFFFF_FFFF,
            self@.edges.len() <= 0xFFFF_FFFF,
        ensures
            graph_nodes(g) == self@.nodes,
            graph_edges(g) == weightless(self@.edges),
    {
        let mut g = new_graph();
        let mut i: usize = 0;
        while i < self.nodes.len()
            invariant
                i <= self.nodes.len(),
                self.nodes.len() <= 0xFFFF_FFFF,
                graph_nodes(g) == nodes_view(self.nodes@).take(i as int),
                graph_edges(g) == Seq::<(usize, usize, Seq<char>)>::empty(),
            decreases self.nodes.len() - i,
        {
            add_graph_node(&mut g, self.nodes[i].duplicate());
            assert(graph_nodes(g) =~= nodes_view(self.nodes@).take(i + 1));
            i = i + 1;
        }
        assert(nodes_view(self.nodes@).take(self.nodes.len() as int) =~= nodes_view(self.nodes@));
        let mut i: usize = 0;
        while i < self.edges.len()
            invariant
                i <= self.edges.len(),
                self.edges.len() <= 0xFFFF_FFFF,
                build_wf(self@),
                graph_nodes(g) == self@.nodes,
                graph_edges(g) == weightless(self.edges@.take(i as int)),
            decreases self.edges.len() - i,
        {
            let (s, t) = self.edges[i];
            assert(self@.edges[i as int] == (s, t));
            add_graph_edge(&mut g, s, t, String::new());
            assert(graph_edges(g) =~= weightless(self.edges@.take(i + 1)));
            i = i + 1;
        }
        assert(self.edges@.take(self.edges.len() as int) =~= self.edges@);
        g
    }
}

/// The edges with an empty weight each.
pub open spec fn weightless(edges: Seq<(usize, usize)>) -> Seq<(usize, usize, Seq<char>)> {
    edges.map_values(|e: (usize, usize)| (e.0, e.1, Seq::<char>::empty()))
}

/// Each step keeps the build's edges and registrations pointing at its nodes.
pub proof fn lemma_link_tables_wf(b: GraphBuild, from: usize, names: Seq<Seq<char>>)
    requires
        build_wf(b),
        from < b.nodes.len(),
    ensures
        build_wf(link_tables(b, from, names)),
        link_tables(b, from, names).nodes.len() >= b.nodes.len(),
    decreases names.len(),
{
    if names.len() > 0 {
        let p = link_tables(b, from, names.drop_last());
        lemma_link_tables_wf(b, from, names.drop_last());
        lemma_table_index_wf(p, names.last());
        let r = link_tables(b, from, names);
        assert(build_wf(r)) by {
            match table_index(p.tables, names.last()) {
                Some(i) => {
                    assert forall|k: int| 0 <= k < r.edges.len() implies (#[trigger] r.edges[k]).0
                        < r.nodes.len() && r.edges[k].1 < r.nodes.len() by {
                        if k < p.edges.len() {
                            assert(r.edges[k] == p.edges[k]);
                        }
                    }
                },
                None => {
                    assert forall|k: int| 0 <= k < r.edges.len() implies (#[trigger] r.edges[k]).0
                        < r.nodes.len() && r.edges[k].1 < r.nodes.len() by {
                        if k < p.edges.len() {
                            assert(r.edges[k] == p.edges[k]);
                        }
                    }
                    assert forall|k: int| 0 <= k < r.tables.len() implies (#[trigger] r.tables[k]).1
                        < r.nodes.len() by {
                        if k < p.tables.len() {
                            assert(r.tables[k] == p.tables[k]);
                        }
                    }
                },
            }
        }
    }
}

/// Registering a node keeps the build well formed.
pub proof fn lemma_registered_wf(b: GraphBuild, node: GraphNodeView, key: Seq<char>)
    requires
        build_wf(b),
    ensures
        build_wf(registered(b, node, key)),
{
    let r = registered(b, node, key);
    assert forall|k: int| 0 <= k < r.tables.len() implies (#[trigger] r.tables[k]).1 < r.nodes.len() by {
        if k < b.tables.len() {
            assert(r.tables[k] == b.tables[k]);
        }
    }
}

/// Appending a node keeps the build well formed.
pub proof fn lemma_with_node_wf(b: GraphBuild, node: GraphNodeView)
    requires
        build_wf(b),
    ensures
        build_wf(with_node(b, node)),
{
}

/// Appending an edge between nodes keeps the build well formed.
pub proof fn lemma_with_edge_wf(b: GraphBuild, source: usize, target: usize)
    requires
        build_wf(b),
        source < b.nodes.len(),
        target < b.nodes.len(),
    ensures
        build_wf(with_edge(b, source, target)),
{
    let r = with_edge(b, source, target);
    assert forall|k: int| 0 <= k < r.edges.len() implies (#[trigger] r.edges[k]).0 < r.nodes.len()
        && r.edges[k].1 < r.nodes.len() by {
        if k < b.edges.len() {
            assert(r.edges[k] == b.edges[k]);
        }
    }
}

} // verus!
