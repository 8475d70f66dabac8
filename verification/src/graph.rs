use vstd::prelude::*;

use petgraph::graph::{Graph, NodeIndex};
use petgraph::visit::DfsEvent;
use petgraph::Directed;

use crate::change::{object_text, MinervaObjectRef};
use crate::text::{decimal, same_text, strings_view, u64_to_decimal};

verus! {

/// The kinds of object that a node of the dependency graph stands for.
#[derive(Clone, Copy, Debug, PartialEq, Eq, Structural)]
pub enum NodeKind {
    Table,
    TrendStorePart,
    AttributeStore,
    AttributeMaterialization,
    TrendViewMaterialization,
    TrendFunctionMaterialization,
    Relation,
    VirtualEntity,
}

/// A node of the dependency graph: an object of an instance, by kind and name.
#[derive(Clone, Debug, Hash, PartialEq, Eq)]
pub enum GraphNode {
    Table(String),
    TrendStorePart(String),
    AttributeStore(String),
    AttributeMaterialization(String),
    TrendViewMaterialization(String),
    TrendFunctionMaterialization(String),
    Relation(String),
    VirtualEntity(String),
}

/// What a node is, mathematically: its kind and its name.
pub type GraphNodeView = (NodeKind, Seq<char>);

impl View for GraphNode {
    type V = GraphNodeView;

    open spec fn view(&self) -> GraphNodeView {
        match self {
            GraphNode::Table(n) => (NodeKind::Table, n@),
            GraphNode::TrendStorePart(n) => (NodeKind::TrendStorePart, n@),
            GraphNode::AttributeStore(n) => (NodeKind::AttributeStore, n@),
            GraphNode::AttributeMaterialization(n) => (NodeKind::AttributeMaterialization, n@),
            GraphNode::TrendViewMaterialization(n) => (NodeKind::TrendViewMaterialization, n@),
            GraphNode::TrendFunctionMaterialization(n) => (
                NodeKind::TrendFunctionMaterialization,
                n@,
            ),
            GraphNode::Relation(n) => (NodeKind::Relation, n@),
            GraphNode::VirtualEntity(n) => (NodeKind::VirtualEntity, n@),
        }
    }
}

/// The label with which a node of a kind is written.
pub open spec fn kind_label(kind: NodeKind) -> Seq<char> {
    match kind {
        NodeKind::Table => "Table"@,
        NodeKind::TrendStorePart => "TrendStorePart"@,
        NodeKind::AttributeStore => "AttributeStore"@,
        NodeKind::AttributeMaterialization => "AttributeMaterialization"@,
        NodeKind::TrendViewMaterialization => "TrendViewMaterialization"@,
        NodeKind::TrendFunctionMaterialization => "TrendFunctionMaterialization"@,
        NodeKind::Relation => "Relation"@,
        NodeKind::VirtualEntity => "VirtualEntity"@,
    }
}

/// How a node is written: its kind's label, then its name in round brackets.
pub open spec fn node_text(node: GraphNodeView) -> Seq<char> {
    kind_label(node.0) + "("@ + node.1 + ")"@
}

/// No kind's label holds a round bracket, and every label has at least one character.
proof fn lemma_label_shape(k: NodeKind)
    ensures
        kind_label(k).len() > 0,
        forall|i: int| 0 <= i < kind_label(k).len() ==> kind_label(k)[i] != '(',
{
    reveal_strlit("Table");
    reveal_strlit("TrendStorePart");
    reveal_strlit("AttributeStore");
    reveal_strlit("AttributeMaterialization");
    reveal_strlit("TrendViewMaterialization");
    reveal_strlit("TrendFunctionMaterialization");
    reveal_strlit("Relation");
    reveal_strlit("VirtualEntity");
}

/// Two kinds whose labels have the same length and the same first character are the
/// same kind.
proof fn lemma_label_tells_kind(a: NodeKind, b: NodeKind)
    requires
        kind_label(a).len() == kind_label(b).len(),
        kind_label(a).len() > 0,
        kind_label(a)[0] == kind_label(b)[0],
    ensures
        a == b,
{
    reveal_strlit("Table");
    reveal_strlit("TrendStorePart");
    reveal_strlit("AttributeStore");
    reveal_strlit("AttributeMaterialization");
    reveal_strlit("TrendViewMaterialization");
    reveal_strlit("TrendFunctionMaterialization");
    reveal_strlit("Relation");
    reveal_strlit("VirtualEntity");
}

/// Different nodes are written differently: the text of a node gives back its kind and
/// its name.
pub proof fn lemma_node_text_injective(a: GraphNodeView, b: GraphNodeView)
    requires
        node_text(a) == node_text(b),
    ensures
        a == b,
{
    reveal_strlit("(");
    reveal_strlit(")");
    let la = kind_label(a.0);
    let lb = kind_label(b.0);
    let t = node_text(a);
    lemma_label_shape(a.0);
    lemma_label_shape(b.0);
    assert(t == la + "("@ + a.1 + ")"@);
    assert(t == lb + "("@ + b.1 + ")"@);
    if la.len() < lb.len() {
        assert(t[la.len() as int] == '(');
        assert(t[la.len() as int] == lb[la.len() as int]);
    } else if lb.len() < la.len() {
        assert(t[lb.len() as int] == '(');
        assert(t[lb.len() as int] == la[lb.len() as int]);
    }
    assert(la[0] == t[0] && lb[0] == t[0]);
    lemma_label_tells_kind(a.0, b.0);
    assert(a.1 =~= t.subrange(la.len() as int + 1, t.len() - 1));
    assert(b.1 =~= t.subrange(lb.len() as int + 1, t.len() - 1));
}

/// Every node matches the reference that its own text is.
pub proof fn lemma_node_matches_own_text(node: GraphNodeView, text: Seq<char>)
    requires
        text == node_text(node),
    ensures
        forall|other: GraphNodeView| node_text(other) == text ==> other == node,
{
    assert forall|other: GraphNodeView| node_text(other) == text implies other == node by {
        lemma_node_text_injective(other, node);
    }
}

/// Whether the kind is drawn with rounded corners.
pub open spec fn is_rounded(kind: NodeKind) -> bool {
    match kind {
        NodeKind::Table | NodeKind::TrendStorePart | NodeKind::AttributeStore => false,
        _ => true,
    }
}

/// The drawing attributes of a node of a kind.
pub open spec fn kind_attributes(kind: NodeKind) -> Seq<char> {
    if is_rounded(kind) {
        "shape=box,style=\"rounded\""@
    } else {
        "shape=box"@
    }
}

impl GraphNode {
    /// Builds a node of the given kind.
    pub fn from_kind(kind: NodeKind, name: String) -> (r: GraphNode)
        ensures
            r@ == (kind, name@),
    {
        match kind {
            NodeKind::Table => GraphNode::Table(name),
            NodeKind::TrendStorePart => GraphNode::TrendStorePart(name),
            NodeKind::AttributeStore => GraphNode::AttributeStore(name),
            NodeKind::AttributeMaterialization => GraphNode::AttributeMaterialization(name),
            NodeKind::TrendViewMaterialization => GraphNode::TrendViewMaterialization(name),
            NodeKind::TrendFunctionMaterialization => GraphNode::TrendFunctionMaterialization(
                name,
            ),
            NodeKind::Relation => GraphNode::Relation(name),
            NodeKind::VirtualEntity => GraphNode::VirtualEntity(name),
        }
    }

    /// The kind of the node.
    pub fn kind(&self) -> (r: NodeKind)
        ensures
            r == self@.0,
    {
        match self {
            GraphNode::Table(_) => NodeKind::Table,
            GraphNode::TrendStorePart(_) => NodeKind::TrendStorePart,
            GraphNode::AttributeStore(_) => NodeKind::AttributeStore,
            GraphNode::AttributeMaterialization(_) => NodeKind::AttributeMaterialization,
            GraphNode::TrendViewMaterialization(_) => NodeKind::TrendViewMaterialization,
            GraphNode::TrendFunctionMaterialization(_) => NodeKind::TrendFunctionMaterialization,
            GraphNode::Relation(_) => NodeKind::Relation,
            GraphNode::VirtualEntity(_) => NodeKind::VirtualEntity,
        }
    }

    /// The name of the object that the node stands for.
    pub fn name(&self) -> (r: &str)
        ensures
            r@ == self@.1,
    {
        match self {
            GraphNode::Table(name) => name.as_str(),
            GraphNode::TrendStorePart(name) => name.as_str(),
            GraphNode::AttributeStore(name) => name.as_str(),
            GraphNode::AttributeMaterialization(name) => name.as_str(),
            GraphNode::TrendViewMaterialization(name) => name.as_str(),
            GraphNode::TrendFunctionMaterialization(name) => name.as_str(),
            GraphNode::Relation(name) => name.as_str(),
            GraphNode::VirtualEntity(name) => name.as_str(),
        }
    }

    /// A node equal to this one.
    pub fn duplicate(&self) -> (r: GraphNode)
        ensures
            r@ == self@,
    {
        GraphNode::from_kind(self.kind(), self.name().to_owned())
    }

    /// Whether two nodes stand for the same object.
    pub fn same_as(&self, other: &GraphNode) -> (r: bool)
        ensures
            r == (self@ == other@),
    {
        let k1 = self.kind();
        let k2 = other.kind();
        if k1 != k2 {
            return false;
        }
        let n1 = self.name().to_owned();
        same_text(&n1, other.name())
    }

    /// How the node is written, such as `Table(entity.node)`.
    pub fn to_display_string(&self) -> (r: String)
        ensures
            r@ == node_text(self@),
    {
        let label = match self.kind() {
            NodeKind::Table => "Table",
            NodeKind::TrendStorePart => "TrendStorePart",
            NodeKind::AttributeStore => "AttributeStore",
            NodeKind::AttributeMaterialization => "AttributeMaterialization",
            NodeKind::TrendViewMaterialization => "TrendViewMaterialization",
            NodeKind::TrendFunctionMaterialization => "TrendFunctionMaterialization",
            NodeKind::Relation => "Relation",
            NodeKind::VirtualEntity => "VirtualEntity",
        };
        proof {
            reveal_strlit("Table");
            reveal_strlit("TrendStorePart");
            reveal_strlit("AttributeStore");
            reveal_strlit("AttributeMaterialization");
            reveal_strlit("TrendViewMaterialization");
            reveal_strlit("TrendFunctionMaterialization");
            reveal_strlit("Relation");
            reveal_strlit("VirtualEntity");
        }
        let mut s = label.to_owned();
        s.append("(");
        s.append(self.name());
        s.append(")");
        s
    }

    /// Whether the node is the one that `node_ref` writes out.
    pub fn matches_ref(&self, node_ref: &str) -> (r: bool)
        ensures
            r == (node_text(self@) == node_ref@),
    {
        let text = self.to_display_string();
        same_text(&text, node_ref)
    }

    /// The attributes with which the node is drawn.
    pub fn draw_attributes(&self) -> (r: String)
        ensures
            r@ == kind_attributes(self@.0),
    {
        let rounded = match self.kind() {
            NodeKind::Table | NodeKind::TrendStorePart | NodeKind::AttributeStore => false,
            _ => true,
        };
        if rounded {
            let s = "shape=box,style=\"rounded\"";
            s.to_owned()
        } else {
            let s = "shape=box";
            s.to_owned()
        }
    }
}

#[verifier::external_type_specification]
#[verifier::external_body]
#[verifier::reject_recursive_types(N)]
#[verifier::reject_recursive_types(E)]
#[verifier::reject_recursive_types(Ty)]
#[verifier::reject_recursive_types(Ix)]
pub struct ExGraph<N, E, Ty, Ix>(Graph<N, E, Ty, Ix>);

#[verifier::external_type_specification]
#[verifier::external_body]
pub struct ExDirected(Directed);

/// The nodes of a graph, in the order of their indices.
pub uninterp spec fn graph_nodes(graph: Graph<GraphNode, String>) -> Seq<GraphNodeView>;

/// The edges of a graph, in the order of their indices: source index, target index and
/// weight.
pub uninterp spec fn graph_edges(graph: Graph<GraphNode, String>) -> Seq<(usize, usize, Seq<char>)>;

/// `petgraph::Graph::new`: a graph with no node and no edge.
#[verifier::external_body]
pub(crate) fn new_graph() -> (graph: Graph<GraphNode, String>)
    ensures
        graph_nodes(graph) == Seq::<GraphNodeView>::empty(),
        graph_edges(graph) == Seq::<(usize, usize, Seq<char>)>::empty(),
{
    Graph::new()
}

/// `petgraph::Graph::node_count`: the number of nodes. A graph with `u32` indices
/// never holds more than `u32::MAX` nodes (`try_add_node` refuses more).
#[verifier::external_body]
pub(crate) fn graph_node_count(graph: &Graph<GraphNode, String>) -> (n: usize)
    ensures
        n == graph_nodes(*graph).len(),
        n <= 0xFFFF_FFFF,
{
    graph.node_count()
}

/// `petgraph::Graph::edge_count`: the number of edges. A graph with `u32` indices never
/// holds more than `u32::MAX` edges (`try_add_edge` refuses more), and no edge whose
/// endpoint is not a node (`try_add_edge` refuses it too).
#[verifier::external_body]
pub(crate) fn graph_edge_count(graph: &Graph<GraphNode, String>) -> (m: usize)
    ensures
        m == graph_edges(*graph).len(),
        m <= 0xFFFF_FFFF,
        forall|k: int|
            0 <= k < m ==> (#[trigger] graph_edges(*graph)[k]).0 < graph_nodes(*graph).len()
                && graph_edges(*graph)[k].1 < graph_nodes(*graph).len(),
{
    graph.edge_count()
}

/// `petgraph::Graph::add_node`: the node is appended, and its index returned. It
/// panics only when the graph already holds `u32::MAX` nodes.
#[verifier::external_body]
pub(crate) fn add_graph_node(graph: &mut Graph<GraphNode, String>, node: GraphNode) -> (index: usize)
    requires
        graph_nodes(*old(graph)).len() < 0xFFFF_FFFF,
    ensures
        graph_nodes(*final(graph)) == graph_nodes(*old(graph)).push(node@),
        graph_edges(*final(graph)) == graph_edges(*old(graph)),
        index == graph_nodes(*old(graph)).len(),
{
    graph.add_node(node).index()
}

/// `petgraph::Graph::add_edge`: the edge is appended. It panics only on an endpoint
/// that is not a node, or when the graph already holds `u32::MAX` edges.
#[verifier::external_body]
pub(crate) fn add_graph_edge(
    graph: &mut Graph<GraphNode, String>,
    source: usize,
    target: usize,
    weight: String,
)
    requires
        source < graph_nodes(*old(graph)).len(),
        target < graph_nodes(*old(graph)).len(),
        graph_edges(*old(graph)).len() < 0xFFFF_FFFF,
    ensures
        graph_nodes(*final(graph)) == graph_nodes(*old(graph)),
        graph_edges(*final(graph)) == graph_edges(*old(graph)).push((source, target, weight@)),
{
    graph.add_edge(NodeIndex::new(source), NodeIndex::new(target), weight);
}

/// `petgraph::Graph`'s indexing by node: the weight of the node at `index`.
#[verifier::external_body]
pub(crate) fn graph_node(graph: &Graph<GraphNode, String>, index: usize) -> (node: &GraphNode)
    requires
        index < graph_nodes(*graph).len(),
    ensures
        node@ == graph_nodes(*graph)[index as int],
{
    &graph[NodeIndex::new(index)]
}

/// The edges of a graph with each one's direction turned round.
pub open spec fn reversed_edges(edges: Seq<(usize, usize, Seq<char>)>) -> Seq<
    (usize, usize, Seq<char>),
> {
    edges.map_values(|e: (usize, usize, Seq<char>)| (e.1, e.0, e.2))
}

/// `petgraph::Graph::reverse`: each edge keeps its index and weight and has its
/// endpoints swapped; the nodes are untouched.
#[verifier::external_body]
pub(crate) fn reverse_graph(graph: &mut Graph<GraphNode, String>)
    ensures
        graph_nodes(*final(graph)) == graph_nodes(*old(graph)),
        graph_edges(*final(graph)) == reversed_edges(graph_edges(*old(graph))),
{
    graph.reverse()
}

/// `Clone` of `petgraph::Graph`: the copy has the same nodes and edges under the same
/// indices.
#[verifier::external_body]
pub(crate) fn clone_graph(graph: &Graph<GraphNode, String>) -> (copy: Graph<GraphNode, String>)
    ensures
        graph_nodes(copy) == graph_nodes(*graph),
        graph_edges(copy) == graph_edges(*graph),
{
    graph.clone()
}

/// A step of a depth-first walk of a graph, with node indices and the walk's clock.
#[derive(Clone, Copy, Debug, PartialEq, Eq, Structural)]
pub enum DfsStep {
    Discover(usize, usize),
    TreeEdge(usize, usize),
    BackEdge(usize, usize),
    CrossForwardEdge(usize, usize),
    Finish(usize, usize),
}

/// The steps of `petgraph::visit::depth_first_search` on a graph from one start node.
pub uninterp spec fn dfs_steps(graph: Graph<GraphNode, String>, start: usize) -> Seq<DfsStep>;

/// The edge that a step walks along, if it walks along one.
pub open spec fn step_edge(step: DfsStep) -> Option<(usize, usize)> {
    match step {
        DfsStep::TreeEdge(p, c) => Some((p, c)),
        DfsStep::BackEdge(p, c) => Some((p, c)),
        DfsStep::CrossForwardEdge(p, c) => Some((p, c)),
        _ => None,
    }
}

/// The edges that the steps walk along, in order.
pub open spec fn step_pairs(steps: Seq<DfsStep>) -> Seq<(usize, usize)>
    decreases steps.len(),
{
    if steps.len() == 0 {
        Seq::empty()
    } else {
        let rest = step_pairs(steps.drop_last());
        match step_edge(steps.last()) {
            Some(e) => rest.push(e),
            None => rest,
        }
    }
}

/// Whether a step that walks along an edge walks along an edge of the graph.
pub open spec fn step_in_graph(edges: Seq<(usize, usize, Seq<char>)>, step: DfsStep) -> bool {
    match step_edge(step) {
        Some(e) => exists|k: int|
            0 <= k < edges.len() && (#[trigger] edges[k]).0 == e.0 && edges[k].1 == e.1,
        None => true,
    }
}

/// `petgraph::visit::depth_first_search` from one start node, each event turned into a
/// step. The crate's source reports an edge event for each out-neighbour of each node
/// it discovers, once, so each edge step is an edge of the graph and there are no more
/// edge steps than edges. Its first event discovers the start node, it discovers a
/// node only right after the tree edge to it, and it reports the edges out of a node
/// only after discovering that node; a tree edge is followed at once by the discovery
/// of its target, and any other edge event meets a target discovered before
/// (`dfs_ordered`). Each discovered node is discovered once and the events of its
/// out-edges are reported once each, so the edges walked along are those out of the
/// discovered nodes, each once. It panics on a start node that is not in the graph.
#[verifier::external_body]
pub(crate) fn depth_first_steps(graph: &Graph<GraphNode, String>, start: usize) -> (steps: Vec<DfsStep>)
    requires
        start < graph_nodes(*graph).len(),
    ensures
        steps@ == dfs_steps(*graph, start),
        forall|k: int| 0 <= k < steps.len() ==> step_in_graph(graph_edges(*graph), #[trigger] steps@[k]),
        dfs_ordered(steps@, start),
        step_pairs(steps@).to_multiset() == edges_from(graph_edges(*graph), discovered_set(steps@)).to_multiset(),
        step_pairs(steps@).len() <= graph_edges(*graph).len(),
{
    let mut steps = Vec::new();
    petgraph::visit::depth_first_search(graph, Some(NodeIndex::new(start)), |event| {
        steps.push(
            match event {
                DfsEvent::Discover(n, t) => DfsStep::Discover(n.index(), t.0),
                DfsEvent::TreeEdge(p, c) => DfsStep::TreeEdge(p.index(), c.index()),
                DfsEvent::BackEdge(p, c) => DfsStep::BackEdge(p.index(), c.index()),
                DfsEvent::CrossForwardEdge(p, c) => DfsStep::CrossForwardEdge(p.index(), c.index()),
                DfsEvent::Finish(n, t) => DfsStep::Finish(n.index(), t.0),
            },
        )
    });
    steps
}

/// The node values at the ends of the edges, the source before the target.
pub open spec fn endpoint_values(nodes: Seq<GraphNodeView>, pairs: Seq<(usize, usize)>) -> Seq<
    GraphNodeView,
>
    decreases pairs.len(),
{
    if pairs.len() == 0 {
        Seq::empty()
    } else {
        endpoint_values(nodes, pairs.drop_last()).push(nodes[pairs.last().0 as int]).push(
            nodes[pairs.last().1 as int],
        )
    }
}

/// `s` without repetitions, each value where it first occurs.
pub open spec fn distinct_in_order<A>(s: Seq<A>) -> Seq<A>
    decreases s.len(),
{
    if s.len() == 0 {
        Seq::empty()
    } else {
        let rest = distinct_in_order(s.drop_last());
        if rest.contains(s.last()) {
            rest
        } else {
            rest.push(s.last())
        }
    }
}

/// The nodes of the graph that the walk steps span: the values at the ends of the
/// edges walked along, each once, in the order in which the walk meets them.
pub open spec fn walked_nodes(nodes: Seq<GraphNodeView>, steps: Seq<DfsStep>) -> Seq<GraphNodeView> {
    distinct_in_order(endpoint_values(nodes, step_pairs(steps)))
}

/// The edges of the graph that the walk steps span: one for each edge walked along, in
/// order, between the positions of its end values among `sub`, with an empty weight.
pub open spec fn walked_edges(
    nodes: Seq<GraphNodeView>,
    pairs: Seq<(usize, usize)>,
    sub: Seq<GraphNodeView>,
) -> Seq<(usize, usize, Seq<char>)> {
    pairs.map_values(
        |e: (usize, usize)|
            (
                sub.index_of(nodes[e.0 as int]) as usize,
                sub.index_of(nodes[e.1 as int]) as usize,
                Seq::<char>::empty(),
            ),
    )
}

/// A non-empty sequence holds a value when its front part or its last item does.
pub proof fn lemma_contains_drop_last<A>(s: Seq<A>, x: A)
    requires
        s.len() > 0,
    ensures
        s.contains(x) <==> (s.drop_last().contains(x) || x == s.last()),
{
    if s.drop_last().contains(x) {
        let j = choose|j: int| 0 <= j < s.drop_last().len() && s.drop_last()[j] == x;
        assert(s[j] == x);
    }
    if s.contains(x) && x != s.last() {
        let j = choose|j: int| 0 <= j < s.len() && s[j] == x;
        assert(s.drop_last()[j] == x);
    }
    if x == s.last() {
        assert(s[s.len() - 1] == x);
    }
}

/// A sequence with an item appended holds what it held and the new item.
pub proof fn lemma_contains_push<A>(s: Seq<A>, y: A, x: A)
    ensures
        s.push(y).contains(x) <==> (s.contains(x) || x == y),
{
    lemma_contains_drop_last(s.push(y), x);
    assert(s.push(y).drop_last() =~= s);
}

/// Appending a value that is not there keeps a sequence free of repetition.
pub proof fn lemma_push_no_duplicates<A>(s: Seq<A>, y: A)
    requires
        s.no_duplicates(),
        !s.contains(y),
    ensures
        s.push(y).no_duplicates(),
{
    let t = s.push(y);
    assert forall|a: int, b: int| 0 <= a < t.len() && 0 <= b < t.len() && a != b implies t[a]
        != t[b] by {
        if a == s.len() {
            assert(t[b] == s[b]);
        } else if b == s.len() {
            assert(t[a] == s[a]);
        } else {
            assert(t[a] == s[a] && t[b] == s[b]);
        }
    }
}

/// Distinct values in order have no repetition and hold the same values as `s`.
pub proof fn lemma_distinct_in_order<A>(s: Seq<A>)
    ensures
        distinct_in_order(s).no_duplicates(),
        forall|x: A| distinct_in_order(s).contains(x) <==> s.contains(x),
    decreases s.len(),
{
    if s.len() > 0 {
        let t = s.drop_last();
        let r = distinct_in_order(t);
        lemma_distinct_in_order(t);
        if !r.contains(s.last()) {
            lemma_push_no_duplicates(r, s.last());
        }
        assert forall|x: A| distinct_in_order(s).contains(x) <==> s.contains(x) by {
            lemma_contains_drop_last(s, x);
            lemma_contains_push(r, s.last(), x);
        }
    }
}

/// In a sequence without repetition, `index_of` finds the one place of a value.
pub proof fn lemma_index_of_unique<A>(s: Seq<A>, i: int)
    requires
        s.no_duplicates(),
        0 <= i < s.len(),
    ensures
        s.index_of(s[i]) == i,
{
    let j = s.index_of(s[i]);
    assert(0 <= j < s.len() && s[j] == s[i]);
}

/// Appending a new value keeps the place of each value that was there.
pub proof fn lemma_index_of_push<A>(s: Seq<A>, x: A, v: A)
    requires
        s.no_duplicates(),
        !s.contains(x),
        s.contains(v),
    ensures
        s.push(x).index_of(v) == s.index_of(v),
        0 <= s.index_of(v) < s.len(),
        s[s.index_of(v)] == v,
{
    let i = choose|i: int| 0 <= i < s.len() && s[i] == v;
    lemma_index_of_unique(s, i);
    let t = s.push(x);
    assert(t.no_duplicates()) by {
        assert forall|a: int, b: int| 0 <= a < t.len() && 0 <= b < t.len() && a != b implies t[a]
            != t[b] by {
            if a == s.len() {
                assert(t[b] == s[b]);
            } else if b == s.len() {
                assert(t[a] == s[a]);
            }
        }
    }
    assert(t[i] == v);
    lemma_index_of_unique(t, i);
}

/// A sequence without repetition whose values all occur in `all` is no longer than `all`.
pub proof fn lemma_distinct_len_bound<A>(s: Seq<A>, all: Seq<A>)
    requires
        s.no_duplicates(),
        forall|i: int| 0 <= i < s.len() ==> all.contains(#[trigger] s[i]),
    ensures
        s.len() <= all.len(),
{
    broadcast use vstd::seq_lib::seq_to_set_is_finite;
    s.unique_seq_to_set();
    all.lemma_cardinality_of_set();
    assert(s.to_set().subset_of(all.to_set())) by {
        assert forall|x: A| s.to_set().contains(x) implies all.to_set().contains(x) by {
            let i = choose|i: int| 0 <= i < s.len() && s[i] == x;
            assert(all.contains(s[i]));
        }
    }
    vstd::set_lib::lemma_len_subset(s.to_set(), all.to_set());
}

/// The position of a node with the value of `node` among the nodes of `graph`, which
/// is added at the end when no such node is there.
fn position_or_add(graph: &mut Graph<GraphNode, String>, node: &GraphNode) -> (index: usize)
    requires
        graph_nodes(*old(graph)).no_duplicates(),
        !graph_nodes(*old(graph)).contains(node@) ==> graph_nodes(*old(graph)).len()
            < 0xFFFF_FFFF,
    ensures
        graph_edges(*final(graph)) == graph_edges(*old(graph)),
        graph_nodes(*old(graph)).contains(node@) ==> graph_nodes(*final(graph)) == graph_nodes(
            *old(graph),
        ),
        !graph_nodes(*old(graph)).contains(node@) ==> graph_nodes(*final(graph))
            == graph_nodes(*old(graph)).push(node@),
        index < graph_nodes(*final(graph)).len(),
        index == graph_nodes(*final(graph)).index_of(node@),
        graph_nodes(*final(graph))[index as int] == node@,
{
    let ghost before = graph_nodes(*graph);
    let n = graph_node_count(graph);
    let mut j: usize = 0;
    while j < n
        invariant
            j <= n,
            n == before.len(),
            graph_nodes(*graph) == before,
            before.no_duplicates(),
            forall|k: int| 0 <= k < j ==> before[k] != node@,
        decreases n - j,
    {
        if graph_node(graph, j).same_as(node) {
            proof {
                lemma_index_of_unique(before, j as int);
            }
            return j;
        }
        j = j + 1;
    }
    assert(!before.contains(node@));
    let index = add_graph_node(graph, node.duplicate());
    proof {
        let after = before.push(node@);
        assert(after[index as int] == node@);
        assert(after.no_duplicates()) by {
            assert forall|a: int, b: int|
                0 <= a < after.len() && 0 <= b < after.len() && a != b implies after[a]
                != after[b] by {
                if a == before.len() {
                    assert(after[b] == before[b]);
                } else if b == before.len() {
                    assert(after[a] == before[a]);
                }
            }
        }
        lemma_index_of_unique(after, index as int);
    }
    index
}

/// Builds the graph spanned by the edges that the walk steps go along: the values at
/// their ends become the nodes, each once and in the order in which the walk meets
/// them, and each edge walked along becomes an edge between them, with an empty weight.
pub fn graph_from_steps(graph: &Graph<GraphNode, String>, steps: &Vec<DfsStep>) -> (sub: Graph<
    GraphNode,
    String,
>)
    requires
        forall|k: int| 0 <= k < steps.len() ==> step_in_graph(graph_edges(*graph), #[trigger] steps@[k]),
        step_pairs(steps@).len() <= graph_edges(*graph).len(),
    ensures
        graph_nodes(sub) == walked_nodes(graph_nodes(*graph), steps@),
        graph_edges(sub) == walked_edges(
            graph_nodes(*graph),
            step_pairs(steps@),
            walked_nodes(graph_nodes(*graph), steps@),
        ),
{
    let ghost nodes = graph_nodes(*graph);
    let ghost edges = graph_edges(*graph);
    let n = graph_node_count(graph);
    let m = graph_edge_count(graph);
    let mut sub = new_graph();
    let mut i: usize = 0;
    while i < steps.len()
        invariant
            i <= steps.len(),
            nodes == graph_nodes(*graph),
            edges == graph_edges(*graph),
            n == nodes.len(),
            m == edges.len(),
            m <= 0xFFFF_FFFF,
            n <= 0xFFFF_FFFF,
            forall|k: int|
                0 <= k < m ==> (#[trigger] edges[k]).0 < nodes.len() && edges[k].1 < nodes.len(),
            forall|k: int| 0 <= k < steps.len() ==> step_in_graph(edges, #[trigger] steps@[k]),
            step_pairs(steps@).len() <= m,
            graph_nodes(sub) == distinct_in_order(
                endpoint_values(nodes, step_pairs(steps@.take(i as int))),
            ),
            graph_edges(sub) == walked_edges(
                nodes,
                step_pairs(steps@.take(i as int)),
                graph_nodes(sub),
            ),
            step_pairs(steps@.take(i as int)).len() <= step_pairs(steps@).len(),
            forall|j: int|
                0 <= j < graph_nodes(sub).len() ==> nodes.contains(#[trigger] graph_nodes(sub)[j]),
        decreases steps.len() - i,
    {
        let ghost pre = steps@.take(i as int);
        let ghost post = steps@.take(i + 1);
        assert(post.drop_last() =~= pre);
        assert(post.last() == steps@[i as int]);
        proof {
            lemma_step_pairs_prefix(steps@, i + 1);
        }
        let step = steps[i];
        let edge: Option<(usize, usize)> = match step {
            DfsStep::TreeEdge(p, c) => Some((p, c)),
            DfsStep::BackEdge(p, c) => Some((p, c)),
            DfsStep::CrossForwardEdge(p, c) => Some((p, c)),
            _ => None,
        };
        match edge {
            Some((p, c)) => {
                let ghost old_sub = graph_nodes(sub);
                let ghost vals = endpoint_values(nodes, step_pairs(pre));
                assert(step_in_graph(edges, steps@[i as int]));
                let ghost k = choose|k: int|
                    0 <= k < edges.len() && (#[trigger] edges[k]).0 == p && edges[k].1 == c;
                assert(p < n && c < n);
                proof {
                    lemma_distinct_in_order(vals);
                    lemma_distinct_in_order(vals.push(nodes[p as int]));
                    lemma_distinct_in_order(vals.push(nodes[p as int]).push(nodes[c as int]));
                }
                let pnode = graph_node(graph, p);
                assert(vals.push(nodes[p as int]).drop_last() =~= vals);
                assert(vals.push(nodes[p as int]).push(nodes[c as int]).drop_last() =~= vals.push(
                    nodes[p as int],
                ));
                assert(nodes.contains(nodes[p as int]));
                assert(nodes.contains(nodes[c as int]));
                proof {
                    if !old_sub.contains(nodes[p as int]) {
                        lemma_push_no_duplicates(old_sub, nodes[p as int]);
                        assert forall|j: int| 0 <= j < old_sub.push(nodes[p as int]).len() implies nodes.contains(
                            #[trigger] old_sub.push(nodes[p as int])[j],
                        ) by {
                            if j < old_sub.len() {
                                assert(old_sub.push(nodes[p as int])[j] == old_sub[j]);
                            }
                        }
                        lemma_distinct_len_bound(old_sub.push(nodes[p as int]), nodes);
                    }
                }
                let pi = position_or_add(&mut sub, pnode);
                let ghost mid_sub = graph_nodes(sub);
                assert(mid_sub == distinct_in_order(vals.push(nodes[p as int])));
                let cnode = graph_node(graph, c);
                proof {
                    if !mid_sub.contains(nodes[c as int]) {
                        lemma_push_no_duplicates(mid_sub, nodes[c as int]);
                        assert forall|j: int| 0 <= j < mid_sub.push(nodes[c as int]).len() implies nodes.contains(
                            #[trigger] mid_sub.push(nodes[c as int])[j],
                        ) by {
                            if j < mid_sub.len() {
                                assert(mid_sub.push(nodes[c as int])[j] == mid_sub[j]);
                                if !old_sub.contains(nodes[p as int]) && j == old_sub.len() {
                                } else if j < old_sub.len() {
                                    assert(mid_sub[j] == old_sub[j]);
                                }
                            }
                        }
                        lemma_distinct_len_bound(mid_sub.push(nodes[c as int]), nodes);
                    }
                }
                let ci = position_or_add(&mut sub, cnode);
                let ghost new_sub = graph_nodes(sub);
                assert(new_sub == distinct_in_order(vals.push(nodes[p as int]).push(nodes[c as int])));
                assert(step_pairs(post) == step_pairs(pre).push((p, c)));
                assert(step_pairs(pre).push((p, c)).drop_last() =~= step_pairs(pre));
                assert(endpoint_values(nodes, step_pairs(post)) =~= vals.push(nodes[p as int]).push(
                    nodes[c as int],
                ));
                proof {
                    lemma_walked_edges_grow(nodes, step_pairs(pre), old_sub, mid_sub, new_sub, p, c);
                }
                add_graph_edge(&mut sub, pi, ci, String::new());
                proof {
                    lemma_contains_push(old_sub, nodes[p as int], nodes[p as int]);
                    if !mid_sub.contains(nodes[c as int]) {
                        lemma_index_of_push(mid_sub, nodes[c as int], nodes[p as int]);
                    }
                    assert(pi == new_sub.index_of(nodes[p as int]));
                    assert(graph_edges(sub) =~= walked_edges(nodes, step_pairs(post), new_sub));
                }
            },
            None => {
                assert(step_pairs(post) == step_pairs(pre));
            },
        }
        i = i + 1;
    }
    assert(steps@.take(steps.len() as int) =~= steps@);
    sub
}

/// The edges walked along by a prefix of the steps are no more than by all of them.
pub proof fn lemma_step_pairs_prefix(steps: Seq<DfsStep>, i: int)
    requires
        0 <= i <= steps.len(),
    ensures
        step_pairs(steps.take(i)).len() <= step_pairs(steps).len(),
    decreases steps.len() - i,
{
    if i < steps.len() {
        lemma_step_pairs_prefix(steps, i + 1);
        assert(steps.take(i + 1).drop_last() =~= steps.take(i));
    } else {
        assert(steps.take(i) =~= steps);
    }
}

/// The edges built so far keep their endpoints while nodes are appended, and the new
/// edge goes between the positions of its end values.
proof fn lemma_walked_edges_grow(
    nodes: Seq<GraphNodeView>,
    pairs: Seq<(usize, usize)>,
    old_sub: Seq<GraphNodeView>,
    mid_sub: Seq<GraphNodeView>,
    new_sub: Seq<GraphNodeView>,
    p: usize,
    c: usize,
)
    requires
        old_sub == distinct_in_order(endpoint_values(nodes, pairs)),
        mid_sub == distinct_in_order(endpoint_values(nodes, pairs).push(nodes[p as int])),
        new_sub == distinct_in_order(
            endpoint_values(nodes, pairs).push(nodes[p as int]).push(nodes[c as int]),
        ),
    ensures
        walked_edges(nodes, pairs, new_sub) == walked_edges(nodes, pairs, old_sub),
{
    let vals = endpoint_values(nodes, pairs);
    lemma_distinct_in_order(vals);
    lemma_distinct_in_order(vals.push(nodes[p as int]));
    lemma_endpoints_contained(nodes, pairs);
    assert(vals.push(nodes[p as int]).drop_last() =~= vals);
    assert(vals.push(nodes[p as int]).push(nodes[c as int]).drop_last() =~= vals.push(
        nodes[p as int],
    ));
    assert forall|k: int| 0 <= k < pairs.len() implies (#[trigger] walked_edges(nodes, pairs, new_sub)[k])
        == walked_edges(nodes, pairs, old_sub)[k] by {
        let e = pairs[k];
        let a = nodes[e.0 as int];
        let b = nodes[e.1 as int];
        assert(vals.contains(a) && vals.contains(b));
        assert(old_sub.contains(a) && old_sub.contains(b));
        if !old_sub.contains(nodes[p as int]) {
            lemma_index_of_push(old_sub, nodes[p as int], a);
            lemma_index_of_push(old_sub, nodes[p as int], b);
        }
        lemma_contains_push(old_sub, nodes[p as int], a);
        lemma_contains_push(old_sub, nodes[p as int], b);
        assert(mid_sub.index_of(a) == old_sub.index_of(a));
        assert(mid_sub.index_of(b) == old_sub.index_of(b));
        assert(mid_sub.contains(a) && mid_sub.contains(b));
        if !mid_sub.contains(nodes[c as int]) {
            lemma_index_of_push(mid_sub, nodes[c as int], a);
            lemma_index_of_push(mid_sub, nodes[c as int], b);
        }
    }
    assert(walked_edges(nodes, pairs, new_sub) =~= walked_edges(nodes, pairs, old_sub));
}

/// Each end of each edge walked along is among the end values.
proof fn lemma_endpoints_contained(nodes: Seq<GraphNodeView>, pairs: Seq<(usize, usize)>)
    ensures
        forall|k: int|
            0 <= k < pairs.len() ==> endpoint_values(nodes, pairs).contains(
                nodes[(#[trigger] pairs[k]).0 as int],
            ) && endpoint_values(nodes, pairs).contains(nodes[pairs[k].1 as int]),
    decreases pairs.len(),
{
    if pairs.len() > 0 {
        let rest = pairs.drop_last();
        lemma_endpoints_contained(nodes, rest);
        let vals = endpoint_values(nodes, pairs);
        let rv = endpoint_values(nodes, rest);
        assert forall|k: int| 0 <= k < pairs.len() implies vals.contains(
            nodes[(#[trigger] pairs[k]).0 as int],
        ) && vals.contains(nodes[pairs[k].1 as int]) by {
            if k < pairs.len() - 1 {
                assert(pairs[k] == rest[k]);
                let x = nodes[pairs[k].0 as int];
                let y = nodes[pairs[k].1 as int];
                let i = choose|i: int| 0 <= i < rv.len() && rv[i] == x;
                let j = choose|j: int| 0 <= j < rv.len() && rv[j] == y;
                assert(vals[i] == x);
                assert(vals[j] == y);
            } else {
                assert(vals[vals.len() - 2] == nodes[pairs[k].0 as int]);
                assert(vals[vals.len() - 1] == nodes[pairs[k].1 as int]);
            }
        }
    }
}

/// Whether the graph has an edge from a node with value `a` to a node with value `b`.
pub open spec fn has_edge_between(
    nodes: Seq<GraphNodeView>,
    edges: Seq<(usize, usize, Seq<char>)>,
    a: GraphNodeView,
    b: GraphNodeView,
) -> bool {
    exists|j: int|
        0 <= j < edges.len() && nodes[(#[trigger] edges[j]).0 as int] == a && nodes[edges[j].1 as int]
            == b
}

/// Whether an edge of `sub` joins two values that an edge of the graph with `nodes`
/// and `edges` joins, in the same direction.
pub open spec fn edge_joins(
    nodes: Seq<GraphNodeView>,
    edges: Seq<(usize, usize, Seq<char>)>,
    sub: Seq<GraphNodeView>,
    e: (usize, usize, Seq<char>),
) -> bool {
    &&& e.0 < sub.len()
    &&& e.1 < sub.len()
    &&& has_edge_between(nodes, edges, sub[e.0 as int], sub[e.1 as int])
}

/// The end values of edges between nodes of `nodes` are values of `nodes`.
proof fn lemma_endpoint_values_in_nodes(nodes: Seq<GraphNodeView>, pairs: Seq<(usize, usize)>)
    requires
        forall|k: int|
            0 <= k < pairs.len() ==> (#[trigger] pairs[k]).0 < nodes.len() && pairs[k].1 < nodes.len(),
    ensures
        forall|i: int|
            0 <= i < endpoint_values(nodes, pairs).len() ==> nodes.contains(
                #[trigger] endpoint_values(nodes, pairs)[i],
            ),
    decreases pairs.len(),
{
    if pairs.len() > 0 {
        let rest = pairs.drop_last();
        assert forall|k: int| 0 <= k < rest.len() implies (#[trigger] rest[k]).0 < nodes.len()
            && rest[k].1 < nodes.len() by {
            assert(rest[k] == pairs[k]);
        }
        lemma_endpoint_values_in_nodes(nodes, rest);
        let vals = endpoint_values(nodes, pairs);
        let rv = endpoint_values(nodes, rest);
        let last = pairs[pairs.len() - 1];
        assert forall|i: int| 0 <= i < vals.len() implies nodes.contains(#[trigger] vals[i]) by {
            if i < rv.len() {
                assert(vals[i] == rv[i]);
            } else if i == rv.len() {
                assert(vals[i] == nodes[last.0 as int]);
            } else {
                assert(vals[i] == nodes[last.1 as int]);
            }
        }
    }
}

/// Each edge walked along comes from a step that walks along it.
proof fn lemma_step_pairs_origin(steps: Seq<DfsStep>)
    ensures
        forall|k: int|
            0 <= k < step_pairs(steps).len() ==> exists|j: int|
                0 <= j < steps.len() && step_edge(#[trigger] steps[j]) == Some(
                    #[trigger] step_pairs(steps)[k],
                ),
    decreases steps.len(),
{
    if steps.len() > 0 {
        let t = steps.drop_last();
        lemma_step_pairs_origin(t);
        assert forall|k: int| 0 <= k < step_pairs(steps).len() implies exists|j: int|
            0 <= j < steps.len() && step_edge(#[trigger] steps[j]) == Some(
                #[trigger] step_pairs(steps)[k],
            ) by {
            if k < step_pairs(t).len() {
                let j = choose|j: int|
                    0 <= j < t.len() && step_edge(#[trigger] t[j]) == Some(step_pairs(t)[k]);
                assert(steps[j] == t[j]);
                assert(step_pairs(steps)[k] == step_pairs(t)[k]);
            } else {
                assert(steps[steps.len() - 1] == steps.last());
            }
        }
    }
}

/// Whether an edge of `edges` goes from index `a` to index `b`.
pub open spec fn has_edge(edges: Seq<(usize, usize, Seq<char>)>, a: usize, b: usize) -> bool {
    exists|k: int| 0 <= k < edges.len() && (#[trigger] edges[k]).0 == a && edges[k].1 == b
}

/// Whether `path` is a walk along `edges`: each index of it has an edge to the next.
pub open spec fn is_walk(edges: Seq<(usize, usize, Seq<char>)>, path: Seq<usize>) -> bool {
    &&& path.len() > 0
    &&& forall|i: int| 0 <= i < path.len() - 1 ==> has_edge(edges, #[trigger] path[i], path[i + 1])
}

/// Whether node `to` can be reached from node `from` along `edges`.
pub open spec fn reachable(edges: Seq<(usize, usize, Seq<char>)>, from: usize, to: usize) -> bool {
    exists|path: Seq<usize>| #[trigger] is_walk(edges, path) && path[0] == from && path.last() == to
}

/// Whether `value` is the value of a node that can be reached from `start`.
pub open spec fn reached_value(
    nodes: Seq<GraphNodeView>,
    edges: Seq<(usize, usize, Seq<char>)>,
    start: usize,
    value: GraphNodeView,
) -> bool {
    exists|x: int| 0 <= x < nodes.len() && nodes[x] == value && #[trigger] reachable(edges, start, x as usize)
}

/// Whether `value` is the value of a node from which `target` can be reached.
pub open spec fn reaching_value(
    nodes: Seq<GraphNodeView>,
    edges: Seq<(usize, usize, Seq<char>)>,
    target: usize,
    value: GraphNodeView,
) -> bool {
    exists|x: int| 0 <= x < nodes.len() && nodes[x] == value && #[trigger] reachable(edges, x as usize, target)
}

/// A walk along the reversed edges, taken backwards, is a walk along the edges.
proof fn lemma_reachable_reversed(edges: Seq<(usize, usize, Seq<char>)>, a: usize, b: usize)
    requires
        reachable(reversed_edges(edges), a, b),
    ensures
        reachable(edges, b, a),
{
    let rev = reversed_edges(edges);
    let p = choose|p: Seq<usize>| #[trigger] is_walk(rev, p) && p[0] == a && p.last() == b;
    let n = p.len() as int;
    let q = p.reverse();
    assert forall|i: int| 0 <= i < q.len() - 1 implies has_edge(edges, #[trigger] q[i], q[i + 1]) by {
        let j = n - 2 - i;
        assert(q[i] == p[j + 1] && q[i + 1] == p[j]);
        assert(has_edge(rev, p[j], p[j + 1]));
        let k = choose|k: int| 0 <= k < rev.len() && (#[trigger] rev[k]).0 == p[j] && rev[k].1 == p[j + 1];
        assert(rev[k] == (edges[k].1, edges[k].0, edges[k].2));
        assert(edges[k].0 == q[i] && edges[k].1 == q[i + 1]);
    }
    assert(is_walk(edges, q));
    assert(q[0] == b && q.last() == a);
}

/// The node that a step discovers, if it discovers one.
pub open spec fn discovered(step: DfsStep) -> Option<usize> {
    match step {
        DfsStep::Discover(n, _) => Some(n),
        _ => None,
    }
}

/// The node that a step reaches along a tree edge, if it is one.
pub open spec fn tree_target(step: DfsStep) -> Option<usize> {
    match step {
        DfsStep::TreeEdge(_, c) => Some(c),
        _ => None,
    }
}

/// The order of the steps of a depth-first walk from `start`: it begins by discovering
/// `start`, every later discovery follows the tree edge to the discovered node, and an
/// edge is only walked along from a node discovered before.
pub open spec fn dfs_ordered(steps: Seq<DfsStep>, start: usize) -> bool {
    &&& steps.len() > 0
    &&& discovered(steps[0]) == Some(start)
    &&& forall|k: int|
        0 < k < steps.len() && (#[trigger] discovered(steps[k])) is Some ==> tree_target(steps[k - 1])
            == discovered(steps[k])
    &&& forall|k: int|
        0 <= k < steps.len() && (#[trigger] step_edge(steps[k])) is Some ==> exists|j: int|
            0 <= j < k && #[trigger] discovered(steps[j]) == Some(step_edge(steps[k]).unwrap().0)
    &&& forall|k: int|
        0 <= k < steps.len() && (#[trigger] tree_target(steps[k])) is Some ==> k + 1 < steps.len()
            && discovered(steps[k + 1]) == tree_target(steps[k])
    &&& forall|k: int|
        0 <= k < steps.len() && (#[trigger] step_edge(steps[k])) is Some && tree_target(steps[k]) is None
            ==> exists|j: int| 0 <= j < k && #[trigger] discovered(steps[j]) == Some(step_edge(steps[k]).unwrap().1)
}

/// The nodes that the steps discover.
pub open spec fn discovered_set(steps: Seq<DfsStep>) -> Set<usize> {
    Set::new(|n: usize| exists|j: int| 0 <= j < steps.len() && #[trigger] discovered(steps[j]) == Some(n))
}

/// The source and target of each edge whose source is in `from`, in edge order.
pub open spec fn edges_from(edges: Seq<(usize, usize, Seq<char>)>, from: Set<usize>) -> Seq<(usize, usize)>
    decreases edges.len(),
{
    if edges.len() == 0 {
        Seq::empty()
    } else {
        edges_from(edges.drop_last(), from) + if from.contains(edges.last().0) {
            seq![(edges.last().0, edges.last().1)]
        } else {
            Seq::empty()
        }
    }
}

/// The nodes that can be reached from `start`.
pub open spec fn reachable_set(edges: Seq<(usize, usize, Seq<char>)>, start: usize) -> Set<usize> {
    Set::new(|n: usize| reachable(edges, start, n))
}

/// A node reached from `start`, with an edge on to `w`, makes `w` reached too.
proof fn lemma_reach_extend(edges: Seq<(usize, usize, Seq<char>)>, start: usize, u: usize, w: usize)
    requires
        reachable(edges, start, u),
        has_edge(edges, u, w),
    ensures
        reachable(edges, start, w),
{
    let path = choose|path: Seq<usize>| #[trigger] is_walk(edges, path) && path[0] == start && path.last() == u;
    let longer = path.push(w);
    assert forall|i: int| 0 <= i < longer.len() - 1 implies has_edge(edges, #[trigger] longer[i], longer[i + 1]) by {
        if i < path.len() - 1 {
            assert(longer[i] == path[i] && longer[i + 1] == path[i + 1]);
            assert(has_edge(edges, path[i], path[i + 1]));
        } else {
            assert(longer[i] == u && longer[i + 1] == w);
        }
    }
    assert(is_walk(edges, longer));
    assert(longer[0] == start && longer.last() == w);
}

/// Every node that the walk discovers can be reached from `start`.
proof fn lemma_discovered_reachable(edges: Seq<(usize, usize, Seq<char>)>, steps: Seq<DfsStep>, start: usize, k: int)
    requires
        dfs_ordered(steps, start),
        forall|j: int| 0 <= j < steps.len() ==> step_in_graph(edges, #[trigger] steps[j]),
        0 <= k < steps.len(),
        discovered(steps[k]) is Some,
    ensures
        reachable(edges, start, discovered(steps[k]).unwrap()),
    decreases k,
{
    if k == 0 {
        let path = seq![start];
        assert(is_walk(edges, path));
        assert(path[0] == start && path.last() == start);
    } else {
        let n = discovered(steps[k]).unwrap();
        assert(tree_target(steps[k - 1]) == Some(n));
        let e = step_edge(steps[k - 1]).unwrap();
        assert(step_edge(steps[k - 1]) is Some);
        let j = choose|j: int| 0 <= j < k - 1 && #[trigger] discovered(steps[j]) == Some(e.0);
        lemma_discovered_reachable(edges, steps, start, j);
        assert(step_in_graph(edges, steps[k - 1]));
        assert(has_edge(edges, e.0, e.1));
        lemma_reach_extend(edges, start, e.0, e.1);
    }
}

/// Both ends of every edge that the walk goes along can be reached from `start`.
proof fn lemma_step_edge_reachable(edges: Seq<(usize, usize, Seq<char>)>, steps: Seq<DfsStep>, start: usize, k: int)
    requires
        dfs_ordered(steps, start),
        forall|j: int| 0 <= j < steps.len() ==> step_in_graph(edges, #[trigger] steps[j]),
        0 <= k < steps.len(),
        step_edge(steps[k]) is Some,
    ensures
        reachable(edges, start, step_edge(steps[k]).unwrap().0),
        reachable(edges, start, step_edge(steps[k]).unwrap().1),
{
    let e = step_edge(steps[k]).unwrap();
    let j = choose|j: int| 0 <= j < k && #[trigger] discovered(steps[j]) == Some(e.0);
    lemma_discovered_reachable(edges, steps, start, j);
    assert(step_in_graph(edges, steps[k]));
    assert(has_edge(edges, e.0, e.1));
    lemma_reach_extend(edges, start, e.0, e.1);
}

/// Each value at the ends of the edges is the value of an end of one of them.
proof fn lemma_endpoint_origin(nodes: Seq<GraphNodeView>, pairs: Seq<(usize, usize)>)
    ensures
        forall|i: int|
            0 <= i < endpoint_values(nodes, pairs).len() ==> exists|q: int|
                0 <= q < pairs.len() && (#[trigger] endpoint_values(nodes, pairs)[i] == nodes[(
                #[trigger] pairs[q]).0 as int] || endpoint_values(nodes, pairs)[i] == nodes[pairs[q].1 as int]),
    decreases pairs.len(),
{
    if pairs.len() > 0 {
        let rest = pairs.drop_last();
        lemma_endpoint_origin(nodes, rest);
        let vals = endpoint_values(nodes, pairs);
        let rv = endpoint_values(nodes, rest);
        assert forall|i: int| 0 <= i < vals.len() implies exists|q: int|
            0 <= q < pairs.len() && (#[trigger] vals[i] == nodes[(#[trigger] pairs[q]).0 as int] || vals[i]
                == nodes[pairs[q].1 as int]) by {
            if i < rv.len() {
                assert(vals[i] == rv[i]);
                let q = choose|q: int|
                    0 <= q < rest.len() && (rv[i] == nodes[(#[trigger] rest[q]).0 as int] || rv[i]
                        == nodes[rest[q].1 as int]);
                assert(rest[q] == pairs[q]);
            } else {
                assert(pairs[pairs.len() - 1] == pairs.last());
            }
        }
    }
}

/// Every node of the graph that the steps of a walk from `start` span is the value of a
/// node that can be reached from `start`.
proof fn lemma_walked_nodes_reachable(
    nodes: Seq<GraphNodeView>,
    edges: Seq<(usize, usize, Seq<char>)>,
    steps: Seq<DfsStep>,
    start: usize,
)
    requires
        dfs_ordered(steps, start),
        forall|j: int| 0 <= j < steps.len() ==> step_in_graph(edges, #[trigger] steps[j]),
        forall|k: int|
            0 <= k < edges.len() ==> (#[trigger] edges[k]).0 < nodes.len() && edges[k].1 < nodes.len(),
    ensures
        forall|i: int|
            0 <= i < walked_nodes(nodes, steps).len() ==> reached_value(
                nodes,
                edges,
                start,
                #[trigger] walked_nodes(nodes, steps)[i],
            ),
{
    let pairs = step_pairs(steps);
    let vals = endpoint_values(nodes, pairs);
    let sub = walked_nodes(nodes, steps);
    lemma_step_pairs_origin(steps);
    lemma_endpoint_origin(nodes, pairs);
    lemma_distinct_in_order(vals);
    assert forall|i: int| 0 <= i < sub.len() implies reached_value(nodes, edges, start, #[trigger] sub[i]) by {
        assert(sub.contains(sub[i]));
        assert(vals.contains(sub[i]));
        let j = choose|j: int| 0 <= j < vals.len() && vals[j] == sub[i];
        let q = choose|q: int|
            0 <= q < pairs.len() && (vals[j] == nodes[(#[trigger] pairs[q]).0 as int] || vals[j]
                == nodes[pairs[q].1 as int]);
        let k = choose|k: int| 0 <= k < steps.len() && step_edge(#[trigger] steps[k]) == Some(pairs[q]);
        lemma_step_edge_reachable(edges, steps, start, k);
        assert(step_in_graph(edges, steps[k]));
        if vals[j] == nodes[pairs[q].0 as int] {
            let x = pairs[q].0 as int;
            assert(nodes[x] == sub[i] && reachable(edges, start, x as usize));
        } else {
            let x = pairs[q].1 as int;
            assert(nodes[x] == sub[i] && reachable(edges, start, x as usize));
        }
    }
}

/// An edge whose source is in `from` is among the edges out of `from`.
proof fn lemma_edges_from_contains(edges: Seq<(usize, usize, Seq<char>)>, from: Set<usize>, k: int)
    requires
        0 <= k < edges.len(),
        from.contains(edges[k].0),
    ensures
        edges_from(edges, from).contains((edges[k].0, edges[k].1)),
    decreases edges.len(),
{
    let rest = edges.drop_last();
    if k == edges.len() - 1 {
        let r = edges_from(edges, from);
        assert(r[r.len() - 1] == (edges[k].0, edges[k].1));
    } else {
        assert(rest[k] == edges[k]);
        lemma_edges_from_contains(rest, from, k);
        let rr = edges_from(rest, from);
        let i = choose|i: int| 0 <= i < rr.len() && rr[i] == (edges[k].0, edges[k].1);
        assert(edges_from(edges, from)[i] == rr[i]);
    }
}

/// Every node on a walk from `start` is discovered by the depth-first walk.
proof fn lemma_walk_discovered(
    edges: Seq<(usize, usize, Seq<char>)>,
    steps: Seq<DfsStep>,
    start: usize,
    path: Seq<usize>,
    i: int,
)
    requires
        dfs_ordered(steps, start),
        step_pairs(steps).to_multiset() == edges_from(edges, discovered_set(steps)).to_multiset(),
        is_walk(edges, path),
        path[0] == start,
        0 <= i < path.len(),
    ensures
        discovered_set(steps).contains(path[i]),
    decreases i,
{
    let d = discovered_set(steps);
    if i == 0 {
        assert(discovered(steps[0]) == Some(start));
    } else {
        lemma_walk_discovered(edges, steps, start, path, i - 1);
        assert(has_edge(edges, path[i - 1], path[i]));
        let k = choose|k: int| 0 <= k < edges.len() && (#[trigger] edges[k]).0 == path[i - 1] && edges[k].1 == path[i];
        lemma_edges_from_contains(edges, d, k);
        let pair = (path[i - 1], path[i]);
        edges_from(edges, d).to_multiset_ensures();
        step_pairs(steps).to_multiset_ensures();
        assert(edges_from(edges, d).to_multiset().count(pair) > 0);
        assert(step_pairs(steps).contains(pair));
        let q = choose|q: int| 0 <= q < step_pairs(steps).len() && step_pairs(steps)[q] == pair;
        lemma_step_pairs_origin(steps);
        let j = choose|j: int| 0 <= j < steps.len() && step_edge(#[trigger] steps[j]) == Some(step_pairs(steps)[q]);
        if tree_target(steps[j]) is Some {
            assert(discovered(steps[j + 1]) == tree_target(steps[j]));
            assert(tree_target(steps[j]) == Some(path[i]));
        } else {
            let m = choose|m: int| 0 <= m < j && #[trigger] discovered(steps[m]) == Some(step_edge(steps[j]).unwrap().1);
            assert(discovered(steps[m]) == Some(path[i]));
        }
    }
}

/// The nodes that the depth-first walk discovers are those that can be reached.
proof fn lemma_discovered_is_reachable(
    edges: Seq<(usize, usize, Seq<char>)>,
    steps: Seq<DfsStep>,
    start: usize,
)
    requires
        dfs_ordered(steps, start),
        forall|j: int| 0 <= j < steps.len() ==> step_in_graph(edges, #[trigger] steps[j]),
        step_pairs(steps).to_multiset() == edges_from(edges, discovered_set(steps)).to_multiset(),
    ensures
        discovered_set(steps) == reachable_set(edges, start),
{
    assert forall|n: usize| discovered_set(steps).contains(n) <==> reachable_set(edges, start).contains(n) by {
        if discovered_set(steps).contains(n) {
            let j = choose|j: int| 0 <= j < steps.len() && #[trigger] discovered(steps[j]) == Some(n);
            lemma_discovered_reachable(edges, steps, start, j);
        }
        if reachable_set(edges, start).contains(n) {
            let path = choose|path: Seq<usize>| #[trigger] is_walk(edges, path) && path[0] == start && path.last() == n;
            lemma_walk_discovered(edges, steps, start, path, path.len() - 1);
        }
    }
    assert(discovered_set(steps) =~= reachable_set(edges, start));
}

/// The graph spanned by a depth-first walk from `start` has one edge for each edge out
/// of a node reachable from `start`, and an edge between the values of the ends of
/// each of them.
proof fn lemma_walked_edges_complete(
    nodes: Seq<GraphNodeView>,
    edges: Seq<(usize, usize, Seq<char>)>,
    steps: Seq<DfsStep>,
    start: usize,
)
    requires
        dfs_ordered(steps, start),
        forall|j: int| 0 <= j < steps.len() ==> step_in_graph(edges, #[trigger] steps[j]),
        step_pairs(steps).to_multiset() == edges_from(edges, discovered_set(steps)).to_multiset(),
        forall|k: int|
            0 <= k < edges.len() ==> (#[trigger] edges[k]).0 < nodes.len() && edges[k].1 < nodes.len(),
        nodes.len() <= 0xFFFF_FFFF,
    ensures
        walked_edges(nodes, step_pairs(steps), walked_nodes(nodes, steps)).len() == edges_from(
            edges,
            reachable_set(edges, start),
        ).len(),
        forall|k: int|
            0 <= k < edges.len() && reachable(edges, start, #[trigger] edges[k].0) ==> has_edge_between(
                walked_nodes(nodes, steps),
                walked_edges(nodes, step_pairs(steps), walked_nodes(nodes, steps)),
                nodes[edges[k].0 as int],
                nodes[edges[k].1 as int],
            ),
{
    let pairs = step_pairs(steps);
    let vals = endpoint_values(nodes, pairs);
    let sub = walked_nodes(nodes, steps);
    let we = walked_edges(nodes, pairs, sub);
    let d = discovered_set(steps);
    lemma_discovered_is_reachable(edges, steps, start);
    pairs.to_multiset_ensures();
    edges_from(edges, d).to_multiset_ensures();
    lemma_step_pairs_origin(steps);
    lemma_endpoints_contained(nodes, pairs);
    lemma_distinct_in_order(vals);
    assert forall|k: int| 0 <= k < pairs.len() implies (#[trigger] pairs[k]).0 < nodes.len()
        && pairs[k].1 < nodes.len() by {
        let j = choose|j: int| 0 <= j < steps.len() && step_edge(#[trigger] steps[j]) == Some(pairs[k]);
        assert(step_in_graph(edges, steps[j]));
    }
    lemma_endpoint_values_in_nodes(nodes, pairs);
    assert forall|i: int| 0 <= i < sub.len() implies nodes.contains(#[trigger] sub[i]) by {
        assert(sub.contains(sub[i]));
        assert(vals.contains(sub[i]));
        let j = choose|j: int| 0 <= j < vals.len() && vals[j] == sub[i];
        assert(nodes.contains(vals[j]));
    }
    lemma_distinct_len_bound(sub, nodes);
    assert forall|k: int| 0 <= k < edges.len() && reachable(edges, start, #[trigger] edges[k].0) implies has_edge_between(
        sub,
        we,
        nodes[edges[k].0 as int],
        nodes[edges[k].1 as int],
    ) by {
        assert(reachable_set(edges, start).contains(edges[k].0));
        lemma_edges_from_contains(edges, d, k);
        let pc = (edges[k].0, edges[k].1);
        assert(edges_from(edges, d).to_multiset().count(pc) > 0);
        assert(pairs.contains(pc));
        let q = choose|q: int| 0 <= q < pairs.len() && pairs[q] == pc;
        assert(vals.contains(nodes[pairs[q].0 as int]));
        assert(vals.contains(nodes[pairs[q].1 as int]));
        assert(sub.contains(nodes[pc.0 as int]));
        assert(sub.contains(nodes[pc.1 as int]));
        let a = choose|a: int| 0 <= a < sub.len() && sub[a] == nodes[pc.0 as int];
        let b = choose|b: int| 0 <= b < sub.len() && sub[b] == nodes[pc.1 as int];
        lemma_index_of_unique(sub, a);
        lemma_index_of_unique(sub, b);
        assert(we[q] == (sub.index_of(nodes[pc.0 as int]) as usize, sub.index_of(nodes[pc.1 as int]) as usize, Seq::<char>::empty()));
        assert(we[q].0 as int == a && we[q].1 as int == b);
        assert(sub[we[q].0 as int] == nodes[edges[k].0 as int]);
        assert(sub[we[q].1 as int] == nodes[edges[k].1 as int]);
    }
}

/// Each edge of the graph spanned by the walk steps joins two values that an edge of
/// the walked graph joins, in the same direction.
pub proof fn lemma_walked_edges_in_graph(
    nodes: Seq<GraphNodeView>,
    edges: Seq<(usize, usize, Seq<char>)>,
    steps: Seq<DfsStep>,
)
    requires
        forall|k: int| 0 <= k < steps.len() ==> step_in_graph(edges, #[trigger] steps[k]),
        forall|k: int|
            0 <= k < edges.len() ==> (#[trigger] edges[k]).0 < nodes.len() && edges[k].1
                < nodes.len(),
        nodes.len() <= 0xFFFF_FFFF,
    ensures
        forall|k: int|
            0 <= k < step_pairs(steps).len() ==> edge_joins(
                nodes,
                edges,
                walked_nodes(nodes, steps),
                #[trigger] walked_edges(nodes, step_pairs(steps), walked_nodes(nodes, steps))[k],
            ),
{
    let pairs = step_pairs(steps);
    let vals = endpoint_values(nodes, pairs);
    let sub = walked_nodes(nodes, steps);
    lemma_step_pairs_origin(steps);
    lemma_endpoints_contained(nodes, pairs);
    lemma_distinct_in_order(vals);
    assert forall|k: int| 0 <= k < pairs.len() implies (#[trigger] pairs[k]).0 < nodes.len()
        && pairs[k].1 < nodes.len() by {
        let j = choose|j: int| 0 <= j < steps.len() && step_edge(#[trigger] steps[j]) == Some(pairs[k]);
        assert(step_in_graph(edges, steps[j]));
    }
    lemma_endpoint_values_in_nodes(nodes, pairs);
    assert forall|i: int| 0 <= i < sub.len() implies nodes.contains(#[trigger] sub[i]) by {
        assert(sub.contains(sub[i]));
        assert(vals.contains(sub[i]));
        let j = choose|j: int| 0 <= j < vals.len() && vals[j] == sub[i];
        assert(nodes.contains(vals[j]));
    }
    lemma_distinct_len_bound(sub, nodes);
    assert forall|k: int| 0 <= k < pairs.len() implies edge_joins(
        nodes,
        edges,
        sub,
        #[trigger] walked_edges(nodes, pairs, sub)[k],
    ) by {
        let pc = pairs[k];
        let j = choose|j: int| 0 <= j < steps.len() && step_edge(#[trigger] steps[j]) == Some(pc);
        assert(step_in_graph(edges, steps[j]));
        let q = choose|q: int| 0 <= q < edges.len() && (#[trigger] edges[q]).0 == pc.0 && edges[q].1 == pc.1;
        assert(sub.contains(nodes[pc.0 as int]));
        assert(sub.contains(nodes[pc.1 as int]));
        let a = choose|a: int| 0 <= a < sub.len() && sub[a] == nodes[pc.0 as int];
        let b = choose|b: int| 0 <= b < sub.len() && sub[b] == nodes[pc.1 as int];
        lemma_index_of_unique(sub, a);
        lemma_index_of_unique(sub, b);
        assert(walked_edges(nodes, pairs, sub)[k] == (a as usize, b as usize, Seq::<char>::empty()));
        assert(nodes[edges[q].0 as int] == sub[a]);
        assert(nodes[edges[q].1 as int] == sub[b]);
        assert(has_edge_between(nodes, edges, sub[a], sub[b]));
    }
}

/// The value of the graph spanned by the walk from `start`: its nodes and its edges.
pub open spec fn dependency_nodes(graph: Graph<GraphNode, String>, start: usize) -> Seq<GraphNodeView> {
    walked_nodes(graph_nodes(graph), dfs_steps(graph, start))
}

/// The edges of the graph spanned by the walk from `start`.
pub open spec fn dependency_edges(graph: Graph<GraphNode, String>, start: usize) -> Seq<
    (usize, usize, Seq<char>),
> {
    walked_edges(
        graph_nodes(graph),
        step_pairs(dfs_steps(graph, start)),
        dependency_nodes(graph, start),
    )
}

/// The part of `graph` that can be reached from `start`: a depth-first walk from
/// `start` goes along each edge that can be reached, and the result holds the values at
/// their ends, each once, and one edge for each edge walked along. Each of its edges
/// joins two values that an edge of `graph` joins, in the same direction, and each of
/// its nodes is the value of a node that can be reached from `start`. It has one edge
/// for each edge of `graph` out of a node reachable from `start`, and an edge between
/// the values of the ends of each of them.
pub fn dependency_graph(graph: &Graph<GraphNode, String>, start: usize) -> (sub: Graph<
    GraphNode,
    String,
>)
    requires
        start < graph_nodes(*graph).len(),
    ensures
        graph_nodes(sub) == dependency_nodes(*graph, start),
        graph_edges(sub) == dependency_edges(*graph, start),
        forall|k: int|
            0 <= k < graph_edges(sub).len() ==> edge_joins(
                graph_nodes(*graph),
                graph_edges(*graph),
                graph_nodes(sub),
                #[trigger] graph_edges(sub)[k],
            ),
        forall|i: int|
            0 <= i < graph_nodes(sub).len() ==> reached_value(
                graph_nodes(*graph),
                graph_edges(*graph),
                start,
                #[trigger] graph_nodes(sub)[i],
            ),
        graph_edges(sub).len() == edges_from(
            graph_edges(*graph),
            reachable_set(graph_edges(*graph), start),
        ).len(),
        forall|k: int|
            0 <= k < graph_edges(*graph).len() && reachable(
                graph_edges(*graph),
                start,
                #[trigger] graph_edges(*graph)[k].0,
            ) ==> has_edge_between(
                graph_nodes(sub),
                graph_edges(sub),
                graph_nodes(*graph)[graph_edges(*graph)[k].0 as int],
                graph_nodes(*graph)[graph_edges(*graph)[k].1 as int],
            ),
{
    let steps = depth_first_steps(graph, start);
    let _ = graph_edge_count(graph);
    let _ = graph_node_count(graph);
    proof {
        lemma_walked_edges_in_graph(graph_nodes(*graph), graph_edges(*graph), steps@);
        lemma_walked_nodes_reachable(graph_nodes(*graph), graph_edges(*graph), steps@, start);
        lemma_walked_edges_complete(graph_nodes(*graph), graph_edges(*graph), steps@, start);
    }
    let result = graph_from_steps(graph, &steps);
    proof {
        let walked = walked_nodes(graph_nodes(*graph), steps@);
        assert(graph_nodes(result) == walked);
        assert(graph_edges(result) == walked_edges(graph_nodes(*graph), step_pairs(steps@), walked));
        assert forall|i: int| 0 <= i < graph_nodes(result).len() implies reached_value(
            graph_nodes(*graph),
            graph_edges(*graph),
            start,
            #[trigger] graph_nodes(result)[i],
        ) by {
            assert(walked[i] == graph_nodes(result)[i]);
        }
    }
    result
}

/// The part of `graph` from which `start` can be reached: the graph spanned by a
/// depth-first walk from `start` against the direction of the edges, with its edges
/// turned back to their own direction. Each of its nodes is the value of a node from
/// which `start` can be reached. It has one edge for each edge of `graph` into a node
/// from which `start` can be reached, and an edge between the values of the ends of each
/// of them.
pub fn dependee_graph(graph: &Graph<GraphNode, String>, start: usize) -> (sub: Graph<
    GraphNode,
    String,
>)
    requires
        start < graph_nodes(*graph).len(),
    ensures
        exists|reversed: Graph<GraphNode, String>|
            {
                &&& graph_nodes(reversed) == graph_nodes(*graph)
                &&& graph_edges(reversed) == reversed_edges(graph_edges(*graph))
                &&& graph_nodes(sub) == dependency_nodes(reversed, start)
                &&& graph_edges(sub) == reversed_edges(dependency_edges(reversed, start))
            },
        forall|i: int|
            0 <= i < graph_nodes(sub).len() ==> reaching_value(
                graph_nodes(*graph),
                graph_edges(*graph),
                start,
                #[trigger] graph_nodes(sub)[i],
            ),
        forall|k: int|
            0 <= k < graph_edges(sub).len() ==> edge_joins(
                graph_nodes(*graph),
                graph_edges(*graph),
                graph_nodes(sub),
                #[trigger] graph_edges(sub)[k],
            ),
        graph_edges(sub).len() == edges_from(
            reversed_edges(graph_edges(*graph)),
            reachable_set(reversed_edges(graph_edges(*graph)), start),
        ).len(),
        forall|k: int|
            0 <= k < graph_edges(*graph).len() && reachable(
                graph_edges(*graph),
                #[trigger] graph_edges(*graph)[k].1,
                start,
            ) ==> has_edge_between(
                graph_nodes(sub),
                graph_edges(sub),
                graph_nodes(*graph)[graph_edges(*graph)[k].0 as int],
                graph_nodes(*graph)[graph_edges(*graph)[k].1 as int],
            ),
{
    let mut reversed = clone_graph(graph);
    reverse_graph(&mut reversed);
    let ghost rev = reversed;
    let mut result = dependency_graph(&reversed, start);
    let ghost fwd = graph_edges(result);
    reverse_graph(&mut result);
    proof {
        let edges = graph_edges(*graph);
        let sub_nodes = graph_nodes(result);
        assert forall|i: int| 0 <= i < sub_nodes.len() implies reaching_value(
            graph_nodes(*graph),
            edges,
            start,
            #[trigger] sub_nodes[i],
        ) by {
            assert(reached_value(graph_nodes(rev), graph_edges(rev), start, sub_nodes[i]));
            let x = choose|x: int|
                0 <= x < graph_nodes(rev).len() && graph_nodes(rev)[x] == sub_nodes[i]
                    && #[trigger] reachable(graph_edges(rev), start, x as usize);
            lemma_reachable_reversed(edges, start, x as usize);
            assert(graph_nodes(*graph)[x] == sub_nodes[i]);
        }
        assert forall|k: int| 0 <= k < graph_edges(result).len() implies edge_joins(
            graph_nodes(*graph),
            edges,
            sub_nodes,
            #[trigger] graph_edges(result)[k],
        ) by {
            let f = fwd[k];
            assert(graph_edges(result)[k] == (f.1, f.0, f.2));
            let rev_edges = graph_edges(rev);
            assert(edge_joins(graph_nodes(rev), rev_edges, sub_nodes, fwd[k]));
            let j = choose|j: int|
                0 <= j < rev_edges.len() && graph_nodes(rev)[(#[trigger] rev_edges[j]).0 as int] == sub_nodes[f.0 as int]
                    && graph_nodes(rev)[rev_edges[j].1 as int] == sub_nodes[f.1 as int];
            assert(rev_edges[j] == (edges[j].1, edges[j].0, edges[j].2));
            assert(graph_nodes(*graph)[edges[j].0 as int] == sub_nodes[f.1 as int]);
        }
        let rev_edges = graph_edges(rev);
        assert(reversed_edges(rev_edges) =~= edges);
        assert forall|k: int|
            0 <= k < edges.len() && reachable(edges, #[trigger] edges[k].1, start) implies has_edge_between(
            sub_nodes,
            graph_edges(result),
            graph_nodes(*graph)[edges[k].0 as int],
            graph_nodes(*graph)[edges[k].1 as int],
        ) by {
            lemma_reachable_reversed(rev_edges, edges[k].1, start);
            assert(rev_edges[k] == (edges[k].1, edges[k].0, edges[k].2));
            assert(reachable(rev_edges, start, rev_edges[k].0));
            assert(has_edge_between(
                sub_nodes,
                fwd,
                graph_nodes(rev)[rev_edges[k].0 as int],
                graph_nodes(rev)[rev_edges[k].1 as int],
            ));
            let j = choose|j: int|
                0 <= j < fwd.len() && sub_nodes[(#[trigger] fwd[j]).0 as int] == graph_nodes(rev)[rev_edges[k].0 as int]
                    && sub_nodes[fwd[j].1 as int] == graph_nodes(rev)[rev_edges[k].1 as int];
            assert(graph_edges(result)[j] == (fwd[j].1, fwd[j].0, fwd[j].2));
        }
    }
    result
}

/// The first node of `nodes` with the name `name`, if there is one.
pub open spec fn first_named(nodes: Seq<GraphNodeView>, name: Seq<char>, found: Option<usize>) -> bool {
    match found {
        Some(i) => i < nodes.len() && nodes[i as int].1 == name && forall|j: int|
            0 <= j < i ==> (#[trigger] nodes[j]).1 != name,
        None => forall|j: int| 0 <= j < nodes.len() ==> (#[trigger] nodes[j]).1 != name,
    }
}

/// The index of the first node of the graph, in index order, whose name is `name`.
pub fn node_index_by_name(graph: &Graph<GraphNode, String>, name: &str) -> (found: Option<usize>)
    ensures
        first_named(graph_nodes(*graph), name@, found),
{
    let n = graph_node_count(graph);
    let mut i: usize = 0;
    let target = name.to_owned();
    while i < n
        invariant
            i <= n,
            n == graph_nodes(*graph).len(),
            target@ == name@,
            forall|j: int| 0 <= j < i ==> (#[trigger] graph_nodes(*graph)[j]).1 != name@,
        decreases n - i,
    {
        let node = graph_node(graph, i);
        if same_text(&target, node.name()) {
            return Some(i);
        }
        i = i + 1;
    }
    None
}

/// The index of the first object that is written as `node` is, if any.
pub open spec fn first_change_for(objects: Seq<Option<MinervaObjectRef>>, node: GraphNodeView) -> Option<int>
    decreases objects.len(),
{
    if objects.len() == 0 {
        None
    } else {
        match first_change_for(objects.drop_last(), node) {
            Some(i) => Some(i),
            None => match objects.last() {
                Some(o) => if object_text(o@) == node_text(node) {
                    Some(objects.len() - 1)
                } else {
                    None
                },
                None => None,
            },
        }
    }
}

/// The drawing attributes of a node among changes: those of its kind, and, when one of
/// the changes works on the object that the node stands for, the number of the first
/// such change (counting from 1) as a label, on a filled light blue background.
pub open spec fn attributes_with_changes(node: GraphNodeView, objects: Seq<Option<MinervaObjectRef>>) -> Seq<
    char,
> {
    match first_change_for(objects, node) {
        Some(i) => kind_attributes(node.0) + ",xlabel="@ + decimal((i + 1) as nat)
            + ",style=filled,fillcolor=lightblue"@,
        None => kind_attributes(node.0),
    }
}

impl GraphNode {
    /// The attributes with which the node is drawn among changes, given the existing
    /// object that each change works on, in the order of the changes.
    pub fn draw_attributes_with_changes(&self, objects: &Vec<Option<MinervaObjectRef>>) -> (r: String)
        ensures
            r@ == attributes_with_changes(self@, objects@),
    {
        let text = self.to_display_string();
        let mut i: usize = 0;
        let mut found: Option<usize> = None;
        while i < objects.len() && found.is_none()
            invariant
                i <= objects.len(),
                text@ == node_text(self@),
                found is None ==> first_change_for(objects@.take(i as int), self@) is None,
                found matches Some(k) ==> k < objects.len() && first_change_for(objects@, self@) == Some(
                    k as int,
                ),
            decreases objects.len() - i,
        {
            assert(objects@.take(i + 1).drop_last() =~= objects@.take(i as int));
            assert(objects@.take(i + 1).last() == objects@[i as int]);
            match &objects[i] {
                Some(o) => {
                    if same_text(&text, o.to_display_string().as_str()) {
                        proof {
                            assert(first_change_for(objects@.take(i + 1), self@) == Some(i as int));
                            lemma_first_change_prefix(objects@, i as int + 1, self@);
                        }
                        found = Some(i);
                    }
                },
                None => {},
            }
            i = i + 1;
        }
        if found.is_none() {
            assert(i == objects.len());
            assert(objects@.take(objects.len() as int) =~= objects@);
        }
        let mut s = self.draw_attributes();
        match found {
            Some(k) => {
                s.append(",xlabel=");
                s.append(u64_to_decimal(k as u64 + 1).as_str());
                s.append(",style=filled,fillcolor=lightblue");
                proof {
                    reveal_strlit(",xlabel=");
                    reveal_strlit(",style=filled,fillcolor=lightblue");
                }
            },
            None => {},
        }
        s
    }
}

/// A first match in a prefix is the first match in the whole.
pub proof fn lemma_first_change_prefix(objects: Seq<Option<MinervaObjectRef>>, n: int, node: GraphNodeView)
    requires
        0 <= n <= objects.len(),
        first_change_for(objects.take(n), node) is Some,
    ensures
        first_change_for(objects, node) == first_change_for(objects.take(n), node),
    decreases objects.len() - n,
{
    if n < objects.len() {
        assert(objects.take(n + 1).drop_last() =~= objects.take(n));
        assert(first_change_for(objects.take(n + 1), node) == first_change_for(objects.take(n), node));
        lemma_first_change_prefix(objects, n + 1, node);
    } else {
        assert(objects.take(n) =~= objects);
    }
}

/// The endpoints of each edge, in order.
pub open spec fn edge_pairs(edges: Seq<(usize, usize, Seq<char>)>) -> Seq<(usize, usize)> {
    edges.map_values(|e: (usize, usize, Seq<char>)| (e.0, e.1))
}

/// What `petgraph::dot::Dot` writes for a directed graph whose nodes are shown as
/// `labels`, with no edge labels, the node attributes `attributes` and no edge
/// attributes.
pub uninterp spec fn dot_rendering(
    edges: Seq<(usize, usize)>,
    labels: Seq<Seq<char>>,
    attributes: Seq<Seq<char>>,
) -> Seq<char>;

/// `petgraph::dot::Dot::with_attr_getters` with `Config::EdgeNoLabel`, written out
/// with `to_string`. The graph is first mapped, with `Graph::map`, to one whose node
/// weights are the labels; the node attribute getter picks each node's attributes and
/// the edge attribute getter gives none. The contract names the text; it depends only
/// on the edges' endpoints, the labels and the attributes.
#[verifier::external_body]
fn dot_text(graph: &Graph<GraphNode, String>, labels: &Vec<String>, attributes: &Vec<String>) -> (r: String)
    requires
        labels.len() == graph_nodes(*graph).len(),
        attributes.len() == graph_nodes(*graph).len(),
    ensures
        r@ == dot_rendering(edge_pairs(graph_edges(*graph)), strings_view(labels@), strings_view(attributes@)),
{
    let shown = graph.map(|i, _| labels[i.index()].clone(), |_, _| String::new());
    petgraph::dot::Dot::with_attr_getters(
        &shown,
        &[petgraph::dot::Config::EdgeNoLabel],
        &|_, _| String::new(),
        &|_, (i, _)| attributes[i.index()].clone(),
    )
    .to_string()
}

/// The text of each node.
pub open spec fn node_texts(nodes: Seq<GraphNodeView>) -> Seq<Seq<char>> {
    nodes.map_values(|n: GraphNodeView| node_text(n))
}

/// The drawing attributes of each node.
pub open spec fn nodes_attributes(nodes: Seq<GraphNodeView>) -> Seq<Seq<char>> {
    nodes.map_values(|n: GraphNodeView| kind_attributes(n.0))
}

/// The drawing attributes of each node, marked with the first change of `objects` to it.
pub open spec fn nodes_attributes_with_changes(
    nodes: Seq<GraphNodeView>,
    objects: Seq<Option<MinervaObjectRef>>,
) -> Seq<Seq<char>> {
    nodes.map_values(|n: GraphNodeView| attributes_with_changes(n, objects))
}

/// The text and the drawing attributes of each node of the graph.
fn labels_and_attributes(graph: &Graph<GraphNode, String>, objects: Option<&Vec<Option<MinervaObjectRef>>>) -> (r: (
    Vec<String>,
    Vec<String>,
))
    ensures
        r.0.len() == graph_nodes(*graph).len(),
        r.1.len() == graph_nodes(*graph).len(),
        strings_view(r.0@) == node_texts(graph_nodes(*graph)),
        strings_view(r.1@) == match objects {
            Some(o) => nodes_attributes_with_changes(graph_nodes(*graph), o@),
            None => nodes_attributes(graph_nodes(*graph)),
        },
{
    let ghost nodes = graph_nodes(*graph);
    let ghost wanted = match objects {
        Some(o) => nodes_attributes_with_changes(nodes, o@),
        None => nodes_attributes(nodes),
    };
    let n = graph_node_count(graph);
    let mut labels: Vec<String> = Vec::new();
    let mut attributes: Vec<String> = Vec::new();
    let mut i: usize = 0;
    while i < n
        invariant
            i <= n,
            n == nodes.len(),
            nodes == graph_nodes(*graph),
            wanted == (match objects {
                Some(o) => nodes_attributes_with_changes(nodes, o@),
                None => nodes_attributes(nodes),
            }),
            labels.len() == i,
            attributes.len() == i,
            strings_view(labels@) == node_texts(nodes).take(i as int),
            strings_view(attributes@) == wanted.take(i as int),
        decreases n - i,
    {
        let node = graph_node(graph, i);
        let label = node.to_display_string();
        let attr = match objects {
            Some(o) => node.draw_attributes_with_changes(o),
            None => node.draw_attributes(),
        };
        let ghost prev_labels = labels@;
        let ghost prev_attributes = attributes@;
        labels.push(label);
        attributes.push(attr);
        proof {
            assert forall|j: int| 0 <= j < prev_labels.len() implies strings_view(labels@)[j] == strings_view(
                prev_labels,
            )[j] by {
                assert(labels@[j] == prev_labels[j]);
            }
            assert forall|j: int| 0 <= j < prev_attributes.len() implies strings_view(attributes@)[j]
                == strings_view(prev_attributes)[j] by {
                assert(attributes@[j] == prev_attributes[j]);
            }
            assert(attr@ == wanted[i as int]);
            assert(strings_view(labels@) =~= node_texts(nodes).take(i + 1));
            assert(strings_view(attributes@) =~= wanted.take(i + 1));
        }
        i = i + 1;
    }
    assert(node_texts(nodes).take(n as int) =~= node_texts(nodes));
    assert(wanted.take(n as int) =~= wanted);
    (labels, attributes)
}

/// The graph in the DOT language: each node shown by its text and drawn as a box,
/// rounded for the objects that are defined by a query, and edges without labels.
pub fn render_graph(graph: &Graph<GraphNode, String>) -> (r: String)
    ensures
        r@ == dot_rendering(
            edge_pairs(graph_edges(*graph)),
            node_texts(graph_nodes(*graph)),
            nodes_attributes(graph_nodes(*graph)),
        ),
{
    let (labels, attributes) = labels_and_attributes(graph, None);
    dot_text(graph, &labels, &attributes)
}

/// The graph in the DOT language, as `render_graph` draws it, with each node that a
/// change is made to filled and labelled with the number (from 1) of the first such
/// change. `objects` holds, for each change in order, the object it changes, if any.
pub fn render_graph_with_changes(graph: &Graph<GraphNode, String>, objects: &Vec<Option<MinervaObjectRef>>) -> (r: String)
    ensures
        r@ == dot_rendering(
            edge_pairs(graph_edges(*graph)),
            node_texts(graph_nodes(*graph)),
            nodes_attributes_with_changes(graph_nodes(*graph), objects@),
        ),
{
    let (labels, attributes) = labels_and_attributes(graph, Some(objects));
    dot_text(graph, &labels, &attributes)
}


/// The part of `graph` that can be reached from the first node called `name`, or
/// nothing where no node has that name.
pub fn dependency_graph_of(graph: &Graph<GraphNode, String>, name: &str) -> (r: Option<Graph<GraphNode, String>>)
    ensures
        r is None <==> first_named(graph_nodes(*graph), name@, None),
        r matches Some(sub) ==> exists|i: usize|
            #[trigger] first_named(graph_nodes(*graph), name@, Some(i)) && graph_nodes(sub)
                == dependency_nodes(*graph, i) && graph_edges(sub) == dependency_edges(*graph, i),
{
    match node_index_by_name(graph, name) {
        Some(i) => {
            let sub = dependency_graph(graph, i);
            assert(first_named(graph_nodes(*graph), name@, Some(i)));
            Some(sub)
        },
        None => None,
    }
}

/// The part of `graph` from which the first node called `name` can be reached, or
/// nothing where no node has that name.
pub fn dependee_graph_of(graph: &Graph<GraphNode, String>, name: &str) -> (r: Option<Graph<GraphNode, String>>)
    ensures
        r is None <==> first_named(graph_nodes(*graph), name@, None),
        r matches Some(sub) ==> exists|i: usize|
            #[trigger] first_named(graph_nodes(*graph), name@, Some(i)) && forall|k: int|
                0 <= k < graph_nodes(sub).len() ==> reaching_value(
                    graph_nodes(*graph),
                    graph_edges(*graph),
                    i,
                    #[trigger] graph_nodes(sub)[k],
                ),
{
    match node_index_by_name(graph, name) {
        Some(i) => {
            let sub = dependee_graph(graph, i);
            assert(first_named(graph_nodes(*graph), name@, Some(i)));
            Some(sub)
        },
        None => None,
    }
}

} // verus!
