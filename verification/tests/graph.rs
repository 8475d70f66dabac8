use minerva::change::MinervaObjectRef;
use minerva::graph::{
    dependee_graph, dependee_graph_of, dependency_graph, dependency_graph_of, node_index_by_name, render_graph, render_graph_with_changes, GraphNode,
    NodeKind,
};
use petgraph::graph::{Graph, NodeIndex};

fn sample_graph() -> Graph<GraphNode, String> {
    // a -> b -> c, d -> b, and a second node with the value of b.
    let mut g: Graph<GraphNode, String> = Graph::new();
    let a = g.add_node(GraphNode::Relation("a".to_string()));
    let b = g.add_node(GraphNode::Table("b".to_string()));
    let c = g.add_node(GraphNode::TrendStorePart("c".to_string()));
    let d = g.add_node(GraphNode::VirtualEntity("d".to_string()));
    g.add_edge(a, b, "x".to_string());
    g.add_edge(b, c, "y".to_string());
    g.add_edge(d, b, "z".to_string());
    g
}

fn names(g: &Graph<GraphNode, String>) -> Vec<String> {
    g.node_indices().map(|i| g[i].to_display_string()).collect()
}

fn edges(g: &Graph<GraphNode, String>) -> Vec<(usize, usize, String)> {
    g.edge_indices()
        .map(|e| {
            let (s, t) = g.edge_endpoints(e).unwrap();
            (s.index(), t.index(), g[e].clone())
        })
        .collect()
}

#[test]
fn graph_node_texts() {
    let node = GraphNode::Table("entity.node".to_string());
    assert_eq!(node.to_display_string(), "Table(entity.node)");
    assert_eq!(node.name(), "entity.node");
    assert!(node.matches_ref("Table(entity.node)"));
    assert!(!node.matches_ref("Relation(entity.node)"));
    assert_eq!(node.draw_attributes(), "shape=box");
    let m = GraphNode::TrendViewMaterialization("x".to_string());
    assert_eq!(m.draw_attributes(), "shape=box,style=\"rounded\"");
    assert_eq!(m.kind(), NodeKind::TrendViewMaterialization);
}

#[test]
fn draw_attributes_marks_first_change() {
    let node = GraphNode::AttributeStore("hub_node".to_string());
    let objects = vec![
        None,
        Some(MinervaObjectRef::Relation("hub_node".to_string())),
        Some(MinervaObjectRef::AttributeStore("hub_node".to_string())),
        Some(MinervaObjectRef::AttributeStore("hub_node".to_string())),
    ];
    assert_eq!(
        node.draw_attributes_with_changes(&objects),
        "shape=box,xlabel=3,style=filled,fillcolor=lightblue"
    );
    assert_eq!(node.draw_attributes_with_changes(&vec![None]), "shape=box");
}

#[test]
fn dependency_graph_from_start() {
    let g = sample_graph();
    let sub = dependency_graph(&g, 0);
    assert_eq!(names(&sub), vec!["Relation(a)", "Table(b)", "TrendStorePart(c)"]);
    assert_eq!(edges(&sub), vec![(0, 1, String::new()), (1, 2, String::new())]);
}

#[test]
fn dependency_graph_of_leaf_is_empty() {
    let g = sample_graph();
    let sub = dependency_graph(&g, 2);
    assert_eq!(sub.node_count(), 0);
    assert_eq!(sub.edge_count(), 0);
}

#[test]
fn dependency_graph_merges_equal_nodes() {
    let mut g: Graph<GraphNode, String> = Graph::new();
    let a = g.add_node(GraphNode::Relation("a".to_string()));
    let b1 = g.add_node(GraphNode::Table("b".to_string()));
    let b2 = g.add_node(GraphNode::Table("b".to_string()));
    g.add_edge(a, b1, String::new());
    g.add_edge(a, b2, String::new());
    let sub = dependency_graph(&g, a.index());
    assert_eq!(names(&sub), vec!["Relation(a)", "Table(b)"]);
    assert_eq!(sub.edge_count(), 2);
}

#[test]
fn dependee_graph_follows_edges_backwards() {
    let g = sample_graph();
    let sub = dependee_graph(&g, 2);
    // What depends on c: b, and through b both a and d; edges keep their direction.
    let n = names(&sub);
    assert_eq!(n.len(), 4);
    assert!(n.contains(&"Relation(a)".to_string()));
    assert!(n.contains(&"VirtualEntity(d)".to_string()));
    for (s, t, _) in edges(&sub) {
        let from = &n[s];
        let to = &n[t];
        let ok = (from == "Relation(a)" && to == "Table(b)")
            || (from == "VirtualEntity(d)" && to == "Table(b)")
            || (from == "Table(b)" && to == "TrendStorePart(c)");
        assert!(ok, "{from} -> {to}");
    }
}

#[test]
fn node_index_by_name_finds_first() {
    let mut g = sample_graph();
    g.add_node(GraphNode::Relation("b".to_string()));
    assert_eq!(node_index_by_name(&g, "b"), Some(1));
    assert_eq!(node_index_by_name(&g, "zzz"), None);
    let _ = NodeIndex::<u32>::new(0);
}

#[test]
fn render_graph_dot() {
    let mut g: Graph<GraphNode, String> = Graph::new();
    let a = g.add_node(GraphNode::Relation("a".to_string()));
    let b = g.add_node(GraphNode::Table("b".to_string()));
    g.add_edge(a, b, "ignored".to_string());
    assert_eq!(
        render_graph(&g),
        "digraph {\n    0 [ label = \"Relation(a)\" shape=box,style=\"rounded\"]\n    1 [ label = \"Table(b)\" shape=box]\n    0 -> 1 [ ]\n}\n"
    );
    let objects = vec![None, Some(MinervaObjectRef::Relation("a".to_string()))];
    assert_eq!(
        render_graph_with_changes(&g, &objects),
        "digraph {\n    0 [ label = \"Relation(a)\" shape=box,style=\"rounded\",xlabel=2,style=filled,fillcolor=lightblue]\n    1 [ label = \"Table(b)\" shape=box]\n    0 -> 1 [ ]\n}\n"
    );
}

#[test]
fn dependency_graph_of_a_two_node_graph() {
    let mut g: Graph<GraphNode, String> = Graph::new();
    let a = g.add_node(GraphNode::Relation("a".to_string()));
    let b = g.add_node(GraphNode::Table("b".to_string()));
    g.add_edge(a, b, "x".to_string());
    let sub = dependency_graph(&g, 0);
    assert_eq!(sub.edge_count(), 1);
    assert_eq!(names(&sub), vec!["Relation(a)", "Table(b)"]);
    assert_eq!(dependency_graph(&g, 1).edge_count(), 0);
}

#[test]
fn dependency_graphs_by_name() {
    let g = sample_graph();
    let sub = dependency_graph_of(&g, "b").unwrap();
    assert_eq!(names(&sub), vec!["Table(b)", "TrendStorePart(c)"]);
    assert!(dependency_graph_of(&g, "nothing").is_none());
    let up = dependee_graph_of(&g, "b").unwrap();
    assert_eq!(up.edge_count(), 2);
    assert!(dependee_graph_of(&g, "nothing").is_none());
}
