use graphit::cursor::Cursor;
use graphit::graph::{Edge, Graph, Vertex};

fn sample_graph() -> Graph<Vertex, Edge> {
    let mut graph = Graph::new("Start");

    let root_id = graph.root_vid();

    let new_pricing_strategy_id = graph
        .add_child(
            &root_id,
            Vertex::new("New Price Strategy", None, None),
            None,
        )
        .unwrap();

    let pricing_distribution_id = graph
        .add_child(
            &new_pricing_strategy_id,
            Vertex::new("Pricing Distribution", None, None),
            None,
        )
        .unwrap();
    graph
        .add_child(
            &pricing_distribution_id,
            Vertex::new("Return Revenue", None, None),
            None,
        )
        .unwrap();
    graph
        .add_child(
            &pricing_distribution_id,
            Vertex::new("Set Min & Max", None, None),
            None,
        )
        .unwrap();

    graph
        .add_child(
            &new_pricing_strategy_id,
            Vertex::<()>::new("Overwrite", None, None),
            None,
        )
        .unwrap();

    graph.add_child(
        &root_id,
        Vertex::<()>::new("Adjust Live Pricing", None, None),
        None,
    );

    let end_live_experiment_id = graph
        .add_child(
            &root_id,
            Vertex::<()>::new("End Live Experiment", None, None),
            None,
        )
        .unwrap();
    graph.add_child(
        &end_live_experiment_id,
        Vertex::new("Roll out", None, None),
        None,
    );
    graph.add_child(
        &end_live_experiment_id,
        Vertex::new("Roll back", None, None),
        None,
    );
    graph
}

#[test]
fn build_graph() {
    let graph = sample_graph();
    let root_id = graph.root_vid();
    match graph.get_vertex(root_id) {
        Some(vertex) => {
            assert_eq!(vertex.get_label(), "Start");
        }
        None => {
            panic!("Vertex with ID {} not found", root_id);
        }
    }
    println!("{:?}", graph);
    assert_eq!(4, 4);
}

#[test]
fn cursor_moves() {
    let graph = sample_graph();
    let mut cursor = Cursor::new(&graph);
    let available_vids = cursor
        .get_edges(&graph)
        .map(|edges| edges.iter().map(|e| e.0).collect::<Vec<u32>>());

    println!("Cursor pointing at node: {:?}", cursor.get_node(&graph));
    println!("Cursor node has edges: {:?}", cursor.get_edges(&graph));

    match cursor.move_to(&graph, available_vids.unwrap()[0]) {
        Some(vid) => {
            println!("Moved to node: {:?}", vid);
        }
        None => {
            panic!("Node not found");
        }
    }

    println!("Cursor pointing at node: {:?}", cursor.get_node(&graph));
    println!("Cursor node has edges: {:?}", cursor.get_edges(&graph));
}

fn small_graph() -> Graph<Vertex<String>, Edge<String>> {
    Graph::with_root_vid("root", 10)
}

#[test]
fn graph_with_root_vid_holds_only_the_root() {
    let g = small_graph();
    assert_eq!(g.root_vid(), 10);
    let root = g.get_vertex(10).unwrap();
    assert_eq!(root.get_label(), "root");
    assert_eq!(root.get_step(), 0);
    assert!(root.get_payload().is_none());
    assert!(g.get_vertex(11).is_none());
    assert!(g.get_edges(10).is_none());
    assert!(g.get_children().is_none());
}

#[test]
fn graph_new_draws_root_in_range() {
    for _ in 0..50 {
        let g: Graph<Vertex, Edge> = Graph::new("Start");
        let root = g.root_vid();
        assert!(root >= 2 && root < u32::MAX);
        assert_eq!(g.get_vertex(root).unwrap().get_label(), "Start");
        assert_eq!(g.get_vertex(root).unwrap().get_step(), 0);
    }
}

#[test]
fn add_vertex_returns_vid_and_replaces() {
    let mut g = small_graph();
    assert_eq!(g.add_vertex(&5, Vertex::new("five", None, Some(2))), 5);
    assert_eq!(g.get_vertex(5).unwrap().get_label(), "five");
    assert_eq!(g.get_vertex(5).unwrap().get_step(), 3);
    assert_eq!(g.add_vertex(&5, Vertex::new("again", None, None)), 5);
    assert_eq!(g.get_vertex(5).unwrap().get_label(), "again");
    assert_eq!(g.get_vertex(10).unwrap().get_label(), "root");
}

#[test]
fn add_edge_appends_in_order() {
    let mut g = small_graph();
    g.add_edge(10, 1, Edge::Unidirectional(None));
    g.add_edge(10, 2, Edge::Bidirectional(Some("p".to_string())));
    g.add_edge(7, 3, Edge::Unidirectional(None));
    let es = g.get_edges(10).unwrap();
    assert_eq!(es.len(), 2);
    assert_eq!(es[0].0, 1);
    assert!(matches!(es[0].1, Edge::Unidirectional(None)));
    assert_eq!(es[1].0, 2);
    assert_eq!(es[1].1.get_payload(), Some(&"p".to_string()));
    assert_eq!(g.get_edges(7).unwrap().len(), 1);
    assert!(g.get_edges(1).is_none());
}

#[test]
fn add_child_with_vid_adds_parent_step_and_links() {
    let mut g = small_graph();
    g.add_vertex(&20, Vertex::new("p", None, Some(3)));
    let r = g.add_child_with_vid(&20, Vertex::new("c", None, Some(1)), None, 21);
    assert_eq!(r, Some(21));
    let c = g.get_vertex(21).unwrap();
    assert_eq!(c.get_label(), "c");
    assert_eq!(c.get_step(), 2 + 4);
    let es = g.get_edges(20).unwrap();
    assert_eq!(es.len(), 1);
    assert_eq!(es[0].0, 21);
    assert!(matches!(es[0].1, Edge::Unidirectional(None)));

    let r2 = g.add_child_with_vid(&20, Vertex::new("d", None, None), Some(Edge::Bidirectional(None)), 22);
    assert_eq!(r2, Some(22));
    assert_eq!(g.get_vertex(22).unwrap().get_step(), 4);
    let es = g.get_edges(20).unwrap();
    assert_eq!(es.len(), 2);
    assert_eq!(es[1].0, 22);
    assert!(matches!(es[1].1, Edge::Bidirectional(None)));
}

#[test]
fn add_child_under_missing_parent_is_refused() {
    let mut g = small_graph();
    assert_eq!(g.add_child_with_vid(&99, Vertex::new("c", None, None), None, 21), None);
    assert!(g.get_vertex(21).is_none());
    assert!(g.get_edges(99).is_none());
    assert_eq!(g.add_child(&99, Vertex::new("c", None, None), None), None);
    assert!(g.get_edges(99).is_none());
}

#[test]
fn add_child_draws_an_id_and_links_it() {
    let mut g = small_graph();
    let id = g.add_child(&10, Vertex::new("c", None, None), None).unwrap();
    assert!(id >= 2 && id < u32::MAX);
    assert_eq!(g.get_vertex(id).unwrap().get_label(), "c");
    let es = g.get_edges(10).unwrap();
    assert_eq!(es[es.len() - 1].0, id);
}

#[test]
fn get_children_follows_root_edges_in_order() {
    let mut g = small_graph();
    g.add_child_with_vid(&10, Vertex::new("a", None, None), None, 1);
    g.add_edge(10, 77, Edge::Unidirectional(None));
    g.add_child_with_vid(&10, Vertex::new("b", Some("x".to_string()), None), None, 2);
    g.add_child_with_vid(&1, Vertex::new("deep", None, None), None, 3);
    let cs = g.get_children().unwrap();
    assert_eq!(cs.len(), 2);
    assert_eq!(cs[0].get_label(), "a");
    assert_eq!(cs[1].get_label(), "b");
    assert_eq!(cs[1].get_payload(), Some(&"x".to_string()));
}

#[test]
fn set_vertex_payload_then_read() {
    let mut g = small_graph();
    assert!(g.set_vertex_payload(10, "{\"a\":1}".to_string()));
    assert_eq!(g.get_vertex(10).unwrap().get_payload(), Some(&"{\"a\":1}".to_string()));
    assert_eq!(g.get_vertex(10).unwrap().get_label(), "root");
    assert!(!g.set_vertex_payload(11, "x".to_string()));
    assert!(g.get_vertex(11).is_none());
}

#[test]
fn set_edge_payload_touches_first_matching_edge() {
    let mut g = small_graph();
    g.add_edge(10, 1, Edge::Bidirectional(None));
    g.add_edge(10, 2, Edge::Unidirectional(None));
    g.add_edge(10, 2, Edge::Unidirectional(None));
    assert!(g.set_edge_payload(10, 2, "p".to_string()));
    let es = g.get_edges(10).unwrap();
    assert_eq!(es[1].1.get_payload(), Some(&"p".to_string()));
    assert!(matches!(es[1].1, Edge::Unidirectional(_)));
    assert_eq!(es[2].1.get_payload(), None);
    assert_eq!(es[0].1.get_payload(), None);
    assert_eq!(g.get_edge_payload(10, 2), Some(&"p".to_string()));
    assert_eq!(g.get_edge_payload(10, 1), None);
    assert_eq!(g.get_edge_payload(10, 3), None);
    assert_eq!(g.get_edge_payload(4, 3), None);
    assert!(!g.set_edge_payload(10, 3, "q".to_string()));
    assert!(!g.set_edge_payload(4, 2, "q".to_string()));
}

#[test]
fn graph_keeps_root_through_operations() {
    let mut g = small_graph();
    g.add_vertex(&10, Vertex::new("new root", None, None));
    g.add_child_with_vid(&10, Vertex::new("c", None, None), None, 10);
    g.set_vertex_payload(10, "p".to_string());
    assert_eq!(g.root_vid(), 10);
    assert!(g.get_vertex(10).is_some());
}

#[test]
fn cursor_starts_at_root() {
    let g = small_graph();
    let c = Cursor::new(&g);
    assert_eq!(c.get_current_node(), 10);
    assert_eq!(c.get_root(&g), 10);
    assert_eq!(c.get_path(), vec![10]);
    assert_eq!(c.get_node(&g).unwrap().get_label(), "root");
    assert!(c.get_edges(&g).is_none());
}

#[test]
fn cursor_moves_only_along_edges() {
    let mut g = small_graph();
    g.add_child_with_vid(&10, Vertex::new("a", None, None), None, 1);
    g.add_vertex(&2, Vertex::new("b", None, None));
    let mut c = Cursor::new(&g);
    assert_eq!(c.move_to(&g, 2), None);
    assert_eq!(c.get_current_node(), 10);
    assert_eq!(c.get_path(), vec![10]);
    assert_eq!(c.move_to(&g, 1), Some(1));
    assert_eq!(c.get_current_node(), 1);
    assert_eq!(c.get_path(), vec![10, 1]);
    assert_eq!(c.get_node(&g).unwrap().get_label(), "a");
    assert_eq!(c.move_to(&g, 10), None);
}

#[test]
fn cursor_back_undoes_move() {
    let mut g = small_graph();
    g.add_child_with_vid(&10, Vertex::new("a", None, None), None, 1);
    g.add_child_with_vid(&1, Vertex::new("b", None, None), None, 2);
    let mut c = Cursor::new(&g);
    assert_eq!(c.back(), None);
    assert_eq!(c.get_path(), vec![10]);
    c.move_to(&g, 1).unwrap();
    c.move_to(&g, 2).unwrap();
    assert_eq!(c.get_path(), vec![10, 1, 2]);
    assert_eq!(c.back(), Some(1));
    assert_eq!(c.get_current_node(), 1);
    assert_eq!(c.get_path(), vec![10, 1]);
    assert_eq!(c.back(), Some(10));
    assert_eq!(c.back(), None);
    assert_eq!(c.get_current_node(), 10);
}

#[test]
fn cursor_sees_edges_added_later() {
    let mut g = small_graph();
    let mut c = Cursor::new(&g);
    assert_eq!(c.move_to(&g, 5), None);
    g.add_edge(10, 5, Edge::Bidirectional(None));
    assert_eq!(c.move_to(&g, 5), Some(5));
    assert!(c.get_node(&g).is_none());
}

#[test]
fn cursor_get_edges_clones_the_list() {
    let mut g = small_graph();
    g.add_edge(10, 1, Edge::Bidirectional(Some("e".to_string())));
    g.add_edge(10, 2, Edge::Unidirectional(None));
    let c = Cursor::new(&g);
    let es = c.get_edges(&g).unwrap();
    assert_eq!(es.len(), 2);
    assert_eq!(es[0].0, 1);
    assert!(matches!(&es[0].1, Edge::Bidirectional(Some(p)) if p == "e"));
    assert_eq!(es[1].0, 2);
    assert!(matches!(es[1].1, Edge::Unidirectional(None)));
}

#[test]
fn cursor_cache_roundtrip() {
    let g = small_graph();
    let mut c = Cursor::new(&g);
    assert!(!c.contains_cache_item(1));
    c.set_cache_item(1, vec![1, 2, 3]);
    assert!(c.contains_cache_item(1));
    assert_eq!(c.get_cache_item(1), Some(&vec![1, 2, 3]));
    c.get_cache_item_mut(1).unwrap().push(4);
    assert_eq!(c.get_cache_item(1), Some(&vec![1, 2, 3, 4]));
    assert!(c.get_cache_item_mut(2).is_none());
    c.get_cache_mut().insert(2, vec![9]);
    assert_eq!(c.get_cache().len(), 2);
    assert_eq!(c.remove_cache_item(1), Some(vec![1, 2, 3, 4]));
    assert_eq!(c.remove_cache_item(1), None);
    assert!(!c.contains_cache_item(1));
    c.clear_cache();
    assert!(c.get_cache().is_empty());
}

#[test]
fn child_under_root_is_listed_last() {
    let mut g = small_graph();
    g.add_child_with_vid(&10, Vertex::new("a", None, None), None, 1);
    g.add_child_with_vid(&10, Vertex::new("b", None, None), Some(Edge::Bidirectional(None)), 2);
    let cs = g.get_children().unwrap();
    assert_eq!(cs[cs.len() - 1].get_label(), "b");
    let c = Cursor::new(&g);
    let mut c2 = Cursor::new(&g);
    assert_eq!(c2.move_to(&g, 2), Some(2));
    assert_eq!(c2.back(), Some(c.get_current_node()));
    assert_eq!(c2.get_path(), c.get_path());
}

#[test]
fn fresh_vid_probes_upward_and_wraps() {
    let mut g = small_graph();
    assert_eq!(g.fresh_vid(10), Some(11));
    assert_eq!(g.fresh_vid(5), Some(5));
    g.add_vertex(&11, Vertex::new("x", None, None));
    assert_eq!(g.fresh_vid(10), Some(12));
    let mut h: Graph<Vertex, Edge> = Graph::with_root_vid("r", u32::MAX - 1);
    assert_eq!(h.fresh_vid(u32::MAX - 1), Some(2));
    h.add_vertex(&2, Vertex::new("two", None, None));
    assert_eq!(h.fresh_vid(u32::MAX - 1), Some(3));
}

#[test]
fn add_child_never_overwrites() {
    let mut g = small_graph();
    let mut ids = Vec::new();
    for _ in 0..200 {
        let id = g.add_child(&10, Vertex::new("c", None, None), None).unwrap();
        assert!(!ids.contains(&id));
        assert_ne!(id, 10);
        ids.push(id);
    }
    assert_eq!(g.get_vertex(10).unwrap().get_label(), "root");
    assert_eq!(g.get_children().unwrap().len(), 200);
}

#[test]
fn edge_payload_survives_later_calls() {
    let mut g = small_graph();
    g.add_edge(10, 2, Edge::Unidirectional(None));
    g.add_edge(10, 3, Edge::Unidirectional(None));
    assert!(g.set_edge_payload(10, 2, "p".to_string()));
    g.add_edge(10, 2, Edge::Bidirectional(Some("other".to_string())));
    assert!(g.set_edge_payload(10, 3, "q".to_string()));
    g.add_child_with_vid(&10, Vertex::new("c", None, None), None, 2);
    g.set_vertex_payload(2, "v".to_string());
    assert_eq!(g.get_edge_payload(10, 2), Some(&"p".to_string()));
    assert_eq!(g.get_edge_payload(10, 3), Some(&"q".to_string()));
}

#[test]
fn path_stays_linked_by_edges() {
    let mut g = small_graph();
    g.add_child_with_vid(&10, Vertex::new("a", None, None), None, 1);
    g.add_child_with_vid(&1, Vertex::new("b", None, None), None, 2);
    g.add_edge(2, 10, Edge::Unidirectional(None));
    let mut c = Cursor::new(&g);
    c.move_to(&g, 1).unwrap();
    c.move_to(&g, 2).unwrap();
    c.move_to(&g, 10).unwrap();
    c.back().unwrap();
    c.move_to(&g, 10).unwrap();
    g.add_vertex(&3, Vertex::new("c", None, None));
    let p = c.get_path();
    assert_eq!(p[0], g.root_vid());
    assert_eq!(p[p.len() - 1], c.get_current_node());
    for i in 0..p.len() - 1 {
        assert!(g.get_edges(p[i]).unwrap().iter().any(|e| e.0 == p[i + 1]));
    }
    assert_eq!(c.back(), Some(2));
    assert_eq!(c.get_current_node(), 2);
}

#[test]
fn edges_keep_position_and_direction() {
    let mut g = small_graph();
    g.add_edge(10, 4, Edge::Bidirectional(None));
    g.add_child_with_vid(&10, Vertex::new("c", None, None), None, 5);
    assert!(g.set_edge_payload(10, 4, "p".to_string()));
    g.add_edge(10, 4, Edge::Unidirectional(None));
    assert!(g.set_edge_payload(10, 5, "q".to_string()));
    let es = g.get_edges(10).unwrap();
    assert_eq!(es.len(), 3);
    assert_eq!(es[0].0, 4);
    assert!(es[0].1.is_bidirectional());
    assert_eq!(es[1].0, 5);
    assert!(!es[1].1.is_bidirectional());
    assert_eq!(es[2].0, 4);
}

#[test]
fn new_edge_reads_no_payload_until_set() {
    let mut g = small_graph();
    g.add_edge(10, 4, Edge::Unidirectional(None));
    assert_eq!(g.get_edge_payload(10, 4), None);
    g.add_edge(10, 4, Edge::Bidirectional(Some("later".to_string())));
    g.add_child_with_vid(&10, Vertex::new("c", None, None), None, 6);
    assert_eq!(g.get_edge_payload(10, 4), None);
    assert_eq!(g.get_edge_payload(10, 6), None);
    assert!(g.set_edge_payload(10, 4, "now".to_string()));
    assert_eq!(g.get_edge_payload(10, 4), Some(&"now".to_string()));
}

#[test]
fn path_lists_moves_not_undone() {
    let mut g = small_graph();
    g.add_child_with_vid(&10, Vertex::new("a", None, None), None, 1);
    g.add_child_with_vid(&10, Vertex::new("b", None, None), None, 2);
    g.add_child_with_vid(&1, Vertex::new("c", None, None), None, 3);
    let mut c = Cursor::new(&g);
    c.move_to(&g, 1);
    c.move_to(&g, 3);
    c.move_to(&g, 9);
    c.back();
    c.back();
    c.move_to(&g, 2);
    c.set_cache_item(1, vec![1]);
    assert_eq!(c.get_path(), vec![10, 2]);
    assert_eq!(c.get_root(&g), c.get_path()[0]);
    g.add_child_with_vid(&2, Vertex::new("d", None, None), None, 7);
    c.move_to(&g, 7);
    assert_eq!(c.get_path(), vec![10, 2, 7]);
    assert_eq!(c.get_current_node(), 7);
}
