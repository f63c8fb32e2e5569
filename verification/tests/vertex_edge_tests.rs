use graphit::graph::{Edge, Vertex};

#[test]
fn vertex_new_sets_step_after_given_one() {
    let v: Vertex = Vertex::new("a", None, None);
    assert_eq!(v.get_step(), 0);
    assert_eq!(v.get_label(), "a");
    assert!(v.get_payload().is_none());
    assert!(v.get_cache().is_empty());
    let w: Vertex<u8> = Vertex::new("b", Some(7), Some(4));
    assert_eq!(w.get_step(), 5);
    assert_eq!(w.get_payload(), Some(&7));
    let n: Vertex = Vertex::new("n", None, Some(-3));
    assert_eq!(n.get_step(), -2);
}

#[test]
fn vertex_set_payload_then_get() {
    let mut v: Vertex<String> = Vertex::new("a", None, Some(1));
    v.set_payload("x".to_string());
    assert_eq!(v.get_payload(), Some(&"x".to_string()));
    v.set_payload("y".to_string());
    assert_eq!(v.get_payload(), Some(&"y".to_string()));
    assert_eq!(v.get_step(), 2);
    assert_eq!(v.get_label(), "a");
}

#[test]
fn vertex_cache_roundtrip() {
    let mut v: Vertex = Vertex::new("a", None, None);
    assert!(!v.contains_cache_item(3));
    assert_eq!(v.get_cache_item(3), None);
    v.set_cache_item(3, vec![1]);
    v.set_cache_item(4, vec![2]);
    assert_eq!(v.get_cache_item(3), Some(&vec![1]));
    v.set_cache_item(3, vec![5, 6]);
    assert_eq!(v.get_cache_item(3), Some(&vec![5, 6]));
    v.get_cache_item_mut(4).unwrap().push(7);
    assert_eq!(v.get_cache_item(4), Some(&vec![2, 7]));
    assert!(v.get_cache_item_mut(5).is_none());
    v.get_cache_mut().remove(&4);
    assert!(!v.contains_cache_item(4));
    assert_eq!(v.remove_cache_item(3), Some(vec![5, 6]));
    assert_eq!(v.remove_cache_item(3), None);
    v.set_cache_item(9, vec![]);
    v.clear_cache();
    assert!(v.get_cache().is_empty());
}

#[test]
fn vertex_clone_keeps_everything() {
    let mut v: Vertex<String> = Vertex::new("a", Some("p".to_string()), Some(2));
    v.set_cache_item(1, vec![1, 2]);
    let w = v.clone();
    assert_eq!(w.get_label(), "a");
    assert_eq!(w.get_step(), 3);
    assert_eq!(w.get_payload(), Some(&"p".to_string()));
    assert_eq!(w.get_cache_item(1), Some(&vec![1, 2]));
}

#[test]
fn edge_payload_keeps_direction() {
    let mut e: Edge<u32> = Edge::Unidirectional(None);
    assert_eq!(e.get_payload(), None);
    e.set_payload(3);
    assert_eq!(e.get_payload(), Some(&3));
    assert!(matches!(e, Edge::Unidirectional(Some(3))));
    let mut b: Edge<u32> = Edge::Bidirectional(Some(1));
    assert_eq!(b.get_payload(), Some(&1));
    b.set_payload(2);
    assert!(matches!(b, Edge::Bidirectional(Some(2))));
    let c = b.clone();
    assert!(matches!(c, Edge::Bidirectional(Some(2))));
}

#[test]
fn edge_is_bidirectional() {
    let a: Edge = Edge::Unidirectional(None);
    let b: Edge<u8> = Edge::Bidirectional(Some(1));
    assert!(!a.is_bidirectional());
    assert!(b.is_bidirectional());
}

#[test]
fn vertex_payload_survives_cache_calls() {
    let mut v: Vertex<u8> = Vertex::new("a", None, None);
    v.set_payload(4);
    v.set_cache_item(1, vec![1]);
    v.remove_cache_item(1);
    v.set_cache_item(2, vec![2]);
    v.clear_cache();
    assert_eq!(v.get_payload(), Some(&4));
    v.set_cache_item(5, vec![5]);
    v.set_payload(6);
    v.set_cache_item(6, vec![6]);
    v.remove_cache_item(7);
    assert_eq!(v.get_cache_item(5), Some(&vec![5]));
    assert_eq!(v.get_label(), "a");
    assert_eq!(v.get_step(), 0);
}

#[test]
fn vertex_payload_survives_writes_through_references() {
    let mut v: Vertex<u8> = Vertex::new("a", None, None);
    v.set_cache_item(1, vec![1]);
    v.set_payload(9);
    v.get_cache_item_mut(1).unwrap().push(2);
    v.get_cache_mut().insert(3, vec![3]);
    v.get_cache_mut().clear();
    assert_eq!(v.get_payload(), Some(&9));
    assert!(v.get_cache().is_empty());
}
