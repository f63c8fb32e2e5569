//! What holds of vertices, graphs and cursors across operations, one call
//! at a time and over whole runs of calls.

use crate::cursor::{Cursor, CursorView};
use crate::graph::{
    first_edge_to, has_edge_to, is_first_edge_to, lemma_first_edge_to_unique, targets_in, Edge,
    Graph, GraphView, Vertex, VertexView,
};
use vstd::prelude::*;

verus! {

// ---------------------------------------------------------------------------
// Vertices

/// A call on a vertex that changes it.
pub enum VertexOp<P> {
    SetPayload(P),
    SetCacheItem(u32, Vec<u8>),
    RemoveCacheItem(u32),
    ClearCache,
    /// A write through the reference `get_cache_item_mut` hands out: when the
    /// key has an entry, it ends up holding the bytes written.
    WriteCacheItem(u32, Vec<u8>),
    /// Writes through the reference `get_cache_mut` hands out: the cache ends
    /// up as the map written.
    ReplaceCache(Map<u32, Vec<u8>>),
}

impl<P> VertexOp<P> {
    /// The call may give the cache an entry under `key`.
    pub open spec fn adds(self, key: u32) -> bool {
        match self {
            VertexOp::SetCacheItem(k, _) => k == key,
            VertexOp::ReplaceCache(_) => true,
            _ => false,
        }
    }

    /// The call may change the cache entry under `key`.
    pub open spec fn touches(self, key: u32) -> bool {
        match self {
            VertexOp::SetPayload(_) => false,
            VertexOp::SetCacheItem(k, _) => k == key,
            VertexOp::RemoveCacheItem(k) => k == key,
            VertexOp::ClearCache => true,
            VertexOp::WriteCacheItem(k, _) => k == key,
            VertexOp::ReplaceCache(_) => true,
        }
    }
}

pub open spec fn apply_vertex_op<P>(v: VertexView<P>, op: VertexOp<P>) -> VertexView<P> {
    match op {
        VertexOp::SetPayload(p) => v.set_payload(p),
        VertexOp::SetCacheItem(k, x) => v.set_cache_item(k, x),
        VertexOp::RemoveCacheItem(k) => v.remove_cache_item(k),
        VertexOp::ClearCache => v.clear_cache(),
        VertexOp::WriteCacheItem(k, x) => if v.cache.contains_key(k) {
            v.set_cache_item(k, x)
        } else {
            v
        },
        VertexOp::ReplaceCache(m) => v.replace_cache(m),
    }
}

/// The vertex after the calls `ops`, in order.
pub open spec fn run_vertex<P>(v: VertexView<P>, ops: Seq<VertexOp<P>>) -> VertexView<P>
    decreases ops.len(),
{
    if ops.len() == 0 {
        v
    } else {
        run_vertex(apply_vertex_op(v, ops[0]), ops.drop_first())
    }
}

/// No call changes a vertex's label or step.
pub proof fn law_vertex_keeps_label_and_step<P>(v: VertexView<P>, ops: Seq<VertexOp<P>>)
    ensures
        run_vertex(v, ops).label == v.label,
        run_vertex(v, ops).step == v.step,
    decreases ops.len(),
{
    if ops.len() > 0 {
        law_vertex_keeps_label_and_step(apply_vertex_op(v, ops[0]), ops.drop_first());
    }
}

/// A payload set on a vertex reads back unchanged after any calls that do
/// not set the payload again: cache calls of every kind, writes through the
/// references that `get_cache_item_mut` and `get_cache_mut` hand out
/// included.
pub proof fn law_vertex_payload_persists<P>(v: VertexView<P>, p: P, ops: Seq<VertexOp<P>>)
    requires
        forall|i: int| 0 <= i < ops.len() ==> !(#[trigger] ops[i] is SetPayload),
    ensures
        run_vertex(v.set_payload(p), ops).payload == Some(p),
    decreases ops.len(),
{
    if ops.len() > 0 {
        assert(!(ops[0] is SetPayload));
        let v1 = apply_vertex_op(v.set_payload(p), ops[0]);
        assert(v1 == v1.set_payload(p));
        assert forall|i: int| 0 <= i < ops.drop_first().len() implies !(
        #[trigger] ops.drop_first()[i] is SetPayload) by {
            assert(ops.drop_first()[i] == ops[i + 1]);
        }
        law_vertex_payload_persists(v1, p, ops.drop_first());
    }
}

/// A cache entry set on a vertex reads back unchanged after any calls that
/// do not touch its key.
pub proof fn law_vertex_cache_item_persists<P>(
    v: VertexView<P>,
    key: u32,
    value: Vec<u8>,
    ops: Seq<VertexOp<P>>,
)
    requires
        forall|i: int| 0 <= i < ops.len() ==> !(#[trigger] ops[i]).touches(key),
    ensures
        run_vertex(v.set_cache_item(key, value), ops).cache.contains_key(key),
        run_vertex(v.set_cache_item(key, value), ops).cache[key] == value,
    decreases ops.len(),
{
    if ops.len() > 0 {
        assert(!ops[0].touches(key));
        let v1 = apply_vertex_op(v.set_cache_item(key, value), ops[0]);
        assert(v1.cache =~= v1.set_cache_item(key, value).cache);
        assert(v1 == v1.set_cache_item(key, value));
        assert forall|i: int| 0 <= i < ops.drop_first().len() implies !(
        #[trigger] ops.drop_first()[i]).touches(key) by {
            assert(ops.drop_first()[i] == ops[i + 1]);
        }
        law_vertex_cache_item_persists(v1, key, value, ops.drop_first());
    }
}

/// A key absent from a vertex's cache (say, just removed, or cleared) stays
/// absent through any calls that do not give it an entry.
pub proof fn law_vertex_cache_item_absent_persists<P>(
    v: VertexView<P>,
    key: u32,
    ops: Seq<VertexOp<P>>,
)
    requires
        !v.cache.contains_key(key),
        forall|i: int|
            0 <= i < ops.len() ==> !(#[trigger] ops[i]).adds(key),
    ensures
        !run_vertex(v, ops).cache.contains_key(key),
    decreases ops.len(),
{
    if ops.len() > 0 {
        assert(!ops[0].adds(key));
        assert forall|i: int| 0 <= i < ops.drop_first().len() implies !(
        #[trigger] ops.drop_first()[i]).adds(key) by {
            assert(ops.drop_first()[i] == ops[i + 1]);
        }
        law_vertex_cache_item_absent_persists(apply_vertex_op(v, ops[0]), key, ops.drop_first());
    }
}

/// A vertex made with a step `s` has step `s + 1`; made without one, step 0.
pub proof fn law_vertex_initial_step<P>(s: isize)
    requires
        s < isize::MAX,
    ensures
        Vertex::<P>::initial_step(Some(s)) == s + 1,
        Vertex::<P>::initial_step(None) == 0,
{
}

// ---------------------------------------------------------------------------
// Graphs

/// A call on a graph that changes it.
pub enum GraphOp<VP, EP> {
    AddVertex(u32, VertexView<VP>),
    AddEdge(u32, u32, Edge<EP>),
    AddChild(u32, VertexView<VP>, Option<Edge<EP>>, u32),
    SetVertexPayload(u32, VP),
    SetEdgePayload(u32, u32, EP),
}

pub open spec fn apply_graph_op<VP, EP>(g: GraphView<VP, EP>, op: GraphOp<VP, EP>) -> GraphView<
    VP,
    EP,
> {
    match op {
        GraphOp::AddVertex(vid, v) => g.add_vertex(vid, v),
        GraphOp::AddEdge(from, to, e) => g.add_edge(from, to, e),
        GraphOp::AddChild(parent, child, edge, vid) => g.add_child(parent, child, edge, vid).0,
        GraphOp::SetVertexPayload(vid, p) => g.set_vertex_payload(vid, p).0,
        GraphOp::SetEdgePayload(from, to, p) => g.set_edge_payload(from, to, p).0,
    }
}

/// The graph after the calls `ops`, in order.
pub open spec fn run_graph<VP, EP>(g: GraphView<VP, EP>, ops: Seq<GraphOp<VP, EP>>) -> GraphView<
    VP,
    EP,
>
    decreases ops.len(),
{
    if ops.len() == 0 {
        g
    } else {
        run_graph(apply_graph_op(g, ops[0]), ops.drop_first())
    }
}

/// Every graph holds its root vertex.
pub proof fn law_every_graph_holds_root<VP, EP>(g: Graph<Vertex<VP>, Edge<EP>>)
    ensures
        g@.wf(),
{
    g.lemma_holds_root();
}

/// When some edge of `es` leads to `to`, there is a first one.
pub proof fn lemma_first_exists<EP>(es: Seq<(u32, Edge<EP>)>, to: u32, w: int)
    requires
        0 <= w < es.len(),
        es[w].0 == to,
    ensures
        is_first_edge_to(es, to, first_edge_to(es, to)),
    decreases w,
{
    if exists|j: int| 0 <= j < w && es[j].0 == to {
        let j = choose|j: int| 0 <= j < w && es[j].0 == to;
        lemma_first_exists(es, to, j);
    } else {
        assert(is_first_edge_to(es, to, w));
    }
}

proof fn lemma_has_first<EP>(es: Seq<(u32, Edge<EP>)>, to: u32)
    requires
        has_edge_to(es, to),
    ensures
        is_first_edge_to(es, to, first_edge_to(es, to)),
{
    let w = choose|w: int| 0 <= w < es.len() && es[w].0 == to;
    lemma_first_exists(es, to, w);
}

/// One call keeps the graph's root, keeps it a vertex, and keeps every
/// adjacency list non-empty.
proof fn lemma_op_keeps_root<VP, EP>(g: GraphView<VP, EP>, op: GraphOp<VP, EP>)
    requires
        g.wf(),
    ensures
        apply_graph_op(g, op).wf(),
        apply_graph_op(g, op).root == g.root,
        g.lists_nonempty() ==> apply_graph_op(g, op).lists_nonempty(),
{
    let g2 = apply_graph_op(g, op);
    if g.lists_nonempty() {
        assert forall|vid: u32| #[trigger] g2.edges.contains_key(vid) implies g2.edges[vid].len()
            > 0 by {
            if g.edges.contains_key(vid) {
                assert(g.edges[vid].len() > 0);
            }
            match op {
                GraphOp::SetEdgePayload(x, t, p) => {
                    let es = g.edges_from(x);
                    if has_edge_to(es, t) && vid == x {
                        lemma_has_first(es, t);
                        assert(g2.edges[vid].len() == es.len());
                    }
                },
                _ => {},
            }
        }
    }
}

/// Every call keeps the graph's root and keeps it a vertex; none leaves an
/// adjacency list empty.
pub proof fn law_graph_keeps_root<VP, EP>(
    g: Graph<Vertex<VP>, Edge<EP>>,
    ops: Seq<GraphOp<VP, EP>>,
)
    ensures
        run_graph(g@, ops).wf(),
        run_graph(g@, ops).root == g@.root,
        g@.lists_nonempty() ==> run_graph(g@, ops).lists_nonempty(),
{
    g.lemma_holds_root();
    lemma_run_keeps_root(g@, ops);
}

proof fn lemma_run_keeps_root<VP, EP>(g: GraphView<VP, EP>, ops: Seq<GraphOp<VP, EP>>)
    requires
        g.wf(),
    ensures
        run_graph(g, ops).wf(),
        run_graph(g, ops).root == g.root,
        g.lists_nonempty() ==> run_graph(g, ops).lists_nonempty(),
    decreases ops.len(),
{
    if ops.len() > 0 {
        lemma_op_keeps_root(g, ops[0]);
        lemma_run_keeps_root(apply_graph_op(g, ops[0]), ops.drop_first());
    }
}

/// A fresh graph has no empty adjacency list.
pub proof fn law_rooted_lists_nonempty<VP, EP>(vid: u32, label: Seq<char>)
    ensures
        GraphView::<VP, EP>::rooted(vid, label).lists_nonempty(),
        GraphView::<VP, EP>::rooted(vid, label).wf(),
{
    let g = GraphView::<VP, EP>::rooted(vid, label);
    assert forall|v: u32| #[trigger] g.edges.contains_key(v) implies g.edges[v].len() > 0 by {
        assert(!g.edges.contains_key(v));
    }
}

/// One call keeps every edge's target: any vertex that some edge led to from
/// `from` is still led to from `from`.
proof fn lemma_op_keeps_link<VP, EP>(g: GraphView<VP, EP>, op: GraphOp<VP, EP>, from: u32, to: u32)
    requires
        has_edge_to(g.edges_from(from), to),
    ensures
        has_edge_to(apply_graph_op(g, op).edges_from(from), to),
{
    let es = g.edges_from(from);
    let w = choose|w: int| 0 <= w < es.len() && es[w].0 == to;
    let es2 = apply_graph_op(g, op).edges_from(from);
    match op {
        GraphOp::AddEdge(x, t, e) => {
            if x == from {
                assert(es2 == es.push((t, e)));
                assert(es2[w].0 == to);
            }
        },
        GraphOp::AddChild(parent, child, edge, vid) => {
            if g.vertices.contains_key(parent) && parent == from {
                assert(es2[w] == es[w]);
            }
        },
        GraphOp::SetEdgePayload(x, t, p) => {
            if x == from && has_edge_to(es, t) {
                lemma_has_first(es, t);
                assert(es2[w].0 == es[w].0);
            }
        },
        _ => {},
    }
}

proof fn lemma_run_keeps_link<VP, EP>(
    g: GraphView<VP, EP>,
    ops: Seq<GraphOp<VP, EP>>,
    from: u32,
    to: u32,
)
    requires
        has_edge_to(g.edges_from(from), to),
    ensures
        has_edge_to(run_graph(g, ops).edges_from(from), to),
    decreases ops.len(),
{
    if ops.len() > 0 {
        lemma_op_keeps_link(g, ops[0], from, to);
        lemma_run_keeps_link(apply_graph_op(g, ops[0]), ops.drop_first(), from, to);
    }
}

/// Calls on a graph only ever add links: an edge from `from` to `to` stays
/// through any run of calls.
pub proof fn law_graph_keeps_links<VP, EP>(
    g: GraphView<VP, EP>,
    ops: Seq<GraphOp<VP, EP>>,
    from: u32,
    to: u32,
)
    requires
        has_edge_to(g.edges_from(from), to),
    ensures
        has_edge_to(run_graph(g, ops).edges_from(from), to),
{
    lemma_run_keeps_link(g, ops, from, to);
}

/// One call that does not set the payload of the edge from `from` to `to`
/// keeps that (first) edge as it is.
proof fn lemma_op_keeps_first_edge<VP, EP>(
    g: GraphView<VP, EP>,
    op: GraphOp<VP, EP>,
    from: u32,
    to: u32,
)
    requires
        has_edge_to(g.edges_from(from), to),
        !(op matches GraphOp::SetEdgePayload(x, t, _) && x == from && t == to),
    ensures
        has_edge_to(apply_graph_op(g, op).edges_from(from), to),
        apply_graph_op(g, op).edges_from(from)[first_edge_to(
            apply_graph_op(g, op).edges_from(from),
            to,
        )] == g.edges_from(from)[first_edge_to(g.edges_from(from), to)],
{
    let es = g.edges_from(from);
    lemma_has_first(es, to);
    let i = first_edge_to(es, to);
    let es2 = apply_graph_op(g, op).edges_from(from);
    lemma_op_keeps_link(g, op, from, to);
    match op {
        GraphOp::AddEdge(x, t, e) => {
            if x == from {
                assert(es2 == es.push((t, e)));
                assert(is_first_edge_to(es2, to, i));
                lemma_first_edge_to_unique(es2, to, i);
            }
        },
        GraphOp::AddChild(parent, child, edge, vid) => {
            if g.vertices.contains_key(parent) && parent == from {
                assert(is_first_edge_to(es2, to, i));
                lemma_first_edge_to_unique(es2, to, i);
            }
        },
        GraphOp::SetEdgePayload(x, t, p) => {
            if x == from && has_edge_to(es, t) {
                assert(t != to);
                lemma_has_first(es, t);
                let j = first_edge_to(es, t);
                assert(es2 == es.update(j, (t, es[j].1.with_payload(p))));
                assert(i != j);
                assert(is_first_edge_to(es2, to, i));
                lemma_first_edge_to_unique(es2, to, i);
            }
        },
        _ => {},
    }
}

proof fn lemma_run_keeps_edge_payload<VP, EP>(
    g: GraphView<VP, EP>,
    ops: Seq<GraphOp<VP, EP>>,
    from: u32,
    to: u32,
)
    requires
        has_edge_to(g.edges_from(from), to),
        forall|i: int|
            0 <= i < ops.len() ==> !(#[trigger] ops[i] matches GraphOp::SetEdgePayload(x, t, _)
                && x == from && t == to),
    ensures
        run_graph(g, ops).edge_payload(from, to) == g.edge_payload(from, to),
    decreases ops.len(),
{
    if ops.len() > 0 {
        assert(!(ops[0] matches GraphOp::SetEdgePayload(x, t, _) && x == from && t == to));
        lemma_op_keeps_first_edge(g, ops[0], from, to);
        assert forall|i: int| 0 <= i < ops.drop_first().len() implies !(
        #[trigger] ops.drop_first()[i] matches GraphOp::SetEdgePayload(x, t, _) && x == from && t
            == to) by {
            assert(ops.drop_first()[i] == ops[i + 1]);
        }
        lemma_run_keeps_edge_payload(apply_graph_op(g, ops[0]), ops.drop_first(), from, to);
    }
}

/// A payload set on the edge from `from` to `to` reads back unchanged after
/// any calls that do not set that edge's payload again.
pub proof fn law_edge_payload_persists<VP, EP>(
    g: GraphView<VP, EP>,
    from: u32,
    to: u32,
    p: EP,
    ops: Seq<GraphOp<VP, EP>>,
)
    requires
        has_edge_to(g.edges_from(from), to),
        forall|i: int|
            0 <= i < ops.len() ==> !(#[trigger] ops[i] matches GraphOp::SetEdgePayload(x, t, _)
                && x == from && t == to),
    ensures
        g.set_edge_payload(from, to, p).1,
        run_graph(g.set_edge_payload(from, to, p).0, ops).edge_payload(from, to) == Some(p),
{
    law_set_edge_payload_then_read(g, from, to, p);
    let g1 = g.set_edge_payload(from, to, p).0;
    let es = g.edges_from(from);
    lemma_has_first(es, to);
    let i = first_edge_to(es, to);
    let es1 = g1.edges_from(from);
    assert(es1[i].0 == to);
    lemma_run_keeps_edge_payload(g1, ops, from, to);
}

/// The call writes the vertex stored under `vid`.
pub open spec fn writes_vertex<VP, EP>(op: GraphOp<VP, EP>, vid: u32) -> bool {
    match op {
        GraphOp::AddVertex(v, _) => v == vid,
        GraphOp::AddChild(_, _, _, v) => v == vid,
        GraphOp::SetVertexPayload(v, _) => v == vid,
        _ => false,
    }
}

proof fn lemma_run_keeps_vertex<VP, EP>(g: GraphView<VP, EP>, ops: Seq<GraphOp<VP, EP>>, vid: u32)
    requires
        g.vertices.contains_key(vid),
        forall|i: int| 0 <= i < ops.len() ==> !writes_vertex(#[trigger] ops[i], vid),
    ensures
        run_graph(g, ops).vertices.contains_key(vid),
        run_graph(g, ops).vertices[vid] == g.vertices[vid],
    decreases ops.len(),
{
    if ops.len() > 0 {
        assert(!writes_vertex(ops[0], vid));
        assert forall|i: int| 0 <= i < ops.drop_first().len() implies !writes_vertex(
            #[trigger] ops.drop_first()[i],
            vid,
        ) by {
            assert(ops.drop_first()[i] == ops[i + 1]);
        }
        lemma_run_keeps_vertex(apply_graph_op(g, ops[0]), ops.drop_first(), vid);
    }
}

/// A payload set on a vertex of the graph reads back unchanged after any
/// calls that do not write that vertex again.
pub proof fn law_vertex_payload_persists_in_graph<VP, EP>(
    g: GraphView<VP, EP>,
    vid: u32,
    p: VP,
    ops: Seq<GraphOp<VP, EP>>,
)
    requires
        g.vertices.contains_key(vid),
        forall|i: int| 0 <= i < ops.len() ==> !writes_vertex(#[trigger] ops[i], vid),
    ensures
        g.set_vertex_payload(vid, p).1,
        run_graph(g.set_vertex_payload(vid, p).0, ops).vertices[vid].payload == Some(p),
{
    lemma_run_keeps_vertex(g.set_vertex_payload(vid, p).0, ops, vid);
}

/// Reading a vertex back after adding it gives what was added; the other
/// vertices are untouched.
pub proof fn law_get_vertex_after_add_vertex<VP, EP>(
    g: GraphView<VP, EP>,
    vid: u32,
    v: VertexView<VP>,
    other: u32,
)
    requires
        other != vid,
    ensures
        g.add_vertex(vid, v).vertices.contains_key(vid),
        g.add_vertex(vid, v).vertices[vid] == v,
        g.add_vertex(vid, v).vertices.contains_key(other) == g.vertices.contains_key(other),
        g.add_vertex(vid, v).vertices[other] == g.vertices[other],
        g.add_vertex(vid, v).edges == g.edges,
{
}

/// Adding an edge appends it to the outgoing edges of its source, after the
/// ones already there; the other adjacency lists are untouched.
pub proof fn law_add_edge_appends<VP, EP>(
    g: GraphView<VP, EP>,
    from: u32,
    to: u32,
    e: Edge<EP>,
    other: u32,
)
    requires
        other != from,
    ensures
        g.add_edge(from, to, e).edges_from(from) == g.edges_from(from).push((to, e)),
        g.add_edge(from, to, e).edges_from(other) == g.edges_from(other),
        g.add_edge(from, to, e).vertices == g.vertices,
{
}

/// A child attached under a vertex gets the requested id and is stored as
/// given (label, payload and cache) but with the parent's step added to its
/// own; it is linked from the parent by a new last edge of the parent's list,
/// and no other adjacency list changes (so a child attached under a fresh id
/// has no outgoing edge), nor any other vertex. Under an id that is not a
/// vertex nothing is attached.
pub proof fn law_add_child_links_parent<VP, EP>(
    g: GraphView<VP, EP>,
    parent: u32,
    child: VertexView<VP>,
    edge: Option<Edge<EP>>,
    vid: u32,
)
    ensures
        g.vertices.contains_key(parent) ==> {
            let (g2, r) = g.add_child(parent, child, edge, vid);
            &&& r == Some(vid)
            &&& g2.vertices.contains_key(vid)
            &&& (isize::MIN <= child.step + g.vertices[parent].step <= isize::MAX
                ==> g2.vertices[vid].step == child.step + g.vertices[parent].step)
            &&& g2.vertices[vid].label == child.label
            &&& g2.vertices[vid].payload == child.payload
            &&& g2.vertices[vid].cache == child.cache
            &&& forall|v: u32|
                v != vid ==> (#[trigger] g2.vertices.contains_key(v) == g.vertices.contains_key(v)
                    && (g.vertices.contains_key(v) ==> g2.vertices[v] == g.vertices[v]))
            &&& forall|x: u32| x != parent ==> #[trigger] g2.edges_from(x) == g.edges_from(x)
            &&& g2.edges_from(parent).drop_last() == g.edges_from(parent)
            &&& g2.edges_from(parent).len() == g.edges_from(parent).len() + 1
            &&& g2.edges_from(parent).last().0 == vid
            &&& g2.edges_from(parent).last().1 == match edge {
                Some(e) => e,
                None => Edge::Unidirectional(None),
            }
        },
        !g.vertices.contains_key(parent) ==> g.add_child(parent, child, edge, vid) == (g, None::<
            u32,
        >),
{
}

/// A child attached under the root is listed last among the root's
/// children.
pub proof fn law_add_child_under_root_is_last_child<VP, EP>(
    g: GraphView<VP, EP>,
    child: VertexView<VP>,
    edge: Option<Edge<EP>>,
    vid: u32,
)
    requires
        g.wf(),
    ensures
        ({
            let g2 = g.add_child(g.root, child, edge, vid).0;
            &&& g2.children() is Some
            &&& g2.children().unwrap().len() >= 1
            &&& g2.children().unwrap().last() == g2.vertices[vid]
            &&& g2.vertices[vid].label == child.label
        }),
{
    let g2 = g.add_child(g.root, child, edge, vid).0;
    let es = g2.edges[g.root];
    assert(es.drop_last() =~= g.edges_from(g.root));
    assert(targets_in(es, g2.vertices) == targets_in(es.drop_last(), g2.vertices).push(
        g2.vertices[vid],
    ));
}

/// After a vertex gets a payload, reading the vertex gives that payload and
/// the rest of the vertex as before; a vertex that is not there gets nothing
/// and the call reports it.
pub proof fn law_set_vertex_payload_then_read<VP, EP>(g: GraphView<VP, EP>, vid: u32, p: VP)
    ensures
        g.vertices.contains_key(vid) ==> {
            let (g2, ok) = g.set_vertex_payload(vid, p);
            &&& ok
            &&& g2.vertices.contains_key(vid)
            &&& g2.vertices[vid].payload == Some(p)
            &&& g2.vertices[vid].label == g.vertices[vid].label
            &&& g2.vertices[vid].step == g.vertices[vid].step
            &&& g2.vertices[vid].cache == g.vertices[vid].cache
        },
        !g.vertices.contains_key(vid) ==> g.set_vertex_payload(vid, p) == (g, false),
{
}

/// After the edge from `from` to `to` gets a payload, reading the payload of
/// that edge gives it back, and the edge keeps its direction; without such an
/// edge the call reports it and changes nothing.
pub proof fn law_set_edge_payload_then_read<VP, EP>(
    g: GraphView<VP, EP>,
    from: u32,
    to: u32,
    p: EP,
)
    ensures
        has_edge_to(g.edges_from(from), to) ==> {
            let (g2, ok) = g.set_edge_payload(from, to, p);
            &&& ok
            &&& g2.edge_payload(from, to) == Some(p)
            &&& g2.edges_from(from).len() == g.edges_from(from).len()
        },
        !has_edge_to(g.edges_from(from), to) ==> g.set_edge_payload(from, to, p) == (g, false),
{
    if has_edge_to(g.edges_from(from), to) {
        let es = g.edges_from(from);
        let i = first_edge_to(es, to);
        lemma_has_first(es, to);
        let g2 = g.set_edge_payload(from, to, p).0;
        let es2 = es.update(i, (to, es[i].1.with_payload(p)));
        assert(g2.edges_from(from) == es2);
        assert(is_first_edge_to(es2, to, i));
        lemma_first_edge_to_unique(es2, to, i);
    }
}

// ---------------------------------------------------------------------------
// Cursors

/// A call on a cursor that changes it; a move names the graph it is made in.
pub enum CursorOp<VP, EP> {
    MoveTo(GraphView<VP, EP>, u32),
    Back,
    SetCacheItem(u32, Vec<u8>),
    RemoveCacheItem(u32),
    ClearCache,
    /// A write through the reference `get_cache_item_mut` hands out.
    WriteCacheItem(u32, Vec<u8>),
    /// Writes through the reference `get_cache_mut` hands out.
    ReplaceCache(Map<u32, Vec<u8>>),
}

impl<VP, EP> CursorOp<VP, EP> {
    /// The call may give the cache an entry under `key`.
    pub open spec fn adds(self, key: u32) -> bool {
        match self {
            CursorOp::SetCacheItem(k, _) => k == key,
            CursorOp::ReplaceCache(_) => true,
            _ => false,
        }
    }

    /// The call may change the cache entry under `key`.
    pub open spec fn touches(self, key: u32) -> bool {
        match self {
            CursorOp::SetCacheItem(k, _) => k == key,
            CursorOp::RemoveCacheItem(k) => k == key,
            CursorOp::ClearCache => true,
            CursorOp::WriteCacheItem(k, _) => k == key,
            CursorOp::ReplaceCache(_) => true,
            _ => false,
        }
    }
}

pub open spec fn apply_cursor_op<VP, EP>(c: CursorView, op: CursorOp<VP, EP>) -> CursorView {
    match op {
        CursorOp::MoveTo(g, vid) => c.move_to(g, vid).0,
        CursorOp::Back => c.back().0,
        CursorOp::SetCacheItem(k, x) => c.set_cache_item(k, x),
        CursorOp::RemoveCacheItem(k) => c.remove_cache_item(k),
        CursorOp::ClearCache => c.clear_cache(),
        CursorOp::WriteCacheItem(k, x) => if c.cache.contains_key(k) {
            c.set_cache_item(k, x)
        } else {
            c
        },
        CursorOp::ReplaceCache(m) => c.replace_cache(m),
    }
}

/// The cursor after the calls `ops`, in order.
pub open spec fn run_cursor<VP, EP>(c: CursorView, ops: Seq<CursorOp<VP, EP>>) -> CursorView
    decreases ops.len(),
{
    if ops.len() == 0 {
        c
    } else {
        run_cursor(apply_cursor_op(c, ops[0]), ops.drop_first())
    }
}

/// Every cursor's path is non-empty and ends at its current vertex.
pub proof fn law_every_cursor_is_wf(c: Cursor)
    ensures
        c@.wf(),
{
    c.lemma_wf();
}

proof fn lemma_run_keeps_path<VP, EP>(c: CursorView, ops: Seq<CursorOp<VP, EP>>)
    requires
        c.wf(),
    ensures
        run_cursor(c, ops).wf(),
        run_cursor(c, ops).path[0] == c.path[0],
    decreases ops.len(),
{
    if ops.len() > 0 {
        lemma_run_keeps_path(apply_cursor_op(c, ops[0]), ops.drop_first());
    }
}

/// A fresh cursor stands on the root with the root as its path; through any
/// calls, the path stays non-empty, ends at the current vertex, and starts
/// where the cursor started.
pub proof fn law_cursor_keeps_path<VP, EP>(
    c: Cursor,
    g: GraphView<VP, EP>,
    ops: Seq<CursorOp<VP, EP>>,
)
    ensures
        CursorView::start(g).wf(),
        CursorView::start(g).path[0] == g.root,
        CursorView::start(g).current == g.root,
        run_cursor(c@, ops).wf(),
        run_cursor(c@, ops).path[0] == c@.path[0],
{
    c.lemma_wf();
    lemma_run_keeps_path(c@, ops);
}

/// Moves and steps back leave the cache alone.
pub proof fn law_moves_keep_cache<VP, EP>(c: CursorView, g: GraphView<VP, EP>, vid: u32)
    ensures
        c.move_to(g, vid).0.cache == c.cache,
        c.back().0.cache == c.cache,
{
}

/// A cache entry set on a cursor reads back unchanged after any calls that
/// do not touch its key.
pub proof fn law_cursor_cache_item_persists<VP, EP>(
    c: CursorView,
    key: u32,
    value: Vec<u8>,
    ops: Seq<CursorOp<VP, EP>>,
)
    requires
        forall|i: int| 0 <= i < ops.len() ==> !(#[trigger] ops[i]).touches(key),
    ensures
        run_cursor(c.set_cache_item(key, value), ops).cache.contains_key(key),
        run_cursor(c.set_cache_item(key, value), ops).cache[key] == value,
    decreases ops.len(),
{
    if ops.len() > 0 {
        assert(!ops[0].touches(key));
        let c1 = apply_cursor_op(c.set_cache_item(key, value), ops[0]);
        assert(c1.cache =~= c1.set_cache_item(key, value).cache);
        assert(c1 == c1.set_cache_item(key, value));
        assert forall|i: int| 0 <= i < ops.drop_first().len() implies !(
        #[trigger] ops.drop_first()[i]).touches(key) by {
            assert(ops.drop_first()[i] == ops[i + 1]);
        }
        law_cursor_cache_item_persists(c1, key, value, ops.drop_first());
    }
}

/// A key absent from a cursor's cache (at creation, or just removed, or
/// cleared) stays absent through any calls that do not give it an entry.
pub proof fn law_cursor_cache_item_absent_persists<VP, EP>(
    c: CursorView,
    key: u32,
    ops: Seq<CursorOp<VP, EP>>,
)
    requires
        !c.cache.contains_key(key),
        forall|i: int|
            0 <= i < ops.len() ==> !(#[trigger] ops[i]).adds(key),
    ensures
        !run_cursor(c, ops).cache.contains_key(key),
    decreases ops.len(),
{
    if ops.len() > 0 {
        assert(!ops[0].adds(key));
        assert forall|i: int| 0 <= i < ops.drop_first().len() implies !(
        #[trigger] ops.drop_first()[i]).adds(key) by {
            assert(ops.drop_first()[i] == ops[i + 1]);
        }
        law_cursor_cache_item_absent_persists(apply_cursor_op(c, ops[0]), key, ops.drop_first());
    }
}

/// A cursor standing on `from` can move to `to` once an edge from `from` to
/// `to` has been added.
pub proof fn law_add_edge_opens_move<VP, EP>(
    c: CursorView,
    g: GraphView<VP, EP>,
    to: u32,
    e: Edge<EP>,
)
    ensures
        c.move_to(g.add_edge(c.current, to, e), to).1 == Some(to),
        c.move_to(g.add_edge(c.current, to, e), to).0.current == to,
{
    let es = g.add_edge(c.current, to, e).edges_from(c.current);
    assert(es[es.len() - 1].0 == to);
}

/// A child attached under the vertex a cursor stands on is a direct
/// neighbour of it.
pub proof fn law_add_child_opens_move<VP, EP>(
    c: CursorView,
    g: GraphView<VP, EP>,
    child: VertexView<VP>,
    edge: Option<Edge<EP>>,
    vid: u32,
)
    requires
        g.vertices.contains_key(c.current),
    ensures
        c.can_move_to(g.add_child(c.current, child, edge, vid).0, vid),
{
    let g2 = g.add_child(c.current, child, edge, vid).0;
    let es = g2.edges_from(c.current);
    assert(es[es.len() - 1].0 == vid);
}

/// For every cursor, stepping back right after a successful move returns the
/// cursor to where it was, and reports that vertex.
pub proof fn law_back_undoes_move_to<VP, EP>(c: Cursor, g: GraphView<VP, EP>, vid: u32)
    requires
        c@.can_move_to(g, vid),
    ensures
        c@.move_to(g, vid).1 == Some(vid),
        c@.move_to(g, vid).0.back() == (c@, Some(c@.current)),
{
    c.lemma_wf();
    let c2 = c@.move_to(g, vid).0;
    assert(c2.path.drop_last() =~= c@.path);
}

/// A move that is not along an edge of the current vertex is refused and
/// changes nothing.
pub proof fn law_move_to_refused<VP, EP>(c: CursorView, g: GraphView<VP, EP>, vid: u32)
    requires
        !c.can_move_to(g, vid),
    ensures
        c.move_to(g, vid) == (c, None::<u32>),
{
}

/// At the start of its path a cursor cannot step back, and stays put.
pub proof fn law_back_at_start_is_refused(c: CursorView)
    requires
        c.path.len() == 1,
    ensures
        c.back() == (c, None::<u32>),
{
}

/// A fresh cursor's path is linked in its graph; moves in a graph and steps
/// back keep the path linked in it: each id of the path is followed by one
/// that an edge leads to from it.
pub proof fn law_path_linked<VP, EP>(c: Cursor, g: GraphView<VP, EP>, vid: u32)
    requires
        c@.linked_in(g),
    ensures
        CursorView::start(g).linked_in(g),
        c@.move_to(g, vid).0.linked_in(g),
        c@.back().0.linked_in(g),
{
    c.lemma_wf();
    lemma_path_linked_view(c@, g, vid);
}

proof fn lemma_path_linked_view<VP, EP>(c: CursorView, g: GraphView<VP, EP>, vid: u32)
    requires
        c.wf(),
        c.linked_in(g),
    ensures
        CursorView::start(g).linked_in(g),
        c.move_to(g, vid).0.linked_in(g),
        c.back().0.linked_in(g),
{
    let c2 = c.move_to(g, vid).0;
    if c.can_move_to(g, vid) {
        assert forall|i: int| 0 <= i < c2.path.len() - 1 implies has_edge_to(
            #[trigger] g.edges_from(c2.path[i]),
            c2.path[i + 1],
        ) by {
            if i < c.path.len() - 1 {
                assert(c2.path[i] == c.path[i] && c2.path[i + 1] == c.path[i + 1]);
                assert(has_edge_to(g.edges_from(c.path[i]), c.path[i + 1]));
            } else {
                assert(c2.path[i] == c.current);
            }
        }
    }
    let c3 = c.back().0;
    assert forall|i: int| 0 <= i < c3.path.len() - 1 implies has_edge_to(
        #[trigger] g.edges_from(c3.path[i]),
        c3.path[i + 1],
    ) by {
        assert(c3.path[i] == c.path[i] && c3.path[i + 1] == c.path[i + 1]);
        assert(has_edge_to(g.edges_from(c.path[i]), c.path[i + 1]));
    }
}

/// A path linked in a graph stays linked through any run of calls on the
/// graph: calls only ever add links.
pub proof fn law_path_stays_linked<VP, EP>(
    c: CursorView,
    g: GraphView<VP, EP>,
    ops: Seq<GraphOp<VP, EP>>,
)
    requires
        c.linked_in(g),
    ensures
        c.linked_in(run_graph(g, ops)),
{
    let g2 = run_graph(g, ops);
    assert forall|i: int| 0 <= i < c.path.len() - 1 implies has_edge_to(
        #[trigger] g2.edges_from(c.path[i]),
        c.path[i + 1],
    ) by {
        assert(has_edge_to(g.edges_from(c.path[i]), c.path[i + 1]));
        lemma_run_keeps_link(g, ops, c.path[i], c.path[i + 1]);
    }
}


/// One call on a graph keeps a path linked in it.
proof fn lemma_path_stays_linked_op<VP, EP>(c: CursorView, g: GraphView<VP, EP>, op: GraphOp<VP, EP>)
    requires
        c.linked_in(g),
    ensures
        c.linked_in(apply_graph_op(g, op)),
{
    let g2 = apply_graph_op(g, op);
    assert forall|i: int| 0 <= i < c.path.len() - 1 implies has_edge_to(
        #[trigger] g2.edges_from(c.path[i]),
        c.path[i + 1],
    ) by {
        assert(has_edge_to(g.edges_from(c.path[i]), c.path[i + 1]));
        lemma_op_keeps_link(g, op, c.path[i], c.path[i + 1]);
    }
}

// ---------------------------------------------------------------------------
// Edges kept in place

/// One call keeps the edge at position `i` of the list of `x`: the list
/// only grows, and that edge keeps its target and its direction.
proof fn lemma_op_keeps_edge<VP, EP>(g: GraphView<VP, EP>, op: GraphOp<VP, EP>, x: u32, i: int)
    requires
        0 <= i < g.edges_from(x).len(),
    ensures
        apply_graph_op(g, op).edges_from(x).len() >= g.edges_from(x).len(),
        apply_graph_op(g, op).edges_from(x)[i].0 == g.edges_from(x)[i].0,
        apply_graph_op(g, op).edges_from(x)[i].1.bidirectional() == g.edges_from(
            x,
        )[i].1.bidirectional(),
{
    let es = g.edges_from(x);
    let es2 = apply_graph_op(g, op).edges_from(x);
    match op {
        GraphOp::AddEdge(y, t, e) => {
            if y == x {
                assert(es2 == es.push((t, e)));
            }
        },
        GraphOp::AddChild(parent, child, edge, vid) => {
            if g.vertices.contains_key(parent) && parent == x {
                assert(es2[i] == es[i]);
            }
        },
        GraphOp::SetEdgePayload(y, t, p) => {
            if y == x && has_edge_to(es, t) {
                lemma_has_first(es, t);
                let j = first_edge_to(es, t);
                assert(es2 == es.update(j, (t, es[j].1.with_payload(p))));
            }
        },
        _ => {},
    }
}

proof fn lemma_run_keeps_edge<VP, EP>(g: GraphView<VP, EP>, ops: Seq<GraphOp<VP, EP>>, x: u32, i: int)
    requires
        0 <= i < g.edges_from(x).len(),
    ensures
        run_graph(g, ops).edges_from(x).len() >= g.edges_from(x).len(),
        run_graph(g, ops).edges_from(x)[i].0 == g.edges_from(x)[i].0,
        run_graph(g, ops).edges_from(x)[i].1.bidirectional() == g.edges_from(
            x,
        )[i].1.bidirectional(),
    decreases ops.len(),
{
    if ops.len() > 0 {
        lemma_op_keeps_edge(g, ops[0], x, i);
        lemma_run_keeps_edge(apply_graph_op(g, ops[0]), ops.drop_first(), x, i);
    }
}

/// Edges stay where they were put: through any run of calls, the `i`-th
/// edge out of `x` keeps its position, its target and its direction, and the
/// list only grows.
pub proof fn law_edges_stay_in_place<VP, EP>(
    g: GraphView<VP, EP>,
    ops: Seq<GraphOp<VP, EP>>,
    x: u32,
    i: int,
)
    requires
        0 <= i < g.edges_from(x).len(),
    ensures
        run_graph(g, ops).edges_from(x).len() >= g.edges_from(x).len(),
        run_graph(g, ops).edges_from(x)[i].0 == g.edges_from(x)[i].0,
        run_graph(g, ops).edges_from(x)[i].1.bidirectional() == g.edges_from(
            x,
        )[i].1.bidirectional(),
{
    lemma_run_keeps_edge(g, ops, x, i);
}

/// The first edge from `from` to `to`, added without a payload, reads as
/// having none through any run of calls that does not set its payload.
pub proof fn law_new_edge_has_no_payload<VP, EP>(
    g: GraphView<VP, EP>,
    from: u32,
    to: u32,
    e: Edge<EP>,
    ops: Seq<GraphOp<VP, EP>>,
)
    requires
        !has_edge_to(g.edges_from(from), to),
        e.payload() is None,
        forall|i: int|
            0 <= i < ops.len() ==> !(#[trigger] ops[i] matches GraphOp::SetEdgePayload(x, t, _)
                && x == from && t == to),
    ensures
        run_graph(g.add_edge(from, to, e), ops).edge_payload(from, to) is None,
{
    let es = g.edges_from(from);
    let g1 = g.add_edge(from, to, e);
    let es1 = g1.edges_from(from);
    assert(es1 == es.push((to, e)));
    assert(es1[es.len() as int].0 == to);
    assert(is_first_edge_to(es1, to, es.len() as int));
    lemma_first_edge_to_unique(es1, to, es.len() as int);
    lemma_run_keeps_edge_payload(g1, ops, from, to);
}

/// The edge that attaches a new child, when it carries no payload (as the
/// default one), reads as having none through any run of calls that does not
/// set its payload.
pub proof fn law_new_child_edge_has_no_payload<VP, EP>(
    g: GraphView<VP, EP>,
    parent: u32,
    child: VertexView<VP>,
    edge: Option<Edge<EP>>,
    vid: u32,
    ops: Seq<GraphOp<VP, EP>>,
)
    requires
        g.vertices.contains_key(parent),
        !has_edge_to(g.edges_from(parent), vid),
        edge matches Some(e) ==> e.payload() is None,
        forall|i: int|
            0 <= i < ops.len() ==> !(#[trigger] ops[i] matches GraphOp::SetEdgePayload(x, t, _)
                && x == parent && t == vid),
    ensures
        run_graph(g.add_child(parent, child, edge, vid).0, ops).edge_payload(parent, vid) is None,
{
    let c = VertexView { step: (child.step + g.vertices[parent].step) as isize, ..child };
    let e = match edge {
        Some(e) => e,
        None => Edge::Unidirectional(None),
    };
    let g0 = g.add_vertex(vid, c);
    assert(g0.edges_from(parent) == g.edges_from(parent));
    law_new_edge_has_no_payload(g0, parent, vid, e, ops);
}

// ---------------------------------------------------------------------------
// The path as a history

/// The ids that the moves in `ops` push on the path, less those that later
/// steps back take off again, added to `stack`; `c` is the cursor the calls
/// are made on, which decides which moves succeed.
pub open spec fn moves_not_undone<VP, EP>(
    c: CursorView,
    stack: Seq<u32>,
    ops: Seq<CursorOp<VP, EP>>,
) -> Seq<u32>
    decreases ops.len(),
{
    if ops.len() == 0 {
        stack
    } else {
        let stack2 = match ops[0] {
            CursorOp::MoveTo(g, vid) => if c.can_move_to(g, vid) {
                stack.push(vid)
            } else {
                stack
            },
            CursorOp::Back => if stack.len() > 0 {
                stack.drop_last()
            } else {
                stack
            },
            _ => stack,
        };
        moves_not_undone(apply_cursor_op(c, ops[0]), stack2, ops.drop_first())
    }
}

proof fn lemma_path_is_moves<VP, EP>(
    c: CursorView,
    x: u32,
    stack: Seq<u32>,
    ops: Seq<CursorOp<VP, EP>>,
)
    requires
        c.path == seq![x] + stack,
    ensures
        run_cursor(c, ops).path == seq![x] + moves_not_undone(c, stack, ops),
    decreases ops.len(),
{
    if ops.len() > 0 {
        let c1 = apply_cursor_op(c, ops[0]);
        let stack2 = match ops[0] {
            CursorOp::MoveTo(g, vid) => if c.can_move_to(g, vid) {
                stack.push(vid)
            } else {
                stack
            },
            CursorOp::Back => if stack.len() > 0 {
                stack.drop_last()
            } else {
                stack
            },
            _ => stack,
        };
        assert(c1.path =~= seq![x] + stack2);
        lemma_path_is_moves(c1, x, stack2, ops.drop_first());
    }
}

/// The path of a fresh cursor, after any run of calls on it, is the root
/// followed, in order, by the targets of the successful moves that no later
/// step back has undone.
pub proof fn law_path_is_moves_not_undone<VP, EP>(g: GraphView<VP, EP>, ops: Seq<CursorOp<VP, EP>>)
    ensures
        run_cursor(CursorView::start(g), ops).path == seq![g.root] + moves_not_undone(
            CursorView::start(g),
            Seq::empty(),
            ops,
        ),
{
    assert(CursorView::start(g).path =~= seq![g.root] + Seq::<u32>::empty());
    lemma_path_is_moves(CursorView::start(g), g.root, Seq::empty(), ops);
}

// ---------------------------------------------------------------------------
// A cursor and its graph, changed in turn

/// A call on a graph, or on a cursor that walks it.
pub enum WalkOp<VP, EP> {
    OnGraph(GraphOp<VP, EP>),
    MoveTo(u32),
    Back,
    SetCacheItem(u32, Vec<u8>),
    RemoveCacheItem(u32),
    ClearCache,
    WriteCacheItem(u32, Vec<u8>),
    ReplaceCache(Map<u32, Vec<u8>>),
}

pub open spec fn apply_walk_op<VP, EP>(
    g: GraphView<VP, EP>,
    c: CursorView,
    op: WalkOp<VP, EP>,
) -> (GraphView<VP, EP>, CursorView) {
    match op {
        WalkOp::OnGraph(o) => (apply_graph_op(g, o), c),
        WalkOp::MoveTo(vid) => (g, c.move_to(g, vid).0),
        WalkOp::Back => (g, c.back().0),
        WalkOp::SetCacheItem(k, x) => (g, c.set_cache_item(k, x)),
        WalkOp::RemoveCacheItem(k) => (g, c.remove_cache_item(k)),
        WalkOp::ClearCache => (g, c.clear_cache()),
        WalkOp::WriteCacheItem(k, x) => (g, if c.cache.contains_key(k) {
            c.set_cache_item(k, x)
        } else {
            c
        }),
        WalkOp::ReplaceCache(m) => (g, c.replace_cache(m)),
    }
}

/// The graph and the cursor after the calls `ops`, in order; each move is
/// made in the graph as it stands at that point.
pub open spec fn run_walk<VP, EP>(
    g: GraphView<VP, EP>,
    c: CursorView,
    ops: Seq<WalkOp<VP, EP>>,
) -> (GraphView<VP, EP>, CursorView)
    decreases ops.len(),
{
    if ops.len() == 0 {
        (g, c)
    } else {
        let (g1, c1) = apply_walk_op(g, c, ops[0]);
        run_walk(g1, c1, ops.drop_first())
    }
}

proof fn lemma_walk<VP, EP>(g: GraphView<VP, EP>, c: CursorView, ops: Seq<WalkOp<VP, EP>>)
    requires
        g.wf(),
        c.wf(),
        c.path[0] == g.root,
        c.linked_in(g),
    ensures
        ({
            let (g2, c2) = run_walk(g, c, ops);
            &&& g2.wf()
            &&& g2.root == g.root
            &&& c2.wf()
            &&& c2.path[0] == g.root
            &&& c2.linked_in(g2)
        }),
    decreases ops.len(),
{
    if ops.len() > 0 {
        let (g1, c1) = apply_walk_op(g, c, ops[0]);
        match ops[0] {
            WalkOp::OnGraph(o) => {
                lemma_op_keeps_root(g, o);
                lemma_path_stays_linked_op(c, g, o);
            },
            WalkOp::MoveTo(vid) => {
                lemma_path_linked_view(c, g, vid);
            },
            WalkOp::Back => {
                lemma_path_linked_view(c, g, 0);
            },
            _ => {},
        }
        lemma_walk(g1, c1, ops.drop_first());
    }
}

/// A cursor made on a graph, then any mix of calls on the graph and on the
/// cursor: the graph keeps its root, and the cursor's path starts at that
/// root, ends at the cursor's current vertex, and each of its ids is
/// followed by one that an edge of the graph, as it now stands, leads to.
pub proof fn law_walk_keeps_path<VP, EP>(g: Graph<Vertex<VP>, Edge<EP>>, ops: Seq<WalkOp<VP, EP>>)
    ensures
        ({
            let (g2, c2) = run_walk(g@, CursorView::start(g@), ops);
            &&& g2.wf()
            &&& g2.root == g@.root
            &&& c2.wf()
            &&& c2.path[0] == g2.root
            &&& c2.path.last() == c2.current
            &&& c2.linked_in(g2)
        }),
{
    g.lemma_holds_root();
    lemma_path_linked_view(CursorView::start(g@), g@, 0);
    lemma_walk(g@, CursorView::start(g@), ops);
}


/// A child attached under a fresh id has no outgoing edge, and no edge of
/// the graph it joins leads out of it, unless it was attached under itself.
pub proof fn law_fresh_child_has_no_edges<VP, EP>(
    g: GraphView<VP, EP>,
    parent: u32,
    child: VertexView<VP>,
    edge: Option<Edge<EP>>,
    vid: u32,
)
    requires
        g.vertices.contains_key(parent),
        !g.edges.contains_key(vid),
        vid != parent,
    ensures
        g.add_child(parent, child, edge, vid).0.edges_from(vid).len() == 0,
        !g.add_child(parent, child, edge, vid).0.edges.contains_key(vid),
{
}

} // verus!
