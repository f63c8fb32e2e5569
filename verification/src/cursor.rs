//! A cursor walks a graph along its edges, one step at a time, and keeps the
//! way it came so that it can step back. It also carries a byte cache of its
//! own. The cursor does not own the graph: each operation that looks at the
//! graph is handed it, so that the graph stays free to change between steps.

use crate::graph::{
    cache_get_mut, edge_cloned, find_edge_to, has_edge_to, vertex_cloned, Edge, Graph, GraphView,
    Vertex,
};
use std::collections::HashMap;
use vstd::prelude::*;

verus! {

/// Abstract value of a [`Cursor`]: the vertex it points at, the ids it has
/// visited from its start (the start first, the current vertex last), and
/// its cache.
pub struct CursorView {
    pub current: u32,
    pub path: Seq<u32>,
    pub cache: Map<u32, Vec<u8>>,
}

impl CursorView {
    /// The path is never empty and ends at the current vertex.
    pub open spec fn wf(self) -> bool {
        &&& self.path.len() >= 1
        &&& self.path.last() == self.current
    }

    /// Each id of the path is followed by one that an edge of `g` leads to
    /// from it.
    pub open spec fn linked_in<VP, EP>(self, g: GraphView<VP, EP>) -> bool {
        forall|i: int|
            0 <= i < self.path.len() - 1 ==> has_edge_to(
                #[trigger] g.edges_from(self.path[i]),
                self.path[i + 1],
            )
    }

    /// A fresh cursor on `g`: at the root, with the root as its whole path and
    /// an empty cache.
    pub open spec fn start<VP, EP>(g: GraphView<VP, EP>) -> Self {
        CursorView { current: g.root, path: seq![g.root], cache: Map::empty() }
    }

    pub open spec fn set_cache_item(self, key: u32, value: Vec<u8>) -> Self {
        CursorView { cache: self.cache.insert(key, value), ..self }
    }

    pub open spec fn remove_cache_item(self, key: u32) -> Self {
        CursorView { cache: self.cache.remove(key), ..self }
    }

    pub open spec fn clear_cache(self) -> Self {
        CursorView { cache: Map::empty(), ..self }
    }

    /// The cursor with its whole cache replaced by `cache`.
    pub open spec fn replace_cache(self, cache: Map<u32, Vec<u8>>) -> Self {
        CursorView { cache, ..self }
    }

    /// `vid` is a direct neighbour of the current vertex in `g`: some edge
    /// out of it leads to `vid`.
    pub open spec fn can_move_to<VP, EP>(self, g: GraphView<VP, EP>, vid: u32) -> bool {
        has_edge_to(g.edges_from(self.current), vid)
    }

    /// Moving to `vid` in `g`: allowed only along an edge of the current
    /// vertex, in which case `vid` becomes current and is appended to the
    /// path; otherwise nothing changes and the result is `None`.
    pub open spec fn move_to<VP, EP>(self, g: GraphView<VP, EP>, vid: u32) -> (Self, Option<u32>) {
        if self.can_move_to(g, vid) {
            (CursorView { current: vid, path: self.path.push(vid), ..self }, Some(vid))
        } else {
            (self, None)
        }
    }

    /// Stepping back: when the path holds more than the start, its last id
    /// is dropped and the one before becomes current (and is the result);
    /// otherwise nothing changes and the result is `None`.
    pub open spec fn back(self) -> (Self, Option<u32>) {
        if self.path.len() > 1 {
            let p = self.path.drop_last();
            (CursorView { current: p.last(), path: p, ..self }, Some(p.last()))
        } else {
            (self, None)
        }
    }
}

/// A walk over a graph.
///
/// The path is kept as its first id and the ids visited after it, so that no
/// cursor can have an empty path: the current vertex is the last id of the
/// path.
#[derive(Debug)]
pub struct Cursor {
    start: u32,
    steps: Vec<u32>,
    cache: HashMap<u32, Vec<u8>>,
}

impl View for Cursor {
    type V = CursorView;

    closed spec fn view(&self) -> CursorView {
        CursorView {
            current: if self.steps@.len() == 0 {
                self.start
            } else {
                self.steps@.last()
            },
            path: seq![self.start] + self.steps@,
            cache: self.cache@,
        }
    }
}

impl Cursor {
    /// Every cursor's path is non-empty and ends at its current vertex.
    pub proof fn lemma_wf(&self)
        ensures
            self@.wf(),
    {
    }

    /// A cursor at the root of `graph`.
    pub fn new<VP, EP>(graph: &Graph<Vertex<VP>, Edge<EP>>) -> (c: Self)
        ensures
            c@ == CursorView::start(graph@),
            c@.wf(),
    {
        let root = graph.root_vid();
        let c = Cursor { start: root, steps: Vec::new(), cache: HashMap::new() };
        assert(c@.path =~= seq![root]);
        c
    }

    /// The id of the root of `graph`.
    pub fn get_root<VP, EP>(&self, graph: &Graph<Vertex<VP>, Edge<EP>>) -> (r: u32)
        ensures
            r == graph@.root,
    {
        graph.root_vid()
    }

    pub fn get_current_node(&self) -> (r: u32)
        ensures
            r == self@.current,
    {
        if self.steps.len() == 0 {
            self.start
        } else {
            self.steps[self.steps.len() - 1]
        }
    }

    /// A clone of the vertex the cursor points at, if `graph` has it.
    pub fn get_node<VP: Clone, EP>(&self, graph: &Graph<Vertex<VP>, Edge<EP>>) -> (r: Option<
        Vertex<VP>,
    >)
        ensures
            match r {
                Some(v) => graph@.vertices.contains_key(self@.current) && vertex_cloned(
                    graph@.vertices[self@.current],
                    v@,
                ),
                None => !graph@.vertices.contains_key(self@.current),
            },
    {
        match graph.get_vertex(self.get_current_node()) {
            Some(v) => Some(v.clone()),
            None => None,
        }
    }

    /// A clone of the outgoing edges of the vertex the cursor points at, if it
    /// has an adjacency list in `graph`.
    pub fn get_edges<VP, EP: Clone>(&self, graph: &Graph<Vertex<VP>, Edge<EP>>) -> (r: Option<
        Vec<(u32, Edge<EP>)>,
    >)
        ensures
            match r {
                Some(l) => {
                    let es = graph@.edges[self@.current];
                    &&& graph@.edges.contains_key(self@.current)
                    &&& l.len() == es.len()
                    &&& forall|i: int|
                        0 <= i < es.len() ==> (#[trigger] l@[i]).0 == es[i].0 && edge_cloned(
                            es[i].1,
                            l@[i].1,
                        )
                },
                None => !graph@.edges.contains_key(self@.current),
            },
    {
        match graph.get_edges(self.get_current_node()) {
            Some(edges) => {
                let mut out: Vec<(u32, Edge<EP>)> = Vec::new();
                let mut i: usize = 0;
                while i < edges.len()
                    invariant
                        i <= edges.len(),
                        out.len() == i,
                        forall|k: int|
                            0 <= k < i ==> (#[trigger] out@[k]).0 == edges@[k].0 && edge_cloned(
                                edges@[k].1,
                                out@[k].1,
                            ),
                    decreases edges.len() - i,
                {
                    out.push((edges[i].0, edges[i].1.clone()));
                    i = i + 1;
                }
                Some(out)
            },
            None => None,
        }
    }

    /// The ids visited so far, the start first.
    pub fn get_path(&self) -> (p: Vec<u32>)
        ensures
            p@ == self@.path,
    {
        let mut p: Vec<u32> = Vec::new();
        p.push(self.start);
        let mut i: usize = 0;
        while i < self.steps.len()
            invariant
                i <= self.steps.len(),
                p@ =~= seq![self.start] + self.steps@.take(i as int),
            decreases self.steps.len() - i,
        {
            p.push(self.steps[i]);
            i = i + 1;
            assert(seq![self.start] + self.steps@.take(i as int) =~= (seq![self.start]
                + self.steps@.take(i - 1)).push(self.steps@[i - 1]));
        }
        assert(self.steps@.take(self.steps.len() as int) =~= self.steps@);
        p
    }

    /// Moves to `vid` when it is a direct neighbour of the current vertex in
    /// `graph`; see [`CursorView::move_to`].
    pub fn move_to<VP, EP>(&mut self, graph: &Graph<Vertex<VP>, Edge<EP>>, vid: u32) -> (r: Option<
        u32,
    >)
        ensures
            (final(self)@, r) == old(self)@.move_to(graph@, vid),
    {
        let reachable = match graph.get_edges(self.get_current_node()) {
            Some(edges) => find_edge_to(edges, vid).is_some(),
            None => false,
        };
        if reachable {
            self.steps.push(vid);
            assert(self@.path =~= old(self)@.path.push(vid));
            Some(vid)
        } else {
            None
        }
    }

    /// Steps back along the path; see [`CursorView::back`].
    pub fn back(&mut self) -> (r: Option<u32>)
        ensures
            (final(self)@, r) == old(self)@.back(),
    {
        if self.steps.len() > 0 {
            self.steps.pop();
            let prev = self.get_current_node();
            assert(self@.path =~= old(self)@.path.drop_last());
            Some(prev)
        } else {
            None
        }
    }

    pub fn get_cache(&self) -> (c: &HashMap<u32, Vec<u8>>)
        ensures
            c@ == self@.cache,
    {
        &self.cache
    }

    pub fn get_cache_item(&self, key: u32) -> (item: Option<&Vec<u8>>)
        ensures
            match item {
                Some(v) => self@.cache.contains_key(key) && *v == self@.cache[key],
                None => !self@.cache.contains_key(key),
            },
    {
        self.cache.get(&key)
    }

    pub fn get_cache_item_mut(&mut self, key: u32) -> (item: Option<&mut Vec<u8>>)
        ensures
            match item {
                Some(v) => {
                    &&& old(self)@.cache.contains_key(key)
                    &&& *v == old(self)@.cache[key]
                    &&& final(self)@ == old(self)@.set_cache_item(key, *final(v))
                },
                None => !old(self)@.cache.contains_key(key) && final(self)@ == old(self)@,
            },
    {
        cache_get_mut(&mut self.cache, key)
    }

    pub fn remove_cache_item(&mut self, key: u32) -> (item: Option<Vec<u8>>)
        ensures
            final(self)@ == old(self)@.remove_cache_item(key),
            match item {
                Some(v) => old(self)@.cache.contains_key(key) && v == old(self)@.cache[key],
                None => !old(self)@.cache.contains_key(key),
            },
    {
        self.cache.remove(&key)
    }

    pub fn contains_cache_item(&self, key: u32) -> (b: bool)
        ensures
            b == self@.cache.contains_key(key),
    {
        self.cache.contains_key(&key)
    }

    pub fn set_cache_item(&mut self, key: u32, value: Vec<u8>)
        ensures
            final(self)@ == old(self)@.set_cache_item(key, value),
    {
        self.cache.insert(key, value);
    }

    pub fn get_cache_mut(&mut self) -> (c: &mut HashMap<u32, Vec<u8>>)
        ensures
            c@ == old(self)@.cache,
            final(self)@ == old(self)@.replace_cache(final(c)@),
    {
        &mut self.cache
    }

    pub fn clear_cache(&mut self)
        ensures
            final(self)@ == old(self)@.clear_cache(),
    {
        self.cache.clear();
    }
}

} // verus!
