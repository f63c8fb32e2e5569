use crate::fnv_map::{fnv_contains_key, fnv_get, fnv_get_mut, fnv_insert};
use crate::helper::get_rand_vid;
use fnv::FnvHashMap;
use std::collections::HashMap;
use vstd::prelude::*;

verus! {

/// Abstract value of a [`Vertex`]: its label, its depth below the vertex it
/// was attached to, its optional payload and its byte cache.
pub struct VertexView<Payload> {
    pub label: Seq<char>,
    pub step: isize,
    pub payload: Option<Payload>,
    pub cache: Map<u32, Vec<u8>>,
}

impl<Payload> VertexView<Payload> {
    pub open spec fn set_payload(self, payload: Payload) -> Self {
        VertexView { payload: Some(payload), ..self }
    }

    pub open spec fn set_cache_item(self, key: u32, value: Vec<u8>) -> Self {
        VertexView { cache: self.cache.insert(key, value), ..self }
    }

    pub open spec fn remove_cache_item(self, key: u32) -> Self {
        VertexView { cache: self.cache.remove(key), ..self }
    }

    pub open spec fn clear_cache(self) -> Self {
        VertexView { cache: Map::empty(), ..self }
    }

    /// The vertex with its whole cache replaced by `cache`.
    pub open spec fn replace_cache(self, cache: Map<u32, Vec<u8>>) -> Self {
        VertexView { cache, ..self }
    }
}

/// `b` holds the same optional payload as `a`, up to `Clone`.
pub open spec fn payload_cloned<P: Clone>(a: Option<P>, b: Option<P>) -> bool {
    match (a, b) {
        (None, None) => true,
        (Some(x), Some(y)) => cloned(x, y),
        _ => false,
    }
}

/// `b` is a clone of the vertex `a`: the same label, step and cache, and a
/// clone of its payload.
pub open spec fn vertex_cloned<P: Clone>(a: VertexView<P>, b: VertexView<P>) -> bool {
    &&& b.label == a.label
    &&& b.step == a.step
    &&& b.cache == a.cache
    &&& payload_cloned(a.payload, b.payload)
}

/// `HashMap::get_mut` on a vertex's or a cursor's cache: a mutable reference
/// to the bytes stored under the key, if any; what is written through it ends
/// up stored under that key, and the other entries stay as they were.
#[verifier::external_body]
pub(crate) fn cache_get_mut<'a>(m: &'a mut HashMap<u32, Vec<u8>>, k: u32) -> (r: Option<&'a mut Vec<u8>>)
    ensures
        match r {
            Some(v) => {
                &&& old(m)@.contains_key(k)
                &&& *v == old(m)@[k]
                &&& final(m)@ == old(m)@.insert(k, *final(v))
            },
            None => !old(m)@.contains_key(k) && final(m)@ == old(m)@,
        },
{
    m.get_mut(&k)
}

#[derive(Debug)]
pub struct Vertex<Payload = ()> {
    label: String,
    step: isize,
    payload: Option<Payload>,
    cache: HashMap<u32, Vec<u8>>,
}

impl<Payload> View for Vertex<Payload> {
    type V = VertexView<Payload>;

    closed spec fn view(&self) -> VertexView<Payload> {
        VertexView {
            label: self.label@,
            step: self.step,
            payload: self.payload,
            cache: self.cache@,
        }
    }
}

impl<Payload: Clone> Clone for Vertex<Payload> {
    fn clone(&self) -> (r: Self)
        ensures
            vertex_cloned(self@, r@),
    {
        Vertex {
            label: self.label.clone(),
            step: self.step,
            payload: self.payload.clone(),
            cache: self.cache.clone(),
        }
    }
}

impl<Payload> Vertex<Payload> {
    /// The step a vertex gets from the optional step it is created with: one
    /// more than the given step, or 0 when none is given.
    pub open spec fn initial_step(p_step: Option<isize>) -> isize {
        match p_step {
            Some(s) => (s + 1) as isize,
            None => 0,
        }
    }

    /// A vertex labelled `name` with the given payload, an empty cache, and
    /// step `p_step + 1` (0 when no step is given).
    pub fn new(name: &str, payload: Option<Payload>, p_step: Option<isize>) -> (v: Self)
        requires
            p_step matches Some(s) ==> s < isize::MAX,
        ensures
            v@ == (VertexView {
                label: name@,
                step: Self::initial_step(p_step),
                payload,
                cache: Map::empty(),
            }),
            p_step matches Some(s) ==> v@.step == s + 1,
            p_step is None ==> v@.step == 0,
            v@.label == name@,
            v@.payload == payload,
            v@.cache.is_empty(),
    {
        let step = p_step.unwrap_or(-1);
        Self { label: name.to_string(), step: step + 1, payload, cache: HashMap::new() }
    }

    pub fn get_step(&self) -> (s: isize)
        ensures
            s == self@.step,
    {
        self.step
    }

    pub fn get_label(&self) -> (l: &str)
        ensures
            l@ == self@.label,
    {
        self.label.as_str()
    }

    pub fn get_payload(&self) -> (p: Option<&Payload>)
        ensures
            match self@.payload {
                Some(q) => p matches Some(r) && *r == q,
                None => p is None,
            },
    {
        self.payload.as_ref()
    }

    pub fn set_payload(&mut self, payload: Payload)
        ensures
            final(self)@ == old(self)@.set_payload(payload),
    {
        self.payload = Some(payload);
    }

    pub fn get_cache(&self) -> (c: &HashMap<u32, Vec<u8>>)
        ensures
            c@ == self@.cache,
    {
        &self.cache
    }

    pub fn get_cache_item(&self, key: u32) -> (item: Option<&Vec<u8>>)
        ensures
            match item {
                Some(v) => self@.cache.contains_key(key) && *v == self@.cache[key],
                None => !self@.cache.contains_key(key),
            },
    {
        self.cache.get(&key)
    }

    pub fn get_cache_item_mut(&mut self, key: u32) -> (item: Option<&mut Vec<u8>>)
        ensures
            match item {
                Some(v) => {
                    &&& old(self)@.cache.contains_key(key)
                    &&& *v == old(self)@.cache[key]
                    &&& final(self)@ == old(self)@.set_cache_item(key, *final(v))
                },
                None => !old(self)@.cache.contains_key(key) && final(self)@ == old(self)@,
            },
    {
        cache_get_mut(&mut self.cache, key)
    }

    pub fn remove_cache_item(&mut self, key: u32) -> (item: Option<Vec<u8>>)
        ensures
            final(self)@ == old(self)@.remove_cache_item(key),
            match item {
                Some(v) => old(self)@.cache.contains_key(key) && v == old(self)@.cache[key],
                None => !old(self)@.cache.contains_key(key),
            },
    {
        self.cache.remove(&key)
    }

    pub fn contains_cache_item(&self, key: u32) -> (b: bool)
        ensures
            b == self@.cache.contains_key(key),
    {
        self.cache.contains_key(&key)
    }

    pub fn set_cache_item(&mut self, key: u32, value: Vec<u8>)
        ensures
            final(self)@ == old(self)@.set_cache_item(key, value),
    {
        self.cache.insert(key, value);
    }

    pub fn get_cache_mut(&mut self) -> (c: &mut HashMap<u32, Vec<u8>>)
        ensures
            c@ == old(self)@.cache,
            final(self)@ == old(self)@.replace_cache(final(c)@),
    {
        &mut self.cache
    }

    pub fn clear_cache(&mut self)
        ensures
            final(self)@ == old(self)@.clear_cache(),
    {
        self.cache.clear();
    }
}

#[derive(Debug)]
pub enum Edge<Payload = ()> {
    Unidirectional(Option<Payload>),
    Bidirectional(Option<Payload>),
}

impl<Payload: Clone> Clone for Edge<Payload> {
    fn clone(&self) -> (r: Self)
        ensures
            r.bidirectional() == self.bidirectional(),
            payload_cloned(self.payload(), r.payload()),
    {
        match self {
            Edge::Unidirectional(p) => Edge::Unidirectional(p.clone()),
            Edge::Bidirectional(p) => Edge::Bidirectional(p.clone()),
        }
    }
}

impl<Payload> Edge<Payload> {
    /// The optional payload carried by the edge, whatever its direction.
    pub open spec fn payload(self) -> Option<Payload> {
        match self {
            Edge::Unidirectional(p) => p,
            Edge::Bidirectional(p) => p,
        }
    }

    /// The edge goes both ways.
    pub open spec fn bidirectional(self) -> bool {
        self is Bidirectional
    }

    pub fn is_bidirectional(&self) -> (b: bool)
        ensures
            b == self.bidirectional(),
    {
        match self {
            Edge::Unidirectional(_) => false,
            Edge::Bidirectional(_) => true,
        }
    }

    /// The same edge, in the same direction, carrying `payload`.
    pub open spec fn with_payload(self, payload: Payload) -> Self {
        match self {
            Edge::Unidirectional(_) => Edge::Unidirectional(Some(payload)),
            Edge::Bidirectional(_) => Edge::Bidirectional(Some(payload)),
        }
    }

    pub fn get_payload(&self) -> (p: Option<&Payload>)
        ensures
            match self.payload() {
                Some(q) => p matches Some(r) && *r == q,
                None => p is None,
            },
    {
        match self {
            Edge::Unidirectional(p) | Edge::Bidirectional(p) => p.as_ref(),
        }
    }

    pub fn set_payload(&mut self, payload: Payload)
        ensures
            *final(self) == old(self).with_payload(payload),
    {
        match self {
            Edge::Unidirectional(p) => *p = Some(payload),
            Edge::Bidirectional(p) => *p = Some(payload),
        }
    }
}

/// `b` is a clone of the edge `a`: the same direction, and a clone of its
/// payload.
pub open spec fn edge_cloned<P: Clone>(a: Edge<P>, b: Edge<P>) -> bool {
    &&& b.bidirectional() == a.bidirectional()
    &&& payload_cloned(a.payload(), b.payload())
}

/// `i` is the position of the first edge in `es` that leads to `to`.
pub open spec fn is_first_edge_to<EP>(es: Seq<(u32, Edge<EP>)>, to: u32, i: int) -> bool {
    &&& 0 <= i < es.len()
    &&& es[i].0 == to
    &&& forall|j: int| 0 <= j < i ==> es[j].0 != to
}

/// Some edge in `es` leads to `to`.
pub open spec fn has_edge_to<EP>(es: Seq<(u32, Edge<EP>)>, to: u32) -> bool {
    exists|i: int| 0 <= i < es.len() && es[i].0 == to
}

/// The position of the first edge in `es` that leads to `to` (meaningful
/// when there is one).
pub open spec fn first_edge_to<EP>(es: Seq<(u32, Edge<EP>)>, to: u32) -> int {
    choose|i: int| is_first_edge_to(es, to, i)
}

/// The vertices that the edges `es` lead to, in the order of the edges,
/// skipping the edges whose target is not a vertex of `vs`.
pub open spec fn targets_in<VP, EP>(
    es: Seq<(u32, Edge<EP>)>,
    vs: Map<u32, VertexView<VP>>,
) -> Seq<VertexView<VP>>
    decreases es.len(),
{
    if es.len() == 0 {
        Seq::empty()
    } else {
        let rest = targets_in(es.drop_last(), vs);
        let t = es.last().0;
        if vs.contains_key(t) {
            rest.push(vs[t])
        } else {
            rest
        }
    }
}

/// The first edge to `to` is unique: any position that is first is the one
/// that `first_edge_to` names.
pub proof fn lemma_first_edge_to_unique<EP>(es: Seq<(u32, Edge<EP>)>, to: u32, i: int)
    requires
        is_first_edge_to(es, to, i),
    ensures
        first_edge_to(es, to) == i,
        has_edge_to(es, to),
{
    let c = first_edge_to(es, to);
    assert(is_first_edge_to(es, to, c));
    if c < i {
        assert(es[c].0 != to);
    } else if i < c {
        assert(es[i].0 != to);
    }
}

/// Position of the first edge of `es` that leads to `to`, if any.
pub(crate) fn find_edge_to<EP>(es: &Vec<(u32, Edge<EP>)>, to: u32) -> (r: Option<usize>)
    ensures
        match r {
            Some(i) => is_first_edge_to(es@, to, i as int) && first_edge_to(es@, to) == i,
            None => !has_edge_to(es@, to),
        },
{
    let mut i: usize = 0;
    while i < es.len()
        invariant
            i <= es.len(),
            forall|j: int| 0 <= j < i ==> es@[j].0 != to,
        decreases es.len() - i,
    {
        if es[i].0 == to {
            proof {
                lemma_first_edge_to_unique(es@, to, i as int);
            }
            return Some(i);
        }
        i = i + 1;
    }
    None
}

/// Abstract value of a [`Graph`]: the id of its root vertex, its vertices by
/// id, and for each vertex id that has any, the list of its outgoing edges,
/// each with the id it leads to, in the order they were added.
pub struct GraphView<VP, EP> {
    pub root: u32,
    pub vertices: Map<u32, VertexView<VP>>,
    pub edges: Map<u32, Seq<(u32, Edge<EP>)>>,
}

impl<VP, EP> GraphView<VP, EP> {
    /// A graph always holds its root vertex.
    pub open spec fn wf(self) -> bool {
        self.vertices.contains_key(self.root)
    }

    /// The graph made of a single root vertex labelled `label`, with id `vid`.
    pub open spec fn rooted(vid: u32, label: Seq<char>) -> Self {
        GraphView {
            root: vid,
            vertices: Map::empty().insert(
                vid,
                VertexView { label, step: 0, payload: None, cache: Map::empty() },
            ),
            edges: Map::empty(),
        }
    }

    /// No adjacency list is empty: a vertex id has one only once an edge
    /// leaves it.
    pub open spec fn lists_nonempty(self) -> bool {
        forall|vid: u32| #[trigger] self.edges.contains_key(vid) ==> self.edges[vid].len() > 0
    }

    /// The outgoing edges of `vid`; none when it has no adjacency list.
    pub open spec fn edges_from(self, vid: u32) -> Seq<(u32, Edge<EP>)> {
        if self.edges.contains_key(vid) {
            self.edges[vid]
        } else {
            Seq::empty()
        }
    }

    pub open spec fn add_vertex(self, vid: u32, vertex: VertexView<VP>) -> Self {
        GraphView { vertices: self.vertices.insert(vid, vertex), ..self }
    }

    /// `e` appended to the outgoing edges of `from`, leading to `to`.
    pub open spec fn add_edge(self, from: u32, to: u32, e: Edge<EP>) -> Self {
        GraphView { edges: self.edges.insert(from, self.edges_from(from).push((to, e))), ..self }
    }

    /// Attaching `child` under `parent` with id `vid`: when `parent` is a
    /// vertex, the child is stored under `vid` with the parent's step added
    /// to its own, and an edge from the parent to it is appended (the given
    /// edge, or a unidirectional edge without payload); the result is `vid`.
    /// Otherwise nothing changes and the result is `None`.
    pub open spec fn add_child(
        self,
        parent: u32,
        child: VertexView<VP>,
        edge: Option<Edge<EP>>,
        vid: u32,
    ) -> (Self, Option<u32>) {
        if self.vertices.contains_key(parent) {
            let c = VertexView { step: (child.step + self.vertices[parent].step) as isize, ..child };
            let e = match edge {
                Some(e) => e,
                None => Edge::Unidirectional(None),
            };
            (self.add_vertex(vid, c).add_edge(parent, vid, e), Some(vid))
        } else {
            (self, None)
        }
    }

    pub open spec fn set_vertex_payload(self, vid: u32, payload: VP) -> (Self, bool) {
        if self.vertices.contains_key(vid) {
            (
                self.add_vertex(vid, self.vertices[vid].set_payload(payload)),
                true,
            )
        } else {
            (self, false)
        }
    }

    /// The first edge from `from` to `to` gets `payload`; `false` and no
    /// change when there is no such edge.
    pub open spec fn set_edge_payload(self, from: u32, to: u32, payload: EP) -> (Self, bool) {
        let es = self.edges_from(from);
        if has_edge_to(es, to) {
            let i = first_edge_to(es, to);
            let es2 = es.update(i, (to, es[i].1.with_payload(payload)));
            (GraphView { edges: self.edges.insert(from, es2), ..self }, true)
        } else {
            (self, false)
        }
    }

    /// The payload of the first edge from `from` to `to`, if there is such
    /// an edge and it carries one.
    pub open spec fn edge_payload(self, from: u32, to: u32) -> Option<EP> {
        let es = self.edges_from(from);
        if has_edge_to(es, to) {
            es[first_edge_to(es, to)].1.payload()
        } else {
            None
        }
    }

    /// The vertices the root's edges lead to, in edge order; `None` when the
    /// root has no adjacency list.
    pub open spec fn children(self) -> Option<Seq<VertexView<VP>>> {
        if self.edges.contains_key(self.root) {
            Some(targets_in(self.edges[self.root], self.vertices))
        } else {
            None
        }
    }
}

/// A rooted directed graph: vertices by id, and for each vertex id the list
/// of its outgoing edges.
///
/// The root vertex is kept apart from the others, so that no graph can lose
/// it: the graph's vertices are `vertices` with `root` stored under
/// `root_vid` (an entry of `vertices` under that id, if any, is hidden).
#[derive(Debug)]
pub struct Graph<V, E> {
    root_vid: u32,
    root: V,
    vertices: FnvHashMap<u32, V>,
    edges: FnvHashMap<u32, Vec<(u32, E)>>,
}

impl<VP, EP> View for Graph<Vertex<VP>, Edge<EP>> {
    type V = GraphView<VP, EP>;

    closed spec fn view(&self) -> GraphView<VP, EP> {
        GraphView {
            root: self.root_vid,
            vertices: self.vertices@.insert(self.root_vid, self.root).map_values(
                |v: Vertex<VP>| v@,
            ),
            edges: self.edges@.map_values(|l: Vec<(u32, Edge<EP>)>| l@),
        }
    }
}

/// Where the search for a free id starting at `seed` looks at its `j`-th
/// try: `seed`, `seed + 1`, ... up to `u32::MAX - 1`, then on from 2.
pub open spec fn probe(seed: u32, j: int) -> int {
    if seed + j < u32::MAX {
        seed + j
    } else {
        seed + j - (u32::MAX - 2)
    }
}

impl<VP, EP> Graph<Vertex<VP>, Edge<EP>> {
    /// Every graph holds its root vertex.
    pub proof fn lemma_holds_root(&self)
        ensures
            self@.wf(),
    {
    }

    /// A graph of a single vertex labelled `root_label`, whose id is drawn at
    /// random from `2..u32::MAX`.
    pub fn new(root_label: &str) -> (g: Self)
        ensures
            2 <= g@.root < u32::MAX,
            g@ == GraphView::<VP, EP>::rooted(g@.root, root_label@),
            g@.wf(),
    {
        let vid = get_rand_vid(2, u32::MAX);
        Self::with_root_vid(root_label, vid)
    }

    /// A graph of a single vertex labelled `root_label` with id `vid`.
    pub fn with_root_vid(root_label: &str, vid: u32) -> (g: Self)
        ensures
            g@ == GraphView::<VP, EP>::rooted(vid, root_label@),
            g@.wf(),
    {
        let vertices: FnvHashMap<u32, Vertex<VP>> = FnvHashMap::default();
        let root = Vertex::<VP>::new(root_label, None, None);
        let edges: FnvHashMap<u32, Vec<(u32, Edge<EP>)>> = FnvHashMap::default();
        let g = Self { root_vid: vid, root, vertices, edges };
        assert(g@.vertices =~= GraphView::<VP, EP>::rooted(vid, root_label@).vertices);
        assert(g@.edges =~= GraphView::<VP, EP>::rooted(vid, root_label@).edges);
        g
    }

    /// Adds a vertex to the graph, replacing any vertex stored under the same
    /// id. Returns the VID of the inserted vertex.
    pub fn add_vertex(&mut self, vid: &u32, vertex: Vertex<VP>) -> (r: u32)
        ensures
            r == *vid,
            final(self)@ == old(self)@.add_vertex(*vid, vertex@),
    {
        let ghost v = vertex@;
        if *vid == self.root_vid {
            self.root = vertex;
        } else {
            fnv_insert(&mut self.vertices, *vid, vertex);
        }
        assert(self@.vertices =~= old(self)@.vertices.insert(*vid, v));
        *vid
    }

    pub fn add_edge(&mut self, from: u32, to: u32, value: Edge<EP>)
        ensures
            final(self)@ == old(self)@.add_edge(from, to, value),
    {
        match fnv_get_mut(&mut self.edges, from) {
            Some(list) => {
                list.push((to, value));
            },
            None => {
                let mut list: Vec<(u32, Edge<EP>)> = Vec::new();
                list.push((to, value));
                fnv_insert(&mut self.edges, from, list);
            },
        }
        assert(self@.edges =~= old(self)@.add_edge(from, to, value).edges);
    }

    /// Whether `vid` is a vertex of the graph.
    fn contains_vertex(&self, vid: u32) -> (b: bool)
        ensures
            b == self@.vertices.contains_key(vid),
    {
        vid == self.root_vid || fnv_contains_key(&self.vertices, vid)
    }

    /// A free vertex id in `2..u32::MAX`, looked for from `seed` on: the
    /// first id in the order `seed, seed + 1, ..., u32::MAX - 1, 2, 3, ...`
    /// that is not a vertex. `None` when every id in the range is a vertex.
    pub fn fresh_vid(&self, seed: u32) -> (r: Option<u32>)
        requires
            2 <= seed < u32::MAX,
        ensures
            match r {
                Some(vid) => exists|j: int|
                    0 <= j < u32::MAX - 2 && vid == #[trigger] probe(seed, j) && forall|i: int|
                        0 <= i < j ==> self@.vertices.contains_key(#[trigger] probe(seed, i) as u32),
                None => forall|vid: u32| 2 <= vid < u32::MAX ==> self@.vertices.contains_key(vid),
            },
            r matches Some(vid) ==> 2 <= vid < u32::MAX && !self@.vertices.contains_key(vid),
    {
        let span: u32 = u32::MAX - 2;
        let mut j: u32 = 0;
        while j < span
            invariant
                2 <= seed < u32::MAX,
                span == u32::MAX - 2,
                j <= span,
                forall|i: int|
                    0 <= i < j ==> self@.vertices.contains_key(#[trigger] probe(seed, i) as u32),
            decreases span - j,
        {
            let cand: u32 = if j < u32::MAX - seed {
                seed + j
            } else {
                j - (u32::MAX - seed) + 2
            };
            assert(cand == probe(seed, j as int));
            if !self.contains_vertex(cand) {
                return Some(cand);
            }
            j = j + 1;
        }
        assert forall|vid: u32| 2 <= vid < u32::MAX implies self@.vertices.contains_key(vid) by {
            let i: int = if vid >= seed {
                vid - seed
            } else {
                vid - seed + (u32::MAX - 2)
            };
            assert(probe(seed, i) == vid);
        }
        None
    }

    /// Attaches `child` under `parent_vid` under a fresh id, linked by
    /// `edge_type` (a unidirectional edge without payload when none is
    /// given). The id is looked for from a seed drawn at random from
    /// `2..u32::MAX` (see [`Graph::fresh_vid`]). Returns the new vertex's id,
    /// or `None` when `parent_vid` is not a vertex (or, which no graph in
    /// memory can reach, when every id is taken).
    pub fn add_child(
        &mut self,
        parent_vid: &u32,
        child: Vertex<VP>,
        edge_type: Option<Edge<EP>>,
    ) -> (r: Option<u32>)
        requires
            old(self)@.vertices.contains_key(*parent_vid) ==> isize::MIN <= child@.step
                + old(self)@.vertices[*parent_vid].step <= isize::MAX,
        ensures
            r is Some <==> old(self)@.vertices.contains_key(*parent_vid) && exists|vid: u32|
                2 <= vid < u32::MAX && !old(self)@.vertices.contains_key(vid),
            match r {
                Some(vid) => {
                    &&& 2 <= vid < u32::MAX
                    &&& !old(self)@.vertices.contains_key(vid)
                    &&& (final(self)@, r) == old(self)@.add_child(
                        *parent_vid,
                        child@,
                        edge_type,
                        vid,
                    )
                },
                None => final(self)@ == old(self)@,
            },
            r matches Some(vid) ==> {
                let g = old(self)@;
                let g2 = final(self)@;
                &&& g2.root == g.root
                &&& g2.vertices.contains_key(vid)
                &&& g2.vertices[vid].step == child@.step + g.vertices[*parent_vid].step
                &&& g2.vertices[vid].label == child@.label
                &&& g2.vertices[vid].payload == child@.payload
                &&& g2.vertices[vid].cache == child@.cache
                &&& forall|v: u32|
                    v != vid ==> (#[trigger] g2.vertices.contains_key(v) == g.vertices.contains_key(v)
                        && (g.vertices.contains_key(v) ==> g2.vertices[v] == g.vertices[v]))
                &&& g2.edges_from(*parent_vid) == g.edges_from(*parent_vid).push(
                    (
                        vid,
                        match edge_type {
                            Some(e) => e,
                            None => Edge::Unidirectional(None),
                        },
                    ),
                )
                &&& forall|x: u32|
                    x != *parent_vid ==> #[trigger] g2.edges_from(x) == g.edges_from(x)
            },
    {
        let seed = get_rand_vid(2, u32::MAX);
        if !self.contains_vertex(*parent_vid) {
            return None;
        }
        match self.fresh_vid(seed) {
            Some(vid) => self.add_child_with_vid(parent_vid, child, edge_type, vid),
            None => None,
        }
    }

    /// Attaches `child` under `parent_vid` with id `vid`, replacing any vertex
    /// stored under `vid`: see [`GraphView::add_child`].
    pub fn add_child_with_vid(
        &mut self,
        parent_vid: &u32,
        child: Vertex<VP>,
        edge_type: Option<Edge<EP>>,
        vid: u32,
    ) -> (r: Option<u32>)
        requires
            old(self)@.vertices.contains_key(*parent_vid) ==> isize::MIN <= child@.step
                + old(self)@.vertices[*parent_vid].step <= isize::MAX,
        ensures
            (final(self)@, r) == old(self)@.add_child(*parent_vid, child@, edge_type, vid),
            r is Some <==> old(self)@.vertices.contains_key(*parent_vid),
            r is Some ==> r == Some(vid),
            !old(self)@.vertices.contains_key(*parent_vid) ==> final(self)@ == old(self)@,
            old(self)@.vertices.contains_key(*parent_vid) ==> {
                let g = old(self)@;
                let g2 = final(self)@;
                &&& g2.root == g.root
                &&& g2.vertices.contains_key(vid)
                &&& g2.vertices[vid].step == child@.step + g.vertices[*parent_vid].step
                &&& g2.vertices[vid].label == child@.label
                &&& g2.vertices[vid].payload == child@.payload
                &&& g2.vertices[vid].cache == child@.cache
                &&& forall|v: u32|
                    v != vid ==> (#[trigger] g2.vertices.contains_key(v) == g.vertices.contains_key(v)
                        && (g.vertices.contains_key(v) ==> g2.vertices[v] == g.vertices[v]))
                &&& g2.edges_from(*parent_vid) == g.edges_from(*parent_vid).push(
                    (
                        vid,
                        match edge_type {
                            Some(e) => e,
                            None => Edge::Unidirectional(None),
                        },
                    ),
                )
                &&& forall|x: u32|
                    x != *parent_vid ==> #[trigger] g2.edges_from(x) == g.edges_from(x)
            },
    {
        let mut child = child;
        if self.contains_vertex(*parent_vid) {
            let p_step = match self.get_vertex(*parent_vid) {
                Some(p) => p.step,
                None => 0,
            };
            child.step = child.step + p_step;
            self.add_vertex(&vid, child);
            match edge_type {
                Some(e) => {
                    self.add_edge(*parent_vid, vid, e);
                    return Some(vid);
                },
                None => {
                    self.add_edge(*parent_vid, vid, Edge::Unidirectional(None));
                    return Some(vid);
                },
            }
        }
        None
    }

    pub fn get_vertex(&self, vid: u32) -> (v: Option<&Vertex<VP>>)
        ensures
            match v {
                Some(v) => self@.vertices.contains_key(vid) && v@ == self@.vertices[vid],
                None => !self@.vertices.contains_key(vid),
            },
    {
        if vid == self.root_vid {
            Some(&self.root)
        } else {
            fnv_get(&self.vertices, vid)
        }
    }

    pub fn get_edges(&self, vid: u32) -> (es: Option<&Vec<(u32, Edge<EP>)>>)
        ensures
            match es {
                Some(l) => self@.edges.contains_key(vid) && l@ == self@.edges[vid],
                None => !self@.edges.contains_key(vid),
            },
    {
        fnv_get(&self.edges, vid)
    }

    /// Clones of the vertices that the root's edges lead to, in edge order;
    /// `None` when the root has no adjacency list.
    pub fn get_children(&self) -> (r: Option<Vec<Vertex<VP>>>)
        where
            VP: Clone,
        ensures
            match self@.children() {
                Some(cs) => r matches Some(vs) && vs.len() == cs.len() && forall|i: int|
                    0 <= i < cs.len() ==> vertex_cloned(cs[i], #[trigger] vs@[i]@),
                None => r is None,
            },
    {
        match fnv_get(&self.edges, self.root_vid) {
            Some(edges) => {
                let ghost es = edges@;
                let ghost vs = self@.vertices;
                let mut out: Vec<Vertex<VP>> = Vec::new();
                let mut i: usize = 0;
                while i < edges.len()
                    invariant
                        i <= edges.len(),
                        es == edges@,
                        vs == self@.vertices,
                        out.len() == targets_in(es.take(i as int), vs).len(),
                        forall|k: int|
                            0 <= k < out.len() ==> vertex_cloned(
                                targets_in(es.take(i as int), vs)[k],
                                #[trigger] out@[k]@,
                            ),
                    decreases edges.len() - i,
                {
                    assert(es.take(i + 1).drop_last() =~= es.take(i as int));
                    let target = edges[i].0;
                    match self.get_vertex(target) {
                        Some(v) => {
                            out.push(v.clone());
                        },
                        None => {},
                    }
                    i = i + 1;
                }
                assert(es.take(edges.len() as int) =~= es);
                Some(out)
            },
            None => None,
        }
    }

    pub fn root_vid(&self) -> (r: u32)
        ensures
            r == self@.root,
    {
        self.root_vid
    }

    /// Gives vertex `vid` the payload. Returns `false`, changing nothing,
    /// when `vid` is not a vertex.
    pub fn set_vertex_payload(&mut self, vid: u32, payload: VP) -> (r: bool)
        ensures
            (final(self)@, r) == old(self)@.set_vertex_payload(vid, payload),
    {
        if vid == self.root_vid {
            self.root.set_payload(payload);
            assert(self@.vertices =~= old(self)@.set_vertex_payload(vid, payload).0.vertices);
            return true;
        }
        match fnv_get_mut(&mut self.vertices, vid) {
            Some(v) => {
                v.set_payload(payload);
                assert(self@.vertices =~= old(self)@.set_vertex_payload(vid, payload).0.vertices);
                true
            },
            None => {
                assert(self@.vertices =~= old(self)@.vertices);
                false
            },
        }
    }

    /// Gives the first edge from `from` to `to` the payload. Returns `false`,
    /// changing nothing, when there is no such edge.
    pub fn set_edge_payload(&mut self, from: u32, to: u32, payload: EP) -> (r: bool)
        ensures
            (final(self)@, r) == old(self)@.set_edge_payload(from, to, payload),
    {
        match fnv_get_mut(&mut self.edges, from) {
            Some(edges) => {
                match find_edge_to(edges, to) {
                    Some(i) => {
                        edges[i].1.set_payload(payload);
                        assert(self@.edges =~= old(self)@.set_edge_payload(from, to, payload).0.edges);
                        true
                    },
                    None => {
                        assert(self@.edges =~= old(self)@.edges);
                        false
                    },
                }
            },
            None => {
                assert(self@.edges =~= old(self)@.edges);
                false
            },
        }
    }

    /// The payload of the first edge from `from` to `to`, if there is such an
    /// edge and it carries one.
    pub fn get_edge_payload(&self, from: u32, to: u32) -> (p: Option<&EP>)
        ensures
            match self@.edge_payload(from, to) {
                Some(q) => p matches Some(r) && *r == q,
                None => p is None,
            },
    {
        match fnv_get(&self.edges, from) {
            Some(edges) => match find_edge_to(edges, to) {
                Some(i) => edges[i].1.get_payload(),
                None => None,
            },
            None => None,
        }
    }
}

} // verus!
