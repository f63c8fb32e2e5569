# graphit

A rooted graph library, verified with Verus.

- `src/graph.rs`: vertices (label, step, optional payload, byte cache),
  edges (one- or two-way, optional payload) and the graph itself, with the
  abstract views `VertexView` and `GraphView` that the contracts speak of.
- `src/cursor.rs`: a cursor that walks a graph along its edges and steps back
  along the way it came (`CursorView`).
- `src/laws.rs`: what holds across operations, one call at a time and over
  whole runs of calls (the root is never lost, a step back undoes a move,
  the path is linked by edges, reads give back what was written, ...).
- `src/fnv_map.rs`, `src/helper.rs`, `src/error.rs`: the calls into `fnv`,
  `rand` and `std::io`, each with the contract it is trusted to meet.
- `app/`: unverified glue: the error type with its `thiserror` derive, a
  cursor sharing its graph through `Rc<RefCell<..>>`, and the surface offered
  to WebAssembly hosts.
