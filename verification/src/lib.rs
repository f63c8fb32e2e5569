//! A small rooted graph whose vertices carry a label, a depth ("step"), an
//! optional payload and a byte cache, plus a cursor that walks the graph
//! along its edges and remembers the way back.

pub mod cursor;
pub mod error;
pub mod graph;
pub mod helper;
pub(crate) mod fnv_map;
pub mod laws;

use vstd::prelude::*;
use vstd::string::StringExecFns;

verus! {

/// The component exported to WebAssembly hosts.
pub struct Graphit;

impl Graphit {
    /// The version of the component.
    pub fn version() -> (v: String)
        ensures
            v@ == "0.1.0"@,
    {
        String::from_str("0.1.0")
    }

    /// Derives an id from `vrtx` by multiplying it by 33.
    pub fn add_vertex(vrtx: u32) -> (r: u32)
        requires
            vrtx * 33 <= u32::MAX,
        ensures
            r == vrtx * 33,
    {
        vrtx * 33
    }
}

} // verus!
