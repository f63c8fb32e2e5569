//! The graph keeps its vertices and adjacency lists in `fnv::FnvHashMap`,
//! which is `std::collections::HashMap` with the FNV hasher of the `fnv`
//! crate. vstd specifies `HashMap` only for hashers known to be
//! deterministic; `fnv::FnvHasher` is one (its `Default` always starts from
//! the same offset basis and `write` folds the bytes in a fixed way), so the
//! few map operations the graph needs are given their usual map semantics
//! here, over vstd's view of a `HashMap` as a `Map`.

use fnv::{FnvHashMap, FnvHasher};
use std::hash::BuildHasherDefault;
use vstd::prelude::*;

verus! {

/// `fnv::FnvHasher`, carried as an opaque type (the hasher of the maps).
#[verifier::external_type_specification]
#[verifier::external_body]
pub struct ExFnvHasher(FnvHasher);

/// `std::hash::BuildHasherDefault`, carried as an opaque type (how the maps
/// build their hashers).
#[verifier::external_type_specification]
#[verifier::external_body]
#[verifier::reject_recursive_types(H)]
pub struct ExBuildHasherDefault<H>(BuildHasherDefault<H>);

/// `HashMap::insert` on an `FnvHashMap`: afterwards the key maps to the new
/// value and every other entry is as before.
#[verifier::external_body]
pub(crate) fn fnv_insert<V>(m: &mut FnvHashMap<u32, V>, k: u32, v: V)
    ensures
        final(m)@ == old(m)@.insert(k, v),
{
    m.insert(k, v);
}

/// `HashMap::get` on an `FnvHashMap`: the value stored under the key, if any.
#[verifier::external_body]
pub(crate) fn fnv_get<'a, V>(m: &'a FnvHashMap<u32, V>, k: u32) -> (r: Option<&'a V>)
    ensures
        match r {
            Some(v) => m@.contains_key(k) && *v == m@[k],
            None => !m@.contains_key(k),
        },
{
    m.get(&k)
}

/// `HashMap::get_mut` on an `FnvHashMap`: a mutable reference to the value
/// stored under the key, if any; what is written through it ends up stored
/// under that key, and the other entries stay as they were.
#[verifier::external_body]
pub(crate) fn fnv_get_mut<'a, V>(m: &'a mut FnvHashMap<u32, V>, k: u32) -> (r: Option<&'a mut V>)
    ensures
        match r {
            Some(v) => {
                &&& old(m)@.contains_key(k)
                &&& *v == old(m)@[k]
                &&& final(m)@ == old(m)@.insert(k, *final(v))
            },
            None => !old(m)@.contains_key(k) && final(m)@ == old(m)@,
        },
{
    m.get_mut(&k)
}

/// `HashMap::contains_key` on an `FnvHashMap`.
#[verifier::external_body]
pub(crate) fn fnv_contains_key<V>(m: &FnvHashMap<u32, V>, k: u32) -> (r: bool)
    ensures
        r == m@.contains_key(k),
{
    m.contains_key(&k)
}

} // verus!
