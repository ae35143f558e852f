//! The map from the position of each CIE in an input `.eh_frame` section to
//! its position in the output, kept in a hash map of the `ahash` crate.

use vstd::prelude::*;

verus! {

/// `ahash::RandomState`, the hasher state of an `AHashMap`. Nothing is
/// claimed of it.
#[verifier::external_type_specification]
#[verifier::external_body]
pub struct ExRandomState(ahash::RandomState);

/// `ahash::AHashMap`, a hash map with the interface of the one of std.
#[verifier::external_type_specification]
#[verifier::external_body]
#[verifier::reject_recursive_types(K)]
#[verifier::reject_recursive_types(V)]
#[verifier::reject_recursive_types(S)]
pub struct ExAHashMap<K, V, S>(ahash::AHashMap<K, V, S>);

/// The key-value pairs that a map of CIE positions holds.
pub uninterp spec fn cie_positions(m: ahash::AHashMap<u32, u32>) -> Map<u32, u32>;

/// The map that holds nothing.
pub open spec fn no_cies() -> Map<u32, u32> {
    Map::empty()
}

/// `AHashMap::new`: a map that holds nothing.
#[verifier::external_body]
pub(crate) fn cie_map_new() -> (fresh: ahash::AHashMap<u32, u32>)
    ensures
        cie_positions(fresh) == no_cies(),
{
    ahash::AHashMap::new()
}

/// `AHashMap::insert`: afterwards the map holds `value` under `key` and is
/// otherwise as before, whether or not the key was there.
#[verifier::external_body]
pub(crate) fn cie_map_insert(m: &mut ahash::AHashMap<u32, u32>, key: u32, value: u32)
    ensures
        cie_positions(*final(m)) == cie_positions(*old(m)).insert(key, value),
{
    m.insert(key, value);
}

/// `AHashMap::get`: the value under `key`, if the map holds the key.
#[verifier::external_body]
pub(crate) fn cie_map_get(m: &ahash::AHashMap<u32, u32>, key: u32) -> (r: Option<u32>)
    ensures
        r == if cie_positions(*m).contains_key(key) {
            Some(cie_positions(*m)[key])
        } else {
            None
        },
{
    m.get(&key).copied()
}

} // verus!
