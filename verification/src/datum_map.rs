//! Maps from names to datum values, as `fxhash` maps.
use vstd::prelude::*;
use fxhash::{FxHashMap, FxHasher};
use std::hash::BuildHasherDefault;
use crate::response::{DatumValueView, McpDatumValue};

verus! {

#[verifier::external_type_specification]
#[verifier::external_body]
pub struct ExFxHasher(FxHasher);

#[verifier::external_type_specification]
#[verifier::external_body]
#[verifier::reject_recursive_types(H)]
pub struct ExBuildHasherDefault<H>(BuildHasherDefault<H>);

/// What an `FxHashMap<String, McpDatumValue>` holds: each key, taken by its
/// characters, to the value stored under it.
pub uninterp spec fn datum_map_entries(m: FxHashMap<String, McpDatumValue>) -> Map<
    Seq<char>,
    McpDatumValue,
>;

/// The map with no entries.
pub open spec fn no_entries() -> Map<Seq<char>, McpDatumValue> {
    Map::empty()
}

/// The entries of a datum map, values taken by their deep view.
pub open spec fn datum_map_view(m: FxHashMap<String, McpDatumValue>) -> Map<Seq<char>, DatumValueView> {
    datum_map_entries(m).map_values(|v: McpDatumValue| v.deep_view())
}

/// Calls `FxHashMap::default()`: trusted to give a map with no entries.
#[verifier::external_body]
pub(crate) fn datum_map_new() -> (m: FxHashMap<String, McpDatumValue>)
    ensures
        datum_map_entries(m) == no_entries(),
{
    FxHashMap::default()
}

/// Calls `HashMap::insert`: trusted to map the key's characters to `value`,
/// replacing what was stored under an equal key, and to keep all else.
#[verifier::external_body]
pub(crate) fn datum_map_insert(
    m: &mut FxHashMap<String, McpDatumValue>,
    key: String,
    value: McpDatumValue,
)
    ensures
        datum_map_entries(*final(m)) == datum_map_entries(*old(m)).insert(key@, value),
{
    m.insert(key, value);
}

} // verus!
