//! Name resolution against the reference-data tables.

use std::collections::HashMap;
use vstd::prelude::*;

verus! {

/// The resolved display name of an id: the stored name when present,
/// else the sentinel.
pub open spec fn spec_resolve_name(id: i32, m: Map<i32, String>) -> Seq<char> {
    if m.contains_key(id) {
        m[id]@
    } else {
        "Unknown"@
    }
}

/// Name resolution is a total function: an id absent from the mapping
/// resolves to the sentinel, a present id to exactly the stored name.
pub proof fn lemma_resolve_name_total(id: i32, m: Map<i32, String>)
    ensures
        !m.contains_key(id) ==> spec_resolve_name(id, m) == "Unknown"@,
        m.contains_key(id) ==> spec_resolve_name(id, m) == m[id]@,
{
}

/// Every stored pair round-trips: after storing a name under an id,
/// resolving that id yields exactly that name.
pub proof fn lemma_resolve_name_round_trip(id: i32, name: String, m: Map<i32, String>)
    ensures
        spec_resolve_name(id, m.insert(id, name)) == name@,
{
}

/// Resolves an id against a mapping; never fails.
pub fn resolve_name(id: i32, map: &HashMap<i32, String>) -> (r: String)
    ensures
        r@ == spec_resolve_name(id, map@),
{
    match map.get(&id) {
        Some(s) => s.clone(),
        None => "Unknown".to_owned(),
    }
}

/// The display form of an id for the presentation layer: the resolved
/// name, with the sentinel blanked to a single space.
pub fn id2name(id: i32, map: &HashMap<i32, String>) -> (r: String)
    ensures
        r@ == (if spec_resolve_name(id, map@) == "Unknown"@ {
            " "@
        } else {
            spec_resolve_name(id, map@)
        }),
{
    let name = resolve_name(id, map);
    let unknown = "Unknown".to_owned();
    if name == unknown {
        " ".to_owned()
    } else {
        name
    }
}

} // verus!
