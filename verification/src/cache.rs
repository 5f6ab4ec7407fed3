//! The reference-data cache: the item and hero id-to-name tables and
//! the loaded flag.
//!
//! The cache is populated either from the two stored table texts or
//! from the metadata API's constant response, and is written back as
//! table texts exactly once at teardown.  Reading and writing the
//! files themselves is the surrounding application's work.

use std::collections::HashMap;
use vstd::prelude::*;
use crate::storage::{emit_entries, lemma_storage_round_trip, parse_table, spec_emit,
    spec_entries_to_map, spec_entries_view, spec_parse_object};
use crate::text::{push_dec_u64, push_str_chars, spec_dec_nat, string_of_chars};

verus! {

/// An entry list stands for a table: the keys are distinct, each
/// entry holds a stored pair, and every stored key appears, so the
/// list carries each stored pair exactly once.
pub open spec fn spec_entries_represent(es: Seq<(i32, String)>, m: Map<i32, String>) -> bool {
    &&& forall|p: int, q: int|
        0 <= p < q < es.len() ==> (#[trigger] es[p]).0 != (#[trigger] es[q]).0
    &&& forall|p: int|
        0 <= p < es.len() ==> m.contains_key((#[trigger] es[p]).0) && m[es[p].0] == es[p].1
    &&& forall|id: i32| #[trigger]
        m.contains_key(id) ==> exists|p: int| 0 <= p < es.len() && (#[trigger] es[p]).0 == id
}

/// A table matches a parsed entry list when membership and names
/// agree.
pub open spec fn spec_table_matches(m: Map<i32, String>, es: Seq<(int, Seq<char>)>) -> bool {
    &&& forall|id: i32| #[trigger]
        m.contains_key(id) <==> spec_entries_to_map(es).contains_key(id as int)
    &&& forall|id: i32| #[trigger] m.contains_key(id) ==> m[id]@ == spec_entries_to_map(es)[id as int]
}

/// Relies on std's `HashMap::iter`: iterating a map hands out each
/// stored key-value pair exactly once, in an unspecified order.
#[verifier::external_body]
fn map_entries(m: &HashMap<i32, String>) -> (r: Vec<(i32, String)>)
    ensures
        spec_entries_represent(r@, m@),
{
    m.iter().map(|(k, v)| (*k, v.clone())).collect()
}

/// Emits a table as its storage text.  Which entry order the text
/// carries follows the map's iteration order; whatever the order, the
/// text denotes exactly the table.
pub fn table_to_json(m: &HashMap<i32, String>) -> (r: String)
    ensures
        exists|es: Seq<(i32, String)>|
            #[trigger] spec_entries_represent(es, m@) && r@ == spec_emit(spec_entries_view(es)),
{
    let entries = map_entries(m);
    let r = emit_entries(&entries);
    proof {
        assert(spec_entries_represent(entries@, m@) && r@ == spec_emit(
            spec_entries_view(entries@),
        ));
    }
    r
}

/// Parses a storage text back into a table; nothing when the text is
/// not a well-formed table.
pub fn table_from_json(s: &str) -> (r: Option<HashMap<i32, String>>)
    ensures
        (match spec_parse_object(s@) {
            None => r is None,
            Some(es) => r matches Some(m) && spec_table_matches(m@, es),
        }),
{
    match parse_table(s) {
        None => None,
        Some(entries) => {
            let mut m: HashMap<i32, String> = HashMap::new();
            let n = entries.len();
            let mut i: usize = 0;
            while i < n
                invariant
                    i <= n,
                    n == entries@.len(),
                    spec_table_matches(
                        m@,
                        spec_entries_view(entries@.subrange(0, i as int)),
                    ),
                decreases n - i,
            {
                let entry = &entries[i];
                let name = entry.1.clone();
                m.insert(entry.0, name);
                i = i + 1;
                proof {
                    let pre = spec_entries_view(entries@.subrange(0, i - 1 as int));
                    let now = spec_entries_view(entries@.subrange(0, i as int));
                    assert(entries@.subrange(0, i as int) =~= entries@.subrange(
                        0,
                        i - 1 as int,
                    ).push(entries@[i - 1]));
                    assert(now =~= pre.push((entries@[i - 1].0 as int, entries@[i - 1].1@)));
                    assert(now.drop_last() =~= pre);
                    assert(spec_entries_to_map(now) == spec_entries_to_map(pre).insert(
                        entries@[i - 1].0 as int,
                        entries@[i - 1].1@,
                    ));
                }
            }
            proof {
                assert(entries@.subrange(0, n as int) =~= entries@);
            }
            Some(m)
        },
    }
}

/// Cache idempotent persistence: the text emitted from any entry list
/// parses back to exactly those entries, so a load after a persist
/// rebuilds the same table and a second persist denotes it again.
pub proof fn lemma_persist_then_load(es: Seq<(i32, String)>)
    ensures
        spec_parse_object(spec_emit(spec_entries_view(es))) == Some(spec_entries_view(es)),
{
    let v = spec_entries_view(es);
    assert forall|p: int| 0 <= p < v.len() implies -0x8000_0000 <= (#[trigger] v[p]).0
        <= 0x7FFF_FFFF by {
        assert(v[p].0 == es[p].0 as int);
    }
    lemma_storage_round_trip(v);
}

/// Any entry list that represents a table denotes exactly that table:
/// the map built from the entries holds the same ids and the same
/// names.  Together with [`lemma_persist_then_load`], a load after a
/// persist rebuilds the persisted table, whatever entry order the
/// persist happened to emit.
pub proof fn lemma_entries_denote_table(es: Seq<(i32, String)>, m: Map<i32, String>)
    requires
        spec_entries_represent(es, m),
    ensures
        forall|id: i32| #[trigger]
            spec_entries_to_map(spec_entries_view(es)).contains_key(id as int) <==> m.contains_key(
                id,
            ),
        forall|id: i32| #[trigger]
            m.contains_key(id) ==> spec_entries_to_map(spec_entries_view(es))[id as int] == m[id]@,
    decreases es.len(),
{
    let v = spec_entries_view(es);
    if es.len() == 0 {
        assert(spec_entries_to_map(v) == Map::<int, Seq<char>>::empty());
        assert forall|id: i32| !(#[trigger] m.contains_key(id)) by {
            if m.contains_key(id) {
                let p = choose|p: int| 0 <= p < es.len() && (#[trigger] es[p]).0 == id;
                assert(false);
            }
        }
    } else {
        let last = es.last();
        let k = last.0;
        let m2 = m.remove(k);
        let pre = es.drop_last();
        assert(m.contains_key(k));
        assert forall|id: i32| #[trigger]
            m2.contains_key(id) implies exists|p: int|
            0 <= p < pre.len() && (#[trigger] pre[p]).0 == id by {
            let p = choose|p: int| 0 <= p < es.len() && (#[trigger] es[p]).0 == id;
            assert(id != k);
            assert(p < es.len() - 1);
            assert(pre[p] == es[p]);
        }
        assert(spec_entries_represent(pre, m2));
        lemma_entries_denote_table(pre, m2);
        assert(v.drop_last() =~= spec_entries_view(pre));
        assert(v.last() == (k as int, last.1@));
        assert(spec_entries_to_map(v) == spec_entries_to_map(spec_entries_view(pre)).insert(
            k as int,
            last.1@,
        ));
        assert forall|id: i32| #[trigger]
            spec_entries_to_map(v).contains_key(id as int) <==> m.contains_key(id) by {
            if id != k {
                assert(id as int != k as int);
                assert(m2.contains_key(id) == m.contains_key(id));
            }
        }
        assert forall|id: i32| #[trigger]
            m.contains_key(id) implies spec_entries_to_map(v)[id as int] == m[id]@ by {
            if id == k {
                assert(m[k] == last.1);
            } else {
                assert(id as int != k as int);
                assert(m2.contains_key(id) && m2[id] == m[id]);
            }
        }
    }
}

/// The process-wide reference-data cache.
#[derive(Debug)]
pub struct GameConstant {
    pub items_map: HashMap<i32, String>,
    pub heroes_map: HashMap<i32, String>,
    pub is_loaded: bool,
}

impl core::default::Default for GameConstant {
    /// The empty cache, not yet populated from either source.
    fn default() -> (r: Self)
        ensures
            r.items_map@ == Map::<i32, String>::empty(),
            r.heroes_map@ == Map::<i32, String>::empty(),
            !r.is_loaded,
    {
        GameConstant {
            items_map: HashMap::new(),
            heroes_map: HashMap::new(),
            is_loaded: false,
        }
    }
}

impl GameConstant {
    /// Builds the cache from the two stored table texts; nothing when
    /// either fails to parse as a whole — the caller then falls back
    /// to the remote fetch.
    pub fn from_texts(items_json: &str, heroes_json: &str) -> (r: Option<GameConstant>)
        ensures
            r is Some <==> (spec_parse_object(items_json@) is Some && spec_parse_object(
                heroes_json@,
            ) is Some),
            (match r {
                Some(g) => g.is_loaded && spec_table_matches(
                    g.items_map@,
                    spec_parse_object(items_json@)->Some_0,
                ) && spec_table_matches(
                    g.heroes_map@,
                    spec_parse_object(heroes_json@)->Some_0,
                ),
                None => true,
            }),
    {
        match table_from_json(items_json) {
            None => None,
            Some(items_map) => match table_from_json(heroes_json) {
                None => None,
                Some(heroes_map) => Some(
                    GameConstant { items_map, heroes_map, is_loaded: true },
                ),
            },
        }
    }

    /// Installs freshly fetched tables; the cache is then loaded.
    pub fn load_tables(&mut self, items: HashMap<i32, String>, heroes: HashMap<i32, String>)
        ensures
            final(self).items_map@ == items@,
            final(self).heroes_map@ == heroes@,
            final(self).is_loaded,
    {
        self.items_map = items;
        self.heroes_map = heroes;
        self.is_loaded = true;
    }

    /// The two storage texts to persist, items then heroes.
    pub fn to_json_texts(&self) -> (r: (String, String))
        ensures
            exists|es: Seq<(i32, String)>|
                #[trigger] spec_entries_represent(es, self.items_map@) && r.0@ == spec_emit(
                    spec_entries_view(es),
                ),
            exists|es: Seq<(i32, String)>|
                #[trigger] spec_entries_represent(es, self.heroes_map@) && r.1@ == spec_emit(
                    spec_entries_view(es),
                ),
    {
        (table_to_json(&self.items_map), table_to_json(&self.heroes_map))
    }

    /// A one-line account of the cache: the table sizes and the flag.
    pub fn summary(&self) -> (r: String)
        ensures
            r@ == "GameConstant { items: "@ + spec_dec_nat(self.items_map@.len())
                + ", heroes: "@ + spec_dec_nat(self.heroes_map@.len()) + ", is_loaded: "@ + (
            if self.is_loaded {
                "true"@
            } else {
                "false"@
            }) + " }"@,
    {
        let mut out: Vec<char> = Vec::new();
        push_str_chars(&mut out, "GameConstant { items: ");
        push_dec_u64(&mut out, self.items_map.len() as u64);
        push_str_chars(&mut out, ", heroes: ");
        push_dec_u64(&mut out, self.heroes_map.len() as u64);
        push_str_chars(&mut out, ", is_loaded: ");
        if self.is_loaded {
            push_str_chars(&mut out, "true");
        } else {
            push_str_chars(&mut out, "false");
        }
        push_str_chars(&mut out, " }");
        assert(out@ =~= "GameConstant { items: "@ + spec_dec_nat(self.items_map@.len())
            + ", heroes: "@ + spec_dec_nat(self.heroes_map@.len()) + ", is_loaded: "@ + (
        if self.is_loaded {
            "true"@
        } else {
            "false"@
        }) + " }"@);
        string_of_chars(&out)
    }
}

} // verus!
