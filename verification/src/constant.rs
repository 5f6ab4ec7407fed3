//! The metadata API's constant query and response, and the split of
//! the combined response into the two id-to-name tables.

use std::collections::HashMap;
use vstd::prelude::*;

verus! {

/// The fixed query text sent to the metadata API: item and hero
/// localized names in one call.
pub open spec fn spec_constant_query() -> Seq<char> {
    r#"
{
  constants {
    items(language: S_CHINESE) {
      id
      language {
        displayName
      }
    }
    heroes(language: S_CHINESE) {
      id
      language {
        displayName
      }
    }
  }
}"#@
}

/// The request body of the metadata API's constant call.
#[derive(Clone, Debug, PartialEq)]
pub struct ConstantRequest {
    pub query: String,
}

impl core::default::Default for ConstantRequest {
    /// The request with the fixed, hardcoded query.
    fn default() -> (r: Self)
        ensures
            r.query@ == spec_constant_query(),
    {
        ConstantRequest {
            query: r#"
{
  constants {
    items(language: S_CHINESE) {
      id
      language {
        displayName
      }
    }
    heroes(language: S_CHINESE) {
      id
      language {
        displayName
      }
    }
  }
}"#.to_owned(),
        }
    }
}

/// The localized name carried with a constant entry; absent when the
/// entry has no display name in the requested language.
#[derive(Clone, Debug, PartialEq)]
pub struct Language {
    pub display_name: Option<String>,
}

/// One item entry of the constant response.
#[derive(Clone, Debug, PartialEq)]
pub struct Item {
    pub id: i32,
    pub language: Language,
}

/// One hero entry of the constant response.
#[derive(Clone, Debug, PartialEq)]
pub struct Hero {
    pub id: i32,
    pub language: Language,
}

/// The constant tables of the response.
#[derive(Clone, Debug, PartialEq)]
pub struct Constant {
    pub items: Vec<Item>,
    pub heroes: Vec<Hero>,
}

/// The payload of the constant response.
#[derive(Clone, Debug, PartialEq)]
pub struct ConstantData {
    pub constants: Constant,
}

/// The constant response of the metadata API.
#[derive(Clone, Debug, PartialEq)]
pub struct ConstantResponse {
    pub data: ConstantData,
}

/// The display name of a constant entry; the sentinel when absent.
pub open spec fn spec_name_or_unknown(language: Language) -> Seq<char> {
    match language.display_name {
        Some(s) => s@,
        None => "Unknown"@,
    }
}

/// The id-to-name mapping of the item entries, later entries winning.
pub open spec fn spec_items_map(items: Seq<Item>) -> Map<i32, Seq<char>>
    decreases items.len(),
{
    if items.len() == 0 {
        Map::<i32, Seq<char>>::empty()
    } else {
        spec_items_map(items.drop_last()).insert(
            items.last().id,
            spec_name_or_unknown(items.last().language),
        )
    }
}

/// The id-to-name mapping of the hero entries, later entries winning.
pub open spec fn spec_heroes_map(heroes: Seq<Hero>) -> Map<i32, Seq<char>>
    decreases heroes.len(),
{
    if heroes.len() == 0 {
        Map::<i32, Seq<char>>::empty()
    } else {
        spec_heroes_map(heroes.drop_last()).insert(
            heroes.last().id,
            spec_name_or_unknown(heroes.last().language),
        )
    }
}

impl ConstantResponse {
    /// Splits the combined response into the item and hero id-to-name
    /// tables, defaulting an absent display name to the sentinel.
    pub fn spilt(self) -> (r: (HashMap<i32, String>, HashMap<i32, String>))
        ensures
            forall|id: i32| #[trigger]
                r.0@.contains_key(id) <==> spec_items_map(
                    self.data.constants.items@,
                ).contains_key(id),
            forall|id: i32| #[trigger]
                r.0@.contains_key(id) ==> r.0@[id]@ == spec_items_map(
                    self.data.constants.items@,
                )[id],
            forall|id: i32| #[trigger]
                r.1@.contains_key(id) <==> spec_heroes_map(
                    self.data.constants.heroes@,
                ).contains_key(id),
            forall|id: i32| #[trigger]
                r.1@.contains_key(id) ==> r.1@[id]@ == spec_heroes_map(
                    self.data.constants.heroes@,
                )[id],
    {
        let items_list = self.data.constants.items;
        let heroes_list = self.data.constants.heroes;

        let mut items: HashMap<i32, String> = HashMap::new();
        let n = items_list.len();
        let mut i: usize = 0;
        while i < n
            invariant
                i <= n,
                n == items_list@.len(),
                forall|id: i32| #[trigger]
                    items@.contains_key(id) <==> spec_items_map(
                        items_list@.subrange(0, i as int),
                    ).contains_key(id),
                forall|id: i32| #[trigger]
                    items@.contains_key(id) ==> items@[id]@ == spec_items_map(
                        items_list@.subrange(0, i as int),
                    )[id],
            decreases n - i,
        {
            let entry = &items_list[i];
            let name = match &entry.language.display_name {
                Some(s) => s.clone(),
                None => "Unknown".to_owned(),
            };
            items.insert(entry.id, name);
            i = i + 1;
            proof {
                assert(items_list@.subrange(0, i as int).drop_last() =~= items_list@.subrange(
                    0,
                    i as int - 1,
                ));
                assert(items_list@.subrange(0, i as int).last() == items_list@[i as int - 1]);
            }
        }
        proof {
            assert(items_list@.subrange(0, n as int) =~= items_list@);
        }

        let mut heroes: HashMap<i32, String> = HashMap::new();
        let m = heroes_list.len();
        let mut j: usize = 0;
        while j < m
            invariant
                j <= m,
                m == heroes_list@.len(),
                forall|id: i32| #[trigger]
                    heroes@.contains_key(id) <==> spec_heroes_map(
                        heroes_list@.subrange(0, j as int),
                    ).contains_key(id),
                forall|id: i32| #[trigger]
                    heroes@.contains_key(id) ==> heroes@[id]@ == spec_heroes_map(
                        heroes_list@.subrange(0, j as int),
                    )[id],
            decreases m - j,
        {
            let entry = &heroes_list[j];
            let name = match &entry.language.display_name {
                Some(s) => s.clone(),
                None => "Unknown".to_owned(),
            };
            heroes.insert(entry.id, name);
            j = j + 1;
            proof {
                assert(heroes_list@.subrange(0, j as int).drop_last() =~= heroes_list@.subrange(
                    0,
                    j as int - 1,
                ));
                assert(heroes_list@.subrange(0, j as int).last() == heroes_list@[j as int - 1]);
            }
        }
        proof {
            assert(heroes_list@.subrange(0, m as int) =~= heroes_list@);
        }

        (items, heroes)
    }
}

} // verus!
