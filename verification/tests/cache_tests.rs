use std::collections::HashMap;
use watchingir::cache::{table_from_json, table_to_json, GameConstant};
use watchingir::constant::{Constant, ConstantData, ConstantRequest, ConstantResponse, Hero, Item,
    Language};
use watchingir::courier::{constant_result, FetchOutcome};
use watchingir::error::{Endpoint, Error, ResponseShape};
use watchingir::mapper::{id2name, resolve_name};
use watchingir::storage::{emit_entries, parse_table};

fn table(pairs: &[(i32, &str)]) -> HashMap<i32, String> {
    pairs.iter().map(|(k, v)| (*k, v.to_string())).collect()
}

#[test]
fn resolve_name_is_total() {
    let map = table(&[(1, "Blink Dagger"), (2, "Unknown")]);
    assert_eq!(resolve_name(1, &map), "Blink Dagger");
    assert_eq!(resolve_name(2, &map), "Unknown");
    assert_eq!(resolve_name(3, &map), "Unknown");
    assert_eq!(resolve_name(-5, &map), "Unknown");
}

#[test]
fn resolve_name_round_trips_inserted_pairs() {
    let mut map = HashMap::new();
    for id in -3..40_i32 {
        map.insert(id, format!("name-{}", id));
    }
    for id in -3..40_i32 {
        assert_eq!(resolve_name(id, &map), format!("name-{}", id));
    }
}

#[test]
fn id2name_blanks_the_sentinel() {
    let map = table(&[(1, "Blink Dagger"), (2, "Unknown")]);
    assert_eq!(id2name(1, &map), "Blink Dagger");
    assert_eq!(id2name(2, &map), " ");
    assert_eq!(id2name(3, &map), " ");
}

#[test]
fn emitted_entries_parse_back_in_order() {
    let entries = vec![
        (1_i32, "Blink Dagger".to_string()),
        (-2, "a\"quoted\"name".to_string()),
        (0, "back\\slash".to_string()),
        (2147483647, "宝石".to_string()),
        (-2147483648, "".to_string()),
    ];
    let text = emit_entries(&entries);
    let parsed = parse_table(&text).expect("own emission parses");
    assert_eq!(parsed, entries);
}

#[test]
fn empty_table_round_trips() {
    let entries: Vec<(i32, String)> = Vec::new();
    let text = emit_entries(&entries);
    assert_eq!(text, "{}");
    assert_eq!(parse_table("{}"), Some(Vec::new()));
}

#[test]
fn malformed_tables_are_rejected() {
    assert!(parse_table("").is_none());
    assert!(parse_table("{").is_none());
    assert!(parse_table("{}x").is_none());
    assert!(parse_table("{\"1\":\"a\"").is_none());
    assert!(parse_table("{\"a\":\"b\"}").is_none());
    assert!(parse_table("{\"1\":\"a\",}").is_none());
    assert!(parse_table("{\"9999999999\":\"too big\"}").is_none());
    assert!(parse_table("{\"1\":\"bad\\escape\"}").is_none());
    assert!(parse_table("{\"1\":\"a\"}{}").is_none());
    assert!(parse_table("{\"-\":\"a\"}").is_none());
    assert!(parse_table("{\"1\" :\"a\"}").is_none());
    assert!(parse_table("{\"1\":\"unterminated}").is_none());
}

#[test]
fn persisted_table_loads_back_unchanged() {
    let map = table(&[(1, "a\"b"), (-7, "c\\d"), (50, "宝石"), (0, "")]);
    let text = table_to_json(&map);
    let loaded = table_from_json(&text).expect("own emission parses");
    assert_eq!(loaded, map);
    let text_again = table_to_json(&loaded);
    let loaded_again = table_from_json(&text_again).expect("second emission parses");
    assert_eq!(loaded_again, map);
}

#[test]
fn spilt_builds_both_tables_with_sentinel_default() {
    let response = ConstantResponse {
        data: ConstantData {
            constants: Constant {
                items: vec![
                    Item { id: 1, language: Language { display_name: Some("闪烁".to_string()) } },
                    Item { id: 2, language: Language { display_name: None } },
                ],
                heroes: vec![
                    Hero { id: 14, language: Language { display_name: Some("帕吉".to_string()) } },
                ],
            },
        },
    };
    let (items, heroes) = response.spilt();
    assert_eq!(items.len(), 2);
    assert_eq!(items.get(&1).map(String::as_str), Some("闪烁"));
    assert_eq!(items.get(&2).map(String::as_str), Some("Unknown"));
    assert_eq!(heroes.len(), 1);
    assert_eq!(heroes.get(&14).map(String::as_str), Some("帕吉"));
}

#[test]
fn spilt_lets_later_duplicate_ids_win() {
    let response = ConstantResponse {
        data: ConstantData {
            constants: Constant {
                items: vec![
                    Item { id: 1, language: Language { display_name: Some("old".to_string()) } },
                    Item { id: 1, language: Language { display_name: Some("new".to_string()) } },
                ],
                heroes: Vec::new(),
            },
        },
    };
    let (items, heroes) = response.spilt();
    assert_eq!(items.len(), 1);
    assert_eq!(items.get(&1).map(String::as_str), Some("new"));
    assert!(heroes.is_empty());
}

#[test]
fn cache_loads_from_texts_or_reports_nothing() {
    let items = table(&[(1, "a")]);
    let heroes = table(&[(2, "b")]);
    let items_text = table_to_json(&items);
    let heroes_text = table_to_json(&heroes);

    let cache = GameConstant::from_texts(&items_text, &heroes_text).expect("both parse");
    assert!(cache.is_loaded);
    assert_eq!(cache.items_map, items);
    assert_eq!(cache.heroes_map, heroes);

    assert!(GameConstant::from_texts("oops", &heroes_text).is_none());
    assert!(GameConstant::from_texts(&items_text, "").is_none());
}

#[test]
fn cache_persists_both_tables() {
    let mut cache = GameConstant::default();
    assert!(!cache.is_loaded);
    cache.load_tables(table(&[(1, "a")]), table(&[(2, "b")]));
    assert!(cache.is_loaded);
    let (items_text, heroes_text) = cache.to_json_texts();
    assert_eq!(table_from_json(&items_text), Some(table(&[(1, "a")])));
    assert_eq!(table_from_json(&heroes_text), Some(table(&[(2, "b")])));
}

#[test]
fn cache_summary_counts_the_tables() {
    let mut cache = GameConstant::default();
    assert_eq!(cache.summary(), "GameConstant { items: 0, heroes: 0, is_loaded: false }");
    cache.load_tables(table(&[(1, "a"), (2, "b")]), table(&[(3, "c")]));
    assert_eq!(cache.summary(), "GameConstant { items: 2, heroes: 1, is_loaded: true }");
}

#[test]
fn constant_fetch_failures_are_typed() {
    let ok = ConstantResponse {
        data: ConstantData { constants: Constant { items: Vec::new(), heroes: Vec::new() } },
    };
    assert_eq!(constant_result(FetchOutcome::Success(ok.clone())), Ok(ok));
    assert_eq!(
        constant_result(FetchOutcome::TransportFailure),
        Err(Error::RemoteCallFailed { endpoint: Endpoint::ReferenceData })
    );
    assert_eq!(
        constant_result(FetchOutcome::DecodeFailure),
        Err(Error::MalformedResponse { shape: ResponseShape::Constant })
    );
}

#[test]
fn query() {
    let request = ConstantRequest::default();
    println!("{}", request.query);
}

#[test]
fn constant_query_asks_for_both_tables() {
    let request = ConstantRequest::default();
    assert!(request.query.contains("constants"));
    assert!(request.query.contains("items(language: S_CHINESE)"));
    assert!(request.query.contains("heroes(language: S_CHINESE)"));
    assert!(request.query.contains("displayName"));
}
