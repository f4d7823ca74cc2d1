use telividb::sdk::names::created_ids;
use telividb::sdk::names::{collection, id_of, point};

#[test]
fn a_collection_is_named_under_collections() {
    assert_eq!(collection("documents"), "collections/documents");
}

#[test]
fn a_point_is_named_under_its_collection() {
    assert_eq!(point("docs", "doc-1"), "collections/docs/points/doc-1");
}

#[test]
fn the_id_is_the_last_segment() {
    assert_eq!(id_of("collections/docs/points/doc-1"), "doc-1");
    assert_eq!(id_of("collections/docs"), "docs");
}

#[test]
fn an_id_survives_a_round_trip_unchanged() {
    assert_eq!(id_of("doc-1"), "doc-1");
    assert_eq!(id_of(""), "");
    assert_eq!(id_of("trailing/"), "");
    assert_eq!(id_of(&point("c", "p")), "p");
    assert_eq!(id_of(id_of("a/b/c")), "c");
}

#[test]
fn names_are_built_from_unicode_ids_intact() {
    assert_eq!(collection("café"), "collections/café");
    assert_eq!(id_of("collections/café/points/naïve"), "naïve");
}

#[test]
fn created_points_are_reported_by_id_in_the_servers_order() {
    let names = vec![
        "collections/docs/points/b".to_string(),
        "collections/docs/points/a".to_string(),
        "bare".to_string(),
    ];
    assert_eq!(created_ids(&names), vec!["b".to_string(), "a".to_string(), "bare".to_string()]);
    assert!(created_ids(&Vec::new()).is_empty());
}
