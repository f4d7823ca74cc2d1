use telividb::sdk::collection::batch_create_request;
use telividb::sdk::names::created_ids;
use telividb::sdk::wire::Vector;

fn vector(data: &[u8]) -> Vector {
    Vector { data: data.to_vec() }
}

#[test]
fn an_empty_batch_asks_for_nothing() {
    assert!(batch_create_request("docs", "text", &Vec::new()).is_none());
}

#[test]
fn a_batch_names_its_collection_once_and_each_point_by_id() {
    let entries = vec![
        ("a".to_string(), vector(&[1, 2, 3, 4]), "the cat sat".to_string()),
        ("b".to_string(), vector(&[5, 6, 7, 8]), String::new()),
    ];
    let request = batch_create_request("docs", "text", &entries).expect("a non-empty batch");
    assert_eq!(request.parent, "collections/docs");
    assert_eq!(request.requests.len(), 2);

    let first = &request.requests[0];
    assert_eq!(first.parent, "", "an item's parent is left to the batch");
    assert_eq!(first.point_id, "a");
    let point = first.point.as_ref().unwrap();
    assert_eq!(point.vectors.len(), 1);
    assert_eq!(point.vectors[0].field_id, "text");
    assert_eq!(point.vectors[0].vector.as_ref().unwrap().data, vec![1, 2, 3, 4]);
    assert_eq!(point.content_ref.as_ref().unwrap().inline_text, "the cat sat");

    let second = &request.requests[1];
    assert_eq!(second.point_id, "b");
    let point = second.point.as_ref().unwrap();
    assert_eq!(point.vectors[0].vector.as_ref().unwrap().data, vec![5, 6, 7, 8]);
    assert!(point.content_ref.is_none(), "an empty text stores no content reference");
}

#[test]
fn the_created_names_come_back_as_ids() {
    let names = vec!["collections/docs/points/a".to_string(), "collections/docs/points/b".to_string()];
    assert_eq!(created_ids(&names), vec!["a".to_string(), "b".to_string()]);
}

#[test]
fn a_copied_vector_holds_the_same_bytes() {
    let original = vector(&[9, 8, 7]);
    assert_eq!(original.duplicate().data, vec![9, 8, 7]);
}
