use telividb::sdk::new_collection::{Metric, NewCollection};
use telividb::sdk::wire;

#[test]
fn a_text_field_is_cosine_at_the_given_width() {
    let spec = NewCollection::new("documents", vec![1, 2, 3]).text_field("text", 768);
    let payload = spec.to_wire();
    assert_eq!(payload.name, "collections/documents");
    assert_eq!(payload.descriptor_set, vec![1, 2, 3]);
    assert_eq!(payload.vector_fields.len(), 1);
    let field = &payload.vector_fields[0];
    assert_eq!(field.field_id, "text");
    assert_eq!(field.dimensions, 768);
    assert_eq!(field.metric, wire::METRIC_COSINE);
    assert_eq!(field.index_kind, wire::INDEX_KIND_UNSPECIFIED);
    assert_eq!(field.codec, wire::CODEC_UNSPECIFIED);
    assert!(field.model.is_empty());
}

#[test]
fn fields_are_kept_in_declaration_order() {
    let payload = NewCollection::new("media", Vec::new())
        .field("image", 512, Metric::Dot)
        .field("audio", 128, Metric::L2)
        .to_wire();
    let names: Vec<&str> = payload.vector_fields.iter().map(|f| f.field_id.as_str()).collect();
    assert_eq!(names, vec!["image", "audio"]);
    assert_eq!(payload.vector_fields[0].metric, wire::METRIC_DOT);
    assert_eq!(payload.vector_fields[1].metric, wire::METRIC_L2);
    assert_eq!(payload.vector_fields[1].dimensions, 128);
}
