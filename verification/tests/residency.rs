use telividb::telemetry::residency::{
    count, register, release, snapshot, total_bytes, Location, Registry, ResidentKind,
};

#[test]
fn a_registration_is_visible_and_released_on_drop() {
    let mut registry = Registry::new();
    let before = total_bytes(&registry, Location::Device);
    {
        let held = register(&mut registry, ResidentKind::VectorIndex, Location::Device, "media", 4096);
        assert_eq!(held.bytes(), 4096);
        assert_eq!(total_bytes(&registry, Location::Device), before + 4096);
        release(&mut registry, held);
    }
    assert_eq!(
        total_bytes(&registry, Location::Device),
        before,
        "dropping a handle must return its bytes"
    );
}

#[test]
fn host_and_device_are_accounted_separately() {
    let mut registry = Registry::new();
    let device_before = total_bytes(&registry, Location::Device);
    let host_before = total_bytes(&registry, Location::Host);

    let _store = register(&mut registry, ResidentKind::PointStore, Location::Host, "media", 1000);
    assert_eq!(total_bytes(&registry, Location::Device), device_before);
    assert_eq!(total_bytes(&registry, Location::Host), host_before + 1000);
}

#[test]
fn a_model_and_an_index_share_one_device_total() {
    let mut registry = Registry::new();
    let before = total_bytes(&registry, Location::Device);
    let _index = register(&mut registry, ResidentKind::VectorIndex, Location::Device, "media", 500);
    let _model = register(&mut registry, ResidentKind::Model, Location::Device, "nomic.gguf", 700);
    assert_eq!(total_bytes(&registry, Location::Device), before + 1200);
}

#[test]
fn entries_with_the_same_name_stay_distinct() {
    let mut registry = Registry::new();
    let before = total_bytes(&registry, Location::Device);
    let first = register(&mut registry, ResidentKind::VectorIndex, Location::Device, "text_bge", 100);
    let _second = register(&mut registry, ResidentKind::VectorIndex, Location::Device, "text_bge", 100);
    assert_eq!(total_bytes(&registry, Location::Device), before + 200);

    release(&mut registry, first);
    assert_eq!(
        total_bytes(&registry, Location::Device),
        before + 100,
        "dropping one of two same-named entries must leave the other"
    );
}

#[test]
fn a_snapshot_carries_the_real_name() {
    let mut registry = Registry::new();
    let _held = register(
        &mut registry,
        ResidentKind::GraphStore,
        Location::Host,
        "collections/finance",
        64,
    );
    let found = snapshot(&registry)
        .into_iter()
        .any(|e| e.name == "collections/finance" && e.kind == ResidentKind::GraphStore);
    assert!(found, "snapshot should expose the unredacted name");
}

#[test]
fn count_is_per_kind() {
    let mut registry = Registry::new();
    let before = count(&registry, ResidentKind::Model);
    let _a = register(&mut registry, ResidentKind::Model, Location::Device, "a.gguf", 1);
    let _b = register(&mut registry, ResidentKind::Model, Location::Device, "b.gguf", 1);
    assert_eq!(count(&registry, ResidentKind::Model), before + 2);
}

#[test]
fn every_kind_and_location_names_itself() {
    for kind in [
        ResidentKind::PointStore,
        ResidentKind::GraphStore,
        ResidentKind::VectorIndex,
        ResidentKind::Model,
    ] {
        assert!(!kind.as_str().is_empty());
    }
    assert_eq!(Location::Host.as_str(), "host");
    assert_eq!(Location::Device.as_str(), "device");
}

#[test]
fn kinds_have_the_documented_labels() {
    assert_eq!(ResidentKind::PointStore.as_str(), "point-store");
    assert_eq!(ResidentKind::GraphStore.as_str(), "graph-store");
    assert_eq!(ResidentKind::VectorIndex.as_str(), "vector-index");
    assert_eq!(ResidentKind::Model.as_str(), "model");
}

#[test]
fn releasing_keeps_the_other_entries_in_order() {
    let mut registry = Registry::new();
    let a = register(&mut registry, ResidentKind::Model, Location::Device, "a", 1);
    let _b = register(&mut registry, ResidentKind::PointStore, Location::Host, "b", 2);
    let _c = register(&mut registry, ResidentKind::Model, Location::Device, "c", 3);
    assert_eq!(registry.next_id(), 3);
    release(&mut registry, a);
    let names: Vec<String> = snapshot(&registry).into_iter().map(|e| e.name).collect();
    assert_eq!(names, vec!["b".to_string(), "c".to_string()]);
    assert_eq!(count(&registry, ResidentKind::Model), 1);
    assert_eq!(total_bytes(&registry, Location::Device), 3);
    assert_eq!(total_bytes(&registry, Location::Host), 2);
    assert_eq!(registry.next_id(), 3);
}

#[test]
fn an_entry_reads_back_what_was_registered() {
    let mut registry = Registry::new();
    let _held = register(&mut registry, ResidentKind::Model, Location::Device, "nomic.gguf", 700);
    let entries = snapshot(&registry);
    assert_eq!(entries.len(), 1);
    let entry = &entries[0];
    assert_eq!(entry.kind(), ResidentKind::Model);
    assert_eq!(entry.location(), Location::Device);
    assert_eq!(entry.name(), "nomic.gguf");
    assert_eq!(entry.bytes(), 700);
}
