use telividb::compute::error::Error;
use telividb::compute::weights::WeightIndex;

#[test]
fn a_tensor_is_found_by_its_name() {
    let mut index: WeightIndex<u32> = WeightIndex::new();
    assert!(index.is_empty());
    index.insert("token_embd.weight".to_string(), 7);
    index.insert("blk.0.attn_q.weight".to_string(), 9);
    assert_eq!(index.len(), 2);
    assert!(!index.is_empty());
    assert_eq!(index.tensor("token_embd.weight"), Some(&7));
    assert_eq!(index.weight("blk.0.attn_q.weight").unwrap(), &9);
    assert_eq!(index.tensor("output.weight"), None);
}

#[test]
fn a_name_given_twice_keeps_the_later_tensor() {
    let mut index: WeightIndex<u32> = WeightIndex::new();
    index.insert("a".to_string(), 1);
    index.insert("a".to_string(), 2);
    assert_eq!(index.len(), 1);
    assert_eq!(index.tensor("a"), Some(&2));
}

#[test]
fn a_missing_tensor_is_named_in_the_error() {
    let index: WeightIndex<u32> = WeightIndex::new();
    match index.weight("token_embd.weight") {
        Err(Error::Runtime { op, reason }) => {
            assert_eq!(op, "weight");
            assert_eq!(reason, "the model carries no tensor named \"token_embd.weight\"");
        }
        other => panic!("expected Runtime, got {other:?}"),
    }
}
