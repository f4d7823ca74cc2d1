use telividb::compute::backend::Backend;
use telividb::compute::corpus::{AllocationOutcome, Corpus};
use telividb::compute::error::Error;

fn corpus_data(rows: usize, dim: usize) -> Vec<f32> {
    (0..rows * dim)
        .map(|i| ((i % 17) as f32) * 0.1 - 0.8)
        .collect()
}

#[test]
fn an_empty_corpus_is_refused_at_upload() {
    let backend = Backend::best().expect("backend");
    assert!(Corpus::<f32>::upload(backend, &[], 0, 8).is_err());
}

#[test]
fn a_corpus_reports_what_it_holds() {
    let data = corpus_data(100, 32);
    let backend = Backend::best().expect("a backend is always available");
    let corpus = Corpus::upload(backend, &data, 100, 32).expect("upload");
    assert_eq!(corpus.rows(), 100);
    assert_eq!(corpus.dim(), 32);
    assert_eq!(corpus.bytes(), 100 * 32 * 4);
}

#[test]
fn a_wrong_length_is_refused_with_both_counts() {
    let backend = Backend::best().unwrap();
    let err = Corpus::upload(backend, &[1.0f32, 2.0, 3.0], 2, 2).err().unwrap();
    assert_eq!(err.to_string(), "shape mismatch: expected 4 floats, got 3");
}

#[test]
fn an_empty_extent_is_named_in_the_error() {
    let backend = Backend::best().unwrap();
    let err = Corpus::<f32>::upload(backend, &[], 0, 8).err().unwrap();
    match &err {
        Error::ShapeMismatch { expected, actual } => {
            assert_eq!(expected, "a non-empty corpus");
            assert_eq!(actual, "0 x 8");
        }
        other => panic!("unexpected {other:?}"),
    }
}

#[test]
fn staging_in_chunks_fills_the_corpus() {
    let backend = Backend::best().unwrap();
    let mut staged = Corpus::<u32>::staged(backend, 3, 2).unwrap();
    staged.push_rows(&[1, 2]).unwrap();
    staged.push_rows(&[3, 4, 5, 6]).unwrap();
    let corpus = staged.finish().expect("every row was written");
    assert_eq!(corpus.rows(), 3);
    assert_eq!(corpus.dim(), 2);
    assert_eq!(corpus.bytes(), 24);
}

#[test]
fn a_partial_corpus_is_refused() {
    let backend = Backend::best().unwrap();
    let mut staged = Corpus::<u32>::staged(backend, 3, 2).unwrap();
    staged.push_rows(&[1, 2]).unwrap();
    let err = staged.finish().err().unwrap();
    assert_eq!(err.to_string(), "shape mismatch: expected 3 rows written, got 1");
}

#[test]
fn a_ragged_chunk_is_refused_and_changes_nothing() {
    let backend = Backend::best().unwrap();
    let mut staged = Corpus::<u32>::staged(backend, 2, 2).unwrap();
    let err = staged.push_rows(&[1, 2, 3]).err().unwrap();
    assert_eq!(err.to_string(), "shape mismatch: expected a multiple of 2 floats, got 3");
    staged.push_rows(&[1, 2, 3, 4]).unwrap();
    assert!(staged.finish().is_ok());
}

#[test]
fn too_many_rows_are_refused() {
    let backend = Backend::best().unwrap();
    let mut staged = Corpus::<u32>::staged(backend, 2, 1).unwrap();
    staged.push_rows(&[1]).unwrap();
    let err = staged.push_rows(&[2, 3]).err().unwrap();
    assert_eq!(err.to_string(), "shape mismatch: expected at most 2 rows, got 3");
    assert_eq!(staged.backend().device().kind().as_str(), "cpu");
}

#[test]
fn errors_render_their_details() {
    assert_eq!(
        Error::Allocation { bytes: 4096 }.to_string(),
        "could not allocate 4096 bytes on the device"
    );
    assert_eq!(
        Error::Runtime { op: "mul_mat", reason: "refused".to_string() }.to_string(),
        "mul_mat failed: refused"
    );
}

#[test]
fn a_refused_allocation_is_reported_with_its_size() {
    let backend = || Backend::best().unwrap();
    let data = corpus_data(3, 4);
    assert!(matches!(
        Corpus::upload_with(backend(), &data, 3, 4, AllocationOutcome::ContextRefused),
        Err(Error::Allocation { bytes: 0 })
    ));
    assert!(matches!(
        Corpus::upload_with(backend(), &data, 3, 4, AllocationOutcome::StorageRefused),
        Err(Error::Allocation { bytes: 48 })
    ));
    let corpus = Corpus::upload_with(backend(), &data, 3, 4, AllocationOutcome::Granted).unwrap();
    assert_eq!((corpus.rows(), corpus.dim(), corpus.bytes()), (3, 4, 48));
    assert!(matches!(
        Corpus::<f32>::staged_with(backend(), 0, 4, AllocationOutcome::StorageRefused),
        Err(Error::ShapeMismatch { .. })
    ));
}
