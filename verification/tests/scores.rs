use telividb::compute::backend::Backend;
use telividb::compute::corpus::Corpus;
use telividb::compute::device::DeviceKind;
use telividb::compute::error::Error;
use telividb::compute::input::check_input;
use telividb::compute::score::Scores;

#[test]
fn each_query_gets_its_own_row() {
    let scores = Scores::new(vec![1, 2, 3, 4, 5, 6], 3, 2);
    assert_eq!(scores.queries(), 3);
    assert_eq!(scores.rows(), 2);
    assert_eq!(scores.row(0), Some(&[1, 2][..]));
    assert_eq!(scores.row(2), Some(&[5, 6][..]));
    assert!(scores.row(3).is_none(), "there is no fourth query");
    assert_eq!(scores.as_slice(), &[1, 2, 3, 4, 5, 6]);
}

#[test]
fn empty_scores_keep_their_query_count() {
    let scores: Scores<f32> = Scores::empty(4);
    assert_eq!(scores.queries(), 4);
    assert_eq!(scores.rows(), 0);
    assert!(scores.as_slice().is_empty());
    assert_eq!(scores.row(1), Some(&[][..]));
}

#[test]
fn a_batch_is_checked_before_it_reaches_the_device() {
    let backend = Backend::of(DeviceKind::Cpu).unwrap();
    let corpus = Corpus::upload(backend, &[1.0f32, 0.0, 0.0, 1.0, 1.0, 1.0], 3, 2).unwrap();

    let empty = corpus.check_batch(&[], 0).unwrap().expect("an empty batch needs no device");
    assert_eq!(empty.queries(), 0);
    assert_eq!(empty.rows(), 3);
    assert!(empty.as_slice().is_empty());

    match corpus.check_batch(&[1.0, 0.0, 1.0], 2) {
        Err(Error::ShapeMismatch { expected, actual }) => {
            assert_eq!(expected, "4 floats");
            assert_eq!(actual, "3");
        }
        other => panic!("expected ShapeMismatch, got {other:?}"),
    }
    assert!(corpus.check_batch(&[1.0, 0.0, 0.0, 1.0], 2).unwrap().is_none());
}

#[test]
fn an_input_must_fill_its_tensor_exactly() {
    assert!(check_input(&[1i32, 2, 3, 4, 5, 6], [3, 2]).is_ok());
    match check_input(&[1i32, 2, 3], [2, 2]) {
        Err(Error::ShapeMismatch { expected, actual }) => {
            assert_eq!(expected, "4 elements");
            assert_eq!(actual, "3");
        }
        other => panic!("expected ShapeMismatch, got {other:?}"),
    }
}
