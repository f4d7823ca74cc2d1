use telividb::sdk::error::Error;
use telividb::sdk::page::{advance, PAGE_SIZE};

#[test]
fn a_new_token_is_recorded_and_returned() {
    let mut seen = Vec::new();
    assert_eq!(advance(&mut seen, "t1".to_string()).unwrap(), "t1");
    assert_eq!(advance(&mut seen, "t2".to_string()).unwrap(), "t2");
    assert_eq!(seen, vec!["t1".to_string(), "t2".to_string()]);
}

#[test]
fn a_repeated_token_is_refused_rather_than_followed() {
    let mut seen = vec!["t1".to_string()];
    match advance(&mut seen, "t1".to_string()) {
        Err(Error::InvalidArgument { message }) => {
            assert_eq!(
                message,
                "the server repeated page token \"t1\", which would loop forever; \
                 its pagination is not advancing"
            );
        }
        other => panic!("expected InvalidArgument, got {other:?}"),
    }
    assert_eq!(seen.len(), 1, "a refused token is not recorded");
}

#[test]
fn the_page_size_is_two_hundred() {
    assert_eq!(PAGE_SIZE, 200);
}
