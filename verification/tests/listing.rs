use telividb::sdk::error::Error;
use telividb::sdk::page::{Listing, Step};

#[test]
fn pages_are_followed_until_the_token_is_empty() {
    let mut listing: Listing<u32> = Listing::new();
    assert_eq!(listing.page_token(), "");
    assert_eq!(listing.receive(vec![1, 2], "p2".to_string()).unwrap(), Step::Fetch("p2".to_string()));
    assert_eq!(listing.page_token(), "p2");
    assert_eq!(listing.receive(vec![3], "p3".to_string()).unwrap(), Step::Fetch("p3".to_string()));
    assert_eq!(listing.receive(Vec::new(), String::new()).unwrap(), Step::Done);
    assert_eq!(listing.into_rows(), vec![1, 2, 3]);
}

#[test]
fn a_single_page_listing_is_done_at_once() {
    let mut listing: Listing<&str> = Listing::new();
    assert_eq!(listing.receive(vec!["a"], String::new()).unwrap(), Step::Done);
    assert_eq!(listing.into_rows(), vec!["a"]);
}

#[test]
fn a_listing_refuses_a_token_it_has_already_followed() {
    let mut listing: Listing<u32> = Listing::new();
    assert_eq!(listing.receive(vec![1], "p2".to_string()).unwrap(), Step::Fetch("p2".to_string()));
    assert_eq!(listing.receive(vec![2], "p3".to_string()).unwrap(), Step::Fetch("p3".to_string()));
    match listing.receive(vec![3], "p2".to_string()) {
        Err(Error::InvalidArgument { message }) => assert_eq!(
            message,
            "the server repeated page token \"p2\", which would loop forever; \
             its pagination is not advancing"
        ),
        other => panic!("expected InvalidArgument, got {other:?}"),
    }
    assert_eq!(listing.into_rows(), vec![1, 2, 3]);
}

#[test]
fn a_token_repeated_at_once_is_refused() {
    let mut listing: Listing<u32> = Listing::new();
    assert!(listing.receive(Vec::new(), "same".to_string()).is_ok());
    assert!(matches!(
        listing.receive(Vec::new(), "same".to_string()),
        Err(Error::InvalidArgument { .. })
    ));
}
