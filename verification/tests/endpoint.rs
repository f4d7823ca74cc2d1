use telividb::sdk::client::check_endpoint;
use telividb::sdk::error::Error;

#[test]
fn an_endpoint_with_a_scheme_is_accepted_unchanged() {
    assert_eq!(
        check_endpoint("http://127.0.0.1:7700".to_string()).unwrap(),
        "http://127.0.0.1:7700"
    );
    assert_eq!(check_endpoint("://".to_string()).unwrap(), "://");
}

#[test]
fn an_endpoint_without_a_scheme_is_refused_with_a_useful_message() {
    match check_endpoint("127.0.0.1:7700".to_string()) {
        Err(Error::InvalidArgument { message }) => assert_eq!(
            message,
            "endpoint \"127.0.0.1:7700\" has no scheme; it needs one, e.g. http://127.0.0.1:7700"
        ),
        other => panic!("expected InvalidArgument, got {other:?}"),
    }
    assert!(check_endpoint(String::new()).is_err());
    assert!(check_endpoint("http:/x".to_string()).is_err());
}
