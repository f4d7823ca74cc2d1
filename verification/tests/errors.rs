use telividb::sdk::error::Error;

fn status(code: tonic::Code, message: &str) -> Error {
    Error::from_status(tonic::Status::new(code, message))
}

#[test]
fn not_found_keeps_the_name() {
    match status(tonic::Code::NotFound, "collections/x") {
        Error::NotFound { name } => assert_eq!(name, "collections/x"),
        other => panic!("{other:?}"),
    }
}

#[test]
fn already_exists_keeps_the_name() {
    assert!(matches!(
        status(tonic::Code::AlreadyExists, "collections/x"),
        Error::AlreadyExists { name } if name == "collections/x"
    ));
}

#[test]
fn invalid_argument_keeps_the_message() {
    assert!(matches!(
        status(tonic::Code::InvalidArgument, "bad field"),
        Error::InvalidArgument { message } if message == "bad field"
    ));
}

#[test]
fn unauthenticated_is_a_denial_like_permission_denied() {
    assert!(matches!(
        status(tonic::Code::PermissionDenied, "no"),
        Error::PermissionDenied { message } if message == "no"
    ));
    assert!(matches!(
        status(tonic::Code::Unauthenticated, "who?"),
        Error::PermissionDenied { message } if message == "who?"
    ));
}

#[test]
fn anything_else_is_a_server_error_that_keeps_its_code() {
    match status(tonic::Code::Unavailable, "down") {
        Error::Server { code, message } => {
            assert_eq!(code, tonic::Code::Unavailable);
            assert_eq!(message, "down");
        }
        other => panic!("{other:?}"),
    }
    match status(tonic::Code::Ok, "") {
        Error::Server { code, .. } => assert_eq!(code, tonic::Code::Ok),
        other => panic!("{other:?}"),
    }
}
