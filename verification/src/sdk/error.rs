//! What can go wrong, in terms a caller can act on.
//!
//! Modelled on what the caller would *do* about a failure rather than on
//! gRPC's status codes: a bare status forces every caller to match on
//! integers and to know which code the server chose for which condition.
use tonic::transport::Error as TransportFailure;
use vstd::prelude::*;

verus! {

/// The status a gRPC call failed with.
#[verifier::external_type_specification]
#[verifier::external_body]
pub struct ExStatus(tonic::Status);

/// A gRPC status code.
#[verifier::external_type_specification]
#[verifier::external_body]
pub struct ExCode(tonic::Code);

/// A failure of the HTTP/2 transport under a gRPC channel.
#[verifier::external_type_specification]
#[verifier::external_body]
pub struct ExTransportError(TransportFailure);

/// A failure talking to a telividb server.
#[derive(Debug)]
pub enum Error {
    /// The server could not be reached, or the connection was lost.
    Transport(TransportFailure),
    /// The named resource does not exist. Routinely expected: a `get` on
    /// something not yet created is a normal outcome.
    NotFound {
        /// Resource name that was not found.
        name: String,
    },
    /// A resource with this name already exists.
    AlreadyExists {
        /// Resource name that was already taken.
        name: String,
    },
    /// The request was rejected as invalid, with the server's own message.
    InvalidArgument {
        /// What the server said was wrong.
        message: String,
    },
    /// The caller is not permitted to do this — distinguishable from an
    /// empty result on purpose.
    PermissionDenied {
        /// The server's explanation, as far as it is willing to give one.
        message: String,
    },
    /// Anything else the server reported.
    Server {
        /// gRPC status code, kept so an unmatched condition is still legible.
        code: tonic::Code,
        /// The server's message.
        message: String,
    },
    /// A response did not carry what its contract promises.
    Malformed {
        /// Which part of the response could not be read.
        what: String,
    },
}

/// gRPC's number for `NOT_FOUND`.
pub const NOT_FOUND: i32 = 5;
/// gRPC's number for `ALREADY_EXISTS`.
pub const ALREADY_EXISTS: i32 = 6;
/// gRPC's number for `INVALID_ARGUMENT`.
pub const INVALID_ARGUMENT: i32 = 3;
/// gRPC's number for `PERMISSION_DENIED`.
pub const PERMISSION_DENIED: i32 = 7;
/// gRPC's number for `UNAUTHENTICATED`.
pub const UNAUTHENTICATED: i32 = 16;

/// The code a status carries: the field that `tonic::Status::code` reads.
pub uninterp spec fn status_code_of(status: tonic::Status) -> tonic::Code;

/// The gRPC number of a code: its `i32` discriminant, 0 through 16.
pub uninterp spec fn code_number_of(code: tonic::Code) -> i32;

/// The text a status carries: the field that `tonic::Status::message` reads.
pub uninterp spec fn status_message_of(status: tonic::Status) -> Seq<char>;

/// The code a `tonic::Status` carries, via `Status::code`.
///
/// The contract claims that the code is the one the status holds, which
/// `Status::code` reads from a field.
#[verifier::external_body]
fn status_code(status: &tonic::Status) -> (code: tonic::Code)
    ensures
        code == status_code_of(*status),
{
    status.code()
}

/// The gRPC number of a `tonic::Code`, its `i32` discriminant.
///
/// tonic declares one variant per gRPC code, numbered 0 through 16; the
/// contract claims that the number is the code's own, in that range.
#[verifier::external_body]
fn code_number(code: &tonic::Code) -> (n: i32)
    ensures
        n == code_number_of(*code),
        0 <= n <= 16,
{
    i32::from(*code)
}

/// The message a `tonic::Status` carries, via `Status::message`, owned.
///
/// The contract claims that the text is the one the status holds, which
/// `Status::message` reads from a field.
#[verifier::external_body]
fn status_message(status: &tonic::Status) -> (message: String)
    ensures
        message@ == status_message_of(*status),
{
    status.message().to_owned()
}

/// Whether `error` is what a status with gRPC code `number`, code `code`
/// and text `message` is reported as.
///
/// `UNAUTHENTICATED` is reported as a permission denial, and everything
/// without a variant of its own as a server error that keeps its code.
pub open spec fn reports(error: Error, number: i32, code: tonic::Code, message: Seq<char>) -> bool {
    &&& number == NOT_FOUND ==> (error matches Error::NotFound { name } && name@ == message)
    &&& number == ALREADY_EXISTS ==> (error matches Error::AlreadyExists { name } && name@
        == message)
    &&& number == INVALID_ARGUMENT ==> (error matches Error::InvalidArgument { message: m }
        && m@ == message)
    &&& (number == PERMISSION_DENIED || number == UNAUTHENTICATED) ==> (
    error matches Error::PermissionDenied { message: m } && m@ == message)
    &&& !(number == NOT_FOUND || number == ALREADY_EXISTS || number == INVALID_ARGUMENT
        || number == PERMISSION_DENIED || number == UNAUTHENTICATED) ==> (
    error matches Error::Server { code: c, message: m } && m@ == message && c == code)
}

impl Error {
    /// Sort a status into the variants above, keeping the server's message.
    pub fn from_status(status: tonic::Status) -> (error: Error)
        ensures
            reports(
                error,
                code_number_of(status_code_of(status)),
                status_code_of(status),
                status_message_of(status),
            ),
    {
        let code = status_code(&status);
        let number = code_number(&code);
        let message = status_message(&status);
        Self::classify(number, code, message)
    }

    /// Sort a status, given as its gRPC code `number`, the `code` itself and
    /// its `message`, into the variant a caller acts on.
    ///
    /// `UNAUTHENTICATED` is reported as a permission denial, and everything
    /// without a variant of its own as a server error that keeps its code.
    pub fn classify(number: i32, code: tonic::Code, message: String) -> (error: Error)
        ensures
            reports(error, number, code, message@),
    {
        if number == NOT_FOUND {
            Error::NotFound { name: message }
        } else if number == ALREADY_EXISTS {
            Error::AlreadyExists { name: message }
        } else if number == INVALID_ARGUMENT {
            Error::InvalidArgument { message }
        } else if number == PERMISSION_DENIED || number == UNAUTHENTICATED {
            Error::PermissionDenied { message }
        } else {
            Error::Server { code, message }
        }
    }
}

} // verus!
