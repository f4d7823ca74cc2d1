//! What a connection needs before any transport is involved.
use crate::sdk::error::Error;
use crate::sdk::page::{debug_quoted, debug_text};
use vstd::prelude::*;

verus! {

/// Whether `s` holds `://` somewhere.
pub open spec fn names_a_scheme(s: Seq<char>) -> bool {
    exists|i: int| 0 <= i && i + 3 <= s.len() && #[trigger] s[i] == ':' && s[i + 1] == '/' && s[i
        + 2] == '/'
}

/// What is reported for an endpoint without a scheme.
pub open spec fn missing_scheme_message(endpoint: Seq<char>) -> Seq<char> {
    "endpoint "@ + debug_text(endpoint) + " has no scheme; it needs one, e.g. http://127.0.0.1:7700"@
}

/// Accept an endpoint only when it names a scheme, e.g.
/// `http://127.0.0.1:7700`.
///
/// Checked before the transport sees it: a channel accepts a schemeless
/// string and fails much later, during connect, as a generic transport
/// error that says nothing about the missing scheme.
pub fn check_endpoint(endpoint: String) -> (checked: Result<String, Error>)
    ensures
        names_a_scheme(endpoint@) ==> (checked matches Ok(e) && e@ == endpoint@),
        !names_a_scheme(endpoint@) ==> (checked matches Err(Error::InvalidArgument { message })
            && message@ == missing_scheme_message(endpoint@)),
{
    let s = endpoint.as_str();
    let n = s.unicode_len();
    let mut i: usize = 0;
    while n >= 3 && i <= n - 3
        invariant
            n == endpoint@.len(),
            s@ == endpoint@,
            forall|j: int|
                0 <= j < i && j + 3 <= n ==> !(#[trigger] endpoint@[j] == ':' && endpoint@[j + 1]
                    == '/' && endpoint@[j + 2] == '/'),
        decreases n - i,
    {
        if s.get_char(i) == ':' && s.get_char(i + 1) == '/' && s.get_char(i + 2) == '/' {
            return Ok(endpoint);
        }
        i = i + 1;
    }
    let mut message = String::from_str("endpoint ");
    let quoted = debug_quoted(s);
    message.append(quoted.as_str());
    message.append(" has no scheme; it needs one, e.g. http://127.0.0.1:7700");
    Err(Error::InvalidArgument { message })
}

} // verus!
