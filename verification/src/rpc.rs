//! The gRPC methods of the wire services, and how a request path selects
//! one.
//!
//! A client sends each call to `/{service}/{method}`; a server reads that
//! path and dispatches to the method it names, answering `UNIMPLEMENTED` for
//! any other path. Both directions are here, so they cannot disagree.
pub mod conversations;
pub mod graph;
pub mod points;
