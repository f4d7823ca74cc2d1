//! The tensor runtime's host-side core: which devices a build can reach,
//! the errors a device reports, and the bookkeeping that keeps a device
//! corpus well shaped before anything is scored against it.
//!
//! The device scores; the host decides. Every check here runs before a
//! shape reaches the device runtime, because a shape the runtime asserts on
//! aborts the process rather than returning an error.
pub mod backend;
pub mod corpus;
pub mod device;
pub mod error;
pub mod input;
pub mod link;
pub mod score;
pub mod weights;
