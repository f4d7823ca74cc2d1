//! The client SDK's own logic: resource names, pagination, request
//! payloads and the plain types a caller works with.
pub mod client;
pub mod collection;
pub mod error;
pub mod names;
pub mod new_collection;
pub mod page;
pub mod system;
pub mod tenancy_types;
pub mod wire;
