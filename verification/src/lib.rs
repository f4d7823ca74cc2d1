//! telividb: the verified core of a vector and graph database client and
//! runtime — resource names, redaction, residency accounting, device
//! selection and corpus staging.
pub mod compute;
pub mod rpc;
pub mod sdk;
pub mod telemetry;
pub mod text;
