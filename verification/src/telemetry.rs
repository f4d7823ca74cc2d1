//! Telemetry vocabulary: what may be emitted, how names are redacted, and
//! what is resident in the process.
pub mod fields;
pub mod redact;
pub mod residency;
