//! The span-field vocabulary.
//!
//! One name per concept, used everywhere. A field spelled two ways is two
//! fields, and nothing joins them back together.
use vstd::prelude::*;

verus! {

/// Collection the operation targets. **Label-safe** — bounded by how many
/// collections exist.
pub const COLLECTION: &'static str = "telividb.collection";

/// Named vector field, e.g. `text_bge`. **Label-safe** — bounded by schema.
pub const FIELD: &'static str = "telividb.field";

/// Index algorithm: `flat`, `hnsw`, `ivfpq`. **Label-safe.**
pub const INDEX_KIND: &'static str = "telividb.index.kind";

/// Distance metric: `dot`, `l2`, `cosine`. **Label-safe.**
pub const METRIC: &'static str = "telividb.metric";

/// Storage codec for the scan tier. **Label-safe.**
pub const CODEC: &'static str = "telividb.codec";

/// Filter strategy the planner chose: `prefilter`, `traversal`, `postfilter`.
/// **Label-safe** — and the field you need to explain a slow query.
pub const STRATEGY: &'static str = "telividb.query.strategy";

/// Why a result set was incomplete: `shard_timeout`, `vault_locked`.
/// **Label-safe.**
pub const INCOMPLETE_REASON: &'static str = "telividb.incomplete.reason";

// ---------------------------------------------------------------------------
// Span-only. Unbounded or high-cardinality — never a metric label.
// ---------------------------------------------------------------------------

/// Segment identifier. Grows without bound as segments are created.
pub const SEGMENT_ID: &'static str = "telividb.segment.id";

/// Manifest generation. Monotonic, so unbounded.
pub const GENERATION: &'static str = "telividb.manifest.generation";

/// Bulk job identifier.
pub const JOB_ID: &'static str = "telividb.job.id";

/// Principal performing the operation. **Emit only as an opaque id**, and treat
/// it as sensitive: a record of who searched for what is surveillance data.
pub const PRINCIPAL: &'static str = "telividb.principal";

/// Resource name of the target. Must pass through [`crate::telemetry::redact`] first.
pub const RESOURCE: &'static str = "telividb.resource";

// ---------------------------------------------------------------------------
// Measurements
// ---------------------------------------------------------------------------

/// Requested number of results.
pub const K: &'static str = "telividb.query.k";
/// Vectors actually scored while answering. Latency tracks this far more closely than it tracks `k`.
pub const CANDIDATES_VISITED: &'static str = "telividb.query.candidates_visited";
/// Results returned. Persistently below `k` means a filter is too selective for the chosen strategy.
pub const RESULTS_RETURNED: &'static str = "telividb.query.results_returned";
/// Row count of whatever the span covers.
pub const ROWS: &'static str = "telividb.rows";
/// Byte count of whatever the span covers.
pub const BYTES: &'static str = "telividb.bytes";
/// Record count, for WAL commits and bulk jobs.
pub const RECORDS: &'static str = "telividb.records";
/// Vector width. Safe to emit — shape discloses nothing.
pub const DIM: &'static str = "telividb.dim";
/// Wall-clock duration of whatever the record covers, in seconds.
///
/// Carried on the log record as well as in a histogram: the histogram is
/// what a dashboard reads, and this is what someone reading one operation's
/// log line needs in order to see why it was slow.
pub const DURATION_SECONDS: &'static str = "telividb.duration_seconds";
/// Byte offset within a file — where a torn WAL tail was found.
pub const OFFSET: &'static str = "telividb.offset";
/// Segment count of whatever the record covers.
pub const SEGMENTS: &'static str = "telividb.segments";
/// Rows written by a compaction.
pub const ROWS_WRITTEN: &'static str = "telividb.rows_written";
/// Rows dropped by a compaction because they were tombstoned.
pub const ROWS_RECLAIMED: &'static str = "telividb.rows_reclaimed";
/// Whether a search carried an authorization or attribute filter.
pub const FILTERED: &'static str = "telividb.query.filtered";
/// The query, **as a shape only** — never values. See [`crate::telemetry::redact`].
pub const QUERY: &'static str = "telividb.query.shape";
/// Edge count of a built graph.
pub const EDGES: &'static str = "telividb.index.edges";
/// Layer count of a built graph.
pub const LEVELS: &'static str = "telividb.index.levels";
/// Search breadth an HNSW query actually used.
pub const EF: &'static str = "telividb.query.ef";

/// Field names that are safe to use as **metric labels** because their value
/// space is bounded by schema or by a closed enum.
///
/// Anything absent from this list is span-only.
pub const LABEL_SAFE: [&'static str; 7] = [
    COLLECTION,
    FIELD,
    INDEX_KIND,
    METRIC,
    CODEC,
    STRATEGY,
    INCOMPLETE_REASON,
];

/// Field names that must never be emitted at all. Present so the rule is
/// testable, not merely documented.
pub const FORBIDDEN: [&'static str; 4] = [
    "telividb.query.vector",
    "telividb.payload",
    "telividb.vault.name",
    "telividb.content.text",
];

/// Model name, e.g. `nomic-embed-text-v1.5`. **Label-safe** — a deployment
/// registers a fixed, small set of models up front, so the value
/// space is bounded by configuration the way [`FIELD`]'s is by schema.
pub const MODEL: &'static str = "telividb.model";

/// Short digest of the GGUF a model was loaded from. Span-only: it is
/// high-cardinality across deployments and is what tells two builds of the
/// same model apart when recall changes and nothing else did.
pub const MODEL_FINGERPRINT: &'static str = "telividb.model.fingerprint";

/// How token states collapse to one vector: `mean` or `cls`. **Label-safe.**
pub const POOLING: &'static str = "telividb.model.pooling";

/// Which side of a search text was embedded for: `document` or `query`.
/// **Label-safe** — a closed set of two.
///
/// Worth separating: the two take different task prefixes, and a deployment
/// embedding everything as one of them is a recall bug that shows up here
/// before it shows up in a recall number.
pub const TASK: &'static str = "telividb.model.task";

/// How many queries one batched operation covered.
///
/// The denominator for [`SCORE_SECONDS`] and [`SELECT_SECONDS`], which are
/// reported for the batch as a whole: one matmul covers every query in it, so a
/// per-query figure would be an average the hardware never produced.
pub const QUERIES: &'static str = "telividb.queries";
/// Seconds spent on the device: query upload, the matmul, and the copy back.
///
/// On the log record beside [`SELECT_SECONDS`] rather than as a metric label,
/// per the rule that dimensions travel on the record: the pair is read together
/// when explaining one slow query, and a histogram alone cannot show that this
/// particular query spent its time on the wrong side.
pub const SCORE_SECONDS: &'static str = "telividb.score_seconds";
/// Seconds spent on the host applying the metric and selecting the best `k`.
pub const SELECT_SECONDS: &'static str = "telividb.select_seconds";

} // verus!
