//! The messages the SDK exchanges with a server, as plain values.
//!
//! Field for field what the gRPC schema declares for the parts this SDK
//! reads or writes; enumerations travel as their `i32` wire numbers, with
//! zero reserved for "unspecified" as the schema's convention requires.
use vstd::prelude::*;

verus! {

/// `Metric::METRIC_UNSPECIFIED`.
pub const METRIC_UNSPECIFIED: i32 = 0;
/// `Metric::METRIC_COSINE`.
pub const METRIC_COSINE: i32 = 1;
/// `Metric::METRIC_DOT`.
pub const METRIC_DOT: i32 = 2;
/// `Metric::METRIC_L2`.
pub const METRIC_L2: i32 = 3;
/// `IndexKind::INDEX_KIND_UNSPECIFIED`.
pub const INDEX_KIND_UNSPECIFIED: i32 = 0;
/// `Codec::CODEC_UNSPECIFIED`.
pub const CODEC_UNSPECIFIED: i32 = 0;

/// `Protection::PROTECTION_UNSPECIFIED`, never valid in a response.
pub const PROTECTION_UNSPECIFIED: i32 = 0;
/// `Protection::PROTECTION_NONE`.
pub const PROTECTION_NONE: i32 = 1;
/// `Protection::PROTECTION_PRIVATE`.
pub const PROTECTION_PRIVATE: i32 = 2;
/// `Protection::PROTECTION_VAULT`.
pub const PROTECTION_VAULT: i32 = 3;
/// `Protection::PROTECTION_SEALED`.
pub const PROTECTION_SEALED: i32 = 4;

/// `BudgetSource::BUDGET_SOURCE_UNSPECIFIED`.
pub const BUDGET_SOURCE_UNSPECIFIED: i32 = 0;
/// `BudgetSource::BUDGET_SOURCE_MEASURED`.
pub const BUDGET_SOURCE_MEASURED: i32 = 1;
/// `BudgetSource::BUDGET_SOURCE_ESTIMATED`.
pub const BUDGET_SOURCE_ESTIMATED: i32 = 2;
/// `BudgetSource::BUDGET_SOURCE_CONFIGURED`.
pub const BUDGET_SOURCE_CONFIGURED: i32 = 3;

/// A point in time: seconds and nanoseconds since the Unix epoch.
#[derive(Debug, Clone, Copy, PartialEq, Eq, Structural)]
pub struct Timestamp {
    /// Whole seconds.
    pub seconds: i64,
    /// Nanoseconds within the second.
    pub nanos: i32,
}

/// One vector field of a collection, as declared on the wire.
#[derive(Debug, Clone)]
pub struct VectorField {
    /// The field's name.
    pub field_id: String,
    /// Vector width.
    pub dimensions: i32,
    /// `Metric` wire number.
    pub metric: i32,
    /// `IndexKind` wire number.
    pub index_kind: i32,
    /// `Codec` wire number.
    pub codec: i32,
    /// Model the field's vectors come from; empty for caller-supplied ones.
    pub model: String,
    /// Encoder for query text; empty when the field has none.
    pub query_encoder: String,
    /// Permission scope guarding raw vector reads.
    pub permission: String,
}

/// A vector as the wire carries it: its values, already encoded.
#[derive(Debug, Clone)]
pub struct Vector {
    /// The encoded values.
    pub data: Vec<u8>,
}

impl View for Vector {
    type V = Seq<u8>;

    open spec fn view(&self) -> Seq<u8> {
        self.data@
    }
}

impl Vector {
    /// A copy holding the same bytes.
    pub fn duplicate(&self) -> (copy: Vector)
        ensures
            copy@ == self@,
    {
        let mut data: Vec<u8> = Vec::new();
        let mut i: usize = 0;
        while i < self.data.len()
            invariant
                i <= self.data@.len(),
                data@ == self.data@.subrange(0, i as int),
            decreases self.data@.len() - i,
        {
            data.push(self.data[i]);
            i = i + 1;
            assert(data@ =~= self.data@.subrange(0, i as int));
        }
        assert(data@ =~= self.data@);
        Vector { data }
    }
}

/// One named vector of a point.
#[derive(Debug, Clone)]
pub struct NamedVector {
    /// The vector field it belongs to.
    pub field_id: String,
    /// Its values; absent when the field holds none for this point.
    pub vector: Option<Vector>,
}

/// Where a point's content is found; here, only the text carried inline.
#[derive(Debug, Clone)]
pub struct ContentRef {
    /// The content itself, carried in the point.
    pub inline_text: String,
}

/// A point, as sent in a create request.
#[derive(Debug, Clone)]
pub struct Point {
    /// Its named vectors.
    pub vectors: Vec<NamedVector>,
    /// Its content, when it has any.
    pub content_ref: Option<ContentRef>,
}

/// A request to create one point.
#[derive(Debug, Clone)]
pub struct CreatePointRequest {
    /// The collection it goes in; empty inside a batch, whose own parent
    /// is authoritative.
    pub parent: String,
    /// The id the caller chose.
    pub point_id: String,
    /// The point.
    pub point: Option<Point>,
}

/// A request to create many points in one collection.
#[derive(Debug, Clone)]
pub struct BatchCreatePointsRequest {
    /// The collection every point goes in, `collections/{collection}`.
    pub parent: String,
    /// One request per point, in the caller's order.
    pub requests: Vec<CreatePointRequest>,
}

/// A collection, as sent in a create request.
#[derive(Debug, Clone)]
pub struct Collection {
    /// Resource name, `collections/{collection}`.
    pub name: String,
    /// Compiled descriptor set whose digest is the schema's identity.
    pub descriptor_set: Vec<u8>,
    /// Its vector fields.
    pub vector_fields: Vec<VectorField>,
}

/// The compute environment a running engine reports.
#[derive(Debug, Clone)]
pub struct System {
    /// Selected backend.
    pub backend: String,
    /// Device description.
    pub device: String,
    /// Device memory ceiling, zero when none is reported.
    pub budget_limit_bytes: i64,
    /// Device memory currently held.
    pub budget_used_bytes: i64,
    /// `BudgetSource` wire number.
    pub budget_source: i32,
    /// Engine version.
    pub version: String,
}

/// An organization, as the server reports it.
#[derive(Debug, Clone)]
pub struct Organization {
    /// Resource name.
    pub name: String,
    /// Display name.
    pub display_name: String,
    /// Projects it holds.
    pub project_count: i32,
    /// Spaces it holds.
    pub space_count: i32,
    /// When it was soft-deleted, if it was.
    pub delete_time: Option<Timestamp>,
}

/// A project, as the server reports it.
#[derive(Debug, Clone)]
pub struct Project {
    /// Resource name.
    pub name: String,
    /// Display name.
    pub display_name: String,
    /// When it was soft-deleted, if it was.
    pub delete_time: Option<Timestamp>,
}

/// A space, as the server reports it.
#[derive(Debug, Clone)]
pub struct Space {
    /// Resource name.
    pub name: String,
    /// Display name.
    pub display_name: String,
    /// Projects it serves, by resource name.
    pub projects: Vec<String>,
    /// `Protection` wire number.
    pub protection: i32,
    /// Whether its key is currently unavailable.
    pub locked: bool,
    /// When it was soft-deleted, if it was.
    pub delete_time: Option<Timestamp>,
}

} // verus!
