//! Declaring a collection before anything is written to it.
//!
//! Fields are declared rather than inferred from the first write: left to
//! inference, a field's width and model become whatever the first vector
//! happened to be.
use crate::sdk::names::{collection, collection_name};
use crate::sdk::wire;
use vstd::prelude::*;

verus! {

/// How similarity is measured in a vector field. Declared per field and
/// fixed for its life.
#[derive(Debug, Clone, Copy, PartialEq, Eq, Structural)]
pub enum Metric {
    /// Angular similarity. What text embedding models want; stored
    /// normalised and scored as a dot product.
    Cosine,
    /// Inner product. Higher is nearer.
    Dot,
    /// Squared Euclidean distance. Lower is nearer.
    L2,
}

/// The wire number of a metric.
pub open spec fn metric_number(metric: Metric) -> i32 {
    match metric {
        Metric::Cosine => wire::METRIC_COSINE,
        Metric::Dot => wire::METRIC_DOT,
        Metric::L2 => wire::METRIC_L2,
    }
}

impl Metric {
    /// The wire discriminant.
    fn to_wire(self) -> (value: i32)
        ensures
            value == metric_number(self),
    {
        match self {
            Metric::Cosine => wire::METRIC_COSINE,
            Metric::Dot => wire::METRIC_DOT,
            Metric::L2 => wire::METRIC_L2,
        }
    }
}

/// Each metric travels as the wire value of its own name, and no two
/// metrics share one.
pub proof fn metrics_travel_as_named(a: Metric, b: Metric)
    ensures
        metric_number(Metric::Cosine) == wire::METRIC_COSINE,
        metric_number(Metric::Dot) == wire::METRIC_DOT,
        metric_number(Metric::L2) == wire::METRIC_L2,
        metric_number(a) != wire::METRIC_UNSPECIFIED,
        metric_number(a) == metric_number(b) ==> a == b,
{
}

/// Whether `field` declares `name`, `dimensions` wide under `metric`, with
/// every other setting left for the server to choose.
pub open spec fn declares(
    field: wire::VectorField,
    name: Seq<char>,
    dimensions: usize,
    metric: Metric,
) -> bool {
    &&& field.field_id@ == name
    &&& field.dimensions == dimensions as i32
    &&& field.metric == metric_number(metric)
    &&& field.index_kind == wire::INDEX_KIND_UNSPECIFIED
    &&& field.codec == wire::CODEC_UNSPECIFIED
    &&& field.model@ == Seq::<char>::empty()
    &&& field.query_encoder@ == Seq::<char>::empty()
    &&& field.permission@ == Seq::<char>::empty()
}

/// A collection to create, and the vector fields its points will carry.
#[derive(Debug, Clone)]
pub struct NewCollection {
    id: String,
    descriptor_set: Vec<u8>,
    fields: Vec<wire::VectorField>,
}

/// A field-for-field copy of a vector field declaration.
fn copy_field(field: &wire::VectorField) -> (copy: wire::VectorField)
    ensures
        copy == *field,
{
    wire::VectorField {
        field_id: field.field_id.clone(),
        dimensions: field.dimensions,
        metric: field.metric,
        index_kind: field.index_kind,
        codec: field.codec,
        model: field.model.clone(),
        query_encoder: field.query_encoder.clone(),
        permission: field.permission.clone(),
    }
}

impl NewCollection {
    /// The collection's id.
    pub closed spec fn id(&self) -> Seq<char> {
        self.id@
    }

    /// The compiled descriptor set whose digest is the schema's identity.
    pub closed spec fn descriptor(&self) -> Seq<u8> {
        self.descriptor_set@
    }

    /// The vector fields declared so far, in order.
    pub closed spec fn fields(&self) -> Seq<wire::VectorField> {
        self.fields@
    }

    /// Begin declaring a collection.
    ///
    /// The descriptor set is required: the engine never parses `.proto`, it
    /// consumes compiled bytes, and their digest is the schema's identity.
    pub fn new(id: &str, descriptor_set: Vec<u8>) -> (draft: NewCollection)
        ensures
            draft.id() == id@,
            draft.descriptor() == descriptor_set@,
            draft.fields() == Seq::<wire::VectorField>::empty(),
    {
        let c = NewCollection { id: String::from_str(id), descriptor_set, fields: Vec::new() };
        assert(c.fields@ =~= Seq::<wire::VectorField>::empty());
        c
    }

    /// Declare a vector field.
    pub fn field(self, name: &str, dimensions: usize, metric: Metric) -> (next: NewCollection)
        ensures
            next.id() == self.id(),
            next.descriptor() == self.descriptor(),
            next.fields().len() == self.fields().len() + 1,
            next.fields().drop_last() == self.fields(),
            declares(next.fields().last(), name@, dimensions, metric),
    {
        let mut next = self;
        let declared = wire::VectorField {
            field_id: String::from_str(name),
            dimensions: dimensions as i32,
            metric: metric.to_wire(),
            index_kind: wire::INDEX_KIND_UNSPECIFIED,
            codec: wire::CODEC_UNSPECIFIED,
            model: String::new(),
            query_encoder: String::new(),
            permission: String::new(),
        };
        let ghost before = next.fields@;
        next.fields.push(declared);
        assert(next.fields@.drop_last() =~= before);
        next
    }

    /// Declare a text-embedding field: cosine, at the model's width.
    ///
    /// Cosine is the metric text embedding models are trained for; picking
    /// `L2` here would be a quiet accuracy loss rather than an error.
    pub fn text_field(self, name: &str, dimensions: usize) -> (next: NewCollection)
        ensures
            next.id() == self.id(),
            next.descriptor() == self.descriptor(),
            next.fields().len() == self.fields().len() + 1,
            next.fields().drop_last() == self.fields(),
            declares(next.fields().last(), name@, dimensions, Metric::Cosine),
    {
        self.field(name, dimensions, Metric::Cosine)
    }

    /// The request payload: the collection addressed by its resource name,
    /// carrying the descriptor set and every declared field.
    pub fn to_wire(&self) -> (payload: wire::Collection)
        ensures
            payload.name@ == collection_name(self.id()),
            payload.descriptor_set@ == self.descriptor(),
            payload.vector_fields@ == self.fields(),
    {
        let descriptor_set = vstd::slice::slice_to_vec(self.descriptor_set.as_slice());
        let mut vector_fields: Vec<wire::VectorField> = Vec::new();
        let n = self.fields.len();
        let mut i: usize = 0;
        while i < n
            invariant
                n == self.fields@.len(),
                i <= n,
                vector_fields@ == self.fields@.subrange(0, i as int),
            decreases n - i,
        {
            vector_fields.push(copy_field(&self.fields[i]));
            assert(vector_fields@ =~= self.fields@.subrange(0, i + 1));
            i = i + 1;
        }
        assert(self.fields@.subrange(0, n as int) =~= self.fields@);
        wire::Collection { name: collection(self.id.as_str()), descriptor_set, vector_fields }
    }
}

} // verus!
