//! One collection's points: what a batch write asks the server for, and
//! what its answer comes to.
//!
//! The caller encodes the vectors and sends the request; this decides
//! whether there is a request at all and what each point in it says.
use crate::sdk::names::{collection, collection_name};
use crate::sdk::wire::{
    BatchCreatePointsRequest, ContentRef, CreatePointRequest, NamedVector, Point, Vector,
};
use vstd::prelude::*;

verus! {

/// Whether `point` stores `vector` under `field`, with `text` as its
/// inline content, and no content at all when `text` is empty.
pub open spec fn stores(point: Point, field: Seq<char>, vector: Seq<u8>, text: Seq<char>) -> bool {
    &&& point.vectors@.len() == 1
    &&& point.vectors@[0].field_id@ == field
    &&& point.vectors@[0].vector matches Some(v) && v@ == vector
    &&& (point.content_ref is Some <==> text.len() > 0)
    &&& point.content_ref matches Some(c) ==> c.inline_text@ == text
}

/// Whether `request` creates the point an entry `(point_id, vector, text)`
/// describes, in the named `field`, as one item of a batch.
pub open spec fn creates(
    request: CreatePointRequest,
    field: Seq<char>,
    entry: (String, Vector, String),
) -> bool {
    &&& request.parent@.len() == 0
    &&& request.point_id@ == entry.0@
    &&& request.point matches Some(p) && stores(p, field, entry.1@, entry.2@)
}

/// A point holding `vector` in `field`, with `text` as its content unless
/// `text` is empty.
fn point_with(field: &str, vector: &Vector, text: &str) -> (point: Point)
    ensures
        stores(point, field@, vector@, text@),
{
    let mut vectors: Vec<NamedVector> = Vec::new();
    vectors.push(
        NamedVector { field_id: String::from_str(field), vector: Some(vector.duplicate()) },
    );
    let content_ref = if text.unicode_len() == 0 {
        None
    } else {
        Some(ContentRef { inline_text: String::from_str(text) })
    };
    Point { vectors, content_ref }
}

/// The request that stores every entry `(point_id, vector, text)` in the
/// named `field` of collection `collection_id`, in one round trip.
///
/// `None` for no entries: the server refuses an empty batch, but a caller
/// looping over a possibly empty slice is not making that mistake, so it
/// is answered here with no names rather than by a round trip that can
/// only fail. Each item leaves its own parent empty, because the batch's
/// parent is authoritative and the server refuses an item that disagrees
/// with it; an empty text stores no content reference.
pub fn batch_create_request(
    collection_id: &str,
    field: &str,
    entries: &Vec<(String, Vector, String)>,
) -> (request: Option<BatchCreatePointsRequest>)
    ensures
        entries@.len() == 0 <==> request is None,
        request matches Some(r) ==> r.parent@ == collection_name(collection_id@)
            && r.requests@.len() == entries@.len() && forall|i: int|
            0 <= i < entries@.len() ==> creates(#[trigger] r.requests@[i], field@, entries@[i]),
{
    if entries.len() == 0 {
        return None;
    }
    let mut requests: Vec<CreatePointRequest> = Vec::new();
    let n = entries.len();
    let mut i: usize = 0;
    while i < n
        invariant
            n == entries@.len(),
            i <= n,
            requests@.len() == i,
            forall|j: int| 0 <= j < i ==> creates(#[trigger] requests@[j], field@, entries@[j]),
        decreases n - i,
    {
        let entry = &entries[i];
        let point = point_with(field, &entry.1, entry.2.as_str());
        requests.push(
            CreatePointRequest {
                parent: String::new(),
                point_id: entry.0.clone(),
                point: Some(point),
            },
        );
        i = i + 1;
    }
    Some(BatchCreatePointsRequest { parent: collection(collection_id), requests })
}

} // verus!
