//! Building resource names, in one place.
//!
//! Every request addresses either a resource or its parent, and the two
//! spellings must agree exactly — `collections/{c}` for a collection and
//! `collections/{c}/points/{p}` for a point beneath it. Callers pass bare
//! ids and never see these strings.
use vstd::prelude::*;

verus! {

/// The collection segment of every name, with its separator.
pub open spec fn collections_prefix() -> Seq<char> {
    seq!['c', 'o', 'l', 'l', 'e', 'c', 't', 'i', 'o', 'n', 's', '/']
}

/// The points segment beneath a collection, with both separators.
pub open spec fn points_infix() -> Seq<char> {
    seq!['/', 'p', 'o', 'i', 'n', 't', 's', '/']
}

/// The name a collection is addressed by.
pub open spec fn collection_name(collection: Seq<char>) -> Seq<char> {
    collections_prefix() + collection
}

/// The name a point is addressed by, nested under its collection.
pub open spec fn point_name(collection: Seq<char>, point: Seq<char>) -> Seq<char> {
    collection_name(collection) + points_infix() + point
}

/// Where the segment ending at `j` begins: just after the last `/` before
/// `j`, or at the start.
pub open spec fn segment_start(s: Seq<char>, j: int) -> int
    decreases j,
{
    if j <= 0 {
        0
    } else if s[j - 1] == '/' {
        j
    } else {
        segment_start(s, j - 1)
    }
}

/// The trailing id of a resource name: everything after its last `/`, or
/// the whole name when it has none.
pub open spec fn last_segment(s: Seq<char>) -> Seq<char> {
    s.subrange(segment_start(s, s.len() as int), s.len() as int)
}

/// Whether `s` holds no `/`.
pub open spec fn slash_free(s: Seq<char>) -> bool {
    forall|i: int| 0 <= i < s.len() ==> s[i] != '/'
}

/// The parent every point request is addressed under; also the name a
/// collection is fetched and deleted by.
pub fn collection(collection_id: &str) -> (name: String)
    ensures
        name@ == collection_name(collection_id@),
{
    proof {
        reveal_strlit("collections/");
    }
    let mut name = String::from_str("collections/");
    name.append(collection_id);
    assert(name@ =~= collection_name(collection_id@));
    name
}

/// One point's full name, nested under its collection.
pub fn point(collection_id: &str, point_id: &str) -> (name: String)
    ensures
        name@ == point_name(collection_id@, point_id@),
{
    let mut name = collection(collection_id);
    proof {
        reveal_strlit("/points/");
    }
    name.append("/points/");
    name.append(point_id);
    assert(name@ =~= point_name(collection_id@, point_id@));
    name
}

/// The trailing id of a resource name, which is what a caller passes back
/// in. Returns the whole string when there is no `/`, so a name that is
/// already an id survives a round trip unchanged.
pub fn id_of(name: &str) -> (id: &str)
    ensures
        id@ == last_segment(name@),
{
    let n = name.unicode_len();
    let mut j: usize = n;
    while j > 0 && name.get_char(j - 1) != '/'
        invariant
            n == name@.len(),
            j <= n,
            segment_start(name@, j as int) == segment_start(name@, n as int),
        decreases j,
    {
        j = j - 1;
    }
    assert(segment_start(name@, j as int) == j);
    name.substring_char(j, n)
}

/// The ids of created resources, from the full names the server answered
/// with, in its order.
pub fn created_ids(names: &Vec<String>) -> (ids: Vec<String>)
    ensures
        ids@.len() == names@.len(),
        forall|i: int| 0 <= i < names@.len() ==> #[trigger] ids@[i]@ == last_segment(names@[i]@),
{
    let mut ids: Vec<String> = Vec::new();
    let n = names.len();
    let mut i: usize = 0;
    while i < n
        invariant
            n == names@.len(),
            i <= n,
            ids@.len() == i,
            forall|j: int| 0 <= j < i ==> #[trigger] ids@[j]@ == last_segment(names@[j]@),
        decreases n - i,
    {
        let id = id_of(names[i].as_str());
        ids.push(String::from_str(id));
        i = i + 1;
    }
    ids
}

/// A slash-free stretch does not move where the last segment starts.
proof fn lemma_segment_start_skips(s: Seq<char>, k: int, j: int)
    requires
        0 <= k <= j <= s.len(),
        forall|i: int| k <= i < j ==> s[i] != '/',
    ensures
        segment_start(s, j) == segment_start(s, k),
    decreases j - k,
{
    if j > k {
        lemma_segment_start_skips(s, k, j - 1);
    }
}

/// Where the segment ends up after a prefix that ends in `/`.
proof fn lemma_last_segment_after_slash(prefix: Seq<char>, id: Seq<char>)
    requires
        prefix.len() > 0,
        prefix.last() == '/',
        slash_free(id),
    ensures
        last_segment(prefix + id) == id,
{
    let s = prefix + id;
    assert forall|i: int| prefix.len() <= i < s.len() implies s[i] != '/' by {
        assert(s[i] == id[i - prefix.len()]);
    }
    lemma_segment_start_skips(s, prefix.len() as int, s.len() as int);
    assert(s[prefix.len() - 1] == '/');
    assert(segment_start(s, prefix.len() as int) == prefix.len());
    assert(s.subrange(prefix.len() as int, s.len() as int) =~= id);
}

/// A name without a `/` is already an id.
pub proof fn an_id_is_its_own_last_segment(id: Seq<char>)
    requires
        slash_free(id),
    ensures
        last_segment(id) == id,
{
    lemma_segment_start_skips(id, 0, id.len() as int);
    assert(id.subrange(0, id.len() as int) =~= id);
}

/// Taking the id of an id changes nothing.
pub proof fn id_of_is_idempotent(name: Seq<char>)
    ensures
        last_segment(last_segment(name)) == last_segment(name),
{
    let k = segment_start(name, name.len() as int);
    lemma_segment_start_bounds(name, name.len() as int);
    let id = last_segment(name);
    assert forall|i: int| 0 <= i < id.len() implies id[i] != '/' by {
        lemma_no_slash_after_start(name, name.len() as int, k + i);
    }
    an_id_is_its_own_last_segment(id);
}

/// The segment start lies within `[0, j]`.
proof fn lemma_segment_start_bounds(s: Seq<char>, j: int)
    requires
        0 <= j <= s.len(),
    ensures
        0 <= segment_start(s, j) <= j,
    decreases j,
{
    if j > 0 && s[j - 1] != '/' {
        lemma_segment_start_bounds(s, j - 1);
    }
}

/// No `/` lies between the segment start and `j`.
proof fn lemma_no_slash_after_start(s: Seq<char>, j: int, i: int)
    requires
        0 <= j <= s.len(),
        segment_start(s, j) <= i < j,
    ensures
        s[i] != '/',
    decreases j,
{
    if j > 0 && s[j - 1] != '/' && i < j - 1 {
        lemma_no_slash_after_start(s, j - 1, i);
    }
}

/// A collection's id survives the round trip through its name.
pub proof fn collection_id_round_trips(collection: Seq<char>)
    requires
        slash_free(collection),
    ensures
        last_segment(collection_name(collection)) == collection,
{
    lemma_last_segment_after_slash(collections_prefix(), collection);
}

/// A point's id survives the round trip through its name, whatever its
/// collection is called.
pub proof fn point_id_round_trips(collection: Seq<char>, point: Seq<char>)
    requires
        slash_free(point),
    ensures
        last_segment(point_name(collection, point)) == point,
{
    let prefix = collection_name(collection) + points_infix();
    assert(prefix.last() == '/');
    assert(point_name(collection, point) == prefix + point);
    lemma_last_segment_after_slash(prefix, point);
}

/// A point is always addressed beneath the same parent its collection is
/// fetched, created into and deleted by.
pub proof fn a_point_lives_under_its_collection(collection: Seq<char>, point: Seq<char>)
    ensures
        point_name(collection, point).subrange(0, collection_name(collection).len() as int)
            == collection_name(collection),
{
    assert(point_name(collection, point).subrange(0, collection_name(collection).len() as int)
        =~= collection_name(collection));
}

} // verus!
