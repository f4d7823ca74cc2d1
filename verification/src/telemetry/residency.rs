//! What is currently resident, and how much it holds.
//!
//! One registry of every large thing alive — open stores, loaded indexes,
//! resident models — answering what occupies host and device memory and to
//! which collection or model it belongs.
//!
//! Names are stored raw and redacted at emission: [`snapshot`] returns real
//! names for in-process use and operator tooling, and anything emitting an
//! entry passes its name through [`crate::telemetry::redact`] first.
//!
//! The registry is an explicit value rather than a process-wide global, so
//! every operation on it states what it changes. A registration is released
//! by handing its [`Handle`] back to [`release`].
use vstd::prelude::*;

verus! {

/// What kind of thing is holding memory. A closed set, so it is safe as a
/// metric label.
#[derive(Debug, Clone, Copy, PartialEq, Eq, Hash, Structural)]
pub enum ResidentKind {
    /// A point store's backing file.
    PointStore,
    /// A graph store's backing file.
    GraphStore,
    /// A vector index, which may be device-resident.
    VectorIndex,
    /// A loaded inference model.
    Model,
}

/// The name of a kind, as used in telemetry and operator output.
pub open spec fn kind_name(kind: ResidentKind) -> Seq<char> {
    match kind {
        ResidentKind::PointStore => seq!['p', 'o', 'i', 'n', 't', '-', 's', 't', 'o', 'r', 'e'],
        ResidentKind::GraphStore => seq!['g', 'r', 'a', 'p', 'h', '-', 's', 't', 'o', 'r', 'e'],
        ResidentKind::VectorIndex => seq!['v', 'e', 'c', 't', 'o', 'r', '-', 'i', 'n', 'd', 'e', 'x'],
        ResidentKind::Model => seq!['m', 'o', 'd', 'e', 'l'],
    }
}

impl ResidentKind {
    /// The name used in telemetry and in operator output.
    pub fn as_str(self) -> (s: &'static str)
        ensures
            s@ == kind_name(self),
    {
        match self {
            ResidentKind::PointStore => {
                proof {
                    reveal_strlit("point-store");
                }
                "point-store"
            },
            ResidentKind::GraphStore => {
                proof {
                    reveal_strlit("graph-store");
                }
                "graph-store"
            },
            ResidentKind::VectorIndex => {
                proof {
                    reveal_strlit("vector-index");
                }
                "vector-index"
            },
            ResidentKind::Model => {
                proof {
                    reveal_strlit("model");
                }
                "model"
            },
        }
    }
}

/// Where the memory actually sits. Only [`Location::Device`] competes for
/// device memory.
#[derive(Debug, Clone, Copy, PartialEq, Eq, Hash, Structural)]
pub enum Location {
    /// System memory: a mapped file, a host-side buffer, page cache.
    Host,
    /// GPU memory, or the GPU-addressable pool on unified-memory hardware.
    Device,
}

/// The name of a location, as used in telemetry and operator output.
pub open spec fn location_name(location: Location) -> Seq<char> {
    match location {
        Location::Host => seq!['h', 'o', 's', 't'],
        Location::Device => seq!['d', 'e', 'v', 'i', 'c', 'e'],
    }
}

impl Location {
    /// The name used in telemetry and in operator output.
    pub fn as_str(self) -> (s: &'static str)
        ensures
            s@ == location_name(self),
    {
        match self {
            Location::Host => {
                proof {
                    reveal_strlit("host");
                }
                "host"
            },
            Location::Device => {
                proof {
                    reveal_strlit("device");
                }
                "device"
            },
        }
    }
}

/// One resident thing.
#[derive(Debug, Clone, PartialEq, Eq)]
pub struct Entry {
    /// What kind of thing this is.
    pub kind: ResidentKind,
    /// Where its memory sits.
    pub location: Location,
    /// **Real** name — a collection, a field, a model file. Redact before
    /// emitting.
    pub name: String,
    /// Bytes it holds.
    pub bytes: usize,
    /// Distinguishes entries that would otherwise be identical.
    id: u64,
}

/// What an [`Entry`] says, as plain values.
pub struct EntryView {
    /// What kind of thing this is.
    pub kind: ResidentKind,
    /// Where its memory sits.
    pub location: Location,
    /// The real name.
    pub name: Seq<char>,
    /// Bytes it holds.
    pub bytes: usize,
    /// The registration id.
    pub id: u64,
}

impl View for Entry {
    type V = EntryView;

    closed spec fn view(&self) -> EntryView {
        EntryView {
            kind: self.kind,
            location: self.location,
            name: self.name@,
            bytes: self.bytes,
            id: self.id,
        }
    }
}

impl Entry {
    /// What kind of thing this is.
    pub fn kind(&self) -> (kind: ResidentKind)
        ensures
            kind == self@.kind,
    {
        self.kind
    }

    /// Where its memory sits.
    pub fn location(&self) -> (location: Location)
        ensures
            location == self@.location,
    {
        self.location
    }

    /// The real name. Redact before emitting.
    pub fn name(&self) -> (name: &str)
        ensures
            name@ == self@.name,
    {
        self.name.as_str()
    }

    /// Bytes it holds.
    pub fn bytes(&self) -> (bytes: usize)
        ensures
            bytes == self@.bytes,
    {
        self.bytes
    }

    /// A field-for-field copy.
    fn duplicate(&self) -> (copy: Entry)
        ensures
            copy@ == self@,
    {
        Entry {
            kind: self.kind,
            location: self.location,
            name: self.name.clone(),
            bytes: self.bytes,
            id: self.id,
        }
    }
}

/// A registration, to be handed back to [`release`] when the thing it
/// describes goes away.
#[derive(Debug)]
pub struct Handle {
    id: u64,
    bytes: usize,
}

impl View for Handle {
    /// The registration id and the bytes it accounts for.
    type V = (u64, usize);

    closed spec fn view(&self) -> (u64, usize) {
        (self.id, self.bytes)
    }
}

impl Handle {
    /// Bytes this registration accounts for.
    pub fn bytes(&self) -> (b: usize)
        ensures
            b == self@.1,
    {
        self.bytes
    }
}

/// Every resident thing, with the source of fresh registration ids.
///
/// Ids are handed out in order and wrap around after `u64::MAX`, so they
/// are distinct for as long as fewer than `2^64` registrations have been
/// made.
pub struct Registry {
    entries: Vec<Entry>,
    next_id: u64,
    issued: Ghost<nat>,
}

/// How many distinct registration ids there are.
pub open spec fn id_space() -> nat {
    0x1_0000_0000_0000_0000
}

/// The views of a sequence of entries.
pub open spec fn views(entries: Seq<Entry>) -> Seq<EntryView> {
    entries.map_values(|e: Entry| e@)
}

/// Bytes the entries hold in one location.
pub open spec fn located_bytes(entries: Seq<EntryView>, location: Location) -> nat
    decreases entries.len(),
{
    if entries.len() == 0 {
        0
    } else {
        located_bytes(entries.drop_last(), location) + if entries.last().location == location {
            entries.last().bytes as nat
        } else {
            0
        }
    }
}

/// How many entries are of one kind.
pub open spec fn kind_count(entries: Seq<EntryView>, kind: ResidentKind) -> nat
    decreases entries.len(),
{
    if entries.len() == 0 {
        0
    } else {
        kind_count(entries.drop_last(), kind) + if entries.last().kind == kind {
            1nat
        } else {
            0nat
        }
    }
}

/// The entries, in order, less every one registered under `id`.
pub open spec fn without_id(entries: Seq<EntryView>, id: u64) -> Seq<EntryView>
    decreases entries.len(),
{
    if entries.len() == 0 {
        Seq::empty()
    } else if entries.last().id == id {
        without_id(entries.drop_last(), id)
    } else {
        without_id(entries.drop_last(), id).push(entries.last())
    }
}

/// No two entries share a registration id.
pub open spec fn ids_distinct(entries: Seq<EntryView>) -> bool {
    forall|i: int, j: int|
        0 <= i < entries.len() && 0 <= j < entries.len() && i != j ==> #[trigger] entries[i].id
            != #[trigger] entries[j].id
}

/// Every entry's id is below `bound`.
pub open spec fn ids_below(entries: Seq<EntryView>, bound: nat) -> bool {
    forall|i: int| 0 <= i < entries.len() ==> #[trigger] entries[i].id < bound
}

impl Registry {
    #[verifier::type_invariant]
    spec fn well_formed(self) -> bool {
        &&& self.next_id == self.issued@ % id_space()
        &&& self.issued@ <= u64::MAX ==> ids_distinct(views(self.entries@)) && ids_below(
            views(self.entries@),
            self.issued@,
        )
    }

    /// Every resident entry, in registration order.
    pub closed spec fn entries(&self) -> Seq<EntryView> {
        views(self.entries@)
    }

    /// How many registrations have ever been made.
    pub closed spec fn issued(&self) -> nat {
        self.issued@
    }

    /// An empty registry.
    pub fn new() -> (registry: Registry)
        ensures
            registry.entries() == Seq::<EntryView>::empty(),
            registry.issued() == 0,
    {
        let r = Registry { entries: Vec::new(), next_id: 0, issued: Ghost(0) };
        assert(views(r.entries@) =~= Seq::<EntryView>::empty());
        r
    }

    /// The id the next registration gets: how many registrations have
    /// been made, wrapped to 64 bits.
    pub fn next_id(&self) -> (n: u64)
        ensures
            n == self.issued() % id_space(),
    {
        proof {
            use_type_invariant(self);
        }
        self.next_id
    }
}

/// Record that `name` is resident, holding `bytes`.
pub fn register(
    registry: &mut Registry,
    kind: ResidentKind,
    location: Location,
    name: &str,
    bytes: usize,
) -> (handle: Handle)
    ensures
        final(registry).issued() == old(registry).issued() + 1,
        handle@ == ((old(registry).issued() % id_space()) as u64, bytes),
        final(registry).entries() == old(registry).entries().push(
            EntryView { kind, location, name: name@, bytes, id: handle@.0 },
        ),
        old(registry).issued() < u64::MAX ==> ids_distinct(final(registry).entries())
            && ids_below(final(registry).entries(), final(registry).issued()),
{
    proof {
        use_type_invariant(&*registry);
    }
    let id = registry.next_id;
    let ghost issued = registry.issued@;
    let entry = Entry { kind, location, name: String::from_str(name), bytes, id };
    let ghost before = views(registry.entries@);
    let ghost fresh = EntryView { kind, location, name: name@, bytes, id };
    let mut entries: Vec<Entry> = Vec::new();
    std::mem::swap(&mut entries, &mut registry.entries);
    assert(views(entries@) == before);
    let ghost e0 = entries@;
    entries.push(entry);
    assert(views(entries@) =~= before.push(fresh)) by {
        assert(entries@ == e0.push(entry));
    }
    proof {
        if issued < u64::MAX as nat {
            assert(id == issued) by {
                vstd::arithmetic::div_mod::lemma_small_mod(issued, id_space());
            }
            assert(ids_distinct(views(entries@))) by {
                assert forall|a: int, b: int|
                    0 <= a < views(entries@).len() && 0 <= b < views(entries@).len() && a != b
                    implies #[trigger] views(entries@)[a].id != #[trigger] views(entries@)[b].id by {
                    if a < before.len() && b < before.len() {
                        assert(views(entries@)[a] == before[a]);
                        assert(views(entries@)[b] == before[b]);
                    } else if a < before.len() {
                        assert(views(entries@)[a] == before[a]);
                    } else {
                        assert(views(entries@)[b] == before[b]);
                    }
                }
            }
            assert(ids_below(views(entries@), issued + 1)) by {
                assert forall|a: int| 0 <= a < views(entries@).len() implies #[trigger] views(
                    entries@,
                )[a].id < issued + 1 by {
                    if a < before.len() {
                        assert(views(entries@)[a] == before[a]);
                    }
                }
            }
        }
    }
    let next = id.wrapping_add(1);
    proof {
        lemma_next_id(issued, id);
    }
    *registry = Registry { entries, next_id: next, issued: Ghost(issued + 1) };
    Handle { id, bytes }
}

/// The id after `id`, wrapped to 64 bits, is the count after `issued`
/// wrapped the same way.
proof fn lemma_next_id(issued: nat, id: u64)
    requires
        id == issued % id_space(),
    ensures
        (if id == u64::MAX { 0 } else { id + 1 }) == (issued + 1) % id_space(),
{
    let m = id_space() as int;
    let q = issued as int / m;
    vstd::arithmetic::div_mod::lemma_fundamental_div_mod(issued as int, m);
    if id == u64::MAX {
        vstd::arithmetic::div_mod::lemma_fundamental_div_mod_converse(issued + 1 as int, m, q + 1, 0);
    } else {
        vstd::arithmetic::div_mod::lemma_fundamental_div_mod_converse(issued + 1 as int, m, q, id + 1);
    }
}

/// Remove the registration `handle` describes.
pub fn release(registry: &mut Registry, handle: Handle)
    ensures
        final(registry).issued() == old(registry).issued(),
        final(registry).entries() == without_id(old(registry).entries(), handle@.0),
        old(registry).issued() <= u64::MAX ==> ids_distinct(final(registry).entries())
            && ids_below(final(registry).entries(), final(registry).issued()),
{
    proof {
        use_type_invariant(&*registry);
    }
    let ghost before = views(registry.entries@);
    let mut kept: Vec<Entry> = Vec::new();
    let mut i: usize = 0;
    let n = registry.entries.len();
    while i < n
        invariant
            n == registry.entries@.len(),
            views(registry.entries@) == before,
            i <= n,
            views(kept@) == without_id(before.subrange(0, i as int), handle.id),
        decreases n - i,
    {
        let e = registry.entries[i].duplicate();
        proof {
            assert(before.subrange(0, i + 1).drop_last() =~= before.subrange(0, i as int));
            assert(before[i as int] == e@);
        }
        if e.id != handle.id {
            let ghost k0 = kept@;
            kept.push(e);
            assert(views(kept@) =~= views(k0).push(e@));
        }
        i = i + 1;
    }
    assert(before.subrange(0, n as int) =~= before);
    proof {
        if registry.issued@ <= u64::MAX {
            lemma_without_id_keeps_distinct(before, handle.id);
            lemma_without_id_keeps_below(before, handle.id, registry.issued@);
        }
    }
    registry.entries = kept;
}

/// Everything currently resident, with **real** names. Redact before
/// emitting.
pub fn snapshot(registry: &Registry) -> (entries: Vec<Entry>)
    ensures
        views(entries@) == registry.entries(),
{
    let mut out: Vec<Entry> = Vec::new();
    let n = registry.entries.len();
    let mut i: usize = 0;
    while i < n
        invariant
            n == registry.entries@.len(),
            i <= n,
            views(out@) == views(registry.entries@).subrange(0, i as int),
        decreases n - i,
    {
        let e = registry.entries[i].duplicate();
        let ghost o0 = out@;
        out.push(e);
        assert(out@ == o0.push(e));
        assert(views(out@) =~= views(o0).push(e@));
        assert(views(registry.entries@)[i as int] == e@);
        assert(views(out@) =~= views(registry.entries@).subrange(0, i + 1));
        i = i + 1;
    }
    assert(views(out@) =~= views(registry.entries@));
    out
}

/// Total bytes held in one location.
pub fn total_bytes(registry: &Registry, location: Location) -> (total: usize)
    requires
        located_bytes(registry.entries(), location) <= usize::MAX,
    ensures
        total == located_bytes(registry.entries(), location),
{
    let ghost s = views(registry.entries@);
    let n = registry.entries.len();
    let mut total: usize = 0;
    let mut i: usize = 0;
    while i < n
        invariant
            n == registry.entries@.len(),
            s == views(registry.entries@),
            i <= n,
            total == located_bytes(s.subrange(0, i as int), location),
            located_bytes(s, location) <= usize::MAX,
        decreases n - i,
    {
        proof {
            assert(s.subrange(0, i + 1).drop_last() =~= s.subrange(0, i as int));
            lemma_located_bytes_prefix(s, i + 1, location);
        }
        let e = &registry.entries[i];
        assert(s[i as int] == e@);
        if e.location == location {
            total = total + e.bytes;
        }
        i = i + 1;
    }
    assert(s.subrange(0, n as int) =~= s);
    total
}

/// How many things of one kind are resident.
pub fn count(registry: &Registry, kind: ResidentKind) -> (n: usize)
    ensures
        n == kind_count(registry.entries(), kind),
{
    let ghost s = views(registry.entries@);
    let len = registry.entries.len();
    let mut n: usize = 0;
    let mut i: usize = 0;
    while i < len
        invariant
            len == registry.entries@.len(),
            s == views(registry.entries@),
            i <= len,
            n == kind_count(s.subrange(0, i as int), kind),
            n <= i,
        decreases len - i,
    {
        proof {
            assert(s.subrange(0, i + 1).drop_last() =~= s.subrange(0, i as int));
        }
        assert(s[i as int] == registry.entries@[i as int]@);
        if registry.entries[i].kind == kind {
            n = n + 1;
        }
        i = i + 1;
    }
    assert(s.subrange(0, len as int) =~= s);
    n
}

/// What one entry contributes to a location's total.
pub open spec fn bytes_in(entry: EntryView, location: Location) -> nat {
    if entry.location == location {
        entry.bytes as nat
    } else {
        0
    }
}

/// What one entry contributes to a kind's count.
pub open spec fn counted_in(entry: EntryView, kind: ResidentKind) -> nat {
    if entry.kind == kind {
        1
    } else {
        0
    }
}

/// Registering adds exactly the new entry's bytes to its own location's
/// total and one to its own kind's count, and leaves every other location
/// and kind as it was.
pub proof fn registering_adds_its_bytes(
    entries: Seq<EntryView>,
    entry: EntryView,
    location: Location,
    kind: ResidentKind,
)
    ensures
        located_bytes(entries.push(entry), location) == located_bytes(entries, location) + bytes_in(
            entry,
            location,
        ),
        kind_count(entries.push(entry), kind) == kind_count(entries, kind) + counted_in(entry, kind),
{
    assert(entries.push(entry).drop_last() =~= entries);
}

/// Removing an id that no entry carries changes nothing.
pub proof fn releasing_an_unknown_id_changes_nothing(entries: Seq<EntryView>, id: u64)
    requires
        forall|i: int| 0 <= i < entries.len() ==> #[trigger] entries[i].id != id,
    ensures
        without_id(entries, id) == entries,
    decreases entries.len(),
{
    if entries.len() > 0 {
        let t = entries.drop_last();
        assert forall|i: int| 0 <= i < t.len() implies #[trigger] t[i].id != id by {
            assert(t[i] == entries[i]);
        }
        releasing_an_unknown_id_changes_nothing(t, id);
        assert(entries.last().id != id);
        assert(t.push(entries.last()) =~= entries);
    }
}

/// Releasing a fresh registration returns the registry to exactly what it
/// held before: the new id is above every id already present.
pub proof fn release_undoes_register(entries: Seq<EntryView>, entry: EntryView)
    requires
        ids_below(entries, entry.id as nat),
    ensures
        without_id(entries.push(entry), entry.id) == entries,
{
    assert(entries.push(entry).drop_last() =~= entries);
    assert forall|i: int| 0 <= i < entries.len() implies #[trigger] entries[i].id != entry.id by {
        assert(entries[i].id < entry.id);
    }
    releasing_an_unknown_id_changes_nothing(entries, entry.id);
}

/// Releasing one registration among distinct ones takes away exactly that
/// entry's bytes and count, and leaves every other entry — including
/// entries of the same name — in place.
pub proof fn releasing_returns_its_bytes(
    entries: Seq<EntryView>,
    k: int,
    location: Location,
    kind: ResidentKind,
)
    requires
        ids_distinct(entries),
        0 <= k < entries.len(),
    ensures
        located_bytes(without_id(entries, entries[k].id), location) + bytes_in(entries[k], location)
            == located_bytes(entries, location),
        kind_count(without_id(entries, entries[k].id), kind) + counted_in(entries[k], kind)
            == kind_count(entries, kind),
        forall|i: int|
            0 <= i < entries.len() && i != k ==> without_id(entries, entries[k].id).contains(
                #[trigger] entries[i],
            ),
    decreases entries.len(),
{
    let id = entries[k].id;
    let t = entries.drop_last();
    let last = entries.last();
    assert(ids_distinct(t));
    if k == entries.len() - 1 {
        assert forall|i: int| 0 <= i < t.len() implies #[trigger] t[i].id != id by {
            assert(t[i] == entries[i]);
        }
        releasing_an_unknown_id_changes_nothing(t, id);
        assert forall|i: int| 0 <= i < entries.len() && i != k implies without_id(
            entries,
            id,
        ).contains(#[trigger] entries[i]) by {
            assert(t[i] == entries[i]);
        }
    } else {
        assert(t[k] == entries[k]);
        releasing_returns_its_bytes(t, k, location, kind);
        assert(last.id != id);
        let w = without_id(t, id);
        assert(without_id(entries, id) == w.push(last));
        assert(w.push(last).drop_last() =~= w);
        assert forall|i: int| 0 <= i < entries.len() && i != k implies without_id(
            entries,
            id,
        ).contains(#[trigger] entries[i]) by {
            if i == entries.len() - 1 {
                assert(w.push(last)[w.len() as int] == last);
            } else {
                assert(t[i] == entries[i]);
                assert(w.contains(t[i]));
                let j = choose|j: int| 0 <= j < w.len() && w[j] == t[i];
                assert(w.push(last)[j] == t[i]);
            }
        }
    }
}

/// A prefix never holds more bytes than the whole.
proof fn lemma_located_bytes_prefix(s: Seq<EntryView>, k: int, location: Location)
    requires
        0 <= k <= s.len(),
    ensures
        located_bytes(s.subrange(0, k), location) <= located_bytes(s, location),
    decreases s.len(),
{
    if k < s.len() {
        assert(s.drop_last().subrange(0, k) =~= s.subrange(0, k));
        lemma_located_bytes_prefix(s.drop_last(), k, location);
    } else {
        assert(s.subrange(0, k) =~= s);
    }
}

/// Every survivor of a removal was an entry of the sequence it came from.
proof fn lemma_without_id_member(s: Seq<EntryView>, id: u64, a: int)
    requires
        0 <= a < without_id(s, id).len(),
    ensures
        exists|i: int| 0 <= i < s.len() && s[i] == without_id(s, id)[a],
    decreases s.len(),
{
    let t = s.drop_last();
    if s.last().id == id {
        lemma_without_id_member(t, id, a);
        let i = choose|i: int| 0 <= i < t.len() && t[i] == without_id(t, id)[a];
        assert(s[i] == t[i]);
    } else if a < without_id(t, id).len() {
        lemma_without_id_member(t, id, a);
        let i = choose|i: int| 0 <= i < t.len() && t[i] == without_id(t, id)[a];
        assert(s[i] == t[i]);
    } else {
        assert(s[s.len() - 1] == without_id(s, id)[a]);
    }
}

/// Removing an id keeps every remaining id below the same bound.
proof fn lemma_without_id_keeps_below(s: Seq<EntryView>, id: u64, bound: nat)
    requires
        ids_below(s, bound),
    ensures
        ids_below(without_id(s, id), bound),
{
    assert forall|a: int| 0 <= a < without_id(s, id).len() implies #[trigger] without_id(s, id)[a].id
        < bound by {
        lemma_without_id_member(s, id, a);
    }
}

/// Removing an id keeps the remaining ids distinct.
proof fn lemma_without_id_keeps_distinct(s: Seq<EntryView>, id: u64)
    requires
        ids_distinct(s),
    ensures
        ids_distinct(without_id(s, id)),
    decreases s.len(),
{
    if s.len() > 0 {
        let t = s.drop_last();
        assert(ids_distinct(t));
        lemma_without_id_keeps_distinct(t, id);
        if s.last().id != id {
            let w = without_id(t, id);
            assert forall|a: int| 0 <= a < w.len() implies #[trigger] w[a].id != s.last().id by {
                lemma_without_id_member(t, id, a);
                let i = choose|i: int| 0 <= i < t.len() && t[i] == w[a];
                assert(s[i] == t[i]);
            }
            let u = without_id(s, id);
            assert(u == w.push(s.last()));
            assert forall|a: int, b: int|
                0 <= a < u.len() && 0 <= b < u.len() && a != b implies #[trigger] u[a].id
                != #[trigger] u[b].id by {
                if a == w.len() {
                    assert(u[b] == w[b]);
                } else if b == w.len() {
                    assert(u[a] == w[a]);
                } else {
                    assert(u[a] == w[a] && u[b] == w[b]);
                }
            }
        }
    }
}

} // verus!
