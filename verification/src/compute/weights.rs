//! A model's tensors, found by name.
//!
//! A model file carries its tensors under names such as
//! `blk.0.attn_q.weight`, and a model finds each one by that name rather
//! than by a scan. The tensors themselves live in device memory, which the
//! tensor runtime owns; this index holds whatever handle the runtime gives
//! for each, under its name. A name given twice keeps the later tensor.
use crate::compute::error::Error;
use crate::sdk::page::{debug_quoted, debug_text};
use crate::text::same_text;
use vstd::prelude::*;

verus! {

/// Where `name` stands among `names`, from position `i` on; `None` when it
/// is not there.
pub open spec fn position_from(names: Seq<Seq<char>>, name: Seq<char>, i: int) -> Option<int>
    decreases names.len() - i,
{
    if i < 0 || i >= names.len() {
        None
    } else if names[i] == name {
        Some(i)
    } else {
        position_from(names, name, i + 1)
    }
}

/// Where `name` stands among `names`.
pub open spec fn position(names: Seq<Seq<char>>, name: Seq<char>) -> Option<int> {
    position_from(names, name, 0)
}

/// What is reported when a model carries no tensor called `name`.
pub open spec fn missing_tensor_reason(name: Seq<char>) -> Seq<char> {
    "the model carries no tensor named "@ + debug_text(name)
}

/// Every tensor of one model, by name.
pub struct WeightIndex<H> {
    names: Vec<String>,
    tensors: Vec<H>,
}

impl<H> WeightIndex<H> {
    #[verifier::type_invariant]
    spec fn well_formed(self) -> bool {
        &&& self.names@.len() == self.tensors@.len()
        &&& forall|i: int, j: int|
            0 <= i < self.names@.len() && 0 <= j < self.names@.len() && i != j
                ==> #[trigger] self.names@[i]@ != #[trigger] self.names@[j]@
    }

    /// The names held, in the order they were first given.
    pub closed spec fn names(&self) -> Seq<Seq<char>> {
        self.names@.map_values(|s: String| s@)
    }

    /// The tensor held under each name, in the same order.
    pub closed spec fn tensors(&self) -> Seq<H> {
        self.tensors@
    }

    /// An index holding no tensor.
    pub fn new() -> (index: WeightIndex<H>)
        ensures
            index.names() == Seq::<Seq<char>>::empty(),
            index.tensors() == Seq::<H>::empty(),
    {
        let index = WeightIndex { names: Vec::new(), tensors: Vec::new() };
        assert(index.names() =~= Seq::<Seq<char>>::empty());
        assert(index.tensors() =~= Seq::<H>::empty());
        index
    }

    /// Where `name` is held, if it is.
    fn find(&self, name: &str) -> (found: Option<usize>)
        ensures
            found matches Some(i) ==> position(self.names(), name@) == Some(i as int),
            found is None ==> position(self.names(), name@) is None,
            found matches Some(i) ==> i < self.tensors@.len(),
    {
        proof {
            use_type_invariant(self);
        }
        let n = self.names.len();
        let mut i: usize = 0;
        while i < n
            invariant
                n == self.names@.len(),
                n == self.tensors@.len(),
                i <= n,
                position(self.names(), name@) == position_from(self.names(), name@, i as int),
            decreases n - i,
        {
            assert(self.names()[i as int] == self.names@[i as int]@);
            if same_text(self.names[i].as_str(), name) {
                return Some(i);
            }
            i = i + 1;
        }
        None
    }

    /// Hold `tensor` under `name`, in place of any tensor already held
    /// under it.
    pub fn insert(&mut self, name: String, tensor: H)
        ensures
            position(old(self).names(), name@) matches Some(i) ==> final(self).names() == old(
                self,
            ).names() && final(self).tensors() == old(self).tensors().update(i, tensor),
            position(old(self).names(), name@) is None ==> final(self).names() == old(
                self,
            ).names().push(name@) && final(self).tensors() == old(self).tensors().push(tensor),
    {
        proof {
            use_type_invariant(&*self);
        }
        let found = self.find(name.as_str());
        let ghost before = self.names();
        let ghost before_tensors = self.tensors();
        let mut taken = WeightIndex { names: Vec::new(), tensors: Vec::new() };
        std::mem::swap(&mut taken, self);
        let WeightIndex { mut names, mut tensors } = taken;
        assert(names@.map_values(|s: String| s@) == before);
        assert(tensors@ == before_tensors);
        match found {
            Some(i) => {
                tensors.set(i, tensor);
                *self = WeightIndex { names, tensors };
            },
            None => {
                let ghost old_names = names@;
                proof {
                    lemma_absent(before, name@);
                }
                names.push(name);
                tensors.push(tensor);
                assert(names@.map_values(|s: String| s@) =~= before.push(
                    names@[names@.len() - 1]@,
                ));
                assert forall|i: int, j: int|
                    0 <= i < names@.len() && 0 <= j < names@.len() && i != j implies #[trigger] names@[i]@
                    != #[trigger] names@[j]@ by {
                    if i < old_names.len() {
                        assert(names@[i]@ == before[i]);
                    }
                    if j < old_names.len() {
                        assert(names@[j]@ == before[j]);
                    }
                }
                *self = WeightIndex { names, tensors };
            },
        }
    }

    /// How many tensors the model carries.
    pub fn len(&self) -> (n: usize)
        ensures
            n == self.names().len(),
    {
        proof {
            use_type_invariant(self);
        }
        self.names.len()
    }

    /// Whether the model carries no tensor at all.
    pub fn is_empty(&self) -> (empty: bool)
        ensures
            empty == (self.names().len() == 0),
    {
        self.names.len() == 0
    }

    /// The tensor held under `name`, if any.
    pub fn tensor(&self, name: &str) -> (tensor: Option<&H>)
        ensures
            position(self.names(), name@) matches Some(i) ==> tensor == Some(&self.tensors()[i]),
            position(self.names(), name@) is None ==> tensor is None,
    {
        match self.find(name) {
            Some(i) => Some(&self.tensors[i]),
            None => None,
        }
    }

    /// The tensor a graph asks for by `name`, or the reason it cannot have
    /// it.
    pub fn weight(&self, name: &str) -> (tensor: Result<&H, Error>)
        ensures
            position(self.names(), name@) matches Some(i) ==> tensor == Ok::<&H, Error>(
                &self.tensors()[i],
            ),
            position(self.names(), name@) is None ==> (tensor matches Err(
                Error::Runtime { op, reason },
            ) && op@ == "weight"@ && reason@ == missing_tensor_reason(name@)),
    {
        match self.tensor(name) {
            Some(t) => Ok(t),
            None => {
                let mut reason = String::from_str("the model carries no tensor named ");
                let quoted = debug_quoted(name);
                reason.append(quoted.as_str());
                Err(Error::Runtime { op: "weight", reason })
            },
        }
    }
}

/// A name not found from position `i` on is unequal to every name there.
proof fn lemma_absent_from(names: Seq<Seq<char>>, name: Seq<char>, i: int)
    requires
        0 <= i,
        position_from(names, name, i) is None,
    ensures
        forall|j: int| i <= j < names.len() ==> names[j] != name,
    decreases names.len() - i,
{
    if i < names.len() {
        lemma_absent_from(names, name, i + 1);
    }
}

/// A name not found is unequal to every name held.
proof fn lemma_absent(names: Seq<Seq<char>>, name: Seq<char>)
    requires
        position(names, name) is None,
    ensures
        forall|j: int| 0 <= j < names.len() ==> names[j] != name,
{
    lemma_absent_from(names, name, 0);
}

/// A name is found exactly where that same name is held, and only there:
/// a lookup never lands on a different name, and a name that is held is
/// always found.
pub proof fn a_name_is_found_only_where_it_is_held(names: Seq<Seq<char>>, name: Seq<char>)
    ensures
        position(names, name) matches Some(i) ==> 0 <= i < names.len() && names[i] == name,
        position(names, name) is None <==> forall|j: int|
            0 <= j < names.len() ==> names[j] != name,
{
    lemma_found_from(names, name, 0);
    if position(names, name) is None {
        lemma_absent(names, name);
    } else if forall|j: int| 0 <= j < names.len() ==> names[j] != name {
        let i = position(names, name)->0;
        assert(names[i] != name);
    }
}

/// What a lookup from position `i` on finds is that very name, at or after
/// `i`.
proof fn lemma_found_from(names: Seq<Seq<char>>, name: Seq<char>, i: int)
    requires
        0 <= i,
    ensures
        position_from(names, name, i) matches Some(k) ==> i <= k < names.len() && names[k] == name,
    decreases names.len() - i,
{
    if i < names.len() && names[i] != name {
        lemma_found_from(names, name, i + 1);
    }
}

/// Two different names stay two tensors: holding one never replaces the
/// other.
pub proof fn different_names_keep_their_own_tensors(
    before: Seq<Seq<char>>,
    name: Seq<char>,
    other: Seq<char>,
)
    requires
        name != other,
        position(before, other) is Some,
    ensures
        position(before, name) is None ==> position(before.push(name), other) == position(
            before,
            other,
        ),
{
    a_name_is_found_only_where_it_is_held(before, other);
    lemma_position_push(before, name, other, 0);
}

/// Appending a name after the one found leaves the lookup where it was.
proof fn lemma_position_push(names: Seq<Seq<char>>, extra: Seq<char>, name: Seq<char>, i: int)
    requires
        0 <= i,
        position_from(names, name, i) is Some,
    ensures
        position_from(names.push(extra), name, i) == position_from(names, name, i),
    decreases names.len() - i,
{
    if i < names.len() {
        assert(names.push(extra)[i] == names[i]);
        if names[i] != name {
            lemma_position_push(names, extra, name, i + 1);
        }
    }
}

} // verus!
