//! What must never reach a telemetry pipeline, and how to emit the rest.
//!
//! Query vectors, payload contents and vault names are never emitted.
//! Resource names are reduced to a stable token so traces still correlate.
use crate::text::{hex_digits, hex_padded, hex_padded_reads_back, hex_value, pow16, push_hex_padded};
use std::hash::BuildHasher;
use vstd::prelude::*;

verus! {

/// What `std`'s default hasher produces for a string.
///
/// `DefaultHasher::new` is documented to behave the same as every other
/// instance created through `new` or `default`, so the value depends on the
/// string alone.
pub uninterp spec fn default_hash_of_str(s: Seq<char>) -> u64;

/// Hash `name` with a freshly built `std::hash::DefaultHasher`.
///
/// Calls `BuildHasher::hash_one` on the default builder, which std documents
/// as building a hasher, feeding it the value and finishing it. The contract
/// claims only that the result is a function of the string.
#[verifier::external_body]
fn default_hash(name: &str) -> (h: u64)
    ensures
        h == default_hash_of_str(name@),
{
    std::hash::BuildHasherDefault::<std::hash::DefaultHasher>::default().hash_one(name)
}

/// The token a resource name is reduced to: `r_` and sixteen lower-case
/// hexadecimal digits of the name's hash.
pub open spec fn token_of(name: Seq<char>) -> Seq<char> {
    seq!['r', '_'] + hex_padded(default_hash_of_str(name) as nat, 16)
}

/// The characters a token may contain.
pub open spec fn token_char(c: char) -> bool {
    c == 'r' || c == '_' || hex_digits().contains(c)
}

/// A resource name reduced to a stable, non-reversible token.
///
/// Correlation across spans survives; the name does not. Not a cryptographic
/// hash — it resists casual reading, not a determined attacker.
pub fn resource_token(name: &str) -> (token: String)
    ensures
        token@ == token_of(name@),
{
    let h = default_hash(name);
    let prefix = "r_";
    proof {
        reveal_strlit("r_");
    }
    let mut token = String::from_str(prefix);
    push_hex_padded(&mut token, h, 16);
    assert(token@ =~= token_of(name@));
    token
}

/// Every hexadecimal rendering is made of hexadecimal digits only.
proof fn lemma_hex_padded_chars(n: nat, width: nat)
    ensures
        hex_padded(n, width).len() == width,
        forall|i: int| 0 <= i < width ==> hex_digits().contains(#[trigger] hex_padded(n, width)[i]),
    decreases width,
{
    if width > 0 {
        lemma_hex_padded_chars(n / 16, (width - 1) as nat);
        let d = hex_digits()[(n % 16) as int];
        assert(hex_digits()[(n % 16) as int] == d);
        assert(hex_digits().contains(d));
    }
}

/// A token is always eighteen characters drawn from `r`, `_` and the
/// hexadecimal digits, whatever the name: nothing of the name is carried
/// into it beyond its hash.
pub proof fn token_discloses_no_name(name: Seq<char>)
    ensures
        token_of(name).len() == 18,
        forall|i: int| 0 <= i < 18 ==> token_char(#[trigger] token_of(name)[i]),
{
    lemma_hex_padded_chars(default_hash_of_str(name) as nat, 16);
    assert forall|i: int| 0 <= i < 18 implies token_char(#[trigger] token_of(name)[i]) by {
        if i >= 2 {
            assert(token_of(name)[i] == hex_padded(default_hash_of_str(name) as nat, 16)[i - 2]);
        }
    }
}

/// A token is `r_` followed by digits that read back as the hash of the
/// whole name: every character of the name counts, and two names whose
/// hashes differ never share a token.
pub proof fn token_carries_the_whole_names_hash(name: Seq<char>, other: Seq<char>)
    ensures
        token_of(name).subrange(0, 2) == seq!['r', '_'],
        hex_value(token_of(name).subrange(2, 18)) == default_hash_of_str(name),
        default_hash_of_str(name) != default_hash_of_str(other) ==> token_of(name) != token_of(
            other,
        ),
{
    assert(pow16(16) == 0x1_0000_0000_0000_0000) by {
        reveal_with_fuel(pow16, 17);
    }
    lemma_hex_padded_chars(default_hash_of_str(name) as nat, 16);
    lemma_hex_padded_chars(default_hash_of_str(other) as nat, 16);
    hex_padded_reads_back(default_hash_of_str(name) as nat, 16);
    hex_padded_reads_back(default_hash_of_str(other) as nat, 16);
    assert(token_of(name).subrange(2, 18) =~= hex_padded(default_hash_of_str(name) as nat, 16));
    assert(token_of(other).subrange(2, 18) =~= hex_padded(default_hash_of_str(other) as nat, 16));
    assert(token_of(name).subrange(0, 2) =~= seq!['r', '_']);
}

/// The same name always yields the same token.
pub proof fn token_is_stable(a: Seq<char>, b: Seq<char>)
    requires
        a == b,
    ensures
        token_of(a) == token_of(b),
{
}

/// Emittable facts about a vector: its dimension, never its values.
#[derive(Debug, Clone, Copy, PartialEq, Eq, Structural)]
pub struct VectorShape {
    /// Number of components. Discloses nothing about their values.
    pub dim: usize,
}

/// Describe a vector without disclosing it.
pub fn vector_shape<T>(vector: &[T]) -> (shape: VectorShape)
    ensures
        shape.dim == vector@.len(),
{
    VectorShape { dim: vector.len() }
}

impl VectorShape {
    /// The rendering `dim=<n>`, with the dimension in base ten.
    pub fn to_string(&self) -> (s: String)
        ensures
            s@ == seq!['d', 'i', 'm', '='] + crate::text::decimal(self.dim as nat),
    {
        proof {
            reveal_strlit("dim=");
        }
        let mut s = String::from_str("dim=");
        crate::text::push_decimal(&mut s, self.dim);
        s
    }
}

/// The prefix a vault's collection name starts with.
pub open spec fn vault_prefix() -> Seq<char> {
    seq!['v', 'a', 'u', 'l', 't', '/']
}

/// The prefix a collection of vaults starts with.
pub open spec fn vaults_prefix() -> Seq<char> {
    seq!['v', 'a', 'u', 'l', 't', 's', '/']
}

/// Whether `s` begins with `prefix`.
pub open spec fn has_prefix(s: Seq<char>, prefix: Seq<char>) -> bool {
    prefix.len() <= s.len() && s.subrange(0, prefix.len() as int) == prefix
}

/// Whether a collection name refers to a vault.
pub open spec fn names_vault(collection: Seq<char>) -> bool {
    has_prefix(collection, vault_prefix()) || has_prefix(collection, vaults_prefix())
}

/// Whether `s` starts with `prefix`, compared character by character.
pub fn starts_with(s: &str, prefix: &str) -> (b: bool)
    ensures
        b == has_prefix(s@, prefix@),
{
    let n = s.unicode_len();
    let m = prefix.unicode_len();
    if m > n {
        return false;
    }
    let mut i: usize = 0;
    while i < m
        invariant
            m <= n,
            n == s@.len(),
            m == prefix@.len(),
            i <= m,
            forall|j: int| 0 <= j < i ==> s@[j] == prefix@[j],
        decreases m - i,
    {
        if s.get_char(i) != prefix.get_char(i) {
            assert(s@.subrange(0, m as int)[i as int] != prefix@[i as int]);
            return false;
        }
        i = i + 1;
    }
    assert(s@.subrange(0, m as int) =~= prefix@);
    true
}

/// Whether a collection name refers to a vault, and so must not be emitted
/// even as a metric label.
pub fn is_vault(collection: &str) -> (b: bool)
    ensures
        b == names_vault(collection@),
{
    proof {
        reveal_strlit("vault/");
        reveal_strlit("vaults/");
    }
    let a = starts_with(collection, "vault/");
    let b = starts_with(collection, "vaults/");
    assert("vault/"@ =~= vault_prefix());
    assert("vaults/"@ =~= vaults_prefix());
    a || b
}

/// The placeholder emitted in place of a vault's name.
pub open spec fn vault_placeholder() -> Seq<char> {
    seq!['<', 'v', 'a', 'u', 'l', 't', '>']
}

/// The value to emit for a collection — the name, or a fixed placeholder
/// when it is a vault.
pub fn collection_label(collection: &str) -> (label: &str)
    ensures
        names_vault(collection@) ==> label@ == vault_placeholder(),
        !names_vault(collection@) ==> label@ == collection@,
{
    if is_vault(collection) {
        proof {
            reveal_strlit("<vault>");
        }
        let placeholder = "<vault>";
        assert(placeholder@ =~= vault_placeholder());
        placeholder
    } else {
        collection
    }
}

/// A label never discloses a vault's name: whatever the collection, its
/// label is either the placeholder or a name that is not a vault's.
pub proof fn label_never_names_a_vault(collection: Seq<char>, label: Seq<char>)
    requires
        names_vault(collection) ==> label == vault_placeholder(),
        !names_vault(collection) ==> label == collection,
    ensures
        !names_vault(label),
{
    if names_vault(collection) {
        assert(label.subrange(0, 6)[0] == '<');
        assert(!has_prefix(label, vault_prefix()));
        assert(!has_prefix(label, vaults_prefix()));
    }
}

} // verus!
