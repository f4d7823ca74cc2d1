//! Organizations, projects and spaces, as a caller sees them.
//!
//! Plain types rather than the wire messages: a caller should not have to
//! know that absence is an `Option` of a timestamp message.
use crate::sdk::wire;
use vstd::prelude::*;

verus! {

/// How a space is protected, which decides what may be done with its
/// contents. Declared when the space is created and never changed after.
#[derive(Debug, Clone, Copy, PartialEq, Eq, Structural)]
pub enum Protection {
    /// Visible according to ordinary role grants on the containing projects;
    /// the wire's `PROTECTION_NONE`.
    NoProtection,
    /// Restricted by an owner predicate. An ACL, not a cryptographic guarantee.
    Private,
    /// Key-wrapped. The engine holds the key.
    Vault,
    /// Key-wrapped with a key the client holds.
    Sealed,
}

/// The wire number of a protection.
pub open spec fn protection_number(p: Protection) -> i32 {
    match p {
        Protection::NoProtection => wire::PROTECTION_NONE,
        Protection::Private => wire::PROTECTION_PRIVATE,
        Protection::Vault => wire::PROTECTION_VAULT,
        Protection::Sealed => wire::PROTECTION_SEALED,
    }
}

/// What a wire number means: the protection it names, and the strongest
/// one for anything unrecognised — including `UNSPECIFIED`.
pub open spec fn protection_of(value: i32) -> Protection {
    if value == wire::PROTECTION_NONE {
        Protection::NoProtection
    } else if value == wire::PROTECTION_PRIVATE {
        Protection::Private
    } else if value == wire::PROTECTION_VAULT {
        Protection::Vault
    } else {
        Protection::Sealed
    }
}

/// The name of a protection in configuration and across the IPC boundary.
pub open spec fn protection_name(p: Protection) -> Seq<char> {
    match p {
        Protection::NoProtection => seq!['n', 'o', 'n', 'e'],
        Protection::Private => seq!['p', 'r', 'i', 'v', 'a', 't', 'e'],
        Protection::Vault => seq!['v', 'a', 'u', 'l', 't'],
        Protection::Sealed => seq!['s', 'e', 'a', 'l', 'e', 'd'],
    }
}

impl Protection {
    /// The wire value for this protection.
    pub fn as_wire(self) -> (value: i32)
        ensures
            value == protection_number(self),
    {
        match self {
            Protection::NoProtection => wire::PROTECTION_NONE,
            Protection::Private => wire::PROTECTION_PRIVATE,
            Protection::Vault => wire::PROTECTION_VAULT,
            Protection::Sealed => wire::PROTECTION_SEALED,
        }
    }

    /// Read a wire value, treating anything unrecognised as the safest
    /// option: a value this build does not know is more likely a protection
    /// added later than a corrupt byte, and reading it as unprotected would
    /// expose what the writer meant to restrict.
    pub fn from_wire(value: i32) -> (p: Protection)
        ensures
            p == protection_of(value),
    {
        if value == wire::PROTECTION_NONE {
            Protection::NoProtection
        } else if value == wire::PROTECTION_PRIVATE {
            Protection::Private
        } else if value == wire::PROTECTION_VAULT {
            Protection::Vault
        } else {
            Protection::Sealed
        }
    }

    /// The name used in configuration and across the IPC boundary.
    pub fn as_str(self) -> (s: &'static str)
        ensures
            s@ == protection_name(self),
    {
        match self {
            Protection::NoProtection => {
                proof {
                    reveal_strlit("none");
                }
                "none"
            },
            Protection::Private => {
                proof {
                    reveal_strlit("private");
                }
                "private"
            },
            Protection::Vault => {
                proof {
                    reveal_strlit("vault");
                }
                "vault"
            },
            Protection::Sealed => {
                proof {
                    reveal_strlit("sealed");
                }
                "sealed"
            },
        }
    }
}

/// Every protection survives the trip to the wire and back.
pub proof fn protection_round_trips(p: Protection)
    ensures
        protection_of(protection_number(p)) == p,
{
}

/// Reading the wire never weakens protection below what was unrecognised:
/// any number that names no protection reads as the strongest one.
pub proof fn unknown_protection_fails_secure(value: i32)
    requires
        forall|p: Protection| protection_number(p) != value,
    ensures
        protection_of(value) == Protection::Sealed,
{
    assert(protection_number(Protection::NoProtection) != value);
    assert(protection_number(Protection::Private) != value);
    assert(protection_number(Protection::Vault) != value);
}

/// Each protection travels as the wire value of its own name, and each of
/// those wire values reads back as the protection it names: a space created
/// private is sent as private, never as unprotected.
pub proof fn protection_wire_values_name_themselves(p: Protection)
    ensures
        protection_name(p) == "none"@ <==> protection_number(p) == wire::PROTECTION_NONE,
        protection_name(p) == "private"@ <==> protection_number(p) == wire::PROTECTION_PRIVATE,
        protection_name(p) == "vault"@ <==> protection_number(p) == wire::PROTECTION_VAULT,
        protection_name(p) == "sealed"@ <==> protection_number(p) == wire::PROTECTION_SEALED,
        protection_of(wire::PROTECTION_NONE) == Protection::NoProtection,
        protection_of(wire::PROTECTION_PRIVATE) == Protection::Private,
        protection_of(wire::PROTECTION_VAULT) == Protection::Vault,
        protection_of(wire::PROTECTION_SEALED) == Protection::Sealed,
{
    reveal_strlit("none");
    reveal_strlit("private");
    reveal_strlit("vault");
    reveal_strlit("sealed");
    assert(protection_name(Protection::NoProtection) =~= "none"@);
    assert(protection_name(Protection::Private) =~= "private"@);
    assert(protection_name(Protection::Vault) =~= "vault"@);
    assert(protection_name(Protection::Sealed) =~= "sealed"@);
}

/// A tenant: the top of the resource hierarchy.
#[derive(Debug, Clone)]
pub struct Organization {
    /// Resource name, `organizations/{organization}`.
    pub name: String,
    /// What a person calls it.
    pub display_name: String,
    /// How many projects it holds.
    pub project_count: i32,
    /// How many spaces it holds.
    pub space_count: i32,
    /// Whether it is soft-deleted and awaiting purge.
    pub deleted: bool,
}

impl From<wire::Organization> for Organization {
    fn from(o: wire::Organization) -> (org: Self) {
        Self {
            name: o.name,
            display_name: o.display_name,
            project_count: o.project_count,
            space_count: o.space_count,
            deleted: o.delete_time.is_some(),
        }
    }
}

impl vstd::std_specs::convert::FromSpecImpl<wire::Organization> for Organization {
    open spec fn obeys_from_spec() -> bool {
        true
    }

    open spec fn from_spec(o: wire::Organization) -> Self {
        Organization {
            name: o.name,
            display_name: o.display_name,
            project_count: o.project_count,
            space_count: o.space_count,
            deleted: o.delete_time is Some,
        }
    }
}

/// A unit of work inside an organization.
#[derive(Debug, Clone)]
pub struct Project {
    /// Resource name, `organizations/{organization}/projects/{project}`.
    pub name: String,
    /// What a person calls it.
    pub display_name: String,
    /// Whether it is soft-deleted and awaiting purge.
    pub deleted: bool,
}

impl From<wire::Project> for Project {
    fn from(p: wire::Project) -> (project: Self) {
        Self { name: p.name, display_name: p.display_name, deleted: p.delete_time.is_some() }
    }
}

impl vstd::std_specs::convert::FromSpecImpl<wire::Project> for Project {
    open spec fn obeys_from_spec() -> bool {
        true
    }

    open spec fn from_spec(p: wire::Project) -> Self {
        Project { name: p.name, display_name: p.display_name, deleted: p.delete_time is Some }
    }
}

/// A protection boundary, which may span several projects: a sibling of a
/// project rather than a child, at `organizations/{organization}/spaces/{space}`.
#[derive(Debug, Clone)]
pub struct Space {
    /// Resource name, `organizations/{organization}/spaces/{space}`.
    pub name: String,
    /// What a person calls it.
    pub display_name: String,
    /// Projects this space serves, by resource name.
    pub projects: Vec<String>,
    /// How it is protected. Fixed at creation.
    pub protection: Protection,
    /// Whether its key is currently unavailable.
    pub locked: bool,
    /// Whether it is soft-deleted and awaiting purge.
    pub deleted: bool,
}

impl From<wire::Space> for Space {
    fn from(s: wire::Space) -> (space: Self) {
        Self {
            name: s.name,
            display_name: s.display_name,
            projects: s.projects,
            protection: Protection::from_wire(s.protection),
            locked: s.locked,
            deleted: s.delete_time.is_some(),
        }
    }
}

impl vstd::std_specs::convert::FromSpecImpl<wire::Space> for Space {
    open spec fn obeys_from_spec() -> bool {
        true
    }

    open spec fn from_spec(s: wire::Space) -> Self {
        Space {
            name: s.name,
            display_name: s.display_name,
            projects: s.projects,
            protection: protection_of(s.protection),
            locked: s.locked,
            deleted: s.delete_time is Some,
        }
    }
}

} // verus!
