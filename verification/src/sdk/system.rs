//! What the engine found when it started.
use crate::sdk::wire;
use vstd::prelude::*;

verus! {

/// How the device memory ceiling was determined.
///
/// An estimate on a discrete card overshoots, and someone sizing a
/// deployment has to be able to tell which kind of number they are reading.
#[derive(Debug, Clone, Copy, PartialEq, Eq, Structural)]
pub enum BudgetSource {
    /// Read from the device.
    Measured,
    /// Inferred, because the backend reports no ceiling.
    Estimated,
    /// Set by configuration, overriding what the device reports.
    Configured,
}

/// What a wire number means: the source it names, and an estimate — the
/// weakest claim of the three — for anything unrecognised.
pub open spec fn budget_source_of(value: i32) -> BudgetSource {
    if value == wire::BUDGET_SOURCE_MEASURED {
        BudgetSource::Measured
    } else if value == wire::BUDGET_SOURCE_CONFIGURED {
        BudgetSource::Configured
    } else {
        BudgetSource::Estimated
    }
}

/// The name of a budget source across the IPC boundary.
pub open spec fn budget_source_name(source: BudgetSource) -> Seq<char> {
    match source {
        BudgetSource::Measured => seq!['m', 'e', 'a', 's', 'u', 'r', 'e', 'd'],
        BudgetSource::Estimated => seq!['e', 's', 't', 'i', 'm', 'a', 't', 'e', 'd'],
        BudgetSource::Configured => seq!['c', 'o', 'n', 'f', 'i', 'g', 'u', 'r', 'e', 'd'],
    }
}

impl BudgetSource {
    /// Read a wire value, treating anything unknown as an estimate: the
    /// claim that promises least rather than a measurement nobody took.
    fn from_wire(value: i32) -> (source: BudgetSource)
        ensures
            source == budget_source_of(value),
    {
        if value == wire::BUDGET_SOURCE_MEASURED {
            BudgetSource::Measured
        } else if value == wire::BUDGET_SOURCE_CONFIGURED {
            BudgetSource::Configured
        } else {
            BudgetSource::Estimated
        }
    }

    /// The name used across the IPC boundary and in the window.
    pub fn as_str(self) -> (s: &'static str)
        ensures
            s@ == budget_source_name(self),
    {
        match self {
            BudgetSource::Measured => {
                proof {
                    reveal_strlit("measured");
                }
                "measured"
            },
            BudgetSource::Estimated => {
                proof {
                    reveal_strlit("estimated");
                }
                "estimated"
            },
            BudgetSource::Configured => {
                proof {
                    reveal_strlit("configured");
                }
                "configured"
            },
        }
    }
}

/// A number that names no budget source reads as an estimate, the claim
/// that promises least, rather than as a measurement nobody took.
pub proof fn unknown_budget_source_reads_as_estimate(value: i32)
    requires
        value != wire::BUDGET_SOURCE_MEASURED,
        value != wire::BUDGET_SOURCE_CONFIGURED,
    ensures
        budget_source_of(value) == BudgetSource::Estimated,
{
}

/// Each budget-source wire value reads as the source of its own name.
pub proof fn budget_sources_read_as_named()
    ensures
        budget_source_name(budget_source_of(wire::BUDGET_SOURCE_MEASURED)) == "measured"@,
        budget_source_name(budget_source_of(wire::BUDGET_SOURCE_ESTIMATED)) == "estimated"@,
        budget_source_name(budget_source_of(wire::BUDGET_SOURCE_CONFIGURED)) == "configured"@,
{
    reveal_strlit("measured");
    reveal_strlit("estimated");
    reveal_strlit("configured");
    assert(budget_source_name(BudgetSource::Measured) =~= "measured"@);
    assert(budget_source_name(BudgetSource::Estimated) =~= "estimated"@);
    assert(budget_source_name(BudgetSource::Configured) =~= "configured"@);
}

/// The compute environment a running engine selected.
#[derive(Debug, Clone)]
pub struct System {
    /// The selected backend: `metal`, `cuda`, `cpu`, and so on.
    pub backend: String,
    /// Human-readable device description.
    pub device: String,
    /// Device memory ceiling this process will use. Zero when none is reported.
    pub budget_limit_bytes: i64,
    /// Device memory currently held by resident models and indexes.
    pub budget_used_bytes: i64,
    /// Whether the ceiling was measured, estimated, or configured.
    pub budget_source: BudgetSource,
    /// Version of the engine build that answered.
    pub version: String,
}

impl From<wire::System> for System {
    fn from(s: wire::System) -> (system: Self) {
        Self {
            backend: s.backend,
            device: s.device,
            budget_limit_bytes: s.budget_limit_bytes,
            budget_used_bytes: s.budget_used_bytes,
            budget_source: BudgetSource::from_wire(s.budget_source),
            version: s.version,
        }
    }
}

impl vstd::std_specs::convert::FromSpecImpl<wire::System> for System {
    open spec fn obeys_from_spec() -> bool {
        true
    }

    open spec fn from_spec(s: wire::System) -> Self {
        System {
            backend: s.backend,
            device: s.device,
            budget_limit_bytes: s.budget_limit_bytes,
            budget_used_bytes: s.budget_used_bytes,
            budget_source: budget_source_of(s.budget_source),
            version: s.version,
        }
    }
}

} // verus!
