//! The memory budget: how much of the machine's RAM is assigned to direct
//! memory and heap, by fixed ratios per complexity class, plus the computed
//! metaspace recommendation.
//!
//! Budgets are carried in thousandths of a GB ("mGB") so that the ratio
//! arithmetic stays exact: 8% of 32 GB is the integer 2560 mGB.

use vstd::prelude::*;

use crate::analysis::{calculate_metaspace, spec_metaspace_mb};
use crate::args::{bounded_args, Args, Complexity};

verus! {

/// Upper bound on a memory budget (mGB) the engine is specified for.
pub const MAX_BUDGET_MGB: u64 = 1_000_000_000;

/// Memory assignment for one run, derived once from the profile.
#[derive(Clone, Copy, Debug, PartialEq, Eq, Structural)]
pub struct MemoryBudget {
    /// Direct (off-heap I/O) memory, in thousandths of a GB.
    pub direct_mem_mgb: u64,
    /// Heap memory, in thousandths of a GB.
    pub heap_mem_mgb: u64,
    /// Metaspace, in MB.
    pub metaspace_mb: u64,
}

/// Share of total RAM assigned to direct memory, in thousandths: low
/// complexity needs more heap and gets 6%, high-I/O applications 12%,
/// medium the default 8%.
pub open spec fn spec_direct_ratio_thousandths(c: Complexity) -> int {
    match c {
        Complexity::Low => 60,
        Complexity::Medium => 80,
        Complexity::High => 120,
    }
}

/// Share of total RAM assigned to the heap, in thousandths: 40% for low
/// complexity, 30% for high, 35% by default.
pub open spec fn spec_heap_ratio_thousandths(c: Complexity) -> int {
    match c {
        Complexity::Low => 400,
        Complexity::Medium => 350,
        Complexity::High => 300,
    }
}

/// Direct-memory budget in mGB: the complexity share of total RAM, floored
/// at 1 GB of usable minimum.
pub open spec fn spec_direct_mem_mgb(a: Args) -> int {
    let share = a.total_ram * spec_direct_ratio_thousandths(a.complexity);
    if share > 1000 {
        share
    } else {
        1000
    }
}

/// Heap budget in mGB: the complexity share of total RAM, floored at 4 GB
/// of usable minimum.
pub open spec fn spec_heap_mem_mgb(a: Args) -> int {
    let share = a.total_ram * spec_heap_ratio_thousandths(a.complexity);
    if share > 4000 {
        share
    } else {
        4000
    }
}

/// Derives the memory budget for a profile: direct and heap shares of RAM
/// by complexity class, and the metaspace recommendation.
pub fn derive_memory_budget(a: &Args) -> (b: MemoryBudget)
    requires
        bounded_args(*a),
    ensures
        b.direct_mem_mgb == spec_direct_mem_mgb(*a),
        b.heap_mem_mgb == spec_heap_mem_mgb(*a),
        b.metaspace_mb == spec_metaspace_mb(*a),
        1000 <= b.direct_mem_mgb <= 120_000_000,
        4000 <= b.heap_mem_mgb <= 400_000_000,
{
    let direct_ratio: u64 = match a.complexity {
        Complexity::Low => 60,
        Complexity::Medium => 80,
        Complexity::High => 120,
    };
    let heap_ratio: u64 = match a.complexity {
        Complexity::Low => 400,
        Complexity::Medium => 350,
        Complexity::High => 300,
    };
    let direct_share = a.total_ram * direct_ratio;
    let heap_share = a.total_ram * heap_ratio;
    MemoryBudget {
        direct_mem_mgb: if direct_share > 1000 {
            direct_share
        } else {
            1000
        },
        heap_mem_mgb: if heap_share > 4000 {
            heap_share
        } else {
            4000
        },
        metaspace_mb: calculate_metaspace(a) as u64,
    }
}

} // verus!
