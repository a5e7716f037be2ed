use vstd::prelude::*;

use crate::cache::{ready_entries, CachePhase, CoreCache};
use crate::features::CpuFeatures;
use crate::topology::{build_topology, builds_topology};
use crate::x86::{all_cpuinfos, gather};

verus! {

/// One group of logical processors that share a core class.
#[derive(Clone, Debug, PartialEq, Eq, Hash)]
pub struct CoreTypeInfo {
    /// "Performance", "Efficiency", "Unclassified", a capacity value, or "standard".
    pub identifier: String,
    /// Numeric efficiency class, where the source provides one.
    pub efficiency_class: Option<u8>,
    /// Number of logical processors in the group.
    pub count: usize,
}

/// Core topology: whether the machine is hybrid, and its groups.
#[derive(Clone, Debug, PartialEq, Eq, Hash)]
pub struct CpuTopology {
    /// True where more than one class of core is present.
    pub is_hybrid: bool,
    /// One entry per class, in order of first appearance.
    pub core_types: Vec<CoreTypeInfo>,
}

/// Capabilities and topology of the machine, as seen from one processor.
#[derive(Clone, Debug, PartialEq, Eq, Hash)]
pub struct CpuInfo {
    /// Architecture tag, e.g. "x86_64".
    pub architecture: &'static str,
    /// Capability flags of the processor the query ran on.
    pub features: CpuFeatures,
    /// Core topology and hybrid grouping.
    pub topology: CpuTopology,
}

/// The number of logical processors over all groups.
pub open spec fn total_count(g: Seq<CoreTypeInfo>) -> nat
    decreases g.len(),
{
    if g.len() == 0 {
        0
    } else {
        total_count(g.drop_last()) + g.last().count as nat
    }
}

/// A topology of `n` logical processors: the group counts are positive and add
/// up to `n`; it is hybrid exactly when it has two groups or more, and a flat
/// topology of at least one processor has exactly one group.
pub open spec fn topology_wf(t: CpuTopology, n: nat) -> bool {
    &&& total_count(t.core_types@) == n
    &&& forall|j: int| 0 <= j < t.core_types@.len() ==> #[trigger] t.core_types@[j].count > 0
    &&& t.is_hybrid <==> t.core_types@.len() >= 2
    &&& n > 0 && !t.is_hybrid ==> t.core_types@.len() == 1
}

impl CpuInfo {
    /// The core-type group of the processor the query ran on: the first group,
    /// which is the only one of a flat topology.
    pub fn current_core_type(&self) -> (r: Option<&CoreTypeInfo>)
        ensures
            self.topology.core_types@.len() > 0 ==> r == Some(&self.topology.core_types@[0]),
            self.topology.core_types@.len() == 0 ==> r is None,
    {
        current_core_type(&self.topology)
    }
}

/// The first group of `topology`, if any.
fn current_core_type(topology: &CpuTopology) -> (r: Option<&CoreTypeInfo>)
    ensures
        topology.core_types@.len() > 0 ==> r == Some(&topology.core_types@[0]),
        topology.core_types@.len() == 0 ==> r is None,
{
    if topology.core_types.len() > 0 {
        Some(&topology.core_types[0])
    } else {
        None
    }
}

} // verus!

verus! {

/// The machine snapshot seen from logical processor `current` of a ready
/// cache (processor 0 where `current` is out of range): its capability flags,
/// and the topology of all processors, grouped as `build_topology` does with
/// the capacities that the operating system reports.
pub fn detect(
    architecture: &'static str,
    cache: &CoreCache,
    current: usize,
    capacities: &[u64],
) -> (r: CpuInfo)
    requires
        cache@.phase == CachePhase::Ready,
        cache@.slots.len() > 0,
    ensures
        r.architecture == architecture,
        current < cache@.slots.len() ==> r.features == ready_entries(cache@)[current as int].features,
        current >= cache@.slots.len() ==> r.features == ready_entries(cache@)[0].features,
        builds_topology(r.topology, ready_entries(cache@), capacities@),
{
    let info = gather(cache, current);
    let topology = build_topology(all_cpuinfos(cache), capacities);
    CpuInfo { architecture, features: info.features, topology }
}

} // verus!
