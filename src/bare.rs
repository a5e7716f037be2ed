use vstd::prelude::*;

use crate::common::{topology_wf, CpuTopology};
use crate::topology::{flat_groups, flat_topology};
use crate::features::{CpuFeatures, InstructionSet};

verus! {

/// Capability flags where nothing can be probed: none.
pub fn get_features() -> (r: CpuFeatures)
    ensures
        forall|f: InstructionSet| !#[trigger] r.has(f),
{
    CpuFeatures::default()
}

/// Topology where no hybrid information can be probed: flat, one "standard"
/// group holding all `n` logical processors.
pub fn get_topology(n: usize) -> (r: CpuTopology)
    ensures
        topology_wf(r, n as nat),
        !r.is_hybrid,
        flat_groups(r.core_types@, n as nat),
{
    flat_topology(n)
}

} // verus!
