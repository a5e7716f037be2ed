//! Capability flags and core topology of the processors of a machine.
use vstd::prelude::*;

pub mod arm;
pub mod bare;
pub mod cache;
pub mod common;
pub mod cpuinfo;
pub mod features;
pub mod leaf;
pub mod riscv;
pub mod text;
pub mod topology;
pub mod x86;

pub use features::{CpuFeatures, InstructionSet};

use features::{architecture_of, flag_architecture, Architecture};

use arm::ArmCpuInfo;
use cache::{ready_entries, CachePhase, CoreCache};
use riscv::RiscVCpuInfo;
use x86::{gather, X86CpuInfo};

verus! {

/// What the processor of each supported architecture reports.
#[derive(Debug, Clone)]
pub enum CpuInfo {
    X86(X86CpuInfo),
    Arm(ArmCpuInfo),
    RiscV(RiscVCpuInfo),
}

impl CpuInfo {
    /// The capability flags of this processor.
    pub open spec fn features(self) -> CpuFeatures {
        match self {
            CpuInfo::X86(i) => i.features,
            CpuInfo::Arm(i) => i.features,
            CpuInfo::RiscV(i) => i.features,
        }
    }

    /// The architecture family of this processor.
    pub open spec fn architecture(self) -> Architecture {
        match self {
            CpuInfo::X86(_) => Architecture::X86,
            CpuInfo::Arm(_) => Architecture::Arm,
            CpuInfo::RiscV(_) => Architecture::RiscV,
        }
    }

    /// Whether the processor supports `feature`: a flag of another
    /// architecture is never supported.
    pub fn has_feature(&self, feature: InstructionSet) -> (r: bool)
        ensures
            r == (flag_architecture(feature) == self.architecture() && self.features().has(
                feature,
            )),
    {
        let family = architecture_of(feature);
        match self {
            CpuInfo::X86(i) => family == Architecture::X86 && i.features.contains(feature),
            CpuInfo::Arm(i) => family == Architecture::Arm && i.features.contains(feature),
            CpuInfo::RiscV(i) => family == Architecture::RiscV && i.features.contains(feature),
        }
    }
}

/// The information of logical processor `current` of a ready cache, or of
/// processor 0 where `current` is out of range.
pub fn get_cpu_info(cache: &CoreCache, current: usize) -> (r: CpuInfo)
    requires
        cache@.phase == CachePhase::Ready,
        cache@.slots.len() > 0,
    ensures
        current < cache@.slots.len() ==> r == CpuInfo::X86(ready_entries(cache@)[current as int]),
        current >= cache@.slots.len() ==> r == CpuInfo::X86(ready_entries(cache@)[0]),
{
    CpuInfo::X86(gather(cache, current))
}

} // verus!
