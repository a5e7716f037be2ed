use vstd::prelude::*;

use crate::leaf::{
    bit_set, centaur_supported, eff_centaur_1, eff_ext_1, eff_leaf_1, eff_leaf_7,
    clear_bit, extended_supported, lemma_zero_has_no_bit, select_leaf, set_bit, standard_supported,
    test_bit, RawCpuid,
    LEAF_CENTAUR_FEATURES, LEAF_CENTAUR_MAX, LEAF_EXT_FEATURES, LEAF_EXT_MAX, LEAF_FEATURES,
    LEAF_STRUCTURED,
};

verus! {

/// The named capability flags, across all supported architectures.
#[derive(Clone, Copy, Debug, PartialEq, Eq, Hash, Structural)]
pub enum InstructionSet {
    // Leaf 1, EDX.
    FPU,
    VME,
    DE,
    PSE,
    TSC,
    MSR,
    PAE,
    MCE,
    CX8,
    APIC,
    SEP,
    MTRR,
    PGE,
    MCA,
    CMOV,
    PAT,
    PSE36,
    PSN,
    CLFLUSH,
    DS,
    ACPI,
    MMX,
    FXSR,
    SSE,
    SSE2,
    SS,
    HTT,
    TM,
    IA64,
    PBE,
    // Leaf 1, ECX.
    SSE3,
    PCLMULQDQ,
    DTES64,
    MONITOR,
    DsCpl,
    VMX,
    SMX,
    EST,
    TM2,
    SSSE3,
    CnxtId,
    FMA,
    CX16,
    XTPR,
    PDCM,
    PCID,
    DCA,
    SSE41,
    SSE42,
    X2APIC,
    MOVBE,
    POPCNT,
    TscDeadline,
    AES,
    XSAVE,
    OSXSAVE,
    AVX,
    F16C,
    RDRAND,
    // Leaf 7 subleaf 0, EBX.
    FSGSBASE,
    SGX,
    BMI1,
    HLE,
    AVX2,
    SMEP,
    BMI2,
    ERMS,
    INVPCID,
    RTM,
    MPX,
    AVX512F,
    AVX512DQ,
    RDSEED,
    ADX,
    SMAP,
    AVX512IFMA,
    CLFLUSHOPT,
    CLWB,
    AVX512PF,
    AVX512ER,
    AVX512CD,
    SHA,
    AVX512BW,
    AVX512VL,
    // Leaf 7 subleaf 0, ECX.
    PREFETCHWT1,
    AVX512VBMI,
    AVX512PKU,
    AVX512VBMI2,
    MOVDIRI,
    MOVDIR64B,
    // Leaf 0x8000_0001, ECX (AMD-defined).
    LahfLm,
    CmpLegacy,
    SVM,
    EXTAPIC,
    Cr8Legacy,
    LZCNT,
    SSE4A,
    MisalignSse,
    PREFETCHW,
    OSVW,
    IBS,
    XOP,
    SKINIT,
    WDT,
    // Leaf 0x8000_0001, EDX (AMD-defined).
    D3DNOWEXT,
    D3DNOW,
    // Leaf 0xc000_0001, EDX (VIA PadLock).
    PadlockRng,
    PadlockAce,
    PadlockAce2,
    PadlockPhe,
    PadlockPmm,
    // Flags of other architectures, reported by their operating systems.
    NEON,
    ArmAes,
    PMULL,
    SHA1,
    SHA2,
    CRC32,
    RvI,
    RvM,
    RvA,
    RvF,
    RvD,
    RvC,
}

/// The register word that a capability flag is decoded from.
#[derive(Clone, Copy, Debug, PartialEq, Eq, Hash, Structural)]
pub enum FeatureWord {
    Leaf1Edx,
    Leaf1Ecx,
    Leaf7Ebx,
    Leaf7Ecx,
    Ext1Ecx,
    Ext1Edx,
    Centaur1Edx,
    /// Flags that other architectures' operating systems report.
    Platform,
}

/// The capability table: the register word and bit index that each flag is
/// decoded from. Decoding and every query consult this one table.
pub open spec fn flag_location(f: InstructionSet) -> (FeatureWord, u32) {
    match f {
        InstructionSet::FPU => (FeatureWord::Leaf1Edx, 0),
        InstructionSet::VME => (FeatureWord::Leaf1Edx, 1),
        InstructionSet::DE => (FeatureWord::Leaf1Edx, 2),
        InstructionSet::PSE => (FeatureWord::Leaf1Edx, 3),
        InstructionSet::TSC => (FeatureWord::Leaf1Edx, 4),
        InstructionSet::MSR => (FeatureWord::Leaf1Edx, 5),
        InstructionSet::PAE => (FeatureWord::Leaf1Edx, 6),
        InstructionSet::MCE => (FeatureWord::Leaf1Edx, 7),
        InstructionSet::CX8 => (FeatureWord::Leaf1Edx, 8),
        InstructionSet::APIC => (FeatureWord::Leaf1Edx, 9),
        InstructionSet::SEP => (FeatureWord::Leaf1Edx, 11),
        InstructionSet::MTRR => (FeatureWord::Leaf1Edx, 12),
        InstructionSet::PGE => (FeatureWord::Leaf1Edx, 13),
        InstructionSet::MCA => (FeatureWord::Leaf1Edx, 14),
        InstructionSet::CMOV => (FeatureWord::Leaf1Edx, 15),
        InstructionSet::PAT => (FeatureWord::Leaf1Edx, 16),
        InstructionSet::PSE36 => (FeatureWord::Leaf1Edx, 17),
        InstructionSet::PSN => (FeatureWord::Leaf1Edx, 18),
        InstructionSet::CLFLUSH => (FeatureWord::Leaf1Edx, 19),
        InstructionSet::DS => (FeatureWord::Leaf1Edx, 21),
        InstructionSet::ACPI => (FeatureWord::Leaf1Edx, 22),
        InstructionSet::MMX => (FeatureWord::Leaf1Edx, 23),
        InstructionSet::FXSR => (FeatureWord::Leaf1Edx, 24),
        InstructionSet::SSE => (FeatureWord::Leaf1Edx, 25),
        InstructionSet::SSE2 => (FeatureWord::Leaf1Edx, 26),
        InstructionSet::SS => (FeatureWord::Leaf1Edx, 27),
        InstructionSet::HTT => (FeatureWord::Leaf1Edx, 28),
        InstructionSet::TM => (FeatureWord::Leaf1Edx, 29),
        InstructionSet::IA64 => (FeatureWord::Leaf1Edx, 30),
        InstructionSet::PBE => (FeatureWord::Leaf1Edx, 31),
        InstructionSet::SSE3 => (FeatureWord::Leaf1Ecx, 0),
        InstructionSet::PCLMULQDQ => (FeatureWord::Leaf1Ecx, 1),
        InstructionSet::DTES64 => (FeatureWord::Leaf1Ecx, 2),
        InstructionSet::MONITOR => (FeatureWord::Leaf1Ecx, 3),
        InstructionSet::DsCpl => (FeatureWord::Leaf1Ecx, 4),
        InstructionSet::VMX => (FeatureWord::Leaf1Ecx, 5),
        InstructionSet::SMX => (FeatureWord::Leaf1Ecx, 6),
        InstructionSet::EST => (FeatureWord::Leaf1Ecx, 7),
        InstructionSet::TM2 => (FeatureWord::Leaf1Ecx, 8),
        InstructionSet::SSSE3 => (FeatureWord::Leaf1Ecx, 9),
        InstructionSet::CnxtId => (FeatureWord::Leaf1Ecx, 10),
        InstructionSet::FMA => (FeatureWord::Leaf1Ecx, 12),
        InstructionSet::CX16 => (FeatureWord::Leaf1Ecx, 13),
        InstructionSet::XTPR => (FeatureWord::Leaf1Ecx, 14),
        InstructionSet::PDCM => (FeatureWord::Leaf1Ecx, 15),
        InstructionSet::PCID => (FeatureWord::Leaf1Ecx, 17),
        InstructionSet::DCA => (FeatureWord::Leaf1Ecx, 18),
        InstructionSet::SSE41 => (FeatureWord::Leaf1Ecx, 19),
        InstructionSet::SSE42 => (FeatureWord::Leaf1Ecx, 20),
        InstructionSet::X2APIC => (FeatureWord::Leaf1Ecx, 21),
        InstructionSet::MOVBE => (FeatureWord::Leaf1Ecx, 22),
        InstructionSet::POPCNT => (FeatureWord::Leaf1Ecx, 23),
        InstructionSet::TscDeadline => (FeatureWord::Leaf1Ecx, 24),
        InstructionSet::AES => (FeatureWord::Leaf1Ecx, 25),
        InstructionSet::XSAVE => (FeatureWord::Leaf1Ecx, 26),
        InstructionSet::OSXSAVE => (FeatureWord::Leaf1Ecx, 27),
        InstructionSet::AVX => (FeatureWord::Leaf1Ecx, 28),
        InstructionSet::F16C => (FeatureWord::Leaf1Ecx, 29),
        InstructionSet::RDRAND => (FeatureWord::Leaf1Ecx, 30),
        InstructionSet::FSGSBASE => (FeatureWord::Leaf7Ebx, 0),
        InstructionSet::SGX => (FeatureWord::Leaf7Ebx, 2),
        InstructionSet::BMI1 => (FeatureWord::Leaf7Ebx, 3),
        InstructionSet::HLE => (FeatureWord::Leaf7Ebx, 4),
        InstructionSet::AVX2 => (FeatureWord::Leaf7Ebx, 5),
        InstructionSet::SMEP => (FeatureWord::Leaf7Ebx, 7),
        InstructionSet::BMI2 => (FeatureWord::Leaf7Ebx, 8),
        InstructionSet::ERMS => (FeatureWord::Leaf7Ebx, 9),
        InstructionSet::INVPCID => (FeatureWord::Leaf7Ebx, 10),
        InstructionSet::RTM => (FeatureWord::Leaf7Ebx, 11),
        InstructionSet::MPX => (FeatureWord::Leaf7Ebx, 14),
        InstructionSet::AVX512F => (FeatureWord::Leaf7Ebx, 16),
        InstructionSet::AVX512DQ => (FeatureWord::Leaf7Ebx, 17),
        InstructionSet::RDSEED => (FeatureWord::Leaf7Ebx, 18),
        InstructionSet::ADX => (FeatureWord::Leaf7Ebx, 19),
        InstructionSet::SMAP => (FeatureWord::Leaf7Ebx, 20),
        InstructionSet::AVX512IFMA => (FeatureWord::Leaf7Ebx, 21),
        InstructionSet::CLFLUSHOPT => (FeatureWord::Leaf7Ebx, 23),
        InstructionSet::CLWB => (FeatureWord::Leaf7Ebx, 24),
        InstructionSet::AVX512PF => (FeatureWord::Leaf7Ebx, 26),
        InstructionSet::AVX512ER => (FeatureWord::Leaf7Ebx, 27),
        InstructionSet::AVX512CD => (FeatureWord::Leaf7Ebx, 28),
        InstructionSet::SHA => (FeatureWord::Leaf7Ebx, 29),
        InstructionSet::AVX512BW => (FeatureWord::Leaf7Ebx, 30),
        InstructionSet::AVX512VL => (FeatureWord::Leaf7Ebx, 31),
        InstructionSet::PREFETCHWT1 => (FeatureWord::Leaf7Ecx, 0),
        InstructionSet::AVX512VBMI => (FeatureWord::Leaf7Ecx, 1),
        InstructionSet::AVX512PKU => (FeatureWord::Leaf7Ecx, 3),
        InstructionSet::AVX512VBMI2 => (FeatureWord::Leaf7Ecx, 6),
        InstructionSet::MOVDIRI => (FeatureWord::Leaf7Ecx, 27),
        InstructionSet::MOVDIR64B => (FeatureWord::Leaf7Ecx, 28),
        InstructionSet::LahfLm => (FeatureWord::Ext1Ecx, 0),
        InstructionSet::CmpLegacy => (FeatureWord::Ext1Ecx, 1),
        InstructionSet::SVM => (FeatureWord::Ext1Ecx, 2),
        InstructionSet::EXTAPIC => (FeatureWord::Ext1Ecx, 3),
        InstructionSet::Cr8Legacy => (FeatureWord::Ext1Ecx, 4),
        InstructionSet::LZCNT => (FeatureWord::Ext1Ecx, 5),
        InstructionSet::SSE4A => (FeatureWord::Ext1Ecx, 6),
        InstructionSet::MisalignSse => (FeatureWord::Ext1Ecx, 7),
        InstructionSet::PREFETCHW => (FeatureWord::Ext1Ecx, 8),
        InstructionSet::OSVW => (FeatureWord::Ext1Ecx, 9),
        InstructionSet::IBS => (FeatureWord::Ext1Ecx, 10),
        InstructionSet::XOP => (FeatureWord::Ext1Ecx, 11),
        InstructionSet::SKINIT => (FeatureWord::Ext1Ecx, 12),
        InstructionSet::WDT => (FeatureWord::Ext1Ecx, 13),
        InstructionSet::D3DNOWEXT => (FeatureWord::Ext1Edx, 30),
        InstructionSet::D3DNOW => (FeatureWord::Ext1Edx, 31),
        InstructionSet::PadlockRng => (FeatureWord::Centaur1Edx, 2),
        InstructionSet::PadlockAce => (FeatureWord::Centaur1Edx, 6),
        InstructionSet::PadlockAce2 => (FeatureWord::Centaur1Edx, 8),
        InstructionSet::PadlockPhe => (FeatureWord::Centaur1Edx, 10),
        InstructionSet::PadlockPmm => (FeatureWord::Centaur1Edx, 12),
        InstructionSet::NEON => (FeatureWord::Platform, 0),
        InstructionSet::ArmAes => (FeatureWord::Platform, 1),
        InstructionSet::PMULL => (FeatureWord::Platform, 2),
        InstructionSet::SHA1 => (FeatureWord::Platform, 3),
        InstructionSet::SHA2 => (FeatureWord::Platform, 4),
        InstructionSet::CRC32 => (FeatureWord::Platform, 5),
        InstructionSet::RvI => (FeatureWord::Platform, 8),
        InstructionSet::RvM => (FeatureWord::Platform, 9),
        InstructionSet::RvA => (FeatureWord::Platform, 10),
        InstructionSet::RvF => (FeatureWord::Platform, 11),
        InstructionSet::RvD => (FeatureWord::Platform, 12),
        InstructionSet::RvC => (FeatureWord::Platform, 13),
    }
}

/// Looks a flag up in the capability table.
pub fn location_of(f: InstructionSet) -> (r: (FeatureWord, u32))
    ensures
        r == flag_location(f),
{
    match f {
        InstructionSet::FPU => (FeatureWord::Leaf1Edx, 0),
        InstructionSet::VME => (FeatureWord::Leaf1Edx, 1),
        InstructionSet::DE => (FeatureWord::Leaf1Edx, 2),
        InstructionSet::PSE => (FeatureWord::Leaf1Edx, 3),
        InstructionSet::TSC => (FeatureWord::Leaf1Edx, 4),
        InstructionSet::MSR => (FeatureWord::Leaf1Edx, 5),
        InstructionSet::PAE => (FeatureWord::Leaf1Edx, 6),
        InstructionSet::MCE => (FeatureWord::Leaf1Edx, 7),
        InstructionSet::CX8 => (FeatureWord::Leaf1Edx, 8),
        InstructionSet::APIC => (FeatureWord::Leaf1Edx, 9),
        InstructionSet::SEP => (FeatureWord::Leaf1Edx, 11),
        InstructionSet::MTRR => (FeatureWord::Leaf1Edx, 12),
        InstructionSet::PGE => (FeatureWord::Leaf1Edx, 13),
        InstructionSet::MCA => (FeatureWord::Leaf1Edx, 14),
        InstructionSet::CMOV => (FeatureWord::Leaf1Edx, 15),
        InstructionSet::PAT => (FeatureWord::Leaf1Edx, 16),
        InstructionSet::PSE36 => (FeatureWord::Leaf1Edx, 17),
        InstructionSet::PSN => (FeatureWord::Leaf1Edx, 18),
        InstructionSet::CLFLUSH => (FeatureWord::Leaf1Edx, 19),
        InstructionSet::DS => (FeatureWord::Leaf1Edx, 21),
        InstructionSet::ACPI => (FeatureWord::Leaf1Edx, 22),
        InstructionSet::MMX => (FeatureWord::Leaf1Edx, 23),
        InstructionSet::FXSR => (FeatureWord::Leaf1Edx, 24),
        InstructionSet::SSE => (FeatureWord::Leaf1Edx, 25),
        InstructionSet::SSE2 => (FeatureWord::Leaf1Edx, 26),
        InstructionSet::SS => (FeatureWord::Leaf1Edx, 27),
        InstructionSet::HTT => (FeatureWord::Leaf1Edx, 28),
        InstructionSet::TM => (FeatureWord::Leaf1Edx, 29),
        InstructionSet::IA64 => (FeatureWord::Leaf1Edx, 30),
        InstructionSet::PBE => (FeatureWord::Leaf1Edx, 31),
        InstructionSet::SSE3 => (FeatureWord::Leaf1Ecx, 0),
        InstructionSet::PCLMULQDQ => (FeatureWord::Leaf1Ecx, 1),
        InstructionSet::DTES64 => (FeatureWord::Leaf1Ecx, 2),
        InstructionSet::MONITOR => (FeatureWord::Leaf1Ecx, 3),
        InstructionSet::DsCpl => (FeatureWord::Leaf1Ecx, 4),
        InstructionSet::VMX => (FeatureWord::Leaf1Ecx, 5),
        InstructionSet::SMX => (FeatureWord::Leaf1Ecx, 6),
        InstructionSet::EST => (FeatureWord::Leaf1Ecx, 7),
        InstructionSet::TM2 => (FeatureWord::Leaf1Ecx, 8),
        InstructionSet::SSSE3 => (FeatureWord::Leaf1Ecx, 9),
        InstructionSet::CnxtId => (FeatureWord::Leaf1Ecx, 10),
        InstructionSet::FMA => (FeatureWord::Leaf1Ecx, 12),
        InstructionSet::CX16 => (FeatureWord::Leaf1Ecx, 13),
        InstructionSet::XTPR => (FeatureWord::Leaf1Ecx, 14),
        InstructionSet::PDCM => (FeatureWord::Leaf1Ecx, 15),
        InstructionSet::PCID => (FeatureWord::Leaf1Ecx, 17),
        InstructionSet::DCA => (FeatureWord::Leaf1Ecx, 18),
        InstructionSet::SSE41 => (FeatureWord::Leaf1Ecx, 19),
        InstructionSet::SSE42 => (FeatureWord::Leaf1Ecx, 20),
        InstructionSet::X2APIC => (FeatureWord::Leaf1Ecx, 21),
        InstructionSet::MOVBE => (FeatureWord::Leaf1Ecx, 22),
        InstructionSet::POPCNT => (FeatureWord::Leaf1Ecx, 23),
        InstructionSet::TscDeadline => (FeatureWord::Leaf1Ecx, 24),
        InstructionSet::AES => (FeatureWord::Leaf1Ecx, 25),
        InstructionSet::XSAVE => (FeatureWord::Leaf1Ecx, 26),
        InstructionSet::OSXSAVE => (FeatureWord::Leaf1Ecx, 27),
        InstructionSet::AVX => (FeatureWord::Leaf1Ecx, 28),
        InstructionSet::F16C => (FeatureWord::Leaf1Ecx, 29),
        InstructionSet::RDRAND => (FeatureWord::Leaf1Ecx, 30),
        InstructionSet::FSGSBASE => (FeatureWord::Leaf7Ebx, 0),
        InstructionSet::SGX => (FeatureWord::Leaf7Ebx, 2),
        InstructionSet::BMI1 => (FeatureWord::Leaf7Ebx, 3),
        InstructionSet::HLE => (FeatureWord::Leaf7Ebx, 4),
        InstructionSet::AVX2 => (FeatureWord::Leaf7Ebx, 5),
        InstructionSet::SMEP => (FeatureWord::Leaf7Ebx, 7),
        InstructionSet::BMI2 => (FeatureWord::Leaf7Ebx, 8),
        InstructionSet::ERMS => (FeatureWord::Leaf7Ebx, 9),
        InstructionSet::INVPCID => (FeatureWord::Leaf7Ebx, 10),
        InstructionSet::RTM => (FeatureWord::Leaf7Ebx, 11),
        InstructionSet::MPX => (FeatureWord::Leaf7Ebx, 14),
        InstructionSet::AVX512F => (FeatureWord::Leaf7Ebx, 16),
        InstructionSet::AVX512DQ => (FeatureWord::Leaf7Ebx, 17),
        InstructionSet::RDSEED => (FeatureWord::Leaf7Ebx, 18),
        InstructionSet::ADX => (FeatureWord::Leaf7Ebx, 19),
        InstructionSet::SMAP => (FeatureWord::Leaf7Ebx, 20),
        InstructionSet::AVX512IFMA => (FeatureWord::Leaf7Ebx, 21),
        InstructionSet::CLFLUSHOPT => (FeatureWord::Leaf7Ebx, 23),
        InstructionSet::CLWB => (FeatureWord::Leaf7Ebx, 24),
        InstructionSet::AVX512PF => (FeatureWord::Leaf7Ebx, 26),
        InstructionSet::AVX512ER => (FeatureWord::Leaf7Ebx, 27),
        InstructionSet::AVX512CD => (FeatureWord::Leaf7Ebx, 28),
        InstructionSet::SHA => (FeatureWord::Leaf7Ebx, 29),
        InstructionSet::AVX512BW => (FeatureWord::Leaf7Ebx, 30),
        InstructionSet::AVX512VL => (FeatureWord::Leaf7Ebx, 31),
        InstructionSet::PREFETCHWT1 => (FeatureWord::Leaf7Ecx, 0),
        InstructionSet::AVX512VBMI => (FeatureWord::Leaf7Ecx, 1),
        InstructionSet::AVX512PKU => (FeatureWord::Leaf7Ecx, 3),
        InstructionSet::AVX512VBMI2 => (FeatureWord::Leaf7Ecx, 6),
        InstructionSet::MOVDIRI => (FeatureWord::Leaf7Ecx, 27),
        InstructionSet::MOVDIR64B => (FeatureWord::Leaf7Ecx, 28),
        InstructionSet::LahfLm => (FeatureWord::Ext1Ecx, 0),
        InstructionSet::CmpLegacy => (FeatureWord::Ext1Ecx, 1),
        InstructionSet::SVM => (FeatureWord::Ext1Ecx, 2),
        InstructionSet::EXTAPIC => (FeatureWord::Ext1Ecx, 3),
        InstructionSet::Cr8Legacy => (FeatureWord::Ext1Ecx, 4),
        InstructionSet::LZCNT => (FeatureWord::Ext1Ecx, 5),
        InstructionSet::SSE4A => (FeatureWord::Ext1Ecx, 6),
        InstructionSet::MisalignSse => (FeatureWord::Ext1Ecx, 7),
        InstructionSet::PREFETCHW => (FeatureWord::Ext1Ecx, 8),
        InstructionSet::OSVW => (FeatureWord::Ext1Ecx, 9),
        InstructionSet::IBS => (FeatureWord::Ext1Ecx, 10),
        InstructionSet::XOP => (FeatureWord::Ext1Ecx, 11),
        InstructionSet::SKINIT => (FeatureWord::Ext1Ecx, 12),
        InstructionSet::WDT => (FeatureWord::Ext1Ecx, 13),
        InstructionSet::D3DNOWEXT => (FeatureWord::Ext1Edx, 30),
        InstructionSet::D3DNOW => (FeatureWord::Ext1Edx, 31),
        InstructionSet::PadlockRng => (FeatureWord::Centaur1Edx, 2),
        InstructionSet::PadlockAce => (FeatureWord::Centaur1Edx, 6),
        InstructionSet::PadlockAce2 => (FeatureWord::Centaur1Edx, 8),
        InstructionSet::PadlockPhe => (FeatureWord::Centaur1Edx, 10),
        InstructionSet::PadlockPmm => (FeatureWord::Centaur1Edx, 12),
        InstructionSet::NEON => (FeatureWord::Platform, 0),
        InstructionSet::ArmAes => (FeatureWord::Platform, 1),
        InstructionSet::PMULL => (FeatureWord::Platform, 2),
        InstructionSet::SHA1 => (FeatureWord::Platform, 3),
        InstructionSet::SHA2 => (FeatureWord::Platform, 4),
        InstructionSet::CRC32 => (FeatureWord::Platform, 5),
        InstructionSet::RvI => (FeatureWord::Platform, 8),
        InstructionSet::RvM => (FeatureWord::Platform, 9),
        InstructionSet::RvA => (FeatureWord::Platform, 10),
        InstructionSet::RvF => (FeatureWord::Platform, 11),
        InstructionSet::RvD => (FeatureWord::Platform, 12),
        InstructionSet::RvC => (FeatureWord::Platform, 13),
    }
}

/// Every bit index in the table names a bit of a 32-bit word.
pub proof fn lemma_location_in_word(f: InstructionSet)
    ensures
        flag_location(f).1 < 32,
{
}

/// The wide-vector flags and the extensions building on them: each is reported
/// only where the operating system has enabled the vector register state.
pub open spec fn is_gated(f: InstructionSet) -> bool {
    f == InstructionSet::AVX
        || f == InstructionSet::FMA
        || f == InstructionSet::F16C
        || f == InstructionSet::AVX2
        || f == InstructionSet::AVX512F
        || f == InstructionSet::AVX512DQ
        || f == InstructionSet::AVX512IFMA
        || f == InstructionSet::AVX512PF
        || f == InstructionSet::AVX512ER
        || f == InstructionSet::AVX512CD
        || f == InstructionSet::AVX512BW
        || f == InstructionSet::AVX512VL
        || f == InstructionSet::AVX512VBMI
        || f == InstructionSet::AVX512VBMI2
        || f == InstructionSet::XOP
}

/// Whether `f` is gated on the operating system's vector state.
pub fn gated(f: InstructionSet) -> (r: bool)
    ensures
        r == is_gated(f),
{
    match f {
        InstructionSet::AVX
        | InstructionSet::FMA
        | InstructionSet::F16C
        | InstructionSet::AVX2
        | InstructionSet::AVX512F
        | InstructionSet::AVX512DQ
        | InstructionSet::AVX512IFMA
        | InstructionSet::AVX512PF
        | InstructionSet::AVX512ER
        | InstructionSet::AVX512CD
        | InstructionSet::AVX512BW
        | InstructionSet::AVX512VL
        | InstructionSet::AVX512VBMI
        | InstructionSet::AVX512VBMI2
        | InstructionSet::XOP => true,
        _ => false,
    }
}

/// Bit of leaf 1 ECX by which the operating system reports that it supports
/// the extended-state register.
pub const OSXSAVE_BIT: u32 = 27;

/// The SSE-state and vector-state bits of the extended-state enable register.
pub const XCR0_SSE_AVX: u64 = 0b110;

/// The operating system reports support for the extended-state register.
pub open spec fn os_support_indicated(raw: RawCpuid) -> bool {
    bit_set(eff_leaf_1(raw).ecx, OSXSAVE_BIT)
}

/// Whether an extended-state register value enables both the SSE and the vector state.
pub open spec fn xcr0_enables_vectors(xcr0: Option<u64>) -> bool {
    match xcr0 {
        Some(x) => x & XCR0_SSE_AVX == XCR0_SSE_AVX,
        None => false,
    }
}

/// The readiness check for the wide-vector flags: the support bit is set and
/// the extended-state register enables both the SSE and the vector state.
pub open spec fn vector_state_ready(raw: RawCpuid) -> bool {
    os_support_indicated(raw) && xcr0_enables_vectors(raw.xcr0)
}

/// The word that decoding reads for `w`; unsupported leaves read as zero.
pub open spec fn decoded_word(raw: RawCpuid, w: FeatureWord) -> u32 {
    match w {
        FeatureWord::Leaf1Edx => eff_leaf_1(raw).edx,
        FeatureWord::Leaf1Ecx => eff_leaf_1(raw).ecx,
        FeatureWord::Leaf7Ebx => eff_leaf_7(raw).ebx,
        FeatureWord::Leaf7Ecx => eff_leaf_7(raw).ecx,
        FeatureWord::Ext1Ecx => eff_ext_1(raw).ecx,
        FeatureWord::Ext1Edx => eff_ext_1(raw).edx,
        FeatureWord::Centaur1Edx => eff_centaur_1(raw).edx,
        FeatureWord::Platform => 0,
    }
}

/// Whether decoding `raw` reports flag `f`: its bit is set in the word that the
/// table names and, for a gated flag, the vector state is ready.
pub open spec fn decoded_flag(raw: RawCpuid, f: InstructionSet) -> bool {
    &&& bit_set(decoded_word(raw, flag_location(f).0), flag_location(f).1)
    &&& is_gated(f) ==> vector_state_ready(raw)
}

/// Whether an extended-state register value enables both the SSE and the vector state.
pub fn enables_vectors(xcr0: Option<u64>) -> (r: bool)
    ensures
        r == xcr0_enables_vectors(xcr0),
{
    match xcr0 {
        Some(x) => x & XCR0_SSE_AVX == XCR0_SSE_AVX,
        None => false,
    }
}

/// The flag that the table places at bit `b` of word `w`, if any.
pub open spec fn flag_at(w: FeatureWord, b: u32) -> Option<InstructionSet> {
    match w {
        FeatureWord::Leaf1Edx => {
            if b == 0 {
                Some(InstructionSet::FPU)
            } else if b == 1 {
                Some(InstructionSet::VME)
            } else if b == 2 {
                Some(InstructionSet::DE)
            } else if b == 3 {
                Some(InstructionSet::PSE)
            } else if b == 4 {
                Some(InstructionSet::TSC)
            } else if b == 5 {
                Some(InstructionSet::MSR)
            } else if b == 6 {
                Some(InstructionSet::PAE)
            } else if b == 7 {
                Some(InstructionSet::MCE)
            } else if b == 8 {
                Some(InstructionSet::CX8)
            } else if b == 9 {
                Some(InstructionSet::APIC)
            } else if b == 11 {
                Some(InstructionSet::SEP)
            } else if b == 12 {
                Some(InstructionSet::MTRR)
            } else if b == 13 {
                Some(InstructionSet::PGE)
            } else if b == 14 {
                Some(InstructionSet::MCA)
            } else if b == 15 {
                Some(InstructionSet::CMOV)
            } else if b == 16 {
                Some(InstructionSet::PAT)
            } else if b == 17 {
                Some(InstructionSet::PSE36)
            } else if b == 18 {
                Some(InstructionSet::PSN)
            } else if b == 19 {
                Some(InstructionSet::CLFLUSH)
            } else if b == 21 {
                Some(InstructionSet::DS)
            } else if b == 22 {
                Some(InstructionSet::ACPI)
            } else if b == 23 {
                Some(InstructionSet::MMX)
            } else if b == 24 {
                Some(InstructionSet::FXSR)
            } else if b == 25 {
                Some(InstructionSet::SSE)
            } else if b == 26 {
                Some(InstructionSet::SSE2)
            } else if b == 27 {
                Some(InstructionSet::SS)
            } else if b == 28 {
                Some(InstructionSet::HTT)
            } else if b == 29 {
                Some(InstructionSet::TM)
            } else if b == 30 {
                Some(InstructionSet::IA64)
            } else if b == 31 {
                Some(InstructionSet::PBE)
            } else {
                None
            }
        },
        FeatureWord::Leaf1Ecx => {
            if b == 0 {
                Some(InstructionSet::SSE3)
            } else if b == 1 {
                Some(InstructionSet::PCLMULQDQ)
            } else if b == 2 {
                Some(InstructionSet::DTES64)
            } else if b == 3 {
                Some(InstructionSet::MONITOR)
            } else if b == 4 {
                Some(InstructionSet::DsCpl)
            } else if b == 5 {
                Some(InstructionSet::VMX)
            } else if b == 6 {
                Some(InstructionSet::SMX)
            } else if b == 7 {
                Some(InstructionSet::EST)
            } else if b == 8 {
                Some(InstructionSet::TM2)
            } else if b == 9 {
                Some(InstructionSet::SSSE3)
            } else if b == 10 {
                Some(InstructionSet::CnxtId)
            } else if b == 12 {
                Some(InstructionSet::FMA)
            } else if b == 13 {
                Some(InstructionSet::CX16)
            } else if b == 14 {
                Some(InstructionSet::XTPR)
            } else if b == 15 {
                Some(InstructionSet::PDCM)
            } else if b == 17 {
                Some(InstructionSet::PCID)
            } else if b == 18 {
                Some(InstructionSet::DCA)
            } else if b == 19 {
                Some(InstructionSet::SSE41)
            } else if b == 20 {
                Some(InstructionSet::SSE42)
            } else if b == 21 {
                Some(InstructionSet::X2APIC)
            } else if b == 22 {
                Some(InstructionSet::MOVBE)
            } else if b == 23 {
                Some(InstructionSet::POPCNT)
            } else if b == 24 {
                Some(InstructionSet::TscDeadline)
            } else if b == 25 {
                Some(InstructionSet::AES)
            } else if b == 26 {
                Some(InstructionSet::XSAVE)
            } else if b == 27 {
                Some(InstructionSet::OSXSAVE)
            } else if b == 28 {
                Some(InstructionSet::AVX)
            } else if b == 29 {
                Some(InstructionSet::F16C)
            } else if b == 30 {
                Some(InstructionSet::RDRAND)
            } else {
                None
            }
        },
        FeatureWord::Leaf7Ebx => {
            if b == 0 {
                Some(InstructionSet::FSGSBASE)
            } else if b == 2 {
                Some(InstructionSet::SGX)
            } else if b == 3 {
                Some(InstructionSet::BMI1)
            } else if b == 4 {
                Some(InstructionSet::HLE)
            } else if b == 5 {
                Some(InstructionSet::AVX2)
            } else if b == 7 {
                Some(InstructionSet::SMEP)
            } else if b == 8 {
                Some(InstructionSet::BMI2)
            } else if b == 9 {
                Some(InstructionSet::ERMS)
            } else if b == 10 {
                Some(InstructionSet::INVPCID)
            } else if b == 11 {
                Some(InstructionSet::RTM)
            } else if b == 14 {
                Some(InstructionSet::MPX)
            } else if b == 16 {
                Some(InstructionSet::AVX512F)
            } else if b == 17 {
                Some(InstructionSet::AVX512DQ)
            } else if b == 18 {
                Some(InstructionSet::RDSEED)
            } else if b == 19 {
                Some(InstructionSet::ADX)
            } else if b == 20 {
                Some(InstructionSet::SMAP)
            } else if b == 21 {
                Some(InstructionSet::AVX512IFMA)
            } else if b == 23 {
                Some(InstructionSet::CLFLUSHOPT)
            } else if b == 24 {
                Some(InstructionSet::CLWB)
            } else if b == 26 {
                Some(InstructionSet::AVX512PF)
            } else if b == 27 {
                Some(InstructionSet::AVX512ER)
            } else if b == 28 {
                Some(InstructionSet::AVX512CD)
            } else if b == 29 {
                Some(InstructionSet::SHA)
            } else if b == 30 {
                Some(InstructionSet::AVX512BW)
            } else if b == 31 {
                Some(InstructionSet::AVX512VL)
            } else {
                None
            }
        },
        FeatureWord::Leaf7Ecx => {
            if b == 0 {
                Some(InstructionSet::PREFETCHWT1)
            } else if b == 1 {
                Some(InstructionSet::AVX512VBMI)
            } else if b == 3 {
                Some(InstructionSet::AVX512PKU)
            } else if b == 6 {
                Some(InstructionSet::AVX512VBMI2)
            } else if b == 27 {
                Some(InstructionSet::MOVDIRI)
            } else if b == 28 {
                Some(InstructionSet::MOVDIR64B)
            } else {
                None
            }
        },
        FeatureWord::Ext1Ecx => {
            if b == 0 {
                Some(InstructionSet::LahfLm)
            } else if b == 1 {
                Some(InstructionSet::CmpLegacy)
            } else if b == 2 {
                Some(InstructionSet::SVM)
            } else if b == 3 {
                Some(InstructionSet::EXTAPIC)
            } else if b == 4 {
                Some(InstructionSet::Cr8Legacy)
            } else if b == 5 {
                Some(InstructionSet::LZCNT)
            } else if b == 6 {
                Some(InstructionSet::SSE4A)
            } else if b == 7 {
                Some(InstructionSet::MisalignSse)
            } else if b == 8 {
                Some(InstructionSet::PREFETCHW)
            } else if b == 9 {
                Some(InstructionSet::OSVW)
            } else if b == 10 {
                Some(InstructionSet::IBS)
            } else if b == 11 {
                Some(InstructionSet::XOP)
            } else if b == 12 {
                Some(InstructionSet::SKINIT)
            } else if b == 13 {
                Some(InstructionSet::WDT)
            } else {
                None
            }
        },
        FeatureWord::Ext1Edx => {
            if b == 30 {
                Some(InstructionSet::D3DNOWEXT)
            } else if b == 31 {
                Some(InstructionSet::D3DNOW)
            } else {
                None
            }
        },
        FeatureWord::Centaur1Edx => {
            if b == 2 {
                Some(InstructionSet::PadlockRng)
            } else if b == 6 {
                Some(InstructionSet::PadlockAce)
            } else if b == 8 {
                Some(InstructionSet::PadlockAce2)
            } else if b == 10 {
                Some(InstructionSet::PadlockPhe)
            } else if b == 12 {
                Some(InstructionSet::PadlockPmm)
            } else {
                None
            }
        },
        FeatureWord::Platform => {
            if b == 0 {
                Some(InstructionSet::NEON)
            } else if b == 1 {
                Some(InstructionSet::ArmAes)
            } else if b == 2 {
                Some(InstructionSet::PMULL)
            } else if b == 3 {
                Some(InstructionSet::SHA1)
            } else if b == 4 {
                Some(InstructionSet::SHA2)
            } else if b == 5 {
                Some(InstructionSet::CRC32)
            } else if b == 8 {
                Some(InstructionSet::RvI)
            } else if b == 9 {
                Some(InstructionSet::RvM)
            } else if b == 10 {
                Some(InstructionSet::RvA)
            } else if b == 11 {
                Some(InstructionSet::RvF)
            } else if b == 12 {
                Some(InstructionSet::RvD)
            } else if b == 13 {
                Some(InstructionSet::RvC)
            } else {
                None
            }
        },
    }
}

/// Every flag sits where the table places it, so no two flags share a bit.
pub proof fn lemma_flag_at_location(f: InstructionSet)
    ensures
        flag_at(flag_location(f).0, flag_location(f).1) == Some(f),
{
}

/// The number of gated flags.
pub const GATED_COUNT: u32 = 15;

/// The position of a gated flag in the gated-flag word.
pub open spec fn gated_slot(f: InstructionSet) -> u32 {
    match f {
        InstructionSet::AVX => 0,
        InstructionSet::FMA => 1,
        InstructionSet::F16C => 2,
        InstructionSet::AVX2 => 3,
        InstructionSet::AVX512F => 4,
        InstructionSet::AVX512DQ => 5,
        InstructionSet::AVX512IFMA => 6,
        InstructionSet::AVX512PF => 7,
        InstructionSet::AVX512ER => 8,
        InstructionSet::AVX512CD => 9,
        InstructionSet::AVX512BW => 10,
        InstructionSet::AVX512VL => 11,
        InstructionSet::AVX512VBMI => 12,
        InstructionSet::AVX512VBMI2 => 13,
        InstructionSet::XOP => 14,
        _ => GATED_COUNT,
    }
}

/// The gated flag at position `k` of the gated-flag word.
pub open spec fn gated_at(k: u32) -> InstructionSet {
    if k == 0 {
        InstructionSet::AVX
    } else if k == 1 {
        InstructionSet::FMA
    } else if k == 2 {
        InstructionSet::F16C
    } else if k == 3 {
        InstructionSet::AVX2
    } else if k == 4 {
        InstructionSet::AVX512F
    } else if k == 5 {
        InstructionSet::AVX512DQ
    } else if k == 6 {
        InstructionSet::AVX512IFMA
    } else if k == 7 {
        InstructionSet::AVX512PF
    } else if k == 8 {
        InstructionSet::AVX512ER
    } else if k == 9 {
        InstructionSet::AVX512CD
    } else if k == 10 {
        InstructionSet::AVX512BW
    } else if k == 11 {
        InstructionSet::AVX512VL
    } else if k == 12 {
        InstructionSet::AVX512VBMI
    } else if k == 13 {
        InstructionSet::AVX512VBMI2
    } else {
        InstructionSet::XOP
    }
}

/// The gated flags and their positions correspond one to one.
pub proof fn lemma_gated_slot(f: InstructionSet)
    ensures
        is_gated(f) ==> gated_slot(f) < GATED_COUNT && gated_at(gated_slot(f)) == f,
        !is_gated(f) ==> gated_slot(f) == GATED_COUNT,
{
}

/// The gated flag at each position is gated, and sits at that position.
pub proof fn lemma_gated_at(k: u32)
    requires
        k < GATED_COUNT,
    ensures
        is_gated(gated_at(k)),
        gated_slot(gated_at(k)) == k,
{
}

/// The position of a gated flag.
fn gated_slot_of(f: InstructionSet) -> (r: u32)
    ensures
        r == gated_slot(f),
{
    match f {
        InstructionSet::AVX => 0,
        InstructionSet::FMA => 1,
        InstructionSet::F16C => 2,
        InstructionSet::AVX2 => 3,
        InstructionSet::AVX512F => 4,
        InstructionSet::AVX512DQ => 5,
        InstructionSet::AVX512IFMA => 6,
        InstructionSet::AVX512PF => 7,
        InstructionSet::AVX512ER => 8,
        InstructionSet::AVX512CD => 9,
        InstructionSet::AVX512BW => 10,
        InstructionSet::AVX512VL => 11,
        InstructionSet::AVX512VBMI => 12,
        InstructionSet::AVX512VBMI2 => 13,
        InstructionSet::XOP => 14,
        _ => GATED_COUNT,
    }
}

/// The gated flag at position `k`.
fn gated_flag_at(k: u32) -> (r: InstructionSet)
    ensures
        r == gated_at(k),
{
    if k == 0 {
        InstructionSet::AVX
    } else if k == 1 {
        InstructionSet::FMA
    } else if k == 2 {
        InstructionSet::F16C
    } else if k == 3 {
        InstructionSet::AVX2
    } else if k == 4 {
        InstructionSet::AVX512F
    } else if k == 5 {
        InstructionSet::AVX512DQ
    } else if k == 6 {
        InstructionSet::AVX512IFMA
    } else if k == 7 {
        InstructionSet::AVX512PF
    } else if k == 8 {
        InstructionSet::AVX512ER
    } else if k == 9 {
        InstructionSet::AVX512CD
    } else if k == 10 {
        InstructionSet::AVX512BW
    } else if k == 11 {
        InstructionSet::AVX512VL
    } else if k == 12 {
        InstructionSet::AVX512VBMI
    } else if k == 13 {
        InstructionSet::AVX512VBMI2
    } else {
        InstructionSet::XOP
    }
}

/// A set of capability flags.
///
/// Flags that are not gated are held at their table position in copies of
/// the probe words; the gated flags are held in a word of their own, at their
/// gated position, already combined with the vector-state check.
#[derive(Clone, Copy, Debug, PartialEq, Eq, Hash)]
pub struct CpuFeatures {
    leaf1_edx: u32,
    leaf1_ecx: u32,
    leaf7_ebx: u32,
    leaf7_ecx: u32,
    ext1_ecx: u32,
    ext1_edx: u32,
    centaur1_edx: u32,
    platform: u32,
    gated: u32,
}

impl CpuFeatures {
    closed spec fn word(self, w: FeatureWord) -> u32 {
        match w {
            FeatureWord::Leaf1Edx => self.leaf1_edx,
            FeatureWord::Leaf1Ecx => self.leaf1_ecx,
            FeatureWord::Leaf7Ebx => self.leaf7_ebx,
            FeatureWord::Leaf7Ecx => self.leaf7_ecx,
            FeatureWord::Ext1Ecx => self.ext1_ecx,
            FeatureWord::Ext1Edx => self.ext1_edx,
            FeatureWord::Centaur1Edx => self.centaur1_edx,
            FeatureWord::Platform => self.platform,
        }
    }

    /// Whether the set holds flag `f`.
    pub closed spec fn has(self, f: InstructionSet) -> bool {
        if is_gated(f) {
            bit_set(self.gated, gated_slot(f))
        } else {
            bit_set(self.word(flag_location(f).0), flag_location(f).1)
        }
    }

    /// The empty set.
    pub fn new() -> (r: Self)
        ensures
            forall|f: InstructionSet| !#[trigger] r.has(f),
    {
        let r = CpuFeatures {
            leaf1_edx: 0,
            leaf1_ecx: 0,
            leaf7_ebx: 0,
            leaf7_ecx: 0,
            ext1_ecx: 0,
            ext1_edx: 0,
            centaur1_edx: 0,
            platform: 0,
            gated: 0,
        };
        assert forall|f: InstructionSet| !#[trigger] r.has(f) by {
            lemma_location_in_word(f);
            lemma_zero_has_no_bit(flag_location(f).1);
            lemma_gated_slot(f);
            if is_gated(f) {
                lemma_zero_has_no_bit(gated_slot(f));
            }
        }
        r
    }

    fn word_value(&self, w: FeatureWord) -> (r: u32)
        ensures
            r == self.word(w),
    {
        match w {
            FeatureWord::Leaf1Edx => self.leaf1_edx,
            FeatureWord::Leaf1Ecx => self.leaf1_ecx,
            FeatureWord::Leaf7Ebx => self.leaf7_ebx,
            FeatureWord::Leaf7Ecx => self.leaf7_ecx,
            FeatureWord::Ext1Ecx => self.ext1_ecx,
            FeatureWord::Ext1Edx => self.ext1_edx,
            FeatureWord::Centaur1Edx => self.centaur1_edx,
            FeatureWord::Platform => self.platform,
        }
    }

    fn set_word(&mut self, w: FeatureWord, v: u32)
        ensures
            final(self).gated == old(self).gated,
            forall|x: FeatureWord| #[trigger]
                final(self).word(x) == if x == w {
                    v
                } else {
                    old(self).word(x)
                },
    {
        match w {
            FeatureWord::Leaf1Edx => self.leaf1_edx = v,
            FeatureWord::Leaf1Ecx => self.leaf1_ecx = v,
            FeatureWord::Leaf7Ebx => self.leaf7_ebx = v,
            FeatureWord::Leaf7Ecx => self.leaf7_ecx = v,
            FeatureWord::Ext1Ecx => self.ext1_ecx = v,
            FeatureWord::Ext1Edx => self.ext1_edx = v,
            FeatureWord::Centaur1Edx => self.centaur1_edx = v,
            FeatureWord::Platform => self.platform = v,
        }
    }

    /// Queries one flag, through the capability table.
    pub fn contains(&self, f: InstructionSet) -> (r: bool)
        ensures
            r == self.has(f),
    {
        proof {
            lemma_location_in_word(f);
            lemma_gated_slot(f);
        }
        if gated(f) {
            test_bit(self.gated, gated_slot_of(f))
        } else {
            let (w, b) = location_of(f);
            test_bit(self.word_value(w), b)
        }
    }

    /// Adds flag `f` to the set where `val` holds, removes it otherwise, and
    /// leaves every other flag as it was.
    pub fn set(&mut self, f: InstructionSet, val: bool)
        ensures
            forall|g: InstructionSet| #[trigger]
                final(self).has(g) == if g == f {
                    val
                } else {
                    old(self).has(g)
                },
    {
        proof {
            lemma_location_in_word(f);
            lemma_gated_slot(f);
            lemma_flag_at_location(f);
        }
        if gated(f) {
            let k = gated_slot_of(f);
            self.gated = if val {
                set_bit(self.gated, k)
            } else {
                clear_bit(self.gated, k)
            };
        } else {
            let (w, b) = location_of(f);
            let old_word = self.word_value(w);
            let v = if val {
                set_bit(old_word, b)
            } else {
                clear_bit(old_word, b)
            };
            self.set_word(w, v);
        }
        assert forall|g: InstructionSet| #[trigger]
            self.has(g) == if g == f {
                val
            } else {
                old(self).has(g)
            } by {
            lemma_location_in_word(g);
            lemma_gated_slot(g);
            lemma_flag_at_location(g);
        }
    }

    /// Decodes the capability flags of one logical processor from its raw
    /// probe words. Leaves above the highest supported leaf count as zero.
    pub fn decode(raw: &RawCpuid) -> (r: Self)
        ensures
            forall|f: InstructionSet| #[trigger] r.has(f) == decoded_flag(*raw, f),
    {
        let l1 = select_leaf(LEAF_FEATURES <= raw.leaf_0.eax, raw.leaf_1);
        let l7 = select_leaf(LEAF_STRUCTURED <= raw.leaf_0.eax, raw.leaf_7);
        let e1 = select_leaf(
            LEAF_EXT_MAX <= LEAF_EXT_FEATURES && LEAF_EXT_FEATURES <= raw.ext_0.eax,
            raw.ext_1,
        );
        let c1 = select_leaf(
            LEAF_CENTAUR_MAX <= LEAF_CENTAUR_FEATURES && LEAF_CENTAUR_FEATURES
                <= raw.centaur_0.eax,
            raw.centaur_1,
        );
        let ready = test_bit(l1.ecx, OSXSAVE_BIT) && enables_vectors(raw.xcr0);
        let mut r = CpuFeatures {
            leaf1_edx: l1.edx,
            leaf1_ecx: l1.ecx,
            leaf7_ebx: l7.ebx,
            leaf7_ecx: l7.ecx,
            ext1_ecx: e1.ecx,
            ext1_edx: e1.edx,
            centaur1_edx: c1.edx,
            platform: 0,
            gated: 0,
        };
        assert(forall|w: FeatureWord| #[trigger] r.word(w) == decoded_word(*raw, w));
        let mut g: u32 = 0;
        let mut k: u32 = 0;
        proof {
            assert forall|i: u32| i < 32 implies !#[trigger] bit_set(0, i) by {
                lemma_zero_has_no_bit(i);
            }
        }
        while k < GATED_COUNT
            invariant
                k <= GATED_COUNT,
                ready == vector_state_ready(*raw),
                forall|w: FeatureWord| #[trigger] r.word(w) == decoded_word(*raw, w),
                forall|i: u32|
                    i < 32 ==> #[trigger] bit_set(g, i) == (i < k && ready && bit_set(
                        decoded_word(*raw, flag_location(gated_at(i)).0),
                        flag_location(gated_at(i)).1,
                    )),
            decreases GATED_COUNT - k,
        {
            let f = gated_flag_at(k);
            let (w, b) = location_of(f);
            proof {
                lemma_location_in_word(f);
            }
            if ready && test_bit(r.word_value(w), b) {
                g = set_bit(g, k);
            }
            k = k + 1;
        }
        r.gated = g;
        assert forall|f: InstructionSet| #[trigger] r.has(f) == decoded_flag(*raw, f) by {
            lemma_gated_slot(f);
        }
        r
    }

    /// The set holding exactly the platform flags whose table bits are set in `bits`.
    pub fn from_platform_bits(bits: u32) -> (r: Self)
        ensures
            forall|f: InstructionSet| #[trigger]
                r.has(f) == (flag_location(f).0 == FeatureWord::Platform && bit_set(
                    bits,
                    flag_location(f).1,
                )),
    {
        let r = CpuFeatures {
            leaf1_edx: 0,
            leaf1_ecx: 0,
            leaf7_ebx: 0,
            leaf7_ecx: 0,
            ext1_ecx: 0,
            ext1_edx: 0,
            centaur1_edx: 0,
            platform: bits,
            gated: 0,
        };
        assert forall|f: InstructionSet| #[trigger]
            r.has(f) == (flag_location(f).0 == FeatureWord::Platform && bit_set(
                bits,
                flag_location(f).1,
            )) by {
            lemma_location_in_word(f);
            lemma_zero_has_no_bit(flag_location(f).1);
            lemma_gated_slot(f);
            if is_gated(f) {
                lemma_zero_has_no_bit(gated_slot(f));
            }
        }
        r
    }
}

impl Default for CpuFeatures {
    fn default() -> (r: Self)
        ensures
            forall|f: InstructionSet| !#[trigger] r.has(f),
    {
        CpuFeatures::new()
    }
}

} // verus!

verus! {

/// Whether decoding reads the leaf behind `w`: the leaf is within the range
/// that the processor reports. Platform flags come from no leaf.
pub open spec fn word_supported(raw: RawCpuid, w: FeatureWord) -> bool {
    match w {
        FeatureWord::Leaf1Edx | FeatureWord::Leaf1Ecx => standard_supported(raw, LEAF_FEATURES),
        FeatureWord::Leaf7Ebx | FeatureWord::Leaf7Ecx => standard_supported(raw, LEAF_STRUCTURED),
        FeatureWord::Ext1Ecx | FeatureWord::Ext1Edx => extended_supported(raw, LEAF_EXT_FEATURES),
        FeatureWord::Centaur1Edx => centaur_supported(raw, LEAF_CENTAUR_FEATURES),
        FeatureWord::Platform => true,
    }
}

/// Decoding is a function of the raw words alone: two flag sets decoded from
/// equal raw words hold the same flags.
pub proof fn lemma_decode_deterministic(
    a: RawCpuid,
    b: RawCpuid,
    x: CpuFeatures,
    y: CpuFeatures,
)
    requires
        a == b,
        forall|f: InstructionSet| #[trigger] x.has(f) == decoded_flag(a, f),
        forall|f: InstructionSet| #[trigger] y.has(f) == decoded_flag(b, f),
    ensures
        forall|f: InstructionSet| #[trigger] x.has(f) == y.has(f),
{
}

/// A gated flag is reported exactly when its hardware bit is set, the operating
/// system reports support for the extended-state register, and that register
/// enables both the SSE and the vector state. A flag that is not gated depends
/// on its hardware bit alone.
pub proof fn lemma_gated_flag(raw: RawCpuid, f: InstructionSet)
    ensures
        is_gated(f) ==> (decoded_flag(raw, f) == (bit_set(
            decoded_word(raw, flag_location(f).0),
            flag_location(f).1,
        ) && os_support_indicated(raw) && xcr0_enables_vectors(raw.xcr0))),
        !is_gated(f) ==> (decoded_flag(raw, f) == bit_set(
            decoded_word(raw, flag_location(f).0),
            flag_location(f).1,
        )),
{
}

/// A leaf above the highest one that the processor reports decodes as absent:
/// no flag that the table reads from it is set.
pub proof fn lemma_unsupported_leaf_absent(raw: RawCpuid, f: InstructionSet)
    requires
        !word_supported(raw, flag_location(f).0),
    ensures
        !decoded_flag(raw, f),
{
    lemma_location_in_word(f);
    lemma_zero_has_no_bit(flag_location(f).1);
}

} // verus!

verus! {

/// One query per named x86 flag.
impl CpuFeatures {
    pub fn fpu(&self) -> (r: bool)
        ensures
            r == self.has(InstructionSet::FPU),
    {
        self.contains(InstructionSet::FPU)
    }

    pub fn vme(&self) -> (r: bool)
        ensures
            r == self.has(InstructionSet::VME),
    {
        self.contains(InstructionSet::VME)
    }

    pub fn de(&self) -> (r: bool)
        ensures
            r == self.has(InstructionSet::DE),
    {
        self.contains(InstructionSet::DE)
    }

    pub fn pse(&self) -> (r: bool)
        ensures
            r == self.has(InstructionSet::PSE),
    {
        self.contains(InstructionSet::PSE)
    }

    pub fn tsc(&self) -> (r: bool)
        ensures
            r == self.has(InstructionSet::TSC),
    {
        self.contains(InstructionSet::TSC)
    }

    pub fn msr(&self) -> (r: bool)
        ensures
            r == self.has(InstructionSet::MSR),
    {
        self.contains(InstructionSet::MSR)
    }

    pub fn pae(&self) -> (r: bool)
        ensures
            r == self.has(InstructionSet::PAE),
    {
        self.contains(InstructionSet::PAE)
    }

    pub fn mce(&self) -> (r: bool)
        ensures
            r == self.has(InstructionSet::MCE),
    {
        self.contains(InstructionSet::MCE)
    }

    pub fn cx8(&self) -> (r: bool)
        ensures
            r == self.has(InstructionSet::CX8),
    {
        self.contains(InstructionSet::CX8)
    }

    pub fn apic(&self) -> (r: bool)
        ensures
            r == self.has(InstructionSet::APIC),
    {
        self.contains(InstructionSet::APIC)
    }

    pub fn sep(&self) -> (r: bool)
        ensures
            r == self.has(InstructionSet::SEP),
    {
        self.contains(InstructionSet::SEP)
    }

    pub fn mtrr(&self) -> (r: bool)
        ensures
            r == self.has(InstructionSet::MTRR),
    {
        self.contains(InstructionSet::MTRR)
    }

    pub fn pge(&self) -> (r: bool)
        ensures
            r == self.has(InstructionSet::PGE),
    {
        self.contains(InstructionSet::PGE)
    }

    pub fn mca(&self) -> (r: bool)
        ensures
            r == self.has(InstructionSet::MCA),
    {
        self.contains(InstructionSet::MCA)
    }

    pub fn cmov(&self) -> (r: bool)
        ensures
            r == self.has(InstructionSet::CMOV),
    {
        self.contains(InstructionSet::CMOV)
    }

    pub fn pat(&self) -> (r: bool)
        ensures
            r == self.has(InstructionSet::PAT),
    {
        self.contains(InstructionSet::PAT)
    }

    pub fn pse36(&self) -> (r: bool)
        ensures
            r == self.has(InstructionSet::PSE36),
    {
        self.contains(InstructionSet::PSE36)
    }

    pub fn psn(&self) -> (r: bool)
        ensures
            r == self.has(InstructionSet::PSN),
    {
        self.contains(InstructionSet::PSN)
    }

    pub fn clfsh(&self) -> (r: bool)
        ensures
            r == self.has(InstructionSet::CLFLUSH),
    {
        self.contains(InstructionSet::CLFLUSH)
    }

    pub fn ds(&self) -> (r: bool)
        ensures
            r == self.has(InstructionSet::DS),
    {
        self.contains(InstructionSet::DS)
    }

    pub fn acpi(&self) -> (r: bool)
        ensures
            r == self.has(InstructionSet::ACPI),
    {
        self.contains(InstructionSet::ACPI)
    }

    pub fn mmx(&self) -> (r: bool)
        ensures
            r == self.has(InstructionSet::MMX),
    {
        self.contains(InstructionSet::MMX)
    }

    pub fn fxsr(&self) -> (r: bool)
        ensures
            r == self.has(InstructionSet::FXSR),
    {
        self.contains(InstructionSet::FXSR)
    }

    pub fn sse(&self) -> (r: bool)
        ensures
            r == self.has(InstructionSet::SSE),
    {
        self.contains(InstructionSet::SSE)
    }

    pub fn sse2(&self) -> (r: bool)
        ensures
            r == self.has(InstructionSet::SSE2),
    {
        self.contains(InstructionSet::SSE2)
    }

    pub fn ss(&self) -> (r: bool)
        ensures
            r == self.has(InstructionSet::SS),
    {
        self.contains(InstructionSet::SS)
    }

    pub fn htt(&self) -> (r: bool)
        ensures
            r == self.has(InstructionSet::HTT),
    {
        self.contains(InstructionSet::HTT)
    }

    pub fn tm(&self) -> (r: bool)
        ensures
            r == self.has(InstructionSet::TM),
    {
        self.contains(InstructionSet::TM)
    }

    pub fn ia64(&self) -> (r: bool)
        ensures
            r == self.has(InstructionSet::IA64),
    {
        self.contains(InstructionSet::IA64)
    }

    pub fn pbe(&self) -> (r: bool)
        ensures
            r == self.has(InstructionSet::PBE),
    {
        self.contains(InstructionSet::PBE)
    }

    pub fn sse3(&self) -> (r: bool)
        ensures
            r == self.has(InstructionSet::SSE3),
    {
        self.contains(InstructionSet::SSE3)
    }

    pub fn pclmulqdq(&self) -> (r: bool)
        ensures
            r == self.has(InstructionSet::PCLMULQDQ),
    {
        self.contains(InstructionSet::PCLMULQDQ)
    }

    pub fn dtes64(&self) -> (r: bool)
        ensures
            r == self.has(InstructionSet::DTES64),
    {
        self.contains(InstructionSet::DTES64)
    }

    pub fn monitor(&self) -> (r: bool)
        ensures
            r == self.has(InstructionSet::MONITOR),
    {
        self.contains(InstructionSet::MONITOR)
    }

    pub fn ds_cpl(&self) -> (r: bool)
        ensures
            r == self.has(InstructionSet::DsCpl),
    {
        self.contains(InstructionSet::DsCpl)
    }

    pub fn vmx(&self) -> (r: bool)
        ensures
            r == self.has(InstructionSet::VMX),
    {
        self.contains(InstructionSet::VMX)
    }

    pub fn smx(&self) -> (r: bool)
        ensures
            r == self.has(InstructionSet::SMX),
    {
        self.contains(InstructionSet::SMX)
    }

    pub fn est(&self) -> (r: bool)
        ensures
            r == self.has(InstructionSet::EST),
    {
        self.contains(InstructionSet::EST)
    }

    pub fn tm2(&self) -> (r: bool)
        ensures
            r == self.has(InstructionSet::TM2),
    {
        self.contains(InstructionSet::TM2)
    }

    pub fn ssse3(&self) -> (r: bool)
        ensures
            r == self.has(InstructionSet::SSSE3),
    {
        self.contains(InstructionSet::SSSE3)
    }

    pub fn cid(&self) -> (r: bool)
        ensures
            r == self.has(InstructionSet::CnxtId),
    {
        self.contains(InstructionSet::CnxtId)
    }

    pub fn fma(&self) -> (r: bool)
        ensures
            r == self.has(InstructionSet::FMA),
    {
        self.contains(InstructionSet::FMA)
    }

    pub fn cx16(&self) -> (r: bool)
        ensures
            r == self.has(InstructionSet::CX16),
    {
        self.contains(InstructionSet::CX16)
    }

    pub fn xtpr(&self) -> (r: bool)
        ensures
            r == self.has(InstructionSet::XTPR),
    {
        self.contains(InstructionSet::XTPR)
    }

    pub fn pdcm(&self) -> (r: bool)
        ensures
            r == self.has(InstructionSet::PDCM),
    {
        self.contains(InstructionSet::PDCM)
    }

    pub fn pcid(&self) -> (r: bool)
        ensures
            r == self.has(InstructionSet::PCID),
    {
        self.contains(InstructionSet::PCID)
    }

    pub fn dca(&self) -> (r: bool)
        ensures
            r == self.has(InstructionSet::DCA),
    {
        self.contains(InstructionSet::DCA)
    }

    pub fn sse41(&self) -> (r: bool)
        ensures
            r == self.has(InstructionSet::SSE41),
    {
        self.contains(InstructionSet::SSE41)
    }

    pub fn sse42(&self) -> (r: bool)
        ensures
            r == self.has(InstructionSet::SSE42),
    {
        self.contains(InstructionSet::SSE42)
    }

    pub fn x2apic(&self) -> (r: bool)
        ensures
            r == self.has(InstructionSet::X2APIC),
    {
        self.contains(InstructionSet::X2APIC)
    }

    pub fn movbe(&self) -> (r: bool)
        ensures
            r == self.has(InstructionSet::MOVBE),
    {
        self.contains(InstructionSet::MOVBE)
    }

    pub fn popcnt(&self) -> (r: bool)
        ensures
            r == self.has(InstructionSet::POPCNT),
    {
        self.contains(InstructionSet::POPCNT)
    }

    pub fn tsc_deadline(&self) -> (r: bool)
        ensures
            r == self.has(InstructionSet::TscDeadline),
    {
        self.contains(InstructionSet::TscDeadline)
    }

    pub fn aes(&self) -> (r: bool)
        ensures
            r == self.has(InstructionSet::AES),
    {
        self.contains(InstructionSet::AES)
    }

    pub fn xsave(&self) -> (r: bool)
        ensures
            r == self.has(InstructionSet::XSAVE),
    {
        self.contains(InstructionSet::XSAVE)
    }

    pub fn osxsave(&self) -> (r: bool)
        ensures
            r == self.has(InstructionSet::OSXSAVE),
    {
        self.contains(InstructionSet::OSXSAVE)
    }

    pub fn avx(&self) -> (r: bool)
        ensures
            r == self.has(InstructionSet::AVX),
    {
        self.contains(InstructionSet::AVX)
    }

    pub fn f16c(&self) -> (r: bool)
        ensures
            r == self.has(InstructionSet::F16C),
    {
        self.contains(InstructionSet::F16C)
    }

    pub fn rdrand(&self) -> (r: bool)
        ensures
            r == self.has(InstructionSet::RDRAND),
    {
        self.contains(InstructionSet::RDRAND)
    }

    pub fn fsgsbase(&self) -> (r: bool)
        ensures
            r == self.has(InstructionSet::FSGSBASE),
    {
        self.contains(InstructionSet::FSGSBASE)
    }

    pub fn sgx(&self) -> (r: bool)
        ensures
            r == self.has(InstructionSet::SGX),
    {
        self.contains(InstructionSet::SGX)
    }

    pub fn bmi1(&self) -> (r: bool)
        ensures
            r == self.has(InstructionSet::BMI1),
    {
        self.contains(InstructionSet::BMI1)
    }

    pub fn hle(&self) -> (r: bool)
        ensures
            r == self.has(InstructionSet::HLE),
    {
        self.contains(InstructionSet::HLE)
    }

    pub fn avx2(&self) -> (r: bool)
        ensures
            r == self.has(InstructionSet::AVX2),
    {
        self.contains(InstructionSet::AVX2)
    }

    pub fn smep(&self) -> (r: bool)
        ensures
            r == self.has(InstructionSet::SMEP),
    {
        self.contains(InstructionSet::SMEP)
    }

    pub fn bmi2(&self) -> (r: bool)
        ensures
            r == self.has(InstructionSet::BMI2),
    {
        self.contains(InstructionSet::BMI2)
    }

    pub fn erms(&self) -> (r: bool)
        ensures
            r == self.has(InstructionSet::ERMS),
    {
        self.contains(InstructionSet::ERMS)
    }

    pub fn invpcid(&self) -> (r: bool)
        ensures
            r == self.has(InstructionSet::INVPCID),
    {
        self.contains(InstructionSet::INVPCID)
    }

    pub fn rtm(&self) -> (r: bool)
        ensures
            r == self.has(InstructionSet::RTM),
    {
        self.contains(InstructionSet::RTM)
    }

    pub fn mpx(&self) -> (r: bool)
        ensures
            r == self.has(InstructionSet::MPX),
    {
        self.contains(InstructionSet::MPX)
    }

    pub fn avx512f(&self) -> (r: bool)
        ensures
            r == self.has(InstructionSet::AVX512F),
    {
        self.contains(InstructionSet::AVX512F)
    }

    pub fn avx512dq(&self) -> (r: bool)
        ensures
            r == self.has(InstructionSet::AVX512DQ),
    {
        self.contains(InstructionSet::AVX512DQ)
    }

    pub fn rdseed(&self) -> (r: bool)
        ensures
            r == self.has(InstructionSet::RDSEED),
    {
        self.contains(InstructionSet::RDSEED)
    }

    pub fn adx(&self) -> (r: bool)
        ensures
            r == self.has(InstructionSet::ADX),
    {
        self.contains(InstructionSet::ADX)
    }

    pub fn smap(&self) -> (r: bool)
        ensures
            r == self.has(InstructionSet::SMAP),
    {
        self.contains(InstructionSet::SMAP)
    }

    pub fn avx512ifma(&self) -> (r: bool)
        ensures
            r == self.has(InstructionSet::AVX512IFMA),
    {
        self.contains(InstructionSet::AVX512IFMA)
    }

    pub fn clflushopt(&self) -> (r: bool)
        ensures
            r == self.has(InstructionSet::CLFLUSHOPT),
    {
        self.contains(InstructionSet::CLFLUSHOPT)
    }

    pub fn clwb(&self) -> (r: bool)
        ensures
            r == self.has(InstructionSet::CLWB),
    {
        self.contains(InstructionSet::CLWB)
    }

    pub fn avx512pf(&self) -> (r: bool)
        ensures
            r == self.has(InstructionSet::AVX512PF),
    {
        self.contains(InstructionSet::AVX512PF)
    }

    pub fn avx512er(&self) -> (r: bool)
        ensures
            r == self.has(InstructionSet::AVX512ER),
    {
        self.contains(InstructionSet::AVX512ER)
    }

    pub fn avx512cd(&self) -> (r: bool)
        ensures
            r == self.has(InstructionSet::AVX512CD),
    {
        self.contains(InstructionSet::AVX512CD)
    }

    pub fn sha(&self) -> (r: bool)
        ensures
            r == self.has(InstructionSet::SHA),
    {
        self.contains(InstructionSet::SHA)
    }

    pub fn avx512bw(&self) -> (r: bool)
        ensures
            r == self.has(InstructionSet::AVX512BW),
    {
        self.contains(InstructionSet::AVX512BW)
    }

    pub fn avx512vl(&self) -> (r: bool)
        ensures
            r == self.has(InstructionSet::AVX512VL),
    {
        self.contains(InstructionSet::AVX512VL)
    }

    pub fn lahf_lm(&self) -> (r: bool)
        ensures
            r == self.has(InstructionSet::LahfLm),
    {
        self.contains(InstructionSet::LahfLm)
    }

    pub fn cmp_legacy(&self) -> (r: bool)
        ensures
            r == self.has(InstructionSet::CmpLegacy),
    {
        self.contains(InstructionSet::CmpLegacy)
    }

    pub fn svm(&self) -> (r: bool)
        ensures
            r == self.has(InstructionSet::SVM),
    {
        self.contains(InstructionSet::SVM)
    }

    pub fn extapic(&self) -> (r: bool)
        ensures
            r == self.has(InstructionSet::EXTAPIC),
    {
        self.contains(InstructionSet::EXTAPIC)
    }

    pub fn cr8_legacy(&self) -> (r: bool)
        ensures
            r == self.has(InstructionSet::Cr8Legacy),
    {
        self.contains(InstructionSet::Cr8Legacy)
    }

    pub fn abm(&self) -> (r: bool)
        ensures
            r == self.has(InstructionSet::LZCNT),
    {
        self.contains(InstructionSet::LZCNT)
    }

    pub fn sse4a(&self) -> (r: bool)
        ensures
            r == self.has(InstructionSet::SSE4A),
    {
        self.contains(InstructionSet::SSE4A)
    }

    pub fn misalignsse(&self) -> (r: bool)
        ensures
            r == self.has(InstructionSet::MisalignSse),
    {
        self.contains(InstructionSet::MisalignSse)
    }

    pub fn prefetchw(&self) -> (r: bool)
        ensures
            r == self.has(InstructionSet::PREFETCHW),
    {
        self.contains(InstructionSet::PREFETCHW)
    }

    pub fn osvw(&self) -> (r: bool)
        ensures
            r == self.has(InstructionSet::OSVW),
    {
        self.contains(InstructionSet::OSVW)
    }

    pub fn ibs(&self) -> (r: bool)
        ensures
            r == self.has(InstructionSet::IBS),
    {
        self.contains(InstructionSet::IBS)
    }

    pub fn xop(&self) -> (r: bool)
        ensures
            r == self.has(InstructionSet::XOP),
    {
        self.contains(InstructionSet::XOP)
    }

    pub fn skinit(&self) -> (r: bool)
        ensures
            r == self.has(InstructionSet::SKINIT),
    {
        self.contains(InstructionSet::SKINIT)
    }

    pub fn wdt(&self) -> (r: bool)
        ensures
            r == self.has(InstructionSet::WDT),
    {
        self.contains(InstructionSet::WDT)
    }

    pub fn padlock_rng(&self) -> (r: bool)
        ensures
            r == self.has(InstructionSet::PadlockRng),
    {
        self.contains(InstructionSet::PadlockRng)
    }

    pub fn padlock_ace(&self) -> (r: bool)
        ensures
            r == self.has(InstructionSet::PadlockAce),
    {
        self.contains(InstructionSet::PadlockAce)
    }

    pub fn padlock_ace2(&self) -> (r: bool)
        ensures
            r == self.has(InstructionSet::PadlockAce2),
    {
        self.contains(InstructionSet::PadlockAce2)
    }

    pub fn padlock_phe(&self) -> (r: bool)
        ensures
            r == self.has(InstructionSet::PadlockPhe),
    {
        self.contains(InstructionSet::PadlockPhe)
    }

    pub fn padlock_pmm(&self) -> (r: bool)
        ensures
            r == self.has(InstructionSet::PadlockPmm),
    {
        self.contains(InstructionSet::PadlockPmm)
    }
}

} // verus!

verus! {

/// The architecture family that a flag belongs to.
#[derive(Clone, Copy, Debug, PartialEq, Eq, Hash, Structural)]
pub enum Architecture {
    X86,
    Arm,
    RiscV,
}

/// Platform bit at which the RISC-V flags start; the ARM flags lie below it.
pub const RISCV_FIRST_BIT: u32 = 8;

/// The family of `f`: x86 for every flag read from a probe word, ARM for the
/// platform flags below bit 8, RISC-V for the others.
pub open spec fn flag_architecture(f: InstructionSet) -> Architecture {
    if flag_location(f).0 != FeatureWord::Platform {
        Architecture::X86
    } else if flag_location(f).1 < RISCV_FIRST_BIT {
        Architecture::Arm
    } else {
        Architecture::RiscV
    }
}

/// The family of `f`.
pub fn architecture_of(f: InstructionSet) -> (r: Architecture)
    ensures
        r == flag_architecture(f),
{
    let (w, b) = location_of(f);
    match w {
        FeatureWord::Platform => if b < RISCV_FIRST_BIT {
            Architecture::Arm
        } else {
            Architecture::RiscV
        },
        _ => Architecture::X86,
    }
}

} // verus!

verus! {

/// One update per named x86 flag.
impl CpuFeatures {
    pub fn set_fpu(&mut self, val: bool)
        ensures
            forall|g: InstructionSet| #[trigger]
                final(self).has(g) == if g == InstructionSet::FPU {
                    val
                } else {
                    old(self).has(g)
                },
    {
        self.set(InstructionSet::FPU, val)
    }

    pub fn set_vme(&mut self, val: bool)
        ensures
            forall|g: InstructionSet| #[trigger]
                final(self).has(g) == if g == InstructionSet::VME {
                    val
                } else {
                    old(self).has(g)
                },
    {
        self.set(InstructionSet::VME, val)
    }

    pub fn set_de(&mut self, val: bool)
        ensures
            forall|g: InstructionSet| #[trigger]
                final(self).has(g) == if g == InstructionSet::DE {
                    val
                } else {
                    old(self).has(g)
                },
    {
        self.set(InstructionSet::DE, val)
    }

    pub fn set_pse(&mut self, val: bool)
        ensures
            forall|g: InstructionSet| #[trigger]
                final(self).has(g) == if g == InstructionSet::PSE {
                    val
                } else {
                    old(self).has(g)
                },
    {
        self.set(InstructionSet::PSE, val)
    }

    pub fn set_tsc(&mut self, val: bool)
        ensures
            forall|g: InstructionSet| #[trigger]
                final(self).has(g) == if g == InstructionSet::TSC {
                    val
                } else {
                    old(self).has(g)
                },
    {
        self.set(InstructionSet::TSC, val)
    }

    pub fn set_msr(&mut self, val: bool)
        ensures
            forall|g: InstructionSet| #[trigger]
                final(self).has(g) == if g == InstructionSet::MSR {
                    val
                } else {
                    old(self).has(g)
                },
    {
        self.set(InstructionSet::MSR, val)
    }

    pub fn set_pae(&mut self, val: bool)
        ensures
            forall|g: InstructionSet| #[trigger]
                final(self).has(g) == if g == InstructionSet::PAE {
                    val
                } else {
                    old(self).has(g)
                },
    {
        self.set(InstructionSet::PAE, val)
    }

    pub fn set_mce(&mut self, val: bool)
        ensures
            forall|g: InstructionSet| #[trigger]
                final(self).has(g) == if g == InstructionSet::MCE {
                    val
                } else {
                    old(self).has(g)
                },
    {
        self.set(InstructionSet::MCE, val)
    }

    pub fn set_cx8(&mut self, val: bool)
        ensures
            forall|g: InstructionSet| #[trigger]
                final(self).has(g) == if g == InstructionSet::CX8 {
                    val
                } else {
                    old(self).has(g)
                },
    {
        self.set(InstructionSet::CX8, val)
    }

    pub fn set_apic(&mut self, val: bool)
        ensures
            forall|g: InstructionSet| #[trigger]
                final(self).has(g) == if g == InstructionSet::APIC {
                    val
                } else {
                    old(self).has(g)
                },
    {
        self.set(InstructionSet::APIC, val)
    }

    pub fn set_sep(&mut self, val: bool)
        ensures
            forall|g: InstructionSet| #[trigger]
                final(self).has(g) == if g == InstructionSet::SEP {
                    val
                } else {
                    old(self).has(g)
                },
    {
        self.set(InstructionSet::SEP, val)
    }

    pub fn set_mtrr(&mut self, val: bool)
        ensures
            forall|g: InstructionSet| #[trigger]
                final(self).has(g) == if g == InstructionSet::MTRR {
                    val
                } else {
                    old(self).has(g)
                },
    {
        self.set(InstructionSet::MTRR, val)
    }

    pub fn set_pge(&mut self, val: bool)
        ensures
            forall|g: InstructionSet| #[trigger]
                final(self).has(g) == if g == InstructionSet::PGE {
                    val
                } else {
                    old(self).has(g)
                },
    {
        self.set(InstructionSet::PGE, val)
    }

    pub fn set_mca(&mut self, val: bool)
        ensures
            forall|g: InstructionSet| #[trigger]
                final(self).has(g) == if g == InstructionSet::MCA {
                    val
                } else {
                    old(self).has(g)
                },
    {
        self.set(InstructionSet::MCA, val)
    }

    pub fn set_cmov(&mut self, val: bool)
        ensures
            forall|g: InstructionSet| #[trigger]
                final(self).has(g) == if g == InstructionSet::CMOV {
                    val
                } else {
                    old(self).has(g)
                },
    {
        self.set(InstructionSet::CMOV, val)
    }

    pub fn set_pat(&mut self, val: bool)
        ensures
            forall|g: InstructionSet| #[trigger]
                final(self).has(g) == if g == InstructionSet::PAT {
                    val
                } else {
                    old(self).has(g)
                },
    {
        self.set(InstructionSet::PAT, val)
    }

    pub fn set_pse36(&mut self, val: bool)
        ensures
            forall|g: InstructionSet| #[trigger]
                final(self).has(g) == if g == InstructionSet::PSE36 {
                    val
                } else {
                    old(self).has(g)
                },
    {
        self.set(InstructionSet::PSE36, val)
    }

    pub fn set_psn(&mut self, val: bool)
        ensures
            forall|g: InstructionSet| #[trigger]
                final(self).has(g) == if g == InstructionSet::PSN {
                    val
                } else {
                    old(self).has(g)
                },
    {
        self.set(InstructionSet::PSN, val)
    }

    pub fn set_clfsh(&mut self, val: bool)
        ensures
            forall|g: InstructionSet| #[trigger]
                final(self).has(g) == if g == InstructionSet::CLFLUSH {
                    val
                } else {
                    old(self).has(g)
                },
    {
        self.set(InstructionSet::CLFLUSH, val)
    }

    pub fn set_ds(&mut self, val: bool)
        ensures
            forall|g: InstructionSet| #[trigger]
                final(self).has(g) == if g == InstructionSet::DS {
                    val
                } else {
                    old(self).has(g)
                },
    {
        self.set(InstructionSet::DS, val)
    }

    pub fn set_acpi(&mut self, val: bool)
        ensures
            forall|g: InstructionSet| #[trigger]
                final(self).has(g) == if g == InstructionSet::ACPI {
                    val
                } else {
                    old(self).has(g)
                },
    {
        self.set(InstructionSet::ACPI, val)
    }

    pub fn set_mmx(&mut self, val: bool)
        ensures
            forall|g: InstructionSet| #[trigger]
                final(self).has(g) == if g == InstructionSet::MMX {
                    val
                } else {
                    old(self).has(g)
                },
    {
        self.set(InstructionSet::MMX, val)
    }

    pub fn set_fxsr(&mut self, val: bool)
        ensures
            forall|g: InstructionSet| #[trigger]
                final(self).has(g) == if g == InstructionSet::FXSR {
                    val
                } else {
                    old(self).has(g)
                },
    {
        self.set(InstructionSet::FXSR, val)
    }

    pub fn set_sse(&mut self, val: bool)
        ensures
            forall|g: InstructionSet| #[trigger]
                final(self).has(g) == if g == InstructionSet::SSE {
                    val
                } else {
                    old(self).has(g)
                },
    {
        self.set(InstructionSet::SSE, val)
    }

    pub fn set_sse2(&mut self, val: bool)
        ensures
            forall|g: InstructionSet| #[trigger]
                final(self).has(g) == if g == InstructionSet::SSE2 {
                    val
                } else {
                    old(self).has(g)
                },
    {
        self.set(InstructionSet::SSE2, val)
    }

    pub fn set_ss(&mut self, val: bool)
        ensures
            forall|g: InstructionSet| #[trigger]
                final(self).has(g) == if g == InstructionSet::SS {
                    val
                } else {
                    old(self).has(g)
                },
    {
        self.set(InstructionSet::SS, val)
    }

    pub fn set_htt(&mut self, val: bool)
        ensures
            forall|g: InstructionSet| #[trigger]
                final(self).has(g) == if g == InstructionSet::HTT {
                    val
                } else {
                    old(self).has(g)
                },
    {
        self.set(InstructionSet::HTT, val)
    }

    pub fn set_tm(&mut self, val: bool)
        ensures
            forall|g: InstructionSet| #[trigger]
                final(self).has(g) == if g == InstructionSet::TM {
                    val
                } else {
                    old(self).has(g)
                },
    {
        self.set(InstructionSet::TM, val)
    }

    pub fn set_ia64(&mut self, val: bool)
        ensures
            forall|g: InstructionSet| #[trigger]
                final(self).has(g) == if g == InstructionSet::IA64 {
                    val
                } else {
                    old(self).has(g)
                },
    {
        self.set(InstructionSet::IA64, val)
    }

    pub fn set_pbe(&mut self, val: bool)
        ensures
            forall|g: InstructionSet| #[trigger]
                final(self).has(g) == if g == InstructionSet::PBE {
                    val
                } else {
                    old(self).has(g)
                },
    {
        self.set(InstructionSet::PBE, val)
    }

    pub fn set_sse3(&mut self, val: bool)
        ensures
            forall|g: InstructionSet| #[trigger]
                final(self).has(g) == if g == InstructionSet::SSE3 {
                    val
                } else {
                    old(self).has(g)
                },
    {
        self.set(InstructionSet::SSE3, val)
    }

    pub fn set_pclmulqdq(&mut self, val: bool)
        ensures
            forall|g: InstructionSet| #[trigger]
                final(self).has(g) == if g == InstructionSet::PCLMULQDQ {
                    val
                } else {
                    old(self).has(g)
                },
    {
        self.set(InstructionSet::PCLMULQDQ, val)
    }

    pub fn set_dtes64(&mut self, val: bool)
        ensures
            forall|g: InstructionSet| #[trigger]
                final(self).has(g) == if g == InstructionSet::DTES64 {
                    val
                } else {
                    old(self).has(g)
                },
    {
        self.set(InstructionSet::DTES64, val)
    }

    pub fn set_monitor(&mut self, val: bool)
        ensures
            forall|g: InstructionSet| #[trigger]
                final(self).has(g) == if g == InstructionSet::MONITOR {
                    val
                } else {
                    old(self).has(g)
                },
    {
        self.set(InstructionSet::MONITOR, val)
    }

    pub fn set_ds_cpl(&mut self, val: bool)
        ensures
            forall|g: InstructionSet| #[trigger]
                final(self).has(g) == if g == InstructionSet::DsCpl {
                    val
                } else {
                    old(self).has(g)
                },
    {
        self.set(InstructionSet::DsCpl, val)
    }

    pub fn set_vmx(&mut self, val: bool)
        ensures
            forall|g: InstructionSet| #[trigger]
                final(self).has(g) == if g == InstructionSet::VMX {
                    val
                } else {
                    old(self).has(g)
                },
    {
        self.set(InstructionSet::VMX, val)
    }

    pub fn set_smx(&mut self, val: bool)
        ensures
            forall|g: InstructionSet| #[trigger]
                final(self).has(g) == if g == InstructionSet::SMX {
                    val
                } else {
                    old(self).has(g)
                },
    {
        self.set(InstructionSet::SMX, val)
    }

    pub fn set_est(&mut self, val: bool)
        ensures
            forall|g: InstructionSet| #[trigger]
                final(self).has(g) == if g == InstructionSet::EST {
                    val
                } else {
                    old(self).has(g)
                },
    {
        self.set(InstructionSet::EST, val)
    }

    pub fn set_tm2(&mut self, val: bool)
        ensures
            forall|g: InstructionSet| #[trigger]
                final(self).has(g) == if g == InstructionSet::TM2 {
                    val
                } else {
                    old(self).has(g)
                },
    {
        self.set(InstructionSet::TM2, val)
    }

    pub fn set_ssse3(&mut self, val: bool)
        ensures
            forall|g: InstructionSet| #[trigger]
                final(self).has(g) == if g == InstructionSet::SSSE3 {
                    val
                } else {
                    old(self).has(g)
                },
    {
        self.set(InstructionSet::SSSE3, val)
    }

    pub fn set_cid(&mut self, val: bool)
        ensures
            forall|g: InstructionSet| #[trigger]
                final(self).has(g) == if g == InstructionSet::CnxtId {
                    val
                } else {
                    old(self).has(g)
                },
    {
        self.set(InstructionSet::CnxtId, val)
    }

    pub fn set_fma(&mut self, val: bool)
        ensures
            forall|g: InstructionSet| #[trigger]
                final(self).has(g) == if g == InstructionSet::FMA {
                    val
                } else {
                    old(self).has(g)
                },
    {
        self.set(InstructionSet::FMA, val)
    }

    pub fn set_cx16(&mut self, val: bool)
        ensures
            forall|g: InstructionSet| #[trigger]
                final(self).has(g) == if g == InstructionSet::CX16 {
                    val
                } else {
                    old(self).has(g)
                },
    {
        self.set(InstructionSet::CX16, val)
    }

    pub fn set_xtpr(&mut self, val: bool)
        ensures
            forall|g: InstructionSet| #[trigger]
                final(self).has(g) == if g == InstructionSet::XTPR {
                    val
                } else {
                    old(self).has(g)
                },
    {
        self.set(InstructionSet::XTPR, val)
    }

    pub fn set_pdcm(&mut self, val: bool)
        ensures
            forall|g: InstructionSet| #[trigger]
                final(self).has(g) == if g == InstructionSet::PDCM {
                    val
                } else {
                    old(self).has(g)
                },
    {
        self.set(InstructionSet::PDCM, val)
    }

    pub fn set_pcid(&mut self, val: bool)
        ensures
            forall|g: InstructionSet| #[trigger]
                final(self).has(g) == if g == InstructionSet::PCID {
                    val
                } else {
                    old(self).has(g)
                },
    {
        self.set(InstructionSet::PCID, val)
    }

    pub fn set_dca(&mut self, val: bool)
        ensures
            forall|g: InstructionSet| #[trigger]
                final(self).has(g) == if g == InstructionSet::DCA {
                    val
                } else {
                    old(self).has(g)
                },
    {
        self.set(InstructionSet::DCA, val)
    }

    pub fn set_sse41(&mut self, val: bool)
        ensures
            forall|g: InstructionSet| #[trigger]
                final(self).has(g) == if g == InstructionSet::SSE41 {
                    val
                } else {
                    old(self).has(g)
                },
    {
        self.set(InstructionSet::SSE41, val)
    }

    pub fn set_sse42(&mut self, val: bool)
        ensures
            forall|g: InstructionSet| #[trigger]
                final(self).has(g) == if g == InstructionSet::SSE42 {
                    val
                } else {
                    old(self).has(g)
                },
    {
        self.set(InstructionSet::SSE42, val)
    }

    pub fn set_x2apic(&mut self, val: bool)
        ensures
            forall|g: InstructionSet| #[trigger]
                final(self).has(g) == if g == InstructionSet::X2APIC {
                    val
                } else {
                    old(self).has(g)
                },
    {
        self.set(InstructionSet::X2APIC, val)
    }

    pub fn set_movbe(&mut self, val: bool)
        ensures
            forall|g: InstructionSet| #[trigger]
                final(self).has(g) == if g == InstructionSet::MOVBE {
                    val
                } else {
                    old(self).has(g)
                },
    {
        self.set(InstructionSet::MOVBE, val)
    }

    pub fn set_popcnt(&mut self, val: bool)
        ensures
            forall|g: InstructionSet| #[trigger]
                final(self).has(g) == if g == InstructionSet::POPCNT {
                    val
                } else {
                    old(self).has(g)
                },
    {
        self.set(InstructionSet::POPCNT, val)
    }

    pub fn set_tsc_deadline(&mut self, val: bool)
        ensures
            forall|g: InstructionSet| #[trigger]
                final(self).has(g) == if g == InstructionSet::TscDeadline {
                    val
                } else {
                    old(self).has(g)
                },
    {
        self.set(InstructionSet::TscDeadline, val)
    }

    pub fn set_aes(&mut self, val: bool)
        ensures
            forall|g: InstructionSet| #[trigger]
                final(self).has(g) == if g == InstructionSet::AES {
                    val
                } else {
                    old(self).has(g)
                },
    {
        self.set(InstructionSet::AES, val)
    }

    pub fn set_xsave(&mut self, val: bool)
        ensures
            forall|g: InstructionSet| #[trigger]
                final(self).has(g) == if g == InstructionSet::XSAVE {
                    val
                } else {
                    old(self).has(g)
                },
    {
        self.set(InstructionSet::XSAVE, val)
    }

    pub fn set_osxsave(&mut self, val: bool)
        ensures
            forall|g: InstructionSet| #[trigger]
                final(self).has(g) == if g == InstructionSet::OSXSAVE {
                    val
                } else {
                    old(self).has(g)
                },
    {
        self.set(InstructionSet::OSXSAVE, val)
    }

    pub fn set_avx(&mut self, val: bool)
        ensures
            forall|g: InstructionSet| #[trigger]
                final(self).has(g) == if g == InstructionSet::AVX {
                    val
                } else {
                    old(self).has(g)
                },
    {
        self.set(InstructionSet::AVX, val)
    }

    pub fn set_f16c(&mut self, val: bool)
        ensures
            forall|g: InstructionSet| #[trigger]
                final(self).has(g) == if g == InstructionSet::F16C {
                    val
                } else {
                    old(self).has(g)
                },
    {
        self.set(InstructionSet::F16C, val)
    }

    pub fn set_rdrand(&mut self, val: bool)
        ensures
            forall|g: InstructionSet| #[trigger]
                final(self).has(g) == if g == InstructionSet::RDRAND {
                    val
                } else {
                    old(self).has(g)
                },
    {
        self.set(InstructionSet::RDRAND, val)
    }

    pub fn set_fsgsbase(&mut self, val: bool)
        ensures
            forall|g: InstructionSet| #[trigger]
                final(self).has(g) == if g == InstructionSet::FSGSBASE {
                    val
                } else {
                    old(self).has(g)
                },
    {
        self.set(InstructionSet::FSGSBASE, val)
    }

    pub fn set_sgx(&mut self, val: bool)
        ensures
            forall|g: InstructionSet| #[trigger]
                final(self).has(g) == if g == InstructionSet::SGX {
                    val
                } else {
                    old(self).has(g)
                },
    {
        self.set(InstructionSet::SGX, val)
    }

    pub fn set_bmi1(&mut self, val: bool)
        ensures
            forall|g: InstructionSet| #[trigger]
                final(self).has(g) == if g == InstructionSet::BMI1 {
                    val
                } else {
                    old(self).has(g)
                },
    {
        self.set(InstructionSet::BMI1, val)
    }

    pub fn set_hle(&mut self, val: bool)
        ensures
            forall|g: InstructionSet| #[trigger]
                final(self).has(g) == if g == InstructionSet::HLE {
                    val
                } else {
                    old(self).has(g)
                },
    {
        self.set(InstructionSet::HLE, val)
    }

    pub fn set_avx2(&mut self, val: bool)
        ensures
            forall|g: InstructionSet| #[trigger]
                final(self).has(g) == if g == InstructionSet::AVX2 {
                    val
                } else {
                    old(self).has(g)
                },
    {
        self.set(InstructionSet::AVX2, val)
    }

    pub fn set_smep(&mut self, val: bool)
        ensures
            forall|g: InstructionSet| #[trigger]
                final(self).has(g) == if g == InstructionSet::SMEP {
                    val
                } else {
                    old(self).has(g)
                },
    {
        self.set(InstructionSet::SMEP, val)
    }

    pub fn set_bmi2(&mut self, val: bool)
        ensures
            forall|g: InstructionSet| #[trigger]
                final(self).has(g) == if g == InstructionSet::BMI2 {
                    val
                } else {
                    old(self).has(g)
                },
    {
        self.set(InstructionSet::BMI2, val)
    }

    pub fn set_erms(&mut self, val: bool)
        ensures
            forall|g: InstructionSet| #[trigger]
                final(self).has(g) == if g == InstructionSet::ERMS {
                    val
                } else {
                    old(self).has(g)
                },
    {
        self.set(InstructionSet::ERMS, val)
    }

    pub fn set_invpcid(&mut self, val: bool)
        ensures
            forall|g: InstructionSet| #[trigger]
                final(self).has(g) == if g == InstructionSet::INVPCID {
                    val
                } else {
                    old(self).has(g)
                },
    {
        self.set(InstructionSet::INVPCID, val)
    }

    pub fn set_rtm(&mut self, val: bool)
        ensures
            forall|g: InstructionSet| #[trigger]
                final(self).has(g) == if g == InstructionSet::RTM {
                    val
                } else {
                    old(self).has(g)
                },
    {
        self.set(InstructionSet::RTM, val)
    }

    pub fn set_mpx(&mut self, val: bool)
        ensures
            forall|g: InstructionSet| #[trigger]
                final(self).has(g) == if g == InstructionSet::MPX {
                    val
                } else {
                    old(self).has(g)
                },
    {
        self.set(InstructionSet::MPX, val)
    }

    pub fn set_avx512f(&mut self, val: bool)
        ensures
            forall|g: InstructionSet| #[trigger]
                final(self).has(g) == if g == InstructionSet::AVX512F {
                    val
                } else {
                    old(self).has(g)
                },
    {
        self.set(InstructionSet::AVX512F, val)
    }

    pub fn set_avx512dq(&mut self, val: bool)
        ensures
            forall|g: InstructionSet| #[trigger]
                final(self).has(g) == if g == InstructionSet::AVX512DQ {
                    val
                } else {
                    old(self).has(g)
                },
    {
        self.set(InstructionSet::AVX512DQ, val)
    }

    pub fn set_rdseed(&mut self, val: bool)
        ensures
            forall|g: InstructionSet| #[trigger]
                final(self).has(g) == if g == InstructionSet::RDSEED {
                    val
                } else {
                    old(self).has(g)
                },
    {
        self.set(InstructionSet::RDSEED, val)
    }

    pub fn set_adx(&mut self, val: bool)
        ensures
            forall|g: InstructionSet| #[trigger]
                final(self).has(g) == if g == InstructionSet::ADX {
                    val
                } else {
                    old(self).has(g)
                },
    {
        self.set(InstructionSet::ADX, val)
    }

    pub fn set_smap(&mut self, val: bool)
        ensures
            forall|g: InstructionSet| #[trigger]
                final(self).has(g) == if g == InstructionSet::SMAP {
                    val
                } else {
                    old(self).has(g)
                },
    {
        self.set(InstructionSet::SMAP, val)
    }

    pub fn set_avx512ifma(&mut self, val: bool)
        ensures
            forall|g: InstructionSet| #[trigger]
                final(self).has(g) == if g == InstructionSet::AVX512IFMA {
                    val
                } else {
                    old(self).has(g)
                },
    {
        self.set(InstructionSet::AVX512IFMA, val)
    }

    pub fn set_clflushopt(&mut self, val: bool)
        ensures
            forall|g: InstructionSet| #[trigger]
                final(self).has(g) == if g == InstructionSet::CLFLUSHOPT {
                    val
                } else {
                    old(self).has(g)
                },
    {
        self.set(InstructionSet::CLFLUSHOPT, val)
    }

    pub fn set_clwb(&mut self, val: bool)
        ensures
            forall|g: InstructionSet| #[trigger]
                final(self).has(g) == if g == InstructionSet::CLWB {
                    val
                } else {
                    old(self).has(g)
                },
    {
        self.set(InstructionSet::CLWB, val)
    }

    pub fn set_avx512pf(&mut self, val: bool)
        ensures
            forall|g: InstructionSet| #[trigger]
                final(self).has(g) == if g == InstructionSet::AVX512PF {
                    val
                } else {
                    old(self).has(g)
                },
    {
        self.set(InstructionSet::AVX512PF, val)
    }

    pub fn set_avx512er(&mut self, val: bool)
        ensures
            forall|g: InstructionSet| #[trigger]
                final(self).has(g) == if g == InstructionSet::AVX512ER {
                    val
                } else {
                    old(self).has(g)
                },
    {
        self.set(InstructionSet::AVX512ER, val)
    }

    pub fn set_avx512cd(&mut self, val: bool)
        ensures
            forall|g: InstructionSet| #[trigger]
                final(self).has(g) == if g == InstructionSet::AVX512CD {
                    val
                } else {
                    old(self).has(g)
                },
    {
        self.set(InstructionSet::AVX512CD, val)
    }

    pub fn set_sha(&mut self, val: bool)
        ensures
            forall|g: InstructionSet| #[trigger]
                final(self).has(g) == if g == InstructionSet::SHA {
                    val
                } else {
                    old(self).has(g)
                },
    {
        self.set(InstructionSet::SHA, val)
    }

    pub fn set_avx512bw(&mut self, val: bool)
        ensures
            forall|g: InstructionSet| #[trigger]
                final(self).has(g) == if g == InstructionSet::AVX512BW {
                    val
                } else {
                    old(self).has(g)
                },
    {
        self.set(InstructionSet::AVX512BW, val)
    }

    pub fn set_avx512vl(&mut self, val: bool)
        ensures
            forall|g: InstructionSet| #[trigger]
                final(self).has(g) == if g == InstructionSet::AVX512VL {
                    val
                } else {
                    old(self).has(g)
                },
    {
        self.set(InstructionSet::AVX512VL, val)
    }

    pub fn set_lahf_lm(&mut self, val: bool)
        ensures
            forall|g: InstructionSet| #[trigger]
                final(self).has(g) == if g == InstructionSet::LahfLm {
                    val
                } else {
                    old(self).has(g)
                },
    {
        self.set(InstructionSet::LahfLm, val)
    }

    pub fn set_cmp_legacy(&mut self, val: bool)
        ensures
            forall|g: InstructionSet| #[trigger]
                final(self).has(g) == if g == InstructionSet::CmpLegacy {
                    val
                } else {
                    old(self).has(g)
                },
    {
        self.set(InstructionSet::CmpLegacy, val)
    }

    pub fn set_svm(&mut self, val: bool)
        ensures
            forall|g: InstructionSet| #[trigger]
                final(self).has(g) == if g == InstructionSet::SVM {
                    val
                } else {
                    old(self).has(g)
                },
    {
        self.set(InstructionSet::SVM, val)
    }

    pub fn set_extapic(&mut self, val: bool)
        ensures
            forall|g: InstructionSet| #[trigger]
                final(self).has(g) == if g == InstructionSet::EXTAPIC {
                    val
                } else {
                    old(self).has(g)
                },
    {
        self.set(InstructionSet::EXTAPIC, val)
    }

    pub fn set_cr8_legacy(&mut self, val: bool)
        ensures
            forall|g: InstructionSet| #[trigger]
                final(self).has(g) == if g == InstructionSet::Cr8Legacy {
                    val
                } else {
                    old(self).has(g)
                },
    {
        self.set(InstructionSet::Cr8Legacy, val)
    }

    pub fn set_abm(&mut self, val: bool)
        ensures
            forall|g: InstructionSet| #[trigger]
                final(self).has(g) == if g == InstructionSet::LZCNT {
                    val
                } else {
                    old(self).has(g)
                },
    {
        self.set(InstructionSet::LZCNT, val)
    }

    pub fn set_sse4a(&mut self, val: bool)
        ensures
            forall|g: InstructionSet| #[trigger]
                final(self).has(g) == if g == InstructionSet::SSE4A {
                    val
                } else {
                    old(self).has(g)
                },
    {
        self.set(InstructionSet::SSE4A, val)
    }

    pub fn set_misalignsse(&mut self, val: bool)
        ensures
            forall|g: InstructionSet| #[trigger]
                final(self).has(g) == if g == InstructionSet::MisalignSse {
                    val
                } else {
                    old(self).has(g)
                },
    {
        self.set(InstructionSet::MisalignSse, val)
    }

    pub fn set_prefetchw(&mut self, val: bool)
        ensures
            forall|g: InstructionSet| #[trigger]
                final(self).has(g) == if g == InstructionSet::PREFETCHW {
                    val
                } else {
                    old(self).has(g)
                },
    {
        self.set(InstructionSet::PREFETCHW, val)
    }

    pub fn set_osvw(&mut self, val: bool)
        ensures
            forall|g: InstructionSet| #[trigger]
                final(self).has(g) == if g == InstructionSet::OSVW {
                    val
                } else {
                    old(self).has(g)
                },
    {
        self.set(InstructionSet::OSVW, val)
    }

    pub fn set_ibs(&mut self, val: bool)
        ensures
            forall|g: InstructionSet| #[trigger]
                final(self).has(g) == if g == InstructionSet::IBS {
                    val
                } else {
                    old(self).has(g)
                },
    {
        self.set(InstructionSet::IBS, val)
    }

    pub fn set_xop(&mut self, val: bool)
        ensures
            forall|g: InstructionSet| #[trigger]
                final(self).has(g) == if g == InstructionSet::XOP {
                    val
                } else {
                    old(self).has(g)
                },
    {
        self.set(InstructionSet::XOP, val)
    }

    pub fn set_skinit(&mut self, val: bool)
        ensures
            forall|g: InstructionSet| #[trigger]
                final(self).has(g) == if g == InstructionSet::SKINIT {
                    val
                } else {
                    old(self).has(g)
                },
    {
        self.set(InstructionSet::SKINIT, val)
    }

    pub fn set_wdt(&mut self, val: bool)
        ensures
            forall|g: InstructionSet| #[trigger]
                final(self).has(g) == if g == InstructionSet::WDT {
                    val
                } else {
                    old(self).has(g)
                },
    {
        self.set(InstructionSet::WDT, val)
    }

    pub fn set_padlock_rng(&mut self, val: bool)
        ensures
            forall|g: InstructionSet| #[trigger]
                final(self).has(g) == if g == InstructionSet::PadlockRng {
                    val
                } else {
                    old(self).has(g)
                },
    {
        self.set(InstructionSet::PadlockRng, val)
    }

    pub fn set_padlock_ace(&mut self, val: bool)
        ensures
            forall|g: InstructionSet| #[trigger]
                final(self).has(g) == if g == InstructionSet::PadlockAce {
                    val
                } else {
                    old(self).has(g)
                },
    {
        self.set(InstructionSet::PadlockAce, val)
    }

    pub fn set_padlock_ace2(&mut self, val: bool)
        ensures
            forall|g: InstructionSet| #[trigger]
                final(self).has(g) == if g == InstructionSet::PadlockAce2 {
                    val
                } else {
                    old(self).has(g)
                },
    {
        self.set(InstructionSet::PadlockAce2, val)
    }

    pub fn set_padlock_phe(&mut self, val: bool)
        ensures
            forall|g: InstructionSet| #[trigger]
                final(self).has(g) == if g == InstructionSet::PadlockPhe {
                    val
                } else {
                    old(self).has(g)
                },
    {
        self.set(InstructionSet::PadlockPhe, val)
    }

    pub fn set_padlock_pmm(&mut self, val: bool)
        ensures
            forall|g: InstructionSet| #[trigger]
                final(self).has(g) == if g == InstructionSet::PadlockPmm {
                    val
                } else {
                    old(self).has(g)
                },
    {
        self.set(InstructionSet::PadlockPmm, val)
    }
}

} // verus!
