use cpuid::arm::{features_from_hwcap, info_from_cpuinfo as arm_info, parse_cpuinfo as arm_parse};
use cpuid::riscv::{info_from_cpuinfo as riscv_info, isa_features};
use cpuid::features::CpuFeatures;
use cpuid::{CpuInfo, InstructionSet};

const MASKS: [u64; 6] = [1 << 1, 1 << 3, 1 << 4, 1 << 5, 1 << 6, 1 << 7];

#[test]
fn arm_vendor_and_model_lines() {
    let text = "processor\t: 0\nmodel name\t: Cortex-A53\nHardware\t: BCM2835 \nRevision\t: a02082\n";
    let (vendor, brand) = arm_parse(text.as_bytes());
    assert_eq!(vendor, "BCM2835");
    assert_eq!(brand, "Cortex-A53");
}

#[test]
fn arm_last_model_line_wins() {
    let text = "Processor\t: ARMv7 rev 4 (v7l)\nmodel name\t: ARMv7 Processor rev 4 (v7l)\nProcessor\t: Late value : extra\r\n";
    let (vendor, brand) = arm_parse(text.as_bytes());
    assert_eq!(vendor, "");
    assert_eq!(brand, "Late value");
}

#[test]
fn arm_line_without_colon_is_skipped() {
    let text = "Hardware\t: First\nHardware without value\n";
    let (vendor, _) = arm_parse(text.as_bytes());
    assert_eq!(vendor, "First");
}

#[test]
fn arm_hwcap_bits() {
    let f = features_from_hwcap((1 << 1) | (1 << 4) | (1 << 7), &MASKS);
    assert!(f.contains(InstructionSet::NEON));
    assert!(!f.contains(InstructionSet::ArmAes));
    assert!(f.contains(InstructionSet::PMULL));
    assert!(!f.contains(InstructionSet::SHA1));
    assert!(!f.contains(InstructionSet::SHA2));
    assert!(f.contains(InstructionSet::CRC32));
    assert!(!f.contains(InstructionSet::SSE));
    assert!(!f.contains(InstructionSet::RvI));
}

#[test]
fn arm_info_assembles() {
    let info = arm_info(b"Hardware : Apple\nmodel name : M1\n", 1 << 3, &MASKS, 8);
    assert_eq!(info.vendor, "Apple");
    assert_eq!(info.brand, "M1");
    assert!(info.features.contains(InstructionSet::ArmAes));
    assert_eq!(info.cores, 8);
    assert_eq!(info.threads_per_core, 1);
}

#[test]
fn riscv_isa_tokens() {
    let f = isa_features(b"rv64i_m_a_zicsr_c");
    assert!(f.contains(InstructionSet::RvI) == false);
    assert!(f.contains(InstructionSet::RvM));
    assert!(f.contains(InstructionSet::RvA));
    assert!(f.contains(InstructionSet::RvC));
    assert!(!f.contains(InstructionSet::RvF));
    assert!(!f.contains(InstructionSet::RvD));
    let g = isa_features(b"i_f_d");
    assert!(g.contains(InstructionSet::RvI));
    assert!(g.contains(InstructionSet::RvF));
    assert!(g.contains(InstructionSet::RvD));
    assert!(!g.contains(InstructionSet::NEON));
}

#[test]
fn riscv_info_from_cpuinfo() {
    let text = "processor\t: 0\nhart\t: 1\nisa\t: rv64imafdc\nvendor\t: SiFive\nmmu\t: sv39\n";
    let info = riscv_info(text.as_bytes(), 4);
    assert_eq!(info.vendor, "SiFive");
    assert_eq!(info.brand, "rv64imafdc");
    assert!(!info.features.contains(InstructionSet::RvI));
    assert_eq!(info.cores, 4);
}

#[test]
fn arm_fields_trim_unicode_white_space() {
    let text = "Hardware\t:\u{a0}Board X\u{2003}\nmodel name\t: \u{3000}Core\n";
    let (vendor, brand) = arm_parse(text.as_bytes());
    assert_eq!(vendor, "Board X");
    assert_eq!(brand, "Core");
}

#[test]
fn riscv_isa_flags_read_after_trimming() {
    let text = "isa\t: i_m\u{a0}\nvendor\t:\n";
    let info = riscv_info(text.as_bytes(), 1);
    assert_eq!(info.brand, "i_m");
    assert_eq!(info.vendor, "");
    assert!(info.features.contains(InstructionSet::RvI));
    assert!(info.features.contains(InstructionSet::RvM));
}

#[test]
fn has_feature_ignores_other_architectures() {
    let arm = CpuInfo::Arm(cpuid::arm::ArmCpuInfo {
        vendor: String::new(),
        brand: String::new(),
        features: CpuFeatures::from_platform_bits((1 << 0) | (1 << 8)),
        cores: 1,
        threads_per_core: 1,
    });
    assert!(arm.has_feature(InstructionSet::NEON));
    assert!(!arm.has_feature(InstructionSet::RvI));
    let rv = CpuInfo::RiscV(cpuid::riscv::RiscVCpuInfo {
        vendor: String::new(),
        brand: String::new(),
        features: CpuFeatures::from_platform_bits((1 << 0) | (1 << 8)),
        cores: 1,
        threads_per_core: 1,
    });
    assert!(rv.has_feature(InstructionSet::RvI));
    assert!(!rv.has_feature(InstructionSet::NEON));
    let x86 = CpuInfo::X86(cpuid::x86::X86CpuInfo {
        vendor: String::new(),
        brand: String::new(),
        features: CpuFeatures::from_platform_bits(1),
        cores: 1,
        threads_per_core: 1,
        hybrid: false,
        core_type: None,
    });
    assert!(!x86.has_feature(InstructionSet::NEON));
}

#[test]
fn riscv_misa_bits() {
    let f = cpuid::riscv::features_from_misa((1 << 0) | (1 << 8) | (1 << 12));
    assert!(f.contains(InstructionSet::RvI));
    assert!(f.contains(InstructionSet::RvC));
    assert!(!f.contains(InstructionSet::RvM));
    assert!(!f.contains(InstructionSet::NEON));
}
