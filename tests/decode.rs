use std::cell::{Cell, RefCell};

use cpuid::features::{CpuFeatures, InstructionSet};
use cpuid::leaf::{CpuidLeaf, RawCpuid};
use cpuid::x86::{collect_raw, core_type_of, decode_core, gather_core, CoreType};

fn leaf(eax: u32, ebx: u32, ecx: u32, edx: u32) -> CpuidLeaf {
    CpuidLeaf { eax, ebx, ecx, edx }
}

fn zero() -> CpuidLeaf {
    leaf(0, 0, 0, 0)
}

/// Raw words of a processor that supports every leaf that decoding reads.
fn raw() -> RawCpuid {
    RawCpuid {
        leaf_0: leaf(0x20, 0x756e_6547, 0x6c65_746e, 0x4965_6e69),
        leaf_1: zero(),
        leaf_7: zero(),
        leaf_b_0: zero(),
        leaf_b_1: zero(),
        leaf_1a: zero(),
        ext_0: leaf(0x8000_0008, 0, 0, 0),
        ext_1: zero(),
        ext_2: zero(),
        ext_3: zero(),
        ext_4: zero(),
        centaur_0: leaf(0xc000_0001, 0, 0, 0),
        centaur_1: zero(),
        xcr0: None,
    }
}

const LEAF1_EDX_FLAGS: [InstructionSet; 30] = [
    InstructionSet::FPU,
    InstructionSet::VME,
    InstructionSet::DE,
    InstructionSet::PSE,
    InstructionSet::TSC,
    InstructionSet::MSR,
    InstructionSet::PAE,
    InstructionSet::MCE,
    InstructionSet::CX8,
    InstructionSet::APIC,
    InstructionSet::SEP,
    InstructionSet::MTRR,
    InstructionSet::PGE,
    InstructionSet::MCA,
    InstructionSet::CMOV,
    InstructionSet::PAT,
    InstructionSet::PSE36,
    InstructionSet::PSN,
    InstructionSet::CLFLUSH,
    InstructionSet::DS,
    InstructionSet::ACPI,
    InstructionSet::MMX,
    InstructionSet::FXSR,
    InstructionSet::SSE,
    InstructionSet::SSE2,
    InstructionSet::SS,
    InstructionSet::HTT,
    InstructionSet::TM,
    InstructionSet::IA64,
    InstructionSet::PBE,
];

#[test]
fn leaf1_edx_bit0_decodes_to_fpu_only() {
    let mut r = raw();
    r.leaf_1 = leaf(0, 0, 0, 0x0000_0001);
    let f = CpuFeatures::decode(&r);
    assert!(f.contains(InstructionSet::FPU));
    for flag in LEAF1_EDX_FLAGS.iter().skip(1) {
        assert!(!f.contains(*flag), "{:?} should be clear", flag);
    }
    assert!(!f.contains(InstructionSet::SSE3));
}

#[test]
fn leaf1_edx_documented_positions() {
    let mut r = raw();
    r.leaf_1 = leaf(0, 0, 0, (1 << 19) | (1 << 23) | (1 << 24) | (1 << 25) | (1 << 26));
    let f = CpuFeatures::decode(&r);
    assert!(f.contains(InstructionSet::CLFLUSH));
    assert!(f.contains(InstructionSet::MMX));
    assert!(f.contains(InstructionSet::FXSR));
    assert!(f.contains(InstructionSet::SSE));
    assert!(f.contains(InstructionSet::SSE2));
    assert!(!f.contains(InstructionSet::PSN));
    assert!(!f.contains(InstructionSet::SS));
}

#[test]
fn wide_vector_flags_with_os_state() {
    let mut r = raw();
    r.leaf_1 = leaf(0, 0, (1 << 27) | (1 << 28), 0);
    r.leaf_7 = leaf(0, 1 << 5, 0, 0);
    r.xcr0 = Some(0b110);
    let f = CpuFeatures::decode(&r);
    assert!(f.contains(InstructionSet::AVX));
    assert!(f.contains(InstructionSet::AVX2));
    assert!(f.contains(InstructionSet::OSXSAVE));
}

#[test]
fn gated_flag_truth_table() {
    for hw in [false, true] {
        for os in [false, true] {
            for state in [false, true] {
                let mut r = raw();
                r.leaf_1 = leaf(0, 0, if os { 1 << 27 } else { 0 }, 0);
                r.leaf_7 = leaf(0, if hw { 1 << 5 } else { 0 }, 0, 0);
                r.xcr0 = if os { Some(if state { 0b111 } else { 0b001 }) } else { None };
                let f = CpuFeatures::decode(&r);
                assert_eq!(f.contains(InstructionSet::AVX2), hw && os && state, "{} {} {}", hw, os, state);
            }
        }
    }
}

#[test]
fn gated_flag_needs_both_state_bits() {
    for xcr0 in [0b010u64, 0b100, 0b000, 0b101, 0b011] {
        let mut r = raw();
        r.leaf_1 = leaf(0, 0, (1 << 27) | (1 << 28), 0);
        r.xcr0 = Some(xcr0);
        assert!(!CpuFeatures::decode(&r).contains(InstructionSet::AVX));
    }
}

#[test]
fn state_register_ignored_without_support_bit() {
    let mut r = raw();
    r.leaf_1 = leaf(0, 0, 1 << 28, 0);
    r.xcr0 = Some(0b110);
    assert!(!CpuFeatures::decode(&r).contains(InstructionSet::AVX));
}

#[test]
fn ungated_flag_ignores_os_state() {
    let mut r = raw();
    r.leaf_7 = leaf(0, (1 << 3) | (1 << 8), 0, 0);
    let f = CpuFeatures::decode(&r);
    assert!(f.contains(InstructionSet::BMI1));
    assert!(f.contains(InstructionSet::BMI2));
}

#[test]
fn leaf_beyond_maximum_decodes_as_absent() {
    let mut r = raw();
    r.leaf_0.eax = 1;
    r.leaf_1 = leaf(0, 0, 1, 1);
    r.leaf_7 = leaf(0, 0xffff_ffff, 0xffff_ffff, 0);
    r.ext_0.eax = 0x8000_0000;
    r.ext_1 = leaf(0, 0, 0xffff_ffff, 0xffff_ffff);
    r.centaur_0.eax = 0;
    r.centaur_1 = leaf(0, 0, 0, 0xffff_ffff);
    let f = CpuFeatures::decode(&r);
    assert!(f.contains(InstructionSet::FPU));
    assert!(f.contains(InstructionSet::SSE3));
    assert!(!f.contains(InstructionSet::FSGSBASE));
    assert!(!f.contains(InstructionSet::SHA));
    assert!(!f.contains(InstructionSet::AVX512VBMI));
    assert!(!f.contains(InstructionSet::LZCNT));
    assert!(!f.contains(InstructionSet::D3DNOW));
    assert!(!f.contains(InstructionSet::PadlockRng));
}

#[test]
fn extended_and_centaur_leaves() {
    let mut r = raw();
    r.ext_1 = leaf(0, 0, (1 << 5) | (1 << 6), 1 << 31);
    r.centaur_1 = leaf(0, 0, 0, (1 << 2) | (1 << 6));
    let f = CpuFeatures::decode(&r);
    assert!(f.contains(InstructionSet::LZCNT));
    assert!(f.contains(InstructionSet::SSE4A));
    assert!(f.contains(InstructionSet::D3DNOW));
    assert!(!f.contains(InstructionSet::D3DNOWEXT));
    assert!(f.contains(InstructionSet::PadlockRng));
    assert!(f.contains(InstructionSet::PadlockAce));
    assert!(!f.contains(InstructionSet::PadlockPhe));
}

#[test]
fn decoding_is_deterministic() {
    let mut r = raw();
    r.leaf_1 = leaf(0, 0, 0x1234_5678, 0x9abc_def0);
    r.leaf_7 = leaf(0, 0x0fed_cba9, 0x1357_9bdf, 0);
    r.xcr0 = Some(7);
    let a = CpuFeatures::decode(&r);
    let b = CpuFeatures::decode(&r.clone());
    assert_eq!(a, b);
}

#[test]
fn new_and_default_are_empty() {
    assert_eq!(CpuFeatures::new(), CpuFeatures::default());
    assert!(!CpuFeatures::new().contains(InstructionSet::FPU));
    assert!(!CpuFeatures::new().contains(InstructionSet::NEON));
}

fn brand_words(s: &str) -> [CpuidLeaf; 3] {
    let mut b = [0u8; 48];
    b[..s.len()].copy_from_slice(s.as_bytes());
    let w = |i: usize| u32::from_le_bytes([b[4 * i], b[4 * i + 1], b[4 * i + 2], b[4 * i + 3]]);
    [
        leaf(w(0), w(1), w(2), w(3)),
        leaf(w(4), w(5), w(6), w(7)),
        leaf(w(8), w(9), w(10), w(11)),
    ]
}

#[test]
fn vendor_and_brand_strings() {
    let mut r = raw();
    let [a, b, c] = brand_words("  Intel(R) Core(TM) i7-9700K CPU @ 3.60GHz ");
    r.ext_2 = a;
    r.ext_3 = b;
    r.ext_4 = c;
    let info = decode_core(&r);
    assert_eq!(info.vendor, "GenuineIntel");
    assert_eq!(info.brand, "Intel(R) Core(TM) i7-9700K CPU @ 3.60GHz");
}

#[test]
fn brand_trims_nul_padding_and_unicode_space() {
    let mut r = raw();
    let [a, b, c] = brand_words("\u{a0}Fast CPU\u{a0}");
    r.ext_2 = a;
    r.ext_3 = b;
    r.ext_4 = c;
    assert_eq!(decode_core(&r).brand, "Fast CPU");
    r.ext_2 = leaf(u32::from_le_bytes([0, 0, b'X', 0]), 0, 0, 0);
    r.ext_3 = zero();
    r.ext_4 = zero();
    assert_eq!(decode_core(&r).brand, "\0\0X");
}

#[test]
fn brand_empty_without_brand_leaves() {
    let mut r = raw();
    r.ext_0.eax = 0x8000_0003;
    let [a, b, c] = brand_words("Some CPU");
    r.ext_2 = a;
    r.ext_3 = b;
    r.ext_4 = c;
    assert_eq!(decode_core(&r).brand, "");
}

#[test]
fn thread_counts_from_topology_leaf() {
    let mut r = raw();
    r.leaf_b_0 = leaf(1, 2, 0x100, 0);
    r.leaf_b_1 = leaf(4, 16, 0x201, 0);
    let info = decode_core(&r);
    assert_eq!(info.threads_per_core, 2);
    assert_eq!(info.cores, 8);
}

#[test]
fn thread_counts_legacy_fallback() {
    let mut r = raw();
    r.leaf_0.eax = 7;
    r.leaf_1 = leaf(0, 0x0008_0800, 0, 0);
    let info = decode_core(&r);
    assert_eq!(info.threads_per_core, 1);
    assert_eq!(info.cores, 8);
}

#[test]
fn zero_threads_per_core_gives_one_core() {
    let mut r = raw();
    r.leaf_b_0 = leaf(0, 0, 0, 0);
    r.leaf_b_1 = leaf(0, 12, 0, 0);
    let info = decode_core(&r);
    assert_eq!(info.cores, 1);
    assert_eq!(info.threads_per_core, 0);
}

#[test]
fn hybrid_core_types() {
    let mut r = raw();
    r.leaf_7 = leaf(0, 0, 0, 1 << 15);
    r.leaf_1a = leaf(0x2000_0001, 0, 0, 0);
    let e = decode_core(&r);
    assert!(e.hybrid);
    assert_eq!(e.core_type, Some(CoreType::Efficiency));
    r.leaf_1a = leaf(0x4000_0001, 0, 0, 0);
    assert_eq!(decode_core(&r).core_type, Some(CoreType::Performance));
    r.leaf_1a = zero();
    assert_eq!(decode_core(&r).core_type, Some(CoreType::Performance));
    r.leaf_7 = zero();
    let flat = decode_core(&r);
    assert!(!flat.hybrid);
    assert_eq!(flat.core_type, None);
}

#[test]
fn core_type_of_top_byte() {
    assert_eq!(core_type_of(0x2000_0000), CoreType::Efficiency);
    assert_eq!(core_type_of(0x4000_0000), CoreType::Performance);
    assert_eq!(core_type_of(0x0000_0020), CoreType::Performance);
    assert_eq!(core_type_of(0), CoreType::Performance);
}

#[test]
fn collect_skips_unsupported_leaves_and_state_register() {
    let asked = RefCell::new(Vec::new());
    let reads = Cell::new(0u32);
    let probe = |l: u32, s: u32| {
        asked.borrow_mut().push((l, s));
        match l {
            0 => leaf(1, 0, 0, 0),
            1 => leaf(0, 0, 1 << 28, 1),
            0x8000_0000 => leaf(0x8000_0001, 0, 0, 0),
            _ => leaf(0xdead, 0xbeef, 0xffff_ffff, 0xffff_ffff),
        }
    };
    let xcr0 = || {
        reads.set(reads.get() + 1);
        0b110
    };
    let r = collect_raw(&probe, &xcr0);
    assert_eq!(reads.get(), 0);
    assert_eq!(r.xcr0, None);
    assert_eq!(r.leaf_7, zero());
    assert_eq!(r.ext_2, zero());
    let asked = asked.borrow();
    assert!(!asked.contains(&(7, 0)));
    assert!(!asked.contains(&(0xb, 0)));
    assert!(!asked.contains(&(0x8000_0002, 0)));
    assert!(asked.contains(&(1, 0)));
    assert!(asked.contains(&(0x8000_0001, 0)));
}

#[test]
fn collect_reads_state_register_with_support_bit() {
    let reads = Cell::new(0u32);
    let probe = |l: u32, _s: u32| match l {
        0 => leaf(7, 0, 0, 0),
        1 => leaf(0, 0, (1 << 27) | (1 << 28), 0),
        7 => leaf(0, 1 << 5, 0, 0),
        _ => zero(),
    };
    let xcr0 = || {
        reads.set(reads.get() + 1);
        0b111
    };
    let info = gather_core(&probe, &xcr0);
    assert_eq!(reads.get(), 1);
    assert!(info.features.contains(InstructionSet::AVX));
    assert!(info.features.contains(InstructionSet::AVX2));
}

#[test]
fn setters_change_one_flag() {
    let mut f = CpuFeatures::new();
    f.set_sse(true);
    f.set_avx2(true);
    f.set_padlock_pmm(true);
    assert!(f.sse() && f.avx2() && f.padlock_pmm());
    assert!(!f.sse2() && !f.avx() && !f.padlock_phe());
    f.set_avx2(false);
    assert!(!f.avx2());
    assert!(f.sse());
    f.set(InstructionSet::NEON, true);
    assert!(f.contains(InstructionSet::NEON));
    assert!(!f.contains(InstructionSet::ArmAes));
}

#[test]
fn setting_a_gated_flag_leaves_others_hidden() {
    let mut r = raw();
    r.leaf_1 = leaf(0, 0, (1 << 28) | (1 << 12), 0);
    let mut f = CpuFeatures::decode(&r);
    assert!(!f.avx() && !f.fma());
    f.set_avx(true);
    assert!(f.avx());
    assert!(!f.fma());
}
