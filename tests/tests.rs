use cpuid::cache::CoreCache;
use cpuid::leaf::CpuidLeaf;
use cpuid::x86::gather_core;
use cpuid::{get_cpu_info, CpuInfo, InstructionSet};

fn leaf(eax: u32, ebx: u32, ecx: u32, edx: u32) -> CpuidLeaf {
    CpuidLeaf { eax, ebx, ecx, edx }
}

/// A processor with SSE and SSE2 in leaf 1 and nothing beyond leaf 1.
fn probe(l: u32, _sub: u32) -> CpuidLeaf {
    match l {
        0 => leaf(1, 0x756e_6547, 0x6c65_746e, 0x4965_6e69),
        1 => leaf(0, 0, 0, (1 << 25) | (1 << 26)),
        _ => leaf(0, 0, 0, 0),
    }
}

fn read_xcr0() -> u64 {
    0
}

fn ready_cache(n: usize) -> CoreCache {
    let mut cache = CoreCache::new();
    cache.ensure_built(n, &|_i: usize| gather_core(&probe, &read_xcr0));
    cache
}

#[test]
fn test_get_cpu_info_returns_valid_variant() {
    let cache = ready_cache(2);
    let info = get_cpu_info(&cache, 0);
    match info {
        CpuInfo::X86(_) => {}
        #[allow(unreachable_patterns)]
        _ => panic!("get_cpu_info returned an unexpected variant for this architecture"),
    }
}

#[test]
fn test_has_feature_with_known_feature() {
    let cache = ready_cache(2);
    let info = get_cpu_info(&cache, 0);
    let _ = info.has_feature(InstructionSet::SSE);
    assert!(info.has_feature(InstructionSet::SSE));
    assert!(info.has_feature(InstructionSet::SSE2));
}

#[test]
fn test_has_feature_with_unknown_feature() {
    let cache = ready_cache(2);
    let info = get_cpu_info(&cache, 0);
    assert!(!info.has_feature(InstructionSet::NEON));
}
