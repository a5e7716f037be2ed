use cpuid::cache::CoreCache;
use cpuid::common::detect;
use cpuid::leaf::CpuidLeaf;
use cpuid::x86::gather_core;
use cpuid::InstructionSet;

fn leaf(eax: u32, ebx: u32, ecx: u32, edx: u32) -> CpuidLeaf {
    CpuidLeaf { eax, ebx, ecx, edx }
}

fn probe(l: u32, _sub: u32) -> CpuidLeaf {
    match l {
        0 => leaf(7, 0x756e_6547, 0x6c65_746e, 0x4965_6e69),
        1 => leaf(0, 0x0004_0800, 1 << 27, (1 << 25) | (1 << 26)),
        _ => leaf(0, 0, 0, 0),
    }
}

fn read_xcr0() -> u64 {
    0b111
}

fn ready_cache() -> CoreCache {
    let mut cache = CoreCache::new();
    cache.ensure_built(4, &|_i: usize| gather_core(&probe, &read_xcr0));
    cache
}

#[test]
fn test_detect_returns_cpuinfo() {
    let cache = ready_cache();
    let info = detect("x86_64", &cache, 0, &[]);
    assert!(!info.architecture.is_empty(), "Architecture string is empty");
}

#[test]
fn test_features_struct_fields() {
    let cache = ready_cache();
    let info = detect("x86_64", &cache, 0, &[]);
    let feats = &info.features;
    assert!(
        feats.sse() == true || feats.sse() == false,
        "Feature method 'sse()' is not a boolean"
    );
    let _ = (
        feats.fpu(),
        feats.vme(),
        feats.de(),
        feats.pse(),
        feats.tsc(),
        feats.msr(),
        feats.pae(),
        feats.mce(),
        feats.cx8(),
        feats.apic(),
        feats.sep(),
        feats.mtrr(),
        feats.pge(),
        feats.mca(),
        feats.cmov(),
        feats.pat(),
        feats.pse36(),
        feats.psn(),
        feats.clfsh(),
        feats.ds(),
        feats.acpi(),
        feats.mmx(),
        feats.fxsr(),
        feats.sse(),
        feats.sse2(),
        feats.ss(),
        feats.htt(),
        feats.tm(),
        feats.ia64(),
        feats.pbe(),
        feats.sse3(),
        feats.pclmulqdq(),
        feats.dtes64(),
        feats.monitor(),
        feats.ds_cpl(),
        feats.vmx(),
        feats.smx(),
        feats.est(),
        feats.tm2(),
        feats.ssse3(),
        feats.cid(),
        feats.fma(),
        feats.cx16(),
        feats.xtpr(),
        feats.pdcm(),
        feats.pcid(),
        feats.dca(),
        feats.sse41(),
        feats.sse42(),
        feats.x2apic(),
        feats.movbe(),
        feats.popcnt(),
        feats.tsc_deadline(),
        feats.aes(),
        feats.xsave(),
        feats.osxsave(),
        feats.avx(),
        feats.f16c(),
        feats.rdrand(),
        feats.fsgsbase(),
        feats.sgx(),
        feats.bmi1(),
        feats.hle(),
        feats.avx2(),
        feats.smep(),
        feats.bmi2(),
        feats.erms(),
        feats.invpcid(),
        feats.rtm(),
        feats.mpx(),
        feats.avx512f(),
        feats.avx512dq(),
        feats.rdseed(),
        feats.adx(),
        feats.smap(),
        feats.avx512ifma(),
        feats.clflushopt(),
        feats.clwb(),
        feats.avx512pf(),
        feats.avx512er(),
        feats.avx512cd(),
        feats.sha(),
        feats.avx512bw(),
        feats.avx512vl(),
        feats.lahf_lm(),
        feats.cmp_legacy(),
        feats.svm(),
        feats.extapic(),
        feats.cr8_legacy(),
        feats.abm(),
        feats.sse4a(),
        feats.misalignsse(),
        feats.prefetchw(),
        feats.osvw(),
        feats.ibs(),
        feats.xop(),
        feats.skinit(),
        feats.wdt(),
        feats.padlock_rng(),
        feats.padlock_ace(),
        feats.padlock_ace2(),
        feats.padlock_phe(),
        feats.padlock_pmm(),
    );
    assert!(feats.contains(InstructionSet::SSE));
    assert!(feats.contains(InstructionSet::SSE2));
    assert!(!feats.contains(InstructionSet::FPU));
}

#[test]
fn test_topology_fields() {
    let cache = ready_cache();
    let info = detect("x86_64", &cache, 0, &[]);
    let topo = &info.topology;
    assert!(
        topo.is_hybrid == true || topo.is_hybrid == false,
        "Topology field 'is_hybrid' is not a boolean"
    );
    assert!(topo.core_types.len() >= 1, "Topology field 'core_types' is not a vector");
    if let Some(core_info) = topo.core_types.get(0) {
        let _ = (&core_info.identifier, core_info.efficiency_class, core_info.count);
        assert_eq!(core_info.count, 4);
    }
}

#[test]
fn test_current_core_type() {
    let cache = ready_cache();
    let info = detect("x86_64", &cache, 0, &[]);
    let maybe_core = info.current_core_type();
    if let Some(c) = maybe_core {
        assert!(!c.identifier.is_empty(), "Current core type identifier is empty");
        assert_eq!(c.identifier, "standard");
    }
}

#[test]
fn detect_out_of_range_processor_uses_first() {
    let cache = ready_cache();
    let info = detect("x86_64", &cache, 77, &[100, 200, 100, 200]);
    assert!(info.features.contains(InstructionSet::SSE));
    assert!(info.topology.is_hybrid);
    assert_eq!(info.topology.core_types[0].identifier, "100");
    assert_eq!(info.topology.core_types[1].identifier, "200");
}
