use std::cell::Cell;

use cpuid::cache::{CachePhase, CoreCache};
use cpuid::features::CpuFeatures;
use cpuid::x86::{all_cpuinfos, gather, info_for_cpu, X86CpuInfo};

fn snapshot(id: u32) -> X86CpuInfo {
    X86CpuInfo {
        vendor: "GenuineIntel".to_string(),
        brand: format!("cpu {}", id),
        features: CpuFeatures::new(),
        cores: id,
        threads_per_core: 1,
        hybrid: false,
        core_type: None,
    }
}

#[test]
fn build_probes_each_processor_exactly_once() {
    let calls = Cell::new(0usize);
    let probe = |i: usize| {
        calls.set(calls.get() + 1);
        snapshot(i as u32)
    };
    let mut cache = CoreCache::new();
    assert_eq!(cache.ensure_built(4, &probe), 4);
    assert_eq!(calls.get(), 4);
    assert_eq!(cache.ensure_built(4, &probe), 0);
    assert_eq!(cache.ensure_built(9, &probe), 0);
    assert_eq!(calls.get(), 4);
    assert!(cache.is_ready());
    assert_eq!(cache.len(), 4);
}

#[test]
fn entry_i_belongs_to_processor_i() {
    let mut cache = CoreCache::new();
    cache.ensure_built(5, &|i: usize| snapshot(i as u32));
    let all = all_cpuinfos(&cache);
    assert_eq!(all.len(), 5);
    for (i, info) in all.iter().enumerate() {
        assert_eq!(info.cores, i as u32);
        assert_eq!(info.brand, format!("cpu {}", i));
    }
}

#[test]
fn records_out_of_order_stay_indexed() {
    let mut cache = CoreCache::new();
    assert!(cache.begin_build(3));
    assert!(!cache.begin_build(3));
    assert_eq!(cache.phase(), CachePhase::Building);
    assert!(cache.record(2, snapshot(2)));
    assert!(!cache.finish());
    assert!(cache.record(0, snapshot(0)));
    assert!(!cache.record(0, snapshot(7)));
    assert!(!cache.record(3, snapshot(3)));
    assert!(cache.record(1, snapshot(1)));
    assert!(cache.finish());
    assert!(!cache.finish());
    let all = all_cpuinfos(&cache);
    assert_eq!(all[0].cores, 0);
    assert_eq!(all[1].cores, 1);
    assert_eq!(all[2].cores, 2);
}

#[test]
fn ready_cache_rejects_every_change() {
    let mut cache = CoreCache::new();
    cache.ensure_built(2, &|i: usize| snapshot(i as u32));
    assert!(!cache.begin_build(5));
    assert!(!cache.record(0, snapshot(9)));
    assert!(!cache.finish());
    assert_eq!(info_for_cpu(&cache, 0).unwrap().cores, 0);
    assert_eq!(cache.len(), 2);
}

#[test]
fn lookups_before_build_find_nothing() {
    let cache = CoreCache::new();
    assert_eq!(cache.phase(), CachePhase::Uninitialized);
    assert!(info_for_cpu(&cache, 0).is_none());
    assert!(all_cpuinfos(&cache).is_empty());
    assert_eq!(cache.len(), 0);
}

#[test]
fn lookup_by_index_and_fallback() {
    let mut cache = CoreCache::new();
    cache.ensure_built(3, &|i: usize| snapshot(10 + i as u32));
    assert_eq!(info_for_cpu(&cache, 2).unwrap().cores, 12);
    assert!(info_for_cpu(&cache, 3).is_none());
    assert_eq!(gather(&cache, 1).cores, 11);
    assert_eq!(gather(&cache, 99).cores, 10);
}
