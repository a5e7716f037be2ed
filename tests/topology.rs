use cpuid::bare::{get_features, get_topology};
use cpuid::features::{CpuFeatures, InstructionSet};
use cpuid::topology::{build_topology, flat_topology, group_counts};
use cpuid::x86::{CoreType, X86CpuInfo};

fn cpu(hybrid: bool, core_type: Option<CoreType>) -> X86CpuInfo {
    X86CpuInfo {
        vendor: "GenuineIntel".to_string(),
        brand: String::new(),
        features: CpuFeatures::new(),
        cores: 1,
        threads_per_core: 1,
        hybrid,
        core_type,
    }
}

fn total(t: &cpuid::common::CpuTopology) -> usize {
    t.core_types.iter().map(|g| g.count).sum()
}

#[test]
fn no_hybrid_hint_gives_one_standard_group() {
    let cores: Vec<X86CpuInfo> = (0..6).map(|_| cpu(false, None)).collect();
    let t = build_topology(&cores, &[]);
    assert!(!t.is_hybrid);
    assert_eq!(t.core_types.len(), 1);
    assert_eq!(t.core_types[0].identifier, "standard");
    assert_eq!(t.core_types[0].count, 6);
    assert_eq!(t.core_types[0].efficiency_class, None);
}

#[test]
fn hybrid_hint_groups_by_core_class() {
    let mut cores = Vec::new();
    for i in 0..12 {
        let t = if i < 4 { CoreType::Performance } else { CoreType::Efficiency };
        cores.push(cpu(true, Some(t)));
    }
    let t = build_topology(&cores, &[]);
    assert!(t.is_hybrid);
    assert_eq!(t.core_types.len(), 2);
    assert_eq!(t.core_types[0].identifier, "Performance");
    assert_eq!(t.core_types[0].count, 4);
    assert_eq!(t.core_types[0].efficiency_class, Some(1));
    assert_eq!(t.core_types[1].identifier, "Efficiency");
    assert_eq!(t.core_types[1].count, 8);
    assert_eq!(t.core_types[1].efficiency_class, Some(0));
    assert_eq!(total(&t), 12);
}

#[test]
fn hybrid_hint_with_one_class_falls_back_to_capacities() {
    let cores: Vec<X86CpuInfo> = (0..4).map(|_| cpu(true, Some(CoreType::Performance))).collect();
    let t = build_topology(&cores, &[1024, 512, 1024, 512]);
    assert!(t.is_hybrid);
    assert_eq!(t.core_types.len(), 2);
    assert_eq!(t.core_types[0].identifier, "1024");
    assert_eq!(t.core_types[0].count, 2);
    assert_eq!(t.core_types[1].identifier, "512");
    assert_eq!(t.core_types[1].count, 2);
    assert_eq!(t.core_types[1].efficiency_class, None);
}

#[test]
fn equal_capacities_give_flat_topology() {
    let cores: Vec<X86CpuInfo> = (0..3).map(|_| cpu(false, None)).collect();
    let t = build_topology(&cores, &[1024, 1024, 1024]);
    assert!(!t.is_hybrid);
    assert_eq!(t.core_types.len(), 1);
    assert_eq!(t.core_types[0].count, 3);
}

#[test]
fn capacities_of_wrong_length_are_ignored() {
    let cores: Vec<X86CpuInfo> = (0..3).map(|_| cpu(false, None)).collect();
    let t = build_topology(&cores, &[1, 2]);
    assert!(!t.is_hybrid);
    assert_eq!(t.core_types[0].identifier, "standard");
}

#[test]
fn unclassified_cores_form_their_own_group() {
    let cores = vec![
        cpu(true, Some(CoreType::Efficiency)),
        cpu(true, None),
        cpu(true, Some(CoreType::Efficiency)),
    ];
    let t = build_topology(&cores, &[]);
    assert!(t.is_hybrid);
    assert_eq!(t.core_types[0].identifier, "Efficiency");
    assert_eq!(t.core_types[0].count, 2);
    assert_eq!(t.core_types[1].identifier, "Unclassified");
    assert_eq!(t.core_types[1].count, 1);
    assert_eq!(total(&t), 3);
}

#[test]
fn counts_add_up_for_many_groups() {
    let cores: Vec<X86CpuInfo> = (0..7).map(|_| cpu(false, None)).collect();
    let t = build_topology(&cores, &[3, 1, 4, 1, 5, 9, 2]);
    assert!(t.is_hybrid);
    assert_eq!(t.core_types.len(), 6);
    assert_eq!(total(&t), 7);
    assert!(t.core_types.iter().all(|g| g.count > 0));
}

#[test]
fn empty_machine_has_no_group() {
    let t = build_topology(&[], &[]);
    assert!(!t.is_hybrid);
    assert!(t.core_types.is_empty());
    assert_eq!(flat_topology(0), t);
}

#[test]
fn group_counts_first_appearance_order() {
    let (ks, counts) = group_counts(&[5, 3, 5, 5, 0, 3]);
    assert_eq!(ks, vec![5, 3, 0]);
    assert_eq!(counts, vec![3, 2, 1]);
}

#[test]
fn bare_metal_defaults() {
    let f = get_features();
    assert!(!f.contains(InstructionSet::SSE));
    let t = get_topology(4);
    assert!(!t.is_hybrid);
    assert_eq!(t.core_types.len(), 1);
    assert_eq!(t.core_types[0].identifier, "standard");
    assert_eq!(t.core_types[0].count, 4);
}
