use vstd::prelude::*;

verus! {

/// The four output words of one capability-query probe.
#[derive(Clone, Copy, Debug, PartialEq, Eq, Hash, Structural)]
pub struct CpuidLeaf {
    pub eax: u32,
    pub ebx: u32,
    pub ecx: u32,
    pub edx: u32,
}

impl CpuidLeaf {
    /// A leaf whose four words are all zero: what an unsupported leaf decodes as.
    pub open spec fn spec_zero() -> CpuidLeaf {
        CpuidLeaf { eax: 0, ebx: 0, ecx: 0, edx: 0 }
    }

    pub fn zero() -> (r: CpuidLeaf)
        ensures
            r == CpuidLeaf::spec_zero(),
    {
        CpuidLeaf { eax: 0, ebx: 0, ecx: 0, edx: 0 }
    }
}

/// Highest standard leaf number.
pub const LEAF_VENDOR: u32 = 0;

/// Feature-information leaf.
pub const LEAF_FEATURES: u32 = 1;

/// Structured extended feature leaf (read at subleaf 0).
pub const LEAF_STRUCTURED: u32 = 7;

/// Topology-enumeration leaf.
pub const LEAF_TOPOLOGY: u32 = 0xb;

/// Hybrid core-type leaf.
pub const LEAF_HYBRID: u32 = 0x1a;

/// Highest extended leaf number.
pub const LEAF_EXT_MAX: u32 = 0x8000_0000;

/// Extended feature leaf (the AMD-defined flags).
pub const LEAF_EXT_FEATURES: u32 = 0x8000_0001;

/// First of the three brand-string leaves.
pub const LEAF_BRAND_FIRST: u32 = 0x8000_0002;

/// Last of the three brand-string leaves.
pub const LEAF_BRAND_LAST: u32 = 0x8000_0004;

/// Highest Centaur (VIA) leaf number.
pub const LEAF_CENTAUR_MAX: u32 = 0xc000_0000;

/// Centaur (VIA) feature leaf.
pub const LEAF_CENTAUR_FEATURES: u32 = 0xc000_0001;

/// Every probe output and the extended-state register value that decoding one
/// logical processor consults.
///
/// A leaf that the processor does not support is held as zero words.
/// `xcr0` is present only when it was read.
#[derive(Clone, Copy, Debug, PartialEq, Eq, Hash, Structural)]
pub struct RawCpuid {
    /// Leaf 0: the highest standard leaf in `eax`, the vendor bytes in `ebx`, `edx`, `ecx`.
    pub leaf_0: CpuidLeaf,
    /// Leaf 1: feature flags in `ecx` and `edx`, legacy logical count in `ebx`.
    pub leaf_1: CpuidLeaf,
    /// Leaf 7, subleaf 0: structured feature flags, hybrid hint in `edx`.
    pub leaf_7: CpuidLeaf,
    /// Leaf 0xb, subleaf 0: logical processors per core in `ebx`.
    pub leaf_b_0: CpuidLeaf,
    /// Leaf 0xb, subleaf 1: logical processors per package in `ebx`.
    pub leaf_b_1: CpuidLeaf,
    /// Leaf 0x1a: core type in the top byte of `eax`.
    pub leaf_1a: CpuidLeaf,
    /// Leaf 0x8000_0000: the highest extended leaf in `eax`.
    pub ext_0: CpuidLeaf,
    /// Leaf 0x8000_0001: extended feature flags.
    pub ext_1: CpuidLeaf,
    /// Leaves 0x8000_0002 to 0x8000_0004: the brand string.
    pub ext_2: CpuidLeaf,
    pub ext_3: CpuidLeaf,
    pub ext_4: CpuidLeaf,
    /// Leaf 0xc000_0000: the highest Centaur leaf in `eax`.
    pub centaur_0: CpuidLeaf,
    /// Leaf 0xc000_0001: Centaur feature flags.
    pub centaur_1: CpuidLeaf,
    /// The extended-state enable register, when it was read.
    pub xcr0: Option<u64>,
}

/// Whether bit `i` of `w` is set.
pub open spec fn bit_set(w: u32, i: u32) -> bool {
    (w >> i) & 1 == 1
}

/// Tests bit `i` of `w`.
pub fn test_bit(w: u32, i: u32) -> (r: bool)
    requires
        i < 32,
    ensures
        r == bit_set(w, i),
{
    (w >> i) & 1 == 1
}

/// No bit of zero is set.
pub proof fn lemma_zero_has_no_bit(i: u32)
    requires
        i < 32,
    ensures
        !bit_set(0, i),
{
    assert((0u32 >> i) & 1 != 1) by (bit_vector)
        requires
            i < 32,
    ;
}

/// Whether standard leaf `leaf` is at most the highest standard leaf reported.
pub open spec fn standard_supported(raw: RawCpuid, leaf: u32) -> bool {
    leaf <= raw.leaf_0.eax
}

/// Whether extended leaf `leaf` lies within the extended range that is reported.
pub open spec fn extended_supported(raw: RawCpuid, leaf: u32) -> bool {
    LEAF_EXT_MAX <= leaf <= raw.ext_0.eax
}

/// Whether Centaur leaf `leaf` lies within the Centaur range that is reported.
pub open spec fn centaur_supported(raw: RawCpuid, leaf: u32) -> bool {
    LEAF_CENTAUR_MAX <= leaf <= raw.centaur_0.eax
}

/// `l` where the leaf is supported, zero words where it is not.
pub open spec fn leaf_if(supported: bool, l: CpuidLeaf) -> CpuidLeaf {
    if supported {
        l
    } else {
        CpuidLeaf::spec_zero()
    }
}

/// Leaf 1 as decoding sees it.
pub open spec fn eff_leaf_1(raw: RawCpuid) -> CpuidLeaf {
    leaf_if(standard_supported(raw, LEAF_FEATURES), raw.leaf_1)
}

/// Leaf 7 as decoding sees it.
pub open spec fn eff_leaf_7(raw: RawCpuid) -> CpuidLeaf {
    leaf_if(standard_supported(raw, LEAF_STRUCTURED), raw.leaf_7)
}

/// Leaf 0x8000_0001 as decoding sees it.
pub open spec fn eff_ext_1(raw: RawCpuid) -> CpuidLeaf {
    leaf_if(extended_supported(raw, LEAF_EXT_FEATURES), raw.ext_1)
}

/// Leaf 0xc000_0001 as decoding sees it.
pub open spec fn eff_centaur_1(raw: RawCpuid) -> CpuidLeaf {
    leaf_if(centaur_supported(raw, LEAF_CENTAUR_FEATURES), raw.centaur_1)
}

/// `l` where the leaf is supported, zero words where it is not.
pub fn select_leaf(supported: bool, l: CpuidLeaf) -> (r: CpuidLeaf)
    ensures
        r == leaf_if(supported, l),
{
    if supported {
        l
    } else {
        CpuidLeaf::zero()
    }
}

} // verus!

verus! {

/// `x` with bit `j` set as well.
pub fn set_bit(x: u32, j: u32) -> (r: u32)
    requires
        j < 32,
    ensures
        forall|i: u32| i < 32 ==> #[trigger] bit_set(r, i) == (bit_set(x, i) || i == j),
{
    let r = x | (1u32 << j);
    assert forall|i: u32| i < 32 implies #[trigger] bit_set(r, i) == (bit_set(x, i) || i == j) by {
        assert((((x | (1u32 << j)) >> i) & 1 == 1) == (((x >> i) & 1 == 1) || i == j))
            by (bit_vector)
            requires
                i < 32,
                j < 32,
        ;
    }
    r
}

} // verus!

verus! {

/// `x` with bit `j` clear.
pub fn clear_bit(x: u32, j: u32) -> (r: u32)
    requires
        j < 32,
    ensures
        forall|i: u32| i < 32 ==> #[trigger] bit_set(r, i) == (bit_set(x, i) && i != j),
{
    let r = x & !(1u32 << j);
    assert forall|i: u32| i < 32 implies #[trigger] bit_set(r, i) == (bit_set(x, i) && i != j) by {
        assert((((x & !(1u32 << j)) >> i) & 1 == 1) == (((x >> i) & 1 == 1) && i != j))
            by (bit_vector)
            requires
                i < 32,
                j < 32,
        ;
    }
    r
}

} // verus!
