use vstd::prelude::*;

use crate::cache::{ready_entries, CachePhase, CoreCache};
use crate::features::{decoded_flag, enables_vectors, CpuFeatures, InstructionSet, OSXSAVE_BIT};
use crate::leaf::{
    bit_set, centaur_supported, lemma_zero_has_no_bit, eff_leaf_1, eff_leaf_7, extended_supported, leaf_if, select_leaf,
    standard_supported, test_bit, CpuidLeaf, RawCpuid, LEAF_BRAND_LAST, LEAF_CENTAUR_FEATURES, LEAF_CENTAUR_MAX,
    LEAF_EXT_FEATURES, LEAF_EXT_MAX, LEAF_FEATURES, LEAF_HYBRID, LEAF_STRUCTURED, LEAF_TOPOLOGY,
    LEAF_VENDOR,
};
use crate::text::{
    lossy_utf8, text_from_bytes, trim_nul_end, trim_text, trimmed, trimmed_text, without_trailing_nul,
};
use vstd::string::StringExecFns;

verus! {

/// The class of a core in a hybrid design.
#[derive(Clone, Copy, Debug, PartialEq, Eq, Hash, Structural)]
pub enum CoreType {
    /// High-performance core.
    Performance,
    /// High-efficiency core.
    Efficiency,
}

/// The value in the top byte of leaf 0x1a EAX that marks an efficiency core.
pub const CORE_TYPE_EFFICIENCY: u32 = 0x20;

/// Bit of leaf 7 EDX that marks a hybrid design.
pub const HYBRID_BIT: u32 = 15;

/// What one logical processor reports about itself.
#[derive(Debug)]
pub struct X86CpuInfo {
    /// Vendor identification, e.g. "GenuineIntel".
    pub vendor: String,
    /// Brand string, e.g. "Intel(R) Core(TM) i7-9700K CPU @ 3.60GHz".
    pub brand: String,
    /// Decoded capability flags.
    pub features: CpuFeatures,
    /// Number of physical cores.
    pub cores: u32,
    /// Number of threads per core.
    pub threads_per_core: u32,
    /// Whether the design has more than one class of core.
    pub hybrid: bool,
    /// The class of this core, in a hybrid design.
    pub core_type: Option<CoreType>,
}

impl Clone for X86CpuInfo {
    fn clone(&self) -> (r: Self)
        ensures
            r == *self,
    {
        X86CpuInfo {
            vendor: self.vendor.clone(),
            brand: self.brand.clone(),
            features: self.features,
            cores: self.cores,
            threads_per_core: self.threads_per_core,
            hybrid: self.hybrid,
            core_type: self.core_type,
        }
    }
}

/// The four bytes of `w`, least significant first.
pub open spec fn le_bytes(w: u32) -> Seq<u8> {
    seq![(w & 0xff) as u8, ((w >> 8) & 0xff) as u8, ((w >> 16) & 0xff) as u8, (w >> 24) as u8]
}

fn push_le_bytes(v: &mut Vec<u8>, w: u32)
    ensures
        final(v)@ == old(v)@ + le_bytes(w),
{
    v.push((w & 0xff) as u8);
    v.push(((w >> 8) & 0xff) as u8);
    v.push(((w >> 16) & 0xff) as u8);
    v.push((w >> 24) as u8);
    assert(final(v)@ =~= old(v)@ + le_bytes(w));
}

/// The twelve vendor bytes of leaf 0, in EBX, EDX, ECX order.
pub open spec fn vendor_bytes(raw: RawCpuid) -> Seq<u8> {
    le_bytes(raw.leaf_0.ebx) + le_bytes(raw.leaf_0.edx) + le_bytes(raw.leaf_0.ecx)
}

/// The text of one register: its four bytes, decoded on their own.
pub open spec fn word_text(w: u32) -> Seq<char> {
    lossy_utf8(le_bytes(w))
}

/// The text of one leaf: its registers' texts, in EAX, EBX, ECX, EDX order.
pub open spec fn leaf_text(l: CpuidLeaf) -> Seq<char> {
    word_text(l.eax) + word_text(l.ebx) + word_text(l.ecx) + word_text(l.edx)
}

/// The text of the three brand leaves.
pub open spec fn brand_text(raw: RawCpuid) -> Seq<char> {
    leaf_text(raw.ext_2) + leaf_text(raw.ext_3) + leaf_text(raw.ext_4)
}

/// The vendor string: the text of the vendor bytes without white space at
/// either end.
pub open spec fn spec_vendor(raw: RawCpuid) -> Seq<char> {
    trim_text(lossy_utf8(vendor_bytes(raw)))
}

/// The brand string: the brand text without its trailing NUL padding and
/// without white space at either end; empty where the brand leaves are not
/// supported.
pub open spec fn spec_brand(raw: RawCpuid) -> Seq<char> {
    if extended_supported(raw, LEAF_BRAND_LAST) {
        trim_text(trim_nul_end(brand_text(raw)))
    } else {
        Seq::empty()
    }
}

/// Logical processors per core and per package: from the topology-enumeration
/// leaf where it is supported, else one per core and the legacy count of leaf 1.
pub open spec fn spec_thread_counts(raw: RawCpuid) -> (u32, u32) {
    if standard_supported(raw, LEAF_TOPOLOGY) {
        (raw.leaf_b_0.ebx, raw.leaf_b_1.ebx)
    } else {
        (1, (eff_leaf_1(raw).ebx >> 16) & 0xff)
    }
}

/// Physical cores: logical processors per package over logical processors per
/// core, or one where the per-core count is zero.
pub open spec fn spec_core_count(raw: RawCpuid) -> u32 {
    let (per_core, per_package) = spec_thread_counts(raw);
    if per_core > 0 {
        (per_package / per_core) as u32
    } else {
        1
    }
}

/// The hybrid hint: bit 15 of leaf 7 EDX.
pub open spec fn spec_hybrid(raw: RawCpuid) -> bool {
    bit_set(eff_leaf_7(raw).edx, HYBRID_BIT)
}

/// The class that the top byte of leaf 0x1a EAX names: the efficiency marker
/// names an efficiency core, any other value a performance core.
pub open spec fn spec_core_type_of(eax: u32) -> CoreType {
    if eax >> 24 == CORE_TYPE_EFFICIENCY {
        CoreType::Efficiency
    } else {
        CoreType::Performance
    }
}

/// The core class of a hybrid design; none where the hint is clear.
pub open spec fn spec_core_type(raw: RawCpuid) -> Option<CoreType> {
    if spec_hybrid(raw) {
        Some(spec_core_type_of(leaf_if(standard_supported(raw, LEAF_HYBRID), raw.leaf_1a).eax))
    } else {
        None
    }
}

/// Classifies a core from leaf 0x1a EAX.
pub fn core_type_of(eax: u32) -> (r: CoreType)
    ensures
        r == spec_core_type_of(eax),
{
    if eax >> 24 == CORE_TYPE_EFFICIENCY {
        CoreType::Efficiency
    } else {
        CoreType::Performance
    }
}

/// Whether `info` is what decoding `raw` gives.
pub open spec fn decodes_to(raw: RawCpuid, info: X86CpuInfo) -> bool {
    &&& info.vendor@ == spec_vendor(raw)
    &&& info.brand@ == spec_brand(raw)
    &&& forall|f: InstructionSet| #[trigger] info.features.has(f) == decoded_flag(raw, f)
    &&& info.threads_per_core == spec_thread_counts(raw).0
    &&& info.cores == spec_core_count(raw)
    &&& info.hybrid == spec_hybrid(raw)
    &&& info.core_type == spec_core_type(raw)
}

/// Decodes the vendor string.
fn decode_vendor(raw: &RawCpuid) -> (r: String)
    ensures
        r@ == spec_vendor(*raw),
{
    let mut b: Vec<u8> = Vec::new();
    push_le_bytes(&mut b, raw.leaf_0.ebx);
    push_le_bytes(&mut b, raw.leaf_0.edx);
    push_le_bytes(&mut b, raw.leaf_0.ecx);
    assert(b@ =~= vendor_bytes(*raw));
    trimmed_text(b.as_slice())
}

fn append_word(s: &mut String, w: u32)
    ensures
        final(s)@ == old(s)@ + word_text(w),
{
    let mut b: Vec<u8> = Vec::new();
    push_le_bytes(&mut b, w);
    assert(b@ =~= le_bytes(w));
    let t = text_from_bytes(b.as_slice());
    s.append(t.as_str());
}

fn append_leaf(s: &mut String, l: CpuidLeaf)
    ensures
        final(s)@ == old(s)@ + leaf_text(l),
{
    append_word(s, l.eax);
    append_word(s, l.ebx);
    append_word(s, l.ecx);
    append_word(s, l.edx);
    assert(final(s)@ =~= old(s)@ + leaf_text(l));
}

/// Decodes the brand string.
fn decode_brand(raw: &RawCpuid) -> (r: String)
    ensures
        r@ == spec_brand(*raw),
{
    if LEAF_EXT_MAX <= LEAF_BRAND_LAST && LEAF_BRAND_LAST <= raw.ext_0.eax {
        let mut s = String::new();
        append_leaf(&mut s, raw.ext_2);
        append_leaf(&mut s, raw.ext_3);
        append_leaf(&mut s, raw.ext_4);
        assert(s@ =~= brand_text(*raw));
        let t = without_trailing_nul(s.as_str());
        trimmed(t.as_str())
    } else {
        String::new()
    }
}

/// Decodes everything that one logical processor reports from its raw probe words.
pub fn decode_core(raw: &RawCpuid) -> (r: X86CpuInfo)
    ensures
        decodes_to(*raw, r),
{
    let vendor = decode_vendor(raw);
    let brand = decode_brand(raw);
    let features = CpuFeatures::decode(raw);
    let l1 = select_leaf(LEAF_FEATURES <= raw.leaf_0.eax, raw.leaf_1);
    let l7 = select_leaf(LEAF_STRUCTURED <= raw.leaf_0.eax, raw.leaf_7);
    let (per_core, per_package) = if LEAF_TOPOLOGY <= raw.leaf_0.eax {
        (raw.leaf_b_0.ebx, raw.leaf_b_1.ebx)
    } else {
        (1u32, (l1.ebx >> 16) & 0xff)
    };
    let cores = if per_core > 0 {
        per_package / per_core
    } else {
        1
    };
    let hybrid = test_bit(l7.edx, HYBRID_BIT);
    let core_type = if hybrid {
        let l1a = select_leaf(LEAF_HYBRID <= raw.leaf_0.eax, raw.leaf_1a);
        Some(core_type_of(l1a.eax))
    } else {
        None
    };
    X86CpuInfo { vendor, brand, features, cores, threads_per_core: per_core, hybrid, core_type }
}

/// Whether `raw` is what `collect_raw` gathers through `probe` and `read_xcr0`:
/// the range queries come from the probe, each other leaf comes from the probe
/// where it is within the reported range and is zero where it is not, and the
/// extended-state register is read exactly when the support bit is set.
pub open spec fn collected_from<P: Fn(u32, u32) -> CpuidLeaf, X: Fn() -> u64>(
    raw: RawCpuid,
    probe: P,
    read_xcr0: X,
) -> bool {
    &&& probe.ensures((LEAF_VENDOR, 0u32), raw.leaf_0)
    &&& probe.ensures((LEAF_EXT_MAX, 0u32), raw.ext_0)
    &&& probe.ensures((LEAF_CENTAUR_MAX, 0u32), raw.centaur_0)
    &&& raw.leaf_1 == leaf_if(standard_supported(raw, LEAF_FEATURES), raw.leaf_1)
    &&& standard_supported(raw, LEAF_FEATURES) ==> probe.ensures((LEAF_FEATURES, 0u32), raw.leaf_1)
    &&& raw.leaf_7 == leaf_if(standard_supported(raw, LEAF_STRUCTURED), raw.leaf_7)
    &&& standard_supported(raw, LEAF_STRUCTURED) ==> probe.ensures((LEAF_STRUCTURED, 0u32), raw.leaf_7)
    &&& raw.leaf_b_0 == leaf_if(standard_supported(raw, LEAF_TOPOLOGY), raw.leaf_b_0)
    &&& standard_supported(raw, LEAF_TOPOLOGY) ==> probe.ensures((LEAF_TOPOLOGY, 0u32), raw.leaf_b_0)
    &&& raw.leaf_b_1 == leaf_if(standard_supported(raw, LEAF_TOPOLOGY), raw.leaf_b_1)
    &&& standard_supported(raw, LEAF_TOPOLOGY) ==> probe.ensures((LEAF_TOPOLOGY, 1u32), raw.leaf_b_1)
    &&& raw.leaf_1a == leaf_if(standard_supported(raw, LEAF_HYBRID), raw.leaf_1a)
    &&& standard_supported(raw, LEAF_HYBRID) ==> probe.ensures((LEAF_HYBRID, 0u32), raw.leaf_1a)
    &&& raw.ext_1 == leaf_if(extended_supported(raw, LEAF_EXT_FEATURES), raw.ext_1)
    &&& extended_supported(raw, LEAF_EXT_FEATURES) ==> probe.ensures((LEAF_EXT_FEATURES, 0u32), raw.ext_1)
    &&& raw.ext_2 == leaf_if(extended_supported(raw, LEAF_BRAND_LAST), raw.ext_2)
    &&& extended_supported(raw, LEAF_BRAND_LAST) ==> probe.ensures((0x8000_0002u32, 0u32), raw.ext_2)
    &&& raw.ext_3 == leaf_if(extended_supported(raw, LEAF_BRAND_LAST), raw.ext_3)
    &&& extended_supported(raw, LEAF_BRAND_LAST) ==> probe.ensures((0x8000_0003u32, 0u32), raw.ext_3)
    &&& raw.ext_4 == leaf_if(extended_supported(raw, LEAF_BRAND_LAST), raw.ext_4)
    &&& extended_supported(raw, LEAF_BRAND_LAST) ==> probe.ensures((LEAF_BRAND_LAST, 0u32), raw.ext_4)
    &&& raw.centaur_1 == leaf_if(centaur_supported(raw, LEAF_CENTAUR_FEATURES), raw.centaur_1)
    &&& centaur_supported(raw, LEAF_CENTAUR_FEATURES) ==> probe.ensures((LEAF_CENTAUR_FEATURES, 0u32), raw.centaur_1)
    &&& (raw.xcr0 is Some) == bit_set(raw.leaf_1.ecx, OSXSAVE_BIT)
    &&& forall|x: u64| raw.xcr0 == Some(x) ==> read_xcr0.ensures((), x)
}

/// Probes one leaf where `supported`, and gives zero words otherwise.
fn probe_if<P: Fn(u32, u32) -> CpuidLeaf>(probe: &P, supported: bool, leaf: u32, subleaf: u32) -> (r: CpuidLeaf)
    requires
        forall|l: u32, s: u32| probe.requires((l, s)),
    ensures
        r == leaf_if(supported, r),
        supported ==> probe.ensures((leaf, subleaf), r),
{
    if supported {
        probe(leaf, subleaf)
    } else {
        CpuidLeaf::zero()
    }
}

/// Gathers the raw words of the current logical processor through `probe`,
/// which issues one capability query, and `read_xcr0`, which reads the
/// extended-state register. The highest standard, extended and Centaur leaves
/// are queried first, and no leaf above them is queried. The register is read
/// only where leaf 1 reports that the operating system supports it, and
/// `read_xcr0` need not be callable otherwise.
pub fn collect_raw<P: Fn(u32, u32) -> CpuidLeaf, X: Fn() -> u64>(probe: &P, read_xcr0: &X) -> (r: RawCpuid)
    requires
        forall|l: u32, s: u32| probe.requires((l, s)),
        forall|l: CpuidLeaf|
            #[trigger] probe.ensures((LEAF_FEATURES, 0u32), l) && bit_set(l.ecx, OSXSAVE_BIT)
                ==> read_xcr0.requires(()),
    ensures
        collected_from(r, *probe, *read_xcr0),
{
    let leaf_0 = probe(LEAF_VENDOR, 0);
    let ext_0 = probe(LEAF_EXT_MAX, 0);
    let centaur_0 = probe(LEAF_CENTAUR_MAX, 0);
    let max_std = leaf_0.eax;
    let max_ext = ext_0.eax;
    let leaf_1 = probe_if(probe, LEAF_FEATURES <= max_std, LEAF_FEATURES, 0);
    let leaf_7 = probe_if(probe, LEAF_STRUCTURED <= max_std, LEAF_STRUCTURED, 0);
    let leaf_b_0 = probe_if(probe, LEAF_TOPOLOGY <= max_std, LEAF_TOPOLOGY, 0);
    let leaf_b_1 = probe_if(probe, LEAF_TOPOLOGY <= max_std, LEAF_TOPOLOGY, 1);
    let leaf_1a = probe_if(probe, LEAF_HYBRID <= max_std, LEAF_HYBRID, 0);
    let ext_1 = probe_if(probe, LEAF_EXT_FEATURES <= max_ext, LEAF_EXT_FEATURES, 0);
    let brand = LEAF_BRAND_LAST <= max_ext;
    let ext_2 = probe_if(probe, brand, 0x8000_0002, 0);
    let ext_3 = probe_if(probe, brand, 0x8000_0003, 0);
    let ext_4 = probe_if(probe, brand, LEAF_BRAND_LAST, 0);
    let centaur_1 = probe_if(
        probe,
        LEAF_CENTAUR_FEATURES <= centaur_0.eax,
        LEAF_CENTAUR_FEATURES,
        0,
    );
    proof {
        lemma_zero_has_no_bit(OSXSAVE_BIT);
    }
    let xcr0 = if test_bit(leaf_1.ecx, OSXSAVE_BIT) {
        Some(read_xcr0())
    } else {
        None
    };
    RawCpuid {
        leaf_0,
        leaf_1,
        leaf_7,
        leaf_b_0,
        leaf_b_1,
        leaf_1a,
        ext_0,
        ext_1,
        ext_2,
        ext_3,
        ext_4,
        centaur_0,
        centaur_1,
        xcr0,
    }
}

/// Probes the logical processor that runs the call: gathers its raw words and
/// decodes them.
pub fn gather_core<P: Fn(u32, u32) -> CpuidLeaf, X: Fn() -> u64>(probe: &P, read_xcr0: &X) -> (r: X86CpuInfo)
    requires
        forall|l: u32, s: u32| probe.requires((l, s)),
        forall|l: CpuidLeaf|
            #[trigger] probe.ensures((LEAF_FEATURES, 0u32), l) && bit_set(l.ecx, OSXSAVE_BIT)
                ==> read_xcr0.requires(()),
    ensures
        exists|raw: RawCpuid| collected_from(raw, *probe, *read_xcr0) && decodes_to(raw, r),
{
    let raw = collect_raw(probe, read_xcr0);
    decode_core(&raw)
}

} // verus!

verus! {

/// The snapshot of logical processor `current`, or of processor 0 where
/// `current` is out of range.
pub fn gather(cache: &CoreCache, current: usize) -> (r: X86CpuInfo)
    requires
        cache@.phase == CachePhase::Ready,
        cache@.slots.len() > 0,
    ensures
        current < cache@.slots.len() ==> r == ready_entries(cache@)[current as int],
        current >= cache@.slots.len() ==> r == ready_entries(cache@)[0],
{
    let e = cache.entries();
    if current < e.len() {
        e[current].clone()
    } else {
        e[0].clone()
    }
}

/// The snapshot of logical processor `idx`, if the cache is ready and holds one.
pub fn info_for_cpu(cache: &CoreCache, idx: usize) -> (r: Option<X86CpuInfo>)
    ensures
        cache@.phase == CachePhase::Ready && idx < cache@.slots.len() ==> r == Some(
            ready_entries(cache@)[idx as int],
        ),
        !(cache@.phase == CachePhase::Ready && idx < cache@.slots.len()) ==> r is None,
{
    let e = cache.entries();
    if idx < e.len() {
        Some(e[idx].clone())
    } else {
        None
    }
}

/// The snapshots of all logical processors, indexed by processor; empty
/// before the build completes.
pub fn all_cpuinfos(cache: &CoreCache) -> (r: &[X86CpuInfo])
    ensures
        cache@.phase == CachePhase::Ready ==> r@ == ready_entries(cache@),
        cache@.phase != CachePhase::Ready ==> r@.len() == 0,
{
    cache.entries()
}

} // verus!
